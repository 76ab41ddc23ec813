//! Name-keyed emote catalogs, and the aggregator's merge of provider results.

use vstd::prelude::*;

use crate::platform::ChannelEmote;
use crate::platform::PlatformError;

verus! {

/// The entry a sequence of emotes defines for a name: the last one carrying
/// that name, as repeated insertion leaves it.
pub open spec fn lookup_seq(s: Seq<ChannelEmote>, name: Seq<char>) -> Option<ChannelEmote>
    decreases s.len(),
{
    if s.len() == 0 {
        None
    } else if s.last().name@ == name {
        Some(s.last())
    } else {
        lookup_seq(s.drop_last(), name)
    }
}

/// No two entries share a name.
pub open spec fn unique_names(s: Seq<ChannelEmote>) -> bool {
    forall|i: int, j: int| 0 <= i < j < s.len() ==> s[i].name@ != s[j].name@
}

/// In a concatenation, the later part answers first.
pub proof fn lemma_lookup_concat(a: Seq<ChannelEmote>, b: Seq<ChannelEmote>, name: Seq<char>)
    ensures
        lookup_seq(a + b, name) == (match lookup_seq(b, name) {
            Some(e) => Some(e),
            None => lookup_seq(a, name),
        }),
    decreases b.len(),
{
    if b.len() == 0 {
        assert(a + b =~= a);
    } else {
        assert((a + b).drop_last() =~= a + b.drop_last());
        assert((a + b).last() == b.last());
        lemma_lookup_concat(a, b.drop_last(), name);
    }
}

/// Under unique names, the lookup finds each entry where it stands.
pub proof fn lemma_lookup_index(s: Seq<ChannelEmote>, i: int)
    requires
        unique_names(s),
        0 <= i < s.len(),
    ensures
        lookup_seq(s, s[i].name@) == Some(s[i]),
    decreases s.len(),
{
    if i == s.len() - 1 {
    } else {
        assert(s[i].name@ != s[s.len() - 1].name@);
        lemma_lookup_index(s.drop_last(), i);
    }
}

/// A name no entry carries has no lookup result.
pub proof fn lemma_lookup_absent(s: Seq<ChannelEmote>, name: Seq<char>)
    requires
        forall|i: int| 0 <= i < s.len() ==> (#[trigger] s[i]).name@ != name,
    ensures
        lookup_seq(s, name) is None,
    decreases s.len(),
{
    if s.len() > 0 {
        lemma_lookup_absent(s.drop_last(), name);
    }
}

/// A lookup result is one of the entries, under the looked-up name.
pub proof fn lemma_lookup_found(s: Seq<ChannelEmote>, name: Seq<char>)
    requires
        lookup_seq(s, name) is Some,
    ensures
        exists|i: int|
            0 <= i < s.len() && s[i] == lookup_seq(s, name)->Some_0 && (#[trigger] s[i]).name@
                == name,
    decreases s.len(),
{
    if s.len() > 0 {
        if s.last().name@ == name {
            assert(s[s.len() - 1] == lookup_seq(s, name)->Some_0);
        } else {
            lemma_lookup_found(s.drop_last(), name);
            let i = choose|i: int|
                0 <= i < s.drop_last().len() && s.drop_last()[i] == lookup_seq(
                    s.drop_last(),
                    name,
                )->Some_0 && (#[trigger] s.drop_last()[i]).name@ == name;
            assert(s[i] == s.drop_last()[i]);
        }
    }
}

/// A mapping from emote name to [`ChannelEmote`] for one channel, built from
/// a union of provider results. Names are unique; the last writer wins.
#[derive(Debug, Clone)]
pub struct Catalog {
    emotes: Vec<ChannelEmote>,
}

impl Catalog {
    /// The entries, in insertion order.
    pub closed spec fn entries(self) -> Seq<ChannelEmote> {
        self.emotes@
    }

    /// The entry stored under a name.
    pub open spec fn lookup(self, name: Seq<char>) -> Option<ChannelEmote> {
        lookup_seq(self.entries(), name)
    }

    /// Whether any entry carries the name.
    pub open spec fn has_name(self, name: Seq<char>) -> bool {
        self.lookup(name) is Some
    }

    /// Names are unique.
    pub closed spec fn wf(self) -> bool {
        unique_names(self.emotes@)
    }

    /// An empty catalog.
    pub fn new() -> (r: Catalog)
        ensures
            r.wf(),
            r.entries() =~= Seq::<ChannelEmote>::empty(),
    {
        Catalog { emotes: Vec::new() }
    }

    /// How many emotes the catalog holds.
    pub fn len(&self) -> (r: usize)
        ensures
            r == self.entries().len(),
    {
        self.emotes.len()
    }

    /// Read access to the entries, for serialization.
    pub fn entries_vec(&self) -> (r: &Vec<ChannelEmote>)
        ensures
            r@ == self.entries(),
    {
        &self.emotes
    }

    /// Scans for the position of a name.
    fn find(&self, name: &String) -> (r: Option<usize>)
        requires
            self.wf(),
        ensures
            match r {
                Some(i) => i < self.entries().len() && self.entries()[i as int].name@ == name@,
                None => forall|i: int|
                    0 <= i < self.entries().len() ==> (#[trigger] self.entries()[i]).name@
                        != name@,
            },
    {
        let n = self.emotes.len();
        for i in 0..n
            invariant
                n == self.emotes@.len(),
                forall|j: int| 0 <= j < i ==> (#[trigger] self.emotes@[j]).name@ != name@,
        {
            if self.emotes[i].name == *name {
                return Some(i);
            }
        }
        None
    }

    /// The entry stored under `name`, if any.
    pub fn get(&self, name: &String) -> (r: Option<&ChannelEmote>)
        requires
            self.wf(),
        ensures
            match r {
                Some(e) => self.lookup(name@) == Some(*e),
                None => self.lookup(name@) is None,
            },
    {
        match self.find(name) {
            Some(i) => {
                proof {
                    lemma_lookup_index(self.emotes@, i as int);
                }
                Some(&self.emotes[i])
            },
            None => {
                proof {
                    lemma_lookup_absent(self.emotes@, name@);
                }
                None
            },
        }
    }

    /// Stores `e` under its name, replacing any entry with that name.
    pub fn insert(&mut self, e: ChannelEmote)
        requires
            old(self).wf(),
        ensures
            final(self).wf(),
            forall|n: Seq<char>|
                #[trigger] final(self).lookup(n) == (if n == e.name@ {
                    Some(e)
                } else {
                    old(self).lookup(n)
                }),
            !old(self).has_name(e.name@) ==> final(self).entries() == old(self).entries().push(e),
            final(self).entries().len() <= old(self).entries().len() + 1,
    {
        let ghost pre = *self;
        let found = self.find(&e.name);
        match found {
            Some(i) => {
                let _ = self.emotes.remove(i);
                proof {
                    assert forall|x: int, y: int|
                        0 <= x < y < self.emotes@.len() implies self.emotes@[x].name@
                        != self.emotes@[y].name@ by {
                        let px: int = if x < i {
                            x
                        } else {
                            x + 1
                        };
                        let py: int = if y < i {
                            y
                        } else {
                            y + 1
                        };
                        assert(self.emotes@[x] == pre.emotes@[px]);
                        assert(self.emotes@[y] == pre.emotes@[py]);
                    }
                }
            },
            None => (),
        };
        let ghost mid = *self;
        self.emotes.push(e);
        proof {
            let fin = self.emotes@;
            let last = fin.len() - 1;
            // Every mid entry came from pre, at its index or one past it.
            assert forall|x: int, y: int| 0 <= x < y < fin.len() implies fin[x].name@
                != fin[y].name@ by {
                if y < last {
                    assert(fin[x] == mid.emotes@[x] && fin[y] == mid.emotes@[y]);
                } else {
                    assert(fin[y] == e);
                    assert(fin[x] == mid.emotes@[x]);
                    match found {
                        Some(i) => {
                            let px: int = if x < i {
                                x
                            } else {
                                x + 1
                            };
                            assert(mid.emotes@[x] == pre.emotes@[px]);
                            if px != i {
                                assert(pre.emotes@[px].name@ != pre.emotes@[i as int].name@);
                            }
                        },
                        None => {},
                    }
                }
            }
            assert(self.wf());
            match found {
                Some(i) => {
                    lemma_lookup_index(pre.emotes@, i as int);
                    assert(pre.has_name(e.name@));
                },
                None => {
                    assert(fin =~= pre.emotes@.push(e));
                },
            }
            assert forall|n: Seq<char>| true implies #[trigger] self.lookup(n) == (if n == e.name@ {
                Some(e)
            } else {
                pre.lookup(n)
            }) by {
                if n == e.name@ {
                    lemma_lookup_index(fin, last);
                } else {
                    assert(fin.drop_last() =~= mid.emotes@);
                    match lookup_seq(fin, n) {
                        Some(_) => {
                            lemma_lookup_found(fin, n);
                            let a = choose|a: int|
                                0 <= a < fin.len() && fin[a] == lookup_seq(fin, n)->Some_0 && (
                                #[trigger] fin[a]).name@ == n;
                            assert(a < last);
                            lemma_lookup_index(fin, a);
                            match found {
                                Some(i) => {
                                    let pa: int = if a < i {
                                        a
                                    } else {
                                        a + 1
                                    };
                                    assert(fin[a] == pre.emotes@[pa]);
                                    lemma_lookup_index(pre.emotes@, pa);
                                },
                                None => {
                                    assert(fin[a] == pre.emotes@[a]);
                                    lemma_lookup_index(pre.emotes@, a);
                                },
                            }
                        },
                        None => {
                            assert forall|a: int| 0 <= a < pre.emotes@.len() implies (
                            #[trigger] pre.emotes@[a]).name@ != n by {
                                if pre.emotes@[a].name@ == n {
                                    match found {
                                        Some(i) => {
                                            if a != i {
                                                let ma: int = if a < i {
                                                    a
                                                } else {
                                                    a - 1
                                                };
                                                assert(fin[ma] == pre.emotes@[a]);
                                                lemma_lookup_index(fin, ma);
                                            } else {
                                                assert(pre.emotes@[i as int].name@ == e.name@);
                                            }
                                        },
                                        None => {
                                            assert(fin[a] == pre.emotes@[a]);
                                            lemma_lookup_index(fin, a);
                                        },
                                    }
                                }
                            }
                            lemma_lookup_absent(pre.emotes@, n);
                        },
                    }
                }
            }
        }
    }

    /// Inserts every emote of `list` in order: within the list, and against
    /// the current entries, the later writer wins name by name.
    pub fn extend_from(&mut self, list: &Vec<ChannelEmote>)
        requires
            old(self).wf(),
        ensures
            final(self).wf(),
            forall|n: Seq<char>|
                #[trigger] final(self).lookup(n) == (match lookup_seq(list@, n) {
                    Some(e) => Some(e),
                    None => old(self).lookup(n),
                }),
            old(self).entries().len() == 0 && unique_names(list@) ==> final(self).entries()
                == list@,
    {
        let ghost pre = *self;
        let n = list.len();
        for i in 0..n
            invariant
                n == list@.len(),
                self.wf(),
                forall|m: Seq<char>|
                    #[trigger] self.lookup(m) == (match lookup_seq(list@.take(i as int), m) {
                        Some(e) => Some(e),
                        None => pre.lookup(m),
                    }),
                pre.entries().len() == 0 && unique_names(list@) ==> self.entries() == list@.take(
                    i as int,
                ),
        {
            let ghost mid = *self;
            self.insert(list[i].clone_emote());
            proof {
                let taken = list@.take(i as int);
                let taken1 = list@.take(i + 1);
                assert(taken1.drop_last() =~= taken);
                assert(taken1.last() == list@[i as int]);
                assert forall|m: Seq<char>| true implies #[trigger] self.lookup(m) == (
                match lookup_seq(taken1, m) {
                    Some(e) => Some(e),
                    None => pre.lookup(m),
                }) by {}
                if pre.entries().len() == 0 && unique_names(list@) {
                    assert forall|a: int| 0 <= a < taken.len() implies (
                    #[trigger] taken[a]).name@ != list@[i as int].name@ by {
                        assert(taken[a] == list@[a]);
                    }
                    lemma_lookup_absent(taken, list@[i as int].name@);
                    assert(!mid.has_name(list@[i as int].name@));
                    assert(self.entries() =~= taken1);
                }
            }
        }
        proof {
            assert(list@.take(n as int) =~= list@);
        }
    }
}

/// The catalog entries a provider result contributes: its list, or nothing.
pub open spec fn ok_or_empty(r: Result<Vec<ChannelEmote>, PlatformError>) -> Seq<ChannelEmote> {
    match r {
        Ok(v) => v@,
        Err(_) => Seq::empty(),
    }
}

/// Merges the three third-party provider results into one catalog, in the
/// fixed order 7TV, then BetterTTV, then FrankerFaceZ: on a name collision the
/// later provider wins, and a provider that failed contributes nothing. The
/// merge succeeds whatever failed; with all three failed the catalog is
/// empty.
pub fn merge_channel_emotes(
    seventv: &Result<Vec<ChannelEmote>, PlatformError>,
    bttv: &Result<Vec<ChannelEmote>, PlatformError>,
    ffz: &Result<Vec<ChannelEmote>, PlatformError>,
) -> (r: Catalog)
    ensures
        r.wf(),
        forall|n: Seq<char>|
            #[trigger] r.lookup(n) == lookup_seq(
                ok_or_empty(*seventv) + ok_or_empty(*bttv) + ok_or_empty(*ffz),
                n,
            ),
        seventv is Err && bttv is Err && ffz is Err ==> r.entries().len() == 0,
        seventv matches Ok(l) ==> (unique_names(l@) && bttv is Err && ffz is Err ==> r.entries()
            == l@),
        bttv matches Ok(l) ==> (unique_names(l@) && seventv is Err && ffz is Err ==> r.entries()
            == l@),
        ffz matches Ok(l) ==> (unique_names(l@) && seventv is Err && bttv is Err ==> r.entries()
            == l@),
{
    let ghost s = ok_or_empty(*seventv);
    let ghost b = ok_or_empty(*bttv);
    let ghost f = ok_or_empty(*ffz);
    let mut r = Catalog::new();
    match seventv {
        Ok(list) => r.extend_from(list),
        Err(_) => (),
    }
    proof {
        assert forall|n: Seq<char>| #[trigger] r.lookup(n) == lookup_seq(s, n) by {
            if seventv is Err {
                assert(s.len() == 0);
            }
        }
    }
    match bttv {
        Ok(list) => r.extend_from(list),
        Err(_) => (),
    }
    proof {
        assert forall|n: Seq<char>| #[trigger] r.lookup(n) == lookup_seq(s + b, n) by {
            lemma_lookup_concat(s, b, n);
            if bttv is Err {
                assert(b.len() == 0);
            }
        }
    }
    match ffz {
        Ok(list) => r.extend_from(list),
        Err(_) => (),
    }
    proof {
        assert forall|n: Seq<char>| #[trigger] r.lookup(n) == lookup_seq(s + b + f, n) by {
            lemma_lookup_concat(s + b, f, n);
            if ffz is Err {
                assert(f.len() == 0);
            }
        }
    }
    r
}

/// Catalog merge order: for any name, the last provider in the order 7TV,
/// BetterTTV, FrankerFaceZ that serves it supplies the entry of the merged
/// sequence.
pub proof fn lemma_merge_order(
    s: Seq<ChannelEmote>,
    b: Seq<ChannelEmote>,
    f: Seq<ChannelEmote>,
    n: Seq<char>,
)
    ensures
        lookup_seq(f, n) is Some ==> lookup_seq(s + b + f, n) == lookup_seq(f, n),
        lookup_seq(f, n) is None && lookup_seq(b, n) is Some ==> lookup_seq(s + b + f, n)
            == lookup_seq(b, n),
        lookup_seq(f, n) is None && lookup_seq(b, n) is None ==> lookup_seq(s + b + f, n)
            == lookup_seq(s, n),
{
    lemma_lookup_concat(s + b, f, n);
    lemma_lookup_concat(s, b, n);
}

} // verus!
