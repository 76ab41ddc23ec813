//! A keyed mapping with per-entry expiry.
//!
//! Time is modeled explicitly: every operation takes the current time as a
//! millisecond count, so the expiry rules are stated and proved exactly. An
//! entry inserted at time `t` is live while `now <= t + max_age` and stale
//! afterwards; `get` removes a stale entry it finds, and [`Cache::evict_stale`]
//! drops every stale entry at once.

use vstd::prelude::*;

verus! {

/// One stored value together with the time it was inserted or last refreshed.
#[derive(Debug, Clone)]
pub struct CachedItem<V> {
    pub added_timestamp: u64,
    pub data: V,
}

impl<V> CachedItem<V> {
    /// Wraps `data` with `now` as its insertion time.
    pub fn new(data: V, now: u64) -> (r: Self)
        ensures
            r.added_timestamp == now,
            r.data == data,
    {
        Self { added_timestamp: now, data }
    }

    /// Resets the insertion time to `now`, keeping the value.
    pub fn refresh(&mut self, now: u64)
        ensures
            final(self).added_timestamp == now,
            final(self).data == old(self).data,
    {
        self.added_timestamp = now;
    }
}

/// A mapping from string keys to values with a fixed maximum entry age.
#[derive(Debug, Clone)]
pub struct Cache<V> {
    max_age: u64,
    entries: Vec<(String, CachedItem<V>)>,
}

impl<V> Cache<V> {
    /// The maximum age, in the same unit as the `now` arguments.
    pub closed spec fn max_age(self) -> u64 {
        self.max_age
    }

    /// How many entries the cache holds, live or stale.
    pub closed spec fn entry_count(self) -> nat {
        self.entries@.len()
    }

    /// Whether the key is present (live or stale).
    pub closed spec fn has_key(self, k: Seq<char>) -> bool {
        exists|i: int| 0 <= i < self.entries@.len() && self.entries@[i].0@ == k
    }

    spec fn idx_of(self, k: Seq<char>) -> int {
        choose|i: int| 0 <= i < self.entries@.len() && self.entries@[i].0@ == k
    }

    /// The value stored under a present key.
    pub closed spec fn value_of(self, k: Seq<char>) -> V
        recommends
            self.has_key(k),
    {
        self.entries@[self.idx_of(k)].1.data
    }

    /// The insertion (or last refresh) time of a present key.
    pub closed spec fn time_of(self, k: Seq<char>) -> u64
        recommends
            self.has_key(k),
    {
        self.entries@[self.idx_of(k)].1.added_timestamp
    }

    /// A present key whose entry has not outlived `max_age` at time `now`.
    pub open spec fn live(self, k: Seq<char>, now: u64) -> bool {
        self.has_key(k) && now <= self.time_of(k) + self.max_age()
    }

    /// `e` is one of the entries of `s`.
    spec fn entry_from(s: Seq<(String, CachedItem<V>)>, e: (String, CachedItem<V>)) -> bool {
        exists|oi: int| 0 <= oi < s.len() && e == s[oi]
    }

    /// Keys are unique, so each lookup is unambiguous.
    pub closed spec fn wf(self) -> bool {
        forall|i: int, j: int|
            0 <= i < j < self.entries@.len() ==> self.entries@[i].0@ != self.entries@[j].0@
    }

    proof fn lemma_idx(self, k: Seq<char>, i: int)
        requires
            self.wf(),
            0 <= i < self.entries@.len(),
            self.entries@[i].0@ == k,
        ensures
            self.has_key(k),
            self.idx_of(k) == i,
    {
        assert(self.has_key(k));
        let j = self.idx_of(k);
        assert(0 <= j < self.entries@.len() && self.entries@[j].0@ == k);
        if i < j {
            assert(self.entries@[i].0@ != self.entries@[j].0@);
        } else if j < i {
            assert(self.entries@[j].0@ != self.entries@[i].0@);
        }
    }

    /// An empty cache with the given maximum entry age.
    pub fn new(max_age: u64) -> (r: Self)
        ensures
            r.wf(),
            r.max_age() == max_age,
            r.entry_count() == 0,
            forall|k: Seq<char>| !r.has_key(k),
    {
        Self { max_age, entries: Vec::new() }
    }

    /// Scans for the key; returns its position if present.
    fn find(&self, key: &String) -> (r: Option<usize>)
        requires
            self.wf(),
        ensures
            match r {
                Some(i) => i < self.entries@.len() && self.entries@[i as int].0@ == key@
                    && self.has_key(key@) && self.idx_of(key@) == i,
                None => !self.has_key(key@),
            },
    {
        let n = self.entries.len();
        for i in 0..n
            invariant
                n == self.entries@.len(),
                self.wf(),
                forall|j: int| 0 <= j < i ==> self.entries@[j].0@ != key@,
        {
            if self.entries[i].0 == *key {
                proof {
                    self.lemma_idx(key@, i as int);
                }
                return Some(i);
            }
        }
        None
    }

    /// Stores `value` under `key` with insertion time `now`, returning the
    /// value previously stored under that key, if any.
    pub fn insert(&mut self, key: String, value: V, now: u64) -> (prev: Option<V>)
        requires
            old(self).wf(),
        ensures
            final(self).wf(),
            final(self).max_age() == old(self).max_age(),
            final(self).has_key(key@),
            final(self).time_of(key@) == now,
            final(self).value_of(key@) == value,
            forall|k: Seq<char>| k != key@ ==> final(self).has_key(k) == old(self).has_key(k),
            forall|k: Seq<char>|
                k != key@ && old(self).has_key(k) ==> final(self).value_of(k) == old(
                    self,
                ).value_of(k) && final(self).time_of(k) == old(self).time_of(k),
            match prev {
                Some(v) => old(self).has_key(key@) && v == old(self).value_of(key@),
                None => !old(self).has_key(key@),
            },
    {
        let found = self.find(&key);
        let ghost pre = *self;
        let prev = match found {
            Some(i) => {
                let removed = self.entries.remove(i);
                proof {
                    assert forall|k: Seq<char>| k != key@ implies #[trigger] self.has_key(k)
                        == pre.has_key(k) by {
                        if self.has_key(k) {
                            let a = choose|a: int|
                                0 <= a < self.entries@.len() && self.entries@[a].0@ == k;
                            if a < i {
                                assert(pre.entries@[a].0@ == k);
                            } else {
                                assert(pre.entries@[a + 1].0@ == k);
                            }
                        }
                        if pre.has_key(k) {
                            let a = pre.idx_of(k);
                            if a < i {
                                assert(self.entries@[a].0@ == k);
                            } else {
                                assert(pre.entries@[a].0@ != pre.entries@[i as int].0@);
                                assert(self.entries@[a - 1].0@ == k);
                            }
                        }
                    }
                    assert forall|k: Seq<char>| k != key@ && pre.has_key(k) implies self.value_of(k)
                        == pre.value_of(k) && self.time_of(k) == pre.time_of(k) by {
                        let a = pre.idx_of(k);
                        if a < i {
                            self.lemma_idx(k, a);
                        } else {
                            assert(pre.entries@[a].0@ != pre.entries@[i as int].0@);
                            self.lemma_idx(k, a - 1);
                        }
                    }
                    assert(!self.has_key(key@)) by {
                        if self.has_key(key@) {
                            let a = choose|a: int|
                                0 <= a < self.entries@.len() && self.entries@[a].0@ == key@;
                            if a < i {
                                assert(pre.entries@[a].0@ != pre.entries@[i as int].0@);
                            } else {
                                assert(pre.entries@[i as int].0@ != pre.entries@[a + 1].0@);
                            }
                        }
                    }
                }
                Some(removed.1.data)
            },
            None => None,
        };
        let ghost mid = *self;
        self.entries.push((key, CachedItem::new(value, now)));
        proof {
            let n = self.entries@.len() - 1;
            assert(self.entries@[n].0@ == key@);
            self.lemma_idx(key@, n);
            assert forall|k: Seq<char>| k != key@ implies #[trigger] self.has_key(k) == mid.has_key(
                k,
            ) by {
                if self.has_key(k) {
                    let a = choose|a: int|
                        0 <= a < self.entries@.len() && self.entries@[a].0@ == k;
                    assert(a < n);
                    assert(mid.entries@[a].0@ == k);
                }
                if mid.has_key(k) {
                    let a = mid.idx_of(k);
                    assert(self.entries@[a].0@ == k);
                }
            }
            assert forall|k: Seq<char>| k != key@ && mid.has_key(k) implies self.value_of(k)
                == mid.value_of(k) && self.time_of(k) == mid.time_of(k) by {
                let a = mid.idx_of(k);
                self.lemma_idx(k, a);
            }
        }
        prev
    }

    /// Returns the value stored under `key` if it is live at `now`. A stale
    /// entry found under `key` is removed before returning absent.
    pub fn get(&mut self, key: &String, now: u64) -> (r: Option<&V>)
        requires
            old(self).wf(),
        ensures
            final(self).wf(),
            final(self).max_age() == old(self).max_age(),
            old(self).live(key@, now) ==> *final(self) == *old(self) && match r {
                Some(v) => *v == old(self).value_of(key@),
                None => false,
            },
            !old(self).live(key@, now) ==> r is None && !final(self).has_key(key@),
            forall|k: Seq<char>| k != key@ ==> final(self).has_key(k) == old(self).has_key(k),
            forall|k: Seq<char>|
                k != key@ && old(self).has_key(k) ==> final(self).value_of(k) == old(
                    self,
                ).value_of(k) && final(self).time_of(k) == old(self).time_of(k),
    {
        let ghost pre = *self;
        let found = self.find(key);
        match found {
            Some(i) => {
                let added = self.entries[i].1.added_timestamp;
                let is_live = match added.checked_add(self.max_age) {
                    Some(limit) => now <= limit,
                    None => true,
                };
                if is_live {
                    Some(&self.entries[i].1.data)
                } else {
                    let _ = self.entries.remove(i);
                    proof {
                        assert(!pre.live(key@, now));
                        assert forall|k: Seq<char>| k != key@ implies #[trigger] self.has_key(k)
                            == pre.has_key(k) by {
                            if self.has_key(k) {
                                let a = choose|a: int|
                                    0 <= a < self.entries@.len() && self.entries@[a].0@ == k;
                                if a < i {
                                    assert(pre.entries@[a].0@ == k);
                                } else {
                                    assert(pre.entries@[a + 1].0@ == k);
                                }
                            }
                            if pre.has_key(k) {
                                let a = pre.idx_of(k);
                                if a < i {
                                    assert(self.entries@[a].0@ == k);
                                } else {
                                    assert(pre.entries@[a].0@ != pre.entries@[i as int].0@);
                                    assert(self.entries@[a - 1].0@ == k);
                                }
                            }
                        }
                        assert forall|k: Seq<char>| k != key@ && pre.has_key(k) implies
                            self.value_of(k) == pre.value_of(k) && self.time_of(k) == pre.time_of(
                            k,
                        ) by {
                            let a = pre.idx_of(k);
                            if a < i {
                                self.lemma_idx(k, a);
                            } else {
                                assert(pre.entries@[a].0@ != pre.entries@[i as int].0@);
                                self.lemma_idx(k, a - 1);
                            }
                        }
                        assert(!self.has_key(key@)) by {
                            if self.has_key(key@) {
                                let a = choose|a: int|
                                    0 <= a < self.entries@.len() && self.entries@[a].0@ == key@;
                                if a < i {
                                    assert(pre.entries@[a].0@ != pre.entries@[i as int].0@);
                                } else {
                                    assert(pre.entries@[i as int].0@ != pre.entries@[a + 1].0@);
                                }
                            }
                        }
                    }
                    None
                }
            },
            None => None,
        }
    }

    /// `post` is `pre` with the value under `k` replaced by `val`: the key
    /// and insertion time stay, every other entry stays, and nothing else
    /// changes. What this means for the cache's contents is spelled out by
    /// [`lemma_value_replaced`].
    pub closed spec fn value_replaced(pre: Cache<V>, k: Seq<char>, post: Cache<V>, val: V) -> bool {
        let i = pre.idx_of(k);
        pre.has_key(k) && post.max_age == pre.max_age && post.entries@ == pre.entries@.update(
            i,
            (
                pre.entries@[i].0,
                CachedItem { added_timestamp: pre.entries@[i].1.added_timestamp, data: val },
            ),
        )
    }

    /// Returns a mutable reference to the value stored under `key` if it is
    /// live at `now`; a stale or missing entry leaves the cache unchanged.
    /// Writes through the reference replace the value under `key` and nothing
    /// else.
    pub fn get_mut(&mut self, key: &String, now: u64) -> (r: Option<&mut V>)
        requires
            old(self).wf(),
        ensures
            match r {
                Some(v) => old(self).live(key@, now) && *v == old(self).value_of(key@)
                    && Self::value_replaced(*old(self), key@, *final(self), *final(v)),
                None => !old(self).live(key@, now) && *final(self) == *old(self),
            },
    {
        let found = self.find(key);
        match found {
            Some(i) => {
                let added = self.entries[i].1.added_timestamp;
                let is_live = match added.checked_add(self.max_age) {
                    Some(limit) => now <= limit,
                    None => true,
                };
                if is_live {
                    let entry = &mut self.entries[i];
                    Some(&mut entry.1.data)
                } else {
                    None
                }
            },
            None => None,
        }
    }

    /// Resets the insertion time of `key` to `now` if it is present; returns
    /// whether it was.
    pub fn refresh(&mut self, key: &String, now: u64) -> (r: Option<()>)
        requires
            old(self).wf(),
        ensures
            final(self).wf(),
            final(self).max_age() == old(self).max_age(),
            r is Some <==> old(self).has_key(key@),
            forall|k: Seq<char>| final(self).has_key(k) == old(self).has_key(k),
            old(self).has_key(key@) ==> final(self).time_of(key@) == now && final(self).value_of(
                key@,
            ) == old(self).value_of(key@),
            forall|k: Seq<char>|
                k != key@ && old(self).has_key(k) ==> final(self).value_of(k) == old(
                    self,
                ).value_of(k) && final(self).time_of(k) == old(self).time_of(k),
            !old(self).has_key(key@) ==> *final(self) == *old(self),
    {
        let ghost pre = *self;
        let found = self.find(key);
        match found {
            Some(i) => {
                let mut removed = self.entries.remove(i);
                removed.1.refresh(now);
                let ghost mid = *self;
                proof {
                    assert forall|k: Seq<char>| k != key@ implies (#[trigger] mid.has_key(k)
                        == pre.has_key(k)) && !(mid.has_key(key@)) by {
                        if mid.has_key(k) {
                            let a = choose|a: int|
                                0 <= a < mid.entries@.len() && mid.entries@[a].0@ == k;
                            if a < i {
                                assert(pre.entries@[a].0@ == k);
                            } else {
                                assert(pre.entries@[a + 1].0@ == k);
                            }
                        }
                        if pre.has_key(k) {
                            let a = pre.idx_of(k);
                            if a < i {
                                assert(mid.entries@[a].0@ == k);
                            } else {
                                assert(pre.entries@[a].0@ != pre.entries@[i as int].0@);
                                assert(mid.entries@[a - 1].0@ == k);
                            }
                        }
                        if mid.has_key(key@) {
                            let a = choose|a: int|
                                0 <= a < mid.entries@.len() && mid.entries@[a].0@ == key@;
                            if a < i {
                                assert(pre.entries@[a].0@ != pre.entries@[i as int].0@);
                            } else {
                                assert(pre.entries@[i as int].0@ != pre.entries@[a + 1].0@);
                            }
                        }
                    }
                    assert forall|k: Seq<char>| k != key@ && pre.has_key(k) implies mid.value_of(k)
                        == pre.value_of(k) && mid.time_of(k) == pre.time_of(k) by {
                        let a = pre.idx_of(k);
                        if a < i {
                            mid.lemma_idx(k, a);
                        } else {
                            assert(pre.entries@[a].0@ != pre.entries@[i as int].0@);
                            mid.lemma_idx(k, a - 1);
                        }
                    }
                }
                self.entries.push(removed);
                proof {
                    let n = self.entries@.len() - 1;
                    assert(self.entries@[n].0@ == key@);
                    self.lemma_idx(key@, n);
                    assert forall|k: Seq<char>| k != key@ implies #[trigger] self.has_key(k)
                        == mid.has_key(k) by {
                        if self.has_key(k) {
                            let a = choose|a: int|
                                0 <= a < self.entries@.len() && self.entries@[a].0@ == k;
                            assert(a < n);
                            assert(mid.entries@[a].0@ == k);
                        }
                        if mid.has_key(k) {
                            let a = mid.idx_of(k);
                            assert(self.entries@[a].0@ == k);
                        }
                    }
                    assert forall|k: Seq<char>| k != key@ && mid.has_key(k) implies self.value_of(k)
                        == mid.value_of(k) && self.time_of(k) == mid.time_of(k) by {
                        let a = mid.idx_of(k);
                        self.lemma_idx(k, a);
                    }
                }
                Some(())
            },
            None => None,
        }
    }

    /// Drops every entry that is stale at `now`; live entries are kept with
    /// their values and insertion times.
    pub fn evict_stale(&mut self, now: u64)
        requires
            old(self).wf(),
        ensures
            final(self).wf(),
            final(self).max_age() == old(self).max_age(),
            forall|k: Seq<char>|
                #[trigger] final(self).has_key(k) <==> old(self).has_key(k) && old(self).live(
                    k,
                    now,
                ),
            forall|k: Seq<char>|
                final(self).has_key(k) ==> final(self).value_of(k) == old(self).value_of(k)
                    && final(self).time_of(k) == old(self).time_of(k),
    {
        let ghost pre = *self;
        proof {
            assert forall|a: int| 0 <= a < self.entries@.len() implies #[trigger] Self::entry_from(
                pre.entries@,
                self.entries@[a],
            ) by {
                assert(self.entries@[a] == pre.entries@[a]);
            }
        }
        let mut i: usize = 0;
        while i < self.entries.len()
            invariant
                pre.wf(),
                self.wf(),
                self.max_age == pre.max_age,
                i <= self.entries@.len(),
                forall|a: int|
                    0 <= a < self.entries@.len() ==> #[trigger] Self::entry_from(
                        pre.entries@,
                        self.entries@[a],
                    ),
                forall|a: int|
                    0 <= a < i ==> now <= #[trigger] self.entries@[a].1.added_timestamp
                        + self.max_age,
                forall|k: Seq<char>|
                    pre.has_key(k) && now <= pre.time_of(k) + pre.max_age ==> #[trigger] self.has_key(k),
            decreases self.entries@.len() - i,
        {
            let ghost mid = *self;
            let added = self.entries[i].1.added_timestamp;
            let is_live = match added.checked_add(self.max_age) {
                Some(limit) => now <= limit,
                None => true,
            };
            if is_live {
                i += 1;
            } else {
                let ghost gone_key = self.entries@[i as int].0@;
                let _ = self.entries.swap_remove(i);
                proof {
                    let n = self.entries@.len() as int;
                    assert forall|a: int|
                        0 <= a < self.entries@.len() implies #[trigger] Self::entry_from(
                        pre.entries@,
                        self.entries@[a],
                    ) by {
                        if a == i {
                            assert(self.entries@[a] == mid.entries@[n]);
                            assert(Self::entry_from(pre.entries@, mid.entries@[n]));
                        } else {
                            assert(self.entries@[a] == mid.entries@[a]);
                            assert(Self::entry_from(pre.entries@, mid.entries@[a]));
                        }
                    }
                    assert forall|x: int, y: int|
                        0 <= x < y < self.entries@.len() implies self.entries@[x].0@
                        != self.entries@[y].0@ by {
                        let mx: int = if x == i {
                            n
                        } else {
                            x
                        };
                        let my: int = if y == i {
                            n
                        } else {
                            y
                        };
                        assert(self.entries@[x] == mid.entries@[mx]);
                        assert(self.entries@[y] == mid.entries@[my]);
                    }
                    assert forall|k: Seq<char>|
                        pre.has_key(k) && now <= pre.time_of(k) + pre.max_age implies
                        #[trigger] self.has_key(k) by {
                        assert(mid.has_key(k));
                        let a = choose|a: int|
                            0 <= a < mid.entries@.len() && mid.entries@[a].0@ == k;
                        // The removed entry was stale while k is live, so k
                        // sits at another index, which survives the swap.
                        assert(Self::entry_from(pre.entries@, mid.entries@[a]));
                        let oi = choose|oi: int|
                            0 <= oi < pre.entries@.len() && mid.entries@[a] == pre.entries@[oi];
                        pre.lemma_idx(k, oi);
                        if a == i {
                            assert(Self::entry_from(pre.entries@, mid.entries@[i as int]));
                            let goi = choose|goi: int|
                                0 <= goi < pre.entries@.len() && mid.entries@[i as int]
                                    == pre.entries@[goi];
                            pre.lemma_idx(gone_key, goi);
                            assert(false);
                        } else if a == n {
                            assert(self.entries@[i as int].0@ == k);
                        } else {
                            assert(self.entries@[a].0@ == k);
                        }
                    }
                }
            }
        }
        proof {
            assert forall|k: Seq<char>|
                #[trigger] self.has_key(k) implies pre.has_key(k) && now <= pre.time_of(k)
                + pre.max_age by {
                let a = choose|a: int| 0 <= a < self.entries@.len() && self.entries@[a].0@ == k;
                assert(Self::entry_from(pre.entries@, self.entries@[a]));
                let oi = choose|oi: int|
                    0 <= oi < pre.entries@.len() && self.entries@[a] == pre.entries@[oi];
                pre.lemma_idx(k, oi);
            }
            assert forall|k: Seq<char>| self.has_key(k) implies self.value_of(k) == pre.value_of(k)
                && self.time_of(k) == pre.time_of(k) by {
                let a = self.idx_of(k);
                assert(Self::entry_from(pre.entries@, self.entries@[a]));
                let oi = choose|oi: int|
                    0 <= oi < pre.entries@.len() && self.entries@[a] == pre.entries@[oi];
                pre.lemma_idx(k, oi);
            }
        }
    }
}

/// Relies on `Vec::shrink_to_fit`: it only gives unused capacity back and
/// keeps the elements.
#[verifier::external_body]
fn vec_shrink_to_fit<T>(v: &mut Vec<T>)
    ensures
        final(v)@ == old(v)@,
{
    v.shrink_to_fit()
}

impl<V> Cache<V> {
    /// Advisory compaction: unused capacity is given back; every entry stays,
    /// with its value and insertion time.
    pub fn shrink_to_fit(&mut self)
        requires
            old(self).wf(),
        ensures
            final(self).wf(),
            final(self).max_age() == old(self).max_age(),
            final(self).entry_count() == old(self).entry_count(),
            forall|k: Seq<char>| final(self).has_key(k) == old(self).has_key(k),
            forall|k: Seq<char>|
                old(self).has_key(k) ==> final(self).value_of(k) == old(self).value_of(k)
                    && final(self).time_of(k) == old(self).time_of(k),
    {
        vec_shrink_to_fit(&mut self.entries);
        proof {
            assert(self.entries@ == old(self).entries@);
        }
    }
}

/// What replacing one value through [`Cache::get_mut`] means for the cache's
/// contents: the key keeps its insertion time and now holds the new value,
/// and every other entry is untouched.
pub proof fn lemma_value_replaced<V>(pre: Cache<V>, k: Seq<char>, post: Cache<V>, val: V)
    requires
        pre.wf(),
        Cache::value_replaced(pre, k, post, val),
    ensures
        post.wf(),
        post.max_age() == pre.max_age(),
        post.entry_count() == pre.entry_count(),
        forall|k2: Seq<char>| post.has_key(k2) == pre.has_key(k2),
        post.value_of(k) == val,
        post.time_of(k) == pre.time_of(k),
        forall|k2: Seq<char>|
            k2 != k && pre.has_key(k2) ==> post.value_of(k2) == pre.value_of(k2) && post.time_of(
                k2,
            ) == pre.time_of(k2),
{
    let i = pre.idx_of(k);
    assert(0 <= i < pre.entries@.len() && pre.entries@[i].0@ == k);
    assert forall|x: int, y: int|
        0 <= x < y < post.entries@.len() implies post.entries@[x].0@ != post.entries@[y].0@ by {
        assert(post.entries@[x].0@ == pre.entries@[x].0@);
        assert(post.entries@[y].0@ == pre.entries@[y].0@);
    }
    assert forall|k2: Seq<char>| post.has_key(k2) == pre.has_key(k2) by {
        if pre.has_key(k2) {
            let a = pre.idx_of(k2);
            assert(post.entries@[a].0@ == k2);
        }
        if post.has_key(k2) {
            let a = choose|a: int| 0 <= a < post.entries@.len() && post.entries@[a].0@ == k2;
            assert(pre.entries@[a].0@ == k2);
        }
    }
    post.lemma_idx(k, i);
    assert forall|k2: Seq<char>|
        k2 != k && pre.has_key(k2) implies post.value_of(k2) == pre.value_of(k2) && post.time_of(
        k2,
    ) == pre.time_of(k2) by {
        let a = pre.idx_of(k2);
        assert(a != i);
        assert(post.entries@[a] == pre.entries@[a]);
        post.lemma_idx(k2, a);
    }
}

/// Cache TTL law: after a value is stored under a key at time `t`, the key is
/// live with that value at every `now` within the maximum age, and no longer
/// live at every `now` past it. Together with the contract of [`Cache::get`],
/// a `get` within the window returns the value and a later `get` returns
/// absent.
pub proof fn lemma_cache_ttl<V>(c: Cache<V>, key: Seq<char>, value: V, t: u64, now: u64)
    requires
        c.wf(),
        c.has_key(key),
        c.time_of(key) == t,
        c.value_of(key) == value,
    ensures
        now <= t + c.max_age() ==> c.live(key, now) && c.value_of(key) == value,
        now > t + c.max_age() ==> !c.live(key, now),
{
}

} // verus!
