//! The FrankerFaceZ provider: its catalog shapes, URL scheme and caches.
//!
//! FrankerFaceZ serves emote ids as either numbers or strings across its
//! endpoints; callers normalize them to strings before handing data in.

use vstd::prelude::*;

use crate::cache::Cache;
use crate::catalog::lookup_seq;
use crate::catalog::Catalog;
use crate::emote::Emote;
use crate::platform::ChannelEmote;
use crate::platform::Platform;
use crate::platform::PlatformError;
use crate::platform::EMOTE_CACHE_MAX_AGE_MS;
use crate::platform::USER_CACHE_MAX_AGE_MS;

verus! {

use vstd::string::StringExecFns;

/// One emote as FrankerFaceZ serves it; the id is normalized to a string.
#[derive(Debug, Clone)]
pub struct FfzEmote {
    pub id: String,
    pub name: String,
    /// Whether an animated rendition exists.
    pub animated: bool,
}

/// One emote set: its id and its emotes.
#[derive(Debug, Clone)]
pub struct FfzSet {
    pub id: u64,
    pub emoticons: Vec<FfzEmote>,
}

/// A channel's emotes: every set served for the room.
#[derive(Debug, Clone)]
pub struct RoomEmotes {
    pub sets: Vec<FfzSet>,
}

/// The global emote listing: every set, and the ids of the default sets that
/// make up the global catalog.
#[derive(Debug, Clone)]
pub struct DefaultSets {
    pub default_sets: Vec<u64>,
    pub sets: Vec<FfzSet>,
}

/// The catalog entry a FrankerFaceZ emote stands for.
pub open spec fn spec_channel_emote(e: FfzEmote) -> ChannelEmote {
    ChannelEmote { platform: Platform::FrancerFaceZ, id: e.id, name: e.name, animated: e.animated }
}

impl From<FfzEmote> for ChannelEmote {
    fn from(value: FfzEmote) -> (r: ChannelEmote) {
        ChannelEmote {
            platform: Platform::FrancerFaceZ,
            id: value.id,
            name: value.name,
            animated: value.animated,
        }
    }
}

impl vstd::std_specs::convert::FromSpecImpl<FfzEmote> for ChannelEmote {
    open spec fn obeys_from_spec() -> bool {
        true
    }

    open spec fn from_spec(t: FfzEmote) -> ChannelEmote {
        spec_channel_emote(t)
    }
}

/// Converts one emote list, keeping the order.
pub fn convert_emotes(list: &Vec<FfzEmote>) -> (r: Vec<ChannelEmote>)
    ensures
        r@ == list@.map_values(|e: FfzEmote| spec_channel_emote(e)),
{
    let mut out: Vec<ChannelEmote> = Vec::new();
    let n = list.len();
    for i in 0..n
        invariant
            n == list@.len(),
            out@.len() == i,
            forall|j: int| 0 <= j < i ==> #[trigger] out@[j] == spec_channel_emote(list@[j]),
    {
        let e = &list[i];
        out.push(
            ChannelEmote {
                platform: Platform::FrancerFaceZ,
                id: e.id.clone(),
                name: e.name.clone(),
                animated: e.animated,
            },
        );
    }
    proof {
        assert(out@ =~= list@.map_values(|e: FfzEmote| spec_channel_emote(e)));
    }
    out
}

/// All emotes of the sets in order, flattened.
pub open spec fn spec_flatten_sets(sets: Seq<FfzSet>) -> Seq<ChannelEmote>
    decreases sets.len(),
{
    if sets.len() == 0 {
        Seq::empty()
    } else {
        spec_flatten_sets(sets.drop_last()) + sets.last().emoticons@.map_values(
            |e: FfzEmote| spec_channel_emote(e),
        )
    }
}

impl RoomEmotes {
    /// The channel catalog entries of a room: its sets flattened in order.
    pub fn channel_emotes(&self) -> (r: Vec<ChannelEmote>)
        ensures
            r@ == spec_flatten_sets(self.sets@),
    {
        let mut out: Vec<ChannelEmote> = Vec::new();
        let n = self.sets.len();
        for i in 0..n
            invariant
                n == self.sets@.len(),
                out@ == spec_flatten_sets(self.sets@.take(i as int)),
        {
            let mut converted = convert_emotes(&self.sets[i].emoticons);
            out.append(&mut converted);
            proof {
                assert(self.sets@.take(i + 1).drop_last() =~= self.sets@.take(i as int));
                assert(self.sets@.take(i + 1).last() == self.sets@[i as int]);
            }
        }
        proof {
            assert(self.sets@.take(n as int) =~= self.sets@);
        }
        out
    }
}

/// The sets whose id is one of the default set ids, in order, flattened.
pub open spec fn spec_global_emotes(sets: Seq<FfzSet>, defaults: Seq<u64>) -> Seq<ChannelEmote>
    decreases sets.len(),
{
    if sets.len() == 0 {
        Seq::empty()
    } else if defaults.contains(sets.last().id) {
        spec_global_emotes(sets.drop_last(), defaults) + sets.last().emoticons@.map_values(
            |e: FfzEmote| spec_channel_emote(e),
        )
    } else {
        spec_global_emotes(sets.drop_last(), defaults)
    }
}

/// Whether `x` is one of the listed ids.
fn contains_u64(list: &Vec<u64>, x: u64) -> (r: bool)
    ensures
        r == list@.contains(x),
{
    let n = list.len();
    for i in 0..n
        invariant
            n == list@.len(),
            forall|j: int| 0 <= j < i ==> list@[j] != x,
    {
        if list[i] == x {
            return true;
        }
    }
    false
}

/// The global catalog: only the sets named by `default_sets` contribute, in
/// order, the last entry of a repeated name winning.
pub fn global_catalog(resp: &DefaultSets) -> (r: Catalog)
    ensures
        r.wf(),
        forall|n: Seq<char>|
            #[trigger] r.lookup(n) == lookup_seq(
                spec_global_emotes(resp.sets@, resp.default_sets@),
                n,
            ),
{
    let mut list: Vec<ChannelEmote> = Vec::new();
    let n = resp.sets.len();
    for i in 0..n
        invariant
            n == resp.sets@.len(),
            list@ == spec_global_emotes(resp.sets@.take(i as int), resp.default_sets@),
    {
        proof {
            assert(resp.sets@.take(i + 1).drop_last() =~= resp.sets@.take(i as int));
            assert(resp.sets@.take(i + 1).last() == resp.sets@[i as int]);
        }
        if contains_u64(&resp.default_sets, resp.sets[i].id) {
            let mut converted = convert_emotes(&resp.sets[i].emoticons);
            list.append(&mut converted);
        }
    }
    proof {
        assert(resp.sets@.take(n as int) =~= resp.sets@);
    }
    let mut r = Catalog::new();
    r.extend_from(&list);
    r
}

/// What a 404 of the emote metadata endpoint means: the emote does not exist.
pub fn classify_emote_lookup(status: u16) -> (r: Result<(), PlatformError>)
    ensures
        status == 404 <==> r == Err::<(), PlatformError>(PlatformError::EmoteNotFound),
        status != 404 <==> r is Ok,
{
    if status == 404 {
        Err(PlatformError::EmoteNotFound)
    } else {
        Ok(())
    }
}

/// The CDN URL of an emote image: the animated rendition when the emote has
/// one, the static rendition otherwise.
pub fn emote_url(id: &String, animated: bool) -> (r: String)
    ensures
        animated ==> r@ == "https://cdn.frankerfacez.com/emote/"@ + id@ + "/animated/4"@,
        !animated ==> r@ == "https://cdn.frankerfacez.com/emote/"@ + id@ + "/4"@,
{
    let mut s = "https://cdn.frankerfacez.com/emote/".to_owned();
    s.append(id.as_str());
    if animated {
        s.append("/animated/4");
    } else {
        s.append("/4");
    }
    s
}

/// The API URL of an emote's metadata.
pub fn emote_query_url(id: &String) -> (r: String)
    ensures
        r@ == "https://api.frankerfacez.com/v1/emote/"@ + id@,
{
    let mut s = "https://api.frankerfacez.com/v1/emote/".to_owned();
    s.append(id.as_str());
    s
}

/// The API URL of a room's emotes, by Twitch channel id.
pub fn channel_url(twitch_id: &String) -> (r: String)
    ensures
        r@ == "https://api.frankerfacez.com/v1/room/id/"@ + twitch_id@,
{
    let mut s = "https://api.frankerfacez.com/v1/room/id/".to_owned();
    s.append(twitch_id.as_str());
    s
}

/// The API URL of the global emote sets.
pub fn global_url() -> (r: &'static str)
    ensures
        r@ == "https://api.frankerfacez.com/v1/set/global/ids"@,
{
    "https://api.frankerfacez.com/v1/set/global/ids"
}

/// The FrankerFaceZ client's state: its two caches. The HTTP client and the
/// evictor task that serve them live with the caller.
#[derive(Debug, Clone)]
pub struct FfzClient {
    /// Decoded emote images, by emote id.
    pub emote_cache: Cache<Emote>,
    /// Per-channel room emotes, by Twitch channel id.
    pub user_cache: Cache<RoomEmotes>,
}

impl FfzClient {
    /// Both caches well-formed.
    pub open spec fn wf(self) -> bool {
        self.emote_cache.wf() && self.user_cache.wf()
    }

    /// Fresh caches with the provider cache ages.
    pub fn new() -> (r: Self)
        ensures
            r.wf(),
            r.emote_cache.max_age() == EMOTE_CACHE_MAX_AGE_MS,
            r.user_cache.max_age() == USER_CACHE_MAX_AGE_MS,
            r.emote_cache.entry_count() == 0,
            r.user_cache.entry_count() == 0,
    {
        FfzClient {
            emote_cache: Cache::new(EMOTE_CACHE_MAX_AGE_MS),
            user_cache: Cache::new(USER_CACHE_MAX_AGE_MS),
        }
    }
}

impl Default for FfzClient {
    fn default() -> (r: Self)
        ensures
            r.wf(),
            r.emote_cache.max_age() == EMOTE_CACHE_MAX_AGE_MS,
            r.user_cache.max_age() == USER_CACHE_MAX_AGE_MS,
            r.emote_cache.entry_count() == 0,
            r.user_cache.entry_count() == 0,
    {
        FfzClient::new()
    }
}

} // verus!
