//! The 7TV provider: its catalog shapes, URL scheme and caches.

use vstd::prelude::*;

use crate::cache::Cache;
use crate::catalog::lookup_seq;
use crate::catalog::Catalog;
use crate::emote::Emote;
use crate::platform::ChannelEmote;
use crate::platform::Platform;
use crate::platform::EMOTE_CACHE_MAX_AGE_MS;
use crate::platform::USER_CACHE_MAX_AGE_MS;

verus! {

use vstd::string::StringExecFns;

/// The flags 7TV serves with each emote.
#[derive(Debug, Clone)]
pub struct EmoteData {
    pub listed: bool,
    pub animated: bool,
}

/// One emote as 7TV serves it.
#[derive(Debug, Clone)]
pub struct SevenTvEmote {
    pub id: String,
    pub name: String,
    pub data: EmoteData,
}

/// An emote set, as served for a channel or as the global set.
#[derive(Debug, Clone)]
pub struct EmoteSet {
    pub emotes: Vec<SevenTvEmote>,
}

/// A channel's emotes: the channel's active emote set.
#[derive(Debug, Clone)]
pub struct UserEmotes {
    pub emote_set: EmoteSet,
}

/// The catalog entry a 7TV emote stands for.
pub open spec fn spec_channel_emote(e: SevenTvEmote) -> ChannelEmote {
    ChannelEmote {
        platform: Platform::SevenTv,
        id: e.id,
        name: e.name,
        animated: e.data.animated,
    }
}

impl From<SevenTvEmote> for ChannelEmote {
    fn from(value: SevenTvEmote) -> (r: ChannelEmote) {
        ChannelEmote {
            platform: Platform::SevenTv,
            id: value.id,
            name: value.name,
            animated: value.data.animated,
        }
    }
}

impl vstd::std_specs::convert::FromSpecImpl<SevenTvEmote> for ChannelEmote {
    open spec fn obeys_from_spec() -> bool {
        true
    }

    open spec fn from_spec(t: SevenTvEmote) -> ChannelEmote {
        spec_channel_emote(t)
    }
}

impl UserEmotes {
    /// The channel catalog entries these emotes stand for, in order.
    pub fn channel_emotes(&self) -> (r: Vec<ChannelEmote>)
        ensures
            r@ == self.emote_set.emotes@.map_values(|e: SevenTvEmote| spec_channel_emote(e)),
    {
        convert_emotes(&self.emote_set.emotes)
    }
}

/// Converts a 7TV emote list to catalog entries, keeping the order.
pub fn convert_emotes(list: &Vec<SevenTvEmote>) -> (r: Vec<ChannelEmote>)
    ensures
        r@ == list@.map_values(|e: SevenTvEmote| spec_channel_emote(e)),
{
    let mut out: Vec<ChannelEmote> = Vec::new();
    let n = list.len();
    for i in 0..n
        invariant
            n == list@.len(),
            out@.len() == i,
            forall|j: int| 0 <= j < i ==> #[trigger] out@[j] == spec_channel_emote(list@[j]),
    {
        let e = &list[i];
        out.push(
            ChannelEmote {
                platform: Platform::SevenTv,
                id: e.id.clone(),
                name: e.name.clone(),
                animated: e.data.animated,
            },
        );
    }
    proof {
        assert(out@ =~= list@.map_values(|e: SevenTvEmote| spec_channel_emote(e)));
    }
    out
}

/// The global catalog the global emote set stands for: name-keyed, the last
/// entry of a repeated name winning.
pub fn global_catalog(set: &EmoteSet) -> (r: Catalog)
    ensures
        r.wf(),
        forall|n: Seq<char>|
            #[trigger] r.lookup(n) == lookup_seq(
                set.emotes@.map_values(|e: SevenTvEmote| spec_channel_emote(e)),
                n,
            ),
{
    let list = convert_emotes(&set.emotes);
    let mut r = Catalog::new();
    r.extend_from(&list);
    r
}

/// The CDN URL of an emote image.
pub fn emote_url(id: &String) -> (r: String)
    ensures
        r@ == "https://cdn.7tv.app/emote/"@ + id@ + "/4x.webp"@,
{
    let mut s = "https://cdn.7tv.app/emote/".to_owned();
    s.append(id.as_str());
    s.append("/4x.webp");
    s
}

/// The API URL of a channel's emote set, by Twitch channel id.
pub fn channel_url(twitch_id: &String) -> (r: String)
    ensures
        r@ == "https://7tv.io/v3/users/twitch/"@ + twitch_id@,
{
    let mut s = "https://7tv.io/v3/users/twitch/".to_owned();
    s.append(twitch_id.as_str());
    s
}

/// The API URL of the global emote set.
pub fn global_url() -> (r: &'static str)
    ensures
        r@ == "https://7tv.io/v3/emote-sets/global"@,
{
    "https://7tv.io/v3/emote-sets/global"
}

/// The 7TV client's state: its two caches. The HTTP client and the evictor
/// task that serve them live with the caller.
#[derive(Debug, Clone)]
pub struct SevenTvClient {
    /// Decoded emote images, by emote id.
    pub emote_cache: Cache<Emote>,
    /// Per-channel emote sets, by Twitch channel id.
    pub user_cache: Cache<UserEmotes>,
}

impl SevenTvClient {
    /// Both caches well-formed.
    pub open spec fn wf(self) -> bool {
        self.emote_cache.wf() && self.user_cache.wf()
    }

    /// Fresh caches with the provider cache ages.
    pub fn new() -> (r: Self)
        ensures
            r.wf(),
            r.emote_cache.max_age() == EMOTE_CACHE_MAX_AGE_MS,
            r.user_cache.max_age() == USER_CACHE_MAX_AGE_MS,
            r.emote_cache.entry_count() == 0,
            r.user_cache.entry_count() == 0,
    {
        SevenTvClient {
            emote_cache: Cache::new(EMOTE_CACHE_MAX_AGE_MS),
            user_cache: Cache::new(USER_CACHE_MAX_AGE_MS),
        }
    }
}

impl Default for SevenTvClient {
    fn default() -> (r: Self)
        ensures
            r.wf(),
            r.emote_cache.max_age() == EMOTE_CACHE_MAX_AGE_MS,
            r.user_cache.max_age() == USER_CACHE_MAX_AGE_MS,
            r.emote_cache.entry_count() == 0,
            r.user_cache.entry_count() == 0,
    {
        SevenTvClient::new()
    }
}

} // verus!
