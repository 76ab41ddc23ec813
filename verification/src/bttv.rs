//! The BetterTTV provider: its catalog shapes, URL scheme and caches.

use vstd::prelude::*;

use crate::cache::Cache;
use crate::catalog::lookup_seq;
use crate::catalog::Catalog;
use crate::emote::Emote;
use crate::platform::ChannelEmote;
use crate::platform::Platform;
use crate::platform::EMOTE_CACHE_MAX_AGE_MS;
use crate::platform::USER_CACHE_MAX_AGE_MS;

verus! {

use vstd::string::StringExecFns;

/// One emote as BetterTTV serves it; `code` is the display text.
#[derive(Debug, Clone)]
pub struct BttvEmote {
    pub id: String,
    pub code: String,
    pub animated: bool,
}

/// A channel's emotes: the shared ones, then the channel's own.
#[derive(Debug, Clone)]
pub struct UserEmotes {
    pub shared_emotes: Vec<BttvEmote>,
    pub channel_emotes: Vec<BttvEmote>,
}

/// The catalog entry a BetterTTV emote stands for.
pub open spec fn spec_channel_emote(e: BttvEmote) -> ChannelEmote {
    ChannelEmote { platform: Platform::BetterTtv, id: e.id, name: e.code, animated: e.animated }
}

impl From<BttvEmote> for ChannelEmote {
    fn from(value: BttvEmote) -> (r: ChannelEmote) {
        ChannelEmote {
            platform: Platform::BetterTtv,
            id: value.id,
            name: value.code,
            animated: value.animated,
        }
    }
}

impl vstd::std_specs::convert::FromSpecImpl<BttvEmote> for ChannelEmote {
    open spec fn obeys_from_spec() -> bool {
        true
    }

    open spec fn from_spec(t: BttvEmote) -> ChannelEmote {
        spec_channel_emote(t)
    }
}

/// Converts a BetterTTV emote list to catalog entries, keeping the order.
pub fn convert_emotes(list: &Vec<BttvEmote>) -> (r: Vec<ChannelEmote>)
    ensures
        r@ == list@.map_values(|e: BttvEmote| spec_channel_emote(e)),
{
    let mut out: Vec<ChannelEmote> = Vec::new();
    let n = list.len();
    for i in 0..n
        invariant
            n == list@.len(),
            out@.len() == i,
            forall|j: int| 0 <= j < i ==> #[trigger] out@[j] == spec_channel_emote(list@[j]),
    {
        let e = &list[i];
        out.push(
            ChannelEmote {
                platform: Platform::BetterTtv,
                id: e.id.clone(),
                name: e.code.clone(),
                animated: e.animated,
            },
        );
    }
    proof {
        assert(out@ =~= list@.map_values(|e: BttvEmote| spec_channel_emote(e)));
    }
    out
}

impl UserEmotes {
    /// The channel catalog entries: shared emotes first, channel emotes after
    /// them, as the provider orders them.
    pub fn channel_emotes(&self) -> (r: Vec<ChannelEmote>)
        ensures
            r@ == self.shared_emotes@.map_values(|e: BttvEmote| spec_channel_emote(e))
                + self.channel_emotes@.map_values(|e: BttvEmote| spec_channel_emote(e)),
    {
        let mut out = convert_emotes(&self.shared_emotes);
        let mut rest = convert_emotes(&self.channel_emotes);
        out.append(&mut rest);
        out
    }
}

/// The global catalog a BetterTTV global emote list stands for.
pub fn global_catalog(list: &Vec<BttvEmote>) -> (r: Catalog)
    ensures
        r.wf(),
        forall|n: Seq<char>|
            #[trigger] r.lookup(n) == lookup_seq(
                list@.map_values(|e: BttvEmote| spec_channel_emote(e)),
                n,
            ),
{
    let converted = convert_emotes(list);
    let mut r = Catalog::new();
    r.extend_from(&converted);
    r
}

/// The CDN URL of an emote image.
pub fn emote_url(id: &String) -> (r: String)
    ensures
        r@ == "https://cdn.betterttv.net/emote/"@ + id@ + "/3x"@,
{
    let mut s = "https://cdn.betterttv.net/emote/".to_owned();
    s.append(id.as_str());
    s.append("/3x");
    s
}

/// The API URL of a channel's emotes, by Twitch channel id.
pub fn channel_url(twitch_id: &String) -> (r: String)
    ensures
        r@ == "https://api.betterttv.net/3/cached/users/twitch/"@ + twitch_id@,
{
    let mut s = "https://api.betterttv.net/3/cached/users/twitch/".to_owned();
    s.append(twitch_id.as_str());
    s
}

/// The API URL of the global emotes.
pub fn global_url() -> (r: &'static str)
    ensures
        r@ == "https://api.betterttv.net/3/cached/emotes/global"@,
{
    "https://api.betterttv.net/3/cached/emotes/global"
}

/// The BetterTTV client's state: its two caches. The HTTP client and the
/// evictor task that serve them live with the caller.
#[derive(Debug, Clone)]
pub struct BttvClient {
    /// Decoded emote images, by emote id.
    pub emote_cache: Cache<Emote>,
    /// Per-channel emotes, by Twitch channel id.
    pub user_cache: Cache<UserEmotes>,
}

impl BttvClient {
    /// Both caches well-formed.
    pub open spec fn wf(self) -> bool {
        self.emote_cache.wf() && self.user_cache.wf()
    }

    /// Fresh caches with the provider cache ages.
    pub fn new() -> (r: Self)
        ensures
            r.wf(),
            r.emote_cache.max_age() == EMOTE_CACHE_MAX_AGE_MS,
            r.user_cache.max_age() == USER_CACHE_MAX_AGE_MS,
            r.emote_cache.entry_count() == 0,
            r.user_cache.entry_count() == 0,
    {
        BttvClient {
            emote_cache: Cache::new(EMOTE_CACHE_MAX_AGE_MS),
            user_cache: Cache::new(USER_CACHE_MAX_AGE_MS),
        }
    }
}

impl Default for BttvClient {
    fn default() -> (r: Self)
        ensures
            r.wf(),
            r.emote_cache.max_age() == EMOTE_CACHE_MAX_AGE_MS,
            r.user_cache.max_age() == USER_CACHE_MAX_AGE_MS,
            r.emote_cache.entry_count() == 0,
            r.user_cache.entry_count() == 0,
    {
        BttvClient::new()
    }
}

} // verus!
