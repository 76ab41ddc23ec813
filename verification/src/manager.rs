//! The aggregator: one client per provider and the channel-catalog cache.
//!
//! The manager owns the caches and decides; the caller performs the HTTP
//! work. A channel request first asks [`EmoteManager::cached_channel_emotes`];
//! on a miss the caller resolves the channel id, fans the three provider
//! requests out, merges the results with
//! [`crate::catalog::merge_channel_emotes`], and stores the catalog back with
//! [`EmoteManager::store_channel_emotes`].

use vstd::prelude::*;

use crate::bttv::BttvClient;
use crate::cache::Cache;
use crate::catalog::Catalog;
use crate::emote::Emote;
use crate::ffz::FfzClient;
use crate::platform::Platform;
use crate::seventv::SevenTvClient;
use crate::token::TwitchRefreshingToken;
use crate::twitch::TwitchClient;

verus! {

/// Maximum age of a cached merged channel catalog, in milliseconds.
pub const CHANNEL_CACHE_MAX_AGE_MS: u64 = 60 * 15 * 1000;

/// One client per provider, plus the merged channel catalogs by login.
#[derive(Clone)]
pub struct EmoteManager {
    pub twitch: TwitchClient,
    pub seventv: SevenTvClient,
    pub ffz: FfzClient,
    pub bttv: BttvClient,
    /// Merged channel catalogs, by channel login.
    pub channel_emotes: Cache<Catalog>,
}

impl EmoteManager {
    /// The decoded-emote cache that serves a platform.
    pub open spec fn emote_cache(self, platform: Platform) -> Cache<Emote> {
        match platform {
            Platform::Twitch => self.twitch.emote_cache,
            Platform::SevenTv => self.seventv.emote_cache,
            Platform::BetterTtv => self.bttv.emote_cache,
            Platform::FrancerFaceZ => self.ffz.emote_cache,
        }
    }

    /// The merged channel-catalog cache.
    pub open spec fn channel_cache(self) -> Cache<Catalog> {
        self.channel_emotes
    }

    /// Every cache well-formed.
    pub open spec fn wf(self) -> bool {
        self.twitch.wf() && self.seventv.wf() && self.ffz.wf() && self.bttv.wf()
            && self.channel_cache().wf()
    }

    /// A manager around a freshly acquired Twitch token: empty caches
    /// throughout.
    pub fn new(token: TwitchRefreshingToken) -> (r: Self)
        ensures
            r.wf(),
            r.channel_cache().max_age() == CHANNEL_CACHE_MAX_AGE_MS,
            r.channel_cache().entry_count() == 0,
            forall|p: Platform| (#[trigger] r.emote_cache(p)).entry_count() == 0,
            r.twitch.token == token,
    {
        EmoteManager {
            twitch: TwitchClient::new(token),
            seventv: SevenTvClient::new(),
            ffz: FfzClient::new(),
            bttv: BttvClient::new(),
            channel_emotes: Cache::new(CHANNEL_CACHE_MAX_AGE_MS),
        }
    }

    /// The cached catalog of a channel login, when it is live at `now`; a
    /// stale entry is dropped.
    pub fn cached_channel_emotes(&mut self, channel: &String, now: u64) -> (r: Option<&Catalog>)
        requires
            old(self).wf(),
        ensures
            final(self).wf(),
            old(self).channel_cache().live(channel@, now) ==> *final(self) == *old(self) && match r {
                Some(c) => *c == old(self).channel_cache().value_of(channel@),
                None => false,
            },
            !old(self).channel_cache().live(channel@, now) ==> r is None
                && !final(self).channel_cache().has_key(channel@),
            forall|k: Seq<char>|
                k != channel@ ==> final(self).channel_cache().has_key(k) == old(
                    self,
                ).channel_cache().has_key(k),
            forall|p: Platform| #[trigger] final(self).emote_cache(p) == old(self).emote_cache(p),
    {
        self.channel_emotes.get(channel, now)
    }

    /// Stores the merged catalog of a channel login at `now`.
    pub fn store_channel_emotes(&mut self, channel: String, catalog: Catalog, now: u64)
        requires
            old(self).wf(),
        ensures
            final(self).wf(),
            final(self).channel_cache().live(channel@, now),
            final(self).channel_cache().value_of(channel@) == catalog,
            final(self).channel_cache().time_of(channel@) == now,
            forall|k: Seq<char>|
                k != channel@ ==> final(self).channel_cache().has_key(k) == old(
                    self,
                ).channel_cache().has_key(k),
            forall|p: Platform| #[trigger] final(self).emote_cache(p) == old(self).emote_cache(p),
    {
        let _ = self.channel_emotes.insert(channel, catalog, now);
    }

    /// The cached decoded emote of a platform, when it is live at `now`; a
    /// stale entry is dropped. On a miss the caller fetches the image from
    /// that platform, decodes it, and stores it with
    /// [`EmoteManager::store_emote`].
    pub fn cached_emote(&mut self, platform: Platform, id: &String, now: u64) -> (r: Option<&Emote>)
        requires
            old(self).wf(),
        ensures
            final(self).wf(),
            old(self).emote_cache(platform).live(id@, now) ==> *final(self) == *old(self) && match r {
                Some(e) => *e == old(self).emote_cache(platform).value_of(id@),
                None => false,
            },
            !old(self).emote_cache(platform).live(id@, now) ==> r is None
                && !final(self).emote_cache(platform).has_key(id@),
            forall|k: Seq<char>|
                k != id@ ==> final(self).emote_cache(platform).has_key(k) == old(self).emote_cache(
                    platform,
                ).has_key(k),
            forall|p: Platform|
                p != platform ==> #[trigger] final(self).emote_cache(p) == old(self).emote_cache(p),
            final(self).channel_cache() == old(self).channel_cache(),
    {
        match platform {
            Platform::Twitch => self.twitch.emote_cache.get(id, now),
            Platform::SevenTv => self.seventv.emote_cache.get(id, now),
            Platform::BetterTtv => self.bttv.emote_cache.get(id, now),
            Platform::FrancerFaceZ => self.ffz.emote_cache.get(id, now),
        }
    }

    /// Stores a freshly decoded emote under its platform and id at `now`.
    pub fn store_emote(&mut self, platform: Platform, id: String, emote: Emote, now: u64)
        requires
            old(self).wf(),
        ensures
            final(self).wf(),
            final(self).emote_cache(platform).live(id@, now),
            final(self).emote_cache(platform).value_of(id@) == emote,
            forall|k: Seq<char>|
                k != id@ ==> final(self).emote_cache(platform).has_key(k) == old(self).emote_cache(
                    platform,
                ).has_key(k),
            forall|p: Platform|
                p != platform ==> #[trigger] final(self).emote_cache(p) == old(self).emote_cache(p),
            final(self).channel_cache() == old(self).channel_cache(),
    {
        match platform {
            Platform::Twitch => {
                let _ = self.twitch.emote_cache.insert(id, emote, now);
            },
            Platform::SevenTv => {
                let _ = self.seventv.emote_cache.insert(id, emote, now);
            },
            Platform::BetterTtv => {
                let _ = self.bttv.emote_cache.insert(id, emote, now);
            },
            Platform::FrancerFaceZ => {
                let _ = self.ffz.emote_cache.insert(id, emote, now);
            },
        }
    }
}

} // verus!
