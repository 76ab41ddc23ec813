//! Upstream emote providers and the platform-agnostic emote reference.

use vstd::prelude::*;

verus! {

use vstd::string::StringExecFns;

/// Maximum age of a cached decoded emote image, in milliseconds.
pub const EMOTE_CACHE_MAX_AGE_MS: u64 = 60 * 60 * 8 * 1000;

/// Maximum age of a cached per-channel provider catalog, in milliseconds.
pub const USER_CACHE_MAX_AGE_MS: u64 = 60 * 5 * 1000;

/// Period of the background cache evictor, in milliseconds.
pub const CACHE_EVICTION_INTERVAL_MS: u64 = 60 * 15 * 1000;

/// Tagged identifier of an upstream provider.
///
/// Serializes to the canonical short tokens `twitch`, `7tv`, `bttv`, `ffz`
/// (see [`Platform::token`]).
#[derive(Debug, Clone, Copy, PartialEq, Eq, Structural)]
pub enum Platform {
    Twitch,
    SevenTv,
    BetterTtv,
    FrancerFaceZ,
}

impl Platform {
    /// The canonical short token used in URLs and in serialized catalogs.
    pub fn token(&self) -> (r: &'static str)
        ensures
            self is Twitch ==> r@ == "twitch"@,
            self is SevenTv ==> r@ == "7tv"@,
            self is BetterTtv ==> r@ == "bttv"@,
            self is FrancerFaceZ ==> r@ == "ffz"@,
    {
        match self {
            Platform::Twitch => "twitch",
            Platform::SevenTv => "7tv",
            Platform::BetterTtv => "bttv",
            Platform::FrancerFaceZ => "ffz",
        }
    }

    /// The human-readable provider name.
    pub fn display_name(&self) -> (r: &'static str)
        ensures
            self is Twitch ==> r@ == "Twitch"@,
            self is SevenTv ==> r@ == "7TV"@,
            self is BetterTtv ==> r@ == "BetterTTV"@,
            self is FrancerFaceZ ==> r@ == "FrankerFaceZ"@,
    {
        match self {
            Platform::Twitch => "Twitch",
            Platform::SevenTv => "7TV",
            Platform::BetterTtv => "BetterTTV",
            Platform::FrancerFaceZ => "FrankerFaceZ",
        }
    }
}

/// What a provider operation can fail with.
#[derive(Debug, Clone, Copy, PartialEq, Eq, Structural)]
pub enum PlatformError {
    /// The requested channel wasn't found.
    ChannelNotFound,
    /// The requested emote wasn't found.
    EmoteNotFound,
    /// Twitch channel emotes are not served by this gateway.
    TwitchChannelEmotes,
    /// The upstream request failed in transport.
    RequestFailure,
    /// The provider returned an unexpected non-success response.
    PlatformError(Platform),
    /// The provider rejected the request.
    Unauthorized(Platform),
    /// The image pipeline failed.
    DecodeError(crate::emote::EmoteError),
}

impl PlatformError {
    /// The HTTP status the gateway answers with: 404 for a missing channel or
    /// emote, 502 for upstream transport or provider faults, 500 for
    /// server-side faults.
    pub fn status_code(&self) -> (r: u16)
        ensures
            r == 404 <==> (self is ChannelNotFound || self is EmoteNotFound),
            r == 502 <==> (self is RequestFailure || self is PlatformError),
            r == 500 <==> (self is Unauthorized || self is DecodeError
                || self is TwitchChannelEmotes),
    {
        match self {
            PlatformError::ChannelNotFound => 404,
            PlatformError::EmoteNotFound => 404,
            PlatformError::RequestFailure => 502,
            PlatformError::PlatformError(_) => 502,
            PlatformError::Unauthorized(_) => 500,
            PlatformError::DecodeError(_) => 500,
            PlatformError::TwitchChannelEmotes => 500,
        }
    }

    /// The response body of a non-404 error, with no upstream URL in it.
    pub fn message(&self) -> (r: String)
        ensures
            self is ChannelNotFound ==> r@ == "the requested channel wasn't found"@,
            self is EmoteNotFound ==> r@ == "the requested emote wasn't found"@,
            self is TwitchChannelEmotes ==> r@
                == "twitch channel emotes should never really be requested"@,
            self is RequestFailure ==> r@ == "the upstream request failed"@,
            self matches PlatformError::PlatformError(p) ==> r@ == "requesting the emote from "@
                    + match p {
                    Platform::Twitch => "Twitch"@,
                    Platform::SevenTv => "7TV"@,
                    Platform::BetterTtv => "BetterTTV"@,
                    Platform::FrancerFaceZ => "FrankerFaceZ"@,
                } + " returned an error"@,
            self matches PlatformError::Unauthorized(p) ==> r@ == "requesting the emote from "@
                    + match p {
                    Platform::Twitch => "Twitch"@,
                    Platform::SevenTv => "7TV"@,
                    Platform::BetterTtv => "BetterTTV"@,
                    Platform::FrancerFaceZ => "FrankerFaceZ"@,
                } + " was rejected"@,
            self is DecodeError ==> r@ == "the image could not be processed"@,
    {
        match self {
            PlatformError::ChannelNotFound => "the requested channel wasn't found".to_owned(),
            PlatformError::EmoteNotFound => "the requested emote wasn't found".to_owned(),
            PlatformError::TwitchChannelEmotes => {
                "twitch channel emotes should never really be requested".to_owned()
            },
            PlatformError::RequestFailure => "the upstream request failed".to_owned(),
            PlatformError::PlatformError(p) => {
                let mut s = "requesting the emote from ".to_owned();
                s.append(p.display_name());
                s.append(" returned an error");
                s
            },
            PlatformError::Unauthorized(p) => {
                let mut s = "requesting the emote from ".to_owned();
                s.append(p.display_name());
                s.append(" was rejected");
                s
            },
            PlatformError::DecodeError(_) => "the image could not be processed".to_owned(),
        }
    }
}

/// A platform-agnostic reference to one emote as it appears in a channel.
///
/// Within a single channel catalog, `name` is unique (see
/// [`crate::catalog::Catalog`]).
#[derive(Debug, Clone)]
pub struct ChannelEmote {
    pub platform: Platform,
    /// Opaque provider-scoped identifier.
    pub id: String,
    /// Display text that triggers the emote in chat.
    pub name: String,
    pub animated: bool,
}

impl ChannelEmote {
    /// A copy equal to `self`, field by field.
    pub fn clone_emote(&self) -> (r: ChannelEmote)
        ensures
            r == *self,
    {
        ChannelEmote {
            platform: self.platform,
            id: self.id.clone(),
            name: self.name.clone(),
            animated: self.animated,
        }
    }
}

} // verus!
