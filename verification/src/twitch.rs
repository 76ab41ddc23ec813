//! The Twitch provider: Helix response shapes, URL scheme, the channel-id
//! lookup classification, and the client's caches and token.

use vstd::prelude::*;

use crate::cache::Cache;
use crate::catalog::lookup_seq;
use crate::catalog::Catalog;
use crate::emote::Emote;
use crate::platform::ChannelEmote;
use crate::platform::Platform;
use crate::platform::PlatformError;
use crate::platform::EMOTE_CACHE_MAX_AGE_MS;
use crate::token::TwitchRefreshingToken;

verus! {

use vstd::string::StringExecFns;

/// Maximum age of a cached login → channel-id mapping, in milliseconds.
pub const ID_CACHE_MAX_AGE_MS: u64 = 60 * 60 * 8 * 1000;

/// The envelope every Helix response wraps its payload in.
#[derive(Debug, Clone)]
pub struct HelixResponse<T> {
    pub data: T,
}

/// The renditions Twitch serves for an emote.
#[derive(Debug, Clone, Copy, PartialEq, Eq, Structural)]
pub enum TwitchEmoteFormat {
    Animated,
    Static,
}

/// One global emote as Helix serves it.
#[derive(Debug, Clone)]
pub struct TwitchEmote {
    pub id: String,
    pub name: String,
    pub format: Vec<TwitchEmoteFormat>,
}

/// One user record of the Helix users endpoint.
#[derive(Debug, Clone)]
pub struct UserResponse {
    pub id: String,
}

impl TwitchEmote {
    /// Whether an animated rendition is listed.
    pub fn is_animated(&self) -> (r: bool)
        ensures
            r == self.format@.contains(TwitchEmoteFormat::Animated),
    {
        let n = self.format.len();
        for i in 0..n
            invariant
                n == self.format@.len(),
                forall|j: int| 0 <= j < i ==> self.format@[j] != TwitchEmoteFormat::Animated,
        {
            if self.format[i] == TwitchEmoteFormat::Animated {
                return true;
            }
        }
        false
    }
}

/// The catalog entry a Twitch emote stands for.
pub open spec fn spec_channel_emote(e: TwitchEmote) -> ChannelEmote {
    ChannelEmote {
        platform: Platform::Twitch,
        id: e.id,
        name: e.name,
        animated: e.format@.contains(TwitchEmoteFormat::Animated),
    }
}

impl From<TwitchEmote> for ChannelEmote {
    fn from(value: TwitchEmote) -> (r: ChannelEmote) {
        let animated = value.is_animated();
        ChannelEmote { platform: Platform::Twitch, id: value.id, name: value.name, animated }
    }
}

impl vstd::std_specs::convert::FromSpecImpl<TwitchEmote> for ChannelEmote {
    open spec fn obeys_from_spec() -> bool {
        true
    }

    open spec fn from_spec(t: TwitchEmote) -> ChannelEmote {
        spec_channel_emote(t)
    }
}

/// Converts a Twitch emote list to catalog entries, keeping the order.
pub fn convert_emotes(list: &Vec<TwitchEmote>) -> (r: Vec<ChannelEmote>)
    ensures
        r@ == list@.map_values(|e: TwitchEmote| spec_channel_emote(e)),
{
    let mut out: Vec<ChannelEmote> = Vec::new();
    let n = list.len();
    for i in 0..n
        invariant
            n == list@.len(),
            out@.len() == i,
            forall|j: int| 0 <= j < i ==> #[trigger] out@[j] == spec_channel_emote(list@[j]),
    {
        let e = &list[i];
        let animated = e.is_animated();
        out.push(
            ChannelEmote {
                platform: Platform::Twitch,
                id: e.id.clone(),
                name: e.name.clone(),
                animated,
            },
        );
    }
    proof {
        assert(out@ =~= list@.map_values(|e: TwitchEmote| spec_channel_emote(e)));
    }
    out
}

/// The global catalog a Helix global-emote list stands for.
pub fn global_catalog(list: &Vec<TwitchEmote>) -> (r: Catalog)
    ensures
        r.wf(),
        forall|n: Seq<char>|
            #[trigger] r.lookup(n) == lookup_seq(
                list@.map_values(|e: TwitchEmote| spec_channel_emote(e)),
                n,
            ),
{
    let converted = convert_emotes(list);
    let mut r = Catalog::new();
    r.extend_from(&converted);
    r
}

/// What the users endpoint's answer means. The body is parsed only on 200;
/// `ids` is the parsed id list then, and absent when the body did not parse.
///
/// 200 with at least one record yields the first record's channel id; 200
/// with an empty list means the channel does not exist; 401 is a rejection;
/// 404 means the channel does not exist; any other status is the provider's
/// fault; an unparsable 200 body counts as a failed request.
pub fn user_lookup_outcome(status: u16, ids: Option<&Vec<String>>) -> (r: Result<
    String,
    PlatformError,
>)
    ensures
        status == 200 ==> match ids {
            Some(list) => (list@.len() >= 1 ==> (r matches Ok(id) && id@ == list@[0]@)) && (
            list@.len() == 0 ==> r == Err::<String, PlatformError>(PlatformError::ChannelNotFound)),
            None => r == Err::<String, PlatformError>(PlatformError::RequestFailure),
        },
        status == 401 ==> r == Err::<String, PlatformError>(
            PlatformError::Unauthorized(Platform::Twitch),
        ),
        status == 404 ==> r == Err::<String, PlatformError>(PlatformError::ChannelNotFound),
        status != 200 && status != 401 && status != 404 ==> r == Err::<String, PlatformError>(
            PlatformError::PlatformError(Platform::Twitch),
        ),
{
    if status == 200 {
        match ids {
            Some(list) => {
                if list.len() >= 1 {
                    Ok(list[0].clone())
                } else {
                    Err(PlatformError::ChannelNotFound)
                }
            },
            None => Err(PlatformError::RequestFailure),
        }
    } else if status == 401 {
        Err(PlatformError::Unauthorized(Platform::Twitch))
    } else if status == 404 {
        Err(PlatformError::ChannelNotFound)
    } else {
        Err(PlatformError::PlatformError(Platform::Twitch))
    }
}

/// The CDN URL of an emote image, dark theme, largest scale.
pub fn emote_url(id: &String) -> (r: String)
    ensures
        r@ == "https://static-cdn.jtvnw.net/emoticons/v2/"@ + id@ + "/default/dark/3.0"@,
{
    let mut s = "https://static-cdn.jtvnw.net/emoticons/v2/".to_owned();
    s.append(id.as_str());
    s.append("/default/dark/3.0");
    s
}

/// The Helix users endpoint; the caller appends the percent-encoded `login`
/// query pair.
pub fn users_endpoint() -> (r: &'static str)
    ensures
        r@ == "https://api.twitch.tv/helix/users"@,
{
    "https://api.twitch.tv/helix/users"
}

/// The Helix global emotes endpoint.
pub fn global_url() -> (r: &'static str)
    ensures
        r@ == "https://api.twitch.tv/helix/chat/emotes/global"@,
{
    "https://api.twitch.tv/helix/chat/emotes/global"
}

/// The OAuth token endpoint of the client-credentials flow.
pub fn oauth_url() -> (r: &'static str)
    ensures
        r@ == "https://id.twitch.tv/oauth2/token"@,
{
    "https://id.twitch.tv/oauth2/token"
}

/// The Twitch client's state: the refreshing token and the two caches. The
/// HTTP client and the evictor task live with the caller.
#[derive(Clone)]
pub struct TwitchClient {
    pub token: TwitchRefreshingToken,
    /// Channel ids, by login name.
    pub user_id_cache: Cache<String>,
    /// Decoded emote images, by emote id.
    pub emote_cache: Cache<Emote>,
}

impl TwitchClient {
    /// Both caches well-formed.
    pub open spec fn wf(self) -> bool {
        self.user_id_cache.wf() && self.emote_cache.wf()
    }

    /// A client around a freshly acquired token, with empty caches.
    pub fn new(token: TwitchRefreshingToken) -> (r: Self)
        ensures
            r.wf(),
            r.token == token,
            r.user_id_cache.max_age() == ID_CACHE_MAX_AGE_MS,
            r.emote_cache.max_age() == EMOTE_CACHE_MAX_AGE_MS,
            r.user_id_cache.entry_count() == 0,
            r.emote_cache.entry_count() == 0,
    {
        TwitchClient {
            token,
            user_id_cache: Cache::new(ID_CACHE_MAX_AGE_MS),
            emote_cache: Cache::new(EMOTE_CACHE_MAX_AGE_MS),
        }
    }

    /// Twitch's per-channel catalog is not exposed through this gateway.
    pub fn get_channel_emotes(&self) -> (r: Result<Catalog, PlatformError>)
        ensures
            r == Err::<Catalog, PlatformError>(PlatformError::TwitchChannelEmotes),
    {
        Err(PlatformError::TwitchChannelEmotes)
    }
}

} // verus!
