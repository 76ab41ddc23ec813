//! The per-provider catalog shapes, URL schemes and classifications, and the
//! manager's caches.

use twitch_emote_api::bttv;
use twitch_emote_api::codec::ImageFormat;
use twitch_emote_api::emote::Emote;
use twitch_emote_api::ffz;
use twitch_emote_api::manager::EmoteManager;
use twitch_emote_api::platform::Platform;
use twitch_emote_api::platform::PlatformError;
use twitch_emote_api::seventv;
use twitch_emote_api::token::OauthResponse;
use twitch_emote_api::token::TwitchRefreshingToken;
use twitch_emote_api::twitch;

#[test]
fn seventv_channel_emotes_convert() {
    let user = seventv::UserEmotes {
        emote_set: seventv::EmoteSet {
            emotes: vec![
                seventv::SevenTvEmote {
                    id: "1".to_string(),
                    name: "RareParrot".to_string(),
                    data: seventv::EmoteData { listed: true, animated: true },
                },
            ],
        },
    };
    let list = user.channel_emotes();
    assert_eq!(list.len(), 1);
    assert_eq!(list[0].id, "1");
    assert_eq!(list[0].name, "RareParrot");
    assert!(list[0].animated);
    assert!(matches!(list[0].platform, Platform::SevenTv));
}

#[test]
fn bttv_channel_emotes_chain_shared_then_channel() {
    let user = bttv::UserEmotes {
        shared_emotes: vec![bttv::BttvEmote {
            id: "s".to_string(),
            code: "shared".to_string(),
            animated: false,
        }],
        channel_emotes: vec![bttv::BttvEmote {
            id: "c".to_string(),
            code: "own".to_string(),
            animated: true,
        }],
    };
    let list = user.channel_emotes();
    assert_eq!(list.len(), 2);
    assert_eq!(list[0].name, "shared");
    assert_eq!(list[1].name, "own");
    assert!(matches!(list[1].platform, Platform::BetterTtv));
}

#[test]
fn ffz_room_emotes_flatten_all_sets() {
    let room = ffz::RoomEmotes {
        sets: vec![
            ffz::FfzSet {
                id: 1,
                emoticons: vec![ffz::FfzEmote {
                    id: "10".to_string(),
                    name: "a".to_string(),
                    animated: false,
                }],
            },
            ffz::FfzSet {
                id: 2,
                emoticons: vec![ffz::FfzEmote {
                    id: "20".to_string(),
                    name: "b".to_string(),
                    animated: true,
                }],
            },
        ],
    };
    let list = room.channel_emotes();
    assert_eq!(list.len(), 2);
    assert_eq!(list[0].name, "a");
    assert_eq!(list[1].name, "b");
}

#[test]
fn ffz_global_catalog_keeps_only_default_sets() {
    let resp = ffz::DefaultSets {
        default_sets: vec![3],
        sets: vec![
            ffz::FfzSet {
                id: 3,
                emoticons: vec![ffz::FfzEmote {
                    id: "30".to_string(),
                    name: "kept".to_string(),
                    animated: false,
                }],
            },
            ffz::FfzSet {
                id: 4,
                emoticons: vec![ffz::FfzEmote {
                    id: "40".to_string(),
                    name: "dropped".to_string(),
                    animated: false,
                }],
            },
        ],
    };
    let catalog = ffz::global_catalog(&resp);
    assert_eq!(catalog.len(), 1);
    assert!(catalog.get(&"kept".to_string()).is_some());
    assert!(catalog.get(&"dropped".to_string()).is_none());
}

#[test]
fn ffz_emote_url_depends_on_animation() {
    let id = "725695".to_string();
    assert_eq!(
        ffz::emote_url(&id, true),
        "https://cdn.frankerfacez.com/emote/725695/animated/4"
    );
    assert_eq!(ffz::emote_url(&id, false), "https://cdn.frankerfacez.com/emote/725695/4");
    assert_eq!(
        ffz::emote_query_url(&id),
        "https://api.frankerfacez.com/v1/emote/725695"
    );
    assert_eq!(ffz::classify_emote_lookup(404), Err(PlatformError::EmoteNotFound));
    assert!(ffz::classify_emote_lookup(200).is_ok());
}

#[test]
fn provider_urls() {
    let id = "630660200e929d2fde44db5b".to_string();
    assert_eq!(
        seventv::emote_url(&id),
        "https://cdn.7tv.app/emote/630660200e929d2fde44db5b/4x.webp"
    );
    assert_eq!(
        seventv::channel_url(&"104391402".to_string()),
        "https://7tv.io/v3/users/twitch/104391402"
    );
    assert_eq!(seventv::global_url(), "https://7tv.io/v3/emote-sets/global");
    assert_eq!(
        bttv::emote_url(&"54fab7d2633595ca4c713abf".to_string()),
        "https://cdn.betterttv.net/emote/54fab7d2633595ca4c713abf/3x"
    );
    assert_eq!(
        bttv::channel_url(&"104391402".to_string()),
        "https://api.betterttv.net/3/cached/users/twitch/104391402"
    );
    assert_eq!(bttv::global_url(), "https://api.betterttv.net/3/cached/emotes/global");
    assert_eq!(
        ffz::channel_url(&"104391402".to_string()),
        "https://api.frankerfacez.com/v1/room/id/104391402"
    );
    assert_eq!(ffz::global_url(), "https://api.frankerfacez.com/v1/set/global/ids");
    assert_eq!(
        twitch::emote_url(&"emotesv2_abc".to_string()),
        "https://static-cdn.jtvnw.net/emoticons/v2/emotesv2_abc/default/dark/3.0"
    );
    assert_eq!(twitch::users_endpoint(), "https://api.twitch.tv/helix/users");
    assert_eq!(twitch::global_url(), "https://api.twitch.tv/helix/chat/emotes/global");
    assert_eq!(twitch::oauth_url(), "https://id.twitch.tv/oauth2/token");
}

#[test]
fn twitch_emote_animation_flag() {
    let e = twitch::TwitchEmote {
        id: "1".to_string(),
        name: "x".to_string(),
        format: vec![twitch::TwitchEmoteFormat::Static, twitch::TwitchEmoteFormat::Animated],
    };
    assert!(e.is_animated());
    let e2 = twitch::TwitchEmote {
        id: "2".to_string(),
        name: "y".to_string(),
        format: vec![twitch::TwitchEmoteFormat::Static],
    };
    assert!(!e2.is_animated());
}

#[test]
fn twitch_user_lookup_outcomes() {
    let ids = vec!["12826".to_string()];
    assert_eq!(twitch::user_lookup_outcome(200, Some(&ids)), Ok("12826".to_string()));
    let empty: Vec<String> = Vec::new();
    assert_eq!(
        twitch::user_lookup_outcome(200, Some(&empty)),
        Err(PlatformError::ChannelNotFound)
    );
    assert_eq!(twitch::user_lookup_outcome(200, None), Err(PlatformError::RequestFailure));
    assert_eq!(
        twitch::user_lookup_outcome(401, None),
        Err(PlatformError::Unauthorized(Platform::Twitch))
    );
    assert_eq!(twitch::user_lookup_outcome(404, None), Err(PlatformError::ChannelNotFound));
    assert_eq!(
        twitch::user_lookup_outcome(503, None),
        Err(PlatformError::PlatformError(Platform::Twitch))
    );
}

#[test]
fn twitch_channel_catalog_is_refused() {
    let token = TwitchRefreshingToken::new(
        OauthResponse { access_token: "t".to_string(), expires_in: 60 },
        0,
    );
    let client = twitch::TwitchClient::new(token);
    assert_eq!(client.get_channel_emotes().unwrap_err(), PlatformError::TwitchChannelEmotes);
}

#[test]
fn manager_caches_emotes_per_platform() {
    let token = TwitchRefreshingToken::new(
        OauthResponse { access_token: "t".to_string(), expires_in: 60 },
        0,
    );
    let mut m = EmoteManager::new(token);
    let id = "42".to_string();
    assert!(m.cached_emote(Platform::SevenTv, &id, 0).is_none());

    let buf = image::RgbaImage::from_pixel(2, 2, image::Rgba([9, 9, 9, 255]));
    let mut out = std::io::Cursor::new(Vec::new());
    image::DynamicImage::ImageRgba8(buf).write_to(&mut out, image::ImageFormat::Png).unwrap();
    let emote = Emote::try_new(&out.into_inner(), ImageFormat::Png, "42".to_string()).unwrap();

    m.store_emote(Platform::SevenTv, id.clone(), emote, 0);
    assert!(m.cached_emote(Platform::SevenTv, &id, 0).is_some());
    // Another platform's cache is untouched.
    assert!(m.cached_emote(Platform::BetterTtv, &id, 0).is_none());
    // The image cache lives eight hours; it is stale after that.
    let eight_hours = 60 * 60 * 8 * 1000;
    assert!(m.cached_emote(Platform::SevenTv, &id, eight_hours).is_some());
    assert!(m.cached_emote(Platform::SevenTv, &id, eight_hours + 1).is_none());
}

#[test]
fn manager_caches_channel_catalogs() {
    let token = TwitchRefreshingToken::new(
        OauthResponse { access_token: "t".to_string(), expires_in: 60 },
        0,
    );
    let mut m = EmoteManager::new(token);
    let chan = "psp1g".to_string();
    assert!(m.cached_channel_emotes(&chan, 0).is_none());
    let catalog = twitch_emote_api::catalog::Catalog::new();
    m.store_channel_emotes(chan.clone(), catalog, 0);
    assert!(m.cached_channel_emotes(&chan, 0).is_some());
    // The channel catalog lives fifteen minutes.
    let fifteen_min = 60 * 15 * 1000;
    assert!(m.cached_channel_emotes(&chan, fifteen_min).is_some());
    assert!(m.cached_channel_emotes(&chan, fifteen_min + 1).is_none());
}
