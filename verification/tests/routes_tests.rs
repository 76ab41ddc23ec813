//! Route parsing, frame selection and response classification.

use twitch_emote_api::codec::ImageFormat;
use twitch_emote_api::emote::Emote;
use twitch_emote_api::emote::EmoteError;
use twitch_emote_api::platform::Platform;
use twitch_emote_api::platform::PlatformError;
use twitch_emote_api::routes::emote_cache_control;
use twitch_emote_api::routes::globals_cache_control;
use twitch_emote_api::routes::parse_frame_spec;
use twitch_emote_api::routes::parse_platform;
use twitch_emote_api::routes::select_frame;
use twitch_emote_api::routes::webp_content_type;

#[test]
fn frame_spec_with_suffix_parses() {
    assert_eq!(parse_frame_spec("3.webp"), Some(3));
    assert_eq!(parse_frame_spec("0.webp"), Some(0));
    assert_eq!(parse_frame_spec("4294967295.webp"), Some(u32::MAX));
}

#[test]
fn frame_spec_suffix_is_case_insensitive() {
    assert_eq!(parse_frame_spec("3.WEBP"), Some(3));
    assert_eq!(parse_frame_spec("3.WeBp"), Some(3));
}

#[test]
fn frame_spec_without_suffix_is_rejected() {
    assert_eq!(parse_frame_spec("3"), None);
    assert_eq!(parse_frame_spec("3.png"), None);
    assert_eq!(parse_frame_spec(""), None);
}

#[test]
fn frame_spec_with_non_numeric_prefix_is_rejected() {
    assert_eq!(parse_frame_spec("abc.webp"), None);
    assert_eq!(parse_frame_spec(".webp"), None);
    assert_eq!(parse_frame_spec("+3.webp"), None);
    assert_eq!(parse_frame_spec("3x.webp"), None);
}

#[test]
fn frame_spec_overflow_is_rejected() {
    assert_eq!(parse_frame_spec("4294967296.webp"), None);
    assert_eq!(parse_frame_spec("99999999999999999999.webp"), None);
    // Leading zeros do not change the value.
    assert_eq!(parse_frame_spec("0003.webp"), Some(3));
}

fn tiny_emote() -> Emote {
    let buf = image::RgbaImage::from_pixel(2, 2, image::Rgba([1, 2, 3, 255]));
    let mut out = std::io::Cursor::new(Vec::new());
    image::DynamicImage::ImageRgba8(buf).write_to(&mut out, image::ImageFormat::Png).unwrap();
    Emote::try_new(&out.into_inner(), ImageFormat::Png, "e".to_string()).unwrap()
}

#[test]
fn select_frame_bounds() {
    let emote = tiny_emote();
    assert!(select_frame(&emote, 0).is_some());
    assert!(select_frame(&emote, 1).is_none());
    assert!(select_frame(&emote, 99).is_none());
}

#[test]
fn platform_tokens_parse() {
    assert!(matches!(parse_platform("twitch"), Some(Platform::Twitch)));
    assert!(matches!(parse_platform("7tv"), Some(Platform::SevenTv)));
    assert!(matches!(parse_platform("bttv"), Some(Platform::BetterTtv)));
    assert!(matches!(parse_platform("ffz"), Some(Platform::FrancerFaceZ)));
    assert_eq!(parse_platform("7TV"), None);
    assert_eq!(parse_platform("unknown"), None);
}

#[test]
fn platform_tokens_round_trip() {
    for p in [Platform::Twitch, Platform::SevenTv, Platform::BetterTtv, Platform::FrancerFaceZ] {
        assert_eq!(parse_platform(p.token()), Some(p));
    }
}

#[test]
fn error_status_codes() {
    assert_eq!(PlatformError::ChannelNotFound.status_code(), 404);
    assert_eq!(PlatformError::EmoteNotFound.status_code(), 404);
    assert_eq!(PlatformError::RequestFailure.status_code(), 502);
    assert_eq!(PlatformError::PlatformError(Platform::SevenTv).status_code(), 502);
    assert_eq!(PlatformError::Unauthorized(Platform::Twitch).status_code(), 500);
    assert_eq!(PlatformError::DecodeError(EmoteError::ImageDecodeError).status_code(), 500);
    assert_eq!(PlatformError::TwitchChannelEmotes.status_code(), 500);
}

#[test]
fn error_messages_name_the_platform() {
    let msg = PlatformError::PlatformError(Platform::FrancerFaceZ).message();
    assert_eq!(msg, "requesting the emote from FrankerFaceZ returned an error");
    let msg = PlatformError::Unauthorized(Platform::Twitch).message();
    assert_eq!(msg, "requesting the emote from Twitch was rejected");
}

#[test]
fn header_values() {
    assert_eq!(emote_cache_control(), "max-age=54000, public");
    assert_eq!(globals_cache_control(), "max-age=86400, public");
    assert_eq!(webp_content_type(), "image/webp");
}

#[test]
fn platform_display_names() {
    assert_eq!(Platform::Twitch.display_name(), "Twitch");
    assert_eq!(Platform::SevenTv.display_name(), "7TV");
    assert_eq!(Platform::BetterTtv.display_name(), "BetterTTV");
    assert_eq!(Platform::FrancerFaceZ.display_name(), "FrankerFaceZ");
}
