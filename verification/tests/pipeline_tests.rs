//! The image pipeline, end to end against real codecs: GIF and WebP inputs,
//! frame re-encoding, atlas assembly, and format discovery.

use image::codecs::gif::GifEncoder;
use image::AnimationDecoder;
use image::Frame as ImageFrame;
use image::ImageFormat as ExtFormat;
use image::RgbaImage;
use twitch_emote_api::codec::ImageFormat;
use twitch_emote_api::emote::Emote;
use twitch_emote_api::emote::EmoteError;
use twitch_emote_api::emote::EmoteInfo;
use twitch_emote_api::platform::ChannelEmote;
use twitch_emote_api::platform::Platform;

/// A 30-frame 12x10 GIF at 40 ms per frame.
fn animated_gif() -> Vec<u8> {
    let mut out = Vec::new();
    {
        let mut enc = GifEncoder::new(&mut out);
        let frames = (0..30).map(|i| {
            let buf = RgbaImage::from_fn(12, 10, |x, y| {
                image::Rgba([(i * 8) as u8, x as u8 * 20, y as u8 * 25, 255])
            });
            ImageFrame::from_parts(buf, 0, 0, image::Delay::from_numer_denom_ms(40, 1))
        });
        enc.encode_frames(frames).unwrap();
    }
    out
}

fn still_png(w: u32, h: u32) -> Vec<u8> {
    let buf = RgbaImage::from_fn(w, h, |x, y| image::Rgba([x as u8, y as u8, 100, 255]));
    let mut out = std::io::Cursor::new(Vec::new());
    image::DynamicImage::ImageRgba8(buf).write_to(&mut out, ExtFormat::Png).unwrap();
    out.into_inner()
}

fn still_webp(w: u32, h: u32) -> Vec<u8> {
    let buf = RgbaImage::from_fn(w, h, |x, y| image::Rgba([x as u8, y as u8, 50, 255]));
    let mut out = std::io::Cursor::new(Vec::new());
    image::DynamicImage::ImageRgba8(buf).write_to(&mut out, ExtFormat::WebP).unwrap();
    out.into_inner()
}

#[test]
fn gif_decodes_to_thirty_frames_with_atlas() {
    let emote = Emote::try_new(&animated_gif(), ImageFormat::Gif, "kappa".to_string()).unwrap();
    assert_eq!(emote.id, "kappa");
    assert_eq!(emote.width, 12);
    assert_eq!(emote.height, 10);
    assert_eq!(emote.frames.len(), 30);
    let atlas = emote.atlas.as_ref().unwrap();
    assert_eq!(atlas.frame_count, 30);
    assert_eq!(atlas.x_size, 6);
    assert_eq!(atlas.y_size, 5);
    for f in &emote.frames {
        assert_eq!(f.delay.num, 40);
        assert_eq!(f.delay.den, 1);
    }
}

#[test]
fn atlas_bytes_decode_with_grid_dimensions() {
    let emote = Emote::try_new(&animated_gif(), ImageFormat::Gif, "kappa".to_string()).unwrap();
    let atlas = emote.atlas.as_ref().unwrap();
    let decoded = image::load_from_memory(&atlas.data).unwrap();
    assert_eq!(decoded.width(), 12 * 6);
    assert_eq!(decoded.height(), 10 * 5);
}

#[test]
fn frame_bytes_round_trip_as_webp() {
    let emote = Emote::try_new(&animated_gif(), ImageFormat::Gif, "kappa".to_string()).unwrap();
    for f in &emote.frames {
        let reader = image::ImageReader::new(std::io::Cursor::new(&f.data))
            .with_guessed_format()
            .unwrap();
        assert_eq!(reader.format(), Some(ExtFormat::WebP));
        let decoded = image::load_from_memory(&f.data).unwrap();
        assert_eq!(decoded.width(), 12);
        assert_eq!(decoded.height(), 10);
    }
}

#[test]
fn still_png_yields_one_sentinel_frame_and_no_atlas() {
    let emote = Emote::try_new(&still_png(8, 5), ImageFormat::Png, "still".to_string()).unwrap();
    assert_eq!(emote.frames.len(), 1);
    assert_eq!(emote.frames[0].delay.den, 0);
    assert!(emote.atlas.is_none());
    assert_eq!(emote.width, 8);
    assert_eq!(emote.height, 5);
    let decoded = image::load_from_memory(&emote.frames[0].data).unwrap();
    assert_eq!(decoded.width(), 8);
    assert_eq!(decoded.height(), 5);
}

#[test]
fn still_webp_takes_the_still_path() {
    let emote = Emote::try_new(&still_webp(6, 4), ImageFormat::WebP, "w".to_string()).unwrap();
    assert_eq!(emote.frames.len(), 1);
    assert!(emote.atlas.is_none());
    assert!(emote.frames[0].delay.den == 0);
}

#[test]
fn garbage_bytes_fail_with_decode_error() {
    let r = Emote::try_new(&[1, 2, 3, 4], ImageFormat::Gif, "bad".to_string());
    assert_eq!(r.unwrap_err(), EmoteError::ImageDecodeError);
}

#[test]
fn format_discovery_prefers_content_type() {
    let bytes = still_png(3, 3);
    let emote = Emote::try_from_parts(Some("image/png"), &bytes, "p".to_string()).unwrap();
    assert_eq!(emote.frames.len(), 1);
}

#[test]
fn format_discovery_sniffs_when_header_is_useless() {
    let bytes = animated_gif();
    // No header at all.
    let emote = Emote::try_from_parts(None, &bytes, "g".to_string()).unwrap();
    assert_eq!(emote.frames.len(), 30);
    // A header that names no known image format.
    let emote = Emote::try_from_parts(Some("text/html"), &bytes, "g".to_string()).unwrap();
    assert_eq!(emote.frames.len(), 30);
}

#[test]
fn format_discovery_fails_on_unknown_bytes() {
    let r = Emote::try_from_parts(Some("text/html"), &[0, 1, 2, 3], "u".to_string());
    assert_eq!(r.unwrap_err(), EmoteError::UnableToDetermineFormat);
}

#[test]
fn emote_info_describes_the_emote() {
    let emote = Emote::try_new(&animated_gif(), ImageFormat::Gif, "123".to_string()).unwrap();
    let entry = ChannelEmote {
        platform: Platform::SevenTv,
        id: "123".to_string(),
        name: "Kappa".to_string(),
        animated: true,
    };
    let info = EmoteInfo::new(&entry, &emote);
    assert_eq!(info.name, "Kappa");
    assert_eq!(info.id, "123");
    assert_eq!(info.frame_count, 30);
    assert!(info.animated);
    assert_eq!(info.frame_delays.len(), 30);
    assert_eq!(info.frame_delays[0].num, 40);
    assert_eq!(info.frame_delays[0].den, 1);
    let atlas_info = info.atlas_info.unwrap();
    assert_eq!(atlas_info.x_size, 6);
    assert_eq!(atlas_info.y_size, 5);

    let twitch_info = EmoteInfo::new_twitch(&emote);
    assert_eq!(twitch_info.name, "123");
    assert!(twitch_info.animated);
    assert!(matches!(twitch_info.platform, Platform::Twitch));
}

#[test]
fn assembled_frames_keep_order_and_delays() {
    let gif = animated_gif();
    let decoder = image::codecs::gif::GifDecoder::new(std::io::Cursor::new(&gif[..])).unwrap();
    let frames = decoder.into_frames().collect_frames().unwrap();
    let decoded: Vec<twitch_emote_api::codec::DecodedFrame> = frames
        .into_iter()
        .map(|f| {
            let (num, den) = f.delay().numer_denom_ms();
            let buf = f.into_buffer();
            twitch_emote_api::codec::DecodedFrame {
                width: buf.width(),
                height: buf.height(),
                delay_num: num,
                delay_den: den,
                data: buf.into_raw(),
            }
        })
        .collect();
    let emote = Emote::from_animated_frames("k".to_string(), decoded).unwrap();
    assert_eq!(emote.frames.len(), 30);
    assert!(emote.atlas.is_some());
    assert_eq!(emote.frames[7].delay.num, 40);
}

#[test]
fn assembly_rejects_an_empty_frame_list() {
    let r = Emote::from_animated_frames("k".to_string(), Vec::new());
    assert_eq!(r.unwrap_err(), EmoteError::ImageDecodeError);
}
