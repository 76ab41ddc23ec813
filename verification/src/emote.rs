//! The decoded, cache-ready image bundle and the decode/transcode pipeline.

use vstd::prelude::*;

use crate::atlas::spec_atlas_canvas;
use crate::atlas::spec_ceil_div;
use crate::atlas::spec_ceil_sqrt;
use crate::atlas::AtlasTexture;
use crate::codec::decode_still;
use crate::codec::format_code;
use crate::codec::format_from_mime;
use crate::codec::frames_model;
use crate::codec::gif_decode;
use crate::codec::gif_frames_of;
use crate::codec::guess_format;
use crate::codec::spec_format_from_mime;
use crate::codec::spec_guess_format;
use crate::codec::still_image_of;
use crate::codec::webp_animation_flag_of;
use crate::codec::webp_decode_animated;
use crate::codec::webp_encoding_of;
use crate::codec::webp_frames_of;
use crate::codec::webp_has_animation;
use crate::codec::DecodedFrame;
use crate::codec::ImageFormat;
use crate::frame::Delay;
use crate::frame::Frame;
use crate::platform::ChannelEmote;
use crate::platform::Platform;

verus! {

use vstd::string::StringSliceAdditionalSpecFns;

/// What can go wrong while turning upstream bytes into an [`Emote`].
#[derive(Debug, Clone, Copy, PartialEq, Eq, Structural)]
pub enum EmoteError {
    /// The bytes could not be decoded, or the result could not be re-encoded.
    ImageDecodeError,
    /// The upstream image URL was not valid.
    BadUrl,
    /// The upstream response carried a Content-Type that is no image's.
    WrongMimeType,
    /// The upstream response carried no Content-Type header.
    MissingContentType,
    /// Neither the Content-Type nor the magic bytes named a known format.
    UnableToDetermineFormat,
    /// The upstream request itself failed.
    UpstreamRequest,
}

impl EmoteError {
    /// A short description of the failure.
    pub fn message(&self) -> (r: &'static str)
        ensures
            self is ImageDecodeError ==> r@ == "the image could not be decoded"@,
            self is BadUrl ==> r@ == "the provided url was not valid"@,
            self is WrongMimeType ==> r@ == "request returned wrong MIME type"@,
            self is MissingContentType ==> r@ == "request did not contain proper headers"@,
            self is UnableToDetermineFormat ==> r@
                == "request did not contain proper headers or wasn't a valid image"@,
            self is UpstreamRequest ==> r@ == "the upstream request failed"@,
    {
        match self {
            EmoteError::ImageDecodeError => "the image could not be decoded",
            EmoteError::BadUrl => "the provided url was not valid",
            EmoteError::WrongMimeType => "request returned wrong MIME type",
            EmoteError::MissingContentType => "request did not contain proper headers",
            EmoteError::UnableToDetermineFormat => "request did not contain proper headers or wasn't a valid image",
            EmoteError::UpstreamRequest => "the upstream request failed",
        }
    }
}

/// A decoded, cache-ready image bundle: the canonical frames, their shared
/// dimensions, and the atlas of an animated source.
#[derive(Debug, Clone)]
pub struct Emote {
    /// Opaque provider-scoped identifier.
    pub id: String,
    /// Per-frame pixel width.
    pub width: u32,
    /// Per-frame pixel height.
    pub height: u32,
    /// The ordered frames; never empty.
    pub frames: Vec<Frame>,
    /// The sprite atlas; present exactly for sources decoded as animations.
    pub atlas: Option<AtlasTexture>,
}

/// All frames share the dimensions of the first.
pub open spec fn uniform_dims(m: Seq<(u32, u32, u32, u32, Seq<u8>)>) -> bool {
    forall|i: int| 0 <= i < m.len() ==> (#[trigger] m[i]).0 == m[0].0 && m[i].1 == m[0].1
}

/// Exactly what assembling an emote from the decoded frames `m` of an
/// animated source returns.
///
/// It fails with [`EmoteError::ImageDecodeError`] when there is no frame, the
/// frames disagree about their size, a dimension is zero or too large for the
/// machine, or the encoder refuses a frame or the atlas canvas; otherwise it
/// succeeds, and the result keeps every frame (re-encoded, with its delay) in
/// source order and carries the atlas.
pub open spec fn spec_assembled_animated(
    id: Seq<char>,
    m: Seq<(u32, u32, u32, u32, Seq<u8>)>,
    r: Result<Emote, EmoteError>,
) -> bool {
    let n = m.len();
    let w = m[0].0;
    let h = m[0].1;
    let cols = spec_ceil_sqrt(n);
    let rows = spec_ceil_div(n, cols);
    let cw = (cols * w) as nat;
    let ch = (rows * h) as nat;
    let fits = cw <= u32::MAX && ch <= u32::MAX && 4 * cw * ch <= usize::MAX;
    let enc_ok = forall|i: int|
        0 <= i < n ==> webp_encoding_of((#[trigger] m[i]).0, m[i].1, m[i].4) is Some;
    let atlas_enc = webp_encoding_of(
        cw as u32,
        ch as u32,
        spec_atlas_canvas(m, w as nat, h as nat, cols, cw, ch),
    );
    if n == 0 || !uniform_dims(m) || n > u32::MAX || w == 0 || h == 0 {
        r == Err::<Emote, EmoteError>(EmoteError::ImageDecodeError)
    } else if !enc_ok || !fits || atlas_enc is None {
        r == Err::<Emote, EmoteError>(EmoteError::ImageDecodeError)
    } else {
        match r {
            Ok(e) => e.id@ == id && e.width == w && e.height == h && e.frames@.len() == n && (
            forall|i: int|
                0 <= i < n ==> (#[trigger] e.frames@[i]).delay.num == m[i].2
                    && e.frames@[i].delay.den == m[i].3 && Some(e.frames@[i].data@)
                    == webp_encoding_of(m[i].0, m[i].1, m[i].4)) && match e.atlas {
                Some(a) => a.frame_count == n && a.x_size == cols && a.y_size == rows && Some(
                    a.data@,
                ) == atlas_enc,
                None => false,
            },
            Err(_) => false,
        }
    }
}

/// Exactly what assembling an emote from a still image returns: one frame
/// with the sentinel delay and no atlas, or a decode error when the encoder
/// refuses the pixels.
pub open spec fn spec_assembled_still(
    id: Seq<char>,
    w: u32,
    h: u32,
    px: Seq<u8>,
    r: Result<Emote, EmoteError>,
) -> bool {
    match webp_encoding_of(w, h, px) {
        Some(d) => match r {
            Ok(e) => e.id@ == id && e.width == w && e.height == h && e.frames@.len() == 1
                && e.frames@[0].delay.is_still() && e.frames@[0].data@ == d && e.atlas is None,
            Err(_) => false,
        },
        None => r == Err::<Emote, EmoteError>(EmoteError::ImageDecodeError),
    }
}

/// Exactly what [`Emote::try_new`] returns for each format and byte string.
pub open spec fn spec_decoded_emote(
    data: Seq<u8>,
    format: ImageFormat,
    id: Seq<char>,
    r: Result<Emote, EmoteError>,
) -> bool {
    match format {
        ImageFormat::Gif => match gif_frames_of(data) {
            Some(m) => spec_assembled_animated(id, m, r),
            None => r == Err::<Emote, EmoteError>(EmoteError::ImageDecodeError),
        },
        ImageFormat::WebP => match webp_animation_flag_of(data) {
            Some(true) => match webp_frames_of(data) {
                Some(m) => spec_assembled_animated(id, m, r),
                None => r == Err::<Emote, EmoteError>(EmoteError::ImageDecodeError),
            },
            Some(false) => match still_image_of(data, format_code(ImageFormat::WebP)) {
                Some(t) => spec_assembled_still(id, t.0, t.1, t.2, r),
                None => r == Err::<Emote, EmoteError>(EmoteError::ImageDecodeError),
            },
            None => r == Err::<Emote, EmoteError>(EmoteError::ImageDecodeError),
        },
        _ => match still_image_of(data, format_code(format)) {
            Some(t) => spec_assembled_still(id, t.0, t.1, t.2, r),
            None => r == Err::<Emote, EmoteError>(EmoteError::ImageDecodeError),
        },
    }
}

/// Format discovery: the Content-Type header first, the magic bytes when the
/// header is absent or names no known format.
pub open spec fn spec_discover_format(mime: Option<Seq<u8>>, data: Seq<u8>) -> Option<ImageFormat> {
    match mime {
        Some(m) => match spec_format_from_mime(m) {
            Some(f) => Some(f),
            None => spec_guess_format(data),
        },
        None => spec_guess_format(data),
    }
}

impl Emote {
    /// Assembles an emote from the frames decoded out of an animated source.
    ///
    /// Public so that the assembly can be exercised on any frame sequence; the
    /// outcome for every input is pinned by [`spec_assembled_animated`].
    pub fn from_animated_frames(id: String, frames: Vec<DecodedFrame>) -> (r: Result<
        Emote,
        EmoteError,
    >)
        requires
            forall|i: int| 0 <= i < frames@.len() ==> (#[trigger] frames@[i]).wf(),
        ensures
            spec_assembled_animated(id@, frames_model(frames@), r),
    {
        let ghost m = frames_model(frames@);
        let n = frames.len();
        if n == 0 {
            return Err(EmoteError::ImageDecodeError);
        }
        let width = frames[0].width;
        let height = frames[0].height;
        proof {
            assert(m[0] == frames@[0].model());
        }
        for i in 0..n
            invariant
                n == frames@.len(),
                m == frames_model(frames@),
                width == m[0].0,
                height == m[0].1,
                forall|j: int| 0 <= j < i ==> (#[trigger] m[j]).0 == m[0].0 && m[j].1 == m[0].1,
        {
            proof {
                assert(m[i as int] == frames@[i as int].model());
            }
            if frames[i].width != width || frames[i].height != height {
                proof {
                    assert(!uniform_dims(m));
                }
                return Err(EmoteError::ImageDecodeError);
            }
        }
        proof {
            assert(uniform_dims(m));
        }
        if width == 0 || height == 0 {
            return Err(EmoteError::ImageDecodeError);
        }
        if n > u32::MAX as usize {
            return Err(EmoteError::ImageDecodeError);
        }
        proof {
            assert forall|i: int| 0 <= i < frames@.len() implies (#[trigger] frames@[i]).width
                == width && frames@[i].height == height by {
                assert(m[i] == frames@[i].model());
            }
        }
        let out_frames = match Frame::try_from_iter(&frames) {
            Some(v) => v,
            None => {
                proof {
                    let i = choose|i: int|
                        0 <= i < frames@.len() && webp_encoding_of(
                            frames@[i].width,
                            frames@[i].height,
                            (#[trigger] frames@[i]).data@,
                        ) is None;
                    assert(m[i] == frames@[i].model());
                }
                return Err(EmoteError::ImageDecodeError);
            },
        };
        let atlas = match AtlasTexture::new(&frames, width, height) {
            Some(a) => a,
            None => {
                return Err(EmoteError::ImageDecodeError);
            },
        };
        proof {
            assert forall|i: int| 0 <= i < m.len() implies webp_encoding_of(
                (#[trigger] m[i]).0,
                m[i].1,
                m[i].4,
            ) is Some by {
                assert(m[i] == frames@[i].model());
                assert(webp_encoding_of(
                    frames@[i].width,
                    frames@[i].height,
                    frames@[i].data@,
                ) == Some(out_frames@[i].data@));
            }
            assert forall|i: int| 0 <= i < m.len() implies (#[trigger] out_frames@[i]).delay.num
                == m[i].2 && out_frames@[i].delay.den == m[i].3 && Some(out_frames@[i].data@)
                == webp_encoding_of(m[i].0, m[i].1, m[i].4) by {
                assert(m[i] == frames@[i].model());
            }
        }
        Ok(Emote { id, width, height, frames: out_frames, atlas: Some(atlas) })
    }

    /// Assembles the emote of a still image: a single sentinel-delay frame,
    /// no atlas.
    pub fn from_still_image(id: String, width: u32, height: u32, pixels: Vec<u8>) -> (r: Result<
        Emote,
        EmoteError,
    >)
        requires
            pixels@.len() == 4 * width * height,
        ensures
            spec_assembled_still(id@, width, height, pixels@, r),
    {
        match Frame::try_from_still(width, height, &pixels) {
            Some(f) => Ok(Emote { id, width, height, frames: vec![f], atlas: None }),
            None => Err(EmoteError::ImageDecodeError),
        }
    }

    /// Decodes `data`, declared to be of `format`, into an emote: every frame
    /// re-encoded to WebP, plus an atlas when the source is a GIF or an
    /// animated WebP.
    pub fn try_new(data: &[u8], format: ImageFormat, id: String) -> (r: Result<Emote, EmoteError>)
        ensures
            spec_decoded_emote(data@, format, id@, r),
    {
        match format {
            ImageFormat::Gif => match gif_decode(data) {
                Some(frames) => Emote::from_animated_frames(id, frames),
                None => Err(EmoteError::ImageDecodeError),
            },
            ImageFormat::WebP => match webp_has_animation(data) {
                Some(true) => match webp_decode_animated(data) {
                    Some(frames) => Emote::from_animated_frames(id, frames),
                    None => Err(EmoteError::ImageDecodeError),
                },
                Some(false) => match decode_still(data, ImageFormat::WebP) {
                    Some(t) => Emote::from_still_image(id, t.0, t.1, t.2),
                    None => Err(EmoteError::ImageDecodeError),
                },
                None => Err(EmoteError::ImageDecodeError),
            },
            ImageFormat::Png => match decode_still(data, ImageFormat::Png) {
                Some(t) => Emote::from_still_image(id, t.0, t.1, t.2),
                None => Err(EmoteError::ImageDecodeError),
            },
            ImageFormat::Jpeg => match decode_still(data, ImageFormat::Jpeg) {
                Some(t) => Emote::from_still_image(id, t.0, t.1, t.2),
                None => Err(EmoteError::ImageDecodeError),
            },
        }
    }

    /// Decodes the body of an upstream response: the format is taken from the
    /// Content-Type value when it names one, sniffed from the magic bytes
    /// otherwise; then as [`Emote::try_new`].
    pub fn try_from_parts(content_type: Option<&str>, data: &[u8], id: String) -> (r: Result<
        Emote,
        EmoteError,
    >)
        ensures
            ({
                let mime = match content_type {
                    Some(s) => Some(s.spec_bytes()),
                    None => None,
                };
                match spec_discover_format(mime, data@) {
                    Some(f) => spec_decoded_emote(data@, f, id@, r),
                    None => r == Err::<Emote, EmoteError>(EmoteError::UnableToDetermineFormat),
                }
            }),
    {
        let from_header = match content_type {
            Some(s) => format_from_mime(s),
            None => None,
        };
        let format = match from_header {
            Some(f) => Some(f),
            None => guess_format(data),
        };
        match format {
            Some(f) => Emote::try_new(data, f, id),
            None => Err(EmoteError::UnableToDetermineFormat),
        }
    }
}

/// The serialized description of one emote: its identity and everything a
/// renderer needs to animate it.
#[derive(Debug, Clone)]
pub struct EmoteInfo {
    pub name: String,
    pub id: String,
    pub width: u32,
    pub height: u32,
    pub animated: bool,
    pub platform: Platform,
    pub frame_count: usize,
    /// Per-frame delays, in source order.
    pub frame_delays: Vec<Delay>,
    /// Atlas grid size, for animated emotes.
    pub atlas_info: Option<AtlasInfo>,
}

impl EmoteInfo {
    /// Describes `emote` as it appears in a channel catalog entry.
    pub fn new(channel_info: &ChannelEmote, emote: &Emote) -> (r: EmoteInfo)
        ensures
            r.name@ == channel_info.name@,
            r.id@ == emote.id@,
            r.width == emote.width,
            r.height == emote.height,
            r.animated == channel_info.animated,
            r.platform == channel_info.platform,
            r.frame_count == emote.frames@.len(),
            r.frame_delays@.len() == emote.frames@.len(),
            forall|i: int|
                0 <= i < emote.frames@.len() ==> #[trigger] r.frame_delays@[i]
                    == emote.frames@[i].delay,
            match r.atlas_info {
                Some(info) => emote.atlas matches Some(a) && info.x_size == a.x_size && info.y_size
                    == a.y_size,
                None => emote.atlas is None,
            },
    {
        EmoteInfo {
            name: channel_info.name.clone(),
            id: emote.id.clone(),
            width: emote.width,
            height: emote.height,
            animated: channel_info.animated,
            platform: channel_info.platform,
            frame_count: emote.frames.len(),
            frame_delays: collect_delays(&emote.frames),
            atlas_info: atlas_info_of(emote),
        }
    }

    /// Describes a Twitch emote, which carries no catalog entry: its id
    /// doubles as its name, and it is animated exactly when it has an atlas.
    pub fn new_twitch(emote: &Emote) -> (r: EmoteInfo)
        ensures
            r.name@ == emote.id@,
            r.id@ == emote.id@,
            r.width == emote.width,
            r.height == emote.height,
            r.animated == (emote.atlas is Some),
            r.platform == Platform::Twitch,
            r.frame_count == emote.frames@.len(),
            r.frame_delays@.len() == emote.frames@.len(),
            forall|i: int|
                0 <= i < emote.frames@.len() ==> #[trigger] r.frame_delays@[i]
                    == emote.frames@[i].delay,
            match r.atlas_info {
                Some(info) => emote.atlas matches Some(a) && info.x_size == a.x_size && info.y_size
                    == a.y_size,
                None => emote.atlas is None,
            },
    {
        EmoteInfo {
            name: emote.id.clone(),
            id: emote.id.clone(),
            width: emote.width,
            height: emote.height,
            animated: emote.atlas.is_some(),
            platform: Platform::Twitch,
            frame_count: emote.frames.len(),
            frame_delays: collect_delays(&emote.frames),
            atlas_info: atlas_info_of(emote),
        }
    }
}

/// The delays of the frames, in order.
fn collect_delays(frames: &Vec<Frame>) -> (r: Vec<Delay>)
    ensures
        r@.len() == frames@.len(),
        forall|i: int| 0 <= i < frames@.len() ==> #[trigger] r@[i] == frames@[i].delay,
{
    let mut out: Vec<Delay> = Vec::new();
    let n = frames.len();
    for i in 0..n
        invariant
            n == frames@.len(),
            out@.len() == i,
            forall|j: int| 0 <= j < i ==> #[trigger] out@[j] == frames@[j].delay,
    {
        out.push(frames[i].delay);
    }
    out
}

/// The atlas grid size of an emote, if it has an atlas.
fn atlas_info_of(emote: &Emote) -> (r: Option<AtlasInfo>)
    ensures
        match r {
            Some(info) => emote.atlas matches Some(a) && info.x_size == a.x_size && info.y_size
                == a.y_size,
            None => emote.atlas is None,
        },
{
    match &emote.atlas {
        Some(a) => Some(AtlasInfo { x_size: a.x_size, y_size: a.y_size }),
        None => None,
    }
}

/// The atlas grid size, as serialized in [`EmoteInfo`].
#[derive(Debug, Clone, Copy, PartialEq, Eq, Structural)]
pub struct AtlasInfo {
    pub x_size: u32,
    pub y_size: u32,
}

} // verus!
