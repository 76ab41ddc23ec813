//! Image container handling: the declared format of upstream bytes, verified
//! format discovery (MIME parsing and magic-byte sniffing), and the trusted
//! decode/encode calls into the `image` crate.

use vstd::prelude::*;

verus! {

use vstd::string::StringSliceAdditionalSpecFns;

/// The image containers the gateway consumes. Anything else fails format
/// discovery.
#[derive(Debug, Clone, Copy, PartialEq, Eq, Structural)]
pub enum ImageFormat {
    Gif,
    WebP,
    Png,
    Jpeg,
}

/// Distinguishes the formats in the results named for the outside decoder.
pub open spec fn format_code(f: ImageFormat) -> int {
    match f {
        ImageFormat::Gif => 0,
        ImageFormat::WebP => 1,
        ImageFormat::Png => 2,
        ImageFormat::Jpeg => 3,
    }
}

/// One source frame as decoded from an animated container: RGBA pixels plus
/// the inter-frame delay as a ratio of milliseconds.
#[derive(Debug, Clone)]
pub struct DecodedFrame {
    pub width: u32,
    pub height: u32,
    /// Numerator of the delay in milliseconds.
    pub delay_num: u32,
    /// Denominator of the delay in milliseconds; always at least 1.
    pub delay_den: u32,
    /// RGBA bytes, row-major, four bytes per pixel.
    pub data: Vec<u8>,
}

impl DecodedFrame {
    /// The pixel buffer matches the dimensions and the delay ratio is valid.
    pub open spec fn wf(self) -> bool {
        self.data@.len() == 4 * self.width * self.height && self.delay_den >= 1
    }

    /// The frame as a plain tuple, for the specs of the outside decoders.
    pub open spec fn model(self) -> (u32, u32, u32, u32, Seq<u8>) {
        (self.width, self.height, self.delay_num, self.delay_den, self.data@)
    }
}

/// A frame sequence as plain tuples.
pub open spec fn frames_model(fs: Seq<DecodedFrame>) -> Seq<(u32, u32, u32, u32, Seq<u8>)> {
    fs.map_values(|f: DecodedFrame| f.model())
}

/// What the GIF decoder yields for a byte string: every frame in source
/// order, or nothing when the bytes are not a decodable GIF.
pub uninterp spec fn gif_frames_of(bytes: Seq<u8>) -> Option<Seq<(u32, u32, u32, u32, Seq<u8>)>>;

/// Relies on image's `GifDecoder` with `into_frames`/`collect_frames`: the
/// decoded frames are a function of the input bytes alone; every frame's RGBA
/// buffer holds 4·width·height bytes (an `RgbaImage` invariant), and every
/// delay ratio has a nonzero denominator (`image::animation::Ratio` asserts
/// it).
#[verifier::external_body]
pub(crate) fn gif_decode(data: &[u8]) -> (r: Option<Vec<DecodedFrame>>)
    ensures
        match r {
            Some(fs) => gif_frames_of(data@) == Some(frames_model(fs@)) && forall|i: int|
                0 <= i < fs@.len() ==> (#[trigger] fs@[i]).wf(),
            None => gif_frames_of(data@) is None,
        },
{
    let decoder = image::codecs::gif::GifDecoder::new(std::io::Cursor::new(data)).ok()?;
    let frames = image::AnimationDecoder::into_frames(decoder).collect_frames().ok()?;
    Some(frames.into_iter().map(|f| {
        let (delay_num, delay_den) = f.delay().numer_denom_ms();
        let buf = f.into_buffer();
        let (width, height) = (buf.width(), buf.height());
        DecodedFrame { width, height, delay_num, delay_den, data: buf.into_raw() }
    }).collect())
}

/// Whether a WebP container advertises animation; absent when its header does
/// not parse.
pub uninterp spec fn webp_animation_flag_of(bytes: Seq<u8>) -> Option<bool>;

/// Relies on image's `WebPDecoder::has_animation`: the flag is read from the
/// container header, a function of the bytes alone.
#[verifier::external_body]
pub(crate) fn webp_has_animation(data: &[u8]) -> (r: Option<bool>)
    ensures
        r == webp_animation_flag_of(data@),
{
    let decoder = image::codecs::webp::WebPDecoder::new(std::io::Cursor::new(data)).ok()?;
    Some(decoder.has_animation())
}

/// What the animated-WebP decoder (with a transparent background) yields for
/// a byte string.
pub uninterp spec fn webp_frames_of(bytes: Seq<u8>) -> Option<Seq<(u32, u32, u32, u32, Seq<u8>)>>;

/// Relies on image's `WebPDecoder` with the background color set to
/// transparent (RGBA 0,0,0,0) and `into_frames`/`collect_frames`, with the
/// same per-frame facts as for GIF.
#[verifier::external_body]
pub(crate) fn webp_decode_animated(data: &[u8]) -> (r: Option<Vec<DecodedFrame>>)
    ensures
        match r {
            Some(fs) => webp_frames_of(data@) == Some(frames_model(fs@)) && forall|i: int|
                0 <= i < fs@.len() ==> (#[trigger] fs@[i]).wf(),
            None => webp_frames_of(data@) is None,
        },
{
    let mut decoder = image::codecs::webp::WebPDecoder::new(std::io::Cursor::new(data)).ok()?;
    decoder.set_background_color(image::Rgba([0; 4])).ok()?;
    let frames = image::AnimationDecoder::into_frames(decoder).collect_frames().ok()?;
    Some(frames.into_iter().map(|f| {
        let (delay_num, delay_den) = f.delay().numer_denom_ms();
        let buf = f.into_buffer();
        let (width, height) = (buf.width(), buf.height());
        DecodedFrame { width, height, delay_num, delay_den, data: buf.into_raw() }
    }).collect())
}

/// What decoding a still image of the given format yields: width, height and
/// RGBA pixels.
pub uninterp spec fn still_image_of(bytes: Seq<u8>, format_code: int) -> Option<
    (u32, u32, Seq<u8>),
>;

/// Relies on `image::load_from_memory_with_format` and
/// `DynamicImage::into_rgba8`: the decoded pixels are a function of the bytes
/// and the format; the buffer holds 4·width·height bytes.
#[verifier::external_body]
pub(crate) fn decode_still(data: &[u8], format: ImageFormat) -> (r: Option<(u32, u32, Vec<u8>)>)
    ensures
        match r {
            Some(t) => still_image_of(data@, format_code(format)) == Some((t.0, t.1, t.2@))
                && t.2@.len() == 4 * t.0 * t.1,
            None => still_image_of(data@, format_code(format)) is None,
        },
{
    let fmt = match format {
        ImageFormat::Gif => image::ImageFormat::Gif,
        ImageFormat::WebP => image::ImageFormat::WebP,
        ImageFormat::Png => image::ImageFormat::Png,
        ImageFormat::Jpeg => image::ImageFormat::Jpeg,
    };
    let img = image::load_from_memory_with_format(data, fmt).ok()?;
    let buf = img.into_rgba8();
    let (width, height) = (buf.width(), buf.height());
    Some((width, height, buf.into_raw()))
}

/// What encoding an RGBA buffer as (lossless) WebP yields.
pub uninterp spec fn webp_encoding_of(width: u32, height: u32, pixels: Seq<u8>) -> Option<Seq<u8>>;

/// Relies on `RgbaImage::from_raw` (which accepts a buffer of exactly
/// 4·width·height bytes) and `write_to` with the WebP format: the encoding is
/// a function of the dimensions and pixels alone.
#[verifier::external_body]
pub(crate) fn webp_encode(width: u32, height: u32, pixels: &Vec<u8>) -> (r: Option<Vec<u8>>)
    requires
        pixels@.len() == 4 * width * height,
    ensures
        match r {
            Some(v) => webp_encoding_of(width, height, pixels@) == Some(v@),
            None => webp_encoding_of(width, height, pixels@) is None,
        },
{
    let img = image::RgbaImage::from_raw(width, height, pixels.clone())?;
    let mut out = std::io::Cursor::new(Vec::new());
    img.write_to(&mut out, image::ImageFormat::WebP).ok()?;
    Some(out.into_inner())
}

/// The MIME tokens the gateway maps to a format.
pub open spec fn spec_format_from_mime(b: Seq<u8>) -> Option<ImageFormat> {
    if b == seq![105u8, 109u8, 97u8, 103u8, 101u8, 47u8, 103u8, 105u8, 102u8] {
        Some(ImageFormat::Gif)
    } else if b == seq![105u8, 109u8, 97u8, 103u8, 101u8, 47u8, 119u8, 101u8, 98u8, 112u8] {
        Some(ImageFormat::WebP)
    } else if b == seq![105u8, 109u8, 97u8, 103u8, 101u8, 47u8, 112u8, 110u8, 103u8] {
        Some(ImageFormat::Png)
    } else if b == seq![105u8, 109u8, 97u8, 103u8, 101u8, 47u8, 106u8, 112u8, 101u8, 103u8] {
        Some(ImageFormat::Jpeg)
    } else {
        None
    }
}

/// `r` holds exactly when the two byte strings are equal.
pub(crate) fn eq_bytes(a: &[u8], b: &[u8]) -> (r: bool)
    ensures
        r <==> a@ == b@,
{
    if a.len() != b.len() {
        proof {
            assert(a@.len() != b@.len());
        }
        return false;
    }
    let n = a.len();
    for i in 0..n
        invariant
            n == a@.len(),
            n == b@.len(),
            forall|j: int| 0 <= j < i ==> a@[j] == b@[j],
    {
        if a[i] != b[i] {
            return false;
        }
    }
    proof {
        assert(a@ =~= b@);
    }
    true
}

/// Maps a Content-Type value to a known format, as the decoder table does.
pub fn format_from_mime(mime: &str) -> (r: Option<ImageFormat>)
    ensures
        r == spec_format_from_mime(mime.spec_bytes()),
{
    let b = mime.as_bytes();
    let gif: [u8; 9] = [105u8, 109u8, 97u8, 103u8, 101u8, 47u8, 103u8, 105u8, 102u8];
    let webp: [u8; 10] = [105u8, 109u8, 97u8, 103u8, 101u8, 47u8, 119u8, 101u8, 98u8, 112u8];
    let png: [u8; 9] = [105u8, 109u8, 97u8, 103u8, 101u8, 47u8, 112u8, 110u8, 103u8];
    let jpeg: [u8; 10] = [105u8, 109u8, 97u8, 103u8, 101u8, 47u8, 106u8, 112u8, 101u8, 103u8];
    if eq_bytes(b, gif.as_slice()) {
        Some(ImageFormat::Gif)
    } else if eq_bytes(b, webp.as_slice()) {
        Some(ImageFormat::WebP)
    } else if eq_bytes(b, png.as_slice()) {
        Some(ImageFormat::Png)
    } else if eq_bytes(b, jpeg.as_slice()) {
        Some(ImageFormat::Jpeg)
    } else {
        None
    }
}

/// The PNG signature.
pub open spec fn spec_is_png(b: Seq<u8>) -> bool {
    b.len() >= 8 && b[0] == 0x89u8 && b[1] == 80u8 && b[2] == 78u8 && b[3] == 71u8 && b[4]
        == 0x0du8 && b[5] == 0x0au8 && b[6] == 0x1au8 && b[7] == 0x0au8
}

/// The JPEG start-of-image marker.
pub open spec fn spec_is_jpeg(b: Seq<u8>) -> bool {
    b.len() >= 3 && b[0] == 0xffu8 && b[1] == 0xd8u8 && b[2] == 0xffu8
}

/// The two GIF signatures, `GIF89a` and `GIF87a`.
pub open spec fn spec_is_gif(b: Seq<u8>) -> bool {
    b.len() >= 6 && b[0] == 71u8 && b[1] == 73u8 && b[2] == 70u8 && b[3] == 56u8 && (b[4] == 57u8
        || b[4] == 55u8) && b[5] == 97u8
}

/// The RIFF/WEBP container signature: `RIFF` at offset 0, `WEBP` at offset 8.
pub open spec fn spec_is_webp(b: Seq<u8>) -> bool {
    b.len() >= 12 && b[0] == 82u8 && b[1] == 73u8 && b[2] == 70u8 && b[3] == 70u8 && b[8] == 87u8
        && b[9] == 69u8 && b[10] == 66u8 && b[11] == 80u8
}

/// Magic-byte sniffing over the formats the gateway knows.
pub open spec fn spec_guess_format(b: Seq<u8>) -> Option<ImageFormat> {
    if spec_is_png(b) {
        Some(ImageFormat::Png)
    } else if spec_is_jpeg(b) {
        Some(ImageFormat::Jpeg)
    } else if spec_is_gif(b) {
        Some(ImageFormat::Gif)
    } else if spec_is_webp(b) {
        Some(ImageFormat::WebP)
    } else {
        None
    }
}

/// Sniffs the format from the magic bytes at the start of `data`.
pub fn guess_format(data: &[u8]) -> (r: Option<ImageFormat>)
    ensures
        r == spec_guess_format(data@),
{
    let n = data.len();
    if n >= 8 && data[0] == 0x89 && data[1] == 80u8 && data[2] == 78u8 && data[3] == 71u8
        && data[4] == 0x0d && data[5] == 0x0a && data[6] == 0x1a && data[7] == 0x0a {
        Some(ImageFormat::Png)
    } else if n >= 3 && data[0] == 0xff && data[1] == 0xd8 && data[2] == 0xff {
        Some(ImageFormat::Jpeg)
    } else if n >= 6 && data[0] == 71u8 && data[1] == 73u8 && data[2] == 70u8 && data[3] == 56u8
        && (data[4] == 57u8 || data[4] == 55u8) && data[5] == 97u8 {
        Some(ImageFormat::Gif)
    } else if n >= 12 && data[0] == 82u8 && data[1] == 73u8 && data[2] == 70u8 && data[3] == 70u8
        && data[8] == 87u8 && data[9] == 69u8 && data[10] == 66u8 && data[11] == 80u8 {
        Some(ImageFormat::WebP)
    } else {
        None
    }
}

} // verus!
