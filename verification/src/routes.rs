//! Route classification: the frame-path rule, the platform path token, frame
//! selection, and the fixed response header values.
//!
//! A frame path such as `3.webp` must end in `.webp` case-insensitively, and
//! the prefix before the suffix must be a plain decimal frame number;
//! anything else is answered with 404.

use vstd::prelude::*;

use crate::codec::eq_bytes;
use crate::emote::Emote;
use crate::frame::Frame;
use crate::platform::Platform;

verus! {

use vstd::string::StringSliceAdditionalSpecFns;

/// ASCII lowercasing of one byte.
pub open spec fn spec_lower(b: u8) -> u8 {
    if 65 <= b <= 90 {
        (b + 32) as u8
    } else {
        b
    }
}

/// The path ends in `.webp`, case-insensitively.
pub open spec fn spec_has_webp_suffix(b: Seq<u8>) -> bool {
    b.len() >= 5 && b[b.len() - 5] == 46 && spec_lower(b[b.len() - 4]) == 119 && spec_lower(
        b[b.len() - 3],
    ) == 101 && spec_lower(b[b.len() - 2]) == 98 && spec_lower(b[b.len() - 1]) == 112
}

/// An ASCII decimal digit.
pub open spec fn spec_is_digit(b: u8) -> bool {
    48 <= b <= 57
}

pub open spec fn spec_all_digits(b: Seq<u8>) -> bool {
    forall|i: int| 0 <= i < b.len() ==> spec_is_digit(#[trigger] b[i])
}

/// The number the decimal digit string stands for.
pub open spec fn spec_dec_value(b: Seq<u8>) -> int
    decreases b.len(),
{
    if b.len() == 0 {
        0
    } else {
        spec_dec_value(b.drop_last()) * 10 + (b.last() - 48)
    }
}

/// The frame number a path segment addresses: present exactly when the
/// segment is decimal digits followed by a case-insensitive `.webp`, and the
/// number fits a `u32`.
pub open spec fn spec_parse_frame(b: Seq<u8>) -> Option<u32> {
    if spec_has_webp_suffix(b) {
        let digits = b.take(b.len() - 5);
        if digits.len() >= 1 && spec_all_digits(digits) && spec_dec_value(digits) <= u32::MAX {
            Some(spec_dec_value(digits) as u32)
        } else {
            None
        }
    } else {
        None
    }
}

/// ASCII lowercasing of one byte.
fn lower_byte(b: u8) -> (r: u8)
    ensures
        r == spec_lower(b),
{
    if 65 <= b && b <= 90 {
        b + 32
    } else {
        b
    }
}

/// Parses a frame path segment such as `3.webp`; absent on anything that is
/// not a decimal frame number with the suffix.
pub fn parse_frame_spec(s: &str) -> (r: Option<u32>)
    ensures
        r == spec_parse_frame(s.spec_bytes()),
{
    let b = s.as_bytes();
    let n = b.len();
    if n < 5 {
        return None;
    }
    if b[n - 5] != 46 || lower_byte(b[n - 4]) != 119 || lower_byte(b[n - 3]) != 101 || lower_byte(
        b[n - 2],
    ) != 98 || lower_byte(b[n - 1]) != 112 {
        return None;
    }
    let digit_count = n - 5;
    if digit_count == 0 {
        return None;
    }
    let ghost digits = b@.take(digit_count as int);
    let mut val: u64 = 0;
    let mut over = false;
    for i in 0..digit_count
        invariant
            b@ == s.spec_bytes(),
            spec_has_webp_suffix(b@),
            n == b@.len(),
            5 <= n,
            1 <= digit_count,
            digit_count == n - 5,
            digits == b@.take(digit_count as int),
            forall|j: int| 0 <= j < i ==> spec_is_digit(#[trigger] digits[j]),
            !over ==> val == spec_dec_value(digits.take(i as int)) && val <= u32::MAX,
            over ==> spec_dec_value(digits.take(i as int)) > u32::MAX,
    {
        let d = b[i];
        if d < 48 || d > 57 {
            proof {
                assert(digits[i as int] == b@[i as int]);
                assert(!spec_all_digits(digits));
            }
            return None;
        }
        proof {
            assert(digits[i as int] == b@[i as int]);
            assert(digits.take(i + 1).drop_last() =~= digits.take(i as int));
            assert(digits.take(i + 1).last() == digits[i as int]);
        }
        if !over {
            val = val * 10 + ((d - 48) as u64);
            if val > 0xffff_ffffu64 {
                over = true;
            }
        } else {
            proof {
                assert(spec_dec_value(digits.take(i + 1)) == spec_dec_value(digits.take(i as int))
                    * 10 + (digits[i as int] - 48));
            }
        }
    }
    proof {
        assert(digits.take(digit_count as int) =~= digits);
    }
    if over {
        return None;
    }
    Some(val as u32)
}

/// Frame `n` of the emote, when it has one.
pub fn select_frame(emote: &Emote, n: u32) -> (r: Option<&Frame>)
    ensures
        match r {
            Some(f) => n < emote.frames@.len() && *f == emote.frames@[n as int],
            None => n >= emote.frames@.len(),
        },
{
    if (n as usize) < emote.frames.len() {
        Some(&emote.frames[n as usize])
    } else {
        None
    }
}

/// The platform a path token names.
pub open spec fn spec_parse_platform(b: Seq<u8>) -> Option<Platform> {
    if b == seq![116u8, 119u8, 105u8, 116u8, 99u8, 104u8] {
        Some(Platform::Twitch)
    } else if b == seq![55u8, 116u8, 118u8] {
        Some(Platform::SevenTv)
    } else if b == seq![98u8, 116u8, 116u8, 118u8] {
        Some(Platform::BetterTtv)
    } else if b == seq![102u8, 102u8, 122u8] {
        Some(Platform::FrancerFaceZ)
    } else {
        None
    }
}

/// Parses the `{platform}` path segment: one of `twitch`, `7tv`, `bttv`,
/// `ffz`.
pub fn parse_platform(s: &str) -> (r: Option<Platform>)
    ensures
        r == spec_parse_platform(s.spec_bytes()),
{
    let b = s.as_bytes();
    let twitch: [u8; 6] = [116, 119, 105, 116, 99, 104];
    let seventv: [u8; 3] = [55, 116, 118];
    let bttv: [u8; 4] = [98, 116, 116, 118];
    let ffz: [u8; 3] = [102, 102, 122];
    if eq_bytes(b, twitch.as_slice()) {
        Some(Platform::Twitch)
    } else if eq_bytes(b, seventv.as_slice()) {
        Some(Platform::SevenTv)
    } else if eq_bytes(b, bttv.as_slice()) {
        Some(Platform::BetterTtv)
    } else if eq_bytes(b, ffz.as_slice()) {
        Some(Platform::FrancerFaceZ)
    } else {
        None
    }
}

/// The Cache-Control value of emote info, frame and atlas responses: fifteen
/// hours.
pub fn emote_cache_control() -> (r: &'static str)
    ensures
        r@ == "max-age=54000, public"@,
{
    "max-age=54000, public"
}

/// The Cache-Control value of global-emote info responses: a day.
pub fn globals_cache_control() -> (r: &'static str)
    ensures
        r@ == "max-age=86400, public"@,
{
    "max-age=86400, public"
}

/// The Content-Type of every image response.
pub fn webp_content_type() -> (r: &'static str)
    ensures
        r@ == "image/webp"@,
{
    "image/webp"
}

} // verus!
