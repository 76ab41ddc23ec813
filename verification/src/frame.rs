//! Canonical frames: every source frame is re-encoded to WebP.

use vstd::prelude::*;

use crate::codec::webp_encode;
use crate::codec::webp_encoding_of;
use crate::codec::DecodedFrame;

verus! {

/// A frame's display delay, as a ratio of milliseconds.
///
/// A zero denominator is the sentinel of a still image's single frame: it
/// stands for a delay larger than any real animation's.
#[derive(Debug, Clone, Copy, PartialEq, Eq, Structural)]
pub struct Delay {
    pub num: u32,
    pub den: u32,
}

impl Delay {
    /// Whether this is the still-image sentinel.
    pub open spec fn is_still(self) -> bool {
        self.den == 0
    }

    /// The sentinel delay of a still image.
    pub fn still() -> (r: Delay)
        ensures
            r.is_still(),
    {
        Delay { num: u32::MAX, den: 0 }
    }
}

/// One canonical image: WebP-encoded bytes plus the display delay.
#[derive(Debug, Clone)]
pub struct Frame {
    pub delay: Delay,
    pub data: Vec<u8>,
}

impl Frame {
    /// Re-encodes every decoded frame to WebP, keeping source order and
    /// delays. Absent exactly when the encoder rejects some frame.
    pub fn try_from_iter(frames: &Vec<DecodedFrame>) -> (r: Option<Vec<Frame>>)
        requires
            forall|i: int| 0 <= i < frames@.len() ==> (#[trigger] frames@[i]).wf(),
        ensures
            match r {
                Some(v) => v@.len() == frames@.len() && forall|i: int|
                    0 <= i < frames@.len() ==> (#[trigger] v@[i]).delay.num
                        == frames@[i].delay_num && v@[i].delay.den == frames@[i].delay_den
                        && webp_encoding_of(
                        frames@[i].width,
                        frames@[i].height,
                        frames@[i].data@,
                    ) == Some(v@[i].data@),
                None => exists|i: int|
                    0 <= i < frames@.len() && webp_encoding_of(
                        frames@[i].width,
                        frames@[i].height,
                        (#[trigger] frames@[i]).data@,
                    ) is None,
            },
    {
        let mut out: Vec<Frame> = Vec::new();
        let n = frames.len();
        for i in 0..n
            invariant
                n == frames@.len(),
                out@.len() == i,
                forall|j: int| 0 <= j < frames@.len() ==> (#[trigger] frames@[j]).wf(),
                forall|j: int|
                    0 <= j < i ==> (#[trigger] out@[j]).delay.num == frames@[j].delay_num
                        && out@[j].delay.den == frames@[j].delay_den && webp_encoding_of(
                        frames@[j].width,
                        frames@[j].height,
                        frames@[j].data@,
                    ) == Some(out@[j].data@),
        {
            let f = &frames[i];
            match webp_encode(f.width, f.height, &f.data) {
                Some(data) => {
                    out.push(Frame { delay: Delay { num: f.delay_num, den: f.delay_den }, data });
                },
                None => {
                    return None;
                },
            }
        }
        Some(out)
    }

    /// The single frame of a still image: its pixels encoded to WebP, with
    /// the sentinel delay. Absent exactly when the encoder rejects the image.
    pub fn try_from_still(width: u32, height: u32, pixels: &Vec<u8>) -> (r: Option<Frame>)
        requires
            pixels@.len() == 4 * width * height,
        ensures
            match r {
                Some(f) => f.delay.is_still() && webp_encoding_of(width, height, pixels@) == Some(
                    f.data@,
                ),
                None => webp_encoding_of(width, height, pixels@) is None,
            },
    {
        match webp_encode(width, height, pixels) {
            Some(data) => Some(Frame { delay: Delay::still(), data }),
            None => None,
        }
    }
}

} // verus!
