//! Icon pixel conversion: 8-bit RGBA pixel data, as icon themes deliver
//! it, to the big-endian RGB565 format the display takes, with the alpha
//! channel premultiplied onto black.
//!
//! Looking an icon up by name and decoding it to RGBA bytes is the
//! surrounding application's job.

use vstd::prelude::*;

verus! {

/// A premultiplied colour component: the component scaled by the alpha.
pub open spec fn spec_premultiply(c: u8, a: u8) -> u16 {
    (c * a / 255) as u16
}

/// The RGB565 word of pixel `p` of an RGBA byte buffer: five bits of red,
/// six of green, five of blue, each premultiplied by the pixel's alpha.
pub open spec fn spec_pixel565(buf: Seq<u8>, p: int) -> u16 {
    let r = spec_premultiply(buf[4 * p], buf[4 * p + 3]);
    let g = spec_premultiply(buf[4 * p + 1], buf[4 * p + 3]);
    let b = spec_premultiply(buf[4 * p + 2], buf[4 * p + 3]);
    (((r & 0xf8) << 8) | ((g & 0xfc) << 3) | (b >> 3)) as u16
}

/// The 16-bit word stored big-endian at position `p` of a byte sequence.
pub open spec fn spec_word_at(s: Seq<u8>, p: int) -> u16 {
    (s[2 * p] * 256 + s[2 * p + 1]) as u16
}

/// Convert an 8-bit RGBA buffer to big-endian RGB565, premultiplying each
/// pixel's alpha: two output bytes for each four input bytes.
pub fn rgba_to_rgb565(buf: &[u8]) -> (r: Vec<u8>)
    requires
        buf@.len() % 4 == 0,
    ensures
        r@.len() == buf@.len() / 2,
        forall|p: int| 0 <= p < buf@.len() / 4 ==> spec_word_at(r@, p) == spec_pixel565(buf@, p),
{
    let n = buf.len();
    let pixels = n / 4;
    let mut out: Vec<u8> = Vec::new();
    let mut p: usize = 0;
    while p < pixels
        invariant
            n == buf@.len(),
            pixels == buf@.len() / 4,
            buf@.len() % 4 == 0,
            p <= pixels,
            out@.len() == 2 * p,
            forall|k: int| 0 <= k < p ==> spec_word_at(out@, k) == spec_pixel565(buf@, k),
        decreases pixels - p,
    {
        proof {
            assert(buf@.len() == 4 * (buf@.len() / 4) + buf@.len() % 4);
            assert(4 * p + 3 < buf@.len());
        }
        let alpha = buf[4 * p + 3] as u16;
        assert(forall|c: u16, a: u16| c <= 255 && a <= 255 ==> #[trigger] (c * a) <= 65025)
            by (nonlinear_arith);
        let red = buf[4 * p] as u16 * alpha / 255;
        let green = buf[4 * p + 1] as u16 * alpha / 255;
        let blue = buf[4 * p + 2] as u16 * alpha / 255;
        let word: u16 = ((red & 0xf8) << 8) | ((green & 0xfc) << 3) | (blue >> 3);
        out.push((word / 256) as u8);
        out.push((word % 256) as u8);
        proof {
            assert(spec_word_at(out@, p as int) == spec_pixel565(buf@, p as int));
            assert forall|k: int| 0 <= k < p + 1 implies spec_word_at(out@, k) == spec_pixel565(
                buf@,
                k,
            ) by {
                if k < p {
                    assert(out@[2 * k] == out@.subrange(0, 2 * p as int)[2 * k]);
                    assert(out@[2 * k + 1] == out@.subrange(0, 2 * p as int)[2 * k + 1]);
                }
            }
        }
        p += 1;
    }
    out
}

} // verus!
