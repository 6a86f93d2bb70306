//! The color matrix the conversion passes apply.
//!
//! The conversion filters turn R,G,B channel values into limited-range
//! Y,U,V samples.  The matrix is the standard-definition one with luma
//! weights 299/1000, 587/1000 and 114/1000; each output sample is computed
//! at full precision, scaled to the byte range, and truncated.  All of it
//! is exact integer arithmetic: the numerators below are the matrix rows
//! scaled by the common denominators, so one integer division per sample
//! yields the stored byte.

use vstd::prelude::*;

verus! {

/// The luma byte of an R,G,B texel: `16 + 219/255 * (0.299 R + 0.587 G +
/// 0.114 B) / 255`, scaled to the byte range and truncated.
pub open spec fn spec_luma(r: u8, g: u8, b: u8) -> int {
    (4080000 + 219 * (299 * r + 587 * g + 114 * b)) / 255000
}

/// The first (blue-difference) chroma byte of an R,G,B texel: `127.5 + 224
/// * Pb`, truncated, where `Pb` weighs blue against luma.
pub open spec fn spec_chroma_u(r: u8, g: u8, b: u8) -> int {
    (57612150 + 198464 * b - 66976 * r - 131488 * g) / 451860
}

/// The second (red-difference) chroma byte of an R,G,B texel: `127.5 + 224
/// * Pr`, truncated, where `Pr` weighs red against luma.
pub open spec fn spec_chroma_v(r: u8, g: u8, b: u8) -> int {
    (45582525 + 157024 * r - 131488 * g - 25536 * b) / 357510
}

/// Compute the luma byte.  The result stays in the limited range.
pub fn luma(r: u8, g: u8, b: u8) -> (y: u8)
    ensures
        y == spec_luma(r, g, b),
        16 <= y <= 235,
{
    let n: u64 = 4080000 + 219 * (299 * (r as u64) + 587 * (g as u64) + 114 * (b as u64));
    proof {
        assert(n <= 59925000) by (nonlinear_arith)
            requires
                n == 4080000 + 219 * (299 * r + 587 * g + 114 * b) && r <= 255 && g <= 255 && b
                    <= 255,
        ;
    }
    (n / 255000) as u8
}

/// Compute the blue-difference chroma byte.  The result stays within one
/// count of the limited range, which truncation reaches at the extremes.
pub fn chroma_u(r: u8, g: u8, b: u8) -> (u: u8)
    ensures
        u == spec_chroma_u(r, g, b),
        15 <= u <= 239,
{
    let add: u64 = 57612150 + 198464 * (b as u64);
    let sub: u64 = 66976 * (r as u64) + 131488 * (g as u64);
    proof {
        assert(sub <= 50608320 && add <= 108220470) by (nonlinear_arith)
            requires
                add == 57612150 + 198464 * b && sub == 66976 * r + 131488 * g && r <= 255 && g
                    <= 255 && b <= 255,
        ;
    }
    let n: u64 = add - sub;
    (n / 451860) as u8
}

/// Compute the red-difference chroma byte.  The result stays within one
/// count of the limited range, which truncation reaches at the extremes.
pub fn chroma_v(r: u8, g: u8, b: u8) -> (v: u8)
    ensures
        v == spec_chroma_v(r, g, b),
        15 <= v <= 239,
{
    let add: u64 = 45582525 + 157024 * (r as u64);
    let sub: u64 = 131488 * (g as u64) + 25536 * (b as u64);
    proof {
        assert(sub <= 40041120 && add <= 85623645) by (nonlinear_arith)
            requires
                add == 45582525 + 157024 * r && sub == 131488 * g + 25536 * b && r <= 255 && g
                    <= 255 && b <= 255,
        ;
    }
    let n: u64 = add - sub;
    (n / 357510) as u8
}

/// On a grey texel — equal R, G and B channels — both chroma bytes sit at
/// the midpoint of the scale, one truncation step below its exact centre.
pub proof fn lemma_grey_chroma_centered(c: u8)
    ensures
        spec_chroma_u(c, c, c) == 127,
        spec_chroma_v(c, c, c) == 127,
{
    assert(198464 * c - 66976 * c - 131488 * c == 0) by (nonlinear_arith);
    assert(157024 * c - 131488 * c - 25536 * c == 0) by (nonlinear_arith);
}

} // verus!
