//! Reference output images of the filters on uniform input.
//!
//! The pixel work of a filter happens on the GPU, but on a uniformly
//! colored input its result is exactly computable: bilinear sampling of a
//! constant field returns the constant, whatever the scale ratio, so every
//! output texel carries the same value and only the memory layout of the
//! output format varies.  Each function here builds, byte for byte, the
//! image a filter's pass sequence leaves in its output allocation for a
//! uniform input, pinning the plane order, plane offsets and channel order
//! of every conversion.

use vstd::prelude::*;

use crate::DxFilter;
use crate::common_filters::{
    ConvertARGBToAYUV, ConvertARGBToNV12, ConvertARGBToYUV444, ScaleARGBOrAYUV,
};
use crate::yuv::{chroma_u, chroma_v, luma, spec_chroma_u, spec_chroma_v, spec_luma};

verus! {

/// An R,G,B,A channel value, as a shader sees a sampled texel.
#[derive(Clone, Copy, Debug, PartialEq, Eq, Structural)]
pub struct Color {
    /// The red channel.
    pub r: u8,
    /// The green channel.
    pub g: u8,
    /// The blue channel.
    pub b: u8,
    /// The alpha channel.
    pub a: u8,
}

impl ConvertARGBToAYUV {
    /// The image `apply_filter` leaves in the output texture when every
    /// input texel carries the channels `c`: each output texel stores the
    /// bytes V,U,Y,A of the converted color.
    pub fn render_uniform(&self, c: Color) -> (buf: Vec<u8>)
        requires
            self.wf(),
        ensures
            buf@.len() == self.output_desc().width * self.output_desc().height * 4,
            forall|t: int|
                0 <= t < self.output_desc().width * self.output_desc().height ==> {
                    &&& #[trigger] buf@[4 * t] == spec_chroma_v(c.r, c.g, c.b)
                    &&& buf@[4 * t + 1] == spec_chroma_u(c.r, c.g, c.b)
                    &&& buf@[4 * t + 2] == spec_luma(c.r, c.g, c.b)
                    &&& buf@[4 * t + 3] == c.a
                },
    {
        let out = self.out_tex.desc();
        proof {
            assert(out.width * out.height <= 16384 * 16384) by (nonlinear_arith)
                requires
                    out.width <= 16384 && out.height <= 16384,
            ;
        }
        let texels: usize = (out.width as usize) * (out.height as usize);
        let v = chroma_v(c.r, c.g, c.b);
        let u = chroma_u(c.r, c.g, c.b);
        let y = luma(c.r, c.g, c.b);
        let mut buf: Vec<u8> = Vec::new();
        let mut t: usize = 0;
        while t < texels
            invariant
                t <= texels,
                texels == out.width * out.height,
                texels <= 16384 * 16384,
                buf@.len() == 4 * t,
                v == spec_chroma_v(c.r, c.g, c.b),
                u == spec_chroma_u(c.r, c.g, c.b),
                y == spec_luma(c.r, c.g, c.b),
                forall|k: int|
                    0 <= k < t ==> {
                        &&& #[trigger] buf@[4 * k] == v
                        &&& buf@[4 * k + 1] == u
                        &&& buf@[4 * k + 2] == y
                        &&& buf@[4 * k + 3] == c.a
                    },
            decreases texels - t,
        {
            let ghost len0 = buf@.len();
            buf.push(v);
            buf.push(u);
            buf.push(y);
            buf.push(c.a);
            proof {
                assert(buf@[len0 as int] == v);
                assert(buf@[len0 as int + 1] == u);
                assert(buf@[len0 as int + 2] == y);
                assert(buf@[len0 as int + 3] == c.a);
            }
            t = t + 1;
        }
        buf
    }
}

impl ConvertARGBToNV12 {
    /// The image `apply_filter` leaves in the output texture when every
    /// input texel carries the channels `c`.  The luma plane fills the
    /// first `width * height` bytes; the chroma plane starts right after
    /// it and interleaves the U and V bytes of the converted color, U
    /// first, one pair per two-by-two luma block, so the whole image is
    /// exactly `width * height * 3 / 2` bytes.
    ///
    /// Semi-planar textures are allocated with even dimensions; the chroma
    /// plane is half the size of the luma plane in each direction.
    pub fn render_uniform(&self, c: Color) -> (buf: Vec<u8>)
        requires
            self.wf(),
            self.output_desc().width % 2 == 0,
            self.output_desc().height % 2 == 0,
        ensures
            buf@.len() == self.output_desc().width * self.output_desc().height * 3 / 2,
            forall|k: int|
                0 <= k < self.output_desc().width * self.output_desc().height ==> #[trigger] buf@[k]
                    == spec_luma(c.r, c.g, c.b),
            forall|k: int|
                self.output_desc().width * self.output_desc().height <= k < buf@.len()
                    ==> #[trigger] buf@[k] == (
                if (k - self.output_desc().width * self.output_desc().height) % 2 == 0 {
                    spec_chroma_u(c.r, c.g, c.b)
                } else {
                    spec_chroma_v(c.r, c.g, c.b)
                }),
    {
        let out = self.out_tex.desc();
        proof {
            assert(out.width * out.height <= 16384 * 16384 && (out.width / 2) * (out.height / 2)
                <= 8192 * 8192) by (nonlinear_arith)
                requires
                    out.width <= 16384 && out.height <= 16384,
            ;
        }
        let luma_texels: usize = (out.width as usize) * (out.height as usize);
        let chroma_pairs: usize = ((out.width / 2) as usize) * ((out.height / 2) as usize);
        proof {
            assert(4 * ((out.width / 2) * (out.height / 2)) == out.width * out.height)
                by (nonlinear_arith)
                requires
                    out.width % 2 == 0 && out.height % 2 == 0,
            ;
        }
        let v = chroma_v(c.r, c.g, c.b);
        let u = chroma_u(c.r, c.g, c.b);
        let y = luma(c.r, c.g, c.b);
        let mut buf: Vec<u8> = Vec::new();
        let mut t: usize = 0;
        while t < luma_texels
            invariant
                t <= luma_texels,
                luma_texels <= 16384 * 16384,
                buf@.len() == t,
                y == spec_luma(c.r, c.g, c.b),
                forall|k: int| 0 <= k < t ==> #[trigger] buf@[k] == y,
            decreases luma_texels - t,
        {
            buf.push(y);
            t = t + 1;
        }
        let mut p: usize = 0;
        while p < chroma_pairs
            invariant
                p <= chroma_pairs,
                chroma_pairs <= 8192 * 8192,
                luma_texels <= 16384 * 16384,
                buf@.len() == luma_texels + 2 * p,
                u == spec_chroma_u(c.r, c.g, c.b),
                v == spec_chroma_v(c.r, c.g, c.b),
                y == spec_luma(c.r, c.g, c.b),
                forall|k: int| 0 <= k < luma_texels ==> #[trigger] buf@[k] == y,
                forall|k: int|
                    luma_texels <= k < buf@.len() ==> #[trigger] buf@[k] == (
                    if (k - luma_texels) % 2 == 0 {
                        u
                    } else {
                        v
                    }),
            decreases chroma_pairs - p,
        {
            buf.push(u);
            buf.push(v);
            p = p + 1;
        }
        proof {
            assert(buf@.len() == out.width * out.height * 3 / 2) by (nonlinear_arith)
                requires
                    buf@.len() == out.width * out.height + 2 * ((out.width / 2) * (out.height / 2))
                        && out.width % 2 == 0 && out.height % 2 == 0,
            ;
        }
        buf
    }
}

impl ConvertARGBToYUV444 {
    /// The image `apply_filter` leaves in the output allocation when every
    /// input texel carries the channels `c`.  With the output's nominal
    /// plane height `h` and width `w`, rows `[0, h)` — the first `w * h`
    /// bytes — hold the luma byte, rows `[h, 2h)` the U byte, and rows
    /// `[2h, 3h)` the V byte of the converted color.
    pub fn render_uniform(&self, c: Color) -> (buf: Vec<u8>)
        requires
            self.wf(),
        ensures
            buf@.len() == 3 * (self.output_desc().width * self.output_desc().height),
            forall|k: int|
                0 <= k < self.output_desc().width * self.output_desc().height ==> #[trigger] buf@[k]
                    == spec_luma(c.r, c.g, c.b),
            forall|k: int|
                self.output_desc().width * self.output_desc().height <= k < 2 * (
                self.output_desc().width * self.output_desc().height) ==> #[trigger] buf@[k]
                    == spec_chroma_u(c.r, c.g, c.b),
            forall|k: int|
                2 * (self.output_desc().width * self.output_desc().height) <= k < 3 * (
                self.output_desc().width * self.output_desc().height) ==> #[trigger] buf@[k]
                    == spec_chroma_v(c.r, c.g, c.b),
    {
        let out = self.out_tex.desc();
        proof {
            assert(out.width * out.height <= 16384 * 16384) by (nonlinear_arith)
                requires
                    out.width <= 16384 && out.height <= 16384,
            ;
        }
        let plane: usize = (out.width as usize) * (out.height as usize);
        let v = chroma_v(c.r, c.g, c.b);
        let u = chroma_u(c.r, c.g, c.b);
        let y = luma(c.r, c.g, c.b);
        let mut buf: Vec<u8> = Vec::new();
        let mut t: usize = 0;
        while t < plane
            invariant
                t <= plane,
                plane <= 16384 * 16384,
                buf@.len() == t,
                y == spec_luma(c.r, c.g, c.b),
                forall|k: int| 0 <= k < t ==> #[trigger] buf@[k] == y,
            decreases plane - t,
        {
            buf.push(y);
            t = t + 1;
        }
        let mut t2: usize = 0;
        while t2 < plane
            invariant
                t2 <= plane,
                plane <= 16384 * 16384,
                buf@.len() == plane + t2,
                y == spec_luma(c.r, c.g, c.b),
                u == spec_chroma_u(c.r, c.g, c.b),
                forall|k: int| 0 <= k < plane ==> #[trigger] buf@[k] == y,
                forall|k: int| plane <= k < buf@.len() ==> #[trigger] buf@[k] == u,
            decreases plane - t2,
        {
            buf.push(u);
            t2 = t2 + 1;
        }
        let mut t3: usize = 0;
        while t3 < plane
            invariant
                t3 <= plane,
                plane <= 16384 * 16384,
                buf@.len() == 2 * plane + t3,
                y == spec_luma(c.r, c.g, c.b),
                u == spec_chroma_u(c.r, c.g, c.b),
                v == spec_chroma_v(c.r, c.g, c.b),
                forall|k: int| 0 <= k < plane ==> #[trigger] buf@[k] == y,
                forall|k: int| plane <= k < 2 * plane ==> #[trigger] buf@[k] == u,
                forall|k: int| 2 * plane <= k < buf@.len() ==> #[trigger] buf@[k] == v,
            decreases plane - t3,
        {
            buf.push(v);
            t3 = t3 + 1;
        }
        buf
    }
}

impl ScaleARGBOrAYUV {
    /// The image `apply_filter` leaves in the output texture when every
    /// input texel stores the four bytes `texel`: resampling a constant
    /// field reproduces the constant, whatever the scale ratio, so every
    /// output texel stores exactly the input's bytes and no texel is left
    /// undefined.
    pub fn render_uniform(&self, texel: &[u8; 4]) -> (buf: Vec<u8>)
        requires
            self.wf(),
        ensures
            buf@.len() == self.output_desc().width * self.output_desc().height * 4,
            forall|k: int| 0 <= k < buf@.len() ==> #[trigger] buf@[k] == texel@[k % 4],
    {
        let out = self.out_tex.desc();
        proof {
            assert(out.width * out.height <= 16384 * 16384) by (nonlinear_arith)
                requires
                    out.width <= 16384 && out.height <= 16384,
            ;
        }
        let texels: usize = (out.width as usize) * (out.height as usize);
        let b0 = texel[0];
        let b1 = texel[1];
        let b2 = texel[2];
        let b3 = texel[3];
        let mut buf: Vec<u8> = Vec::new();
        let mut t: usize = 0;
        while t < texels
            invariant
                t <= texels,
                texels <= 16384 * 16384,
                buf@.len() == 4 * t,
                b0 == texel@[0],
                b1 == texel@[1],
                b2 == texel@[2],
                b3 == texel@[3],
                forall|k: int| 0 <= k < buf@.len() ==> #[trigger] buf@[k] == texel@[k % 4],
            decreases texels - t,
        {
            let ghost len0 = buf@.len();
            buf.push(b0);
            buf.push(b1);
            buf.push(b2);
            buf.push(b3);
            proof {
                assert(len0 == 4 * t && len0 % 4 == 0);
                assert(buf@[len0 as int] == b0 && len0 as int % 4 == 0);
                assert(buf@[len0 as int + 1] == b1 && (len0 as int + 1) % 4 == 1);
                assert(buf@[len0 as int + 2] == b2 && (len0 as int + 2) % 4 == 2);
                assert(buf@[len0 as int + 3] == b3 && (len0 as int + 3) % 4 == 3);
            }
            t = t + 1;
        }
        buf
    }
}

} // verus!
