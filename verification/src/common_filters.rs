//! The filter objects: one per conversion kind.
//!
//! Each filter owns its shader pair, the views derived from its current
//! textures, and a sampler, and issues its draw passes on demand.  Which
//! formats a filter accepts, which view formats it derives, and which
//! viewports its passes cover are all pinned by the `DxFilter` contracts.

use vstd::prelude::*;
use vstd::string::*;

use crate::DxFilter;
use crate::color::{ColorFormat, DxgiFormat, dxgi_of, format_name, spec_dxgi_of, spec_format_name};
use crate::error::{DxFilterErr, DxResult};
use crate::pipeline::{
    DeviceContext, DrawPass, PixelShaderKind, SamplerKind, VertexShaderKind, ViewDesc, Viewport,
    create_rtv, create_srv, create_tex_sampler,
};
use crate::texture::{Texture, TextureDesc};

verus! {

/// The message rejecting a texture that a conversion filter cannot sample:
/// it names the texture's actual format.
pub open spec fn spec_expected_rgb_msg(actual: ColorFormat) -> Seq<char> {
    "expected ARGB or ABGR format found "@ + spec_format_name(actual)
}

/// The message rejecting an output texture where packed 4:4:4 was
/// expected: it names the texture's actual format.
pub open spec fn spec_expected_ayuv_msg(actual: ColorFormat) -> Seq<char> {
    "expected AYUV format found "@ + spec_format_name(actual)
}

/// The message rejecting an output texture where semi-planar 4:2:0 was
/// expected: it names the texture's actual format.
pub open spec fn spec_expected_nv12_msg(actual: ColorFormat) -> Seq<char> {
    "expected NV12 format found "@ + spec_format_name(actual)
}

/// The message rejecting a texture outside the scale filter's packed
/// four-channel set: it names the texture's actual format.
pub open spec fn spec_expected_packed_msg(actual: ColorFormat) -> Seq<char> {
    "expected ARGB, ABGR or AYUV format found "@ + spec_format_name(actual)
}

/// The message rejecting an output texture where plane-stacked 4:4:4 was
/// expected: it names the texture's actual format.
pub open spec fn spec_expected_yuv444_msg(actual: ColorFormat) -> Seq<char> {
    "expected YUV444 format found "@ + spec_format_name(actual)
}

/// Build the `BadParam` whose message is the given prefix followed by the
/// name of the offending format.
fn bad_param(prefix: &str, actual: ColorFormat) -> (e: DxFilterErr)
    ensures
        e matches DxFilterErr::BadParam(m) && m@ == prefix@ + spec_format_name(actual),
{
    let mut m = String::from_str(prefix);
    m.append(format_name(actual));
    DxFilterErr::BadParam(m)
}

/// Filter converting packed RGB — `ARGB8UNorm` or `ABGR8UNorm` — into the
/// packed 4:4:4 `AYUV` format, scaling automatically to the output
/// texture's resolution.
pub struct ConvertARGBToAYUV {
    /// The vertex shader bound by every pass.
    pub vs: VertexShaderKind,
    /// The conversion pixel shader.
    pub ps: PixelShaderKind,
    /// The currently bound input texture.
    pub in_tex: Texture,
    /// The currently bound output texture.
    pub out_tex: Texture,
    /// Sampling view over the input at its native format.
    pub srv: ViewDesc,
    /// Render-target view over the output as four 8-bit channels.
    pub rtv: ViewDesc,
    /// The fixed linear-clamp sampler.
    pub sampler: SamplerKind,
}

impl ConvertARGBToAYUV {
    /// Create a new filter instance reading RGB from `input_tex` and
    /// writing 4:4:4 YUV to `out_tex`.  Both formats are validated
    /// eagerly: construction fails with `BadParam` naming the offending
    /// texture's format, the input checked first.
    pub fn new(input_tex: &Texture, out_tex: &Texture) -> (r: DxResult<Self>)
        requires
            input_tex.desc.wf(),
            out_tex.desc.wf(),
        ensures
            match r {
                Ok(f) => {
                    &&& Self::accepts_input(input_tex.desc.format)
                    &&& Self::accepts_output(out_tex.desc.format)
                    &&& f == Self::made(input_tex.desc, out_tex.desc)
                },
                Err(e) => {
                    &&& !(Self::accepts_input(input_tex.desc.format) && Self::accepts_output(
                        out_tex.desc.format,
                    ))
                    &&& e matches DxFilterErr::BadParam(m) && m@ == (
                    if !Self::accepts_input(input_tex.desc.format) {
                        Self::input_err_msg(input_tex.desc.format)
                    } else {
                        Self::output_err_msg(out_tex.desc.format)
                    })
                },
            },
    {
        if let Err(e) = Self::validate_input(input_tex) {
            return Err(e);
        }
        if let Err(e) = Self::validate_output(out_tex) {
            return Err(e);
        }
        let srv = create_srv(input_tex, dxgi_of(input_tex.desc().format));
        let sampler = create_tex_sampler();
        let rtv = create_rtv(out_tex, DxgiFormat::R8G8B8A8UNorm);
        Ok(
            Self {
                vs: VertexShaderKind::FullScreenQuad,
                ps: PixelShaderKind::RgbToAyuv,
                in_tex: input_tex.clone(),
                out_tex: out_tex.clone(),
                srv,
                rtv,
                sampler,
            },
        )
    }

    /// Accept exactly the packed RGB formats.
    fn validate_input(tex: &Texture) -> (r: DxResult<()>)
        ensures
            match r {
                Ok(_) => Self::accepts_input(tex.desc.format),
                Err(e) => {
                    &&& !Self::accepts_input(tex.desc.format)
                    &&& e matches DxFilterErr::BadParam(m) && m@ == Self::input_err_msg(
                        tex.desc.format,
                    )
                },
            },
    {
        let desc = tex.desc();
        match desc.format {
            ColorFormat::ARGB8UNorm | ColorFormat::ABGR8UNorm => Ok(()),
            _ => Err(bad_param("expected ARGB or ABGR format found ", desc.format)),
        }
    }

    /// Accept exactly the packed 4:4:4 output format.
    fn validate_output(tex: &Texture) -> (r: DxResult<()>)
        ensures
            match r {
                Ok(_) => Self::accepts_output(tex.desc.format),
                Err(e) => {
                    &&& !Self::accepts_output(tex.desc.format)
                    &&& e matches DxFilterErr::BadParam(m) && m@ == Self::output_err_msg(
                        tex.desc.format,
                    )
                },
            },
    {
        let desc = tex.desc();
        match desc.format {
            ColorFormat::AYUV => Ok(()),
            _ => Err(bad_param("expected AYUV format found ", desc.format)),
        }
    }
}

impl DxFilter for ConvertARGBToAYUV {
    open spec fn wf(&self) -> bool {
        &&& self.in_tex.desc.wf()
        &&& self.out_tex.desc.wf()
        &&& Self::accepts_input(self.in_tex.desc.format)
        &&& Self::accepts_output(self.out_tex.desc.format)
        &&& self.vs == VertexShaderKind::FullScreenQuad
        &&& self.ps == PixelShaderKind::RgbToAyuv
        &&& self.sampler == SamplerKind::LinearClamp
        &&& self.srv == (ViewDesc {
            tex: self.in_tex.desc,
            format: spec_dxgi_of(self.in_tex.desc.format),
        })
        &&& self.rtv == (ViewDesc { tex: self.out_tex.desc, format: DxgiFormat::R8G8B8A8UNorm })
    }

    open spec fn input_desc(&self) -> TextureDesc {
        self.in_tex.desc
    }

    open spec fn output_desc(&self) -> TextureDesc {
        self.out_tex.desc
    }

    open spec fn accepts_input(f: ColorFormat) -> bool {
        f == ColorFormat::ARGB8UNorm || f == ColorFormat::ABGR8UNorm
    }

    open spec fn accepts_output(f: ColorFormat) -> bool {
        f == ColorFormat::AYUV
    }

    open spec fn input_err_msg(f: ColorFormat) -> Seq<char> {
        spec_expected_rgb_msg(f)
    }

    open spec fn output_err_msg(f: ColorFormat) -> Seq<char> {
        spec_expected_ayuv_msg(f)
    }

    open spec fn made(input: TextureDesc, output: TextureDesc) -> Self {
        ConvertARGBToAYUV {
            vs: VertexShaderKind::FullScreenQuad,
            ps: PixelShaderKind::RgbToAyuv,
            in_tex: Texture { desc: input },
            out_tex: Texture { desc: output },
            srv: ViewDesc { tex: input, format: spec_dxgi_of(input.format) },
            rtv: ViewDesc { tex: output, format: DxgiFormat::R8G8B8A8UNorm },
            sampler: SamplerKind::LinearClamp,
        }
    }

    open spec fn with_input(&self, input: TextureDesc) -> Self {
        ConvertARGBToAYUV {
            in_tex: Texture { desc: input },
            srv: ViewDesc { tex: input, format: spec_dxgi_of(input.format) },
            ..*self
        }
    }

    open spec fn with_output(&self, output: TextureDesc) -> Self {
        ConvertARGBToAYUV {
            out_tex: Texture { desc: output },
            rtv: ViewDesc { tex: output, format: DxgiFormat::R8G8B8A8UNorm },
            ..*self
        }
    }

    open spec fn plan(&self) -> Seq<DrawPass> {
        seq![
            DrawPass {
                vs: self.vs,
                ps: self.ps,
                source: self.srv,
                target: self.rtv,
                sampler: self.sampler,
                viewport: Viewport {
                    width: self.out_tex.desc.width,
                    height: self.out_tex.desc.height,
                },
            },
        ]
    }

    fn apply_filter(&self, ctx: &mut DeviceContext) -> (r: DxResult<()>) {
        let out_desc = self.out_tex.desc();
        let vp = Viewport { width: out_desc.width, height: out_desc.height };
        ctx.submit(
            DrawPass {
                vs: self.vs,
                ps: self.ps,
                source: self.srv,
                target: self.rtv,
                sampler: self.sampler,
                viewport: vp,
            },
        );
        proof {
            assert(ctx@ =~= old(ctx)@ + self.plan());
        }
        Ok(())
    }

    fn set_input_tex(&mut self, tex: &Texture) -> (r: DxResult<()>) {
        if let Err(e) = Self::validate_input(tex) {
            return Err(e);
        }
        self.in_tex = tex.clone();
        self.srv = create_srv(tex, dxgi_of(tex.desc().format));
        Ok(())
    }

    fn set_output_tex(&mut self, tex: &Texture) -> (r: DxResult<()>) {
        if let Err(e) = Self::validate_output(tex) {
            return Err(e);
        }
        self.out_tex = tex.clone();
        self.rtv = create_rtv(tex, DxgiFormat::R8G8B8A8UNorm);
        Ok(())
    }

    proof fn lemma_made_wf(a: TextureDesc, b: TextureDesc) {
    }

    proof fn lemma_plan_views_ok(&self) {
    }

    proof fn lemma_rebind_is_reconstruction(&self, a: TextureDesc, b: TextureDesc) {
    }
}

/// Filter converting packed RGB — `ARGB8UNorm` or `ABGR8UNorm` — into the
/// semi-planar 4:2:0 `NV12` format, scaling automatically to the output
/// texture's resolution.
///
/// The two render-target views alias the same output allocation at
/// disjoint byte offsets — the single-channel luma plane and the
/// two-channel interleaved chroma plane — so the two passes of
/// `apply_filter` run in a fixed order, luma first.
pub struct ConvertARGBToNV12 {
    /// The vertex shader bound by every pass.
    pub vs: VertexShaderKind,
    /// The luma-extraction pixel shader.
    pub y_ps: PixelShaderKind,
    /// The chroma-extraction pixel shader.
    pub uv_ps: PixelShaderKind,
    /// The currently bound input texture.
    pub in_tex: Texture,
    /// The currently bound output texture.
    pub out_tex: Texture,
    /// Sampling view over the input at its native format.
    pub srv: ViewDesc,
    /// Render-target view over the output's luma plane as one 8-bit
    /// channel.
    pub rtv_y: ViewDesc,
    /// Render-target view over the output's chroma plane as two 8-bit
    /// channels.
    pub rtv_uv: ViewDesc,
    /// The fixed linear-clamp sampler.
    pub sampler: SamplerKind,
}

impl ConvertARGBToNV12 {
    /// Create a new filter instance reading RGB from `input_tex` and
    /// writing semi-planar 4:2:0 to `out_tex`.  Both formats are validated
    /// eagerly: construction fails with `BadParam` naming the offending
    /// texture's format, the input checked first.
    pub fn new(input_tex: &Texture, out_tex: &Texture) -> (r: DxResult<Self>)
        requires
            input_tex.desc.wf(),
            out_tex.desc.wf(),
        ensures
            match r {
                Ok(f) => {
                    &&& Self::accepts_input(input_tex.desc.format)
                    &&& Self::accepts_output(out_tex.desc.format)
                    &&& f == Self::made(input_tex.desc, out_tex.desc)
                },
                Err(e) => {
                    &&& !(Self::accepts_input(input_tex.desc.format) && Self::accepts_output(
                        out_tex.desc.format,
                    ))
                    &&& e matches DxFilterErr::BadParam(m) && m@ == (
                    if !Self::accepts_input(input_tex.desc.format) {
                        Self::input_err_msg(input_tex.desc.format)
                    } else {
                        Self::output_err_msg(out_tex.desc.format)
                    })
                },
            },
    {
        if let Err(e) = Self::validate_input(input_tex) {
            return Err(e);
        }
        if let Err(e) = Self::validate_output(out_tex) {
            return Err(e);
        }
        let srv = create_srv(input_tex, dxgi_of(input_tex.desc().format));
        let sampler = create_tex_sampler();
        let rtv_y = create_rtv(out_tex, DxgiFormat::R8UNorm);
        let rtv_uv = create_rtv(out_tex, DxgiFormat::R8G8UNorm);
        Ok(
            Self {
                vs: VertexShaderKind::FullScreenQuad,
                y_ps: PixelShaderKind::RgbToY,
                uv_ps: PixelShaderKind::RgbToUv,
                in_tex: input_tex.clone(),
                out_tex: out_tex.clone(),
                srv,
                rtv_y,
                rtv_uv,
                sampler,
            },
        )
    }

    /// Accept exactly the packed RGB formats.
    fn validate_input(tex: &Texture) -> (r: DxResult<()>)
        ensures
            match r {
                Ok(_) => Self::accepts_input(tex.desc.format),
                Err(e) => {
                    &&& !Self::accepts_input(tex.desc.format)
                    &&& e matches DxFilterErr::BadParam(m) && m@ == Self::input_err_msg(
                        tex.desc.format,
                    )
                },
            },
    {
        let desc = tex.desc();
        match desc.format {
            ColorFormat::ARGB8UNorm | ColorFormat::ABGR8UNorm => Ok(()),
            _ => Err(bad_param("expected ARGB or ABGR format found ", desc.format)),
        }
    }

    /// Accept exactly the semi-planar 4:2:0 output format.
    fn validate_output(tex: &Texture) -> (r: DxResult<()>)
        ensures
            match r {
                Ok(_) => Self::accepts_output(tex.desc.format),
                Err(e) => {
                    &&& !Self::accepts_output(tex.desc.format)
                    &&& e matches DxFilterErr::BadParam(m) && m@ == Self::output_err_msg(
                        tex.desc.format,
                    )
                },
            },
    {
        let desc = tex.desc();
        match desc.format {
            ColorFormat::NV12 => Ok(()),
            _ => Err(bad_param("expected NV12 format found ", desc.format)),
        }
    }
}

impl DxFilter for ConvertARGBToNV12 {
    open spec fn wf(&self) -> bool {
        &&& self.in_tex.desc.wf()
        &&& self.out_tex.desc.wf()
        &&& Self::accepts_input(self.in_tex.desc.format)
        &&& Self::accepts_output(self.out_tex.desc.format)
        &&& self.vs == VertexShaderKind::FullScreenQuad
        &&& self.y_ps == PixelShaderKind::RgbToY
        &&& self.uv_ps == PixelShaderKind::RgbToUv
        &&& self.sampler == SamplerKind::LinearClamp
        &&& self.srv == (ViewDesc {
            tex: self.in_tex.desc,
            format: spec_dxgi_of(self.in_tex.desc.format),
        })
        &&& self.rtv_y == (ViewDesc { tex: self.out_tex.desc, format: DxgiFormat::R8UNorm })
        &&& self.rtv_uv == (ViewDesc { tex: self.out_tex.desc, format: DxgiFormat::R8G8UNorm })
    }

    open spec fn input_desc(&self) -> TextureDesc {
        self.in_tex.desc
    }

    open spec fn output_desc(&self) -> TextureDesc {
        self.out_tex.desc
    }

    open spec fn accepts_input(f: ColorFormat) -> bool {
        f == ColorFormat::ARGB8UNorm || f == ColorFormat::ABGR8UNorm
    }

    open spec fn accepts_output(f: ColorFormat) -> bool {
        f == ColorFormat::NV12
    }

    open spec fn input_err_msg(f: ColorFormat) -> Seq<char> {
        spec_expected_rgb_msg(f)
    }

    open spec fn output_err_msg(f: ColorFormat) -> Seq<char> {
        spec_expected_nv12_msg(f)
    }

    open spec fn made(input: TextureDesc, output: TextureDesc) -> Self {
        ConvertARGBToNV12 {
            vs: VertexShaderKind::FullScreenQuad,
            y_ps: PixelShaderKind::RgbToY,
            uv_ps: PixelShaderKind::RgbToUv,
            in_tex: Texture { desc: input },
            out_tex: Texture { desc: output },
            srv: ViewDesc { tex: input, format: spec_dxgi_of(input.format) },
            rtv_y: ViewDesc { tex: output, format: DxgiFormat::R8UNorm },
            rtv_uv: ViewDesc { tex: output, format: DxgiFormat::R8G8UNorm },
            sampler: SamplerKind::LinearClamp,
        }
    }

    open spec fn with_input(&self, input: TextureDesc) -> Self {
        ConvertARGBToNV12 {
            in_tex: Texture { desc: input },
            srv: ViewDesc { tex: input, format: spec_dxgi_of(input.format) },
            ..*self
        }
    }

    open spec fn with_output(&self, output: TextureDesc) -> Self {
        ConvertARGBToNV12 {
            out_tex: Texture { desc: output },
            rtv_y: ViewDesc { tex: output, format: DxgiFormat::R8UNorm },
            rtv_uv: ViewDesc { tex: output, format: DxgiFormat::R8G8UNorm },
            ..*self
        }
    }

    /// Luma first into the full-resolution plane, chroma second into the
    /// half-resolution interleaved plane: one chroma sample per two-by-two
    /// luma block.
    open spec fn plan(&self) -> Seq<DrawPass> {
        seq![
            DrawPass {
                vs: self.vs,
                ps: self.y_ps,
                source: self.srv,
                target: self.rtv_y,
                sampler: self.sampler,
                viewport: Viewport {
                    width: self.out_tex.desc.width,
                    height: self.out_tex.desc.height,
                },
            },
            DrawPass {
                vs: self.vs,
                ps: self.uv_ps,
                source: self.srv,
                target: self.rtv_uv,
                sampler: self.sampler,
                viewport: Viewport {
                    width: self.out_tex.desc.width / 2,
                    height: self.out_tex.desc.height / 2,
                },
            },
        ]
    }

    fn apply_filter(&self, ctx: &mut DeviceContext) -> (r: DxResult<()>) {
        let out_desc = self.out_tex.desc();
        let vp_y = Viewport { width: out_desc.width, height: out_desc.height };
        let vp_uv = Viewport { width: out_desc.width / 2, height: out_desc.height / 2 };
        ctx.submit(
            DrawPass {
                vs: self.vs,
                ps: self.y_ps,
                source: self.srv,
                target: self.rtv_y,
                sampler: self.sampler,
                viewport: vp_y,
            },
        );
        ctx.submit(
            DrawPass {
                vs: self.vs,
                ps: self.uv_ps,
                source: self.srv,
                target: self.rtv_uv,
                sampler: self.sampler,
                viewport: vp_uv,
            },
        );
        proof {
            assert(ctx@ =~= old(ctx)@ + self.plan());
        }
        Ok(())
    }

    fn set_input_tex(&mut self, tex: &Texture) -> (r: DxResult<()>) {
        if let Err(e) = Self::validate_input(tex) {
            return Err(e);
        }
        self.in_tex = tex.clone();
        self.srv = create_srv(tex, dxgi_of(tex.desc().format));
        Ok(())
    }

    fn set_output_tex(&mut self, tex: &Texture) -> (r: DxResult<()>) {
        if let Err(e) = Self::validate_output(tex) {
            return Err(e);
        }
        self.out_tex = tex.clone();
        self.rtv_y = create_rtv(tex, DxgiFormat::R8UNorm);
        self.rtv_uv = create_rtv(tex, DxgiFormat::R8G8UNorm);
        Ok(())
    }

    proof fn lemma_made_wf(a: TextureDesc, b: TextureDesc) {
    }

    proof fn lemma_plan_views_ok(&self) {
    }

    proof fn lemma_rebind_is_reconstruction(&self, a: TextureDesc, b: TextureDesc) {
    }
}

/// Filter scaling a packed four-channel texture — `ARGB8UNorm`,
/// `ABGR8UNorm` or `AYUV` — to a different resolution without converting
/// the color space: the pass samples the input through bilinear filtering
/// and writes it back unchanged.
pub struct ScaleARGBOrAYUV {
    /// The vertex shader bound by every pass.
    pub vs: VertexShaderKind,
    /// The passthrough pixel shader.
    pub ps: PixelShaderKind,
    /// The currently bound input texture.
    pub in_tex: Texture,
    /// The currently bound output texture.
    pub out_tex: Texture,
    /// Sampling view over the input as four 8-bit channels.
    pub srv: ViewDesc,
    /// Render-target view over the output as four 8-bit channels.
    pub rtv: ViewDesc,
    /// The fixed linear-clamp sampler.
    pub sampler: SamplerKind,
}

impl ScaleARGBOrAYUV {
    /// Create a new filter instance reading a packed four-channel image
    /// from `input_tex` and writing it scaled to `out_tex`.  Both formats
    /// are validated eagerly: construction fails with `BadParam` naming
    /// the offending texture's format, the input checked first.
    pub fn new(input_tex: &Texture, out_tex: &Texture) -> (r: DxResult<Self>)
        requires
            input_tex.desc.wf(),
            out_tex.desc.wf(),
        ensures
            match r {
                Ok(f) => {
                    &&& Self::accepts_input(input_tex.desc.format)
                    &&& Self::accepts_output(out_tex.desc.format)
                    &&& f == Self::made(input_tex.desc, out_tex.desc)
                },
                Err(e) => {
                    &&& !(Self::accepts_input(input_tex.desc.format) && Self::accepts_output(
                        out_tex.desc.format,
                    ))
                    &&& e matches DxFilterErr::BadParam(m) && m@ == (
                    if !Self::accepts_input(input_tex.desc.format) {
                        Self::input_err_msg(input_tex.desc.format)
                    } else {
                        Self::output_err_msg(out_tex.desc.format)
                    })
                },
            },
    {
        if let Err(e) = Self::validate_input(input_tex) {
            return Err(e);
        }
        if let Err(e) = Self::validate_output(out_tex) {
            return Err(e);
        }
        let srv = create_srv(input_tex, DxgiFormat::R8G8B8A8UNorm);
        let sampler = create_tex_sampler();
        let rtv = create_rtv(out_tex, DxgiFormat::R8G8B8A8UNorm);
        Ok(
            Self {
                vs: VertexShaderKind::FullScreenQuad,
                ps: PixelShaderKind::Passthrough,
                in_tex: input_tex.clone(),
                out_tex: out_tex.clone(),
                srv,
                rtv,
                sampler,
            },
        )
    }

    /// Accept the packed RGB formats and packed 4:4:4 YUV.
    fn validate_input(tex: &Texture) -> (r: DxResult<()>)
        ensures
            match r {
                Ok(_) => Self::accepts_input(tex.desc.format),
                Err(e) => {
                    &&& !Self::accepts_input(tex.desc.format)
                    &&& e matches DxFilterErr::BadParam(m) && m@ == Self::input_err_msg(
                        tex.desc.format,
                    )
                },
            },
    {
        let desc = tex.desc();
        match desc.format {
            ColorFormat::ARGB8UNorm | ColorFormat::ABGR8UNorm | ColorFormat::AYUV => Ok(()),
            _ => Err(bad_param("expected ARGB, ABGR or AYUV format found ", desc.format)),
        }
    }

    /// Accept the packed RGB formats and packed 4:4:4 YUV.
    fn validate_output(tex: &Texture) -> (r: DxResult<()>)
        ensures
            match r {
                Ok(_) => Self::accepts_output(tex.desc.format),
                Err(e) => {
                    &&& !Self::accepts_output(tex.desc.format)
                    &&& e matches DxFilterErr::BadParam(m) && m@ == Self::output_err_msg(
                        tex.desc.format,
                    )
                },
            },
    {
        let desc = tex.desc();
        match desc.format {
            ColorFormat::AYUV | ColorFormat::ABGR8UNorm | ColorFormat::ARGB8UNorm => Ok(()),
            _ => Err(bad_param("expected ARGB, ABGR or AYUV format found ", desc.format)),
        }
    }
}

impl DxFilter for ScaleARGBOrAYUV {
    open spec fn wf(&self) -> bool {
        &&& self.in_tex.desc.wf()
        &&& self.out_tex.desc.wf()
        &&& Self::accepts_input(self.in_tex.desc.format)
        &&& Self::accepts_output(self.out_tex.desc.format)
        &&& self.vs == VertexShaderKind::FullScreenQuad
        &&& self.ps == PixelShaderKind::Passthrough
        &&& self.sampler == SamplerKind::LinearClamp
        &&& self.srv == (ViewDesc { tex: self.in_tex.desc, format: DxgiFormat::R8G8B8A8UNorm })
        &&& self.rtv == (ViewDesc { tex: self.out_tex.desc, format: DxgiFormat::R8G8B8A8UNorm })
    }

    open spec fn input_desc(&self) -> TextureDesc {
        self.in_tex.desc
    }

    open spec fn output_desc(&self) -> TextureDesc {
        self.out_tex.desc
    }

    open spec fn accepts_input(f: ColorFormat) -> bool {
        f == ColorFormat::ARGB8UNorm || f == ColorFormat::ABGR8UNorm || f == ColorFormat::AYUV
    }

    open spec fn accepts_output(f: ColorFormat) -> bool {
        f == ColorFormat::ARGB8UNorm || f == ColorFormat::ABGR8UNorm || f == ColorFormat::AYUV
    }

    open spec fn input_err_msg(f: ColorFormat) -> Seq<char> {
        spec_expected_packed_msg(f)
    }

    open spec fn output_err_msg(f: ColorFormat) -> Seq<char> {
        spec_expected_packed_msg(f)
    }

    open spec fn made(input: TextureDesc, output: TextureDesc) -> Self {
        ScaleARGBOrAYUV {
            vs: VertexShaderKind::FullScreenQuad,
            ps: PixelShaderKind::Passthrough,
            in_tex: Texture { desc: input },
            out_tex: Texture { desc: output },
            srv: ViewDesc { tex: input, format: DxgiFormat::R8G8B8A8UNorm },
            rtv: ViewDesc { tex: output, format: DxgiFormat::R8G8B8A8UNorm },
            sampler: SamplerKind::LinearClamp,
        }
    }

    open spec fn with_input(&self, input: TextureDesc) -> Self {
        ScaleARGBOrAYUV {
            in_tex: Texture { desc: input },
            srv: ViewDesc { tex: input, format: DxgiFormat::R8G8B8A8UNorm },
            ..*self
        }
    }

    open spec fn with_output(&self, output: TextureDesc) -> Self {
        ScaleARGBOrAYUV {
            out_tex: Texture { desc: output },
            rtv: ViewDesc { tex: output, format: DxgiFormat::R8G8B8A8UNorm },
            ..*self
        }
    }

    open spec fn plan(&self) -> Seq<DrawPass> {
        seq![
            DrawPass {
                vs: self.vs,
                ps: self.ps,
                source: self.srv,
                target: self.rtv,
                sampler: self.sampler,
                viewport: Viewport {
                    width: self.out_tex.desc.width,
                    height: self.out_tex.desc.height,
                },
            },
        ]
    }

    fn apply_filter(&self, ctx: &mut DeviceContext) -> (r: DxResult<()>) {
        let out_desc = self.out_tex.desc();
        let vp = Viewport { width: out_desc.width, height: out_desc.height };
        ctx.submit(
            DrawPass {
                vs: self.vs,
                ps: self.ps,
                source: self.srv,
                target: self.rtv,
                sampler: self.sampler,
                viewport: vp,
            },
        );
        proof {
            assert(ctx@ =~= old(ctx)@ + self.plan());
        }
        Ok(())
    }

    fn set_input_tex(&mut self, tex: &Texture) -> (r: DxResult<()>) {
        if let Err(e) = Self::validate_input(tex) {
            return Err(e);
        }
        self.in_tex = tex.clone();
        self.srv = create_srv(tex, DxgiFormat::R8G8B8A8UNorm);
        Ok(())
    }

    fn set_output_tex(&mut self, tex: &Texture) -> (r: DxResult<()>) {
        if let Err(e) = Self::validate_output(tex) {
            return Err(e);
        }
        self.out_tex = tex.clone();
        self.rtv = create_rtv(tex, DxgiFormat::R8G8B8A8UNorm);
        Ok(())
    }

    proof fn lemma_made_wf(a: TextureDesc, b: TextureDesc) {
    }

    proof fn lemma_plan_views_ok(&self) {
    }

    proof fn lemma_rebind_is_reconstruction(&self, a: TextureDesc, b: TextureDesc) {
    }
}

/// Filter converting packed RGB — `ARGB8UNorm` or `ABGR8UNorm` — into the
/// plane-stacked 4:4:4 `YUV444` format, scaling automatically to the
/// output texture's resolution.
///
/// The output allocation holds three vertically stacked single-channel
/// planes: luma rows first, then blue-difference chroma, then
/// red-difference chroma.  One pass covers all three by drawing with a
/// viewport three times the output's nominal height; the pixel shader
/// routes each value by the vertical third its fragment falls in.
pub struct ConvertARGBToYUV444 {
    /// The vertex shader bound by every pass.
    pub vs: VertexShaderKind,
    /// The plane-routing pixel shader.
    pub ps: PixelShaderKind,
    /// The currently bound input texture.
    pub in_tex: Texture,
    /// The currently bound output texture.
    pub out_tex: Texture,
    /// Sampling view over the input as four 8-bit channels.
    pub srv: ViewDesc,
    /// Render-target view over the stacked planes as one 8-bit channel.
    pub rtv: ViewDesc,
    /// The fixed linear-clamp sampler.
    pub sampler: SamplerKind,
}

impl ConvertARGBToYUV444 {
    /// Create a new filter instance reading RGB from `input_tex` and
    /// writing plane-stacked 4:4:4 to `out_tex`.  Both formats are
    /// validated eagerly: construction fails with `BadParam` naming the
    /// offending texture's format, the input checked first.
    pub fn new(input_tex: &Texture, out_tex: &Texture) -> (r: DxResult<Self>)
        requires
            input_tex.desc.wf(),
            out_tex.desc.wf(),
        ensures
            match r {
                Ok(f) => {
                    &&& Self::accepts_input(input_tex.desc.format)
                    &&& Self::accepts_output(out_tex.desc.format)
                    &&& f == Self::made(input_tex.desc, out_tex.desc)
                },
                Err(e) => {
                    &&& !(Self::accepts_input(input_tex.desc.format) && Self::accepts_output(
                        out_tex.desc.format,
                    ))
                    &&& e matches DxFilterErr::BadParam(m) && m@ == (
                    if !Self::accepts_input(input_tex.desc.format) {
                        Self::input_err_msg(input_tex.desc.format)
                    } else {
                        Self::output_err_msg(out_tex.desc.format)
                    })
                },
            },
    {
        if let Err(e) = Self::validate_input(input_tex) {
            return Err(e);
        }
        if let Err(e) = Self::validate_output(out_tex) {
            return Err(e);
        }
        let srv = create_srv(input_tex, DxgiFormat::R8G8B8A8UNorm);
        let sampler = create_tex_sampler();
        let rtv = create_rtv(out_tex, DxgiFormat::R8UNorm);
        Ok(
            Self {
                vs: VertexShaderKind::FullScreenQuad,
                ps: PixelShaderKind::RgbToYuvPlanes,
                in_tex: input_tex.clone(),
                out_tex: out_tex.clone(),
                srv,
                rtv,
                sampler,
            },
        )
    }

    /// Accept exactly the packed RGB formats.
    fn validate_input(tex: &Texture) -> (r: DxResult<()>)
        ensures
            match r {
                Ok(_) => Self::accepts_input(tex.desc.format),
                Err(e) => {
                    &&& !Self::accepts_input(tex.desc.format)
                    &&& e matches DxFilterErr::BadParam(m) && m@ == Self::input_err_msg(
                        tex.desc.format,
                    )
                },
            },
    {
        let desc = tex.desc();
        match desc.format {
            ColorFormat::ARGB8UNorm | ColorFormat::ABGR8UNorm => Ok(()),
            _ => Err(bad_param("expected ARGB or ABGR format found ", desc.format)),
        }
    }

    /// Accept exactly the plane-stacked 4:4:4 output format.
    fn validate_output(tex: &Texture) -> (r: DxResult<()>)
        ensures
            match r {
                Ok(_) => Self::accepts_output(tex.desc.format),
                Err(e) => {
                    &&& !Self::accepts_output(tex.desc.format)
                    &&& e matches DxFilterErr::BadParam(m) && m@ == Self::output_err_msg(
                        tex.desc.format,
                    )
                },
            },
    {
        let desc = tex.desc();
        match desc.format {
            ColorFormat::YUV444 => Ok(()),
            _ => Err(bad_param("expected YUV444 format found ", desc.format)),
        }
    }
}

impl DxFilter for ConvertARGBToYUV444 {
    open spec fn wf(&self) -> bool {
        &&& self.in_tex.desc.wf()
        &&& self.out_tex.desc.wf()
        &&& Self::accepts_input(self.in_tex.desc.format)
        &&& Self::accepts_output(self.out_tex.desc.format)
        &&& self.vs == VertexShaderKind::FullScreenQuad
        &&& self.ps == PixelShaderKind::RgbToYuvPlanes
        &&& self.sampler == SamplerKind::LinearClamp
        &&& self.srv == (ViewDesc { tex: self.in_tex.desc, format: DxgiFormat::R8G8B8A8UNorm })
        &&& self.rtv == (ViewDesc { tex: self.out_tex.desc, format: DxgiFormat::R8UNorm })
    }

    open spec fn input_desc(&self) -> TextureDesc {
        self.in_tex.desc
    }

    open spec fn output_desc(&self) -> TextureDesc {
        self.out_tex.desc
    }

    open spec fn accepts_input(f: ColorFormat) -> bool {
        f == ColorFormat::ARGB8UNorm || f == ColorFormat::ABGR8UNorm
    }

    open spec fn accepts_output(f: ColorFormat) -> bool {
        f == ColorFormat::YUV444
    }

    open spec fn input_err_msg(f: ColorFormat) -> Seq<char> {
        spec_expected_rgb_msg(f)
    }

    open spec fn output_err_msg(f: ColorFormat) -> Seq<char> {
        spec_expected_yuv444_msg(f)
    }

    open spec fn made(input: TextureDesc, output: TextureDesc) -> Self {
        ConvertARGBToYUV444 {
            vs: VertexShaderKind::FullScreenQuad,
            ps: PixelShaderKind::RgbToYuvPlanes,
            in_tex: Texture { desc: input },
            out_tex: Texture { desc: output },
            srv: ViewDesc { tex: input, format: DxgiFormat::R8G8B8A8UNorm },
            rtv: ViewDesc { tex: output, format: DxgiFormat::R8UNorm },
            sampler: SamplerKind::LinearClamp,
        }
    }

    open spec fn with_input(&self, input: TextureDesc) -> Self {
        ConvertARGBToYUV444 {
            in_tex: Texture { desc: input },
            srv: ViewDesc { tex: input, format: DxgiFormat::R8G8B8A8UNorm },
            ..*self
        }
    }

    open spec fn with_output(&self, output: TextureDesc) -> Self {
        ConvertARGBToYUV444 {
            out_tex: Texture { desc: output },
            rtv: ViewDesc { tex: output, format: DxgiFormat::R8UNorm },
            ..*self
        }
    }

    /// One pass whose viewport spans three times the output's nominal
    /// height, covering the three stacked planes.
    open spec fn plan(&self) -> Seq<DrawPass> {
        seq![
            DrawPass {
                vs: self.vs,
                ps: self.ps,
                source: self.srv,
                target: self.rtv,
                sampler: self.sampler,
                viewport: Viewport {
                    width: self.out_tex.desc.width,
                    height: (3 * self.out_tex.desc.height) as u32,
                },
            },
        ]
    }

    fn apply_filter(&self, ctx: &mut DeviceContext) -> (r: DxResult<()>) {
        let out_desc = self.out_tex.desc();
        let vp = Viewport { width: out_desc.width, height: 3 * out_desc.height };
        ctx.submit(
            DrawPass {
                vs: self.vs,
                ps: self.ps,
                source: self.srv,
                target: self.rtv,
                sampler: self.sampler,
                viewport: vp,
            },
        );
        proof {
            assert(ctx@ =~= old(ctx)@ + self.plan());
        }
        Ok(())
    }

    fn set_input_tex(&mut self, tex: &Texture) -> (r: DxResult<()>) {
        if let Err(e) = Self::validate_input(tex) {
            return Err(e);
        }
        self.in_tex = tex.clone();
        self.srv = create_srv(tex, DxgiFormat::R8G8B8A8UNorm);
        Ok(())
    }

    fn set_output_tex(&mut self, tex: &Texture) -> (r: DxResult<()>) {
        if let Err(e) = Self::validate_output(tex) {
            return Err(e);
        }
        self.out_tex = tex.clone();
        self.rtv = create_rtv(tex, DxgiFormat::R8UNorm);
        Ok(())
    }

    proof fn lemma_made_wf(a: TextureDesc, b: TextureDesc) {
    }

    proof fn lemma_plan_views_ok(&self) {
    }

    proof fn lemma_rebind_is_reconstruction(&self, a: TextureDesc, b: TextureDesc) {
    }
}

/// Every pixel format some filter accepts for an input or output texture
/// has a defined storage mapping, so the texture behind it can be
/// allocated and viewed: the filters' validation sets and the format
/// mapping agree.
pub proof fn lemma_accepted_formats_are_mapped(f: ColorFormat)
    ensures
        ConvertARGBToAYUV::accepts_input(f) ==> spec_dxgi_of(f) != DxgiFormat::Unknown,
        ConvertARGBToAYUV::accepts_output(f) ==> spec_dxgi_of(f) != DxgiFormat::Unknown,
        ConvertARGBToNV12::accepts_input(f) ==> spec_dxgi_of(f) != DxgiFormat::Unknown,
        ConvertARGBToNV12::accepts_output(f) ==> spec_dxgi_of(f) != DxgiFormat::Unknown,
        ScaleARGBOrAYUV::accepts_input(f) ==> spec_dxgi_of(f) != DxgiFormat::Unknown,
        ScaleARGBOrAYUV::accepts_output(f) ==> spec_dxgi_of(f) != DxgiFormat::Unknown,
        ConvertARGBToYUV444::accepts_input(f) ==> spec_dxgi_of(f) != DxgiFormat::Unknown,
        ConvertARGBToYUV444::accepts_output(f) ==> spec_dxgi_of(f) != DxgiFormat::Unknown,
{
}

} // verus!
