//! The fixed-function state a filter binds and the draw passes it issues.
//!
//! A pass here is plain data: which shader pair runs, which view is
//! sampled, which view is written, and the viewport the full-screen quad
//! covers.  A device context models the single logical command stream of a
//! real device context: passes submitted to it are sequenced, never
//! interleaved, and the unverified device layer replays them in order.

use vstd::prelude::*;

use crate::color::{DxgiFormat, spec_view_ok};
use crate::texture::{Texture, TextureDesc};

verus! {

/// The vertex shaders this crate's filters use.
#[derive(Clone, Copy, Debug, PartialEq, Eq, Structural)]
pub enum VertexShaderKind {
    /// Emits a quad covering the whole viewport, so the pixel shader runs
    /// once per output texel.
    FullScreenQuad,
}

/// The pixel shaders this crate's filters use.
#[derive(Clone, Copy, Debug, PartialEq, Eq, Structural)]
pub enum PixelShaderKind {
    /// Writes the sampled texel unchanged.
    Passthrough,
    /// Writes V,U,Y,A channels for the sampled texel.
    RgbToAyuv,
    /// Writes the luma byte of the sampled texel.
    RgbToY,
    /// Writes the two chroma bytes of the sampled texel.
    RgbToUv,
    /// Routes luma and the two chroma bytes to the vertical third of the
    /// target that the fragment's row falls in.
    RgbToYuvPlanes,
}

/// The sampler states this crate's filters use.
#[derive(Clone, Copy, Debug, PartialEq, Eq, Structural)]
pub enum SamplerKind {
    /// Bilinear filtering, clamped at the edges.
    LinearClamp,
}

/// A typed lens over a texture: the texture it was derived from and the
/// storage format the pass reads or writes it at.  Views are derived data,
/// recomputed whenever the bound texture changes.
#[derive(Clone, Copy, Debug, PartialEq, Eq, Structural)]
pub struct ViewDesc {
    /// Description of the texture the view was derived from.
    pub tex: TextureDesc,
    /// The format the view reinterprets the texture at.
    pub format: DxgiFormat,
}

impl ViewDesc {
    /// The view's format reinterprets the underlying storage legally.
    pub open spec fn wf(self) -> bool {
        spec_view_ok(self.tex.format, self.format)
    }
}

/// Derive a sampling (read) view over a texture at the given format.
pub fn create_srv(tex: &Texture, format: DxgiFormat) -> (v: ViewDesc)
    requires
        spec_view_ok(tex.desc.format, format),
    ensures
        v == (ViewDesc { tex: tex.desc, format }),
        v.wf(),
{
    ViewDesc { tex: tex.desc, format }
}

/// Derive a render-target (write) view over a texture at the given format.
pub fn create_rtv(tex: &Texture, format: DxgiFormat) -> (v: ViewDesc)
    requires
        spec_view_ok(tex.desc.format, format),
    ensures
        v == (ViewDesc { tex: tex.desc, format }),
        v.wf(),
{
    ViewDesc { tex: tex.desc, format }
}

/// The one sampler state every filter binds: bilinear, clamp-to-edge.
pub fn create_tex_sampler() -> (s: SamplerKind)
    ensures
        s == SamplerKind::LinearClamp,
{
    SamplerKind::LinearClamp
}

/// The region of the target a draw covers, anchored at the top-left
/// corner.
#[derive(Clone, Copy, Debug, PartialEq, Eq, Structural)]
pub struct Viewport {
    /// Width of the covered region in texels.
    pub width: u32,
    /// Height of the covered region in texels.
    pub height: u32,
}

/// One full-screen-quad draw: four vertices in a triangle strip, so the
/// pixel shader executes once per texel of the viewport.
#[derive(Clone, Copy, Debug, PartialEq, Eq, Structural)]
pub struct DrawPass {
    /// The vertex shader bound for the draw.
    pub vs: VertexShaderKind,
    /// The pixel shader bound for the draw.
    pub ps: PixelShaderKind,
    /// The view the pixel shader samples.
    pub source: ViewDesc,
    /// The view the rasterizer writes.
    pub target: ViewDesc,
    /// The sampler state bound for the draw.
    pub sampler: SamplerKind,
    /// The viewport the quad covers.
    pub viewport: Viewport,
}

impl DrawPass {
    /// Both of the pass's views reinterpret their textures legally.
    pub open spec fn wf(self) -> bool {
        self.source.wf() && self.target.wf()
    }
}

/// The single logical command stream of one device context.  All passes
/// submitted against a context are sequenced; callers must not share a
/// context between threads.
#[derive(Debug)]
pub struct DeviceContext {
    /// The passes submitted so far, in submission order.
    pub passes: Vec<DrawPass>,
}

impl View for DeviceContext {
    type V = Seq<DrawPass>;

    open spec fn view(&self) -> Seq<DrawPass> {
        self.passes@
    }
}

impl DeviceContext {
    /// An empty command stream.
    pub fn new() -> (c: DeviceContext)
        ensures
            c@ == Seq::<DrawPass>::empty(),
    {
        DeviceContext { passes: Vec::new() }
    }

    /// Append one pass to the stream.
    pub fn submit(&mut self, pass: DrawPass)
        ensures
            final(self)@ == old(self)@.push(pass),
    {
        self.passes.push(pass);
    }
}

} // verus!
