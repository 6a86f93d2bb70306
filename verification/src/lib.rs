//! Verified model of a GPU color-format conversion and scaling pipeline.
//!
//! The library describes a small set of stateful filter objects, each of
//! which turns one texture into another of a different pixel format and/or
//! resolution by rasterizing a full-screen quad.  Everything a filter
//! decides — which texture formats it accepts, which resource views it
//! derives, and which draw passes it issues with which viewports — is plain
//! data with proved contracts.  Submitting the resulting pass sequence to a
//! real graphics device, creating textures, and compiling shader byte code
//! are the callers' (unverified) side of the boundary.

use vstd::prelude::*;

pub mod color;
pub mod common_filters;
pub mod error;
pub mod frame;
pub mod pipeline;
pub mod shader_options;
pub mod texture;
pub mod yuv;

pub use common_filters::ConvertARGBToAYUV;
pub use common_filters::ConvertARGBToNV12;
pub use common_filters::ConvertARGBToYUV444;
pub use common_filters::ScaleARGBOrAYUV;
pub use error::DxFilterErr;
pub use error::DxResult;

use crate::color::ColorFormat;
use crate::error::DxFilterErr as FilterErr;
use crate::pipeline::{DeviceContext, DrawPass};
use crate::texture::{Texture, TextureDesc};

verus! {

/// Interface every filter exposes, so pipelines can compose filters
/// without caring which conversion each performs.
///
/// A filter is a stateful object binding one input texture and one output
/// allocation.  Its ghost state names the textures it is bound to, the
/// pass sequence `apply_filter` issues, and the exact filter value each
/// rebind leaves behind; the method contracts pin all three.
pub trait DxFilter: Sized {
    /// The filter's invariant: its textures are allocatable, their formats
    /// are the accepted ones, and every view it holds was derived from its
    /// current textures by its own fixed policy.  Constructors establish
    /// this and every method preserves it.
    spec fn wf(&self) -> bool;

    /// Description of the currently bound input texture.
    spec fn input_desc(&self) -> TextureDesc;

    /// Description of the currently bound output texture.
    spec fn output_desc(&self) -> TextureDesc;

    /// The input formats this filter kind accepts.
    spec fn accepts_input(f: ColorFormat) -> bool;

    /// The output formats this filter kind produces.
    spec fn accepts_output(f: ColorFormat) -> bool;

    /// The message carried by the `BadParam` a rejected input texture of
    /// format `f` provokes; it names `f` itself.
    spec fn input_err_msg(f: ColorFormat) -> Seq<char>;

    /// The message carried by the `BadParam` a rejected output texture of
    /// format `f` provokes; it names `f` itself.
    spec fn output_err_msg(f: ColorFormat) -> Seq<char>;

    /// The filter value construction builds over an accepted texture
    /// pair.  The whole state is a function of the pair: shaders and
    /// sampler are fixed per kind, and the views are derived from the two
    /// descriptions.
    spec fn made(input: TextureDesc, output: TextureDesc) -> Self;

    /// The filter value `set_input_tex` leaves behind: only the input
    /// binding and the sampling view derived from it change.
    spec fn with_input(&self, input: TextureDesc) -> Self;

    /// The filter value `set_output_tex` leaves behind: only the output
    /// binding and the render-target view(s) derived from it change.
    spec fn with_output(&self, output: TextureDesc) -> Self;

    /// The pass sequence one `apply_filter` call submits, a function of
    /// the filter's current state alone.
    spec fn plan(&self) -> Seq<DrawPass>;

    /// Issue this filter's draw passes on the given command stream.  The
    /// stream grows by exactly `plan()`; the filter itself is untouched,
    /// so repeated calls re-issue the same passes.
    fn apply_filter(&self, ctx: &mut DeviceContext) -> (r: DxResult<()>)
        requires
            self.wf(),
        ensures
            final(ctx)@ == old(ctx)@ + self.plan(),
            r is Ok,
    ;

    /// Bind a different input texture, recomputing only the sampling
    /// view.  Accepts exactly the formats `accepts_input` names; a
    /// rejected texture leaves the filter untouched.
    fn set_input_tex(&mut self, tex: &Texture) -> (r: DxResult<()>)
        requires
            old(self).wf(),
            tex.desc.wf(),
        ensures
            final(self).wf(),
            Self::accepts_input(tex.desc.format) ==> r is Ok && *final(self) == old(
                self,
            ).with_input(tex.desc),
            !Self::accepts_input(tex.desc.format) ==> ({
                &&& *final(self) == *old(self)
                &&& r matches Err(e) && e matches FilterErr::BadParam(m) && m@
                    == Self::input_err_msg(tex.desc.format)
            }),
    ;

    /// Bind a different output texture, recomputing only the
    /// render-target view(s).  Accepts exactly the formats
    /// `accepts_output` names; a rejected texture leaves the filter
    /// untouched.
    fn set_output_tex(&mut self, tex: &Texture) -> (r: DxResult<()>)
        requires
            old(self).wf(),
            tex.desc.wf(),
        ensures
            final(self).wf(),
            Self::accepts_output(tex.desc.format) ==> r is Ok && *final(self) == old(
                self,
            ).with_output(tex.desc),
            !Self::accepts_output(tex.desc.format) ==> ({
                &&& *final(self) == *old(self)
                &&& r matches Err(e) && e matches FilterErr::BadParam(m) && m@
                    == Self::output_err_msg(tex.desc.format)
            }),
    ;

    /// Construction over an accepted pair yields a well-formed filter
    /// bound to exactly that pair.
    proof fn lemma_made_wf(a: TextureDesc, b: TextureDesc)
        requires
            a.wf(),
            b.wf(),
            Self::accepts_input(a.format),
            Self::accepts_output(b.format),
        ensures
            Self::made(a, b).wf(),
            Self::made(a, b).input_desc() == a,
            Self::made(a, b).output_desc() == b,
    ;

    /// Correct view typing per format: every pass a well-formed filter
    /// issues samples and writes its textures through views whose formats
    /// are legal reinterpretations of the underlying storage.
    proof fn lemma_plan_views_ok(&self)
        requires
            self.wf(),
        ensures
            forall|i: int| 0 <= i < self.plan().len() ==> (#[trigger] self.plan()[i]).wf(),
    ;

    /// Rebinding is format-equivalent to reconstruction: however a
    /// well-formed filter arrives at a texture pair — one rebind, or both
    /// in either order — its state is exactly what a fresh construction
    /// over that pair builds, so a subsequent `apply_filter` issues the
    /// same passes.
    proof fn lemma_rebind_is_reconstruction(&self, a: TextureDesc, b: TextureDesc)
        requires
            self.wf(),
            a.wf(),
            b.wf(),
            Self::accepts_input(a.format),
            Self::accepts_output(b.format),
        ensures
            self.with_input(a).with_output(b) == Self::made(a, b),
            self.with_output(b).with_input(a) == Self::made(a, b),
            self.with_input(a) == Self::made(a, self.output_desc()),
            self.with_output(b) == Self::made(self.input_desc(), b),
    ;
}

/// Applying a filter twice in succession with no rebind in between
/// appends the same pass sequence both times: the second application
/// re-issues exactly the work of the first.
pub proof fn lemma_apply_idempotent<F: DxFilter>(
    f: &F,
    before: Seq<DrawPass>,
    after_first: Seq<DrawPass>,
    after_second: Seq<DrawPass>,
)
    requires
        after_first == before + f.plan(),
        after_second == after_first + f.plan(),
    ensures
        after_second.subrange(before.len() as int, after_first.len() as int) == f.plan(),
        after_second.subrange(after_first.len() as int, after_second.len() as int) == f.plan(),
{
    assert(after_second.subrange(before.len() as int, after_first.len() as int) =~= f.plan());
    assert(after_second.subrange(after_first.len() as int, after_second.len() as int) =~= f.plan());
}

} // verus!
