//! Texture descriptions, row strides, and the allocation requests the
//! texture-provisioning helpers hand to the device layer.

use vstd::prelude::*;
use vstd::string::*;

use crate::color::{ColorFormat, spec_storage_of, storage_of};
use crate::error::{DxFilterErr, DxResult};

verus! {

/// The largest width or height of a two-dimensional texture the device
/// accepts.
pub const MAX_TEXTURE_DIM: u32 = 16384;

/// Describes a texture's shape: immutable for the texture's lifetime.
///
/// For the plane-stacked 4:4:4 formats the height is the height of one
/// plane; the allocation behind such a texture spans three times as many
/// rows.
#[derive(Clone, Copy, Debug, PartialEq, Eq, Structural)]
pub struct TextureDesc {
    /// Height of the image in texels (of one plane, for planar formats).
    pub height: u32,
    /// Width of the image in texels.
    pub width: u32,
    /// Pixel format of the image.
    pub format: ColorFormat,
}

impl TextureDesc {
    /// A description the device can allocate: both dimensions positive and
    /// within the device's texture-dimension limit.
    pub open spec fn wf(self) -> bool {
        0 < self.width <= MAX_TEXTURE_DIM && 0 < self.height <= MAX_TEXTURE_DIM
    }
}

/// A GPU-resident two-dimensional image, modelled by its description.  The
/// pixel contents live on the device and change only by rendering; filters
/// hold textures by value the way callers share reference-counted handles,
/// so a filter and its caller may refer to the same image.
#[derive(Clone, Copy, Debug)]
pub struct Texture {
    /// The texture's shape.
    pub desc: TextureDesc,
}

impl Texture {
    /// Wrap a description as a texture.
    pub fn new(desc: TextureDesc) -> (t: Texture)
        ensures
            t.desc == desc,
    {
        Texture { desc }
    }

    /// Retrieve the description of this texture.
    pub fn desc(&self) -> (d: TextureDesc)
        ensures
            d == self.desc,
    {
        self.desc
    }
}

/// Bytes one storage texel occupies, or `None` where the format defines no
/// stride.
pub open spec fn spec_texel_stride(f: ColorFormat) -> Option<u32> {
    match spec_storage_of(f) {
        Some(s) => Some(s.bytes_per_texel),
        None => None,
    }
}

/// Rows the allocation behind a texture spans: three stacked planes for the
/// plane-stacked 4:4:4 formats, one plane's rows otherwise.
pub open spec fn spec_alloc_rows(d: TextureDesc) -> int {
    if d.format == ColorFormat::YUV444 || d.format == ColorFormat::YUV444_10bit {
        3 * d.height
    } else {
        d.height as int
    }
}

/// Bytes from one row of the allocation to the next.
pub open spec fn spec_row_pitch(d: TextureDesc) -> int {
    d.width * spec_texel_stride(d.format)->Some_0
}

/// How a texture may be bound to the pipeline.
#[derive(Clone, Copy, Debug, PartialEq, Eq, Structural)]
pub enum BindFlag {
    /// The texture can be sampled by shaders.
    ShaderResource,
    /// The texture can be written as a render target.
    RenderTarget,
}

/// Everything the device layer needs to allocate a texture: its shape, how
/// it will be bound, how many rows the allocation spans, and the byte pitch
/// of one row of initial data.
#[derive(Clone, Copy, Debug, PartialEq, Eq, Structural)]
pub struct TextureRequest {
    /// The texture's shape.
    pub desc: TextureDesc,
    /// How the texture will be bound.
    pub bind: BindFlag,
    /// Rows the allocation spans.
    pub alloc_rows: u32,
    /// Bytes per row of texel data.
    pub row_pitch: u32,
}

/// The request `texture_request` builds on success.
pub open spec fn spec_texture_request(d: TextureDesc, bind: BindFlag) -> TextureRequest {
    TextureRequest {
        desc: d,
        bind,
        alloc_rows: spec_alloc_rows(d) as u32,
        row_pitch: spec_row_pitch(d) as u32,
    }
}

/// Build the allocation request for a texture, failing exactly when the
/// format defines no stride.
fn texture_request(desc: &TextureDesc, bind: BindFlag) -> (r: DxResult<TextureRequest>)
    requires
        desc.wf(),
    ensures
        match r {
            Ok(req) => spec_texel_stride(desc.format) is Some && req == spec_texture_request(
                *desc,
                bind,
            ),
            Err(e) => {
                &&& spec_texel_stride(desc.format) is None
                &&& e matches DxFilterErr::BadParam(m) && m@ == "unexpected texture format"@
            },
        },
{
    let stride = match storage_of(desc.format) {
        Some(s) => s.bytes_per_texel,
        None => {
            return Err(
                DxFilterErr::BadParam(String::from_str("unexpected texture format")),
            );
        },
    };
    let alloc_rows: u32 = if matches!(desc.format, ColorFormat::YUV444 | ColorFormat::YUV444_10bit) {
        3 * desc.height
    } else {
        desc.height
    };
    Ok(TextureRequest { desc: *desc, bind, alloc_rows, row_pitch: desc.width * stride })
}

/// Build the allocation request for a filter input: a texture shaders can
/// sample.  Fails with `BadParam` exactly when the format defines no
/// stride.
pub fn input_texture_request(desc: &TextureDesc) -> (r: DxResult<TextureRequest>)
    requires
        desc.wf(),
    ensures
        match r {
            Ok(req) => spec_texel_stride(desc.format) is Some && req == spec_texture_request(
                *desc,
                BindFlag::ShaderResource,
            ),
            Err(e) => {
                &&& spec_texel_stride(desc.format) is None
                &&& e matches DxFilterErr::BadParam(m) && m@ == "unexpected texture format"@
            },
        },
{
    texture_request(desc, BindFlag::ShaderResource)
}

/// Build the allocation request for a filter output: a texture render
/// passes can write.  Fails with `BadParam` exactly when the format defines
/// no stride.
pub fn output_texture_request(desc: &TextureDesc) -> (r: DxResult<TextureRequest>)
    requires
        desc.wf(),
    ensures
        match r {
            Ok(req) => spec_texel_stride(desc.format) is Some && req == spec_texture_request(
                *desc,
                BindFlag::RenderTarget,
            ),
            Err(e) => {
                &&& spec_texel_stride(desc.format) is None
                &&& e matches DxFilterErr::BadParam(m) && m@ == "unexpected texture format"@
            },
        },
{
    texture_request(desc, BindFlag::RenderTarget)
}

} // verus!
