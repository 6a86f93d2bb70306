//! Named pixel formats, their GPU storage descriptors, and the
//! reinterpretation formats that views may use over each of them.

use vstd::prelude::*;

verus! {

/// Enumeration of the pixel formats a texture can carry.
///
/// `Unknown` stands for every storage format this crate does not handle; no
/// filter accepts it and no stride is defined for it.
#[derive(Clone, Copy, Debug, PartialEq, Eq, Structural)]
pub enum ColorFormat {
    /// A format with no defined storage mapping.
    Unknown,
    /// Packed 8-bit-per-channel RGBA, stored R,G,B,A per texel.
    ARGB8UNorm,
    /// Packed 8-bit-per-channel RGBA, stored B,G,R,A per texel.
    ABGR8UNorm,
    /// Planar 8-bit 4:4:4: three full-resolution single-channel planes
    /// stacked vertically in one single-channel allocation.
    YUV444,
    /// Packed 8-bit 4:4:4 with alpha, stored V,U,Y,A per texel.
    AYUV,
    /// Planar 8-bit 4:2:0 with half-resolution chroma planes.
    YUV420,
    /// Semi-planar 8-bit 4:2:0: a full-resolution luma plane followed by an
    /// interleaved half-resolution chroma plane.
    NV12,
    /// Packed 16-bit-float-per-channel RGBA.
    ARGB16Float,
    /// Packed 10-bit R,G,B with 2-bit alpha.
    ARGB10UNorm,
    /// Packed 10-bit Y,U,V with 2-bit alpha.
    Y410,
    /// Planar 16-bit-per-sample 4:4:4 (10 significant bits).
    YUV444_10bit,
    /// Semi-planar 16-bit-per-sample 4:2:0 (10 significant bits).
    YUV420_10bit,
}

/// The storage and view formats the GPU knows, as far as this crate uses
/// them.  A texture is allocated in one of these, and every resource view
/// over a texture is typed by one of them.
#[derive(Clone, Copy, Debug, PartialEq, Eq, Structural)]
pub enum DxgiFormat {
    /// No defined format.
    Unknown,
    /// Four 8-bit channels, stored R,G,B,A.
    R8G8B8A8UNorm,
    /// Four 8-bit channels, stored B,G,R,A.
    B8G8R8A8UNorm,
    /// Packed 4:4:4 YUV with alpha, stored V,U,Y,A.
    AYUV,
    /// One 8-bit channel.
    R8UNorm,
    /// Two 8-bit channels.
    R8G8UNorm,
    /// One 16-bit channel.
    R16UNorm,
    /// Semi-planar 4:2:0, luma plane then interleaved chroma plane.
    NV12,
    /// Four 16-bit float channels.
    R16G16B16A16Float,
    /// 10-bit R,G,B with 2-bit alpha.
    R10G10B10A2UNorm,
    /// 10-bit Y,U,V with 2-bit alpha.
    Y410,
    /// 16-bit semi-planar 4:2:0.
    P010,
}

/// How a format lays texels out in GPU memory: the bit depth of a channel,
/// how many channels one storage texel interleaves, and how many bytes one
/// storage texel occupies.  For planar formats this describes one sample of
/// one plane.
#[derive(Clone, Copy, Debug, PartialEq, Eq, Structural)]
pub struct StorageInfo {
    /// Bits that one channel occupies in storage.
    pub bits_per_channel: u32,
    /// Channels interleaved in one storage texel.
    pub channels: u32,
    /// Bytes one storage texel occupies.
    pub bytes_per_texel: u32,
}

/// The storage format a texture of the given named format is allocated in;
/// `Unknown` where none is defined.  `YUV420` has no storage mapping: no
/// texture of that format can be allocated, though its stride is defined.
pub open spec fn spec_dxgi_of(f: ColorFormat) -> DxgiFormat {
    match f {
        ColorFormat::Unknown => DxgiFormat::Unknown,
        ColorFormat::ARGB8UNorm => DxgiFormat::R8G8B8A8UNorm,
        ColorFormat::ABGR8UNorm => DxgiFormat::B8G8R8A8UNorm,
        ColorFormat::YUV444 => DxgiFormat::R8UNorm,
        ColorFormat::AYUV => DxgiFormat::AYUV,
        ColorFormat::YUV420 => DxgiFormat::Unknown,
        ColorFormat::NV12 => DxgiFormat::NV12,
        ColorFormat::ARGB16Float => DxgiFormat::R16G16B16A16Float,
        ColorFormat::ARGB10UNorm => DxgiFormat::R10G10B10A2UNorm,
        ColorFormat::Y410 => DxgiFormat::Y410,
        ColorFormat::YUV444_10bit => DxgiFormat::R16UNorm,
        ColorFormat::YUV420_10bit => DxgiFormat::P010,
    }
}

/// The named format that a texture allocated in the given storage format
/// carries; `Unknown` where no named format claims it.  `R8G8UNorm` is a
/// view-only format: it names no texture format.
pub open spec fn spec_format_of_dxgi(d: DxgiFormat) -> ColorFormat {
    match d {
        DxgiFormat::Unknown => ColorFormat::Unknown,
        DxgiFormat::R8G8B8A8UNorm => ColorFormat::ARGB8UNorm,
        DxgiFormat::B8G8R8A8UNorm => ColorFormat::ABGR8UNorm,
        DxgiFormat::AYUV => ColorFormat::AYUV,
        DxgiFormat::R8UNorm => ColorFormat::YUV444,
        DxgiFormat::R8G8UNorm => ColorFormat::Unknown,
        DxgiFormat::R16UNorm => ColorFormat::YUV444_10bit,
        DxgiFormat::NV12 => ColorFormat::NV12,
        DxgiFormat::R16G16B16A16Float => ColorFormat::ARGB16Float,
        DxgiFormat::R10G10B10A2UNorm => ColorFormat::ARGB10UNorm,
        DxgiFormat::Y410 => ColorFormat::Y410,
        DxgiFormat::P010 => ColorFormat::YUV420_10bit,
    }
}

/// The storage descriptor of a named format; `None` only for `Unknown`.
pub open spec fn spec_storage_of(f: ColorFormat) -> Option<StorageInfo> {
    match f {
        ColorFormat::Unknown => None,
        ColorFormat::ARGB8UNorm => Some(StorageInfo { bits_per_channel: 8, channels: 4, bytes_per_texel: 4 }),
        ColorFormat::ABGR8UNorm => Some(StorageInfo { bits_per_channel: 8, channels: 4, bytes_per_texel: 4 }),
        ColorFormat::YUV444 => Some(StorageInfo { bits_per_channel: 8, channels: 1, bytes_per_texel: 1 }),
        ColorFormat::AYUV => Some(StorageInfo { bits_per_channel: 8, channels: 4, bytes_per_texel: 4 }),
        ColorFormat::YUV420 => Some(StorageInfo { bits_per_channel: 8, channels: 1, bytes_per_texel: 1 }),
        ColorFormat::NV12 => Some(StorageInfo { bits_per_channel: 8, channels: 1, bytes_per_texel: 1 }),
        ColorFormat::ARGB16Float => Some(StorageInfo { bits_per_channel: 16, channels: 4, bytes_per_texel: 8 }),
        ColorFormat::ARGB10UNorm => Some(StorageInfo { bits_per_channel: 10, channels: 4, bytes_per_texel: 4 }),
        ColorFormat::Y410 => Some(StorageInfo { bits_per_channel: 10, channels: 4, bytes_per_texel: 4 }),
        ColorFormat::YUV444_10bit => Some(StorageInfo { bits_per_channel: 16, channels: 1, bytes_per_texel: 2 }),
        ColorFormat::YUV420_10bit => Some(StorageInfo { bits_per_channel: 16, channels: 1, bytes_per_texel: 2 }),
    }
}

/// Whether a view typed `v` may be derived over a texture stored in format
/// `f`: either `v` is `f`'s own storage format, or `v` is one of the
/// reinterpretations this crate's passes rely on — the single- and
/// two-channel plane views over a semi-planar allocation, and the
/// four-times-8-bit views over the packed four-channel 8-bit formats.
pub open spec fn spec_view_ok(f: ColorFormat, v: DxgiFormat) -> bool {
    ||| (v == spec_dxgi_of(f) && v != DxgiFormat::Unknown)
    ||| (f == ColorFormat::NV12 && (v == DxgiFormat::R8UNorm || v == DxgiFormat::R8G8UNorm))
    ||| (f == ColorFormat::AYUV && v == DxgiFormat::R8G8B8A8UNorm)
    ||| (f == ColorFormat::ABGR8UNorm && v == DxgiFormat::R8G8B8A8UNorm)
}

/// The storage format of a named format: executable form of
/// [`spec_dxgi_of`].
pub fn dxgi_of(f: ColorFormat) -> (d: DxgiFormat)
    ensures
        d == spec_dxgi_of(f),
{
    match f {
        ColorFormat::Unknown => DxgiFormat::Unknown,
        ColorFormat::ARGB8UNorm => DxgiFormat::R8G8B8A8UNorm,
        ColorFormat::ABGR8UNorm => DxgiFormat::B8G8R8A8UNorm,
        ColorFormat::YUV444 => DxgiFormat::R8UNorm,
        ColorFormat::AYUV => DxgiFormat::AYUV,
        ColorFormat::YUV420 => DxgiFormat::Unknown,
        ColorFormat::NV12 => DxgiFormat::NV12,
        ColorFormat::ARGB16Float => DxgiFormat::R16G16B16A16Float,
        ColorFormat::ARGB10UNorm => DxgiFormat::R10G10B10A2UNorm,
        ColorFormat::Y410 => DxgiFormat::Y410,
        ColorFormat::YUV444_10bit => DxgiFormat::R16UNorm,
        ColorFormat::YUV420_10bit => DxgiFormat::P010,
    }
}

/// The named format of a storage format: executable form of
/// [`spec_format_of_dxgi`].
pub fn format_of_dxgi(d: DxgiFormat) -> (f: ColorFormat)
    ensures
        f == spec_format_of_dxgi(d),
{
    match d {
        DxgiFormat::Unknown => ColorFormat::Unknown,
        DxgiFormat::R8G8B8A8UNorm => ColorFormat::ARGB8UNorm,
        DxgiFormat::B8G8R8A8UNorm => ColorFormat::ABGR8UNorm,
        DxgiFormat::AYUV => ColorFormat::AYUV,
        DxgiFormat::R8UNorm => ColorFormat::YUV444,
        DxgiFormat::R8G8UNorm => ColorFormat::Unknown,
        DxgiFormat::R16UNorm => ColorFormat::YUV444_10bit,
        DxgiFormat::NV12 => ColorFormat::NV12,
        DxgiFormat::R16G16B16A16Float => ColorFormat::ARGB16Float,
        DxgiFormat::R10G10B10A2UNorm => ColorFormat::ARGB10UNorm,
        DxgiFormat::Y410 => ColorFormat::Y410,
        DxgiFormat::P010 => ColorFormat::YUV420_10bit,
    }
}

/// The storage descriptor of a named format: executable form of
/// [`spec_storage_of`].
pub fn storage_of(f: ColorFormat) -> (s: Option<StorageInfo>)
    ensures
        s == spec_storage_of(f),
{
    match f {
        ColorFormat::Unknown => None,
        ColorFormat::ARGB8UNorm => Some(StorageInfo { bits_per_channel: 8, channels: 4, bytes_per_texel: 4 }),
        ColorFormat::ABGR8UNorm => Some(StorageInfo { bits_per_channel: 8, channels: 4, bytes_per_texel: 4 }),
        ColorFormat::YUV444 => Some(StorageInfo { bits_per_channel: 8, channels: 1, bytes_per_texel: 1 }),
        ColorFormat::AYUV => Some(StorageInfo { bits_per_channel: 8, channels: 4, bytes_per_texel: 4 }),
        ColorFormat::YUV420 => Some(StorageInfo { bits_per_channel: 8, channels: 1, bytes_per_texel: 1 }),
        ColorFormat::NV12 => Some(StorageInfo { bits_per_channel: 8, channels: 1, bytes_per_texel: 1 }),
        ColorFormat::ARGB16Float => Some(StorageInfo { bits_per_channel: 16, channels: 4, bytes_per_texel: 8 }),
        ColorFormat::ARGB10UNorm => Some(StorageInfo { bits_per_channel: 10, channels: 4, bytes_per_texel: 4 }),
        ColorFormat::Y410 => Some(StorageInfo { bits_per_channel: 10, channels: 4, bytes_per_texel: 4 }),
        ColorFormat::YUV444_10bit => Some(StorageInfo { bits_per_channel: 16, channels: 1, bytes_per_texel: 2 }),
        ColorFormat::YUV420_10bit => Some(StorageInfo { bits_per_channel: 16, channels: 1, bytes_per_texel: 2 }),
    }
}

/// The format mapping is consistent one way: every named format with a
/// storage mapping is the unique named format of that storage format.
pub proof fn lemma_format_round_trip(f: ColorFormat)
    requires
        spec_dxgi_of(f) != DxgiFormat::Unknown,
    ensures
        spec_format_of_dxgi(spec_dxgi_of(f)) == f,
{
}

/// The format mapping is consistent the other way: every storage format
/// that a named format claims maps back to that storage format.
pub proof fn lemma_dxgi_round_trip(d: DxgiFormat)
    requires
        spec_format_of_dxgi(d) != ColorFormat::Unknown,
    ensures
        spec_dxgi_of(spec_format_of_dxgi(d)) == d,
{
}

/// Every named format with a storage mapping also has a storage
/// descriptor, so a texture can be allocated and strided for it.
pub proof fn lemma_mapped_formats_have_storage(f: ColorFormat)
    requires
        spec_dxgi_of(f) != DxgiFormat::Unknown,
    ensures
        spec_storage_of(f) is Some,
{
}

/// A human-readable name of a format, in spec form.
pub open spec fn spec_format_name(f: ColorFormat) -> Seq<char> {
    match f {
        ColorFormat::Unknown => "Unknown"@,
        ColorFormat::ARGB8UNorm => "ARGB8UNorm"@,
        ColorFormat::ABGR8UNorm => "ABGR8UNorm"@,
        ColorFormat::YUV444 => "YUV444"@,
        ColorFormat::AYUV => "AYUV"@,
        ColorFormat::YUV420 => "YUV420"@,
        ColorFormat::NV12 => "NV12"@,
        ColorFormat::ARGB16Float => "ARGB16Float"@,
        ColorFormat::ARGB10UNorm => "ARGB10UNorm"@,
        ColorFormat::Y410 => "Y410"@,
        ColorFormat::YUV444_10bit => "YUV444_10bit"@,
        ColorFormat::YUV420_10bit => "YUV420_10bit"@,
    }
}

/// A human-readable name of a format, used in error messages.
pub fn format_name(f: ColorFormat) -> (s: &'static str)
    ensures
        s@ == spec_format_name(f),
{
    match f {
        ColorFormat::Unknown => "Unknown",
        ColorFormat::ARGB8UNorm => "ARGB8UNorm",
        ColorFormat::ABGR8UNorm => "ABGR8UNorm",
        ColorFormat::YUV444 => "YUV444",
        ColorFormat::AYUV => "AYUV",
        ColorFormat::YUV420 => "YUV420",
        ColorFormat::NV12 => "NV12",
        ColorFormat::ARGB16Float => "ARGB16Float",
        ColorFormat::ARGB10UNorm => "ARGB10UNorm",
        ColorFormat::Y410 => "Y410",
        ColorFormat::YUV444_10bit => "YUV444_10bit",
        ColorFormat::YUV420_10bit => "YUV420_10bit",
    }
}

} // verus!
