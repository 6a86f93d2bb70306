use dxfilter::color::{ColorFormat, DxgiFormat, dxgi_of, format_name, format_of_dxgi, storage_of};
use dxfilter::texture::{BindFlag, TextureDesc, input_texture_request, output_texture_request};
use dxfilter::yuv::{chroma_u, chroma_v, luma};
use dxfilter::DxFilterErr;

#[test]
fn format_mapping_round_trips() {
    let mapped = [
        ColorFormat::ARGB8UNorm,
        ColorFormat::ABGR8UNorm,
        ColorFormat::YUV444,
        ColorFormat::AYUV,
        ColorFormat::NV12,
        ColorFormat::ARGB16Float,
        ColorFormat::ARGB10UNorm,
        ColorFormat::Y410,
        ColorFormat::YUV444_10bit,
        ColorFormat::YUV420_10bit,
    ];
    for f in mapped {
        assert_ne!(dxgi_of(f), DxgiFormat::Unknown);
        assert_eq!(format_of_dxgi(dxgi_of(f)), f);
    }
    // the planar 4:2:0 format has no storage mapping of its own
    assert_eq!(dxgi_of(ColorFormat::YUV420), DxgiFormat::Unknown);
    // the two-channel plane view names no texture format
    assert_eq!(format_of_dxgi(DxgiFormat::R8G8UNorm), ColorFormat::Unknown);
}

#[test]
fn storage_descriptors() {
    let s = storage_of(ColorFormat::ABGR8UNorm).unwrap();
    assert_eq!((s.bits_per_channel, s.channels, s.bytes_per_texel), (8, 4, 4));
    let s = storage_of(ColorFormat::NV12).unwrap();
    assert_eq!((s.bits_per_channel, s.channels, s.bytes_per_texel), (8, 1, 1));
    let s = storage_of(ColorFormat::ARGB16Float).unwrap();
    assert_eq!((s.bits_per_channel, s.channels, s.bytes_per_texel), (16, 4, 8));
    let s = storage_of(ColorFormat::YUV420_10bit).unwrap();
    assert_eq!((s.bits_per_channel, s.channels, s.bytes_per_texel), (16, 1, 2));
    let s = storage_of(ColorFormat::Y410).unwrap();
    assert_eq!((s.bits_per_channel, s.channels, s.bytes_per_texel), (10, 4, 4));
    assert!(storage_of(ColorFormat::Unknown).is_none());
}

#[test]
fn format_names() {
    assert_eq!(format_name(ColorFormat::AYUV), "AYUV");
    assert_eq!(format_name(ColorFormat::YUV444_10bit), "YUV444_10bit");
    assert_eq!(format_name(ColorFormat::Unknown), "Unknown");
}

#[test]
fn texture_requests_carry_pitch_and_rows() {
    let req = input_texture_request(&TextureDesc {
        height: 1080,
        width: 1920,
        format: ColorFormat::ABGR8UNorm,
    })
    .unwrap();
    assert_eq!(req.bind, BindFlag::ShaderResource);
    assert_eq!(req.row_pitch, 1920 * 4);
    assert_eq!(req.alloc_rows, 1080);

    let req = output_texture_request(&TextureDesc {
        height: 720,
        width: 1280,
        format: ColorFormat::NV12,
    })
    .unwrap();
    assert_eq!(req.bind, BindFlag::RenderTarget);
    assert_eq!(req.row_pitch, 1280);
    assert_eq!(req.alloc_rows, 720);

    // a plane-stacked allocation spans three times its nominal height
    let req = output_texture_request(&TextureDesc {
        height: 720,
        width: 1280,
        format: ColorFormat::YUV444,
    })
    .unwrap();
    assert_eq!(req.row_pitch, 1280);
    assert_eq!(req.alloc_rows, 2160);

    let req = output_texture_request(&TextureDesc {
        height: 10,
        width: 10,
        format: ColorFormat::ARGB16Float,
    })
    .unwrap();
    assert_eq!(req.row_pitch, 80);

    let req = input_texture_request(&TextureDesc {
        height: 10,
        width: 10,
        format: ColorFormat::YUV444_10bit,
    })
    .unwrap();
    assert_eq!(req.row_pitch, 20);
    assert_eq!(req.alloc_rows, 30);
}

#[test]
fn texture_request_rejects_unknown_format() {
    match input_texture_request(&TextureDesc {
        height: 8,
        width: 8,
        format: ColorFormat::Unknown,
    }) {
        Err(DxFilterErr::BadParam(m)) => assert_eq!(m, "unexpected texture format"),
        _ => panic!("expected BadParam"),
    }
    match output_texture_request(&TextureDesc {
        height: 8,
        width: 8,
        format: ColorFormat::Unknown,
    }) {
        Err(DxFilterErr::BadParam(m)) => assert_eq!(m, "unexpected texture format"),
        _ => panic!("expected BadParam"),
    }
}

#[test]
fn color_matrix_reference_values() {
    // grey: both chroma bytes sit one truncation step under the midpoint
    assert_eq!((luma(10, 10, 10), chroma_u(10, 10, 10), chroma_v(10, 10, 10)), (24, 127, 127));
    // black and white: the limited-range luma extremes
    assert_eq!((luma(0, 0, 0), chroma_u(0, 0, 0), chroma_v(0, 0, 0)), (16, 127, 127));
    assert_eq!(
        (luma(255, 255, 255), chroma_u(255, 255, 255), chroma_v(255, 255, 255)),
        (235, 127, 127)
    );
    // saturated primaries
    assert_eq!((luma(255, 0, 0), chroma_u(255, 0, 0), chroma_v(255, 0, 0)), (81, 89, 239));
    assert_eq!((luma(0, 255, 0), chroma_u(0, 255, 0), chroma_v(0, 255, 0)), (144, 53, 33));
    assert_eq!((luma(0, 0, 255), chroma_u(0, 0, 255), chroma_v(0, 0, 255)), (40, 239, 109));
}
