use dxfilter::color::{ColorFormat, DxgiFormat};
use dxfilter::frame::Color;
use dxfilter::pipeline::{DeviceContext, PixelShaderKind, SamplerKind, VertexShaderKind};
use dxfilter::texture::{Texture, TextureDesc};
use dxfilter::{
    ConvertARGBToAYUV, ConvertARGBToNV12, ConvertARGBToYUV444, DxFilter, DxFilterErr,
    ScaleARGBOrAYUV,
};

fn tex(width: u32, height: u32, format: ColorFormat) -> Texture {
    Texture::new(TextureDesc { height, width, format })
}

#[test]
fn test_argb_to_ayuv() {
    let source_color = Color { r: 10, g: 10, b: 10, a: 10 };
    let target_pix: [u8; 4] = [127, 127, 24, 10];

    let input_tex = tex(1920, 1080, ColorFormat::ABGR8UNorm);
    let output_tex = tex(1280, 720, ColorFormat::AYUV);

    let mut filter = ConvertARGBToAYUV::new(&input_tex, &output_tex).unwrap();
    let mut ctx = DeviceContext::new();

    filter.apply_filter(&mut ctx).unwrap();
    let out = filter.render_uniform(source_color);
    assert_eq!(out[0..4], target_pix);

    filter.set_input_tex(&input_tex).unwrap();
    filter.set_output_tex(&output_tex).unwrap();
    filter.apply_filter(&mut ctx).unwrap();
    let out = filter.render_uniform(source_color);
    assert_eq!(out[0..4], target_pix);
}

#[test]
fn test_argb_to_nv12() {
    let source_color = Color { r: 10, g: 10, b: 10, a: 10 };
    let target_pix: [u8; 4] = [127, 127, 24, 10];

    let input_tex = tex(1920, 1080, ColorFormat::ABGR8UNorm);
    let output_tex = tex(1280, 720, ColorFormat::NV12);

    let mut filter = ConvertARGBToNV12::new(&input_tex, &output_tex).unwrap();
    let mut ctx = DeviceContext::new();

    filter.apply_filter(&mut ctx).unwrap();
    let out = filter.render_uniform(source_color);
    assert_eq!(out.len(), 1280 * 720 * 3 / 2);
    assert_eq!(out[0], target_pix[2]);
    assert_eq!(out[1280 * 720..(1280 * 720) + 2], target_pix[0..2]);

    filter.set_input_tex(&input_tex).unwrap();
    filter.set_output_tex(&output_tex).unwrap();
    filter.apply_filter(&mut ctx).unwrap();
    let out = filter.render_uniform(source_color);
    assert_eq!(out.len(), 1280 * 720 * 3 / 2);
    assert_eq!(out[0], target_pix[2]);
    assert_eq!(out[1280 * 720..(1280 * 720) + 2], target_pix[0..2]);
}

#[test]
fn construction_accepts_supported_pairs() {
    let rgb = [ColorFormat::ARGB8UNorm, ColorFormat::ABGR8UNorm];
    for f in rgb {
        assert!(ConvertARGBToAYUV::new(&tex(64, 64, f), &tex(32, 32, ColorFormat::AYUV)).is_ok());
        assert!(ConvertARGBToNV12::new(&tex(64, 64, f), &tex(32, 32, ColorFormat::NV12)).is_ok());
        assert!(
            ConvertARGBToYUV444::new(&tex(64, 64, f), &tex(32, 32, ColorFormat::YUV444)).is_ok()
        );
    }
    let packed = [ColorFormat::ARGB8UNorm, ColorFormat::ABGR8UNorm, ColorFormat::AYUV];
    for fin in packed {
        for fout in packed {
            assert!(ScaleARGBOrAYUV::new(&tex(64, 64, fin), &tex(128, 128, fout)).is_ok());
        }
    }
}

#[test]
fn construction_rejects_bad_input_naming_format() {
    match ConvertARGBToAYUV::new(&tex(64, 64, ColorFormat::NV12), &tex(32, 32, ColorFormat::AYUV))
    {
        Err(DxFilterErr::BadParam(m)) => {
            assert_eq!(m, "expected ARGB or ABGR format found NV12")
        }
        _ => panic!("expected BadParam"),
    }
    match ConvertARGBToNV12::new(&tex(64, 64, ColorFormat::AYUV), &tex(32, 32, ColorFormat::NV12))
    {
        Err(DxFilterErr::BadParam(m)) => {
            assert_eq!(m, "expected ARGB or ABGR format found AYUV")
        }
        _ => panic!("expected BadParam"),
    }
    match ScaleARGBOrAYUV::new(&tex(64, 64, ColorFormat::YUV444), &tex(32, 32, ColorFormat::AYUV))
    {
        Err(DxFilterErr::BadParam(m)) => {
            assert_eq!(m, "expected ARGB, ABGR or AYUV format found YUV444")
        }
        _ => panic!("expected BadParam"),
    }
    // both textures wrong: the input is validated first
    match ConvertARGBToYUV444::new(
        &tex(64, 64, ColorFormat::Y410),
        &tex(32, 32, ColorFormat::NV12),
    ) {
        Err(DxFilterErr::BadParam(m)) => {
            assert_eq!(m, "expected ARGB or ABGR format found Y410")
        }
        _ => panic!("expected BadParam"),
    }
}

#[test]
fn construction_rejects_bad_output_naming_format() {
    match ConvertARGBToAYUV::new(
        &tex(64, 64, ColorFormat::ARGB8UNorm),
        &tex(32, 32, ColorFormat::NV12),
    ) {
        Err(DxFilterErr::BadParam(m)) => assert_eq!(m, "expected AYUV format found NV12"),
        _ => panic!("expected BadParam"),
    }
    match ConvertARGBToNV12::new(
        &tex(64, 64, ColorFormat::ABGR8UNorm),
        &tex(32, 32, ColorFormat::YUV420),
    ) {
        Err(DxFilterErr::BadParam(m)) => assert_eq!(m, "expected NV12 format found YUV420"),
        _ => panic!("expected BadParam"),
    }
    match ScaleARGBOrAYUV::new(
        &tex(64, 64, ColorFormat::AYUV),
        &tex(32, 32, ColorFormat::YUV444_10bit),
    ) {
        Err(DxFilterErr::BadParam(m)) => {
            assert_eq!(m, "expected ARGB, ABGR or AYUV format found YUV444_10bit")
        }
        _ => panic!("expected BadParam"),
    }
    match ConvertARGBToYUV444::new(
        &tex(64, 64, ColorFormat::ARGB8UNorm),
        &tex(32, 32, ColorFormat::AYUV),
    ) {
        Err(DxFilterErr::BadParam(m)) => assert_eq!(m, "expected YUV444 format found AYUV"),
        _ => panic!("expected BadParam"),
    }
}

#[test]
fn rejected_rebind_leaves_filter_unchanged() {
    let input_tex = tex(1920, 1080, ColorFormat::ARGB8UNorm);
    let output_tex = tex(1280, 720, ColorFormat::AYUV);
    let mut filter = ConvertARGBToAYUV::new(&input_tex, &output_tex).unwrap();

    let mut ctx_before = DeviceContext::new();
    filter.apply_filter(&mut ctx_before).unwrap();

    assert!(filter.set_input_tex(&tex(8, 8, ColorFormat::NV12)).is_err());
    assert!(filter.set_output_tex(&tex(8, 8, ColorFormat::ABGR8UNorm)).is_err());

    let mut ctx_after = DeviceContext::new();
    filter.apply_filter(&mut ctx_after).unwrap();
    assert_eq!(ctx_before.passes, ctx_after.passes);
}

#[test]
fn rebind_matches_reconstruction() {
    let source_color = Color { r: 200, g: 30, b: 60, a: 9 };

    let in1 = tex(1920, 1080, ColorFormat::ABGR8UNorm);
    let out1 = tex(1280, 720, ColorFormat::AYUV);
    let in2 = tex(640, 480, ColorFormat::ARGB8UNorm);
    let out2 = tex(320, 240, ColorFormat::AYUV);

    let mut rebound = ConvertARGBToAYUV::new(&in1, &out1).unwrap();
    rebound.set_input_tex(&in2).unwrap();
    rebound.set_output_tex(&out2).unwrap();
    let fresh = ConvertARGBToAYUV::new(&in2, &out2).unwrap();

    let mut ctx_rebound = DeviceContext::new();
    let mut ctx_fresh = DeviceContext::new();
    rebound.apply_filter(&mut ctx_rebound).unwrap();
    fresh.apply_filter(&mut ctx_fresh).unwrap();
    assert_eq!(ctx_rebound.passes, ctx_fresh.passes);
    assert_eq!(rebound.render_uniform(source_color), fresh.render_uniform(source_color));
}

#[test]
fn rebind_matches_reconstruction_scale() {
    // crossing formats as well as resolutions: the rebound views must be
    // recomputed exactly as construction derives them
    let texel = [1u8, 2, 3, 4];

    let in1 = tex(1920, 1080, ColorFormat::ARGB8UNorm);
    let out1 = tex(1280, 720, ColorFormat::ARGB8UNorm);
    let in2 = tex(640, 360, ColorFormat::AYUV);
    let out2 = tex(1920, 1080, ColorFormat::ABGR8UNorm);

    let mut rebound = ScaleARGBOrAYUV::new(&in1, &out1).unwrap();
    rebound.set_input_tex(&in2).unwrap();
    rebound.set_output_tex(&out2).unwrap();
    let fresh = ScaleARGBOrAYUV::new(&in2, &out2).unwrap();

    let mut ctx_rebound = DeviceContext::new();
    let mut ctx_fresh = DeviceContext::new();
    rebound.apply_filter(&mut ctx_rebound).unwrap();
    fresh.apply_filter(&mut ctx_fresh).unwrap();
    assert_eq!(ctx_rebound.passes, ctx_fresh.passes);
    assert_eq!(rebound.render_uniform(&texel), fresh.render_uniform(&texel));
}

#[test]
fn apply_twice_is_idempotent() {
    let source_color = Color { r: 10, g: 10, b: 10, a: 10 };
    let input_tex = tex(1920, 1080, ColorFormat::ABGR8UNorm);
    let output_tex = tex(1280, 720, ColorFormat::NV12);
    let filter = ConvertARGBToNV12::new(&input_tex, &output_tex).unwrap();

    let mut ctx = DeviceContext::new();
    filter.apply_filter(&mut ctx).unwrap();
    let first = filter.render_uniform(source_color);
    filter.apply_filter(&mut ctx).unwrap();
    let second = filter.render_uniform(source_color);

    // the second application issued exactly the passes of the first
    let n = ctx.passes.len() / 2;
    assert_eq!(ctx.passes[..n], ctx.passes[n..]);
    // and the output bytes are identical both times
    assert_eq!(first, second);
}

#[test]
fn ayuv_output_replicates_texel() {
    let source_color = Color { r: 10, g: 10, b: 10, a: 10 };
    let input_tex = tex(1920, 1080, ColorFormat::ARGB8UNorm);
    let output_tex = tex(1280, 720, ColorFormat::AYUV);
    let filter = ConvertARGBToAYUV::new(&input_tex, &output_tex).unwrap();

    let out = filter.render_uniform(source_color);
    assert_eq!(out.len(), 1280 * 720 * 4);
    for texel in out.chunks_exact(4) {
        assert_eq!(texel, [127, 127, 24, 10]);
    }
}

#[test]
fn nv12_chroma_plane_offset_and_size() {
    let source_color = Color { r: 200, g: 30, b: 60, a: 9 };
    let input_tex = tex(1920, 1080, ColorFormat::ARGB8UNorm);
    let output_tex = tex(1280, 720, ColorFormat::NV12);
    let filter = ConvertARGBToNV12::new(&input_tex, &output_tex).unwrap();

    let out = filter.render_uniform(source_color);
    assert_eq!(out.len(), 1280 * 720 * 3 / 2);
    // luma plane: rows [0, 720) of width 1280
    for &b in &out[..1280 * 720] {
        assert_eq!(b, 88);
    }
    // interleaved chroma plane right after it, U before V
    for pair in out[1280 * 720..].chunks_exact(2) {
        assert_eq!(pair, [115, 200]);
    }
}

#[test]
fn scale_preserves_uniform_color() {
    let texel = [10u8, 10, 10, 10];
    let shapes = [
        (1920u32, 1080u32, 1280u32, 720u32, ColorFormat::ARGB8UNorm),
        (640, 360, 1920, 1080, ColorFormat::AYUV),
        (333, 777, 1024, 17, ColorFormat::ABGR8UNorm),
    ];
    for (iw, ih, ow, oh, f) in shapes {
        let filter = ScaleARGBOrAYUV::new(&tex(iw, ih, f), &tex(ow, oh, f)).unwrap();
        let out = filter.render_uniform(&texel);
        // fully populated, and no color drift at any scale ratio
        assert_eq!(out.len(), (ow * oh * 4) as usize);
        for t in out.chunks_exact(4) {
            assert_eq!(t, texel);
        }
    }
}

#[test]
fn yuv444_plane_bands() {
    let source_color = Color { r: 200, g: 30, b: 60, a: 9 };
    let input_tex = tex(1920, 1080, ColorFormat::ABGR8UNorm);
    let output_tex = tex(1280, 720, ColorFormat::YUV444);
    let filter = ConvertARGBToYUV444::new(&input_tex, &output_tex).unwrap();

    let out = filter.render_uniform(source_color);
    let plane = 1280 * 720;
    assert_eq!(out.len(), 3 * plane);
    // luma rows [0, H), chroma-U rows [H, 2H), chroma-V rows [2H, 3H):
    // uniform but distinct bytes in each band
    for &b in &out[..plane] {
        assert_eq!(b, 88);
    }
    for &b in &out[plane..2 * plane] {
        assert_eq!(b, 115);
    }
    for &b in &out[2 * plane..] {
        assert_eq!(b, 200);
    }
}

#[test]
fn plan_pins_views_and_viewports() {
    let input_tex = tex(1920, 1080, ColorFormat::ABGR8UNorm);
    let out_nv12 = tex(1280, 720, ColorFormat::NV12);
    let filter = ConvertARGBToNV12::new(&input_tex, &out_nv12).unwrap();
    let mut ctx = DeviceContext::new();
    filter.apply_filter(&mut ctx).unwrap();
    assert_eq!(ctx.passes.len(), 2);
    // luma first: full-resolution single-channel target
    assert_eq!(ctx.passes[0].ps, PixelShaderKind::RgbToY);
    assert_eq!(ctx.passes[0].target.format, DxgiFormat::R8UNorm);
    assert_eq!((ctx.passes[0].viewport.width, ctx.passes[0].viewport.height), (1280, 720));
    // chroma second: half-resolution two-channel target aliasing the same
    // output allocation
    assert_eq!(ctx.passes[1].ps, PixelShaderKind::RgbToUv);
    assert_eq!(ctx.passes[1].target.format, DxgiFormat::R8G8UNorm);
    assert_eq!(ctx.passes[1].target.tex, ctx.passes[0].target.tex);
    assert_eq!((ctx.passes[1].viewport.width, ctx.passes[1].viewport.height), (640, 360));
    // both passes sample the input at its native four-channel format
    assert_eq!(ctx.passes[0].source.format, DxgiFormat::B8G8R8A8UNorm);
    assert_eq!(ctx.passes[1].source, ctx.passes[0].source);
    assert_eq!(ctx.passes[0].sampler, SamplerKind::LinearClamp);
    assert_eq!(ctx.passes[0].vs, VertexShaderKind::FullScreenQuad);

    let out444 = tex(1280, 720, ColorFormat::YUV444);
    let filter = ConvertARGBToYUV444::new(&input_tex, &out444).unwrap();
    let mut ctx = DeviceContext::new();
    filter.apply_filter(&mut ctx).unwrap();
    assert_eq!(ctx.passes.len(), 1);
    // one pass covers the three stacked planes: three times the nominal height
    assert_eq!((ctx.passes[0].viewport.width, ctx.passes[0].viewport.height), (1280, 2160));
    assert_eq!(ctx.passes[0].target.format, DxgiFormat::R8UNorm);
    assert_eq!(ctx.passes[0].ps, PixelShaderKind::RgbToYuvPlanes);
}
