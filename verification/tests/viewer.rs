use disparity_map::block::{block_on, block_on_counted, CountdownTask};
use disparity_map::ctx::{
    BindGroupLayoutDesc, Color, Ctx, Extent, RenderStep, SurfaceCaps, SurfaceErrorKind,
    SurfaceFormat, choose_surface_format, surface_error_recoverable,
};
use disparity_map::display::{App, DispatchAction, WindowEventKind};
use disparity_map::normalize::decoded_png_u16_to_grayscale_u8;
use disparity_map::png_codec::{bytes_be_to_u16, encode_png_gray8};
use disparity_map::{decode_png, greet, PngError};

fn test_caps() -> SurfaceCaps {
    SurfaceCaps {
        formats: vec![
            SurfaceFormat { id: 10, srgb: false },
            SurfaceFormat { id: 11, srgb: true },
            SurfaceFormat { id: 12, srgb: true },
        ],
        present_modes: vec![3, 1],
        alpha_modes: vec![7, 2],
    }
}

fn samples_4x4() -> Vec<u16> {
    // 16 samples, min 100, max 400, range 300: sample i is 100 + 20 * i,
    // so it normalizes exactly to 17 * i.
    (0u16..16).map(|i| 100 + 20 * i).collect()
}

fn png_16bit_gray(samples: &[u16], width: u32, height: u32) -> Vec<u8> {
    let mut out: Vec<u8> = Vec::new();
    let mut encoder = png::Encoder::new(std::io::Cursor::new(&mut out), width, height);
    encoder.set_color(png::ColorType::Grayscale);
    encoder.set_depth(png::BitDepth::Sixteen);
    let mut writer = encoder.write_header().unwrap();
    let bytes: Vec<u8> = samples
        .iter()
        .flat_map(|s| [(s >> 8) as u8, (s & 0xff) as u8])
        .collect();
    writer.write_image_data(&bytes).unwrap();
    writer.finish().unwrap();
    out
}

#[test]
fn normalize_length_matches_input() {
    let buf = vec![9u16, 7, 7, 7, 65535, 0, 3];
    assert_eq!(decoded_png_u16_to_grayscale_u8(&buf).len(), buf.len());
    assert_eq!(decoded_png_u16_to_grayscale_u8(&[42]).len(), 1);
}

#[test]
fn normalize_maps_extrema_to_full_range() {
    let out = decoded_png_u16_to_grayscale_u8(&[100, 300, 200]);
    assert_eq!(out, vec![0, 255, 127]);
}

#[test]
fn normalize_flat_buffer_maps_to_zero() {
    let out = decoded_png_u16_to_grayscale_u8(&[500, 500, 500]);
    assert_eq!(out, vec![0, 0, 0]);
}

#[test]
fn normalize_full_u16_range() {
    let out = decoded_png_u16_to_grayscale_u8(&[0, 65535, 32768]);
    assert_eq!(out[0], 0);
    assert_eq!(out[1], 255);
    assert_eq!(out[2], 127);
}

#[test]
fn normalize_single_sample_is_zero() {
    assert_eq!(decoded_png_u16_to_grayscale_u8(&[12345]), vec![0]);
}

#[test]
fn block_on_resolved_returns_immediately() {
    let task = CountdownTask { pending: 0, result: 77 };
    assert_eq!(block_on(task), 77);
    let (value, polls) = block_on_counted(CountdownTask { pending: 0, result: 8 });
    assert_eq!((value, polls), (8, 1));
}

#[test]
fn block_on_pending_resolves_after_exact_polls() {
    let (value, polls) = block_on_counted(CountdownTask { pending: 5, result: 123 });
    assert_eq!(value, 123);
    assert_eq!(polls, 6);
}

#[test]
fn be_pairs_assemble_big_endian() {
    assert_eq!(bytes_be_to_u16(&[0x01, 0x02, 0x03, 0x04]), vec![0x0102, 0x0304]);
    // A trailing odd byte carries no full sample.
    assert_eq!(bytes_be_to_u16(&[0xff, 0x00, 0xaa]), vec![0xff00]);
    assert_eq!(bytes_be_to_u16(&[]), Vec::<u16>::new());
}

#[test]
fn decode_png_roundtrips_16bit_samples() {
    let samples = samples_4x4();
    let data = png_16bit_gray(&samples, 4, 4);
    let (decoded, width, height) = decode_png(&data).unwrap();
    assert_eq!((width, height), (4, 4));
    assert_eq!(decoded, samples);
}

#[test]
fn decode_png_rejects_garbage() {
    assert_eq!(decode_png(&[1, 2, 3, 4]), Err(PngError::Decode));
    assert_eq!(decode_png(&[]), Err(PngError::Decode));
}

#[test]
fn decode_png_rejects_8bit_depth() {
    let encoded = encode_png_gray8(&[0, 128, 255, 64], 2, 2).unwrap();
    assert_eq!(decode_png(&encoded), Err(PngError::UnsupportedBitDepth));
}

#[test]
fn encode_png_gray8_rejects_bad_dimensions() {
    assert_eq!(encode_png_gray8(&[1, 2, 3], 2, 2), Err(PngError::Dimensions));
    assert_eq!(encode_png_gray8(&[], 0, 4), Err(PngError::Dimensions));
    assert_eq!(encode_png_gray8(&[1], 1, 0), Err(PngError::Dimensions));
}

#[test]
fn encode_png_gray8_roundtrips_through_decoder() {
    let payload = vec![0u8, 17, 34, 255];
    let encoded = encode_png_gray8(&payload, 2, 2).unwrap();
    let decoder = png::Decoder::new(std::io::Cursor::new(encoded.as_slice()));
    let mut reader = decoder.read_info().unwrap();
    let mut buf = vec![0u8; reader.output_buffer_size().unwrap()];
    let info = reader.next_frame(&mut buf).unwrap();
    assert_eq!((info.width, info.height), (2, 2));
    assert_eq!(info.bit_depth, png::BitDepth::Eight);
    assert_eq!(&buf[..info.buffer_size()], payload.as_slice());
}

#[test]
fn choose_format_prefers_first_srgb() {
    let caps = test_caps();
    assert_eq!(choose_surface_format(&caps.formats), SurfaceFormat { id: 11, srgb: true });
}

#[test]
fn choose_format_falls_back_to_first() {
    let formats = vec![
        SurfaceFormat { id: 4, srgb: false },
        SurfaceFormat { id: 5, srgb: false },
    ];
    assert_eq!(choose_surface_format(&formats), SurfaceFormat { id: 4, srgb: false });
}

#[test]
fn context_construction_configures_surface_and_texture() {
    let samples = samples_4x4();
    let ctx = Ctx::new(&test_caps(), Extent { width: 800, height: 600 }, &samples, 4, 4);
    assert_eq!(ctx.config.format, SurfaceFormat { id: 11, srgb: true });
    assert_eq!((ctx.config.width, ctx.config.height), (800, 600));
    assert_eq!(ctx.config.present_mode, 3);
    assert_eq!(ctx.config.alpha_mode, 7);
    assert_eq!(ctx.texture.size, Extent { width: 4, height: 4 });
    assert!(ctx.texture.single_channel_8bit);
    assert_eq!(ctx.upload.bytes_per_row, 4);
    assert_eq!(ctx.upload.rows_per_image, 4);
    assert_eq!(ctx.upload.offset, 0);
    assert_eq!(ctx.bind_group.layout, BindGroupLayoutDesc {
        texture_binding: 0,
        sampler_binding: 1,
        fragment_visible: true,
    });
    assert!(ctx.bind_group.sampler.filter_nearest);
    assert!(ctx.bind_group.sampler.clamp_to_edge);
    assert_eq!(ctx.pipeline.target_format, ctx.config.format);
}

#[test]
fn end_to_end_png_to_upload_buffer() {
    // A 4×4 16-bit PNG with extrema 100 and 400 lands in the texture
    // upload as the hand-computed normalization 17 * i.
    let samples = samples_4x4();
    let data = png_16bit_gray(&samples, 4, 4);
    let (decoded, width, height) = decode_png(&data).unwrap();
    let ctx = Ctx::new(&test_caps(), Extent { width: 640, height: 480 }, &decoded, width, height);
    let expected: Vec<u8> = (0u16..16).map(|i| (17 * i) as u8).collect();
    assert_eq!(ctx.upload.bytes, expected);
    assert!(ctx.draw(Ok(())).is_ok());
}

#[test]
fn resize_degenerate_is_ignored() {
    let samples = samples_4x4();
    let mut ctx = Ctx::new(&test_caps(), Extent { width: 800, height: 600 }, &samples, 4, 4);
    assert!(!ctx.resize(Extent { width: 0, height: 300 }));
    assert_eq!(ctx.size, Extent { width: 800, height: 600 });
    assert_eq!((ctx.config.width, ctx.config.height), (800, 600));
    assert!(!ctx.resize(Extent { width: 300, height: 0 }));
    assert_eq!(ctx.size, Extent { width: 800, height: 600 });
    assert_eq!((ctx.config.width, ctx.config.height), (800, 600));
}

#[test]
fn resize_twice_to_same_size_is_idempotent() {
    let samples = samples_4x4();
    let mut ctx = Ctx::new(&test_caps(), Extent { width: 800, height: 600 }, &samples, 4, 4);
    assert!(ctx.resize(Extent { width: 1024, height: 768 }));
    let config_first = ctx.config;
    let size_first = ctx.size;
    assert!(ctx.resize(Extent { width: 1024, height: 768 }));
    assert_eq!(ctx.config, config_first);
    assert_eq!(ctx.size, size_first);
    assert_eq!((ctx.config.width, ctx.config.height), (1024, 768));
}

#[test]
fn draw_emits_fixed_plan_on_success() {
    let samples = samples_4x4();
    let ctx = Ctx::new(&test_caps(), Extent { width: 800, height: 600 }, &samples, 4, 4);
    let plan = ctx.draw(Ok(())).unwrap();
    assert_eq!(plan, vec![
        RenderStep::BeginPass(Color { r: 255, g: 0, b: 0, a: 255 }),
        RenderStep::SetPipeline,
        RenderStep::SetBindGroup,
        RenderStep::Draw { vertices: 6, instances: 1 },
        RenderStep::EndPass,
        RenderStep::Submit,
        RenderStep::Present,
    ]);
}

#[test]
fn draw_hands_back_acquisition_failure() {
    let samples = samples_4x4();
    let ctx = Ctx::new(&test_caps(), Extent { width: 800, height: 600 }, &samples, 4, 4);
    assert_eq!(ctx.draw(Err(SurfaceErrorKind::Lost)), Err(SurfaceErrorKind::Lost));
    assert_eq!(ctx.draw(Err(SurfaceErrorKind::OutOfMemory)), Err(SurfaceErrorKind::OutOfMemory));
}

#[test]
fn surface_errors_classified() {
    assert!(surface_error_recoverable(SurfaceErrorKind::Lost));
    assert!(surface_error_recoverable(SurfaceErrorKind::Outdated));
    assert!(!surface_error_recoverable(SurfaceErrorKind::Timeout));
    assert!(!surface_error_recoverable(SurfaceErrorKind::OutOfMemory));
    assert!(!surface_error_recoverable(SurfaceErrorKind::Other));
}

#[test]
fn dispatcher_creates_context_once() {
    let mut app = App::new();
    assert_eq!(app.resumed(), DispatchAction::CreateContext);
    assert_eq!(app.resumed(), DispatchAction::Idle);
}

#[test]
fn dispatcher_ignores_events_before_context() {
    let mut app = App::new();
    assert_eq!(
        app.window_event(WindowEventKind::Resized(Extent { width: 5, height: 5 })),
        DispatchAction::Idle
    );
    assert_eq!(app.window_event(WindowEventKind::RedrawRequested), DispatchAction::Idle);
    assert_eq!(app.window_event(WindowEventKind::Other), DispatchAction::Idle);
    assert_eq!(app.window_event(WindowEventKind::CloseRequested), DispatchAction::Exit);
}

#[test]
fn dispatcher_forwards_events_once_ready() {
    let samples = samples_4x4();
    let ctx = Ctx::new(&test_caps(), Extent { width: 800, height: 600 }, &samples, 4, 4);
    let mut app = App::new();
    app.resumed();
    app.install_ctx(ctx);
    let action = app.window_event(WindowEventKind::Resized(Extent { width: 320, height: 200 }));
    match action {
        DispatchAction::ReconfigureAndRedraw(config) => {
            assert_eq!((config.width, config.height), (320, 200));
        },
        other => panic!("expected a reconfigure, got {:?}", other),
    }
    assert_eq!(
        app.window_event(WindowEventKind::Resized(Extent { width: 0, height: 200 })),
        DispatchAction::RequestRedraw
    );
    assert_eq!(app.window_event(WindowEventKind::RedrawRequested), DispatchAction::Draw);
    assert_eq!(app.window_event(WindowEventKind::Other), DispatchAction::Idle);
    assert_eq!(app.window_event(WindowEventKind::CloseRequested), DispatchAction::Exit);
}

#[test]
fn dispatcher_digests_draw_outcomes() {
    let samples = samples_4x4();
    let ctx = Ctx::new(&test_caps(), Extent { width: 800, height: 600 }, &samples, 4, 4);
    let mut app = App::new();
    app.resumed();
    app.install_ctx(ctx);
    assert_eq!(app.after_draw(Ok(())), DispatchAction::Idle);
    match app.after_draw(Err(SurfaceErrorKind::Outdated)) {
        DispatchAction::ReconfigureAndRedraw(config) => {
            assert_eq!((config.width, config.height), (800, 600));
        },
        other => panic!("expected a reconfigure, got {:?}", other),
    }
    assert_eq!(app.after_draw(Err(SurfaceErrorKind::OutOfMemory)), DispatchAction::Exit);
}

#[test]
fn greet_formats_name() {
    assert_eq!(greet("Melvil"), "Hello, Melvil from Rust+WASM!");
    assert_eq!(greet(""), "Hello,  from Rust+WASM!");
}
