use snake_3d_engine::driver::{Command, Driver, Event, LoopState};
use snake_3d_engine::format::{choose_format_index, select_surface_format, srgb_flags, InitError};
use snake_3d_engine::frame::{classify, plan_frame, AcquireFailure, DrawCall, RenderError, StoreOp};
use snake_3d_engine::pipeline::{
    build_pipeline, Blend, ColorWrites, Face, FrontFace, PolygonMode, Topology,
};
use snake_3d_engine::surface::{AlphaMode, ConfigError, PresentMode, SurfaceSettings, SurfaceUsage};
use snake_3d_engine::vertex::{
    triangle_buffer_contents, vertex_buffer_contents, vertices, AttributeFormat, StepMode, Vertex,
};
use wgpu::TextureFormat;

fn positions() -> Vec<[f32; 3]> {
    vertices()
        .iter()
        .map(|v| {
            [
                f32::from_bits(v.position[0]),
                f32::from_bits(v.position[1]),
                f32::from_bits(v.position[2]),
            ]
        })
        .collect()
}

#[test]
fn first_srgb_flag_is_chosen() {
    assert_eq!(choose_format_index(&vec![false, true, true]), Some(1));
    assert_eq!(choose_format_index(&vec![true, false]), Some(0));
}

#[test]
fn first_format_chosen_without_srgb() {
    assert_eq!(choose_format_index(&vec![false, false, false]), Some(0));
}

#[test]
fn no_format_offered_chooses_nothing() {
    assert_eq!(choose_format_index(&vec![]), None);
}

#[test]
fn srgb_flags_follow_formats() {
    let formats = vec![
        TextureFormat::Bgra8Unorm,
        TextureFormat::Bgra8UnormSrgb,
        TextureFormat::Rgba16Float,
    ];
    assert_eq!(srgb_flags(&formats), vec![false, true, false]);
}

#[test]
fn select_prefers_first_srgb_format() {
    let formats = vec![
        TextureFormat::Rgba16Float,
        TextureFormat::Bgra8UnormSrgb,
        TextureFormat::Rgba8UnormSrgb,
    ];
    assert_eq!(select_surface_format(&formats), Ok(TextureFormat::Bgra8UnormSrgb));
}

#[test]
fn driver_configures_first_srgb_format() {
    let d = Driver::from_formats(&vec![
        TextureFormat::Rgba8Unorm,
        TextureFormat::Rgba8UnormSrgb,
        TextureFormat::Bgra8UnormSrgb,
    ])
    .unwrap();
    assert_eq!(d.settings.format, TextureFormat::Rgba8UnormSrgb);
    assert_eq!(d.pipeline.color_format, TextureFormat::Rgba8UnormSrgb);
}

#[test]
fn select_falls_back_to_first_format() {
    let formats = vec![TextureFormat::Rgba8Unorm, TextureFormat::Bgra8Unorm];
    assert_eq!(select_surface_format(&formats), Ok(TextureFormat::Rgba8Unorm));
}

#[test]
fn select_refuses_empty_offer() {
    assert_eq!(select_surface_format(&vec![]), Err(InitError::NoSurfaceFormat));
    assert!(matches!(Driver::from_formats(&vec![]), Err(InitError::NoSurfaceFormat)));
}

#[test]
fn triangle_has_literal_points() {
    assert_eq!(
        positions(),
        vec![[0.0, 0.5, 0.0], [-0.5, -0.5, 0.0], [0.5, -0.5, 0.0]]
    );
}

#[test]
fn vertex_buffer_holds_triangle_bytes() {
    let mut expected: Vec<u8> = Vec::new();
    for p in [[0.0f32, 0.5, 0.0], [-0.5, -0.5, 0.0], [0.5, -0.5, 0.0]] {
        for c in p {
            expected.extend_from_slice(&c.to_le_bytes());
        }
    }
    let bytes = triangle_buffer_contents();
    assert_eq!(bytes.len(), 36);
    assert_eq!(bytes, expected);
}

#[test]
fn vertex_buffer_of_no_vertices_is_empty() {
    assert_eq!(vertex_buffer_contents(&vec![]), Vec::<u8>::new());
    let one = vec![Vertex { position: [0x0102_0304, 0, 0xFF00_0000] }];
    assert_eq!(
        vertex_buffer_contents(&one),
        vec![4, 3, 2, 1, 0, 0, 0, 0, 0, 0, 0, 0xFF]
    );
}

#[test]
fn vertex_layout_is_one_float3_position() {
    let l = Vertex::desc();
    assert_eq!(l.array_stride, 12);
    assert_eq!(l.step_mode, StepMode::Vertex);
    assert_eq!(l.attributes.len(), 1);
    assert_eq!(l.attributes[0].offset, 0);
    assert_eq!(l.attributes[0].shader_location, 0);
    assert_eq!(l.attributes[0].format, AttributeFormat::Float32x3);
}

#[test]
fn initial_configuration() {
    let s = SurfaceSettings::initial(TextureFormat::Bgra8UnormSrgb);
    assert_eq!(s.usage, SurfaceUsage::RenderAttachment);
    assert_eq!(s.format, TextureFormat::Bgra8UnormSrgb);
    assert_eq!((s.width, s.height), (800, 600));
    assert_eq!(s.present_mode, PresentMode::Fifo);
    assert_eq!(s.desired_maximum_frame_latency, 3);
    assert_eq!(s.alpha_mode, AlphaMode::Auto);
    assert!(s.view_formats.is_empty());
}

#[test]
fn resize_sets_size() {
    let mut s = SurfaceSettings::initial(TextureFormat::Bgra8UnormSrgb);
    let before = s;
    assert_eq!(s.resize(1024, 768), Ok(true));
    assert_eq!((s.width, s.height), (1024, 768));
    assert_eq!(s.format, before.format);
    assert_eq!(s.present_mode, before.present_mode);
}

#[test]
fn resize_to_same_size_is_no_op() {
    let mut s = SurfaceSettings::initial(TextureFormat::Bgra8UnormSrgb);
    let before = s;
    assert_eq!(s.resize(800, 600), Ok(false));
    assert_eq!(s, before);
}

#[test]
fn resize_to_zero_is_refused() {
    let mut s = SurfaceSettings::initial(TextureFormat::Bgra8UnormSrgb);
    let before = s;
    assert_eq!(s.resize(0, 600), Err(ConfigError::ZeroSize));
    assert_eq!(s.resize(800, 0), Err(ConfigError::ZeroSize));
    assert_eq!(s, before);
}

#[test]
fn pipeline_is_pinned_to_surface_format() {
    let s = SurfaceSettings::initial(TextureFormat::Rgba8UnormSrgb);
    let p = build_pipeline(&s);
    assert_eq!(p.color_format, TextureFormat::Rgba8UnormSrgb);
    assert_eq!(p.vertex_entry, "vs_main");
    assert_eq!(p.fragment_entry, "fs_main");
    assert_eq!(p.bind_group_count, 0);
    assert_eq!(p.push_constant_range_count, 0);
    assert_eq!(
        p.write_mask,
        ColorWrites { red: true, green: true, blue: true, alpha: true }
    );
    assert_eq!(p.vertex_layout, Vertex::desc());
    assert_eq!(p.blend, Blend::Replace);
    assert_eq!(p.topology, Topology::TriangleList);
    assert_eq!(p.front_face, FrontFace::Ccw);
    assert_eq!(p.cull_mode, Some(Face::Back));
    assert_eq!(p.polygon_mode, PolygonMode::Fill);
    assert!(!p.depth_stencil);
    assert_eq!(p.sample_count, 1);
}

#[test]
fn frame_clears_and_draws_once() {
    let s = SurfaceSettings::initial(TextureFormat::Bgra8UnormSrgb);
    let f = plan_frame(&s);
    assert_eq!((f.width, f.height), (800, 600));
    assert_eq!(f.format, TextureFormat::Bgra8UnormSrgb);
    let clear: Vec<f64> = f.clear.iter().map(|b| f64::from_bits(*b)).collect();
    assert_eq!(clear, vec![0.1, 0.2, 0.3, 1.0]);
    assert_eq!(f.store, StoreOp::Store);
    assert!(!f.depth_stencil_attachment);
    assert_eq!(f.vertex_slot, 0);
    assert_eq!(
        f.draw,
        DrawCall { vertex_start: 0, vertex_end: 3, instance_start: 0, instance_end: 1 }
    );
}

#[test]
fn failures_are_classified() {
    assert_eq!(classify(AcquireFailure::Lost), RenderError::Recoverable(AcquireFailure::Lost));
    assert_eq!(
        classify(AcquireFailure::Outdated),
        RenderError::Recoverable(AcquireFailure::Outdated)
    );
    assert_eq!(
        classify(AcquireFailure::Timeout),
        RenderError::Recoverable(AcquireFailure::Timeout)
    );
    assert_eq!(
        classify(AcquireFailure::OutOfMemory),
        RenderError::Fatal(AcquireFailure::OutOfMemory)
    );
}

#[test]
fn driver_starts_with_selected_format() {
    let d = Driver::from_formats(&vec![TextureFormat::Bgra8Unorm, TextureFormat::Bgra8UnormSrgb])
        .unwrap();
    assert_eq!(d.state, LoopState::Running);
    assert_eq!(d.settings, SurfaceSettings::initial(TextureFormat::Bgra8UnormSrgb));
    assert_eq!(d.pipeline, build_pipeline(&d.settings));
    assert!(!d.is_closing());
}

#[test]
fn resize_then_render_targets_new_size() {
    let mut d = Driver::new(TextureFormat::Bgra8UnormSrgb);
    match d.handle(Event::Resized { width: 1024, height: 768 }) {
        Command::Configure(s) => assert_eq!((s.width, s.height), (1024, 768)),
        other => panic!("expected a configuration, got {:?}", other),
    }
    match d.handle(Event::Tick) {
        Command::Render(p) => {
            assert_eq!((p.width, p.height), (1024, 768));
            assert_eq!(p.format, d.pipeline.color_format);
        }
        other => panic!("expected a frame, got {:?}", other),
    }
    assert_eq!(d.handle(Event::FramePresented), Command::Idle);
    assert_eq!(d.state, LoopState::Running);
}

#[test]
fn resize_to_unchanged_size_asks_nothing() {
    let mut d = Driver::new(TextureFormat::Bgra8UnormSrgb);
    let before = d;
    assert_eq!(d.handle(Event::Resized { width: 800, height: 600 }), Command::Idle);
    assert_eq!(d.handle(Event::Resized { width: 0, height: 0 }), Command::Idle);
    assert_eq!(d, before);
}

#[test]
fn surface_lost_is_recovered() {
    let mut d = Driver::new(TextureFormat::Bgra8UnormSrgb);
    assert!(matches!(d.handle(Event::Tick), Command::Render(_)));
    assert_eq!(
        d.handle(Event::FrameFailed(AcquireFailure::Lost)),
        Command::Recover {
            error: RenderError::Recoverable(AcquireFailure::Lost),
            reconfigure: Some(d.settings),
        }
    );
    assert_eq!(d.state, LoopState::Running);
    assert!(matches!(d.handle(Event::Tick), Command::Render(_)));
}

#[test]
fn timeout_skips_the_frame() {
    let mut d = Driver::new(TextureFormat::Bgra8UnormSrgb);
    assert_eq!(
        d.handle(Event::FrameFailed(AcquireFailure::Timeout)),
        Command::Recover { error: RenderError::Recoverable(AcquireFailure::Timeout), reconfigure: None }
    );
    assert_eq!(d.state, LoopState::Running);
}

#[test]
fn out_of_memory_stops_the_loop() {
    let mut d = Driver::new(TextureFormat::Bgra8UnormSrgb);
    assert_eq!(
        d.handle(Event::FrameFailed(AcquireFailure::OutOfMemory)),
        Command::Fail(RenderError::Fatal(AcquireFailure::OutOfMemory))
    );
    assert!(d.is_closing());
    assert_eq!(d.handle(Event::Tick), Command::Idle);
}

#[test]
fn no_render_after_close() {
    let mut d = Driver::new(TextureFormat::Bgra8UnormSrgb);
    assert_eq!(d.handle(Event::CloseRequested), Command::Exit);
    assert_eq!(d.state, LoopState::Closing);
    for e in [
        Event::Tick,
        Event::Resized { width: 640, height: 480 },
        Event::Tick,
        Event::FramePresented,
        Event::CloseRequested,
        Event::Tick,
    ] {
        assert_eq!(d.handle(e), Command::Idle);
    }
    assert_eq!((d.settings.width, d.settings.height), (800, 600));
}

#[test]
fn consecutive_renders_keep_configuration() {
    let mut d = Driver::new(TextureFormat::Bgra8UnormSrgb);
    let before = d;
    let first = d.handle(Event::Tick);
    assert_eq!(d.handle(Event::FramePresented), Command::Idle);
    let second = d.handle(Event::Tick);
    assert_eq!(first, second);
    assert_eq!(d, before);
}
