use gpu_lifecycle::error::GpuError;
use gpu_lifecycle::frame_counter::{FrameCounter, FrameReport, REPORT_INTERVAL_NANOS};
use gpu_lifecycle::gpu::{Gpu, SurfaceCapabilities};
use gpu_lifecycle::mipmap::ClearColor;
use gpu_lifecycle::renderer::{Acquire, Renderer};
use gpu_lifecycle::scene::{
    create_bind_group, create_pipeline, fragment_entry_point, vertex_entry_point, BindGroup,
    BindGroupLayout, DrawCall, FilterMode, Sampler, Scene, Shader,
};
use gpu_lifecycle::texture::TextureView;
use wgpu::{CompositeAlphaMode, PresentMode, TextureFormat};

fn surface_renderer(width: u32, height: u32) -> Renderer {
    let caps = SurfaceCapabilities {
        formats: vec![TextureFormat::Rgba8UnormSrgb, TextureFormat::Rgba8Unorm],
        present_modes: vec![PresentMode::Fifo],
        alpha_modes: vec![CompositeAlphaMode::Opaque],
    };
    match Gpu::new_async(Some(&caps), width, height) {
        Ok(gpu) => Renderer::new(gpu),
        Err(e) => panic!("no device context: {:?}", e),
    }
}

#[test]
fn frame_counter_reports_after_more_than_a_second() {
    assert_eq!(REPORT_INTERVAL_NANOS, 1_000_000_000);
    let mut counter = FrameCounter::new(100);
    assert_eq!(counter.update(500_000_100), None);
    assert_eq!(counter, FrameCounter { last_printed: 100, frame_count: 1 });
    assert_eq!(counter.update(1_000_000_100), None);
    assert_eq!(counter, FrameCounter { last_printed: 100, frame_count: 2 });
    assert_eq!(
        counter.update(1_000_000_101),
        Some(FrameReport { frames: 3, elapsed_nanos: 1_000_000_001, frame_time_nanos: 333_333_333 })
    );
    assert_eq!(counter, FrameCounter { last_printed: 1_000_000_101, frame_count: 0 });
}

#[test]
fn frame_counter_averages_the_frame_time() {
    let mut counter = FrameCounter::new(0);
    for frame in 1..=50u64 {
        assert_eq!(counter.update(frame * 20_000_000), None);
    }
    assert_eq!(
        counter.update(1_020_000_000),
        Some(FrameReport { frames: 51, elapsed_nanos: 1_020_000_000, frame_time_nanos: 20_000_000 })
    );
    assert_eq!(counter, FrameCounter { last_printed: 1_020_000_000, frame_count: 0 });
}

#[test]
fn frame_counter_ignores_a_clock_that_runs_backwards() {
    let mut counter = FrameCounter::new(5_000_000_000);
    assert_eq!(counter.update(1), None);
    assert_eq!(counter, FrameCounter { last_printed: 5_000_000_000, frame_count: 1 });
}

#[test]
fn frame_counter_stops_counting_at_the_largest_count() {
    let mut counter = FrameCounter { last_printed: 0, frame_count: u32::MAX };
    assert_eq!(counter.update(1), None);
    assert_eq!(counter.frame_count, u32::MAX);
    let mut counter = FrameCounter { last_printed: 0, frame_count: u32::MAX - 1 };
    assert_eq!(counter.update(1), None);
    assert_eq!(counter.frame_count, u32::MAX);
}

#[test]
fn scene_is_built_for_the_surface_format() {
    let scene = Scene::new(TextureFormat::Bgra8Unorm);
    assert_eq!(scene.pipeline.shader, Shader::DrawImage);
    assert_eq!(scene.pipeline.target_format, TextureFormat::Bgra8Unorm);
    assert_eq!(scene.pipeline.layout, BindGroupLayout { texture_binding: 0, sampler_binding: 1 });
    assert_eq!(
        scene.bind_group,
        BindGroup {
            layout: BindGroupLayout { texture_binding: 0, sampler_binding: 1 },
            view: TextureView { base_mip_level: 0, mip_level_count: 1 },
            sampler: Sampler {
                mag_filter: FilterMode::Linear,
                min_filter: FilterMode::Linear,
                mipmap_filter: FilterMode::Nearest,
            },
        }
    );
}

#[test]
fn scene_draws_the_full_screen_triangle() {
    let scene = Scene::new(TextureFormat::Bgra8Unorm);
    let commands = scene.render();
    assert_eq!(
        commands.draw,
        DrawCall { bind_group_index: 0, first_vertex: 0, vertex_count: 3, first_instance: 0, instance_count: 1 }
    );
    assert_eq!(commands.bind_group, scene.bind_group);
    assert_eq!(commands.pipeline.shader, Shader::DrawImage);
    assert_eq!(commands.pipeline.target_format, TextureFormat::Bgra8Unorm);
}

#[test]
fn pipelines_and_bind_groups_keep_what_they_are_made_of() {
    let layout = BindGroupLayout::new();
    let pipeline = create_pipeline(Shader::Downsample, layout, TextureFormat::Rgba8Unorm);
    assert_eq!(pipeline.shader, Shader::Downsample);
    assert_eq!(pipeline.layout, layout);
    assert_eq!(pipeline.target_format, TextureFormat::Rgba8Unorm);
    let view = TextureView { base_mip_level: 3, mip_level_count: 1 };
    let group = create_bind_group(layout, view, Sampler::new());
    assert_eq!(group, BindGroup { layout, view, sampler: Sampler::new() });
    assert_eq!(vertex_entry_point(), "vs_main");
    assert_eq!(fragment_entry_point(), "fs_main");
}

#[test]
fn renderer_draws_a_frame_when_a_texture_is_ready() {
    let mut renderer = surface_renderer(800, 600);
    let frame = renderer.render_frame(16_000_000, Acquire::Ready).ok().unwrap();
    assert_eq!(frame.clear, ClearColor::Black);
    assert!(frame.store);
    assert!(!frame.depth_stencil);
    assert_eq!(frame.commands.draw, DrawCall::new());
    assert_eq!(frame.commands.pipeline.shader, Shader::DrawImage);
    assert_eq!(frame.commands.pipeline.target_format, TextureFormat::Rgba8Unorm);
}

#[test]
fn renderer_skips_a_frame_without_a_texture() {
    let mut renderer = surface_renderer(800, 600);
    assert!(matches!(renderer.render_frame(0, Acquire::Lost), Err(GpuError::SurfaceLost)));
    assert!(matches!(renderer.render_frame(0, Acquire::TimedOut), Err(GpuError::Timeout)));
    assert!(renderer.render_frame(0, Acquire::Ready).is_ok());
}

#[test]
fn renderer_resize_then_render_succeeds_for_positive_sizes() {
    let mut renderer = surface_renderer(800, 600);
    for (w, h) in [(1u32, 1u32), (1920, 1080), (7, 4001), (u32::MAX, u32::MAX)] {
        assert!(renderer.resize(w, h));
        let config = renderer.surface_config();
        assert_eq!((config.width, config.height), (w, h));
        assert!(renderer.render_frame(0, Acquire::Ready).is_ok());
    }
}

#[test]
fn renderer_resize_to_zero_keeps_the_configuration() {
    let mut renderer = surface_renderer(800, 600);
    assert!(!renderer.resize(0, 600));
    assert!(!renderer.resize(800, 0));
    let config = renderer.surface_config();
    assert_eq!((config.width, config.height), (800, 600));
    assert_eq!(config.format, TextureFormat::Rgba8Unorm);
}

