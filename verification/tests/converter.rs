use gpu_lifecycle::converter::{Adapter, Gpu};
use gpu_lifecycle::error::GpuError;
use gpu_lifecycle::mipmap::{plan_mipmaps, ClearColor, MipPass};
use gpu_lifecycle::readback::{CopyCommand, MapState, MappedBuffer, StagingBuffer};
use gpu_lifecycle::scene::{BindGroup, BindGroupLayout, DrawCall, FilterMode, Sampler, Shader};
use gpu_lifecycle::texture::{
    TextureDescriptor, TextureResource, TextureUsages, TextureView, TextureWrite,
};
use wgpu::TextureFormat;

fn all_usages() -> TextureUsages {
    TextureUsages {
        copy_src: true,
        copy_dst: true,
        texture_binding: true,
        storage_binding: true,
        render_attachment: true,
    }
}

fn device() -> Gpu {
    match Gpu::new(Some(Adapter { texture_usages: all_usages() }), true) {
        Ok(gpu) => gpu,
        Err(e) => panic!("no device: {:?}", e),
    }
}

fn image_texture(gpu: &Gpu, width: u32, height: u32, mips: u32) -> (TextureResource, TextureWrite) {
    let rgba = vec![0u8; (width * height * 4) as usize];
    match gpu.create_textures(width, height, &rgba, TextureFormat::Rgba8Unorm, mips) {
        Ok(made) => made,
        Err(e) => panic!("no texture: {:?}", e),
    }
}

fn mapped_after(buffer: StagingBuffer, polls: &[bool]) -> Result<MappedBuffer, GpuError> {
    let mut pending = buffer.submit().map_async(polls.len() as u32);
    for completed in polls {
        match pending.poll(*completed)? {
            MapState::Mapped(mapped) => return Ok(mapped),
            MapState::Pending(next) => pending = next,
        }
    }
    panic!("the wait outlasted its polls")
}

#[test]
fn no_adapter_or_no_device_is_unavailable() {
    assert!(matches!(Gpu::new(None, true), Err(GpuError::DeviceUnavailable)));
    assert!(matches!(Gpu::new(None, false), Err(GpuError::DeviceUnavailable)));
    assert!(matches!(
        Gpu::new(Some(Adapter { texture_usages: all_usages() }), false),
        Err(GpuError::DeviceUnavailable)
    ));
    assert!(Gpu::new(Some(Adapter { texture_usages: all_usages() }), true).is_ok());
}

#[test]
fn image_texture_has_the_mip_chain_usages() {
    let (texture, write) = image_texture(&device(), 256, 256, 2);
    assert_eq!(texture.width(), 256);
    assert_eq!(texture.height(), 256);
    assert_eq!(texture.mip_level_count(), 2);
    assert_eq!(texture.usage(), TextureUsages::for_mip_chain());
    assert_eq!(texture.format(), TextureFormat::Rgba8Unorm);
    assert_eq!(
        write,
        TextureWrite { mip_level: 0, offset: 0, bytes_per_row: 1024, rows_per_image: 256, width: 256, height: 256 }
    );
}

#[test]
fn four_by_four_image_with_four_mips_is_invalid() {
    let gpu = device();
    assert!(gpu.create_textures(4, 4, &vec![0u8; 64], TextureFormat::Rgba8Unorm, 3).is_ok());
    assert!(matches!(
        gpu.create_textures(4, 4, &vec![0u8; 64], TextureFormat::Rgba8Unorm, 4),
        Err(GpuError::InvalidMipCount)
    ));
    assert!(matches!(
        gpu.create_textures(4, 4, &vec![0u8; 64], TextureFormat::Rgba8Unorm, 0),
        Err(GpuError::InvalidMipCount)
    ));
}

#[test]
fn a_device_without_render_targets_cannot_hold_the_image() {
    let mut usages = all_usages();
    usages.render_attachment = false;
    let gpu = match Gpu::new(Some(Adapter { texture_usages: usages }), true) {
        Ok(gpu) => gpu,
        Err(e) => panic!("no device: {:?}", e),
    };
    assert!(matches!(
        gpu.create_textures(4, 4, &vec![0u8; 64], TextureFormat::Rgba8Unorm, 1),
        Err(GpuError::UnsupportedUsage)
    ));
    assert!(matches!(
        gpu.create_textures(4, 4, &vec![0u8; 64], TextureFormat::Rgba8Unorm, 3),
        Err(GpuError::UnsupportedUsage)
    ));
}

fn pass(target: u32) -> MipPass {
    MipPass {
        bind_group: BindGroup {
            layout: BindGroupLayout { texture_binding: 0, sampler_binding: 1 },
            view: TextureView { base_mip_level: target - 1, mip_level_count: 1 },
            sampler: Sampler {
                mag_filter: FilterMode::Linear,
                min_filter: FilterMode::Linear,
                mipmap_filter: FilterMode::Nearest,
            },
        },
        target: TextureView { base_mip_level: target, mip_level_count: 1 },
        clear: ClearColor::White,
        store: true,
        draw: DrawCall { bind_group_index: 0, first_vertex: 0, vertex_count: 3, first_instance: 0, instance_count: 1 },
    }
}

#[test]
fn one_level_needs_no_pass() {
    let mut gpu = device();
    let (texture, _) = image_texture(&gpu, 8, 8, 1);
    let plan = gpu.generate_mipmaps(&texture, 1).ok().unwrap();
    assert_eq!(plan.views, vec![TextureView { base_mip_level: 0, mip_level_count: 1 }]);
    assert!(plan.passes.is_empty());
}

#[test]
fn no_level_needs_nothing() {
    let plan = plan_mipmaps(TextureFormat::Rgba8Unorm, 0);
    assert!(plan.views.is_empty());
    assert!(plan.passes.is_empty());
}

#[test]
fn each_level_is_rendered_from_the_one_before() {
    let mut gpu = device();
    let (texture, _) = image_texture(&gpu, 16, 16, 4);
    let plan = gpu.generate_mipmaps(&texture, 4).ok().unwrap();
    assert_eq!(plan.views.len(), 4);
    for (i, view) in plan.views.iter().enumerate() {
        assert_eq!(*view, TextureView { base_mip_level: i as u32, mip_level_count: 1 });
    }
    assert_eq!(plan.passes, vec![pass(1), pass(2), pass(3)]);
    assert_eq!(plan.pipeline.shader, Shader::Downsample);
    assert_eq!(plan.pipeline.target_format, TextureFormat::Rgba8Unorm);
    assert_eq!(plan.pipeline.layout, BindGroupLayout::new());
    assert_eq!(plan.sampler, Sampler::new());
}

#[test]
fn passes_form_a_chain_from_level_zero() {
    let plan = plan_mipmaps(TextureFormat::Rgba8Unorm, 9);
    assert_eq!(plan.passes.len(), 8);
    assert_eq!(plan.passes[0].bind_group.view.base_mip_level, 0);
    for k in 0..plan.passes.len() {
        let p = &plan.passes[k];
        assert_eq!(p.bind_group.view, plan.views[k]);
        assert_eq!(p.target, plan.views[k + 1]);
        assert_ne!(p.bind_group.view, p.target);
        if k > 0 {
            assert_eq!(p.bind_group.view, plan.passes[k - 1].target);
        }
    }
}

#[test]
fn fewer_levels_than_the_texture_has_can_be_generated() {
    let mut gpu = device();
    let (texture, _) = image_texture(&gpu, 16, 16, 5);
    let plan = gpu.generate_mipmaps(&texture, 2).ok().unwrap();
    assert_eq!(plan.views.len(), 2);
    assert_eq!(plan.passes, vec![pass(1)]);
}

#[test]
fn more_levels_than_the_texture_has_are_invalid() {
    let mut gpu = device();
    let (texture, _) = image_texture(&gpu, 16, 16, 2);
    assert!(matches!(gpu.generate_mipmaps(&texture, 3), Err(GpuError::InvalidMipCount)));
    assert!(gpu.generate_mipmaps(&texture, 2).is_ok());
}

#[test]
fn level_one_of_a_256_image_is_copied_with_512_byte_rows() {
    let gpu = device();
    let (texture, _) = image_texture(&gpu, 256, 256, 2);
    let buffer = gpu.copy_texture(&texture, 1).ok().unwrap();
    assert_eq!(
        buffer.copy_command(),
        CopyCommand {
            mip_level: 1,
            width: 128,
            height: 128,
            bytes_per_row: 512,
            rows_per_image: 128,
            buffer_size: 128 * 128 * 4,
        }
    );
}

#[test]
fn narrow_levels_are_copied_with_padded_rows() {
    let gpu = device();
    let (texture, _) = image_texture(&gpu, 40, 24, 3);
    assert_eq!(
        gpu.copy_texture(&texture, 0).ok().unwrap().copy_command(),
        CopyCommand { mip_level: 0, width: 40, height: 24, bytes_per_row: 256, rows_per_image: 24, buffer_size: 23 * 256 + 160 }
    );
    assert_eq!(
        gpu.copy_texture(&texture, 2).ok().unwrap().copy_command(),
        CopyCommand { mip_level: 2, width: 10, height: 6, bytes_per_row: 256, rows_per_image: 6, buffer_size: 5 * 256 + 40 }
    );
}

#[test]
fn a_level_the_texture_lacks_cannot_be_copied() {
    let gpu = device();
    let (texture, _) = image_texture(&gpu, 256, 256, 2);
    assert!(matches!(gpu.copy_texture(&texture, 2), Err(GpuError::InvalidMipCount)));
    assert!(matches!(gpu.copy_texture(&texture, u32::MAX), Err(GpuError::InvalidMipCount)));
    assert!(gpu.copy_texture(&texture, 1).is_ok());
}

#[test]
fn staging_buffer_that_does_not_fit_is_none() {
    assert!(StagingBuffer::new(0, u32::MAX, 1, 256).is_none());
    assert!(StagingBuffer::new(0, u32::MAX / 4, u32::MAX, 256).is_none());
    assert!(StagingBuffer::new(0, 1, 1, 256).is_some());
}

#[test]
fn last_level_of_a_256_image_is_four_bytes() {
    let mut gpu = device();
    let (texture, write) = image_texture(&gpu, 256, 256, 9);
    assert_eq!(write.bytes_per_row, 1024);
    let plan = gpu.generate_mipmaps(&texture, 9).ok().unwrap();
    assert_eq!(plan.passes.len(), 8);
    let sizes: Vec<u32> = (0..9).map(|l| texture.mip_size(l).unwrap().0).collect();
    assert_eq!(sizes, vec![256, 128, 64, 32, 16, 8, 4, 2, 1]);
    let buffer = gpu.copy_texture(&texture, 8).ok().unwrap();
    let copy = buffer.copy_command();
    assert_eq!(
        copy,
        CopyCommand { mip_level: 8, width: 1, height: 1, bytes_per_row: 256, rows_per_image: 1, buffer_size: 4 }
    );
    let mapped = mapped_after(buffer, &[true]).unwrap();
    let image = mapped.read(&vec![120, 130, 140, 255]).unwrap();
    assert_eq!(image, vec![120, 130, 140, 255]);
    assert_eq!(mapped.unmap(), 4);
}

#[test]
fn a_solid_level_reads_back_as_the_same_colour() {
    let gpu = device();
    let (texture, _) = image_texture(&gpu, 8, 8, 2);
    let buffer = gpu.copy_texture(&texture, 1).ok().unwrap();
    let copy = buffer.copy_command();
    assert_eq!((copy.width, copy.height, copy.bytes_per_row, copy.buffer_size), (4, 4, 256, 3 * 256 + 16));
    let mut device_bytes = vec![0u8; copy.buffer_size as usize];
    for row in 0..4usize {
        for px in 0..4usize {
            let at = row * 256 + px * 4;
            device_bytes[at..at + 4].copy_from_slice(&[200, 100, 50, 255]);
        }
    }
    let mapped = mapped_after(buffer, &[false, true]).unwrap();
    let image = mapped.read(&device_bytes).unwrap();
    assert_eq!(image.len(), 64);
    let mut sum = [0u32; 4];
    for px in image.chunks(4) {
        for c in 0..4 {
            sum[c] += px[c] as u32;
        }
    }
    assert_eq!([sum[0] / 16, sum[1] / 16, sum[2] / 16, sum[3] / 16], [200, 100, 50, 255]);
    assert_eq!(mapped.unmap(), 3 * 256 + 16);
}

#[test]
fn read_needs_the_whole_buffer() {
    let buffer = StagingBuffer::new(0, 2, 2, 256).unwrap();
    assert_eq!(buffer.copy_command().buffer_size, 264);
    let mapped = mapped_after(buffer, &[true]).unwrap();
    assert!(mapped.read(&vec![0u8; 263]).is_none());
    assert_eq!(mapped.read(&vec![7u8; 264]), Some(vec![7u8; 16]));
    assert_eq!(mapped.read(&vec![7u8; 512]), Some(vec![7u8; 16]));
}

#[test]
fn read_skips_the_padding_between_rows() {
    let buffer = StagingBuffer::new(0, 1, 3, 8).unwrap();
    assert_eq!(
        buffer.copy_command(),
        CopyCommand { mip_level: 0, width: 1, height: 3, bytes_per_row: 8, rows_per_image: 3, buffer_size: 20 }
    );
    let mapped = mapped_after(buffer, &[true]).unwrap();
    let bytes: Vec<u8> = (0..24).collect();
    assert_eq!(mapped.read(&bytes), Some(vec![0, 1, 2, 3, 8, 9, 10, 11, 16, 17, 18, 19]));
}

#[test]
fn a_map_that_never_completes_times_out() {
    let buffer = StagingBuffer::new(0, 4, 4, 256).unwrap();
    assert!(matches!(mapped_after(buffer, &[false]), Err(GpuError::ReadbackTimeout)));
    let buffer = StagingBuffer::new(0, 4, 4, 256).unwrap();
    assert!(matches!(mapped_after(buffer, &[false, false, false]), Err(GpuError::ReadbackTimeout)));
}

#[test]
fn the_wait_counts_down_with_each_poll() {
    let pending = StagingBuffer::new(0, 4, 4, 256).unwrap().submit().map_async(3);
    assert_eq!(pending.remaining_polls(), 3);
    let pending = match pending.poll(false) {
        Ok(MapState::Pending(p)) => p,
        _ => panic!("expected a pending map"),
    };
    assert_eq!(pending.remaining_polls(), 2);
    let pending = match pending.poll(false) {
        Ok(MapState::Pending(p)) => p,
        _ => panic!("expected a pending map"),
    };
    assert_eq!(pending.remaining_polls(), 1);
    assert!(matches!(pending.poll(false), Err(GpuError::ReadbackTimeout)));
}

#[test]
fn a_wait_of_no_polls_still_allows_one() {
    let pending = StagingBuffer::new(0, 4, 4, 256).unwrap().submit().map_async(0);
    assert_eq!(pending.remaining_polls(), 1);
    assert!(matches!(pending.poll(true), Ok(MapState::Mapped(_))));
    let pending = StagingBuffer::new(0, 4, 4, 256).unwrap().submit().map_async(0);
    assert!(matches!(pending.poll(false), Err(GpuError::ReadbackTimeout)));
}

#[test]
fn a_map_that_completes_on_the_last_poll_is_mapped() {
    let buffer = StagingBuffer::new(0, 4, 4, 256).unwrap();
    assert!(mapped_after(buffer, &[false, false, true]).is_ok());
}

fn texture_with(usage: TextureUsages, mips: u32) -> TextureResource {
    let descriptor = TextureDescriptor {
        width: 16,
        height: 16,
        mip_level_count: mips,
        format: TextureFormat::Rgba8Unorm,
        usage,
    };
    match TextureResource::create_texture(descriptor, &all_usages()) {
        Ok(texture) => texture,
        Err(e) => panic!("no texture: {:?}", e),
    }
}

#[test]
fn a_texture_that_is_not_a_copy_source_cannot_be_read_back() {
    let mut usage = TextureUsages::for_mip_chain();
    usage.copy_src = false;
    let texture = texture_with(usage, 2);
    assert!(matches!(device().copy_texture(&texture, 0), Err(GpuError::UnsupportedUsage)));
    assert!(matches!(device().copy_texture(&texture, 1), Err(GpuError::UnsupportedUsage)));
}

#[test]
fn a_texture_that_is_not_sampled_or_rendered_to_gets_no_mipmaps() {
    let mut gpu = device();
    let mut usage = TextureUsages::for_mip_chain();
    usage.render_attachment = false;
    assert!(matches!(
        gpu.generate_mipmaps(&texture_with(usage, 2), 2),
        Err(GpuError::UnsupportedUsage)
    ));
    let mut usage = TextureUsages::for_mip_chain();
    usage.texture_binding = false;
    assert!(matches!(
        gpu.generate_mipmaps(&texture_with(usage, 2), 2),
        Err(GpuError::UnsupportedUsage)
    ));
    assert!(matches!(
        gpu.generate_mipmaps(&texture_with(usage, 2), 1),
        Err(GpuError::UnsupportedUsage)
    ));
}

#[test]
fn too_many_levels_are_invalid_whatever_the_device_allows() {
    let none = TextureUsages {
        copy_src: false,
        copy_dst: false,
        texture_binding: false,
        storage_binding: false,
        render_attachment: false,
    };
    let mut no_targets = all_usages();
    no_targets.render_attachment = false;
    for allowed in [none, no_targets, all_usages()] {
        let gpu = match Gpu::new(Some(Adapter { texture_usages: allowed }), true) {
            Ok(gpu) => gpu,
            Err(e) => panic!("no device: {:?}", e),
        };
        for mips in [4u32, 9, u32::MAX, 0] {
            assert!(matches!(
                gpu.create_textures(4, 4, &vec![0u8; 64], TextureFormat::Rgba8Unorm, mips),
                Err(GpuError::InvalidMipCount)
            ));
        }
        assert!(matches!(
            gpu.create_textures(256, 256, &vec![0u8; 256 * 256 * 4], TextureFormat::Rgba8Unorm, 10),
            Err(GpuError::InvalidMipCount)
        ));
    }
}

#[test]
fn the_image_is_only_read_when_its_texture_is_made() {
    let rgba: Vec<u8> = (0..64).collect();
    let before = rgba.clone();
    let gpu = device();
    assert!(gpu.create_textures(4, 4, &rgba, TextureFormat::Rgba8Unorm, 3).is_ok());
    assert!(gpu.create_textures(4, 4, &rgba, TextureFormat::Rgba8Unorm, 4).is_err());
    assert_eq!(rgba, before);
}

#[test]
fn more_levels_than_the_texture_has_are_invalid_whatever_its_usages() {
    let mut gpu = device();
    let mut usage = TextureUsages::for_mip_chain();
    usage.render_attachment = false;
    usage.texture_binding = false;
    assert!(matches!(
        gpu.generate_mipmaps(&texture_with(usage, 2), 3),
        Err(GpuError::InvalidMipCount)
    ));
    assert!(matches!(
        gpu.generate_mipmaps(&texture_with(usage, 2), 9),
        Err(GpuError::InvalidMipCount)
    ));
}

#[test]
fn a_level_the_texture_lacks_is_invalid_whatever_its_usages() {
    let mut usage = TextureUsages::for_mip_chain();
    usage.copy_src = false;
    let texture = texture_with(usage, 2);
    assert!(matches!(device().copy_texture(&texture, 2), Err(GpuError::InvalidMipCount)));
    assert!(matches!(device().copy_texture(&texture, 5), Err(GpuError::InvalidMipCount)));
}

#[test]
fn copied_rows_are_a_multiple_of_the_alignment() {
    let gpu = device();
    let (texture, _) = image_texture(&gpu, 100, 60, 7);
    for level in 0..7u32 {
        let copy = gpu.copy_texture(&texture, level).ok().unwrap().copy_command();
        let (width, height) = texture.mip_size(level).unwrap();
        assert_eq!((copy.width, copy.height), (width, height));
        assert_eq!(copy.bytes_per_row % 256, 0);
        assert!(copy.bytes_per_row >= 4 * width && copy.bytes_per_row < 4 * width + 256);
        assert_eq!(copy.buffer_size, (height as u64 - 1) * copy.bytes_per_row as u64 + 4 * width as u64);
    }
}
