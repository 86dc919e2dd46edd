//! The offline pipeline: an image goes onto the device, its mip levels are
//! rendered, and one of them is read back.
use crate::error::GpuError;
use crate::layout::{
    image_bytes, lemma_align_up_is_least_multiple, lemma_align_up_is_monotone, padded_row_bytes,
    row_bytes, ROW_ALIGNMENT,
};
use crate::mip::{mip_count_allowed, mip_extent, mip_level_limit};
use crate::mipmap::{mip_passes, mip_views, plan_mipmaps, MipPlan};
use crate::readback::{CopyCommand, StagingBuffer};
use crate::scene::{BindGroupLayout, Sampler, Shader};
use crate::texture::{TextureDescriptor, TextureResource, TextureUsages, TextureWrite};
use vstd::prelude::*;

verus! {

/// What an adapter reports of itself.
#[derive(Clone, Copy, Debug, PartialEq, Eq, Structural)]
pub struct Adapter {
    /// The usages the adapter allows for textures of the image format.
    pub texture_usages: TextureUsages,
}

/// The device context of the offline pipeline.
pub struct Gpu {
    texture_usages: TextureUsages,
}

impl Gpu {
    /// The usages the device allows for textures of the image format.
    pub closed spec fn allowed_usages(&self) -> TextureUsages {
        self.texture_usages
    }

    /// The descriptor of the texture that holds an image and its mip levels.
    pub open spec fn image_descriptor(
        width: u32,
        height: u32,
        format: wgpu::TextureFormat,
        mip_count: u32,
    ) -> TextureDescriptor {
        TextureDescriptor {
            width,
            height,
            mip_level_count: mip_count,
            format,
            usage: TextureUsages::mip_chain(),
        }
    }

    /// A texture with these usages can have its mip levels rendered: it can
    /// be sampled and rendered to.
    pub open spec fn renders_mips(usage: TextureUsages) -> bool {
        usage.texture_binding && usage.render_attachment
    }

    /// Takes in what the requests for an adapter and for a device gave:
    /// the adapter, if one was found, and whether it granted a device.
    /// Without either there is no context: `DeviceUnavailable`.
    pub fn new(adapter: Option<Adapter>, device_granted: bool) -> (r: Result<Gpu, GpuError>)
        ensures
            r is Ok <==> (adapter is Some && device_granted),
            r matches Ok(gpu) ==> gpu.allowed_usages() == adapter->Some_0.texture_usages,
            r matches Err(e) ==> e == GpuError::DeviceUnavailable,
    {
        match adapter {
            Some(found) => {
                if device_granted {
                    Ok(Gpu { texture_usages: found.texture_usages })
                } else {
                    Err(GpuError::DeviceUnavailable)
                }
            },
            None => Err(GpuError::DeviceUnavailable),
        }
    }

    /// Creates the texture for a `width` by `height` image with `mip_count`
    /// levels, and the write that uploads the image into level 0.
    ///
    /// `rgba` holds the image as tightly packed RGBA8 rows and is only read.
    /// `mip_count` has to fit the image's size: zero levels, or more than the
    /// full chain, are `InvalidMipCount`, and no texture with fewer levels is
    /// made in their place. The texture is sampled, copied to, copied from and
    /// rendered to: a device that does not support that is `UnsupportedUsage`.
    pub fn create_textures(
        &self,
        width: u32,
        height: u32,
        rgba: &Vec<u8>,
        format: wgpu::TextureFormat,
        mip_count: u32,
    ) -> (r: Result<(TextureResource, TextureWrite), GpuError>)
        requires
            width > 0,
            height > 0,
            padded_row_bytes(width as nat, ROW_ALIGNMENT as nat) <= u32::MAX,
            rgba@.len() == image_bytes(width as nat, height as nat),
        ensures
            r is Ok <==> Gpu::image_descriptor(width, height, format, mip_count).valid(
                self.allowed_usages(),
            ),
            r matches Ok(made) ==> made.0@ == Gpu::image_descriptor(
                width,
                height,
                format,
                mip_count,
            ) && made.1 == (TextureWrite {
                mip_level: 0,
                offset: 0,
                bytes_per_row: row_bytes(width as nat) as u32,
                rows_per_image: height,
                width,
                height,
            }),
            r matches Ok(made) ==> made.0@.mip_level_count == mip_count && made.1.bytes_per_row
                == 4 * width,
            (r matches Err(e) && e == GpuError::InvalidMipCount) <==> !mip_count_allowed(
                width as nat,
                height as nat,
                mip_count as nat,
            ),
            (r matches Err(e) && e == GpuError::UnsupportedUsage) <==> (mip_count_allowed(
                width as nat,
                height as nat,
                mip_count as nat,
            ) && !TextureUsages::mip_chain().supported(self.allowed_usages())),
    {
        let descriptor = TextureDescriptor {
            width,
            height,
            mip_level_count: mip_count,
            format,
            usage: TextureUsages::for_mip_chain(),
        };
        let given: usize = rgba.len();
        proof {
            lemma_align_up_is_least_multiple(row_bytes(width as nat), ROW_ALIGNMENT as nat);
            assert(image_bytes(width as nat, height as nat) == given);
        }
        match TextureResource::create_texture(descriptor, &self.texture_usages) {
            Err(e) => Err(e),
            Ok(texture) => {
                proof {
                    assert(width * height * 4 == (width * 4) * height) by (nonlinear_arith);
                }
                match texture.upload_pixels(rgba, width * 4) {
                    Ok(write) => Ok((texture, write)),
                    Err(e) => Err(e),
                }
            },
        }
    }

    /// Plans the rendering of the first `mip_count` levels of `texture`: the
    /// views, and one pass for each level from 1 on, each sampling the level
    /// before it.
    ///
    /// Asking for more levels than the texture has is `InvalidMipCount`,
    /// whatever the texture's usages are. The texture is sampled and rendered
    /// to: one that was not created for both is `UnsupportedUsage`.
    pub fn generate_mipmaps(&mut self, texture: &TextureResource, mip_count: u32) -> (r: Result<
        MipPlan,
        GpuError,
    >)
        ensures
            final(self).allowed_usages() == old(self).allowed_usages(),
            r is Ok <==> (Gpu::renders_mips(texture@.usage) && mip_count
                <= texture@.mip_level_count),
            (r matches Err(e) && e == GpuError::InvalidMipCount) <==> mip_count
                > texture@.mip_level_count,
            (r matches Err(e) && e == GpuError::UnsupportedUsage) <==> (mip_count
                <= texture@.mip_level_count && !Gpu::renders_mips(texture@.usage)),
            mip_count > mip_level_limit(texture@.width as nat, texture@.height as nat) ==> (
            r matches Err(e) && e == GpuError::InvalidMipCount),
            r matches Ok(plan) ==> {
                &&& plan.pipeline.shader == Shader::Downsample
                &&& plan.pipeline.layout == BindGroupLayout::fixed()
                &&& plan.pipeline.target_format == texture@.format
                &&& plan.sampler == Sampler::bilinear()
                &&& plan.views@ == mip_views(mip_count as nat)
                &&& plan.passes@ == mip_passes(mip_count as nat)
            },
    {
        let usage = texture.usage();
        if mip_count > texture.mip_level_count() {
            Err(GpuError::InvalidMipCount)
        } else if !(usage.texture_binding && usage.render_attachment) {
            Err(GpuError::UnsupportedUsage)
        } else {
            Ok(plan_mipmaps(texture.format(), mip_count))
        }
    }

    /// Lays out the readback of mip level `mip_level` of `texture`: a staging
    /// buffer for the level's own width and height, with rows padded to the
    /// copy alignment.
    ///
    /// A level that the texture does not have is `InvalidMipCount`, whatever
    /// the texture's usages are. The texture is copied from: one that was not
    /// created for that is `UnsupportedUsage`.
    pub fn copy_texture(&self, texture: &TextureResource, mip_level: u32) -> (r: Result<
        StagingBuffer,
        GpuError,
    >)
        ensures
            r is Ok <==> (texture@.usage.copy_src && mip_level < texture@.mip_level_count),
            (r matches Err(e) && e == GpuError::InvalidMipCount) <==> mip_level
                >= texture@.mip_level_count,
            (r matches Err(e) && e == GpuError::UnsupportedUsage) <==> (mip_level
                < texture@.mip_level_count && !texture@.usage.copy_src),
            r matches Ok(buffer) ==> buffer@ == CopyCommand::of_level(
                mip_level,
                mip_extent(texture@.width as nat, mip_level as nat) as u32,
                mip_extent(texture@.height as nat, mip_level as nat) as u32,
                ROW_ALIGNMENT,
            ) && buffer@.consistent(),
            r matches Ok(buffer) ==> {
                let copy = buffer@;
                &&& copy.mip_level == mip_level
                &&& copy.width == mip_extent(texture@.width as nat, mip_level as nat)
                &&& copy.height == mip_extent(texture@.height as nat, mip_level as nat)
                &&& 1 <= copy.width <= texture@.width
                &&& 1 <= copy.height <= texture@.height
                &&& copy.rows_per_image == copy.height
                &&& copy.bytes_per_row == padded_row_bytes(copy.width as nat, ROW_ALIGNMENT as nat)
                &&& copy.bytes_per_row % ROW_ALIGNMENT == 0
                &&& 4 * copy.width <= copy.bytes_per_row < 4 * copy.width + ROW_ALIGNMENT
                &&& copy.buffer_size == (copy.height - 1) * copy.bytes_per_row + 4 * copy.width
            },
    {
        let (width, height) = match texture.mip_size(mip_level) {
            None => { return Err(GpuError::InvalidMipCount); },
            Some(size) => size,
        };
        if !texture.usage().copy_src {
            return Err(GpuError::UnsupportedUsage);
        }
        proof {
            lemma_level_fits(texture@.width, texture@.height, width, height);
            lemma_align_up_is_least_multiple(row_bytes(width as nat), ROW_ALIGNMENT as nat);
        }
        Ok(StagingBuffer::new(mip_level, width, height, ROW_ALIGNMENT).unwrap())
    }
}

/// A level that is no larger than a base level whose sizes fit can be copied:
/// its sizes fit too.
pub proof fn lemma_level_fits(base_width: u32, base_height: u32, width: u32, height: u32)
    requires
        1 <= width <= base_width,
        1 <= height <= base_height,
        padded_row_bytes(base_width as nat, ROW_ALIGNMENT as nat) <= u32::MAX,
        image_bytes(base_width as nat, base_height as nat) <= usize::MAX,
    ensures
        CopyCommand::fits(width, height, ROW_ALIGNMENT),
{
    let stride = padded_row_bytes(width as nat, ROW_ALIGNMENT as nat);
    lemma_align_up_is_monotone(
        row_bytes(width as nat),
        row_bytes(base_width as nat),
        ROW_ALIGNMENT as nat,
    );
    lemma_align_up_is_least_multiple(row_bytes(width as nat), ROW_ALIGNMENT as nat);
    assert((height - 1) * stride + width * 4 <= 0xffff_ffff * 0xffff_ffff) by (nonlinear_arith)
        requires
            1 <= height <= 0xffff_ffff,
            width * 4 <= stride <= 0xffff_ffff,
    ;
    assert(width * height * 4 <= base_width * base_height * 4) by (nonlinear_arith)
        requires
            1 <= width <= base_width,
            1 <= height <= base_height,
    ;
}

} // verus!
