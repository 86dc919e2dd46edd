//! Textures, their usages and the views into their mip levels.
//!
//! A texture is described once, checked, and then fixed: its size, its usages
//! and the number of its mip levels never change. Views name single mip
//! levels, so the level a pass reads and the level it writes never overlap.
use crate::error::GpuError;
use crate::layout::{
    image_bytes, image_size, padded_bytes_per_row, padded_row_bytes, row_bytes, ROW_ALIGNMENT,
};
use crate::mip::{
    check_mip_count, lemma_mip_extent_bounded, mip_count_allowed, mip_extent, mip_level_size,
};
use vstd::prelude::*;

verus! {

/// What a texture may be used for.
#[derive(Clone, Copy, Debug, PartialEq, Eq, Structural)]
pub struct TextureUsages {
    pub copy_src: bool,
    pub copy_dst: bool,
    pub texture_binding: bool,
    pub storage_binding: bool,
    pub render_attachment: bool,
}

impl TextureUsages {
    /// Use as a render target and nothing else.
    pub open spec fn render_attachment() -> TextureUsages {
        TextureUsages {
            copy_src: false,
            copy_dst: false,
            texture_binding: false,
            storage_binding: false,
            render_attachment: true,
        }
    }

    /// The usages of a texture whose mip levels are rendered and read back:
    /// sampled, copied to, copied from and rendered to.
    pub open spec fn mip_chain() -> TextureUsages {
        TextureUsages {
            copy_src: true,
            copy_dst: true,
            texture_binding: true,
            storage_binding: false,
            render_attachment: true,
        }
    }

    /// No usage at all.
    pub open spec fn none(self) -> bool {
        !self.copy_src && !self.copy_dst && !self.texture_binding && !self.storage_binding
            && !self.render_attachment
    }

    /// Every usage of `self` is one of `allowed`.
    pub open spec fn within(self, allowed: TextureUsages) -> bool {
        &&& self.copy_src ==> allowed.copy_src
        &&& self.copy_dst ==> allowed.copy_dst
        &&& self.texture_binding ==> allowed.texture_binding
        &&& self.storage_binding ==> allowed.storage_binding
        &&& self.render_attachment ==> allowed.render_attachment
    }

    /// A texture can be created with these usages on a device that allows
    /// `allowed`: it has some use, and each of its uses is allowed.
    pub open spec fn supported(self, allowed: TextureUsages) -> bool {
        !self.none() && self.within(allowed)
    }

    /// Use as a render target and nothing else.
    pub fn render_attachment_only() -> (r: TextureUsages)
        ensures
            r == TextureUsages::render_attachment(),
    {
        TextureUsages {
            copy_src: false,
            copy_dst: false,
            texture_binding: false,
            storage_binding: false,
            render_attachment: true,
        }
    }

    /// The usages a mip chain needs.
    pub fn for_mip_chain() -> (r: TextureUsages)
        ensures
            r == TextureUsages::mip_chain(),
    {
        TextureUsages {
            copy_src: true,
            copy_dst: true,
            texture_binding: true,
            storage_binding: false,
            render_attachment: true,
        }
    }

    /// Whether a device that allows `allowed` can create a texture with these
    /// usages.
    pub fn is_supported(&self, allowed: &TextureUsages) -> (r: bool)
        ensures
            r == self.supported(*allowed),
    {
        let any = self.copy_src || self.copy_dst || self.texture_binding || self.storage_binding
            || self.render_attachment;
        any && (!self.copy_src || allowed.copy_src) && (!self.copy_dst || allowed.copy_dst) && (
        !self.texture_binding || allowed.texture_binding) && (!self.storage_binding
            || allowed.storage_binding) && (!self.render_attachment || allowed.render_attachment)
    }
}

/// What a texture is asked to be.
pub struct TextureDescriptor {
    pub width: u32,
    pub height: u32,
    pub mip_level_count: u32,
    pub format: wgpu::TextureFormat,
    pub usage: TextureUsages,
}

impl TextureDescriptor {
    /// The texture has a texel, and the sizes of its base level fit the
    /// machine: a padded row of it fits the 32-bit stride of a copy, and the
    /// whole level fits a host buffer.
    pub open spec fn sized(self) -> bool {
        &&& self.width > 0
        &&& self.height > 0
        &&& padded_row_bytes(self.width as nat, ROW_ALIGNMENT as nat) <= u32::MAX
        &&& image_bytes(self.width as nat, self.height as nat) <= usize::MAX
    }

    /// Whether the texture has a texel and the sizes of its base level fit
    /// the machine.
    pub fn is_sized(&self) -> (r: bool)
        ensures
            r == self.sized(),
    {
        self.width > 0 && self.height > 0 && padded_bytes_per_row(self.width, ROW_ALIGNMENT).is_some()
            && image_size(self.width, self.height).is_some()
    }

    /// The descriptor can be allocated where `allowed` usages are on offer.
    pub open spec fn valid(self, allowed: TextureUsages) -> bool {
        &&& self.usage.supported(allowed)
        &&& mip_count_allowed(self.width as nat, self.height as nat, self.mip_level_count as nat)
    }
}

/// One mip range of a texture.
#[derive(Clone, Copy, Debug, PartialEq, Eq, Structural)]
pub struct TextureView {
    pub base_mip_level: u32,
    pub mip_level_count: u32,
}

impl TextureView {
    /// The view reaches mip level `level`.
    pub open spec fn covers(self, level: int) -> bool {
        self.base_mip_level <= level < self.base_mip_level + self.mip_level_count
    }

    /// No mip level is reached by both views.
    pub open spec fn disjoint(self, other: TextureView) -> bool {
        forall|level: int| !(self.covers(level) && other.covers(level))
    }

    /// The view of the single level `level`.
    pub open spec fn single(level: u32) -> TextureView {
        TextureView { base_mip_level: level, mip_level_count: 1 }
    }
}

/// Views of different single levels never overlap.
pub proof fn lemma_single_level_views_disjoint(a: u32, b: u32)
    requires
        a != b,
    ensures
        TextureView::single(a).disjoint(TextureView::single(b)),
{
}

/// A write of host pixels into one mip level of a texture.
#[derive(Clone, Copy, Debug, PartialEq, Eq, Structural)]
pub struct TextureWrite {
    pub mip_level: u32,
    pub offset: u64,
    pub bytes_per_row: u32,
    pub rows_per_image: u32,
    pub width: u32,
    pub height: u32,
}

/// A texture that was checked against the device: a size of at least one
/// texel, usages the device supports, and no more mip levels than the size
/// gives room for.
pub struct TextureResource {
    descriptor: TextureDescriptor,
}

impl TextureResource {
    #[verifier::type_invariant]
    spec fn checked(&self) -> bool {
        &&& self.descriptor.sized()
        &&& !self.descriptor.usage.none()
        &&& mip_count_allowed(
            self.descriptor.width as nat,
            self.descriptor.height as nat,
            self.descriptor.mip_level_count as nat,
        )
    }

    /// What the texture was created as.
    pub closed spec fn view(&self) -> TextureDescriptor {
        self.descriptor
    }

    /// Checks a descriptor against the usages the device allows for its
    /// format, and fixes it.
    ///
    /// The mip level count comes first: zero, or more than the full chain, is
    /// `InvalidMipCount`, whatever the usages are. Then the usages: a texture
    /// without any use, or with one the device does not allow, is
    /// `UnsupportedUsage`.
    pub fn create_texture(descriptor: TextureDescriptor, allowed: &TextureUsages) -> (r: Result<
        TextureResource,
        GpuError,
    >)
        requires
            descriptor.sized(),
        ensures
            r is Ok <==> descriptor.valid(*allowed),
            r matches Ok(texture) ==> texture@ == descriptor,
            (r matches Err(e) && e == GpuError::InvalidMipCount) <==> !mip_count_allowed(
                descriptor.width as nat,
                descriptor.height as nat,
                descriptor.mip_level_count as nat,
            ),
            (r matches Err(e) && e == GpuError::UnsupportedUsage) <==> (mip_count_allowed(
                descriptor.width as nat,
                descriptor.height as nat,
                descriptor.mip_level_count as nat,
            ) && !descriptor.usage.supported(*allowed)),
    {
        match check_mip_count(descriptor.width, descriptor.height, descriptor.mip_level_count) {
            Err(e) => Err(e),
            Ok(()) => {
                if descriptor.usage.is_supported(allowed) {
                    Ok(TextureResource { descriptor })
                } else {
                    Err(GpuError::UnsupportedUsage)
                }
            },
        }
    }

    /// Width of mip level 0.
    pub fn width(&self) -> (r: u32)
        ensures
            r == self@.width,
            r > 0,
    {
        proof {
            use_type_invariant(self);
        }
        self.descriptor.width
    }

    /// Height of mip level 0.
    pub fn height(&self) -> (r: u32)
        ensures
            r == self@.height,
            r > 0,
    {
        proof {
            use_type_invariant(self);
        }
        self.descriptor.height
    }

    /// Number of mip levels, fixed when the texture was created.
    pub fn mip_level_count(&self) -> (r: u32)
        ensures
            r == self@.mip_level_count,
            mip_count_allowed(self@.width as nat, self@.height as nat, r as nat),
    {
        proof {
            use_type_invariant(self);
        }
        self.descriptor.mip_level_count
    }

    /// The usages the texture was created with.
    pub fn usage(&self) -> (r: TextureUsages)
        ensures
            r == self@.usage,
            !r.none(),
    {
        proof {
            use_type_invariant(self);
        }
        self.descriptor.usage
    }

    /// The format of the texels.
    pub fn format(&self) -> (r: wgpu::TextureFormat)
        ensures
            r == self@.format,
    {
        self.descriptor.format
    }

    /// Width and height of mip level `level`, or `None` if the texture has no
    /// such level. A level has a texel and is no larger than the base level,
    /// whose sizes fit the machine.
    pub fn mip_size(&self, level: u32) -> (r: Option<(u32, u32)>)
        ensures
            r is Some <==> level < self@.mip_level_count,
            r matches Some(size) ==> size.0 == mip_extent(self@.width as nat, level as nat)
                && size.1 == mip_extent(self@.height as nat, level as nat),
            r matches Some(size) ==> 1 <= size.0 <= self@.width && 1 <= size.1 <= self@.height,
            self@.sized(),
    {
        proof {
            use_type_invariant(self);
            lemma_mip_extent_bounded(self@.width as nat, level as nat);
            lemma_mip_extent_bounded(self@.height as nat, level as nat);
        }
        if level < self.descriptor.mip_level_count {
            Some(
                (
                    mip_level_size(self.descriptor.width, level),
                    mip_level_size(self.descriptor.height, level),
                ),
            )
        } else {
            None
        }
    }

    /// The view of the single mip level `level`, or `None` if the texture has
    /// no such level.
    pub fn create_view(&self, level: u32) -> (r: Option<TextureView>)
        ensures
            r is Some <==> level < self@.mip_level_count,
            r matches Some(view) ==> view == TextureView::single(level),
    {
        if level < self.descriptor.mip_level_count {
            Some(TextureView { base_mip_level: level, mip_level_count: 1 })
        } else {
            None
        }
    }

    /// One view for each mip level, in order of level.
    pub fn mip_views(&self) -> (views: Vec<TextureView>)
        ensures
            views@.len() == self@.mip_level_count,
            forall|i: int|
                0 <= i < views@.len() ==> #[trigger] views@[i] == TextureView::single(i as u32),
            forall|i: int, j: int|
                0 <= i < views@.len() && 0 <= j < views@.len() && i != j ==> (#[trigger] views@[i]).disjoint(
                    #[trigger] views@[j],
                ),
    {
        let count = self.descriptor.mip_level_count;
        let mut views: Vec<TextureView> = Vec::new();
        let mut level: u32 = 0;
        while level < count
            invariant
                level <= count,
                views@.len() == level,
                forall|i: int|
                    0 <= i < views@.len() ==> #[trigger] views@[i] == TextureView::single(i as u32),
            decreases count - level,
        {
            views.push(TextureView { base_mip_level: level, mip_level_count: 1 });
            level = level + 1;
        }
        assert forall|i: int, j: int|
            0 <= i < views@.len() && 0 <= j < views@.len() && i != j implies (
        #[trigger] views@[i]).disjoint(#[trigger] views@[j]) by {
            lemma_single_level_views_disjoint(i as u32, j as u32);
        }
        views
    }

    /// The write that uploads a whole image into mip level 0.
    ///
    /// `rgba` holds RGBA8 rows that are `row_stride` bytes apart: the rows are
    /// at least as long as the texture is wide, and there is one for each
    /// texel row. A texture that was not created to be copied to is
    /// `UnsupportedUsage`.
    pub fn upload_pixels(&self, rgba: &Vec<u8>, row_stride: u32) -> (r: Result<
        TextureWrite,
        GpuError,
    >)
        requires
            row_stride >= row_bytes(self@.width as nat),
            rgba@.len() == row_stride * self@.height,
        ensures
            r is Ok <==> self@.usage.copy_dst,
            r matches Ok(write) ==> write == (TextureWrite {
                mip_level: 0,
                offset: 0,
                bytes_per_row: row_stride,
                rows_per_image: self@.height,
                width: self@.width,
                height: self@.height,
            }),
            r matches Err(e) ==> e == GpuError::UnsupportedUsage,
            rgba@.len() >= image_bytes(self@.width as nat, self@.height as nat),
    {
        proof {
            assert(row_stride * self@.height >= (self@.width * 4) * self@.height)
                by (nonlinear_arith)
                requires
                    row_stride >= self@.width * 4,
            ;
            assert((self@.width * 4) * self@.height == self@.width * self@.height * 4)
                by (nonlinear_arith);
        }
        if !self.descriptor.usage.copy_dst {
            return Err(GpuError::UnsupportedUsage);
        }
        Ok(
            TextureWrite {
                mip_level: 0,
                offset: 0,
                bytes_per_row: row_stride,
                rows_per_image: self.descriptor.height,
                width: self.descriptor.width,
                height: self.descriptor.height,
            },
        )
    }
}

} // verus!
