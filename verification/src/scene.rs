//! Pipelines, bind groups and the one draw they are made for.
//!
//! Every pass of this library, the composite of a frame as much as a step of
//! mipmap generation, samples one texture through one sampler and covers its
//! target with a single triangle. So there is one binding layout, one shape of
//! pipeline and one draw.
use crate::gpu::AspectRatio;
use crate::texture::TextureView;
use vstd::prelude::*;

verus! {

/// The shader a pipeline runs.
#[derive(Clone, Copy, Debug, PartialEq, Eq, Structural)]
pub enum Shader {
    /// Draws a texture over the whole target.
    DrawImage,
    /// Writes a mip level from the level above it.
    Downsample,
}

/// What sits at one slot of a bind group.
#[derive(Clone, Copy, Debug, PartialEq, Eq, Structural)]
pub enum BindingKind {
    SampledTexture,
    Sampler,
}

/// The binding layout shared by all pipelines: a sampled texture, then a
/// sampler, both read by the fragment stage.
#[derive(Clone, Copy, Debug, PartialEq, Eq, Structural)]
pub struct BindGroupLayout {
    pub texture_binding: u32,
    pub sampler_binding: u32,
}

impl BindGroupLayout {
    /// The layout with the texture at slot 0 and the sampler at slot 1.
    pub open spec fn fixed() -> BindGroupLayout {
        BindGroupLayout { texture_binding: 0, sampler_binding: 1 }
    }

    /// What a pipeline with this layout expects at `binding`.
    pub open spec fn kind_at(self, binding: u32) -> Option<BindingKind> {
        if binding == self.texture_binding {
            Some(BindingKind::SampledTexture)
        } else if binding == self.sampler_binding {
            Some(BindingKind::Sampler)
        } else {
            None
        }
    }

    /// The layout with the texture at slot 0 and the sampler at slot 1.
    pub fn new() -> (r: BindGroupLayout)
        ensures
            r == BindGroupLayout::fixed(),
            r.kind_at(0) == Some(BindingKind::SampledTexture),
            r.kind_at(1) == Some(BindingKind::Sampler),
    {
        BindGroupLayout { texture_binding: 0, sampler_binding: 1 }
    }
}

/// How texels are picked between sample points or between mip levels.
#[derive(Clone, Copy, Debug, PartialEq, Eq, Structural)]
pub enum FilterMode {
    Nearest,
    Linear,
}

/// A sampler that clamps to the edge of the texture.
#[derive(Clone, Copy, Debug, PartialEq, Eq, Structural)]
pub struct Sampler {
    pub mag_filter: FilterMode,
    pub min_filter: FilterMode,
    pub mipmap_filter: FilterMode,
}

impl Sampler {
    /// The sampler that averages neighbouring texels of one mip level.
    pub open spec fn bilinear() -> Sampler {
        Sampler {
            mag_filter: FilterMode::Linear,
            min_filter: FilterMode::Linear,
            mipmap_filter: FilterMode::Nearest,
        }
    }

    /// The sampler that averages neighbouring texels of one mip level.
    pub fn new() -> (r: Sampler)
        ensures
            r == Sampler::bilinear(),
    {
        Sampler {
            mag_filter: FilterMode::Linear,
            min_filter: FilterMode::Linear,
            mipmap_filter: FilterMode::Nearest,
        }
    }
}

/// A render pipeline: a shader linked with the fixed layout for one target
/// format. It reads no vertex buffer. Two pipelines made from the same three
/// values are the same pipeline and can be shared by draws and frames.
pub struct RenderPipeline {
    pub shader: Shader,
    pub layout: BindGroupLayout,
    pub target_format: wgpu::TextureFormat,
}

/// One texture view and one sampler, bound for a pipeline with `layout`.
#[derive(Clone, Copy, Debug, PartialEq, Eq, Structural)]
pub struct BindGroup {
    pub layout: BindGroupLayout,
    pub view: TextureView,
    pub sampler: Sampler,
}

/// The draw of the full-screen triangle.
#[derive(Clone, Copy, Debug, PartialEq, Eq, Structural)]
pub struct DrawCall {
    pub bind_group_index: u32,
    pub first_vertex: u32,
    pub vertex_count: u32,
    pub first_instance: u32,
    pub instance_count: u32,
}

impl DrawCall {
    /// Three vertices, one instance, the bind group at index 0.
    pub open spec fn full_screen_triangle() -> DrawCall {
        DrawCall {
            bind_group_index: 0,
            first_vertex: 0,
            vertex_count: 3,
            first_instance: 0,
            instance_count: 1,
        }
    }

    /// The draw that covers the target: three vertices whose positions the
    /// shader derives from their index.
    pub fn new() -> (r: DrawCall)
        ensures
            r == DrawCall::full_screen_triangle(),
    {
        DrawCall {
            bind_group_index: 0,
            first_vertex: 0,
            vertex_count: 3,
            first_instance: 0,
            instance_count: 1,
        }
    }
}

/// Name of the vertex entry point of every shader.
pub fn vertex_entry_point() -> (r: &'static str)
    ensures
        r@ == "vs_main"@,
{
    "vs_main"
}

/// Name of the fragment entry point of every shader.
pub fn fragment_entry_point() -> (r: &'static str)
    ensures
        r@ == "fs_main"@,
{
    "fs_main"
}

/// Links `shader` with `layout` into a pipeline that renders to
/// `target_format`.
pub fn create_pipeline(
    shader: Shader,
    layout: BindGroupLayout,
    target_format: wgpu::TextureFormat,
) -> (r: RenderPipeline)
    ensures
        r.shader == shader,
        r.layout == layout,
        r.target_format == target_format,
{
    RenderPipeline { shader, layout, target_format }
}

/// Binds one view and one sampler for pipelines with `layout`. A bind group
/// is never changed: to sample another view, another group is made.
pub fn create_bind_group(layout: BindGroupLayout, view: TextureView, sampler: Sampler) -> (r:
    BindGroup)
    ensures
        r == (BindGroup { layout, view, sampler }),
{
    BindGroup { layout, view, sampler }
}

/// What a scene records into a render pass, in order: the pipeline is set, the
/// bind group is set at the draw's index, and the draw is issued.
pub struct SceneCommands {
    pub pipeline: RenderPipeline,
    pub bind_group: BindGroup,
    pub draw: DrawCall,
}

/// The textured quad that each frame shows.
pub struct Scene {
    pub pipeline: RenderPipeline,
    pub bind_group: BindGroup,
}

impl Scene {
    /// The scene as it is built for a surface of `surface_format`.
    pub open spec fn for_surface(surface_format: wgpu::TextureFormat) -> Scene {
        Scene {
            pipeline: RenderPipeline {
                shader: Shader::DrawImage,
                layout: BindGroupLayout::fixed(),
                target_format: surface_format,
            },
            bind_group: BindGroup {
                layout: BindGroupLayout::fixed(),
                view: TextureView::single(0),
                sampler: Sampler::bilinear(),
            },
        }
    }

    /// Builds the scene for a surface: the image pipeline for the surface's
    /// format, and a bind group that samples the image's base level.
    pub fn new(surface_format: wgpu::TextureFormat) -> (r: Scene)
        ensures
            r == Scene::for_surface(surface_format),
    {
        let layout = BindGroupLayout::new();
        let pipeline = create_pipeline(Shader::DrawImage, layout, surface_format);
        let view = TextureView { base_mip_level: 0, mip_level_count: 1 };
        let bind_group = create_bind_group(layout, view, Sampler::new());
        Scene { pipeline, bind_group }
    }

    /// The commands of the scene's pass: its pipeline, its bind group, and the
    /// full-screen triangle.
    pub fn render(&self) -> (r: SceneCommands)
        ensures
            r.pipeline == self.pipeline,
            r.bind_group == self.bind_group,
            r.draw == DrawCall::full_screen_triangle(),
    {
        SceneCommands {
            pipeline: RenderPipeline {
                shader: self.pipeline.shader,
                layout: self.pipeline.layout,
                target_format: self.pipeline.target_format,
            },
            bind_group: self.bind_group,
            draw: DrawCall::new(),
        }
    }

    /// Advances the scene by one frame. The quad does not move, so nothing
    /// changes.
    pub fn update(&mut self, aspect_ratio: AspectRatio, delta_nanos: u64)
        ensures
            *final(self) == *old(self),
    {
    }
}

} // verus!
