//! The render passes that fill the mip levels of a texture.
//!
//! Level 0 holds the uploaded image. Each further level is rendered from the
//! level before it, so the passes form a chain: pass `k` samples level `k` and
//! writes level `k + 1`. All passes go into one command encoder, in order, and
//! the encoder is submitted once.
use crate::scene::{BindGroup, BindGroupLayout, DrawCall, RenderPipeline, Sampler, Shader};
use crate::texture::{lemma_single_level_views_disjoint, TextureView};
use vstd::prelude::*;

verus! {

/// The colour a render target is cleared to before it is drawn.
#[derive(Clone, Copy, Debug, PartialEq, Eq, Structural)]
pub enum ClearColor {
    Black,
    White,
}

/// One pass of mipmap generation: the bind group samples the source view, the
/// target view is cleared, drawn over and stored.
#[derive(Clone, Copy, Debug, PartialEq, Eq, Structural)]
pub struct MipPass {
    pub bind_group: BindGroup,
    pub target: TextureView,
    pub clear: ClearColor,
    /// Whether what was drawn is kept in the target.
    pub store: bool,
    pub draw: DrawCall,
}

impl MipPass {
    /// The pass that writes level `target` from level `target - 1`.
    pub open spec fn into_level(target: u32) -> MipPass {
        MipPass {
            bind_group: BindGroup {
                layout: BindGroupLayout::fixed(),
                view: TextureView::single((target - 1) as u32),
                sampler: Sampler::bilinear(),
            },
            target: TextureView::single(target),
            clear: ClearColor::White,
            store: true,
            draw: DrawCall::full_screen_triangle(),
        }
    }

    /// The view the pass samples.
    pub open spec fn source(self) -> TextureView {
        self.bind_group.view
    }
}

/// Everything mipmap generation creates and records.
pub struct MipPlan {
    /// The pipeline all passes share.
    pub pipeline: RenderPipeline,
    /// The sampler all bind groups share.
    pub sampler: Sampler,
    /// One view for each level, by level.
    pub views: Vec<TextureView>,
    /// The passes, in the order they are recorded.
    pub passes: Vec<MipPass>,
}

/// The passes for a chain of `mip_count` levels: one for each level from 1 on,
/// in order of level. A chain of one level, or of none, has no pass.
pub open spec fn mip_passes(mip_count: nat) -> Seq<MipPass> {
    Seq::new((if mip_count == 0 { 0 } else { mip_count - 1 }) as nat, |k: int| MipPass::into_level((k + 1) as u32))
}

/// The views for a chain of `mip_count` levels.
pub open spec fn mip_views(mip_count: nat) -> Seq<TextureView> {
    Seq::new(mip_count, |i: int| TextureView::single(i as u32))
}

/// In the chain, every pass reads a level that is complete when the pass runs:
/// level 0 for the first pass, and for each later pass the level that the pass
/// just before it wrote. No pass reads the level it writes.
pub proof fn lemma_passes_form_a_chain(mip_count: nat, k: int)
    requires
        mip_count <= u32::MAX,
        0 <= k < mip_passes(mip_count).len(),
    ensures
        mip_passes(mip_count)[k].source() == TextureView::single(k as u32),
        mip_passes(mip_count)[k].target == TextureView::single((k + 1) as u32),
        mip_passes(mip_count)[k].source().disjoint(mip_passes(mip_count)[k].target),
        k > 0 ==> mip_passes(mip_count)[k].source() == mip_passes(mip_count)[k - 1].target,
        mip_passes(mip_count)[k].source() == mip_views(mip_count)[k],
        mip_passes(mip_count)[k].target == mip_views(mip_count)[k + 1],
{
    lemma_single_level_views_disjoint(k as u32, (k + 1) as u32);
}

/// Plans the generation of `mip_count` levels for a texture of `format`.
pub fn plan_mipmaps(format: wgpu::TextureFormat, mip_count: u32) -> (plan: MipPlan)
    ensures
        plan.pipeline.shader == Shader::Downsample,
        plan.pipeline.layout == BindGroupLayout::fixed(),
        plan.pipeline.target_format == format,
        plan.sampler == Sampler::bilinear(),
        plan.views@ == mip_views(mip_count as nat),
        plan.passes@ == mip_passes(mip_count as nat),
{
    let layout = BindGroupLayout::new();
    let sampler = Sampler::new();
    let mut views: Vec<TextureView> = Vec::new();
    let mut level: u32 = 0;
    while level < mip_count
        invariant
            level <= mip_count,
            views@.len() == level,
            forall|i: int| 0 <= i < level ==> views@[i] == TextureView::single(i as u32),
        decreases mip_count - level,
    {
        views.push(TextureView { base_mip_level: level, mip_level_count: 1 });
        level = level + 1;
    }
    let mut passes: Vec<MipPass> = Vec::new();
    let mut target: u32 = 1;
    while target < mip_count
        invariant
            1 <= target,
            target <= mip_count || (mip_count == 0 && target == 1),
            views@.len() == mip_count,
            forall|i: int| 0 <= i < mip_count ==> views@[i] == TextureView::single(i as u32),
            layout == BindGroupLayout::fixed(),
            sampler == Sampler::bilinear(),
            passes@.len() == target - 1,
            forall|k: int| 0 <= k < passes@.len() ==> passes@[k] == MipPass::into_level((k + 1) as u32),
        decreases mip_count - target,
    {
        let source = views[(target - 1) as usize];
        let pass = MipPass {
            bind_group: BindGroup { layout, view: source, sampler },
            target: views[target as usize],
            clear: ClearColor::White,
            store: true,
            draw: DrawCall::new(),
        };
        passes.push(pass);
        target = target + 1;
    }
    assert(views@ =~= mip_views(mip_count as nat));
    assert(passes@ =~= mip_passes(mip_count as nat));
    MipPlan {
        pipeline: RenderPipeline { shader: Shader::Downsample, layout, target_format: format },
        sampler,
        views,
        passes,
    }
}

} // verus!
