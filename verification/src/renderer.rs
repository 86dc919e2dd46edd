//! The renderer of the window: a device context and the scene it shows.
use crate::error::GpuError;
use crate::gpu::{Gpu, SurfaceConfig};
use crate::mipmap::ClearColor;
use crate::scene::{DrawCall, Scene, SceneCommands};
use vstd::prelude::*;

verus! {

/// What asking the surface for its next texture gave.
#[derive(Clone, Copy, Debug, PartialEq, Eq, Structural)]
pub enum Acquire {
    /// A texture to render to.
    Ready,
    /// The surface was lost.
    Lost,
    /// No texture came in time.
    TimedOut,
}

/// Why the frame is skipped when the surface gave `acquired`, if it is.
pub open spec fn skip_reason(acquired: Acquire) -> Option<GpuError> {
    match acquired {
        Acquire::Ready => None,
        Acquire::Lost => Some(GpuError::SurfaceLost),
        Acquire::TimedOut => Some(GpuError::Timeout),
    }
}

/// After a resize to any size with both axes positive the configuration is
/// one a surface accepts, so the frame that follows does not fail for its
/// configuration: it is drawn whenever the surface gives a texture, and if it
/// gives none the failure is transient.
pub proof fn lemma_frame_after_resize(
    config: SurfaceConfig,
    width: u32,
    height: u32,
    acquired: Acquire,
)
    requires
        width > 0,
        height > 0,
    ensures
        config.resized(width, height).valid(),
        acquired == Acquire::Ready <==> skip_reason(acquired) is None,
        skip_reason(acquired) matches Some(e) ==> e.transient(),
{
}

/// One frame: a single render pass without depth or stencil that clears the
/// acquired texture and records the scene, submitted to the queue, after which
/// the texture is presented.
pub struct Frame {
    pub clear: ClearColor,
    /// Whether what was drawn is kept in the texture.
    pub store: bool,
    /// Whether the pass has a depth or stencil attachment.
    pub depth_stencil: bool,
    pub commands: SceneCommands,
}

/// What a renderer holds: the configuration of its surface, and its scene.
pub struct RendererView {
    pub config: SurfaceConfig,
    pub scene: Scene,
}

impl RendererView {
    /// The renderer after the window took a new size: a size of zero in
    /// either axis changes nothing.
    pub open spec fn resized(self, width: u32, height: u32) -> RendererView {
        if width > 0 && height > 0 {
            RendererView { config: self.config.resized(width, height), scene: self.scene }
        } else {
            self
        }
    }
}

/// A device context and the scene drawn with it.
pub struct Renderer {
    gpu: Gpu,
    scene: Scene,
}

impl Renderer {
    /// The configuration and the scene.
    pub closed spec fn view(&self) -> RendererView {
        RendererView { config: self.gpu@, scene: self.scene }
    }

    /// The configuration of the surface.
    pub open spec fn config(&self) -> SurfaceConfig {
        self@.config
    }

    /// The scene.
    pub open spec fn scene(&self) -> Scene {
        self@.scene
    }

    /// A renderer for a device context, with the scene built for the format
    /// of its surface.
    pub fn new(gpu: Gpu) -> (r: Renderer)
        ensures
            r.config() == gpu@,
            r.scene() == Scene::for_surface(gpu@.format),
    {
        let scene = Scene::new(gpu.surface_format());
        Renderer { gpu, scene }
    }

    /// Follows the window to a new size; a size of zero in either axis is
    /// ignored. Returns whether the surface has to be configured again.
    pub fn resize(&mut self, width: u32, height: u32) -> (applied: bool)
        ensures
            applied == (width > 0 && height > 0),
            final(self)@ == old(self)@.resized(width, height),
            final(self).config().valid(),
    {
        self.gpu.resize(width, height)
    }

    /// Decides a frame once the surface was asked for its next texture.
    ///
    /// With a texture the frame is drawn: cleared to black, then the scene.
    /// Without one the frame is skipped, as `SurfaceLost` or `Timeout`, and
    /// the next redraw tries again. The renderer is the same afterwards.
    pub fn render_frame(&mut self, delta_nanos: u64, acquired: Acquire) -> (r: Result<
        Frame,
        GpuError,
    >)
        ensures
            final(self)@ == old(self)@,
            r is Ok <==> skip_reason(acquired) is None,
            r matches Err(e) ==> skip_reason(acquired) == Some(e),
            r is Ok <==> acquired == Acquire::Ready,
            r matches Ok(frame) ==> frame.clear == ClearColor::Black && frame.store
                && !frame.depth_stencil && frame.commands.pipeline
                == old(self).scene().pipeline && frame.commands.bind_group
                == old(self).scene().bind_group && frame.commands.draw
                == DrawCall::full_screen_triangle(),
            acquired == Acquire::Lost ==> (r matches Err(e) && e == GpuError::SurfaceLost),
            acquired == Acquire::TimedOut ==> (r matches Err(e) && e == GpuError::Timeout),
            r matches Err(e) ==> e.transient(),
    {
        let aspect = self.gpu.aspect_ratio();
        self.scene.update(aspect, delta_nanos);
        match acquired {
            Acquire::Ready => Ok(
                Frame {
                    clear: ClearColor::Black,
                    store: true,
                    depth_stencil: false,
                    commands: self.scene.render(),
                },
            ),
            Acquire::Lost => Err(GpuError::SurfaceLost),
            Acquire::TimedOut => Err(GpuError::Timeout),
        }
    }

    /// The scene, to build its pipeline and bind group from.
    pub fn scene_description(&self) -> (r: &Scene)
        ensures
            *r == self.scene(),
    {
        &self.scene
    }

    /// The configuration to apply to the surface.
    pub fn surface_config(&self) -> (r: &SurfaceConfig)
        ensures
            *r == self.config(),
            r.valid(),
    {
        self.gpu.surface_config()
    }
}

} // verus!
