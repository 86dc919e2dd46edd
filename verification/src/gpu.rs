//! The device context of the windowed renderer: what the surface is configured
//! with, how that configuration is chosen, and how it follows the window.
use crate::error::GpuError;
use crate::texture::TextureUsages;
use vstd::prelude::*;

verus! {

/// `wgpu::TextureFormat`, the format of the texels of a texture or surface.
/// Values are carried as they are; nothing is known of them but what
/// `srgb_encoded` names.
#[verifier::external_type_specification]
#[verifier::external_body]
pub struct ExTextureFormat(wgpu::TextureFormat);

/// `wgpu::PresentMode`, how frames are handed to the display. Values are
/// carried as they are.
#[verifier::external_type_specification]
#[verifier::external_body]
pub struct ExPresentMode(wgpu::PresentMode);

/// `wgpu::CompositeAlphaMode`, how the alpha channel of a surface is used.
/// Values are carried as they are.
#[verifier::external_type_specification]
#[verifier::external_body]
pub struct ExCompositeAlphaMode(wgpu::CompositeAlphaMode);

/// Whether `wgpu::TextureFormat::is_srgb` holds of a format: whether the format
/// is colour-corrected.
pub uninterp spec fn srgb_encoded(format: wgpu::TextureFormat) -> bool;

/// Calls `wgpu::TextureFormat::is_srgb`, which depends on the format alone and
/// never fails. The contract only gives the answer its name.
#[verifier::external_body]
fn is_srgb(format: &wgpu::TextureFormat) -> (r: bool)
    ensures
        r == srgb_encoded(*format),
{
    format.is_srgb()
}

/// For each format, whether it is colour-corrected.
pub open spec fn srgb_flags(formats: Seq<wgpu::TextureFormat>) -> Seq<bool> {
    Seq::new(formats.len(), |i: int| srgb_encoded(formats[i]))
}

/// Some format in the list is linear.
pub open spec fn has_linear(srgb: Seq<bool>) -> bool {
    exists|i: int| 0 <= i < srgb.len() && !srgb[i]
}

/// `i` is the position of the first linear format.
pub open spec fn is_first_linear(srgb: Seq<bool>, i: int) -> bool {
    &&& 0 <= i < srgb.len()
    &&& !srgb[i]
    &&& forall|j: int| 0 <= j < i ==> srgb[j]
}

/// `i` is the position of the format to configure the surface with: the first
/// linear one, or the first of all when none is linear.
pub open spec fn preferred_at(srgb: Seq<bool>, i: int) -> bool {
    ||| is_first_linear(srgb, i)
    ||| (!has_linear(srgb) && i == 0 && srgb.len() > 0)
}

/// At most one position is preferred.
pub proof fn lemma_preferred_is_unique(srgb: Seq<bool>, i: int, j: int)
    requires
        preferred_at(srgb, i),
        preferred_at(srgb, j),
    ensures
        i == j,
{
}

/// Position of the preferred format, given for each format whether it is
/// colour-corrected. `None` exactly when the list is empty.
pub fn preferred_index(srgb: &Vec<bool>) -> (r: Option<usize>)
    ensures
        r is None <==> srgb@.len() == 0,
        r matches Some(i) ==> preferred_at(srgb@, i as int),
{
    if srgb.len() == 0 {
        return None;
    }
    let mut i: usize = 0;
    while i < srgb.len()
        invariant
            i <= srgb@.len(),
            forall|j: int| 0 <= j < i ==> srgb@[j],
        decreases srgb@.len() - i,
    {
        if !srgb[i] {
            return Some(i);
        }
        i = i + 1;
    }
    Some(0)
}

/// The format to configure a surface with, out of those it supports: the first
/// that is not colour-corrected, else the first. `None` exactly when the
/// surface supports none.
pub fn select_surface_format(formats: &Vec<wgpu::TextureFormat>) -> (r: Option<
    wgpu::TextureFormat,
>)
    ensures
        r is None <==> formats@.len() == 0,
        r matches Some(format) ==> exists|i: int|
            0 <= i < formats@.len() && format == formats@[i] && #[trigger] preferred_at(
                srgb_flags(formats@),
                i,
            ),
{
    let mut srgb: Vec<bool> = Vec::new();
    let mut i: usize = 0;
    while i < formats.len()
        invariant
            i <= formats@.len(),
            srgb@.len() == i,
            forall|j: int| 0 <= j < i ==> srgb@[j] == srgb_encoded(formats@[j]),
        decreases formats@.len() - i,
    {
        srgb.push(is_srgb(&formats[i]));
        i = i + 1;
    }
    assert(srgb@ =~= srgb_flags(formats@));
    match preferred_index(&srgb) {
        Some(at) => Some(formats[at]),
        None => None,
    }
}

/// What a surface reports it can be configured with.
pub struct SurfaceCapabilities {
    pub formats: Vec<wgpu::TextureFormat>,
    pub present_modes: Vec<wgpu::PresentMode>,
    pub alpha_modes: Vec<wgpu::CompositeAlphaMode>,
}

impl SurfaceCapabilities {
    /// The surface can be used with the adapter: it offers a format, a
    /// presentation mode and an alpha mode.
    pub open spec fn usable(&self) -> bool {
        self.formats@.len() > 0 && self.present_modes@.len() > 0 && self.alpha_modes@.len() > 0
    }

    /// Whether the surface can be used with the adapter.
    pub fn is_usable(&self) -> (r: bool)
        ensures
            r == self.usable(),
    {
        self.formats.len() > 0 && self.present_modes.len() > 0 && self.alpha_modes.len() > 0
    }
}

/// The configuration applied to a surface.
pub struct SurfaceConfig {
    pub usage: TextureUsages,
    pub format: wgpu::TextureFormat,
    pub width: u32,
    pub height: u32,
    pub present_mode: wgpu::PresentMode,
    pub alpha_mode: wgpu::CompositeAlphaMode,
    pub desired_maximum_frame_latency: u32,
}

impl SurfaceConfig {
    /// A surface can be configured with this: neither axis is zero.
    pub open spec fn valid(self) -> bool {
        self.width > 0 && self.height > 0
    }

    /// The same configuration at another size.
    pub open spec fn resized(self, width: u32, height: u32) -> SurfaceConfig {
        SurfaceConfig { width, height, ..self }
    }
}

/// A configuration stays valid at every size with both axes positive, whatever
/// it was before, and only its size changes.
pub proof fn lemma_resized_is_valid(config: SurfaceConfig, width: u32, height: u32)
    requires
        width > 0,
        height > 0,
    ensures
        config.resized(width, height).valid(),
        config.resized(width, height).format == config.format,
        config.resized(width, height).usage == config.usage,
        config.resized(width, height).present_mode == config.present_mode,
        config.resized(width, height).alpha_mode == config.alpha_mode,
        config.resized(width, height).desired_maximum_frame_latency
            == config.desired_maximum_frame_latency,
{
}

/// Width over height of a surface, as the two integers of the fraction.
#[derive(Clone, Copy, Debug, PartialEq, Eq, Structural)]
pub struct AspectRatio {
    pub numerator: u32,
    pub denominator: u32,
}

/// The platform a device is requested on.
#[derive(Clone, Copy, Debug, PartialEq, Eq, Structural)]
pub enum Platform {
    Native,
    WebGpu,
    WebGl,
}

/// The set of limits a device request starts from.
#[derive(Clone, Copy, Debug, PartialEq, Eq, Structural)]
pub enum LimitsPreset {
    Default,
    Downlevel,
    DownlevelWebGl2,
}

/// The limits to request of a device: a preset, and the 2D texture dimension
/// to raise it to where the platform allows more.
#[derive(Clone, Copy, Debug, PartialEq, Eq, Structural)]
pub struct DeviceRequest {
    pub preset: LimitsPreset,
    pub max_texture_dimension_2d: Option<u32>,
}

/// The 2D texture dimension requested on native targets.
pub const NATIVE_TEXTURE_DIMENSION: u32 = 4096;

/// Frames that may be queued for presentation.
pub const FRAME_LATENCY: u32 = 2;

/// The limits to request on a platform. Native targets start from the
/// down-level set and raise the texture dimension; web targets take a preset
/// as it is.
pub fn device_request(platform: Platform) -> (r: DeviceRequest)
    ensures
        platform == Platform::Native ==> r == (DeviceRequest {
            preset: LimitsPreset::Downlevel,
            max_texture_dimension_2d: Some(NATIVE_TEXTURE_DIMENSION),
        }),
        platform == Platform::WebGpu ==> r == (DeviceRequest {
            preset: LimitsPreset::Default,
            max_texture_dimension_2d: None,
        }),
        platform == Platform::WebGl ==> r == (DeviceRequest {
            preset: LimitsPreset::DownlevelWebGl2,
            max_texture_dimension_2d: None,
        }),
{
    match platform {
        Platform::Native => DeviceRequest {
            preset: LimitsPreset::Downlevel,
            max_texture_dimension_2d: Some(NATIVE_TEXTURE_DIMENSION),
        },
        Platform::WebGpu => DeviceRequest {
            preset: LimitsPreset::Default,
            max_texture_dimension_2d: None,
        },
        Platform::WebGl => DeviceRequest {
            preset: LimitsPreset::DownlevelWebGl2,
            max_texture_dimension_2d: None,
        },
    }
}

/// The device context of a window: the configuration its surface has.
///
/// The configured size is never zero in either axis.
pub struct Gpu {
    surface_config: SurfaceConfig,
}

impl Gpu {
    #[verifier::type_invariant]
    spec fn sized(&self) -> bool {
        self.surface_config.width > 0 && self.surface_config.height > 0
    }

    /// The configuration of the surface.
    pub closed spec fn view(&self) -> SurfaceConfig {
        self.surface_config
    }

    /// Chooses the configuration of a surface from what it supports.
    ///
    /// `capabilities` is what the surface reported for the adapter and device
    /// that were obtained, or `None` if either could not be had. The surface is
    /// configured as a render attachment of the given size, with the preferred
    /// format and the first presentation and alpha modes on offer. The size
    /// has to be positive wherever there is a surface to configure; without
    /// one it is not looked at.
    pub fn new_async(capabilities: Option<&SurfaceCapabilities>, width: u32, height: u32) -> (r:
        Result<Gpu, GpuError>)
        requires
            (capabilities matches Some(c) && c.usable()) ==> width > 0 && height > 0,
        ensures
            r is Ok <==> (capabilities matches Some(c) && c.usable()),
            r matches Err(e) ==> e == GpuError::DeviceUnavailable,
            r matches Ok(gpu) ==> {
                let c = capabilities->Some_0;
                &&& gpu@.valid()
                &&& gpu@.width == width
                &&& gpu@.height == height
                &&& gpu@.usage == TextureUsages::render_attachment()
                &&& gpu@.present_mode == c.present_modes@[0]
                &&& gpu@.alpha_mode == c.alpha_modes@[0]
                &&& gpu@.desired_maximum_frame_latency == FRAME_LATENCY
                &&& exists|i: int|
                    0 <= i < c.formats@.len() && gpu@.format == c.formats@[i]
                        && #[trigger] preferred_at(srgb_flags(c.formats@), i)
            },
    {
        let c = match capabilities {
            Some(c) => c,
            None => { return Err(GpuError::DeviceUnavailable); },
        };
        if c.present_modes.len() == 0 || c.alpha_modes.len() == 0 {
            return Err(GpuError::DeviceUnavailable);
        }
        let format = match select_surface_format(&c.formats) {
            Some(format) => format,
            None => { return Err(GpuError::DeviceUnavailable); },
        };
        Ok(
            Gpu {
                surface_config: SurfaceConfig {
                    usage: TextureUsages::render_attachment_only(),
                    format,
                    width,
                    height,
                    present_mode: c.present_modes[0],
                    alpha_mode: c.alpha_modes[0],
                    desired_maximum_frame_latency: FRAME_LATENCY,
                },
            },
        )
    }

    /// Follows the window to a new size. A size of zero in either axis, as a
    /// minimised window reports, is ignored. Returns whether the configuration
    /// changed and has to be applied to the surface again.
    pub fn resize(&mut self, width: u32, height: u32) -> (applied: bool)
        ensures
            applied == (width > 0 && height > 0),
            applied ==> final(self)@ == old(self)@.resized(width, height),
            !applied ==> final(self)@ == old(self)@,
            old(self)@.valid(),
            final(self)@.valid(),
    {
        proof {
            use_type_invariant(&*self);
        }
        if width == 0 || height == 0 {
            false
        } else {
            self.surface_config.width = width;
            self.surface_config.height = height;
            true
        }
    }

    /// The configured width over the configured height. The denominator is the
    /// height, or one if the height were zero.
    pub fn aspect_ratio(&self) -> (r: AspectRatio)
        ensures
            r.numerator == self@.width,
            r.denominator == (if self@.height >= 1 { self@.height } else { 1u32 }),
            r.denominator >= 1,
    {
        let height = self.surface_config.height;
        AspectRatio {
            numerator: self.surface_config.width,
            denominator: if height >= 1 { height } else { 1 },
        }
    }

    /// The configured width, which is positive.
    pub fn width(&self) -> (r: u32)
        ensures
            r == self@.width,
            r > 0,
    {
        proof {
            use_type_invariant(self);
        }
        self.surface_config.width
    }

    /// The configured height, which is positive.
    pub fn height(&self) -> (r: u32)
        ensures
            r == self@.height,
            r > 0,
    {
        proof {
            use_type_invariant(self);
        }
        self.surface_config.height
    }

    /// The format the surface is configured with.
    pub fn surface_format(&self) -> (r: wgpu::TextureFormat)
        ensures
            r == self@.format,
    {
        self.surface_config.format
    }

    /// The whole configuration, to apply to the surface.
    pub fn surface_config(&self) -> (r: &SurfaceConfig)
        ensures
            *r == self@,
            r.valid(),
    {
        proof {
            use_type_invariant(self);
        }
        &self.surface_config
    }
}

} // verus!
