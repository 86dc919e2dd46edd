//! The failures a caller can be told about.
use vstd::prelude::*;

verus! {

/// Why a request to the device layer failed.
///
/// Reading a staging buffer after it was unmapped, or unmapping it before its
/// map completed, have no variant here: the readback types are consumed by each
/// step, so neither can be written down.
#[derive(Clone, Copy, Debug, PartialEq, Eq, Structural)]
pub enum GpuError {
    /// No adapter or no device could be obtained.
    DeviceUnavailable,
    /// The surface was lost while a frame was being acquired.
    SurfaceLost,
    /// Acquiring the next frame timed out.
    Timeout,
    /// The requested texture usage is not supported.
    UnsupportedUsage,
    /// The requested number of mip levels does not fit the texture.
    InvalidMipCount,
    /// The staging buffer's map did not complete within the allowed wait.
    ReadbackTimeout,
}

impl GpuError {
    /// A transient error costs one frame and is retried at the next redraw.
    pub open spec fn transient(self) -> bool {
        self == GpuError::SurfaceLost || self == GpuError::Timeout
    }

    /// Whether the failure only skips the current frame.
    pub fn is_transient(&self) -> (r: bool)
        ensures
            r == self.transient(),
    {
        match self {
            GpuError::SurfaceLost => true,
            GpuError::Timeout => true,
            _ => false,
        }
    }

    /// Whether the failure ends the request that raised it.
    pub fn is_fatal(&self) -> (r: bool)
        ensures
            r == !self.transient(),
    {
        !self.is_transient()
    }
}

} // verus!
