//! Resolution settings for capture devices.

use vstd::prelude::*;

use crate::config::framerate::reduce;
use crate::config::Framerate;

verus! {

/// A resolution with specified values.
///
/// These can be used to give resolutions to capture devices, but the
/// capture device may also return its current resolution with this
/// structure.
#[derive(Clone, Copy, Debug, PartialEq, Eq, Structural)]
pub struct SpecificResolution {
    pub width: u32,
    pub height: u32,
}

impl SpecificResolution {
    /// Creates a new resolution from the given values.
    #[inline]
    pub fn new(width: u32, height: u32) -> (r: Self)
        ensures
            r.width == width,
            r.height == height,
    {
        SpecificResolution { width, height }
    }

    /// The width-to-height ratio as an exact fraction in lowest terms.
    ///
    /// Note that the reduction loses the concrete pixel counts: many
    /// resolutions share one aspect ratio.
    pub fn aspect_ratio(&self) -> (r: Framerate)
        ensures
            (r.spec_num() as nat, r.spec_den() as nat) == reduce(
                self.width as nat,
                self.height as nat,
            ),
    {
        Framerate::new(self.width as u64, self.height as u64)
    }
}

/// A video capture device's resolution setting.
#[derive(Clone, Copy, Debug, PartialEq, Eq, Structural)]
pub enum ResolutionSetting {
    /// Will use the highest possible resolution for the device.
    Highest,
    /// Attempts to use this exact resolution.
    Custom(SpecificResolution),
    /// Finds the closest possible resolution for the device and uses that.
    Closest(SpecificResolution),
    /// Uses the lowest available resolution for the device.
    Lowest,
}

} // verus!
