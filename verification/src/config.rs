//! Configuration types for video capture devices: pixel formats,
//! resolutions, framerates and free-form properties.

use vstd::prelude::*;

pub mod format;
pub mod framerate;
pub mod properties;
pub mod resolution;

pub use format::Format;
pub use framerate::Framerate;
pub use properties::{VideoCaptureProperties, VideoCaptureProperty};
pub use resolution::{ResolutionSetting, SpecificResolution};

use crate::error::VideoCaptureConfigError;

verus! {

/// Methods to configure a video capture device.
pub trait VideoCaptureConfiguration {
    /// Makes a list of ALL supported image configurations.
    ///
    /// # Errors
    ///
    /// Fails when the device is disconnected or is in use by another
    /// program.
    fn supported_image_configurations(&self) -> Result<
        Vec<VideoCaptureImageConfiguration>,
        VideoCaptureConfigError,
    >;

    /// Gets the capture device's image configuration.
    ///
    /// # Errors
    ///
    /// This can fail if the device isn't connected, is being used by
    /// another program, or doesn't support the given configuration.
    fn image_configuration(&self) -> Result<
        VideoCaptureImageConfiguration,
        VideoCaptureConfigError,
    >;

    /// Sets the device's image configuration given the input. It will then
    /// return the configuration the device is actually using afterwards,
    /// which may differ from the request: the device is free to substitute
    /// a nearby supported mode, and the caller must compare the two.
    ///
    /// # Errors
    ///
    /// This can fail if the device isn't connected, is being used by
    /// another program, or doesn't support the given configuration.
    #[must_use]
    fn set_image_configuration(&self, conf: &VideoCaptureImageConfiguration) -> Result<
        VideoCaptureImageConfiguration,
        VideoCaptureConfigError,
    >;
}

/// A small bundle of the essential image properties: format, resolution,
/// and frame rate.
///
/// The fields of this struct are all public. Create a new image
/// configuration using manual struct construction syntax.
#[derive(Clone, Copy, Debug)]
pub struct VideoCaptureImageConfiguration {
    pub format: Format,
    pub resolution: SpecificResolution,
    pub framerate: Framerate,
}

impl VideoCaptureImageConfiguration {
    /// Two configurations agree exactly when all three components do.
    pub open spec fn eq_spec_components(&self, other: &Self) -> bool {
        self.format@ == other.format@ && self.resolution == other.resolution
            && self.framerate == other.framerate
    }
}

impl PartialEq for VideoCaptureImageConfiguration {
    fn eq(&self, other: &Self) -> (r: bool)
        ensures
            r == self.eq_spec_components(other),
    {
        self.format == other.format && self.resolution == other.resolution && self.framerate
            == other.framerate
    }
}

impl Eq for VideoCaptureImageConfiguration {}

impl vstd::std_specs::cmp::PartialEqSpecImpl for VideoCaptureImageConfiguration {
    open spec fn obeys_eq_spec() -> bool {
        true
    }

    open spec fn eq_spec(&self, other: &Self) -> bool {
        self.eq_spec_components(other)
    }
}

} // verus!
