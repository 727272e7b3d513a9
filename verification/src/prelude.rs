//! The useful traits and types from this crate, in one import.

pub use super::backends::{Backend, BackendSelection, BackendType};
pub use super::config::{
    Format, Framerate, ResolutionSetting, SpecificResolution, VideoCaptureConfiguration,
    VideoCaptureImageConfiguration, VideoCaptureProperty,
};
pub use super::error::{
    VideoCaptureConfigError, VideoCaptureConnectionError, VideoCaptureUsageError,
};
pub use super::{
    VideoCapture, VideoCaptureConnection, VideoCaptureDescriptor, VideoCaptureStream,
};
