//! Errors for video capture devices and their surrounding operations.
//!
//! Every failure is surfaced to the caller as a typed value carrying the
//! offending source path and a human-readable cause; none of the library's
//! operations panic or retry on their own.

use vstd::prelude::*;

use crate::config::{Format, ResolutionSetting, VideoCaptureImageConfiguration};

verus! {

/// An error that occurs when attempting to first access a system video
/// capture device.
///
/// Note that this is non-exhaustive to account for possible new backends
/// and features.
#[derive(Clone, Debug, PartialEq)]
#[non_exhaustive]
pub enum VideoCaptureConnectionError {
    /// The given source does not exist or does not contain a capture device.
    SourceDoesntExist { source: String },

    /// The backend did not find any video capture devices.
    ///
    /// Only use this variant with the `new_first` or similar methods.
    NoCaptureDevices,

    /// The capture device with the given source is busy.
    CaptureDeviceBusy { source: String, err_msg: String },

    /// We couldn't ask the device to stop.
    StopError { source: String, err_msg: String },

    /// When attempting to reconnect, the device is connected already.
    AlreadyConnected { source: String },

    /// A failure when getting the capture device's info.
    CouldntGetDeviceInfo { source: String, err_msg: String },

    /// On reconnection, the device at the source does not share a serial
    /// number with the original device.
    ReconnectionSerialMismatch { source: String, original: String, now: String },

    /// On reconnection, the device at the source does not share a model
    /// number with the original device.
    ReconnectionModelMismatch { source: String, original: String, now: String },

    /// The device gave an error when we tried to first read from it.
    WarmUpFailed { source: String, err_msg: String },
}

/// An error that occurs when we fail to read from a capture device.
#[derive(Clone, Debug, PartialEq)]
#[non_exhaustive]
pub enum VideoCaptureUsageError {
    /// An I/O error when attempting to access data from the device.
    IoError { source: String, err_msg: String },
}

/// An error that occurs when configuring a video capture device.
#[derive(Clone, Debug, PartialEq)]
#[non_exhaustive]
pub enum VideoCaptureConfigError {
    /// The capture device does not appear to contain the requested property.
    PropertyNotFound { source: String, property_name: String },

    /// Failed to write a property to the device.
    PropertyWriteFailure { source: String, err_msg: String },

    /// The capture device cannot use the given image configuration.
    UnsupportedImageConfiguration { source: String, image_conf: VideoCaptureImageConfiguration },

    /// The capture device did not respond to the request for format
    /// properties.
    CouldntGetFormat { source: String, err_msg: String },

    /// The capture device cannot use the given resolution with the given
    /// image configuration.
    IncompatibleResolution { source: String, resolution: ResolutionSetting, format: Format },

    /// The capture device failed to list any configurations.
    DeviceDoesntListConfigurations { source: String, err_msg: String },
}

} // verus!
