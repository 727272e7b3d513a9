//! The per-platform capture backends and the contract they share.

use vstd::prelude::*;

pub mod avfoundation;
pub mod v4l;

use crate::VideoCaptureDescriptor;

verus! {

/// A user's selected backend.
#[derive(Clone, Debug, PartialEq, Eq, Structural)]
pub enum BackendSelection {
    Auto,
    Custom(BackendType),
}

/// A list of all supported backends.
#[derive(Clone, Debug, PartialEq, Eq, Structural)]
#[non_exhaustive]
pub enum BackendType {
    /// Video4Linux 2, the Linux kernel's capture subsystem.
    V4L2,
    /// An agnostic backend which has logic for older systems.
    FFmpeg,
    /// AVFoundation is the modern Apple backend.
    AvFoundation,
    /// MediaFoundation is the new Windows (10+) backend.
    MediaFoundation,
    /// An older backend for Windows. Somewhat slow.
    DirectShow,
}

/// Every backend reports a stable backend-type tag and conforms to the
/// same shape — enumerate, connect, stream, configure — so a caller can
/// select "auto" or a specific backend without code changes elsewhere.
pub trait Backend<'path, 'conn> where 'path: 'conn {
    type Descriptor: VideoCaptureDescriptor;

    type Device;

    type Source;

    type OwnedSource;

    /// Returns a list of video capture devices, like webcams and cameras,
    /// that are currently connected to the system (according to the
    /// backend).
    ///
    /// Note that a backend may list several capture devices for one
    /// physical device, completely miss a device, or some other issue.
    ///
    /// If you do encounter such a problem, please report it.
    fn list_connected_devices() -> Vec<Self::OwnedSource>;

    /// Returns an identifier for this backend.
    fn backend_type() -> BackendType;
}

} // verus!
