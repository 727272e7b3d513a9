//! A cross-platform abstraction over operating-system video-capture
//! subsystems (webcams and similar devices).
//!
//! Device discovery, connection, streaming and format configuration are
//! unified behind one polymorphic interface; each backend talks to its
//! native capture API. The heart of this crate is the Linux backend's
//! device-identity and low-level configuration subsystem: resolving the
//! kernel's dual device-node topology, decoding raw ioctl response
//! buffers, and the connection/reconnection state machine that re-verifies
//! device identity before resuming a session.

use vstd::prelude::*;

pub mod backends;
pub mod config;
pub mod error;
pub mod prelude;
pub mod text;

use error::{VideoCaptureConnectionError, VideoCaptureUsageError};

verus! {

/// Identifying information for a video capture device.
pub trait VideoCaptureDescriptor {
    type IdentiferTy;

    type ModelTy;

    /// The serial identity this descriptor stands for.
    spec fn spec_identifier(&self) -> Self::IdentiferTy;

    /// The model identity this descriptor stands for.
    spec fn spec_model(&self) -> Self::ModelTy;

    /// Returns a unique serial ID string for a capture device.
    fn device_identifier(&self) -> (r: Self::IdentiferTy)
        ensures
            r == self.spec_identifier(),
    ;

    /// Returns the device model of a capture device.
    fn device_model(&self) -> (r: Self::ModelTy)
        ensures
            r == self.spec_model(),
    ;
}

/// The connection lifecycle of a capture device: a session is either
/// fully connected or fully disconnected, and may be rebuilt in place.
pub trait VideoCaptureConnection<'path, Source> where Source: 'path, Self: Sized {
    /// The source input type that a stream will take by default.
    ///
    /// Note that this should NEVER be an index. Always require some unique
    /// identifier to connect to a capture device.
    type Source;

    /// Creates a new video capture device representation.
    ///
    /// This will automatically connect to the capture device and return an
    /// error if the connection isn't working as expected.
    ///
    /// # Errors
    ///
    /// This method can error if the video capture device isn't connected
    /// to the system or is already in use.
    fn new(source: Self::Source) -> Result<Self, VideoCaptureConnectionError>;

    /// Attempts to create a new capture device by checking for any
    /// available devices on the system.
    ///
    /// # Errors
    ///
    /// Can error if there are no capture devices on the system or the
    /// device is inaccessible.
    fn new_first() -> Result<Self, VideoCaptureConnectionError>;

    /// Attempts to disconnect from the device.
    ///
    /// # Errors
    ///
    /// If the device is already disconnected or isn't responding, this
    /// method may return an error.
    fn disconnect(&mut self) -> Result<(), VideoCaptureConnectionError>;

    /// Attempts to reconnect to an inactive video capture device.
    ///
    /// # Errors
    ///
    /// This method can error if the video capture device isn't connected
    /// to the system, is already in use, or is already connected to this
    /// instance.
    fn reconnect(&mut self) -> Result<(), VideoCaptureConnectionError>;
}

/// Some kind of 'stream' which yields frames when prompted.
///
/// In reality, this is likely calling a function which accesses a stream,
/// but it's effectively a stream either way!
pub trait VideoCaptureStream<'path, 'conn, Source> where 'path: 'conn, Source: 'path, Self: Sized {
    /// A buffer type which the stream will write into.
    type Buffer;

    /// The source input type that a stream will take by default.
    type Source;

    /// A backend's frame type.
    type Metadata;

    /// Attempts to read a frame from the stream into the stream's
    /// internal buffer.
    ///
    /// # Errors
    ///
    /// This can return an error if the backend doesn't support the
    /// capture device, it is disconnected, or it is in use by another
    /// application.
    fn read_frame<'func>(&'func mut self) -> Result<
        (&'func [u8], &'func Self::Metadata),
        VideoCaptureUsageError,
    > where 'path: 'func;
}

/// A generic video capture device for any backend.
///
/// Each backend supplies its own type parameters: the session exclusively
/// owns its device handle and stream handle, and holds the descriptor
/// captured at first connection together with the resolved source.
#[derive(Clone, Debug)]
pub struct VideoCapture<Desc: VideoCaptureDescriptor, Device, Source, Stream> {
    /// The identity captured at first connection, compared on reconnect.
    pub descriptor: Desc,
    /// The owned device handle.
    pub device: Device,
    /// The resolved source of this session.
    pub source: Source,
    /// The owned stream handle, for reading frames.
    pub stream: Stream,
}

impl<Desc: VideoCaptureDescriptor, Device, Source, Stream> VideoCapture<
    Desc,
    Device,
    Source,
    Stream,
> {
    /// Returns a unique serial ID string for a capture device.
    #[inline]
    pub fn device_identifer(&self) -> (r: Desc::IdentiferTy)
        ensures
            r == self.descriptor.spec_identifier(),
    {
        self.descriptor.device_identifier()
    }

    /// Returns the device model of a capture device.
    #[inline]
    pub fn device_model(&self) -> (r: Desc::ModelTy)
        ensures
            r == self.descriptor.spec_model(),
    {
        self.descriptor.device_model()
    }
}

} // verus!
