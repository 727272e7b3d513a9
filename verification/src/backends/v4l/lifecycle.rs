//! The connection lifecycle's decision logic.
//!
//! A session is either fully connected or fully disconnected. Connecting
//! opens the device, opens a stream and performs one warm-up read;
//! reconnecting first refuses if the device is still live, then
//! re-verifies the device's identity against the descriptor captured at
//! first connection, and only on a full match reopens anything.
//!
//! The device work itself — probing nodes, ioctls, opening handles — is
//! the caller's; each decision between steps is a pure function here, so
//! a failed step can never be followed by more device work.

use vstd::prelude::*;

use crate::backends::v4l::{V4LSource, V4LVideoCaptureDescriptor};
use crate::error::{VideoCaptureConnectionError, VideoCaptureUsageError};
use crate::{VideoCapture, VideoCaptureDescriptor};

verus! {

/// Chooses the connection error for a failed device or stream open:
/// a missing path is reported as a missing source, anything else as the
/// device being held busy, with the underlying message attached.
pub fn classify_open_failure(source_str: &String, not_found: bool, err_msg: String) -> (r:
    VideoCaptureConnectionError)
    ensures
        not_found ==> (r matches VideoCaptureConnectionError::SourceDoesntExist { source }
            && source@ == source_str@),
        !not_found ==> (r matches VideoCaptureConnectionError::CaptureDeviceBusy {
            source,
            err_msg: m,
        } && source@ == source_str@ && m@ == err_msg@),
{
    if not_found {
        VideoCaptureConnectionError::SourceDoesntExist { source: source_str.clone() }
    } else {
        VideoCaptureConnectionError::CaptureDeviceBusy { source: source_str.clone(), err_msg }
    }
}

/// Wraps a failed identity lookup, naming the caller's original source.
pub fn identity_lookup_failure(source_str: &String, err_msg: String) -> (r:
    VideoCaptureConnectionError)
    ensures
        r matches VideoCaptureConnectionError::CouldntGetDeviceInfo { source, err_msg: m }
            && source@ == source_str@ && m@ == err_msg@,
{
    VideoCaptureConnectionError::CouldntGetDeviceInfo { source: source_str.clone(), err_msg }
}

/// Wraps a failed warm-up read: a device that cannot produce one frame
/// cannot be trusted for streaming, so this is fatal to the attempt.
pub fn warm_up_failure(source_str: &String, err_msg: String) -> (r: VideoCaptureConnectionError)
    ensures
        r matches VideoCaptureConnectionError::WarmUpFailed { source, err_msg: m } && source@
            == source_str@ && m@ == err_msg@,
{
    VideoCaptureConnectionError::WarmUpFailed { source: source_str.clone(), err_msg }
}

/// Wraps a failure to stop the stream on disconnect.
pub fn stop_failure(source_str: &String, err_msg: String) -> (r: VideoCaptureConnectionError)
    ensures
        r matches VideoCaptureConnectionError::StopError { source, err_msg: m } && source@
            == source_str@ && m@ == err_msg@,
{
    VideoCaptureConnectionError::StopError { source: source_str.clone(), err_msg }
}

/// Picks the first enumerated device, or reports that there is none.
pub fn first_device(devices: &Vec<String>) -> (r: Result<String, VideoCaptureConnectionError>)
    ensures
        r is Err <==> devices@.len() == 0,
        r matches Err(e) ==> e == VideoCaptureConnectionError::NoCaptureDevices,
        r matches Ok(d) ==> devices@.len() > 0 && d@ == devices.deep_view()[0],
{
    if devices.len() == 0 {
        Err(VideoCaptureConnectionError::NoCaptureDevices)
    } else {
        Ok(devices[0].clone())
    }
}

/// Compares a freshly fetched identity against the descriptor captured at
/// first connection. The model is compared first, then the serial; a
/// mismatch in either is its own distinct, non-retryable error.
pub fn check_reconnect_identity(
    descriptor: &V4LVideoCaptureDescriptor,
    source_str: &String,
    now_serial: &String,
    now_model: &String,
) -> (r: Result<(), VideoCaptureConnectionError>)
    ensures
        r is Ok <==> now_model@ == descriptor.device_model@ && now_serial@
            == descriptor.device_identifier@,
        now_model@ != descriptor.device_model@ ==> (r matches Err(e) && e matches
            VideoCaptureConnectionError::ReconnectionModelMismatch { source, original, now }
            && source@ == source_str@ && original@ == descriptor.device_model@ && now@
            == now_model@),
        now_model@ == descriptor.device_model@ && now_serial@ != descriptor.device_identifier@
            ==> (r matches Err(e) && e matches
            VideoCaptureConnectionError::ReconnectionSerialMismatch { source, original, now }
            && source@ == source_str@ && original@ == descriptor.device_identifier@ && now@
            == now_serial@),
{
    if !now_model.eq(&descriptor.device_model) {
        return Err(
            VideoCaptureConnectionError::ReconnectionModelMismatch {
                source: source_str.clone(),
                original: descriptor.device_model.clone(),
                now: now_model.clone(),
            },
        );
    }
    if !now_serial.eq(&descriptor.device_identifier) {
        return Err(
            VideoCaptureConnectionError::ReconnectionSerialMismatch {
                source: source_str.clone(),
                original: descriptor.device_identifier.clone(),
                now: now_serial.clone(),
            },
        );
    }
    Ok(())
}

/// Refuses a reconnection while the session's nodes still resolve to live
/// files: the session is then already connected, and nothing may change.
pub fn reconnect_liveness_gate(source_str: &String, video_exists: bool, media_exists: bool) -> (r:
    Result<(), VideoCaptureConnectionError>)
    ensures
        r is Err <==> video_exists && media_exists,
        r matches Err(e) ==> (e matches VideoCaptureConnectionError::AlreadyConnected { source }
            && source@ == source_str@),
{
    if video_exists && media_exists {
        Err(VideoCaptureConnectionError::AlreadyConnected { source: source_str.clone() })
    } else {
        Ok(())
    }
}

impl<Device, Stream> VideoCapture<V4LVideoCaptureDescriptor, Device, V4LSource, Stream> {
    /// The already-connected refusal, on the session itself.
    ///
    /// While both of the session's nodes still resolve, a reconnection
    /// is refused with the already-connected error, naming the session's
    /// given path. The session is borrowed immutably, so a refused
    /// double-connect can alter nothing of it — descriptor, source,
    /// device handle and stream stand exactly as before the call.
    pub fn refuse_if_connected(&self, video_exists: bool, media_exists: bool) -> (r: Result<
        (),
        VideoCaptureConnectionError,
    >)
        ensures
            r is Err <==> video_exists && media_exists,
            r matches Err(e) ==> (e matches VideoCaptureConnectionError::AlreadyConnected {
                source,
            } && source@ == self.source.given@),
    {
        let source_str = self.source.user_source_string();
        reconnect_liveness_gate(&source_str, video_exists, media_exists)
    }
}

/// Wraps an I/O failure while reading a frame from an otherwise
/// connected device.
pub fn frame_read_failure(source_str: &String, err_msg: String) -> (r: VideoCaptureUsageError)
    ensures
        r matches VideoCaptureUsageError::IoError { source, err_msg: m } && source@
            == source_str@ && m@ == err_msg@,
{
    VideoCaptureUsageError::IoError { source: source_str.clone(), err_msg }
}

/// Where a reconnection attempt stands, and what device work it asks the
/// caller to do next.
#[derive(Debug)]
pub enum ReconnectStep {
    /// Probe whether both of the session's nodes still resolve.
    ProbeNodes,
    /// Fetch the device identity from the original control node.
    FetchIdentity,
    /// Identity matched: open a device handle on the streaming node.
    OpenDevice,
    /// Open a stream on the new device handle.
    OpenStream,
    /// Perform the warm-up read on the new stream.
    WarmUp,
    /// Reconnection succeeded.
    Done,
    /// Reconnection failed; no more device work may happen.
    Failed(VideoCaptureConnectionError),
}

/// What the caller observed while doing the device work one step asked
/// for.
#[derive(Debug)]
pub enum ReconnectEvent {
    /// Whether the streaming and control nodes currently resolve.
    NodesProbed { video_exists: bool, media_exists: bool },
    /// The identity lookup succeeded with this serial and model.
    IdentityFetched { serial: String, model: String },
    /// The identity lookup failed.
    IdentityUnavailable { err_msg: String },
    /// The device handle opened.
    DeviceOpened,
    /// The device handle could not be opened.
    DeviceOpenFailed,
    /// The stream opened.
    StreamOpened,
    /// The stream could not be opened.
    StreamOpenFailed { err_msg: String },
    /// The warm-up read returned a frame.
    WarmedUp,
    /// The warm-up read failed.
    WarmUpFailed { err_msg: String },
}

/// One decision of the reconnection state machine.
///
/// The caller reports what its device work observed, and is told what to
/// do next. A failed attempt absorbs every further event, so no failure
/// is ever followed by a step that opens a handle; an event that does not
/// answer the current step leaves the attempt where it stood.
pub fn reconnect_step(
    descriptor: &V4LVideoCaptureDescriptor,
    source_str: &String,
    state: ReconnectStep,
    event: &ReconnectEvent,
) -> (next: ReconnectStep)
    ensures
        state is Failed ==> next == state,
        state is Done ==> next == state,
        state is ProbeNodes ==> (event matches ReconnectEvent::NodesProbed {
            video_exists,
            media_exists,
        } ==> if *video_exists && *media_exists {
            next matches ReconnectStep::Failed(e) && (e matches
                VideoCaptureConnectionError::AlreadyConnected { source } && source@
                == source_str@)
        } else {
            next is FetchIdentity
        }),
        state is FetchIdentity ==> (event matches ReconnectEvent::IdentityFetched {
            serial,
            model,
        } ==> {
            if model@ != descriptor.device_model@ {
                next matches ReconnectStep::Failed(e) && (e matches
                    VideoCaptureConnectionError::ReconnectionModelMismatch {
                    source,
                    original,
                    now,
                } && source@ == source_str@ && original@ == descriptor.device_model@ && now@
                    == model@)
            } else if serial@ != descriptor.device_identifier@ {
                next matches ReconnectStep::Failed(e) && (e matches
                    VideoCaptureConnectionError::ReconnectionSerialMismatch {
                    source,
                    original,
                    now,
                } && source@ == source_str@ && original@ == descriptor.device_identifier@
                    && now@ == serial@)
            } else {
                next is OpenDevice
            }
        }),
        state is FetchIdentity ==> (event matches ReconnectEvent::IdentityUnavailable {
            err_msg,
        } ==> (next matches ReconnectStep::Failed(e) && e matches
            VideoCaptureConnectionError::CouldntGetDeviceInfo { source, err_msg: m } && source@
            == source_str@ && m@ == err_msg@)),
        state is OpenDevice && event is DeviceOpened ==> next is OpenStream,
        state is OpenDevice && event is DeviceOpenFailed ==> (next matches ReconnectStep::Failed(
            e,
        ) && e matches VideoCaptureConnectionError::SourceDoesntExist { source } && source@
            == source_str@),
        state is OpenStream && event is StreamOpened ==> next is WarmUp,
        state is OpenStream ==> (event matches ReconnectEvent::StreamOpenFailed { err_msg } ==> (
        next matches ReconnectStep::Failed(e) && e matches
            VideoCaptureConnectionError::CaptureDeviceBusy { source, err_msg: m } && source@
            == source_str@ && m@ == err_msg@)),
        state is WarmUp && event is WarmedUp ==> next is Done,
        state is WarmUp ==> (event matches ReconnectEvent::WarmUpFailed { err_msg } ==> (next
            matches ReconnectStep::Failed(e) && e matches
            VideoCaptureConnectionError::WarmUpFailed { source, err_msg: m } && source@
            == source_str@ && m@ == err_msg@)),
        state is ProbeNodes && !(event is NodesProbed) ==> next == state,
        state is FetchIdentity && !(event is IdentityFetched || event is IdentityUnavailable)
            ==> next == state,
        state is OpenDevice && !(event is DeviceOpened || event is DeviceOpenFailed) ==> next
            == state,
        state is OpenStream && !(event is StreamOpened || event is StreamOpenFailed) ==> next
            == state,
        state is WarmUp && !(event is WarmedUp || event is WarmUpFailed) ==> next == state,
{
    match state {
        ReconnectStep::Failed(e) => ReconnectStep::Failed(e),
        ReconnectStep::Done => ReconnectStep::Done,
        ReconnectStep::ProbeNodes => match event {
            ReconnectEvent::NodesProbed { video_exists, media_exists } => {
                match reconnect_liveness_gate(source_str, *video_exists, *media_exists) {
                    Ok(()) => ReconnectStep::FetchIdentity,
                    Err(e) => ReconnectStep::Failed(e),
                }
            },
            _ => ReconnectStep::ProbeNodes,
        },
        ReconnectStep::FetchIdentity => match event {
            ReconnectEvent::IdentityFetched { serial, model } => {
                match check_reconnect_identity(descriptor, source_str, serial, model) {
                    Ok(()) => ReconnectStep::OpenDevice,
                    Err(e) => ReconnectStep::Failed(e),
                }
            },
            ReconnectEvent::IdentityUnavailable { err_msg } => ReconnectStep::Failed(
                identity_lookup_failure(source_str, err_msg.clone()),
            ),
            _ => ReconnectStep::FetchIdentity,
        },
        ReconnectStep::OpenDevice => match event {
            ReconnectEvent::DeviceOpened => ReconnectStep::OpenStream,
            ReconnectEvent::DeviceOpenFailed => ReconnectStep::Failed(
                VideoCaptureConnectionError::SourceDoesntExist { source: source_str.clone() },
            ),
            _ => ReconnectStep::OpenDevice,
        },
        ReconnectStep::OpenStream => match event {
            ReconnectEvent::StreamOpened => ReconnectStep::WarmUp,
            ReconnectEvent::StreamOpenFailed { err_msg } => ReconnectStep::Failed(
                VideoCaptureConnectionError::CaptureDeviceBusy {
                    source: source_str.clone(),
                    err_msg: err_msg.clone(),
                },
            ),
            _ => ReconnectStep::OpenStream,
        },
        ReconnectStep::WarmUp => match event {
            ReconnectEvent::WarmedUp => ReconnectStep::Done,
            ReconnectEvent::WarmUpFailed { err_msg } => ReconnectStep::Failed(
                warm_up_failure(source_str, err_msg.clone()),
            ),
            _ => ReconnectStep::WarmUp,
        },
    }
}

} // verus!
