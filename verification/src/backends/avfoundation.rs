//! The AVFoundation (Apple) capture backend.
//!
//! Only the identity types live here: the streaming path of this backend
//! is a stub, and the discovery and session plumbing belong to the host
//! program that links the platform frameworks.

use vstd::prelude::*;

use crate::VideoCaptureDescriptor;

verus! {

/// The AVFoundation backend.
#[derive(Clone, Copy, Debug, PartialEq, Eq, Structural)]
pub struct AvBackend;

/// A descriptor for an AVFoundation device.
#[derive(Clone, Debug, PartialEq)]
pub struct AvDescriptor {
    /// This device's unique identifier.
    pub device_identifier: String,
    /// Manufacturer-provided model information.
    pub device_model: String,
}

impl VideoCaptureDescriptor for AvDescriptor {
    type IdentiferTy = String;

    type ModelTy = String;

    open spec fn spec_identifier(&self) -> String {
        self.device_identifier
    }

    open spec fn spec_model(&self) -> String {
        self.device_model
    }

    #[inline]
    fn device_identifier(&self) -> (r: Self::IdentiferTy)
        ensures
            r == self.device_identifier,
    {
        self.device_identifier.clone()
    }

    #[inline]
    fn device_model(&self) -> (r: Self::ModelTy)
        ensures
            r == self.device_model,
    {
        self.device_model.clone()
    }
}

} // verus!
