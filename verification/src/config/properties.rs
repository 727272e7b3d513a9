//! Free-form, backend-defined configuration properties.

use vstd::prelude::*;

use crate::error::VideoCaptureConfigError;

verus! {

/// Methods to read and adjust the free-form properties a device exposes.
pub trait VideoCaptureProperties {
    /// Lists the properties available on this device.
    ///
    /// For more information about each property, consult the documentation
    /// for the active backend.
    fn properties(&self) -> Vec<VideoCaptureProperty>;

    /// Attempts to get a property from the video capture device's
    /// configuration.
    ///
    /// This may return `None` if the property is not found or the device is
    /// disconnected.
    fn property(&self, key: String) -> Option<VideoCaptureProperty>;

    /// Attempts to set a property.
    ///
    /// # Errors
    ///
    /// This can return an error when the device refuses the write.
    fn set_property(&mut self) -> Result<(), VideoCaptureConfigError>;
}

/// One of many adjustable properties that a video capture device has.
#[derive(Clone, Debug)]
pub struct VideoCaptureProperty {
    key: String,
    value: String,
}

impl VideoCaptureProperty {
    /// The property's name, as the backend spells it.
    pub closed spec fn spec_key(&self) -> Seq<char> {
        self.key@
    }

    /// The property's current or requested value.
    pub closed spec fn spec_value(&self) -> Seq<char> {
        self.value@
    }

    /// Creates a new property from its key and value.
    #[inline]
    pub fn with_value(key: String, value: String) -> (r: Self)
        ensures
            r.spec_key() == key@,
            r.spec_value() == value@,
    {
        VideoCaptureProperty { key, value }
    }

    /// Creates a new property from its key and anything that converts
    /// into a value string.
    ///
    /// The conversion runs through `Into`, whose result this crate's
    /// contracts cannot speak of; `with_value` is the constructor with
    /// the full contract.
    #[inline]
    pub fn new<Val: Into<String>>(key: String, val: Val) -> (r: Self)
        ensures
            r.spec_key() == key@,
    {
        VideoCaptureProperty::with_value(key, val.into())
    }

    #[inline]
    pub fn key(&self) -> (r: String)
        ensures
            r@ == self.spec_key(),
    {
        self.key.clone()
    }

    #[inline]
    pub fn value(&self) -> (r: String)
        ensures
            r@ == self.spec_value(),
    {
        self.value.clone()
    }
}

} // verus!
