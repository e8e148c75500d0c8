//! What is known of a device's model.
use vstd::prelude::*;

verus! {

/// The configuration panels that a device has a use for.
#[derive(Clone, Copy, Debug, PartialEq, Eq, Structural)]
pub struct Capabilities {
    /// Rebindable buttons.
    pub buttons: bool,
    /// Adjustable pointer speed.
    pub pointer: bool,
    /// RGB lighting.
    pub lighting: bool,
    /// Native scroll-wheel inversion.
    pub scroll_inversion: bool,
}

/// What sort of device it is.
#[derive(Debug, PartialEq, Eq)]
pub enum DeviceKind {
    Mouse,
    /// Any other sort, by name.
    Other(String),
}

impl Clone for DeviceKind {
    fn clone(&self) -> (r: Self)
        ensures
            r == *self,
    {
        match self {
            DeviceKind::Mouse => DeviceKind::Mouse,
            DeviceKind::Other(name) => DeviceKind::Other(name.clone()),
        }
    }
}

/// The HID++ model identity of a device (feature 0x0003), as the text of its
/// record. It is carried along and not looked into.
#[derive(Debug, PartialEq, Eq)]
pub struct DeviceModelInfo {
    pub record: String,
}

impl Clone for DeviceModelInfo {
    fn clone(&self) -> (r: Self)
        ensures
            r == *self,
    {
        DeviceModelInfo { record: self.record.clone() }
    }
}

} // verus!
