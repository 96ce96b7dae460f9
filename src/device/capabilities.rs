//! Optional abilities of a device, checked at run time.
use vstd::prelude::*;

verus! {

/// Abilities that a device may lack.
#[derive(Debug, Clone, Copy, PartialEq, Eq, Structural)]
pub enum DeviceCapability {
    /// Reading part of an object.
    GetPartialObject,
    /// Sending part of an object.
    SendPartialObject,
    /// Editing objects in place.
    EditObjects,
    /// Moving objects.
    MoveObject,
    /// Copying objects.
    CopyObject,
}

impl DeviceCapability {
    /// The native capability code.
    pub fn native_code(&self) -> (r: u32)
        ensures
            r == match self {
                DeviceCapability::GetPartialObject => 0u32,
                DeviceCapability::SendPartialObject => 1u32,
                DeviceCapability::EditObjects => 2u32,
                DeviceCapability::MoveObject => 3u32,
                DeviceCapability::CopyObject => 4u32,
            },
    {
        match self {
            DeviceCapability::GetPartialObject => 0,
            DeviceCapability::SendPartialObject => 1,
            DeviceCapability::EditObjects => 2,
            DeviceCapability::MoveObject => 3,
            DeviceCapability::CopyObject => 4,
        }
    }
}

} // verus!
