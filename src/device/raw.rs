//! Raw device descriptors, as device detection gives them.
use vstd::prelude::*;

use crate::error::{kind_of_number, Error, MtpErrorKind};
use crate::internals::DeviceEntry;

verus! {

/// A connected USB device that may be opened as an MTP device.
#[derive(Debug, Clone)]
pub struct RawDevice {
    pub bus_location: u32,
    pub devnum: u8,
    pub device_entry: DeviceEntry,
}

impl RawDevice {
    /// Bus number of the device.
    pub fn bus_number(&self) -> (r: u32)
        ensures
            r == self.bus_location,
    {
        self.bus_location
    }

    /// Device number on its bus.
    pub fn dev_number(&self) -> (r: u8)
        ensures
            r == self.devnum,
    {
        self.devnum
    }

    /// The entry of the native list of known devices that matched.
    pub fn device_entry(&self) -> (r: &DeviceEntry)
        ensures
            *r == self.device_entry,
    {
        &self.device_entry
    }
}

/// Reads the outcome of device detection: a documented native error number is a failure
/// of that kind; anything else hands the devices on.
pub fn detect_outcome(code: u32, devices: Vec<RawDevice>) -> (r: Result<Vec<RawDevice>, Error>)
    ensures
        match kind_of_number(code) {
            Some(k) => match r {
                Err(Error::MtpError { kind, text }) => kind == k && text@
                    == "Failed to detect raw devices"@,
                _ => false,
            },
            None => r is Ok && r->Ok_0@ == devices@,
        },
{
    match MtpErrorKind::from_error_number(code) {
        Some(kind) => Err(Error::MtpError { kind, text: "Failed to detect raw devices".to_owned() }),
        None => Ok(devices),
    }
}

} // verus!
