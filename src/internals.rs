//! Library-wide state of the native layer.
use vstd::prelude::*;

use crate::error::Error;

verus! {

/// An entry of the native list of devices the native layer knows.
#[derive(Debug, Clone)]
pub struct DeviceEntry {
    pub vendor: String,
    pub vendor_id: u16,
    pub product: String,
    pub product_id: u16,
    pub device_flags: u32,
}

/// Reads the outcome of asking for the native list of known devices: a non-zero status
/// is a failure, which the native layer reports on no session, so it is `Unknown`.
pub fn supported_devices_outcome(res: i32, entries: Vec<DeviceEntry>) -> (r: Result<
    Vec<DeviceEntry>,
    Error,
>)
    ensures
        res == 0 ==> r is Ok && r->Ok_0@ == entries@,
        res != 0 ==> r == Err::<Vec<DeviceEntry>, Error>(Error::Unknown),
{
    if res != 0 {
        Err(Error::Unknown)
    } else {
        Ok(entries)
    }
}

/// Whether the native library has been initialised; it is initialised once, before the
/// first call that needs it.
#[derive(Debug)]
pub struct InitState {
    done: bool,
}

impl InitState {
    /// Whether initialisation has happened.
    pub closed spec fn done(&self) -> bool {
        self.done
    }

    /// Nothing initialised yet.
    pub fn new() -> (r: InitState)
        ensures
            !r.done(),
    {
        InitState { done: false }
    }

    /// Called before a call that needs the native library: true exactly the first time,
    /// when the caller must initialise it now.
    pub fn maybe_init(&mut self) -> (r: bool)
        ensures
            r == !old(self).done(),
            final(self).done(),
    {
        if self.done {
            false
        } else {
            self.done = true;
            true
        }
    }
}

} // verus!
