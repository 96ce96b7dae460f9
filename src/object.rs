//! Everything on a device is an object with a device-wide id.
use vstd::prelude::*;

pub mod filetypes;

verus! {

/// Anything that can stand where an object id is asked for.
pub trait AsObjectId {
    /// The object id that `self` stands for.
    spec fn object_id(&self) -> u32;

    /// The object id.
    fn as_id(&self) -> (r: u32)
        ensures
            r == self.object_id(),
    ;
}

/// A plain id stands for itself; use it only for an id known to be valid.
impl AsObjectId for u32 {
    open spec fn object_id(&self) -> u32 {
        *self
    }

    fn as_id(&self) -> (r: u32) {
        *self
    }
}

} // verus!
