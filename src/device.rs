//! The device session: its error stack and its current storage list.
use vstd::prelude::*;

use crate::error::{failure_of, latest_error_of, Error, ErrorEntry, ErrorStack};
use crate::object::filetypes::{filetype_of_code, Filetype};
use crate::storage::{StoragePool, StorageRecord};
use crate::values::{AllowedValues, RawAllowedValues};
use vstd::utf8::{decode_utf8, valid_utf8};

pub mod capabilities;
pub mod raw;

verus! {

/// How the native layer orders the storage list when it refreshes it.
#[derive(Debug, Clone, Copy, PartialEq, Eq, Structural)]
pub enum StorageSort {
    /// Keep the device's order.
    NotSorted,
    /// Most free space first.
    ByFreeSpace,
    /// Largest capacity first.
    ByMaximumSpace,
}

impl StorageSort {
    /// The native sort code.
    pub fn native_code(&self) -> (r: i32)
        ensures
            r == match self {
                StorageSort::NotSorted => 0i32,
                StorageSort::ByFreeSpace => 1i32,
                StorageSort::ByMaximumSpace => 2i32,
            },
    {
        match self {
            StorageSort::NotSorted => 0,
            StorageSort::ByFreeSpace => 1,
            StorageSort::ByMaximumSpace => 2,
        }
    }
}

/// How far a storage refresh succeeded.
#[derive(Debug, Clone, Copy, PartialEq, Eq, Structural)]
pub enum UpdateResult {
    /// Ids and properties of all storages were read.
    Success,
    /// Only the ids were read; the other attributes are zero.
    OnlyIds,
}

/// Power source of a device.
#[derive(Debug, Clone, Copy, PartialEq, Eq, Structural)]
pub enum BatteryLevel {
    /// On battery, with its current level.
    OnBattery(u8),
    /// On external power.
    OnExternalPower,
}

/// The file types among native codes that this layer can handle, in the given order.
pub open spec fn known_filetypes(codes: Seq<u16>) -> Seq<Filetype>
    decreases codes.len(),
{
    if codes.len() == 0 {
        Seq::empty()
    } else {
        let prev = known_filetypes(codes.drop_last());
        match filetype_of_code(codes.last() as u32) {
            Some(t) => prev.push(t),
            None => prev,
        }
    }
}

/// Session state of one opened device: the error stack that the native layer fills, and
/// the storage list of the last refresh. Each outcome reader leaves the error stack empty,
/// on success too, so no entry outlives the operation that caused it.
#[derive(Debug)]
pub struct MtpDevice {
    pub errors: ErrorStack,
    pub storages: Vec<StorageRecord>,
}

impl MtpDevice {
    /// Entries of the error stack not read yet.
    pub open spec fn errors(&self) -> Seq<ErrorEntry> {
        self.errors@
    }

    /// The storage list of the last refresh.
    pub open spec fn storages(&self) -> Seq<StorageRecord> {
        self.storages@
    }

    /// A freshly opened session: no errors, no storage list yet.
    pub fn new() -> (r: MtpDevice)
        ensures
            r.errors().len() == 0,
            r.storages().len() == 0,
    {
        MtpDevice { errors: ErrorStack::new(), storages: Vec::new() }
    }

    /// Records an entry that the native layer put on its error stack.
    pub fn record_error(&mut self, entry: ErrorEntry)
        ensures
            final(self).errors() == old(self).errors().push(entry),
            final(self).storages() == old(self).storages(),
    {
        self.errors.push(entry);
    }

    /// Reads the latest error and clears the stack.
    pub fn latest_error(&mut self) -> (r: Option<Error>)
        ensures
            latest_error_of(old(self).errors(), r),
            final(self).errors().len() == 0,
            final(self).storages() == old(self).storages(),
    {
        self.errors.latest_error()
    }

    /// Reads the outcome of a query for one of the device's strings (friendly name, sync
    /// partner, manufacturer, model, serial number, certificate, secure time): nothing is
    /// a failure, bytes that are not UTF-8 a `Utf8Error`.
    pub fn text_property(&mut self, raw: Option<Vec<u8>>) -> (r: Result<String, Error>)
        ensures
            final(self).storages() == old(self).storages(),
            match raw {
                None => final(self).errors().len() == 0 && match r {
                    Err(e) => failure_of(old(self).errors(), e),
                    Ok(_) => false,
                },
                Some(b) => final(self).errors().len() == 0 && match r {
                    Ok(s) => valid_utf8(b@) && s@ == decode_utf8(b@),
                    Err(Error::Utf8Error { bytes }) => !valid_utf8(b@) && bytes@ == b@,
                    Err(_) => false,
                },
            },
    {
        self.errors.text(raw)
    }

    /// Reads the outcome of a battery query: the native status, the maximum level and the
    /// current level, where a current level of zero means external power.
    pub fn battery_level(&mut self, res: i32, max_level: u8, cur_level: u8) -> (r: Result<
        (BatteryLevel, u8),
        Error,
    >)
        ensures
            final(self).storages() == old(self).storages(),
            res == 0 ==> final(self).errors().len() == 0 && r == Ok::<
                (BatteryLevel, u8),
                Error,
            >(
                (
                    if cur_level == 0 {
                        BatteryLevel::OnExternalPower
                    } else {
                        BatteryLevel::OnBattery(cur_level)
                    },
                    max_level,
                ),
            ),
            res != 0 ==> final(self).errors().len() == 0 && match r {
                Err(e) => failure_of(old(self).errors(), e),
                Ok(_) => false,
            },
    {
        if res != 0 {
            Err(self.errors.failure())
        } else {
            let level = if cur_level == 0 {
                BatteryLevel::OnExternalPower
            } else {
                BatteryLevel::OnBattery(cur_level)
            };
            self.errors.clear();
            Ok((level, max_level))
        }
    }

    /// Reads the outcome of the query for supported file types: the device's claim is
    /// narrowed to the types this layer can handle, in the device's order.
    pub fn supported_filetypes(&mut self, res: i32, codes: Option<Vec<u16>>) -> (r: Result<
        Vec<Filetype>,
        Error,
    >)
        ensures
            final(self).storages() == old(self).storages(),
            res == 0 && codes is Some ==> final(self).errors().len() == 0 && match r {
                Ok(v) => v@ == known_filetypes(codes->0@),
                Err(_) => false,
            },
            !(res == 0 && codes is Some) ==> final(self).errors().len() == 0 && match r {
                Err(e) => failure_of(old(self).errors(), e),
                Ok(_) => false,
            },
    {
        if res != 0 {
            return Err(self.errors.failure());
        }
        let codes = match codes {
            Some(c) => c,
            None => {
                return Err(self.errors.failure());
            },
        };
        let mut out: Vec<Filetype> = Vec::new();
        let mut i: usize = 0;
        while i < codes.len()
            invariant
                i <= codes@.len(),
                out@ == known_filetypes(codes@.take(i as int)),
            decreases codes@.len() - i,
        {
            proof {
                assert(codes@.take(i as int + 1).drop_last() =~= codes@.take(i as int));
            }
            match Filetype::from_u32(codes[i] as u32) {
                Some(t) => out.push(t),
                None => {},
            }
            i += 1;
        }
        proof {
            assert(codes@.take(codes@.len() as int) =~= codes@);
        }
        self.errors.clear();
        Ok(out)
    }

    /// Reads the outcome of a storage refresh: zero is full success, one success with ids
    /// only; either way `storages` (in the order the native layer sorted them) replaces
    /// the list. Anything else is a failure, and the list stays.
    pub fn update_storage(&mut self, res: i32, storages: Vec<StorageRecord>) -> (r: Result<
        UpdateResult,
        Error,
    >)
        ensures
            res == 0 ==> r == Ok::<UpdateResult, Error>(UpdateResult::Success),
            res == 1 ==> r == Ok::<UpdateResult, Error>(UpdateResult::OnlyIds),
            (res == 0 || res == 1) ==> final(self).storages() == storages@ && final(self).errors().len()
                == 0,
            !(res == 0 || res == 1) ==> final(self).storages() == old(self).storages()
                && final(self).errors().len() == 0 && match r {
                Err(e) => failure_of(old(self).errors(), e),
                Ok(_) => false,
            },
    {
        if res == 0 {
            self.storages = storages;
            self.errors.clear();
            Ok(UpdateResult::Success)
        } else if res == 1 {
            self.storages = storages;
            self.errors.clear();
            Ok(UpdateResult::OnlyIds)
        } else {
            Err(self.errors.failure())
        }
    }

    /// Reads the outcome of asking whether a property is supported for a file type:
    /// positive yes, zero no, negative a failure.
    pub fn is_property_supported(&mut self, res: i32) -> (r: Result<bool, Error>)
        ensures
            final(self).storages() == old(self).storages(),
            res >= 0 ==> r == Ok::<bool, Error>(res > 0) && final(self).errors().len() == 0,
            res < 0 ==> final(self).errors().len() == 0 && match r {
                Err(e) => failure_of(old(self).errors(), e),
                Ok(_) => false,
            },
    {
        if res == 0 {
            self.errors.clear();
            Ok(false)
        } else if res > 0 {
            self.errors.clear();
            Ok(true)
        } else {
            Err(self.errors.failure())
        }
    }

    /// Reads the outcome of the query for the values a property allows: the native status
    /// and the descriptor it filled. A descriptor with an unknown type code is `Unknown`.
    pub fn allowed_property_values(&mut self, res: i32, raw: Option<RawAllowedValues>) -> (r:
        Result<AllowedValues, Error>)
        ensures
            final(self).storages() == old(self).storages(),
            res != 0 || raw is None ==> final(self).errors().len() == 0 && match r {
                Err(e) => failure_of(old(self).errors(), e),
                Ok(_) => false,
            },
            res == 0 && raw is Some ==> final(self).errors().len() == 0 && match r {
                Ok(a) => a.decodes(raw->0) && a.wf(),
                Err(e) => e == Error::Unknown && crate::values::datatype_of_code(
                    raw->0.datatype,
                ) is None,
            },
    {
        if res != 0 {
            return Err(self.errors.failure());
        }
        match raw {
            None => Err(self.errors.failure()),
            Some(raw) => {
                self.errors.clear();
                match AllowedValues::from_raw(raw) {
                    Some(a) => Ok(a),
                    None => Err(Error::Unknown),
                }
            },
        }
    }

    /// The pool of the current storage list. It may be empty.
    pub fn storage_pool(&self) -> (r: StoragePool<'_>)
        ensures
            r.built_from(*self, self.storages()),
    {
        StoragePool::from_raw(self, &self.storages)
    }
}

} // verus!
