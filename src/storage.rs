//! Storage units of a device and the pool that holds them, in the order the native
//! storage list gave them.
use vstd::prelude::*;
use std::collections::HashMap;

use crate::device::MtpDevice;
use crate::object::AsObjectId;
use files::{Endpoint, FileMetadata, GetRequest, SendRequest};

pub mod files;
pub mod folders;

verus! {

broadcast use vstd::std_specs::hash::group_hash_axioms;

/// Parent id that the native listing uses for the root.
pub const FILES_AND_FOLDERS_ROOT: u32 = 0xffff_ffff;

/// Where an object lives: the root, or a folder given by its id.
#[derive(Debug, Clone, Copy, PartialEq, Eq, Structural)]
pub enum Parent {
    Root,
    Folder(u32),
}

/// The parent id that native listings take for `p`.
pub open spec fn faf_id_of(p: Parent) -> u32 {
    match p {
        Parent::Root => FILES_AND_FOLDERS_ROOT,
        Parent::Folder(id) => id,
    }
}

/// The parent id that object records take for `p`.
pub open spec fn record_id_of(p: Parent) -> u32 {
    match p {
        Parent::Root => 0,
        Parent::Folder(id) => id,
    }
}

impl Parent {
    /// The parent id that native listings and folder creation take: the root sentinel
    /// for the root.
    pub fn faf_id(self) -> (r: u32)
        ensures
            r == faf_id_of(self),
    {
        match self {
            Parent::Root => FILES_AND_FOLDERS_ROOT,
            Parent::Folder(id) => id,
        }
    }

    /// The parent id that object records and moves take: zero for the root.
    pub fn to_id(self) -> (r: u32)
        ensures
            r == record_id_of(self),
    {
        match self {
            Parent::Root => 0,
            Parent::Folder(id) => id,
        }
    }

    /// Reads a parent id of a listing: the root sentinel is the root.
    pub fn from_faf_id(id: u32) -> (r: Parent)
        ensures
            r == (if id == FILES_AND_FOLDERS_ROOT { Parent::Root } else { Parent::Folder(id) }),
            faf_id_of(r) == id,
    {
        if id == FILES_AND_FOLDERS_ROOT {
            Parent::Root
        } else {
            Parent::Folder(id)
        }
    }
}

/// Kind of storage medium.
#[derive(Debug, Clone, Copy, PartialEq, Eq, Structural)]
pub enum StorageType {
    Undefined,
    FixedRom,
    RemovableRom,
    FixedRam,
    RemovableRam,
}

/// Kind of filesystem on a storage.
#[derive(Debug, Clone, Copy, PartialEq, Eq, Structural)]
pub enum FilesystemType {
    Undefined,
    GenericFlat,
    GenericHierarchical,
    DesignCameraFilesystem,
}

/// What may be done with the objects of a storage.
#[derive(Debug, Clone, Copy, PartialEq, Eq, Structural)]
pub enum AccessCapability {
    ReadWrite,
    ReadOnly,
    ReadOnlyWithObjectDeletion,
}

/// The storage type that a native code stands for; unknown codes are `Undefined`.
pub open spec fn storage_type_of(code: u16) -> StorageType {
    match code {
        1 => StorageType::FixedRom,
        2 => StorageType::RemovableRom,
        3 => StorageType::FixedRam,
        4 => StorageType::RemovableRam,
        _ => StorageType::Undefined,
    }
}

/// The filesystem type that a native code stands for; unknown codes are `Undefined`.
pub open spec fn filesystem_type_of(code: u16) -> FilesystemType {
    match code {
        1 => FilesystemType::GenericFlat,
        2 => FilesystemType::GenericHierarchical,
        3 => FilesystemType::DesignCameraFilesystem,
        _ => FilesystemType::Undefined,
    }
}

/// The access capability that a native code stands for, among the three defined.
pub open spec fn access_capability_of(code: u16) -> Option<AccessCapability> {
    match code {
        0 => Some(AccessCapability::ReadWrite),
        1 => Some(AccessCapability::ReadOnly),
        2 => Some(AccessCapability::ReadOnlyWithObjectDeletion),
        _ => None,
    }
}

impl StorageType {
    /// Decodes a native storage type code; unknown codes are `Undefined`.
    pub fn from_u16(code: u16) -> (r: StorageType)
        ensures
            r == storage_type_of(code),
    {
        match code {
            1 => StorageType::FixedRom,
            2 => StorageType::RemovableRom,
            3 => StorageType::FixedRam,
            4 => StorageType::RemovableRam,
            _ => StorageType::Undefined,
        }
    }
}

impl FilesystemType {
    /// Decodes a native filesystem type code; unknown codes are `Undefined`.
    pub fn from_u16(code: u16) -> (r: FilesystemType)
        ensures
            r == filesystem_type_of(code),
    {
        match code {
            1 => FilesystemType::GenericFlat,
            2 => FilesystemType::GenericHierarchical,
            3 => FilesystemType::DesignCameraFilesystem,
            _ => FilesystemType::Undefined,
        }
    }
}

impl AccessCapability {
    /// Decodes a native access capability code; `None` for a code outside the three
    /// that the protocol defines.
    pub fn from_u16(code: u16) -> (r: Option<AccessCapability>)
        ensures
            r == access_capability_of(code),
    {
        match code {
            0 => Some(AccessCapability::ReadWrite),
            1 => Some(AccessCapability::ReadOnly),
            2 => Some(AccessCapability::ReadOnlyWithObjectDeletion),
            _ => None,
        }
    }
}

/// A listing of the objects directly under one parent: on one storage, or on all of
/// them where `storage_id` is zero.
#[derive(Debug, Clone, Copy, PartialEq, Eq, Structural)]
pub struct ListingRequest {
    pub storage_id: u32,
    pub parent_id: u32,
}

/// Where a folder tree is asked for: the whole device, or one storage.
#[derive(Debug, Clone, Copy, PartialEq, Eq, Structural)]
pub enum FolderScope {
    Device,
    Storage(u32),
}

/// A folder to create: its name, its parent (as native listings give it) and its storage
/// (zero: the primary one).
#[derive(Debug, Clone, Copy)]
pub struct CreateFolderRequest<'b> {
    pub name: &'b str,
    pub parent_id: u32,
    pub storage_id: u32,
}

/// `r` sends a new file described by `metadata` to `parent` on storage `storage_id`.
pub open spec fn sends(
    r: SendRequest,
    parent: Parent,
    metadata: &FileMetadata,
    storage_id: u32,
    progress: bool,
) -> bool {
    &&& r.record.item_id == 0
    &&& r.record.parent_id == record_id_of(parent)
    &&& r.record.storage_id == storage_id
    &&& r.record.filesize == metadata.file_size
    &&& r.record.filename@ == metadata.file_name@
    &&& r.record.filetype == crate::object::filetypes::filetype_code(metadata.file_type)
    &&& r.record.modificationdate == metadata.modification_date
    &&& r.progress == progress
}

/// One entry of the native storage list, as plain values. After a partial refresh
/// (ids only) the attributes are zero.
#[derive(Debug, Clone)]
pub struct StorageRecord {
    pub id: u32,
    pub storage_type: u16,
    pub filesystem_type: u16,
    pub access_capability: u16,
    pub max_capacity: u64,
    pub free_space_in_bytes: u64,
    pub free_space_in_objects: u64,
    pub description: Option<String>,
    pub volume_identifier: Option<String>,
}

/// A storage of a device: a view of one entry of the device's current storage list.
#[derive(Debug, Clone, Copy)]
pub struct Storage<'a> {
    record: &'a StorageRecord,
    owner: &'a MtpDevice,
}

impl<'a> Storage<'a> {
    /// The storage list entry that this storage shows.
    pub closed spec fn record(&self) -> StorageRecord {
        *self.record
    }

    /// The device that owns this storage.
    pub closed spec fn owner(&self) -> MtpDevice {
        *self.owner
    }

    /// Id of this storage.
    pub fn id(&self) -> (r: u32)
        ensures
            r == self.record().id,
    {
        self.record.id
    }

    /// The device that owns this storage.
    pub fn device(&self) -> (r: &'a MtpDevice)
        ensures
            *r == self.owner(),
    {
        self.owner
    }

    /// Kind of storage medium.
    pub fn storage_type(&self) -> (r: StorageType)
        ensures
            r == storage_type_of(self.record().storage_type),
    {
        StorageType::from_u16(self.record.storage_type)
    }

    /// Kind of filesystem.
    pub fn filesystem_type(&self) -> (r: FilesystemType)
        ensures
            r == filesystem_type_of(self.record().filesystem_type),
    {
        FilesystemType::from_u16(self.record.filesystem_type)
    }

    /// Access capability; `None` where the device reported an undefined code.
    pub fn access_capability(&self) -> (r: Option<AccessCapability>)
        ensures
            r == access_capability_of(self.record().access_capability),
    {
        AccessCapability::from_u16(self.record.access_capability)
    }

    /// Maximum capacity in bytes.
    pub fn maximum_capacity(&self) -> (r: u64)
        ensures
            r == self.record().max_capacity,
    {
        self.record.max_capacity
    }

    /// Free space in bytes.
    pub fn free_space_in_bytes(&self) -> (r: u64)
        ensures
            r == self.record().free_space_in_bytes,
    {
        self.record.free_space_in_bytes
    }

    /// Free space in objects.
    pub fn free_space_in_objects(&self) -> (r: u64)
        ensures
            r == self.record().free_space_in_objects,
    {
        self.record.free_space_in_objects
    }

    /// Description of the storage, where the device gave one.
    pub fn description(&self) -> (r: Option<&'a str>)
        ensures
            match self.record().description {
                Some(d) => r is Some && r->0@ == d@,
                None => r is None,
            },
    {
        match &self.record.description {
            Some(d) => Some(d.as_str()),
            None => None,
        }
    }

    /// Volume identifier, where the device gave one.
    pub fn volume_identifier(&self) -> (r: Option<&'a str>)
        ensures
            match self.record().volume_identifier {
                Some(d) => r is Some && r->0@ == d@,
                None => r is None,
            },
    {
        match &self.record.volume_identifier {
            Some(d) => Some(d.as_str()),
            None => None,
        }
    }

    /// Asks for the files and folders directly under `parent` on this storage.
    pub fn files_and_folders(&self, parent: Parent) -> (r: ListingRequest)
        ensures
            r.storage_id == self.record().id,
            r.parent_id == faf_id_of(parent),
    {
        ListingRequest { storage_id: self.record.id, parent_id: parent.faf_id() }
    }

    /// Asks for the folder tree on this storage. A device may give none: then list folder by
    /// folder with `files_and_folders`.
    pub fn folder_list(&self) -> (r: FolderScope)
        ensures
            r == FolderScope::Storage(self.record().id),
    {
        FolderScope::Storage(self.record.id)
    }

    /// Asks for a folder named `name` to be created under `parent` on this storage.
    pub fn create_folder<'b>(&self, name: &'b str, parent: Parent) -> (r: CreateFolderRequest<'b>)
        ensures
            r.name@ == name@,
            r.parent_id == faf_id_of(parent),
            r.storage_id == self.record().id,
    {
        CreateFolderRequest { name, parent_id: parent.faf_id(), storage_id: self.record.id }
    }

    /// Asks for the object `file` to be written to the local file at `path`. Object
    /// ids are unique on the device, so any storage of it can take this.
    pub fn get_file_to_path<F: AsObjectId>(&self, file: &F, path: &[u8]) -> (r: GetRequest)
        ensures
            r.object_id == file.object_id(),
            match r.endpoint {
                Endpoint::Path(p) => p@ == path@.push(0u8),
                _ => false,
            },
            r.progress == false,
    {
        files::get_file_to_path(file, path, false)
    }

    /// Asks for the object `file` to be written to the open descriptor.
    pub fn get_file_to_descriptor<F: AsObjectId>(&self, file: &F, descriptor: i32) -> (r:
        GetRequest)
        ensures
            r.object_id == file.object_id(),
            r.endpoint == Endpoint::Descriptor(descriptor),
            r.progress == false,
    {
        files::get_file_to_descriptor(file, descriptor, false)
    }

    /// Asks for the object `file` to be handed to the caller's data handler.
    pub fn get_file_to_handler<F: AsObjectId>(&self, file: &F) -> (r: GetRequest)
        ensures
            r.object_id == file.object_id(),
            r.endpoint == Endpoint::Handler,
            r.progress == false,
    {
        files::get_file_to_handler(file, false)
    }

    /// Asks for the local file at `path` to be sent on this storage under `parent`.
    pub fn send_file_from_path(&self, path: &[u8], parent: Parent, metadata: &FileMetadata) -> (r:
        SendRequest)
        ensures
            sends(r, parent, metadata, self.record().id, false),
            match r.endpoint {
                Endpoint::Path(p) => p@ == path@.push(0u8),
                _ => false,
            },
    {
        files::send_request(
            Endpoint::Path(files::encode_path(path)),
            parent,
            metadata,
            self.record.id,
            false,
        )
    }

    /// Asks for the bytes of the open descriptor to be sent on this storage under `parent`.
    pub fn send_file_from_descriptor(
        &self,
        descriptor: i32,
        parent: Parent,
        metadata: &FileMetadata,
    ) -> (r: SendRequest)
        ensures
            sends(r, parent, metadata, self.record().id, false),
            r.endpoint == Endpoint::Descriptor(descriptor),
    {
        files::send_request(Endpoint::Descriptor(descriptor), parent, metadata, self.record.id, false)
    }

    /// Asks for the bytes that the caller's data handler supplies to be sent on this storage
    /// under `parent`.
    pub fn send_file_from_handler(&self, parent: Parent, metadata: &FileMetadata) -> (r:
        SendRequest)
        ensures
            sends(r, parent, metadata, self.record().id, false),
            r.endpoint == Endpoint::Handler,
    {
        files::send_request(Endpoint::Handler, parent, metadata, self.record.id, false)
    }

    /// Asks for the object `file` to be written to the local file at `path`, reporting progress. Object
    /// ids are unique on the device, so any storage of it can take this.
    pub fn get_file_to_path_with_callback<F: AsObjectId>(&self, file: &F, path: &[u8]) -> (r: GetRequest)
        ensures
            r.object_id == file.object_id(),
            match r.endpoint {
                Endpoint::Path(p) => p@ == path@.push(0u8),
                _ => false,
            },
            r.progress == true,
    {
        files::get_file_to_path(file, path, true)
    }

    /// Asks for the object `file` to be written to the open descriptor, reporting progress.
    pub fn get_file_to_descriptor_with_callback<F: AsObjectId>(&self, file: &F, descriptor: i32) -> (r:
        GetRequest)
        ensures
            r.object_id == file.object_id(),
            r.endpoint == Endpoint::Descriptor(descriptor),
            r.progress == true,
    {
        files::get_file_to_descriptor(file, descriptor, true)
    }

    /// Asks for the object `file` to be handed to the caller's data handler, reporting progress.
    pub fn get_file_to_handler_with_callback<F: AsObjectId>(&self, file: &F) -> (r: GetRequest)
        ensures
            r.object_id == file.object_id(),
            r.endpoint == Endpoint::Handler,
            r.progress == true,
    {
        files::get_file_to_handler(file, true)
    }

    /// Asks for the local file at `path` to be sent on this storage under `parent`, reporting progress.
    pub fn send_file_from_path_with_callback(&self, path: &[u8], parent: Parent, metadata: &FileMetadata) -> (r:
        SendRequest)
        ensures
            sends(r, parent, metadata, self.record().id, true),
            match r.endpoint {
                Endpoint::Path(p) => p@ == path@.push(0u8),
                _ => false,
            },
    {
        files::send_request(
            Endpoint::Path(files::encode_path(path)),
            parent,
            metadata,
            self.record.id,
            true,
        )
    }

    /// Asks for the bytes of the open descriptor to be sent on this storage under `parent`, reporting progress.
    pub fn send_file_from_descriptor_with_callback(
        &self,
        descriptor: i32,
        parent: Parent,
        metadata: &FileMetadata,
    ) -> (r: SendRequest)
        ensures
            sends(r, parent, metadata, self.record().id, true),
            r.endpoint == Endpoint::Descriptor(descriptor),
    {
        files::send_request(Endpoint::Descriptor(descriptor), parent, metadata, self.record.id, true)
    }

    /// Asks for the bytes that the caller's data handler supplies to be sent on this storage
    /// under `parent`, reporting progress.
    pub fn send_file_from_handler_with_callback(&self, parent: Parent, metadata: &FileMetadata) -> (r:
        SendRequest)
        ensures
            sends(r, parent, metadata, self.record().id, true),
            r.endpoint == Endpoint::Handler,
    {
        files::send_request(Endpoint::Handler, parent, metadata, self.record.id, true)
    }
}

/// The ids of `records`, each kept at its first occurrence only.
pub open spec fn first_ids(records: Seq<StorageRecord>) -> Seq<u32>
    decreases records.len(),
{
    if records.len() == 0 {
        Seq::empty()
    } else {
        let prev = first_ids(records.drop_last());
        if prev.contains(records.last().id) {
            prev
        } else {
            prev.push(records.last().id)
        }
    }
}

/// The record at `k` is the first one with its id.
#[verifier::opaque]
pub open spec fn first_occurrence(records: Seq<StorageRecord>, k: int) -> bool {
    forall|j: int| 0 <= j < k ==> records[j].id != records[k].id
}

/// No two records share an id.
pub open spec fn distinct_ids(records: Seq<StorageRecord>) -> bool {
    forall|i: int, j: int|
        0 <= i < records.len() && 0 <= j < records.len() && i != j ==> records[i].id
            != records[j].id
}

/// The ids of `records`, in order.
pub open spec fn ids_of(records: Seq<StorageRecord>) -> Seq<u32> {
    records.map_values(|r: StorageRecord| r.id)
}

/// All the storages of a device, keyed by id, in the order of the native storage list.
/// The first is the primary storage.
#[derive(Debug)]
pub struct StoragePool<'a> {
    order: Vec<u32>,
    pool: HashMap<u32, Storage<'a>>,
    owner: &'a MtpDevice,
}

impl<'a> StoragePool<'a> {
    /// Ids in iteration order.
    pub closed spec fn order(&self) -> Seq<u32> {
        self.order@
    }

    /// Storages by id.
    pub closed spec fn entries(&self) -> Map<u32, Storage<'a>> {
        self.pool@
    }

    /// The device that owns the pool.
    pub closed spec fn owner(&self) -> MtpDevice {
        *self.owner
    }

    /// Each id in the order once, and the ids in the order exactly the keys.
    pub open spec fn wf(&self) -> bool {
        &&& self.order().no_duplicates()
        &&& forall|k: int|
            #![trigger self.order()[k]]
            0 <= k < self.order().len() ==> self.entries().contains_key(self.order()[k])
        &&& forall|id: u32|
            #![trigger self.entries().contains_key(id)]
            self.entries().contains_key(id) ==> self.order().contains(id)
    }

    /// `self` was built from the storage list `records` of `owner`: the ids at their first
    /// occurrence, in list order, each keyed to the view of its first record.
    pub open spec fn built_from(&self, owner: MtpDevice, records: Seq<StorageRecord>) -> bool {
        &&& self.wf()
        &&& self.owner() == owner
        &&& self.order() == first_ids(records)
        &&& forall|i: int|
            #![trigger records[i]]
            0 <= i < records.len() ==> self.entries().contains_key(records[i].id)
        &&& forall|i: int|
            #![trigger records[i]]
            0 <= i < records.len() && first_occurrence(records, i)
                ==> self.entries()[records[i].id].record() == records[i]
                && self.entries()[records[i].id].owner() == owner
    }

    /// Builds the pool from a storage list, keeping its order. Should an id occur twice,
    /// its first entry stands.
    #[verifier::rlimit(100)]
    pub fn from_raw(owner: &'a MtpDevice, records: &'a Vec<StorageRecord>) -> (r: StoragePool<'a>)
        ensures
            r.built_from(*owner, records@),
    {
        let mut order: Vec<u32> = Vec::new();
        let mut pool: HashMap<u32, Storage<'a>> = HashMap::new();
        let mut i: usize = 0;
        while i < records.len()
            invariant
                i <= records.len(),
                order@ == first_ids(records@.take(i as int)),
                order@.no_duplicates(),
                forall|k: int|
                    #![trigger order@[k]]
                    0 <= k < order@.len() ==> pool@.contains_key(order@[k]),
                forall|id: u32|
                    #![trigger pool@.contains_key(id)]
                    pool@.contains_key(id) ==> order@.contains(id),
                forall|k: int|
                    #![trigger records@[k]]
                    0 <= k < i ==> pool@.contains_key(records@[k].id),
                forall|id: u32|
                    #![trigger pool@.contains_key(id)]
                    pool@.contains_key(id) ==> exists|j: int| 0 <= j < i && records@[j].id == id,
                forall|k: int|
                    #![trigger records@[k]]
                    0 <= k < i && first_occurrence(records@, k) ==> *pool@[records@[k].id].record
                        == records@[k] && *pool@[records@[k].id].owner == *owner,
            decreases records.len() - i,
        {
            let rec = &records[i];
            let ghost old_order = order@;
            let ghost old_pool = pool@;
            proof {
                assert(records@.take(i as int + 1).drop_last() =~= records@.take(i as int));
                assert(records@.take(i as int + 1).last() == records@[i as int]);
            }
            let present = pool.contains_key(&rec.id);
            assert(present == old_pool.contains_key(rec.id));
            if !present {
                order.push(rec.id);
                pool.insert(rec.id, Storage { record: rec, owner });
                assert(pool@ == old_pool.insert(rec.id, Storage { record: rec, owner }));
                proof {
                    if old_order.contains(rec.id) {
                        let k = choose|k: int| 0 <= k < old_order.len() && old_order[k] == rec.id;
                        assert(old_pool.contains_key(old_order[k]));
                    }
                    lemma_push_fresh(old_order, rec.id);
                    assert forall|k: int|
                        #![trigger order@[k]]
                        0 <= k < order@.len() implies pool@.contains_key(order@[k]) by {
                        if k < old_order.len() {
                            assert(old_order[k] == order@[k]);
                        }
                    }
                    assert forall|id: u32|
                        #![trigger pool@.contains_key(id)]
                        pool@.contains_key(id) implies order@.contains(id) by {
                        if id != rec.id {
                            assert(old_pool.contains_key(id));
                        }
                    }
                }
            }
            proof {
                reveal(first_occurrence);
                assert forall|id: u32|
                    #![trigger pool@.contains_key(id)]
                    pool@.contains_key(id) implies exists|j: int|
                        0 <= j < i + 1 && records@[j].id == id by {
                    if id == rec.id {
                        assert(records@[i as int].id == id);
                    } else {
                        assert(old_pool.contains_key(id));
                    }
                }
                assert forall|k: int|
                    #![trigger records@[k]]
                    0 <= k < i + 1 && first_occurrence(records@, k) implies *pool@[records@[k].id].record
                        == records@[k] && *pool@[records@[k].id].owner == *owner by {
                    if k == i && present {
                        assert(old_pool.contains_key(rec.id));
                        let j = choose|j: int| 0 <= j < i && records@[j].id == rec.id;
                        assert(records@[j].id != records@[k].id);
                    } else if k < i && !present {
                        assert(records@[k].id != rec.id);
                    }
                }
            }
            i += 1;
        }
        proof {
            assert(records@.take(records@.len() as int) == records@);
        }
        StoragePool { order, pool, owner }
    }

    /// Asks for the files and folders directly under `parent` on all the storages.
    pub fn files_and_folders(&self, parent: Parent) -> (r: ListingRequest)
        ensures
            r.storage_id == 0,
            r.parent_id == faf_id_of(parent),
    {
        ListingRequest { storage_id: 0, parent_id: parent.faf_id() }
    }

    /// Asks for the folder tree of the whole device. A device may give none: then list folder by
    /// folder with `files_and_folders`.
    pub fn folder_list(&self) -> (r: FolderScope)
        ensures
            r == FolderScope::Device,
    {
        FolderScope::Device
    }

    /// Asks for a folder named `name` to be created under `parent` on the primary storage.
    pub fn create_folder<'b>(&self, name: &'b str, parent: Parent) -> (r: CreateFolderRequest<'b>)
        ensures
            r.name@ == name@,
            r.parent_id == faf_id_of(parent),
            r.storage_id == 0,
    {
        CreateFolderRequest { name, parent_id: parent.faf_id(), storage_id: 0 }
    }

    /// Asks for the object `file` to be written to the local file at `path`. Object
    /// ids are unique on the device, so any storage of it can take this.
    pub fn get_file_to_path<F: AsObjectId>(&self, file: &F, path: &[u8]) -> (r: GetRequest)
        ensures
            r.object_id == file.object_id(),
            match r.endpoint {
                Endpoint::Path(p) => p@ == path@.push(0u8),
                _ => false,
            },
            r.progress == false,
    {
        files::get_file_to_path(file, path, false)
    }

    /// Asks for the object `file` to be written to the open descriptor.
    pub fn get_file_to_descriptor<F: AsObjectId>(&self, file: &F, descriptor: i32) -> (r:
        GetRequest)
        ensures
            r.object_id == file.object_id(),
            r.endpoint == Endpoint::Descriptor(descriptor),
            r.progress == false,
    {
        files::get_file_to_descriptor(file, descriptor, false)
    }

    /// Asks for the object `file` to be handed to the caller's data handler.
    pub fn get_file_to_handler<F: AsObjectId>(&self, file: &F) -> (r: GetRequest)
        ensures
            r.object_id == file.object_id(),
            r.endpoint == Endpoint::Handler,
            r.progress == false,
    {
        files::get_file_to_handler(file, false)
    }

    /// Asks for the local file at `path` to be sent on the primary storage under `parent`.
    pub fn send_file_from_path(&self, path: &[u8], parent: Parent, metadata: &FileMetadata) -> (r:
        SendRequest)
        ensures
            sends(r, parent, metadata, 0, false),
            match r.endpoint {
                Endpoint::Path(p) => p@ == path@.push(0u8),
                _ => false,
            },
    {
        files::send_request(
            Endpoint::Path(files::encode_path(path)),
            parent,
            metadata,
            0,
            false,
        )
    }

    /// Asks for the bytes of the open descriptor to be sent on the primary storage under `parent`.
    pub fn send_file_from_descriptor(
        &self,
        descriptor: i32,
        parent: Parent,
        metadata: &FileMetadata,
    ) -> (r: SendRequest)
        ensures
            sends(r, parent, metadata, 0, false),
            r.endpoint == Endpoint::Descriptor(descriptor),
    {
        files::send_request(Endpoint::Descriptor(descriptor), parent, metadata, 0, false)
    }

    /// Asks for the bytes that the caller's data handler supplies to be sent on the primary storage
    /// under `parent`.
    pub fn send_file_from_handler(&self, parent: Parent, metadata: &FileMetadata) -> (r:
        SendRequest)
        ensures
            sends(r, parent, metadata, 0, false),
            r.endpoint == Endpoint::Handler,
    {
        files::send_request(Endpoint::Handler, parent, metadata, 0, false)
    }

    /// Asks for the object `file` to be written to the local file at `path`, reporting progress. Object
    /// ids are unique on the device, so any storage of it can take this.
    pub fn get_file_to_path_with_callback<F: AsObjectId>(&self, file: &F, path: &[u8]) -> (r: GetRequest)
        ensures
            r.object_id == file.object_id(),
            match r.endpoint {
                Endpoint::Path(p) => p@ == path@.push(0u8),
                _ => false,
            },
            r.progress == true,
    {
        files::get_file_to_path(file, path, true)
    }

    /// Asks for the object `file` to be written to the open descriptor, reporting progress.
    pub fn get_file_to_descriptor_with_callback<F: AsObjectId>(&self, file: &F, descriptor: i32) -> (r:
        GetRequest)
        ensures
            r.object_id == file.object_id(),
            r.endpoint == Endpoint::Descriptor(descriptor),
            r.progress == true,
    {
        files::get_file_to_descriptor(file, descriptor, true)
    }

    /// Asks for the object `file` to be handed to the caller's data handler, reporting progress.
    pub fn get_file_to_handler_with_callback<F: AsObjectId>(&self, file: &F) -> (r: GetRequest)
        ensures
            r.object_id == file.object_id(),
            r.endpoint == Endpoint::Handler,
            r.progress == true,
    {
        files::get_file_to_handler(file, true)
    }

    /// Asks for the local file at `path` to be sent on the primary storage under `parent`, reporting progress.
    pub fn send_file_from_path_with_callback(&self, path: &[u8], parent: Parent, metadata: &FileMetadata) -> (r:
        SendRequest)
        ensures
            sends(r, parent, metadata, 0, true),
            match r.endpoint {
                Endpoint::Path(p) => p@ == path@.push(0u8),
                _ => false,
            },
    {
        files::send_request(
            Endpoint::Path(files::encode_path(path)),
            parent,
            metadata,
            0,
            true,
        )
    }

    /// Asks for the bytes of the open descriptor to be sent on the primary storage under `parent`, reporting progress.
    pub fn send_file_from_descriptor_with_callback(
        &self,
        descriptor: i32,
        parent: Parent,
        metadata: &FileMetadata,
    ) -> (r: SendRequest)
        ensures
            sends(r, parent, metadata, 0, true),
            r.endpoint == Endpoint::Descriptor(descriptor),
    {
        files::send_request(Endpoint::Descriptor(descriptor), parent, metadata, 0, true)
    }

    /// Asks for the bytes that the caller's data handler supplies to be sent on the primary storage
    /// under `parent`, reporting progress.
    pub fn send_file_from_handler_with_callback(&self, parent: Parent, metadata: &FileMetadata) -> (r:
        SendRequest)
        ensures
            sends(r, parent, metadata, 0, true),
            r.endpoint == Endpoint::Handler,
    {
        files::send_request(Endpoint::Handler, parent, metadata, 0, true)
    }

    /// The device that owns the pool.
    pub fn device(&self) -> (r: &'a MtpDevice)
        ensures
            *r == self.owner(),
    {
        self.owner
    }

    /// Number of storages.
    pub fn len(&self) -> (r: usize)
        requires
            self.wf(),
        ensures
            r == self.order().len(),
    {
        self.order.len()
    }

    /// The storage with the given id, if the pool has one.
    pub fn by_id(&self, id: u32) -> (r: Option<&Storage<'a>>)
        ensures
            match r {
                Some(s) => self.entries().contains_key(id) && *s == self.entries()[id],
                None => !self.entries().contains_key(id),
            },
    {
        self.pool.get(&id)
    }

    /// The storages with their ids, in the order of the native storage list.
    pub fn iter(&'a self) -> (r: StoragePoolIter<'a>)
        ensures
            r.pool() == *self,
            r.position() == 0,
    {
        StoragePoolIter { pool: self, itr: 0 }
    }
}

/// Walks a pool in its order.
pub struct StoragePoolIter<'a> {
    pool: &'a StoragePool<'a>,
    itr: usize,
}

impl<'a> StoragePoolIter<'a> {
    pub closed spec fn pool(&self) -> StoragePool<'a> {
        *self.pool
    }

    pub closed spec fn position(&self) -> nat {
        self.itr as nat
    }

    /// The next storage and its id; `None` once all have been given.
    pub fn next(&mut self) -> (r: Option<(u32, &'a Storage<'a>)>)
        requires
            old(self).pool().wf(),
        ensures
            final(self).pool() == old(self).pool(),
            old(self).position() < old(self).pool().order().len() ==> {
                let id = old(self).pool().order()[old(self).position() as int];
                &&& match r {
                    Some((rid, s)) => rid == id && *s == old(self).pool().entries()[id],
                    None => false,
                }
                &&& final(self).position() == old(self).position() + 1
            },
            old(self).position() >= old(self).pool().order().len() ==> r is None
                && final(self).position() == old(self).position(),
    {
        if self.itr >= self.pool.order.len() {
            None
        } else {
            let id = self.pool.order[self.itr];
            proof {
                assert(self.pool.order@.contains(id));
            }
            match self.pool.pool.get(&id) {
                Some(s) => {
                    self.itr += 1;
                    Some((id, s))
                },
                None => None,
            }
        }
    }
}

/// A pool keeps the native list's order: built from a list with distinct ids, it walks
/// the ids in list order, and each id finds exactly the storage of its entry.
pub proof fn lemma_pool_keeps_list_order(
    pool: StoragePool,
    owner: MtpDevice,
    records: Seq<StorageRecord>,
)
    requires
        pool.built_from(owner, records),
        distinct_ids(records),
    ensures
        pool.order() == ids_of(records),
        forall|i: int|
            #![trigger records[i]]
            0 <= i < records.len() ==> pool.entries().contains_key(records[i].id)
                && pool.entries()[records[i].id].record() == records[i],
{
    lemma_first_ids_distinct(records);
    reveal(first_occurrence);
    assert forall|i: int|
        #![trigger records[i]]
        0 <= i < records.len() implies first_occurrence(records, i) by {
        assert forall|j: int| 0 <= j < i implies records[j].id != records[i].id by {
            assert(i != j);
        }
    }
}

/// The pool's first storage is the first entry of the list it was built from; so after a
/// refresh sorted by free space, the first storage walked has the most free space of all.
pub proof fn lemma_first_storage_leads(pool: StoragePool, owner: MtpDevice, records: Seq<StorageRecord>)
    requires
        pool.built_from(owner, records),
        records.len() > 0,
    ensures
        pool.order().len() > 0,
        pool.order()[0] == records[0].id,
        pool.entries()[records[0].id].record() == records[0],
        (forall|i: int|
            0 <= i < records.len() ==> records[0].free_space_in_bytes
                >= #[trigger] records[i].free_space_in_bytes) ==> forall|i: int|
            0 <= i < records.len() ==> pool.entries()[pool.order()[0]].record().free_space_in_bytes
                >= #[trigger] records[i].free_space_in_bytes,
{
    lemma_first_ids_head(records);
    reveal(first_occurrence);
    assert(first_occurrence(records, 0));
}

/// A refresh sorted by free space keeps its order in the pool: given a storage list with
/// distinct ids in which free space does not increase (as the native sort by free space
/// gives it), the pool walks its storages with free space not increasing, and the first
/// has the most free space of all.
pub proof fn lemma_sorted_refresh_walks_sorted(
    pool: StoragePool,
    owner: MtpDevice,
    records: Seq<StorageRecord>,
)
    requires
        pool.built_from(owner, records),
        distinct_ids(records),
        forall|i: int, j: int|
            0 <= i < j < records.len() ==> #[trigger] records[i].free_space_in_bytes
                >= #[trigger] records[j].free_space_in_bytes,
    ensures
        forall|i: int, j: int|
            0 <= i < j < pool.order().len() ==> #[trigger] pool.entries()[pool.order()[i]].record().free_space_in_bytes
                >= #[trigger] pool.entries()[pool.order()[j]].record().free_space_in_bytes,
        forall|j: int|
            0 < j < pool.order().len() ==> pool.entries()[pool.order()[0]].record().free_space_in_bytes
                >= #[trigger] pool.entries()[pool.order()[j]].record().free_space_in_bytes,
{
    lemma_pool_keeps_list_order(pool, owner, records);
    assert forall|k: int| 0 <= k < pool.order().len() implies pool.entries()[pool.order()[k]].record()
        == records[k] by {
        assert(pool.order()[k] == records[k].id);
    }
}

proof fn lemma_first_ids_head(records: Seq<StorageRecord>)
    requires
        records.len() > 0,
    ensures
        first_ids(records).len() > 0,
        first_ids(records)[0] == records[0].id,
    decreases records.len(),
{
    let prev = records.drop_last();
    let ids = first_ids(prev);
    if records.len() > 1 {
        lemma_first_ids_head(prev);
        assert(prev[0] == records[0]);
        assert(ids.push(records.last().id)[0] == ids[0]);
    } else {
        assert(ids.len() == 0);
        assert(!ids.contains(records.last().id));
        assert(ids.push(records.last().id)[0] == records[0].id);
    }
}

/// Pushing a fresh element keeps a sequence free of duplicates, and adds just that element.
proof fn lemma_push_fresh(s: Seq<u32>, x: u32)
    requires
        s.no_duplicates(),
        !s.contains(x),
    ensures
        s.push(x).no_duplicates(),
        forall|y: u32| s.push(x).contains(y) <==> (s.contains(y) || y == x),
{
    let t = s.push(x);
    assert forall|a: int, b: int| 0 <= a < t.len() && 0 <= b < t.len() && a != b implies t[a]
        != t[b] by {
        if a == s.len() {
            assert(s[b] == t[b]);
        } else if b == s.len() {
            assert(s[a] == t[a]);
        }
    }
    assert forall|y: u32| t.contains(y) <==> (s.contains(y) || y == x) by {
        if t.contains(y) && y != x {
            let k = choose|k: int| 0 <= k < t.len() && t[k] == y;
            assert(s[k] == y);
        }
        if s.contains(y) {
            let k = choose|k: int| 0 <= k < s.len() && s[k] == y;
            assert(t[k] == y);
        }
        if y == x {
            assert(t[s.len() as int] == y);
        }
    }
}

proof fn lemma_first_ids_distinct(records: Seq<StorageRecord>)
    requires
        distinct_ids(records),
    ensures
        first_ids(records) == ids_of(records),
    decreases records.len(),
{
    if records.len() > 0 {
        let prev = records.drop_last();
        assert(distinct_ids(prev));
        lemma_first_ids_distinct(prev);
        assert(!ids_of(prev).contains(records.last().id)) by {
            if ids_of(prev).contains(records.last().id) {
                let k = choose|k: int| 0 <= k < ids_of(prev).len() && ids_of(prev)[k] == records.last().id;
                assert(records[k].id == records[records.len() - 1].id);
            }
        }
        assert(ids_of(records) == ids_of(prev).push(records.last().id));
    }
}

} // verus!
