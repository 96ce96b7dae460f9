//! File records, the metadata of a file to send, and the transfer engine's side of each
//! transfer: what it asks of the native layer, and how the outcome is read.
use vstd::prelude::*;

use crate::error::{failure_of, latest_kind, Error, ErrorEntry, ErrorStack, MtpErrorKind};
use crate::object::filetypes::{filetype_code, filetype_of_code, Filetype};
use crate::object::AsObjectId;
use crate::storage::{faf_id_of, record_id_of, Parent, FILES_AND_FOLDERS_ROOT};
use crate::util::{HandlerGate, HandlerReturn};

verus! {

/// A file object on the device, as the native file record describes it.
#[derive(Debug, Clone)]
pub struct File {
    pub item_id: u32,
    pub parent_id: u32,
    pub storage_id: u32,
    pub filesize: u64,
    pub filename: String,
    pub filetype: u32,
    /// Modification time in seconds since the Unix epoch, UTC.
    pub modificationdate: i64,
}

impl AsObjectId for File {
    open spec fn object_id(&self) -> u32 {
        self.item_id
    }

    fn as_id(&self) -> (r: u32) {
        self.item_id
    }
}

impl File {
    /// Object id of the file.
    pub fn id(&self) -> (r: u32)
        ensures
            r == self.item_id,
    {
        self.item_id
    }

    /// Id of the storage that holds the file.
    pub fn storage_id(&self) -> (r: u32)
        ensures
            r == self.storage_id,
    {
        self.storage_id
    }

    /// Parent of the file; the native root sentinel is the root.
    pub fn parent_id(&self) -> (r: Parent)
        ensures
            r == (if self.parent_id == FILES_AND_FOLDERS_ROOT {
                Parent::Root
            } else {
                Parent::Folder(self.parent_id)
            }),
    {
        Parent::from_faf_id(self.parent_id)
    }

    /// Size in bytes.
    pub fn size(&self) -> (r: u64)
        ensures
            r == self.filesize,
    {
        self.filesize
    }

    /// Name of the file.
    pub fn name(&self) -> (r: &str)
        ensures
            r@ == self.filename@,
    {
        self.filename.as_str()
    }

    /// Type of the file; a code outside the native list reads as `Unknown`.
    pub fn ftype(&self) -> (r: Filetype)
        ensures
            r == match filetype_of_code(self.filetype) {
                Some(t) => t,
                None => Filetype::Unknown,
            },
    {
        match Filetype::from_u32(self.filetype) {
            Some(t) => t,
            None => Filetype::Unknown,
        }
    }

    /// Modification time in seconds since the Unix epoch, UTC.
    pub fn modification_date(&self) -> (r: i64)
        ensures
            r == self.modificationdate,
    {
        self.modificationdate
    }

    /// Reads the outcome of renaming the file to `new_name`: on success the record takes
    /// the new name (the device may still have stored another; list again to see it).
    pub fn rename(&mut self, new_name: &str, errors: &mut ErrorStack, res: i32) -> (r: Result<(), Error>)
        ensures
            final(errors)@.len() == 0,
            res == 0 ==> r is Ok && final(self).filename@ == new_name@,
            res != 0 ==> *final(self) == *old(self) && match r {
                Err(e) => failure_of(old(errors)@, e),
                Ok(_) => false,
            },
            final(self).item_id == old(self).item_id,
    {
        let r = errors.status(res);
        if r.is_ok() {
            self.filename = new_name.to_owned();
        }
        r
    }
}

/// What to send along with the bytes of a new file.
#[derive(Debug, Clone)]
pub struct FileMetadata<'a> {
    pub file_size: u64,
    pub file_name: &'a str,
    pub file_type: Filetype,
    /// Modification time in seconds since the Unix epoch, UTC.
    pub modification_date: i64,
}

/// The native record of a file about to be sent: the metadata, the parent (zero for the
/// root) and the storage; the device assigns the object id.
pub fn metadata_record(metadata: &FileMetadata, parent: Parent, storage_id: u32) -> (r: File)
    ensures
        r.item_id == 0,
        r.parent_id == record_id_of(parent),
        r.storage_id == storage_id,
        r.filesize == metadata.file_size,
        r.filename@ == metadata.file_name@,
        r.filetype == filetype_code(metadata.file_type),
        r.modificationdate == metadata.modification_date,
{
    File {
        item_id: 0,
        parent_id: parent.to_id(),
        storage_id,
        filesize: metadata.file_size,
        filename: metadata.file_name.to_owned(),
        filetype: metadata.file_type.to_u32(),
        modificationdate: metadata.modification_date,
    }
}

/// A path in the native form of byte-oriented platforms: its bytes and a terminating zero.
pub fn encode_path(path: &[u8]) -> (r: Vec<u8>)
    ensures
        r@ == path@.push(0u8),
{
    let mut out: Vec<u8> = Vec::new();
    let mut i: usize = 0;
    while i < path.len()
        invariant
            i <= path@.len(),
            out@ == path@.take(i as int),
        decreases path@.len() - i,
    {
        out.push(path[i]);
        i += 1;
        proof {
            assert(out@ =~= path@.take(i as int));
        }
    }
    out.push(0);
    proof {
        assert(path@.take(path@.len() as int) =~= path@);
    }
    out
}

/// The native bytes of a path on wide-character platforms: each UTF-16 unit low byte
/// first, then a terminating zero unit.
pub open spec fn wide_bytes(units: Seq<u16>) -> Seq<u8>
    decreases units.len(),
{
    if units.len() == 0 {
        Seq::empty()
    } else {
        wide_bytes(units.drop_last()).push((units.last() % 256) as u8).push(
            (units.last() / 256) as u8,
        )
    }
}

/// A path in the native form of wide-character platforms: UTF-16 units, low byte first,
/// and a terminating zero unit.
pub fn encode_path_wide(path: &[u16]) -> (r: Vec<u8>)
    requires
        2 * (path@.len() + 1) <= usize::MAX,
    ensures
        r@ == wide_bytes(path@.push(0u16)),
{
    let mut out: Vec<u8> = Vec::new();
    let mut i: usize = 0;
    while i < path.len()
        invariant
            i <= path@.len(),
            out@ == wide_bytes(path@.take(i as int)),
        decreases path@.len() - i,
    {
        let unit = path[i];
        out.push((unit % 256) as u8);
        out.push((unit / 256) as u8);
        proof {
            assert(path@.take(i as int + 1).drop_last() =~= path@.take(i as int));
        }
        i += 1;
    }
    out.push(0);
    out.push(0);
    proof {
        assert(path@.push(0u16).drop_last() =~= path@.take(path@.len() as int));
    }
    out
}

/// The local end of a transfer.
#[derive(Debug, Clone)]
pub enum Endpoint {
    /// A file given by its path, in native form.
    Path(Vec<u8>),
    /// An open file descriptor.
    Descriptor(i32),
    /// The caller's data handler.
    Handler,
}

/// A transfer from the device: which object, to where, and whether progress is reported.
#[derive(Debug, Clone)]
pub struct GetRequest {
    pub object_id: u32,
    pub endpoint: Endpoint,
    pub progress: bool,
}

/// A transfer to the device: the record of the new file, from where, and whether progress
/// is reported.
#[derive(Debug, Clone)]
pub struct SendRequest {
    pub record: File,
    pub endpoint: Endpoint,
    pub progress: bool,
}

/// Asks for an object to be written to a local path.
pub fn get_file_to_path<F: AsObjectId>(file: &F, path: &[u8], progress: bool) -> (r: GetRequest)
    ensures
        r.object_id == file.object_id(),
        match r.endpoint {
            Endpoint::Path(p) => p@ == path@.push(0u8),
            _ => false,
        },
        r.progress == progress,
{
    GetRequest { object_id: file.as_id(), endpoint: Endpoint::Path(encode_path(path)), progress }
}

/// Asks for an object to be written to an open descriptor.
pub fn get_file_to_descriptor<F: AsObjectId>(file: &F, descriptor: i32, progress: bool) -> (r:
    GetRequest)
    ensures
        r.object_id == file.object_id(),
        r.endpoint == Endpoint::Descriptor(descriptor),
        r.progress == progress,
{
    GetRequest { object_id: file.as_id(), endpoint: Endpoint::Descriptor(descriptor), progress }
}

/// Asks for an object to be handed to the caller's data handler chunk by chunk.
pub fn get_file_to_handler<F: AsObjectId>(file: &F, progress: bool) -> (r: GetRequest)
    ensures
        r.object_id == file.object_id(),
        r.endpoint == Endpoint::Handler,
        r.progress == progress,
{
    GetRequest { object_id: file.as_id(), endpoint: Endpoint::Handler, progress }
}

/// Asks for a new file, described by `metadata`, to be created under `parent` on the
/// storage `storage_id` (zero: the primary storage), with its bytes taken from `endpoint`.
pub fn send_request(
    endpoint: Endpoint,
    parent: Parent,
    metadata: &FileMetadata,
    storage_id: u32,
    progress: bool,
) -> (r: SendRequest)
    ensures
        r.record.item_id == 0,
        r.record.parent_id == record_id_of(parent),
        r.record.storage_id == storage_id,
        r.record.filesize == metadata.file_size,
        r.record.filename@ == metadata.file_name@,
        r.record.filetype == filetype_code(metadata.file_type),
        r.record.modificationdate == metadata.modification_date,
        r.endpoint == endpoint,
        r.progress == progress,
{
    SendRequest { record: metadata_record(metadata, parent, storage_id), endpoint, progress }
}

/// A transfer failed: the native call reported failure, or the handler failed or
/// cancelled (whatever the native call returned).
pub open spec fn transfer_failed(res: i32, handler: Option<HandlerReturn>) -> bool {
    res != 0 || handler == Some(HandlerReturn::Error) || handler == Some(HandlerReturn::Cancel)
}

/// Reads the outcome of a transfer: its native result and, for a handler transfer, the
/// handler's last answer. A failure is reported from the error stack (a cancelled transfer
/// leaves a `Cancelled` entry there). The stack is drained either way, so that nothing of
/// this transfer reaches the next operation.
pub fn transfer_outcome(errors: &mut ErrorStack, res: i32, handler: Option<HandlerReturn>) -> (r:
    Result<(), Error>)
    ensures
        final(errors)@.len() == 0,
        !transfer_failed(res, handler) <==> r is Ok,
        match r {
            Err(e) => failure_of(old(errors)@, e),
            Ok(_) => true,
        },
{
    let handler_stopped = match handler {
        Some(h) => h.is_error() || h.is_cancel(),
        None => false,
    };
    if res != 0 || handler_stopped {
        Err(errors.failure())
    } else {
        let _ = errors.latest_error();
        Ok(())
    }
}

/// Reads the outcome of a send: as `transfer_outcome`, and on success the new file is the
/// record as the native layer left it (with the id the device assigned).
pub fn send_outcome(errors: &mut ErrorStack, res: i32, handler: Option<HandlerReturn>, sent: File) -> (r:
    Result<File, Error>)
    ensures
        final(errors)@.len() == 0,
        !transfer_failed(res, handler) <==> r is Ok,
        match r {
            Err(e) => failure_of(old(errors)@, e),
            Ok(f) => f == sent,
        },
{
    match transfer_outcome(errors, res, handler) {
        Ok(()) => Ok(sent),
        Err(e) => Err(e),
    }
}

/// A handler transfer whose handler cancelled: the handler gets no further chunk, the
/// transfer fails whatever the native call returned, and where the native layer left its
/// cancel entry on the error stack the error reported is `Cancelled`.
pub proof fn lemma_cancelled_transfer(gate: HandlerGate, res: i32, stack: Seq<ErrorEntry>, e: Error)
    requires
        gate.last_spec() == HandlerReturn::Cancel,
    ensures
        !gate.open_spec(),
        transfer_failed(res, Some(gate.last_spec())),
        latest_kind(stack) == Some(MtpErrorKind::Cancelled) && failure_of(stack, e) ==> match e {
            Error::MtpError { kind, text: _ } => kind == MtpErrorKind::Cancelled,
            _ => false,
        },
{
}

/// Sending an empty file: the record asked for has size zero, and a native success with no
/// handler stopping is a success of the send (whose file is the record the native layer
/// returned).
pub proof fn lemma_empty_send(
    r: SendRequest,
    parent: Parent,
    metadata: &FileMetadata,
    storage_id: u32,
    progress: bool,
)
    requires
        crate::storage::sends(r, parent, metadata, storage_id, progress),
        metadata.file_size == 0,
    ensures
        r.record.filesize == 0,
        !transfer_failed(0, None),
{
}

} // verus!
