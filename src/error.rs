//! Errors of the native layer and of the host side, and the session's error stack.
use vstd::prelude::*;
use vstd::utf8::{decode_utf8, valid_utf8};

verus! {

// Native error numbers: the members of libmtp's `LIBMTP_error_number_t` (libmtp.h), an
// enum without explicit values, so numbered in order from zero.

/// Native error number: no error.
pub const ERROR_NONE: u32 = 0;
/// Native error number: general failure.
pub const ERROR_GENERAL: u32 = 1;
/// Native error number: failure in the PTP layer.
pub const ERROR_PTP_LAYER: u32 = 2;
/// Native error number: failure in the USB layer.
pub const ERROR_USB_LAYER: u32 = 3;
/// Native error number: memory allocation failed.
pub const ERROR_MEMORY_ALLOCATION: u32 = 4;
/// Native error number: no device attached.
pub const ERROR_NO_DEVICE_ATTACHED: u32 = 5;
/// Native error number: the storage is full.
pub const ERROR_STORAGE_FULL: u32 = 6;
/// Native error number: failure while connecting.
pub const ERROR_CONNECTING: u32 = 7;
/// Native error number: the operation was cancelled.
pub const ERROR_CANCELLED: u32 = 8;

/// Kinds of errors that the native layer reports.
#[derive(Debug, Clone, Copy, PartialEq, Eq, Structural)]
pub enum MtpErrorKind {
    General,
    PtpLayer,
    UsbLayer,
    MemoryAllocation,
    NoDeviceAttached,
    StorageFull,
    Connecting,
    Cancelled,
}

/// The kind that a native error number stands for; `None` for "no error" and for numbers
/// that the native layer does not document.
pub open spec fn kind_of_number(code: u32) -> Option<MtpErrorKind> {
    if code == ERROR_GENERAL {
        Some(MtpErrorKind::General)
    } else if code == ERROR_PTP_LAYER {
        Some(MtpErrorKind::PtpLayer)
    } else if code == ERROR_USB_LAYER {
        Some(MtpErrorKind::UsbLayer)
    } else if code == ERROR_MEMORY_ALLOCATION {
        Some(MtpErrorKind::MemoryAllocation)
    } else if code == ERROR_NO_DEVICE_ATTACHED {
        Some(MtpErrorKind::NoDeviceAttached)
    } else if code == ERROR_STORAGE_FULL {
        Some(MtpErrorKind::StorageFull)
    } else if code == ERROR_CONNECTING {
        Some(MtpErrorKind::Connecting)
    } else if code == ERROR_CANCELLED {
        Some(MtpErrorKind::Cancelled)
    } else {
        None
    }
}

impl MtpErrorKind {
    /// Decodes a native error number.
    pub fn from_error_number(error_code: u32) -> (r: Option<MtpErrorKind>)
        ensures
            r == kind_of_number(error_code),
    {
        match error_code {
            ERROR_GENERAL => Some(MtpErrorKind::General),
            ERROR_PTP_LAYER => Some(MtpErrorKind::PtpLayer),
            ERROR_USB_LAYER => Some(MtpErrorKind::UsbLayer),
            ERROR_MEMORY_ALLOCATION => Some(MtpErrorKind::MemoryAllocation),
            ERROR_NO_DEVICE_ATTACHED => Some(MtpErrorKind::NoDeviceAttached),
            ERROR_STORAGE_FULL => Some(MtpErrorKind::StorageFull),
            ERROR_CONNECTING => Some(MtpErrorKind::Connecting),
            ERROR_CANCELLED => Some(MtpErrorKind::Cancelled),
            _ => None,
        }
    }
}

/// Errors of this crate: a native error with its kind and text, a string from the device
/// that is not valid UTF-8, or a native failure that left no decodable error behind.
#[derive(Debug, Clone)]
pub enum Error {
    /// The native layer failed without a decodable error entry.
    Unknown,
    /// A native error, with the text that the native layer gave.
    MtpError { kind: MtpErrorKind, text: String },
    /// A string from the device was not valid UTF-8; holds the bytes received.
    Utf8Error { bytes: Vec<u8> },
}

impl Default for Error {
    fn default() -> (r: Error)
        ensures
            r == Error::Unknown,
    {
        Error::Unknown
    }
}

/// One entry of the native error stack: an error number and the text attached to it.
#[derive(Debug, Clone)]
pub struct ErrorEntry {
    pub errornumber: u32,
    pub text: Vec<u8>,
}

/// What `String::from_utf8_lossy` makes of a byte sequence.
pub uninterp spec fn utf8_lossy(b: Seq<u8>) -> Seq<char>;

/// Relies on `String::from_utf8_lossy`: the text depends on the bytes alone, and valid
/// UTF-8 is decoded as it is.
#[verifier::external_body]
fn text_from_bytes_lossy(bytes: &Vec<u8>) -> (r: String)
    ensures
        r@ == utf8_lossy(bytes@),
        valid_utf8(bytes@) ==> r@ == decode_utf8(bytes@),
{
    String::from_utf8_lossy(bytes.as_slice()).into_owned()
}

/// Relies on `String::from_utf8`: it accepts exactly the valid UTF-8 sequences, and its
/// error hands the bytes back.
#[verifier::external_body]
fn text_from_bytes(bytes: Vec<u8>) -> (r: core::result::Result<String, Vec<u8>>)
    ensures
        match r {
            Ok(s) => valid_utf8(bytes@) && s@ == decode_utf8(bytes@),
            Err(b) => !valid_utf8(bytes@) && b@ == bytes@,
        },
{
    match String::from_utf8(bytes) {
        Ok(s) => Ok(s),
        Err(e) => Err(e.into_bytes()),
    }
}

/// Decodes a string that the device sent: valid UTF-8 gives the text, anything else a
/// `Utf8Error` that keeps the bytes.
pub fn decode_device_text(bytes: Vec<u8>) -> (r: Result<String, Error>)
    ensures
        match r {
            Ok(s) => valid_utf8(bytes@) && s@ == decode_utf8(bytes@),
            Err(Error::Utf8Error { bytes: b }) => !valid_utf8(bytes@) && b@ == bytes@,
            Err(_) => false,
        },
{
    match text_from_bytes(bytes) {
        Ok(s) => Ok(s),
        Err(b) => Err(Error::Utf8Error { bytes: b }),
    }
}

/// The kind of the latest (last) entry of an error chain, if it has a decodable one.
pub open spec fn latest_kind(list: Seq<ErrorEntry>) -> Option<MtpErrorKind> {
    if list.len() == 0 {
        None
    } else {
        kind_of_number(list.last().errornumber)
    }
}

/// `e` is the structured error for the latest entry of `list`.
pub open spec fn reports_latest(list: Seq<ErrorEntry>, e: Error) -> bool {
    match e {
        Error::MtpError { kind, text } => latest_kind(list) == Some(kind) && text@ == utf8_lossy(
            list.last().text@,
        ),
        _ => false,
    }
}

/// `r` is what reading the chain `list` yields: nothing when its latest entry cannot be
/// decoded (or there is none), else the error for that entry.
pub open spec fn latest_error_of(list: Seq<ErrorEntry>, r: Option<Error>) -> bool {
    match r {
        None => latest_kind(list) is None,
        Some(e) => reports_latest(list, e),
    }
}

/// `e` is the error that a failed operation reports on the chain `list`: the error for the
/// latest entry, or `Unknown` where there is none to decode.
pub open spec fn failure_of(list: Seq<ErrorEntry>, e: Error) -> bool {
    if latest_kind(list) is None {
        e == Error::Unknown
    } else {
        reports_latest(list, e)
    }
}

impl Error {
    /// Builds the error for the latest entry of a native error chain.
    pub fn from_latest_error(list: &Vec<ErrorEntry>) -> (r: Option<Error>)
        ensures
            latest_error_of(list@, r),
    {
        if list.len() == 0 {
            None
        } else {
            let last = &list[list.len() - 1];
            match MtpErrorKind::from_error_number(last.errornumber) {
                None => None,
                Some(kind) => {
                    let text = text_from_bytes_lossy(&last.text);
                    Some(Error::MtpError { kind, text })
                },
            }
        }
    }
}

/// The session's error stack: entries that the native layer pushed since it was last read.
/// Reading it drains it, so that each operation sees only the errors it caused.
#[derive(Debug)]
pub struct ErrorStack {
    pub entries: Vec<ErrorEntry>,
}

impl View for ErrorStack {
    type V = Seq<ErrorEntry>;

    open spec fn view(&self) -> Seq<ErrorEntry> {
        self.entries@
    }
}

impl ErrorStack {
    /// An empty stack.
    pub fn new() -> (r: ErrorStack)
        ensures
            r@ == Seq::<ErrorEntry>::empty(),
    {
        ErrorStack { entries: Vec::new() }
    }

    /// Records an entry that the native layer reported.
    pub fn push(&mut self, entry: ErrorEntry)
        ensures
            final(self)@ == old(self)@.push(entry),
    {
        self.entries.push(entry);
    }

    /// Number of entries not read yet.
    pub fn len(&self) -> (r: usize)
        ensures
            r == self@.len(),
    {
        self.entries.len()
    }

    /// Whether no entry is waiting.
    pub fn is_empty(&self) -> (r: bool)
        ensures
            r == (self@.len() == 0),
    {
        self.entries.len() == 0
    }

    /// Reads the latest error and clears the stack.
    pub fn latest_error(&mut self) -> (r: Option<Error>)
        ensures
            latest_error_of(old(self)@, r),
            final(self)@.len() == 0,
    {
        let r = Error::from_latest_error(&self.entries);
        self.entries = Vec::new();
        r
    }

    /// The error of a failed native call: the latest error, or `Unknown` where the stack
    /// holds none that can be decoded. The stack is cleared.
    pub fn failure(&mut self) -> (e: Error)
        ensures
            failure_of(old(self)@, e),
            final(self)@.len() == 0,
    {
        match self.latest_error() {
            Some(e) => e,
            None => Error::Unknown,
        }
    }

    /// Drops every entry, so that nothing reaches the next operation.
    pub fn clear(&mut self)
        ensures
            final(self)@.len() == 0,
    {
        self.entries = Vec::new();
    }

    /// Outcome of a native call that returns a status: zero is success, anything else a
    /// failure reported from the stack. The stack is cleared either way.
    pub fn status(&mut self, res: i32) -> (r: Result<(), Error>)
        ensures
            final(self)@.len() == 0,
            res == 0 ==> r is Ok,
            res != 0 ==> match r {
                Err(e) => failure_of(old(self)@, e),
                Ok(_) => false,
            },
    {
        if res != 0 {
            Err(self.failure())
        } else {
            self.clear();
            Ok(())
        }
    }

    /// Outcome of a native query that returns a string, or nothing on failure. The stack
    /// is cleared either way.
    pub fn text(&mut self, raw: Option<Vec<u8>>) -> (r: Result<String, Error>)
        ensures
            final(self)@.len() == 0,
            match raw {
                None => match r {
                    Err(e) => failure_of(old(self)@, e),
                    Ok(_) => false,
                },
                Some(b) => match r {
                    Ok(s) => valid_utf8(b@) && s@ == decode_utf8(b@),
                    Err(Error::Utf8Error { bytes }) => !valid_utf8(b@) && bytes@ == b@,
                    Err(_) => false,
                },
            },
    {
        match raw {
            None => Err(self.failure()),
            Some(b) => {
                self.clear();
                decode_device_text(b)
            },
        }
    }

    /// Outcome of a native query whose value cannot tell failure apart: the stack decides.
    /// A decodable latest error makes it a failure; otherwise the value stands. The stack
    /// is cleared either way.
    pub fn value<T>(&mut self, val: T) -> (r: Result<T, Error>)
        ensures
            final(self)@.len() == 0,
            match r {
                Ok(v) => v == val && latest_kind(old(self)@) is None,
                Err(e) => reports_latest(old(self)@, e),
            },
    {
        match self.latest_error() {
            Some(e) => Err(e),
            None => Ok(val),
        }
    }
}

/// Reading the error stack drains it: read a stack once, and a second read with no
/// failing call in between finds no error, whatever the first read found.
pub proof fn lemma_second_read_finds_nothing(
    stack: ErrorStack,
    first: Option<Error>,
    drained: ErrorStack,
    second: Option<Error>,
)
    requires
        latest_error_of(stack@, first),
        drained@.len() == 0,
        latest_error_of(drained@, second),
    ensures
        second is None,
{
}

} // verus!
