use vstd::prelude::*;

verus! {

/// What a progress callback answers after each report.
#[derive(Debug, Clone, Copy, PartialEq, Eq, Structural)]
pub enum CallbackReturn {
    /// Go on with the transfer.
    Continue,
    /// Stop the transfer as early as the native layer allows.
    Cancel,
}

impl CallbackReturn {
    /// The status code that the native progress hook hands back: zero goes on, one cancels.
    pub fn native_code(&self) -> (r: i32)
        ensures
            r == 0 <==> *self == CallbackReturn::Continue,
            r == 1 <==> *self == CallbackReturn::Cancel,
    {
        match self {
            CallbackReturn::Continue => 0,
            CallbackReturn::Cancel => 1,
        }
    }
}

/// Native data hook status: go on.
pub const HANDLER_RETURN_OK: u16 = 0;
/// Native data hook status: the handler failed.
pub const HANDLER_RETURN_ERROR: u16 = 1;
/// Native data hook status: the handler cancelled.
pub const HANDLER_RETURN_CANCEL: u16 = 2;

/// What a data handler answers for each chunk.
#[derive(Debug, Clone, Copy, PartialEq, Eq, Structural)]
pub enum HandlerReturn {
    /// All went well; holds the number of bytes read from or written to the chunk.
    Proceed(u32),
    /// The handler failed.
    Error,
    /// The handler wants the transfer stopped.
    Cancel,
}

/// The native status for a handler answer.
pub open spec fn handler_code(r: HandlerReturn) -> u16 {
    match r {
        HandlerReturn::Proceed(_) => HANDLER_RETURN_OK,
        HandlerReturn::Error => HANDLER_RETURN_ERROR,
        HandlerReturn::Cancel => HANDLER_RETURN_CANCEL,
    }
}

impl HandlerReturn {
    /// Whether the handler failed.
    pub fn is_error(&self) -> (r: bool)
        ensures
            r == (*self == HandlerReturn::Error),
    {
        matches!(self, HandlerReturn::Error)
    }

    /// Whether the handler cancelled.
    pub fn is_cancel(&self) -> (r: bool)
        ensures
            r == (*self == HandlerReturn::Cancel),
    {
        matches!(self, HandlerReturn::Cancel)
    }

    /// The native status for this answer.
    pub fn native_code(&self) -> (r: u16)
        ensures
            r == handler_code(*self),
    {
        match self {
            HandlerReturn::Proceed(_) => HANDLER_RETURN_OK,
            HandlerReturn::Error => HANDLER_RETURN_ERROR,
            HandlerReturn::Cancel => HANDLER_RETURN_CANCEL,
        }
    }
}

/// Stands between the native data hook and the caller's handler for one transfer. Chunks
/// reach the handler only while every earlier answer was `Proceed`; once the handler failed or
/// cancelled, it is not called again, and the transfer's outcome reads its last answer.
#[derive(Debug)]
pub struct HandlerGate {
    last: HandlerReturn,
}

impl HandlerGate {
    /// The last answer that counts; `Proceed(0)` before the first chunk.
    pub closed spec fn last_spec(&self) -> HandlerReturn {
        self.last
    }

    /// Whether chunks still go to the handler.
    pub open spec fn open_spec(&self) -> bool {
        self.last_spec() is Proceed
    }

    /// A gate before the first chunk.
    pub fn new() -> (r: HandlerGate)
        ensures
            r.last_spec() == HandlerReturn::Proceed(0),
    {
        HandlerGate { last: HandlerReturn::Proceed(0) }
    }

    /// The last answer that counts.
    pub fn last(&self) -> (r: HandlerReturn)
        ensures
            r == self.last_spec(),
    {
        self.last
    }

    /// Whether the next chunk goes to the handler.
    pub fn is_open(&self) -> (r: bool)
        ensures
            r == self.open_spec(),
    {
        matches!(self.last, HandlerReturn::Proceed(_))
    }

    /// Takes the handler's answer for a chunk and gives the native status, with the byte
    /// count that a `Proceed` answer reports (zero for the others).
    pub fn record(&mut self, answer: HandlerReturn) -> (r: (u16, u32))
        requires
            old(self).open_spec(),
        ensures
            final(self).last_spec() == answer,
            r == (handler_code(answer), match answer {
                HandlerReturn::Proceed(n) => n,
                _ => 0u32,
            }),
    {
        self.last = answer;
        let len = match answer {
            HandlerReturn::Proceed(n) => n,
            _ => 0,
        };
        (answer.native_code(), len)
    }

    /// The native status for a chunk that arrives after the handler stopped: the chunk is
    /// not handed on, and the last answer is repeated.
    pub fn refusal(&self) -> (r: u16)
        requires
            !self.open_spec(),
        ensures
            r == handler_code(self.last_spec()),
            r != HANDLER_RETURN_OK,
    {
        self.last.native_code()
    }
}

/// After a cancel or an error from the handler, no further chunk reaches it, and each
/// later chunk is answered with a status that stops the transfer.
pub proof fn lemma_gate_stays_shut(g: HandlerGate)
    requires
        g.last_spec() == HandlerReturn::Cancel || g.last_spec() == HandlerReturn::Error,
    ensures
        !g.open_spec(),
        handler_code(g.last_spec()) != HANDLER_RETURN_OK,
{
}

} // verus!
