//! The non-volatile storage access protocol. The store itself is a foreign
//! C-style primitive (open a namespace handle, query the value length with a
//! null-output probe, read into a buffer, write, close); an unverified driver
//! makes those calls and feeds each status code back into the state machines
//! here. The machines fix the order of the calls, the mapping of every
//! nonzero status to its error, and the discipline that the handle is closed
//! on every exit path — success, decode failure, or I/O failure — before a
//! result can be taken out.

use vstd::prelude::*;

verus! {

/// A storage operation's failure, each carrying the foreign status code that
/// caused it (nonzero, wrapped rather than decoded semantically). `Decode`
/// means the bytes read back were not valid text.
#[derive(Clone, Copy, Debug, PartialEq, Eq, Structural)]
pub enum StorageError {
    Open(i32),
    SizeQuery(i32),
    Read(i32),
    Write(i32),
    Decode,
}

/// Where a read stands: which foreign call is owed next.
#[derive(Debug)]
pub enum ReadPhase {
    /// Next call: open the namespace handle.
    AwaitOpen,
    /// Next call: query the stored value's length (null-output probe).
    AwaitSize,
    /// Next call: read into a buffer of `required` bytes.
    AwaitData { required: usize },
    /// Next call: close the handle; the outcome is already decided.
    AwaitClose { pending: Result<Vec<u8>, StorageError> },
    /// The handle is closed and the outcome may be taken out.
    Done { result: Result<Vec<u8>, StorageError> },
}

/// One read of one key, from open to close.
#[derive(Debug)]
pub struct ReadFlow {
    pub phase: ReadPhase,
    /// Whether the close call has been made. The invariant ties it to the
    /// terminal phase: no outcome is reachable with the handle still open.
    pub closed: bool,
}

impl ReadFlow {
    /// The close-on-every-exit-path discipline, as an invariant.
    pub open spec fn wf(&self) -> bool {
        self.phase is Done ==> self.closed
    }

    /// Begin a read: the driver must open the handle first.
    pub fn new() -> (f: ReadFlow)
        ensures
            f.wf(),
            f.phase is AwaitOpen,
            !f.closed,
    {
        ReadFlow { phase: ReadPhase::AwaitOpen, closed: false }
    }

    /// Feed in the open call's status. Zero proceeds to the length query;
    /// anything else decides `Open(status)` (the handle is still closed
    /// unconditionally, as the foreign API tolerates).
    pub fn on_open(&mut self, status: i32)
        requires
            old(self).wf(),
            old(self).phase is AwaitOpen,
        ensures
            final(self).wf(),
            final(self).closed == old(self).closed,
            status == 0 ==> final(self).phase is AwaitSize,
            status != 0 ==> final(self).phase == (ReadPhase::AwaitClose {
                pending: Err(StorageError::Open(status)),
            }),
    {
        if status == 0 {
            self.phase = ReadPhase::AwaitSize;
        } else {
            self.phase = ReadPhase::AwaitClose { pending: Err(StorageError::Open(status)) };
        }
    }

    /// Feed in the length query's status and the length it reported. Zero
    /// proceeds to the data read with that buffer size; anything else decides
    /// `SizeQuery(status)`.
    pub fn on_size(&mut self, status: i32, required: usize)
        requires
            old(self).wf(),
            old(self).phase is AwaitSize,
        ensures
            final(self).wf(),
            final(self).closed == old(self).closed,
            status == 0 ==> final(self).phase == (ReadPhase::AwaitData { required }),
            status != 0 ==> final(self).phase == (ReadPhase::AwaitClose {
                pending: Err(StorageError::SizeQuery(status)),
            }),
    {
        if status == 0 {
            self.phase = ReadPhase::AwaitData { required };
        } else {
            self.phase = ReadPhase::AwaitClose { pending: Err(StorageError::SizeQuery(status)) };
        }
    }

    /// Feed in the data read's status, the bytes it produced, and whether the
    /// driver could decode them as text. A nonzero status decides
    /// `Read(status)`; unreadable text decides `Decode`; otherwise the bytes
    /// are the read's outcome.
    pub fn on_data(&mut self, status: i32, data: Vec<u8>, text_ok: bool)
        requires
            old(self).wf(),
            old(self).phase is AwaitData,
        ensures
            final(self).wf(),
            final(self).closed == old(self).closed,
            status != 0 ==> final(self).phase == (ReadPhase::AwaitClose {
                pending: Err(StorageError::Read(status)),
            }),
            status == 0 && !text_ok ==> final(self).phase == (ReadPhase::AwaitClose {
                pending: Err(StorageError::Decode),
            }),
            status == 0 && text_ok ==> (final(self).phase matches ReadPhase::AwaitClose { pending }
                && pending matches Ok(d) && d@ == data@),
    {
        if status != 0 {
            self.phase = ReadPhase::AwaitClose { pending: Err(StorageError::Read(status)) };
        } else if !text_ok {
            self.phase = ReadPhase::AwaitClose { pending: Err(StorageError::Decode) };
        } else {
            self.phase = ReadPhase::AwaitClose { pending: Ok(data) };
        }
    }

    /// Record that the handle was closed. Only this step reaches the terminal
    /// phase, so every outcome — success or any failure — passes through it.
    pub fn on_close(&mut self)
        requires
            old(self).wf(),
            old(self).phase is AwaitClose,
        ensures
            final(self).wf(),
            final(self).closed,
            final(self).phase matches ReadPhase::Done { result } && result == old(
                self,
            ).phase->pending,
    {
        let mut taken = ReadPhase::AwaitOpen;
        core::mem::swap(&mut taken, &mut self.phase);
        match taken {
            ReadPhase::AwaitClose { pending } => {
                self.phase = ReadPhase::Done { result: pending };
                self.closed = true;
            },
            _ => {
                assert(false);
            },
        }
    }

    /// Take the outcome out of a finished read.
    pub fn into_result(self) -> (r: Result<Vec<u8>, StorageError>)
        requires
            self.wf(),
            self.phase is Done,
        ensures
            r == self.phase->result,
    {
        match self {
            ReadFlow { phase: ReadPhase::Done { result }, closed: _ } => result,
            _ => unreached(),
        }
    }
}

/// Where a write stands: which foreign call is owed next.
#[derive(Debug)]
pub enum WritePhase {
    /// Next call: open the namespace handle.
    AwaitOpen,
    /// Next call: write the value.
    AwaitWrite,
    /// Next call: close the handle; the outcome is already decided.
    AwaitClose { pending: Result<(), StorageError> },
    /// The handle is closed and the outcome may be taken out.
    Done { result: Result<(), StorageError> },
}

/// One write of one key, from open to close.
#[derive(Debug)]
pub struct WriteFlow {
    pub phase: WritePhase,
    /// Whether the close call has been made; tied to the terminal phase by
    /// the invariant, as for reads.
    pub closed: bool,
}

impl WriteFlow {
    /// The close-on-every-exit-path discipline, as an invariant.
    pub open spec fn wf(&self) -> bool {
        self.phase is Done ==> self.closed
    }

    /// Begin a write: the driver must open the handle first.
    pub fn new() -> (f: WriteFlow)
        ensures
            f.wf(),
            f.phase is AwaitOpen,
            !f.closed,
    {
        WriteFlow { phase: WritePhase::AwaitOpen, closed: false }
    }

    /// Feed in the open call's status. Zero proceeds to the write; anything
    /// else decides `Open(status)`.
    pub fn on_open(&mut self, status: i32)
        requires
            old(self).wf(),
            old(self).phase is AwaitOpen,
        ensures
            final(self).wf(),
            final(self).closed == old(self).closed,
            status == 0 ==> final(self).phase is AwaitWrite,
            status != 0 ==> final(self).phase == (WritePhase::AwaitClose {
                pending: Err(StorageError::Open(status)),
            }),
    {
        if status == 0 {
            self.phase = WritePhase::AwaitWrite;
        } else {
            self.phase = WritePhase::AwaitClose { pending: Err(StorageError::Open(status)) };
        }
    }

    /// Feed in the write call's status. Zero decides success; anything else
    /// decides `Write(status)`.
    pub fn on_write(&mut self, status: i32)
        requires
            old(self).wf(),
            old(self).phase is AwaitWrite,
        ensures
            final(self).wf(),
            final(self).closed == old(self).closed,
            status == 0 ==> final(self).phase == (WritePhase::AwaitClose { pending: Ok(()) }),
            status != 0 ==> final(self).phase == (WritePhase::AwaitClose {
                pending: Err(StorageError::Write(status)),
            }),
    {
        if status == 0 {
            self.phase = WritePhase::AwaitClose { pending: Ok(()) };
        } else {
            self.phase = WritePhase::AwaitClose { pending: Err(StorageError::Write(status)) };
        }
    }

    /// Record that the handle was closed; only this step reaches the
    /// terminal phase.
    pub fn on_close(&mut self)
        requires
            old(self).wf(),
            old(self).phase is AwaitClose,
        ensures
            final(self).wf(),
            final(self).closed,
            final(self).phase matches WritePhase::Done { result } && result == old(
                self,
            ).phase->pending,
    {
        let mut taken = WritePhase::AwaitOpen;
        core::mem::swap(&mut taken, &mut self.phase);
        match taken {
            WritePhase::AwaitClose { pending } => {
                self.phase = WritePhase::Done { result: pending };
                self.closed = true;
            },
            _ => {
                assert(false);
            },
        }
    }

    /// Take the outcome out of a finished write.
    pub fn into_result(self) -> (r: Result<(), StorageError>)
        requires
            self.wf(),
            self.phase is Done,
        ensures
            r == self.phase->result,
    {
        match self {
            WriteFlow { phase: WritePhase::Done { result }, closed: _ } => result,
            _ => unreached(),
        }
    }
}

/// A finished read or write has always released its handle: the invariant
/// makes the terminal phase unreachable with the handle still open.
pub proof fn lemma_done_implies_closed(r: ReadFlow, w: WriteFlow)
    requires
        r.wf(),
        w.wf(),
    ensures
        r.phase is Done ==> r.closed,
        w.phase is Done ==> w.closed,
{
}

} // verus!
