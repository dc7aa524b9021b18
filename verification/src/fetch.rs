//! Fetch processes: the progress of fetching one resource, from empty
//! through in progress to done and read, or canceled.

use vstd::prelude::*;
use crate::ast::GUID;
use crate::guid::fresh_guid;

verus! {

/// The identifier of a fetch process.
pub type FetchProcessId = GUID;

/// Why a fetch was canceled.
#[derive(Debug, Clone, Copy, PartialEq, Eq, Structural)]
pub enum FetchCancelReason {
    User,
    Error,
}

/// How far a fetch has come. The progress of a fetch that is under way is
/// carried as the bit pattern of a single-precision number, which the
/// library hands on and never computes with.
#[derive(Debug, Clone, Copy, PartialEq, Eq, Structural)]
pub enum FetchStatus {
    Empty,
    InProgress(u32),
    Done,
    Canceled(FetchCancelReason),
    Read,
}

/// What a reader of a fetch process can ask of it.
pub trait FetchProcessReader {
    /// How far the fetch has come.
    fn status(&self) -> FetchStatus;

    /// Takes the fetched bytes, once the fetch is done.
    fn read(&mut self) -> Option<Vec<u8>>;

    /// The number of fetched bytes, once the fetch is done.
    fn byte_size(&self) -> Option<usize>;
}

/// One fetch: its status and, while it is done and not yet read, the bytes.
#[derive(Debug)]
pub struct FetchProcess {
    id: FetchProcessId,
    state: FetchStatus,
    data: Option<Vec<u8>>,
}

/// The mathematical value of a [`FetchProcess`].
pub struct FetchView {
    pub id: FetchProcessId,
    pub status: FetchStatus,
    pub data: Option<Seq<u8>>,
}

impl View for FetchProcess {
    type V = FetchView;

    closed spec fn view(&self) -> FetchView {
        FetchView {
            id: self.id,
            status: self.state,
            data: match self.data {
                Some(bytes) => Some(bytes@),
                None => None,
            },
        }
    }
}

/// The bytes of an optional buffer.
pub open spec fn bytes_view(data: Option<Vec<u8>>) -> Option<Seq<u8>> {
    match data {
        Some(bytes) => Some(bytes@),
        None => None,
    }
}

impl FetchView {
    /// The process in the status `status` and without bytes.
    pub open spec fn turned(self, status: FetchStatus) -> FetchView {
        FetchView { id: self.id, status, data: None }
    }

    /// The process after its bytes were taken, if it was done.
    pub open spec fn taken(self) -> FetchView {
        if self.status == FetchStatus::Done {
            self.turned(FetchStatus::Read)
        } else {
            self
        }
    }
}

/// Reading twice: after the bytes of a process were taken it is read, so
/// taking them again gives nothing and changes nothing.
pub proof fn lemma_read_once(process: FetchView)
    ensures
        process.taken().status != FetchStatus::Done,
        process.taken().taken() == process.taken(),
{
}

impl FetchProcess {
    /// An empty process with a new identifier.
    pub fn new() -> (process: FetchProcess)
        ensures
            process@.status == FetchStatus::Empty,
            process@.data is None,
    {
        FetchProcess { id: fresh_guid(), state: FetchStatus::Empty, data: None }
    }

    /// A process under way, at no progress, with a new identifier.
    pub fn new_start() -> (process: FetchProcess)
        ensures
            process@.status == FetchStatus::InProgress(0),
            process@.data is None,
    {
        FetchProcess { id: fresh_guid(), state: FetchStatus::InProgress(0), data: None }
    }

    /// A process that is done with the bytes `data`, with a new identifier.
    pub fn new_done(data: Vec<u8>) -> (process: FetchProcess)
        ensures
            process@.status == FetchStatus::Done,
            process@.data == Some(data@),
    {
        FetchProcess { id: fresh_guid(), state: FetchStatus::Done, data: Some(data) }
    }

    /// A process that was canceled for `reason`, with a new identifier.
    pub fn new_cancel(reason: FetchCancelReason) -> (process: FetchProcess)
        ensures
            process@.status == FetchStatus::Canceled(reason),
            process@.data is None,
    {
        FetchProcess { id: fresh_guid(), state: FetchStatus::Canceled(reason), data: None }
    }

    /// The identifier of the process.
    pub fn id(&self) -> (id: FetchProcessId)
        ensures
            id == self@.id,
    {
        self.id
    }

    /// Starts the fetch over: it is under way, at no progress.
    pub fn start(&mut self)
        ensures
            final(self)@ == old(self)@.turned(FetchStatus::InProgress(0)),
    {
        self.state = FetchStatus::InProgress(0);
        self.data = None;
    }

    /// Reports the progress `value` of the fetch.
    pub fn progress(&mut self, value: u32)
        ensures
            final(self)@ == old(self)@.turned(FetchStatus::InProgress(value)),
    {
        self.state = FetchStatus::InProgress(value);
        self.data = None;
    }

    /// Completes the fetch with the bytes `data`.
    pub fn done(&mut self, data: Vec<u8>)
        ensures
            final(self)@ == (FetchView {
                id: old(self)@.id,
                status: FetchStatus::Done,
                data: Some(data@),
            }),
    {
        self.state = FetchStatus::Done;
        self.data = Some(data);
    }

    /// Cancels the fetch for `reason`.
    pub fn cancel(&mut self, reason: FetchCancelReason)
        ensures
            final(self)@ == old(self)@.turned(FetchStatus::Canceled(reason)),
    {
        self.state = FetchStatus::Canceled(reason);
        self.data = None;
    }

    /// How far the fetch has come.
    pub fn status(&self) -> (status: FetchStatus)
        ensures
            status == self@.status,
    {
        self.state
    }

    /// Takes the fetched bytes. Only a process that is done has any; it is
    /// read from then on.
    pub fn read(&mut self) -> (data: Option<Vec<u8>>)
        ensures
            final(self)@ == old(self)@.taken(),
            bytes_view(data) == if old(self)@.status == FetchStatus::Done {
                old(self)@.data
            } else {
                None
            },
    {
        if self.state == FetchStatus::Done {
            self.state = FetchStatus::Read;
            self.data.take()
        } else {
            None
        }
    }

    /// The number of fetched bytes of a process that is done.
    pub fn byte_size(&self) -> (size: Option<usize>)
        ensures
            size == match self@.data {
                Some(bytes) if self@.status == FetchStatus::Done => Some(bytes.len() as usize),
                _ => None,
            },
    {
        if self.state == FetchStatus::Done {
            if let Some(bytes) = &self.data {
                return Some(bytes.len());
            }
        }
        None
    }
}

impl FetchProcessReader for FetchProcess {
    fn status(&self) -> (status: FetchStatus)
        ensures
            status == self@.status,
    {
        FetchProcess::status(self)
    }

    fn read(&mut self) -> (data: Option<Vec<u8>>)
        ensures
            final(self)@ == old(self)@.taken(),
            bytes_view(data) == if old(self)@.status == FetchStatus::Done {
                old(self)@.data
            } else {
                None
            },
    {
        FetchProcess::read(self)
    }

    fn byte_size(&self) -> (size: Option<usize>)
        ensures
            size == match self@.data {
                Some(bytes) if self@.status == FetchStatus::Done => Some(bytes.len() as usize),
                _ => None,
            },
    {
        FetchProcess::byte_size(self)
    }
}

/// An engine that fetches resources by path.
pub trait FetchEngine {
    /// Starts to fetch the resource at `path`.
    fn fetch(&mut self, path: &str) -> Result<FetchProcess, FetchStatus>;

    /// Cancels the fetch `process` on behalf of the user.
    fn cancel(&mut self, process: &mut FetchProcess)
        ensures
            final(process)@ == old(process)@.turned(FetchStatus::Canceled(FetchCancelReason::User)),
    {
        process.cancel(FetchCancelReason::User);
    }
}

} // verus!
