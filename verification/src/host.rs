//! The values that cross the boundary between the library and the host:
//! what the library asks for, what the host answers, and the step by which
//! an operation goes on or ends.

use crate::utils::WinErrorKind;
use vstd::prelude::*;

verus! {

/// What the host's calls return for failure.
pub const FALSE: i32 = 0;

/// What the host's calls return for success.
pub const TRUE: i32 = 1;

/// The width of the executable-name field of a process record.
pub const MAX_PATH: usize = 260;

/// The width of the module-name field of a module record.
pub const MODULE_NAME_LEN: usize = 256;

/// An opaque token of the host, naming a snapshot or an opened process.
#[derive(Clone, Copy, Debug, PartialEq, Eq, Structural)]
pub struct Handle {
    pub raw: usize,
}

impl Handle {
    /// The null handle: no resource at all.
    pub open spec fn spec_null() -> Handle {
        Handle { raw: 0 }
    }

    /// The sentinel by which the host reports that it could not create a resource.
    pub open spec fn spec_invalid() -> Handle {
        Handle { raw: usize::MAX }
    }

    /// Whether the handle may name a live resource: it is neither null nor the sentinel.
    pub open spec fn is_live(self) -> bool {
        self.raw != 0 && self.raw != usize::MAX
    }

    /// The null handle.
    #[verifier::when_used_as_spec(spec_null)]
    pub fn null() -> (h: Handle)
        ensures
            h == Handle::spec_null(),
    {
        Handle { raw: 0 }
    }

    /// The sentinel.
    #[verifier::when_used_as_spec(spec_invalid)]
    pub fn invalid() -> (h: Handle)
        ensures
            h == Handle::spec_invalid(),
    {
        Handle { raw: usize::MAX }
    }

    /// Whether this is the null handle.
    pub fn is_null(&self) -> (r: bool)
        ensures
            r == (self.raw == 0),
    {
        self.raw == 0
    }

    /// Whether this is the sentinel.
    pub fn is_invalid(&self) -> (r: bool)
        ensures
            r == (self.raw == usize::MAX),
    {
        self.raw == usize::MAX
    }
}

/// One record of a process listing, as far as the library reads it.
#[derive(Clone, Copy, Debug, PartialEq, Eq)]
pub struct ProcessEntry {
    /// The identifier of the process.
    pub pid: u32,
    /// The name of its executable, padded with terminators.
    pub exe_file: [u16; MAX_PATH],
}

/// One record of a module listing, as far as the library reads it.
#[derive(Clone, Copy, Debug, PartialEq, Eq)]
pub struct ModuleEntry {
    /// Where the module's image begins in the owning process.
    pub base_address: usize,
    /// The size of the image in bytes.
    pub base_size: u32,
    /// The module's file name, padded with terminators.
    pub module: [u16; MODULE_NAME_LEN],
}

/// What the library asks of the host.
#[derive(Clone, Debug, PartialEq, Eq)]
pub enum Request {
    /// Take a snapshot of all running processes.
    ProcessSnapshot,
    /// Take a snapshot of the modules loaded in the process `pid`.
    ModuleSnapshot { pid: u32 },
    /// Fetch the first process record of `snapshot`.
    FirstProcess { snapshot: Handle },
    /// Fetch the next process record of `snapshot`.
    NextProcess { snapshot: Handle },
    /// Fetch the first module record of `snapshot`.
    FirstModule { snapshot: Handle },
    /// Fetch the next module record of `snapshot`.
    NextModule { snapshot: Handle },
    /// Open the process `pid` with full access rights.
    OpenProcess { pid: u32 },
    /// Copy `width` bytes out of the process, starting at `address`.
    Read { process: Handle, address: u32, width: usize },
    /// Copy `bytes` into the process, starting at `address`.
    Write { process: Handle, address: u32, bytes: Vec<u8> },
    /// Close `handle`.
    Close { handle: Handle },
}

/// A request as a mathematical value.
pub enum RequestView {
    ProcessSnapshot,
    ModuleSnapshot { pid: u32 },
    FirstProcess { snapshot: Handle },
    NextProcess { snapshot: Handle },
    FirstModule { snapshot: Handle },
    NextModule { snapshot: Handle },
    OpenProcess { pid: u32 },
    Read { process: Handle, address: u32, width: usize },
    Write { process: Handle, address: u32, bytes: Seq<u8> },
    Close { handle: Handle },
}

impl View for Request {
    type V = RequestView;

    open spec fn view(&self) -> RequestView {
        match *self {
            Request::ProcessSnapshot => RequestView::ProcessSnapshot,
            Request::ModuleSnapshot { pid } => RequestView::ModuleSnapshot { pid },
            Request::FirstProcess { snapshot } => RequestView::FirstProcess { snapshot },
            Request::NextProcess { snapshot } => RequestView::NextProcess { snapshot },
            Request::FirstModule { snapshot } => RequestView::FirstModule { snapshot },
            Request::NextModule { snapshot } => RequestView::NextModule { snapshot },
            Request::OpenProcess { pid } => RequestView::OpenProcess { pid },
            Request::Read { process, address, width } => RequestView::Read {
                process,
                address,
                width,
            },
            Request::Write { process, address, bytes } => RequestView::Write {
                process,
                address,
                bytes: bytes@,
            },
            Request::Close { handle } => RequestView::Close { handle },
        }
    }
}

/// What the host answers.
#[derive(Clone, Debug, PartialEq, Eq)]
#[allow(inconsistent_fields)]
pub enum Reply {
    /// The handle that a snapshot or an open request returned.
    Handle(Handle),
    /// The status of a fetch from a process snapshot, and the record as the
    /// call left it.
    Process { status: i32, entry: ProcessEntry },
    /// The status of a fetch from a module snapshot, and the record as the
    /// call left it.
    Module { status: i32, entry: ModuleEntry },
    /// The status of a read, and the destination buffer as the call left it.
    Read { status: i32, bytes: Vec<u8> },
    /// The status of a write or of a close.
    Status(i32),
}

/// A reply as a mathematical value.
#[allow(inconsistent_fields)]
pub enum ReplyView {
    Handle(Handle),
    Process { status: i32, entry: ProcessEntry },
    Module { status: i32, entry: ModuleEntry },
    Read { status: i32, bytes: Seq<u8> },
    Status(i32),
}

impl ReplyView {
    /// The handle that the reply carries; the null handle where it carries none.
    pub open spec fn handle(self) -> Handle {
        match self {
            ReplyView::Handle(h) => h,
            _ => Handle::spec_null(),
        }
    }
}

impl View for Reply {
    type V = ReplyView;

    open spec fn view(&self) -> ReplyView {
        match *self {
            Reply::Handle(h) => ReplyView::Handle(h),
            Reply::Process { status, entry } => ReplyView::Process { status, entry },
            Reply::Module { status, entry } => ReplyView::Module { status, entry },
            Reply::Read { status, bytes } => ReplyView::Read { status, bytes: bytes@ },
            Reply::Status(status) => ReplyView::Status(status),
        }
    }
}

impl Reply {
    /// The handle that the reply carries. A reply of another kind stands for
    /// a call that failed, and gives the null handle.
    pub fn handle(&self) -> (h: Handle)
        ensures
            h == self@.handle(),
    {
        match self {
            Reply::Handle(h) => *h,
            _ => Handle::null(),
        }
    }
}

/// How an operation goes on after a reply.
#[derive(Debug)]
pub enum Step<M, T> {
    /// The host is to perform `request` and hand its reply to `machine`.
    Ask { machine: M, request: Request },
    /// The operation is over, with this result.
    Done(Result<T, WinErrorKind>),
}

/// A step as a mathematical value.
pub enum StepView<M, T> {
    Ask { machine: M, request: RequestView },
    Done(Result<T, WinErrorKind>),
}

impl<M: View, T: View> View for Step<M, T> {
    type V = StepView<M::V, T::V>;

    open spec fn view(&self) -> StepView<M::V, T::V> {
        match *self {
            Step::Ask { machine, request } => StepView::Ask {
                machine: machine@,
                request: request@,
            },
            Step::Done(Ok(value)) => StepView::Done(Ok(value@)),
            Step::Done(Err(kind)) => StepView::Done(Err(kind)),
        }
    }
}

} // verus!
