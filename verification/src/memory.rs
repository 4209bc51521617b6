//! Transfers of bytes into and out of a process, at an absolute address or
//! at an offset from the base of a module that is looked up afresh.
//!
//! A transfer succeeds whole or fails: no part of a value is ever handed on.

use crate::host::{Handle, Reply, ReplyView, Request, RequestView, Step, StepView, TRUE};
use crate::module::{Module, ModuleView};
use crate::runs::Machine;
use crate::search::{ModuleSearch, ModuleSearchView};
use crate::utils::WinErrorKind;
use vstd::prelude::*;

verus! {

/// A read of a known width, under way.
#[derive(Debug)]
pub struct MemoryRead {
    width: usize,
}

/// A read as a mathematical value.
pub struct MemoryReadView {
    /// The number of bytes asked for.
    pub width: usize,
}

impl MemoryReadView {
    /// The read of `width` bytes at `address` through `process`, before the reply.
    pub open spec fn at(process: Handle, address: u32, width: usize) -> StepView<
        MemoryReadView,
        Seq<u8>,
    > {
        StepView::Ask {
            machine: MemoryReadView { width },
            request: RequestView::Read { process, address, width },
        }
    }

    /// What the read gives on `reply`: the bytes, where the host reports
    /// success and hands back as many as were asked for; failure otherwise.
    pub open spec fn outcome(self, reply: ReplyView) -> Result<Seq<u8>, WinErrorKind> {
        if reply matches ReplyView::Read { status, bytes } && status == TRUE && bytes.len()
            == self.width {
            Ok(reply->Read_bytes)
        } else {
            Err(WinErrorKind::ReadMemoryError)
        }
    }

    /// The step that the read takes on `reply`: its last.
    pub open spec fn advance(self, reply: ReplyView) -> StepView<MemoryReadView, Seq<u8>> {
        StepView::Done(self.outcome(reply))
    }
}

impl Machine for MemoryReadView {
    type Outcome = Seq<u8>;

    open spec fn step(self, reply: ReplyView) -> StepView<MemoryReadView, Seq<u8>> {
        self.advance(reply)
    }
}

impl View for MemoryRead {
    type V = MemoryReadView;

    closed spec fn view(&self) -> MemoryReadView {
        MemoryReadView { width: self.width }
    }
}

impl MemoryRead {
    pub(crate) fn at(process: Handle, address: u32, width: usize) -> (r: Step<MemoryRead, Vec<u8>>)
        ensures
            r@ == MemoryReadView::at(process, address, width),
    {
        Step::Ask { machine: MemoryRead { width }, request: Request::Read { process, address, width } }
    }

    /// Takes the host's reply and ends the read. The bytes are handed on
    /// only where the host reports success and the buffer has the width
    /// asked for; every other reply is a failed read.
    pub fn advance(self, reply: Reply) -> (r: Step<MemoryRead, Vec<u8>>)
        ensures
            r@ == self@.advance(reply@),
            r@ is Done,
            r@ matches StepView::Done(Ok(bytes)) ==> bytes.len() == self@.width && reply@
                == (ReplyView::Read { status: TRUE, bytes }),
            r@ matches StepView::Done(Err(kind)) ==> kind == WinErrorKind::ReadMemoryError,
    {
        match reply {
            Reply::Read { status, bytes } => {
                if status == TRUE && bytes.len() == self.width {
                    return Step::Done(Ok(bytes));
                }
            },
            _ => {},
        }
        Step::Done(Err(WinErrorKind::ReadMemoryError))
    }
}

/// A write, under way.
#[derive(Debug)]
pub struct MemoryWrite {}

/// A write as a mathematical value: it holds nothing.
pub struct MemoryWriteView {}

impl MemoryWriteView {
    /// The write of `bytes` at `address` through `process`, before the reply.
    pub open spec fn at(process: Handle, address: u32, bytes: Seq<u8>) -> StepView<
        MemoryWriteView,
        (),
    > {
        StepView::Ask {
            machine: MemoryWriteView {  },
            request: RequestView::Write { process, address, bytes },
        }
    }

    /// What the write gives on `reply`: success where the host reports it,
    /// failure otherwise.
    pub open spec fn outcome(self, reply: ReplyView) -> Result<(), WinErrorKind> {
        if reply matches ReplyView::Status(status) && status == TRUE {
            Ok(())
        } else {
            Err(WinErrorKind::WriteMemoryError)
        }
    }

    /// The step that the write takes on `reply`: its last.
    pub open spec fn advance(self, reply: ReplyView) -> StepView<MemoryWriteView, ()> {
        StepView::Done(self.outcome(reply))
    }
}

impl Machine for MemoryWriteView {
    type Outcome = ();

    open spec fn step(self, reply: ReplyView) -> StepView<MemoryWriteView, ()> {
        self.advance(reply)
    }
}

impl View for MemoryWrite {
    type V = MemoryWriteView;

    open spec fn view(&self) -> MemoryWriteView {
        MemoryWriteView {  }
    }
}

impl MemoryWrite {
    pub(crate) fn at(process: Handle, address: u32, bytes: Vec<u8>) -> (r: Step<MemoryWrite, ()>)
        ensures
            r@ == MemoryWriteView::at(process, address, bytes@),
    {
        Step::Ask { machine: MemoryWrite {  }, request: Request::Write { process, address, bytes } }
    }

    /// Takes the host's reply and ends the write: success where the host
    /// reports it, a failed write on every other reply.
    pub fn advance(self, reply: Reply) -> (r: Step<MemoryWrite, ()>)
        ensures
            r@ == self@.advance(reply@),
            r@ is Done,
            r@ matches StepView::Done(Ok(_)) ==> reply@ == ReplyView::Status(TRUE),
            r@ matches StepView::Done(Err(kind)) ==> kind == WinErrorKind::WriteMemoryError,
    {
        match reply {
            Reply::Status(status) => {
                if status == TRUE {
                    return Step::Done(Ok(()));
                }
            },
            _ => {},
        }
        Step::Done(Err(WinErrorKind::WriteMemoryError))
    }
}

/// The address `offset` bytes past `base`, where the address width holds it.
pub open spec fn spec_resolve(base: u32, offset: u32) -> Option<u32> {
    if base + offset <= u32::MAX {
        Some((base + offset) as u32)
    } else {
        None
    }
}

/// The address `offset` bytes past `base`; `None` where the sum is beyond
/// the width of an address.
#[verifier::when_used_as_spec(spec_resolve)]
pub fn resolve(base: u32, offset: u32) -> (r: Option<u32>)
    ensures
        r == spec_resolve(base, offset),
{
    if offset <= u32::MAX - base {
        Some(base + offset)
    } else {
        None
    }
}

#[derive(Debug)]
enum RelativeReadPhase {
    Resolving { search: ModuleSearch, process: Handle, offset: u32, width: usize },
    Reading { read: MemoryRead },
}

/// A read at an offset from a module's base, under way.
#[derive(Debug)]
pub struct RelativeRead {
    phase: RelativeReadPhase,
}

/// A read at an offset from a module's base, as a mathematical value.
pub enum RelativeReadView {
    /// The module is being looked up.
    Resolving { search: ModuleSearchView, process: Handle, offset: u32, width: usize },
    /// The module was found, and the bytes were asked for.
    Reading { read: MemoryReadView },
}

impl RelativeReadView {
    /// The read while the module's lookup goes on as `lookup`.
    pub open spec fn resolving(
        lookup: StepView<ModuleSearchView, ModuleView>,
        process: Handle,
        offset: u32,
        width: usize,
    ) -> StepView<RelativeReadView, Seq<u8>> {
        match lookup {
            StepView::Ask { machine, request } => StepView::Ask {
                machine: RelativeReadView::Resolving { search: machine, process, offset, width },
                request,
            },
            StepView::Done(Ok(module)) => match spec_resolve(module.address, offset) {
                Some(address) => Self::reading(MemoryReadView::at(process, address, width)),
                None => StepView::Done(Err(WinErrorKind::ReadMemoryError)),
            },
            StepView::Done(Err(kind)) => StepView::Done(Err(kind)),
        }
    }

    /// The read once the transfer goes on as `transfer`.
    pub open spec fn reading(transfer: StepView<MemoryReadView, Seq<u8>>) -> StepView<
        RelativeReadView,
        Seq<u8>,
    > {
        match transfer {
            StepView::Ask { machine, request } => StepView::Ask {
                machine: RelativeReadView::Reading { read: machine },
                request,
            },
            StepView::Done(result) => StepView::Done(result),
        }
    }

    /// The step that the read takes on `reply`.
    pub open spec fn advance(self, reply: ReplyView) -> StepView<RelativeReadView, Seq<u8>> {
        match self {
            RelativeReadView::Resolving { search, process, offset, width } => Self::resolving(
                search.advance(reply),
                process,
                offset,
                width,
            ),
            RelativeReadView::Reading { read } => Self::reading(read.advance(reply)),
        }
    }
}

impl Machine for RelativeReadView {
    type Outcome = Seq<u8>;

    open spec fn step(self, reply: ReplyView) -> StepView<RelativeReadView, Seq<u8>> {
        self.advance(reply)
    }
}

impl View for RelativeRead {
    type V = RelativeReadView;

    closed spec fn view(&self) -> RelativeReadView {
        match self.phase {
            RelativeReadPhase::Resolving { search, process, offset, width } => {
                RelativeReadView::Resolving { search: search@, process, offset, width }
            },
            RelativeReadPhase::Reading { read } => RelativeReadView::Reading { read: read@ },
        }
    }
}

impl RelativeRead {
    pub(crate) fn resolving(
        lookup: Step<ModuleSearch, Module>,
        process: Handle,
        offset: u32,
        width: usize,
    ) -> (r: Step<RelativeRead, Vec<u8>>)
        ensures
            r@ == RelativeReadView::resolving(lookup@, process, offset, width),
    {
        match lookup {
            Step::Ask { machine, request } => Step::Ask {
                machine: RelativeRead {
                    phase: RelativeReadPhase::Resolving { search: machine, process, offset, width },
                },
                request,
            },
            Step::Done(Ok(module)) => match resolve(module.address(), offset) {
                Some(address) => Self::reading(MemoryRead::at(process, address, width)),
                None => Step::Done(Err(WinErrorKind::ReadMemoryError)),
            },
            Step::Done(Err(kind)) => Step::Done(Err(kind)),
        }
    }

    fn reading(transfer: Step<MemoryRead, Vec<u8>>) -> (r: Step<RelativeRead, Vec<u8>>)
        ensures
            r@ == RelativeReadView::reading(transfer@),
    {
        match transfer {
            Step::Ask { machine, request } => Step::Ask {
                machine: RelativeRead { phase: RelativeReadPhase::Reading { read: machine } },
                request,
            },
            Step::Done(result) => Step::Done(result),
        }
    }

    /// Takes the host's reply to the request that is out, and says how the
    /// read goes on: with the lookup of the module; then, once the module is
    /// found, with the read at its base plus the offset. Where no module is
    /// found it ends with the lookup's failure, and where the base plus the
    /// offset is beyond the width of an address it ends as a failed read,
    /// both before any memory is touched.
    pub fn advance(self, reply: Reply) -> (r: Step<RelativeRead, Vec<u8>>)
        ensures
            r@ == self@.advance(reply@),
    {
        match self.phase {
            RelativeReadPhase::Resolving { search, process, offset, width } => Self::resolving(
                search.advance(reply),
                process,
                offset,
                width,
            ),
            RelativeReadPhase::Reading { read } => Self::reading(read.advance(reply)),
        }
    }
}

#[derive(Debug)]
enum RelativeWritePhase {
    Resolving { search: ModuleSearch, process: Handle, offset: u32, bytes: Vec<u8> },
    Writing { write: MemoryWrite },
}

/// A write at an offset from a module's base, under way.
#[derive(Debug)]
pub struct RelativeWrite {
    phase: RelativeWritePhase,
}

/// A write at an offset from a module's base, as a mathematical value.
pub enum RelativeWriteView {
    /// The module is being looked up.
    Resolving { search: ModuleSearchView, process: Handle, offset: u32, bytes: Seq<u8> },
    /// The module was found, and the bytes were sent.
    Writing { write: MemoryWriteView },
}

impl RelativeWriteView {
    /// The write while the module's lookup goes on as `lookup`.
    pub open spec fn resolving(
        lookup: StepView<ModuleSearchView, ModuleView>,
        process: Handle,
        offset: u32,
        bytes: Seq<u8>,
    ) -> StepView<RelativeWriteView, ()> {
        match lookup {
            StepView::Ask { machine, request } => StepView::Ask {
                machine: RelativeWriteView::Resolving { search: machine, process, offset, bytes },
                request,
            },
            StepView::Done(Ok(module)) => match spec_resolve(module.address, offset) {
                Some(address) => Self::writing(MemoryWriteView::at(process, address, bytes)),
                None => StepView::Done(Err(WinErrorKind::WriteMemoryError)),
            },
            StepView::Done(Err(kind)) => StepView::Done(Err(kind)),
        }
    }

    /// The write once the transfer goes on as `transfer`.
    pub open spec fn writing(transfer: StepView<MemoryWriteView, ()>) -> StepView<
        RelativeWriteView,
        (),
    > {
        match transfer {
            StepView::Ask { machine, request } => StepView::Ask {
                machine: RelativeWriteView::Writing { write: machine },
                request,
            },
            StepView::Done(result) => StepView::Done(result),
        }
    }

    /// The step that the write takes on `reply`.
    pub open spec fn advance(self, reply: ReplyView) -> StepView<RelativeWriteView, ()> {
        match self {
            RelativeWriteView::Resolving { search, process, offset, bytes } => Self::resolving(
                search.advance(reply),
                process,
                offset,
                bytes,
            ),
            RelativeWriteView::Writing { write } => Self::writing(write.advance(reply)),
        }
    }
}

impl Machine for RelativeWriteView {
    type Outcome = ();

    open spec fn step(self, reply: ReplyView) -> StepView<RelativeWriteView, ()> {
        self.advance(reply)
    }
}

impl View for RelativeWrite {
    type V = RelativeWriteView;

    closed spec fn view(&self) -> RelativeWriteView {
        match self.phase {
            RelativeWritePhase::Resolving { search, process, offset, bytes } => {
                RelativeWriteView::Resolving { search: search@, process, offset, bytes: bytes@ }
            },
            RelativeWritePhase::Writing { write } => RelativeWriteView::Writing { write: write@ },
        }
    }
}

impl RelativeWrite {
    pub(crate) fn resolving(
        lookup: Step<ModuleSearch, Module>,
        process: Handle,
        offset: u32,
        bytes: Vec<u8>,
    ) -> (r: Step<RelativeWrite, ()>)
        ensures
            r@ == RelativeWriteView::resolving(lookup@, process, offset, bytes@),
    {
        match lookup {
            Step::Ask { machine, request } => Step::Ask {
                machine: RelativeWrite {
                    phase: RelativeWritePhase::Resolving { search: machine, process, offset, bytes },
                },
                request,
            },
            Step::Done(Ok(module)) => match resolve(module.address(), offset) {
                Some(address) => Self::writing(MemoryWrite::at(process, address, bytes)),
                None => Step::Done(Err(WinErrorKind::WriteMemoryError)),
            },
            Step::Done(Err(kind)) => Step::Done(Err(kind)),
        }
    }

    fn writing(transfer: Step<MemoryWrite, ()>) -> (r: Step<RelativeWrite, ()>)
        ensures
            r@ == RelativeWriteView::writing(transfer@),
    {
        match transfer {
            Step::Ask { machine, request } => Step::Ask {
                machine: RelativeWrite { phase: RelativeWritePhase::Writing { write: machine } },
                request,
            },
            Step::Done(result) => Step::Done(result),
        }
    }

    /// Takes the host's reply to the request that is out, and says how the
    /// write goes on: with the lookup of the module; then, once the module
    /// is found, with the write at its base plus the offset. Where no module
    /// is found it ends with the lookup's failure, and where the base plus
    /// the offset is beyond the width of an address it ends as a failed
    /// write, both before any memory is touched.
    pub fn advance(self, reply: Reply) -> (r: Step<RelativeWrite, ()>)
        ensures
            r@ == self@.advance(reply@),
    {
        match self.phase {
            RelativeWritePhase::Resolving { search, process, offset, bytes } => Self::resolving(
                search.advance(reply),
                process,
                offset,
                bytes,
            ),
            RelativeWritePhase::Writing { write } => Self::writing(write.advance(reply)),
        }
    }
}

} // verus!
