//! A located process, and the operations that start from it.

use crate::host::{Handle, RequestView, Step, StepView};
use crate::memory::{
    MemoryRead, MemoryReadView, MemoryWrite, MemoryWriteView, RelativeRead, RelativeReadView,
    RelativeWrite, RelativeWriteView,
};
use crate::module::{Module, ModuleView};
use crate::search::{ModuleSearch, ModuleSearchView, ProcessSearch, ProcessSearchView};
use crate::snapshot::Snapshot;
use crate::utils::{close_h, to_close};
use vstd::prelude::*;

verus! {

/// A running process that was found by name and opened. The value is
/// neither copied nor cloned: it owns its access handle.
#[derive(Debug)]
pub struct Process {
    name: String,
    pid: u32,
    handle: Handle,
}

/// A process as a mathematical value.
pub struct ProcessView {
    /// The decoded name of the executable, as the listing gave it.
    pub name: Seq<char>,
    /// The identifier of the process.
    pub pid: u32,
    /// The access handle that the value still owns; null once it is released.
    pub handle: Handle,
}

impl ProcessView {
    /// The process after its access handle was given up: it owns none.
    pub open spec fn released(self) -> ProcessView {
        ProcessView { handle: Handle::spec_null(), ..self }
    }

    /// The handle that giving up the access handle asks the host to close, if any.
    pub open spec fn release_asks(self) -> Option<Handle> {
        to_close(self.handle)
    }

    /// A handle is closed at most once: a process that was released asks
    /// for nothing when it is released again, and is not changed by it.
    pub proof fn lemma_release_once(self)
        ensures
            self.released().release_asks() is None,
            self.released().released() == self.released(),
            self.release_asks() matches Some(handle) ==> handle == self.handle
                && handle.is_live(),
    {
    }

    /// The search for the process named `name`, before any reply.
    pub open spec fn find(name: Seq<char>) -> StepView<ProcessSearchView, ProcessView> {
        StepView::Ask {
            machine: ProcessSearchView::start(name),
            request: RequestView::ProcessSnapshot,
        }
    }

    /// The lookup of the module named `name` in this process, before any reply.
    pub open spec fn find_module(self, name: Seq<char>) -> StepView<ModuleSearchView, ModuleView> {
        StepView::Ask {
            machine: ModuleSearchView::start(name),
            request: RequestView::ModuleSnapshot { pid: self.pid },
        }
    }
}

impl View for Process {
    type V = ProcessView;

    closed spec fn view(&self) -> ProcessView {
        ProcessView { name: self.name@, pid: self.pid, handle: self.handle }
    }
}

impl Process {
    pub(crate) fn opened(name: String, pid: u32, handle: Handle) -> (p: Process)
        ensures
            p@ == (ProcessView { name: name@, pid, handle }),
    {
        Process { name, pid, handle }
    }

    /// Starts the search for a running process whose executable's name
    /// begins with `name`: the snapshot of all processes is asked for. The
    /// search goes on by [`ProcessSearch::advance`]; what it comes to on a
    /// whole listing is proved in [`crate::walks`], and what holds of it on
    /// any replies in [`crate::every_run`].
    pub fn find(name: &str) -> (r: Step<ProcessSearch, Process>)
        ensures
            r@ == ProcessView::find(name@),
    {
        Step::Ask { machine: ProcessSearch::start(name), request: Snapshot::process() }
    }

    /// Starts the search for a module of this process whose file name begins
    /// with `name`: the snapshot of the process's modules is asked for. The
    /// search goes on by [`ModuleSearch::advance`]; what it comes to on a
    /// whole listing is proved in [`crate::walks`], and what holds of it on
    /// any replies in [`crate::every_run`].
    pub fn find_module(&self, name: &str) -> (r: Step<ModuleSearch, Module>)
        ensures
            r@ == self@.find_module(name@),
    {
        Step::Ask { machine: ModuleSearch::start(name), request: Snapshot::module(self) }
    }

    /// Starts a write of `buffer` into the process's memory at `address`,
    /// not relative to a module. The host's reply ends it, by
    /// [`MemoryWrite::advance`].
    pub fn write_mem(&self, buffer: Vec<u8>, address: u32) -> (r: Step<MemoryWrite, ()>)
        ensures
            r@ == MemoryWriteView::at(self@.handle, address, buffer@),
    {
        MemoryWrite::at(self.handle, address, buffer)
    }

    /// Starts a write of `buffer` into the process's memory at `address`
    /// bytes past the base of the module named `module_name`, which is
    /// looked up first, and afresh. The write goes on by
    /// [`RelativeWrite::advance`]; what it comes to is proved in
    /// [`crate::offsets`].
    pub fn write_mem_relative(&self, buffer: Vec<u8>, module_name: &str, address: u32) -> (r: Step<
        RelativeWrite,
        (),
    >)
        ensures
            r@ == RelativeWriteView::resolving(
                self@.find_module(module_name@),
                self@.handle,
                address,
                buffer@,
            ),
    {
        RelativeWrite::resolving(self.find_module(module_name), self.handle, address, buffer)
    }

    /// Starts a read of `width` bytes of the process's memory at `address`,
    /// not relative to a module. The host's reply ends it, by
    /// [`MemoryRead::advance`].
    pub fn read_mem(&self, address: u32, width: usize) -> (r: Step<MemoryRead, Vec<u8>>)
        ensures
            r@ == MemoryReadView::at(self@.handle, address, width),
    {
        MemoryRead::at(self.handle, address, width)
    }

    /// Starts a read of `width` bytes of the process's memory at `address`
    /// bytes past the base of the module named `module_name`, which is
    /// looked up first, and afresh. The read goes on by
    /// [`RelativeRead::advance`]; what it comes to is proved in
    /// [`crate::offsets`].
    pub fn read_mem_relative(&self, module_name: &str, address: u32, width: usize) -> (r: Step<
        RelativeRead,
        Vec<u8>,
    >)
        ensures
            r@ == RelativeReadView::resolving(
                self@.find_module(module_name@),
                self@.handle,
                address,
                width,
            ),
    {
        RelativeRead::resolving(self.find_module(module_name), self.handle, address, width)
    }

    /// The decoded name of the executable, as the listing gave it.
    pub fn name(&self) -> (r: &str)
        ensures
            r@ == self@.name,
    {
        self.name.as_str()
    }

    /// The identifier of the process.
    pub fn pid(&self) -> (r: u32)
        ensures
            r == self@.pid,
    {
        self.pid
    }

    /// The access handle; null once it is released.
    pub fn handle(&self) -> (r: Handle)
        ensures
            r == self@.handle,
    {
        self.handle
    }

    /// Gives up the access handle. The result is the handle that the host
    /// must close, if any; afterwards the process owns none, so that a
    /// second release asks for nothing. Name and identifier stay.
    pub fn release(&mut self) -> (r: Option<Handle>)
        ensures
            r == old(self)@.release_asks(),
            final(self)@ == old(self)@.released(),
            final(self)@.release_asks() is None,
    {
        let r = close_h(self.handle);
        self.handle = Handle::null();
        r
    }
}

} // verus!
