//! Ownership of one snapshot handle.

use crate::host::{Handle, Request, RequestView};
use crate::process::Process;
use crate::utils::{close_h, to_close};
use vstd::prelude::*;

verus! {

/// A snapshot handle and the duty to close it. The value is neither copied
/// nor cloned: one snapshot, one owner.
#[derive(Debug)]
pub struct Snapshot {
    handle: Handle,
}

impl View for Snapshot {
    type V = Handle;

    /// The handle that the snapshot still owns; null once it is released.
    closed spec fn view(&self) -> Handle {
        self.handle
    }
}

impl Snapshot {
    /// The request for a snapshot of all running processes.
    pub fn process() -> (r: Request)
        ensures
            r@ == RequestView::ProcessSnapshot,
    {
        Request::ProcessSnapshot
    }

    /// The request for a snapshot of the modules loaded in `process`.
    pub fn module(process: &Process) -> (r: Request)
        ensures
            r@ == (RequestView::ModuleSnapshot { pid: process@.pid }),
    {
        Request::ModuleSnapshot { pid: process.pid() }
    }

    /// Takes ownership of the handle that a snapshot request returned,
    /// whether or not it is valid.
    pub fn holding(handle: Handle) -> (s: Snapshot)
        ensures
            s@ == handle,
    {
        Snapshot { handle }
    }

    /// The handle, for the requests that walk the snapshot.
    pub fn handle(&self) -> (h: Handle)
        ensures
            h == self@,
    {
        self.handle
    }

    /// Whether the snapshot may be walked: its handle is neither null nor
    /// the sentinel.
    pub fn is_valid(&self) -> (r: bool)
        ensures
            r == self@.is_live(),
    {
        !self.handle.is_null() && !self.handle.is_invalid()
    }

    /// Gives up the handle. The result is the handle that the host must
    /// close, if any; afterwards the snapshot owns none, so that a second
    /// release asks for nothing.
    pub fn release(&mut self) -> (r: Option<Handle>)
        ensures
            r == to_close(old(self)@),
            final(self)@ == Handle::spec_null(),
            to_close(final(self)@) is None,
    {
        let r = close_h(self.handle);
        self.handle = Handle::null();
        r
    }
}

} // verus!
