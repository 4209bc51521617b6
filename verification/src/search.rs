//! The two searches through a snapshot: for a process by the name of its
//! executable, and for a module of a process by its file name.
//!
//! Both walk the listing from its first record on and stop at the first
//! record whose decoded name begins with the sought name. A record whose
//! name field does not decode is passed over. The snapshot is closed on
//! every way out, after the last request that uses it.

use crate::host::{
    Handle, ModuleEntry, Reply, ReplyView, Request, RequestView, Step, StepView, FALSE,
};
use crate::module::{Module, ModuleView};
use crate::process::{Process, ProcessView};
use crate::runs::Machine;
use crate::snapshot::Snapshot;
use crate::utils::{decoded_name, remove_nil_bytes, str_starts_with, WinErrorKind};
use std::string::FromUtf16Error;
use vstd::prelude::*;

verus! {

/// A decoded name, if any, as a mathematical value.
pub open spec fn name_view(name: Option<String>) -> Option<Seq<char>> {
    match name {
        Some(n) => Some(n@),
        None => None,
    }
}

/// The name that a decoding gave, if it gave one.
fn decoded(r: Result<String, FromUtf16Error>) -> (name: Option<String>)
    ensures
        name_view(name) == match r {
            Ok(s) => Some(s@),
            Err(_) => None,
        },
{
    match r {
        Ok(s) => Some(s),
        Err(_) => None,
    }
}

/// Whether a record's name was decoded and begins with `target`.
pub open spec fn names(name: Option<Seq<char>>, target: Seq<char>) -> bool {
    name matches Some(n) && target.is_prefix_of(n)
}

#[derive(Debug)]
enum ProcessPhase {
    AwaitSnapshot,
    Walking { snapshot: Snapshot },
    Opening { snapshot: Snapshot, pid: u32, name: String },
    Closing { result: Result<Process, WinErrorKind> },
}

/// A search for a process by the name of its executable, under way.
#[derive(Debug)]
pub struct ProcessSearch {
    target: String,
    phase: ProcessPhase,
}

/// Where a search for a process stands.
pub enum ProcessPhaseView {
    /// The snapshot was asked for.
    AwaitSnapshot,
    /// A record of the snapshot was asked for.
    Walking { snapshot: Handle },
    /// A record matched, and its process is being opened.
    Opening { snapshot: Handle, pid: u32, name: Seq<char> },
    /// The result is settled, and the snapshot is being closed.
    Closing { result: Result<ProcessView, WinErrorKind> },
}

/// A search for a process as a mathematical value.
pub struct ProcessSearchView {
    /// The name sought.
    pub target: Seq<char>,
    pub phase: ProcessPhaseView,
}

impl ProcessSearchView {
    /// The search for `target` before any reply.
    pub open spec fn start(target: Seq<char>) -> ProcessSearchView {
        ProcessSearchView { target, phase: ProcessPhaseView::AwaitSnapshot }
    }

    /// The search holds no name that it did not match: a name on its way
    /// into the result begins with the name sought.
    pub open spec fn wf(self) -> bool {
        match self.phase {
            ProcessPhaseView::Opening { name, .. } => self.target.is_prefix_of(name),
            ProcessPhaseView::Closing { result: Ok(p) } => self.target.is_prefix_of(p.name),
            _ => true,
        }
    }

    /// The way out: `result` is settled, and `snapshot` is closed first where
    /// it is live.
    pub open spec fn conclude(
        target: Seq<char>,
        snapshot: Handle,
        result: Result<ProcessView, WinErrorKind>,
    ) -> StepView<ProcessSearchView, ProcessView> {
        if snapshot.is_live() {
            StepView::Ask {
                machine: ProcessSearchView { target, phase: ProcessPhaseView::Closing { result } },
                request: RequestView::Close { handle: snapshot },
            }
        } else {
            StepView::Done(result)
        }
    }

    /// The step on a record of the process `pid` whose name field decoded to
    /// `name`: open the process where the name matches, else go on to the
    /// next record.
    pub open spec fn examine(
        target: Seq<char>,
        snapshot: Handle,
        pid: u32,
        name: Option<Seq<char>>,
    ) -> StepView<ProcessSearchView, ProcessView> {
        if names(name, target) {
            StepView::Ask {
                machine: ProcessSearchView {
                    target,
                    phase: ProcessPhaseView::Opening { snapshot, pid, name: name->Some_0 },
                },
                request: RequestView::OpenProcess { pid },
            }
        } else {
            StepView::Ask {
                machine: ProcessSearchView {
                    target,
                    phase: ProcessPhaseView::Walking { snapshot },
                },
                request: RequestView::NextProcess { snapshot },
            }
        }
    }

    /// The step that the search takes on `reply`.
    pub open spec fn advance(self, reply: ReplyView) -> StepView<ProcessSearchView, ProcessView> {
        match self.phase {
            ProcessPhaseView::AwaitSnapshot => {
                let snapshot = reply.handle();
                if snapshot.is_live() {
                    StepView::Ask {
                        machine: ProcessSearchView {
                            target: self.target,
                            phase: ProcessPhaseView::Walking { snapshot },
                        },
                        request: RequestView::FirstProcess { snapshot },
                    }
                } else {
                    StepView::Done(Err(WinErrorKind::FindProcessError))
                }
            },
            ProcessPhaseView::Walking { snapshot } => {
                if reply matches ReplyView::Process { status, entry } && status != FALSE {
                    Self::examine(
                        self.target,
                        snapshot,
                        reply->Process_entry.pid,
                        decoded_name(reply->Process_entry.exe_file@),
                    )
                } else {
                    Self::conclude(self.target, snapshot, Err(WinErrorKind::FindProcessError))
                }
            },
            ProcessPhaseView::Opening { snapshot, pid, name } => Self::conclude(
                self.target,
                snapshot,
                Ok(ProcessView { name, pid, handle: reply.handle() }),
            ),
            ProcessPhaseView::Closing { result } => StepView::Done(result),
        }
    }
}

impl ProcessSearchView {
    /// A step keeps the search well-formed, and a process that it gives
    /// bears a name that begins with the name sought.
    pub proof fn lemma_advance_wf(self, reply: ReplyView)
        requires
            self.wf(),
        ensures
            match self.advance(reply) {
                StepView::Ask { machine, .. } => machine.wf() && machine.target == self.target,
                StepView::Done(Ok(p)) => self.target.is_prefix_of(p.name),
                StepView::Done(Err(_)) => true,
            },
    {
    }
}

impl Machine for ProcessSearchView {
    type Outcome = ProcessView;

    open spec fn step(self, reply: ReplyView) -> StepView<ProcessSearchView, ProcessView> {
        self.advance(reply)
    }
}

impl View for ProcessPhase {
    type V = ProcessPhaseView;

    closed spec fn view(&self) -> ProcessPhaseView {
        match *self {
            ProcessPhase::AwaitSnapshot => ProcessPhaseView::AwaitSnapshot,
            ProcessPhase::Walking { snapshot } => ProcessPhaseView::Walking { snapshot: snapshot@ },
            ProcessPhase::Opening { snapshot, pid, name } => ProcessPhaseView::Opening {
                snapshot: snapshot@,
                pid,
                name: name@,
            },
            ProcessPhase::Closing { result: Ok(p) } => ProcessPhaseView::Closing { result: Ok(p@) },
            ProcessPhase::Closing { result: Err(e) } => ProcessPhaseView::Closing {
                result: Err(e),
            },
        }
    }
}

impl View for ProcessSearch {
    type V = ProcessSearchView;

    closed spec fn view(&self) -> ProcessSearchView {
        ProcessSearchView { target: self.target@, phase: self.phase@ }
    }
}

impl ProcessSearch {
    #[verifier::type_invariant]
    spec fn inv(self) -> bool {
        self@.wf()
    }

    pub(crate) fn start(name: &str) -> (search: ProcessSearch)
        ensures
            search@ == ProcessSearchView::start(name@),
    {
        ProcessSearch { target: name.to_owned(), phase: ProcessPhase::AwaitSnapshot }
    }

    fn conclude(target: String, snapshot: Snapshot, result: Result<Process, WinErrorKind>) -> (r:
        Step<ProcessSearch, Process>)
        requires
            result matches Ok(p) ==> target@.is_prefix_of(p@.name),
        ensures
            r@ == ProcessSearchView::conclude(
                target@,
                snapshot@,
                match result {
                    Ok(p) => Ok(p@),
                    Err(e) => Err(e),
                },
            ),
    {
        let mut snapshot = snapshot;
        match snapshot.release() {
            Some(handle) => Step::Ask {
                machine: ProcessSearch { target, phase: ProcessPhase::Closing { result } },
                request: Request::Close { handle },
            },
            None => Step::Done(result),
        }
    }

    /// The step on a record of the process `pid` whose name field decoded to
    /// `name`, in a search for `target` through `snapshot`.
    pub fn examine(target: String, snapshot: Snapshot, pid: u32, name: Option<String>) -> (r: Step<
        ProcessSearch,
        Process,
    >)
        ensures
            r@ == ProcessSearchView::examine(target@, snapshot@, pid, name_view(name)),
    {
        match name {
            Some(name) => {
                if str_starts_with(name.as_str(), target.as_str()) {
                    return Step::Ask {
                        machine: ProcessSearch {
                            target,
                            phase: ProcessPhase::Opening { snapshot, pid, name },
                        },
                        request: Request::OpenProcess { pid },
                    };
                }
            },
            None => {},
        }
        let handle = snapshot.handle();
        Step::Ask {
            machine: ProcessSearch { target, phase: ProcessPhase::Walking { snapshot } },
            request: Request::NextProcess { snapshot: handle },
        }
    }

    /// Takes the host's reply to the request that is out, and says how the
    /// search goes on. A reply of another kind than the request calls for
    /// stands for a call that failed. A process in the result bears a name
    /// that begins with the name sought.
    pub fn advance(self, reply: Reply) -> (r: Step<ProcessSearch, Process>)
        ensures
            r@ == self@.advance(reply@),
            r@ matches StepView::Done(Ok(p)) ==> self@.target.is_prefix_of(p.name),
    {
        proof {
            use_type_invariant(&self);
        }
        let ProcessSearch { target, phase } = self;
        match phase {
            ProcessPhase::AwaitSnapshot => {
                let snapshot = Snapshot::holding(reply.handle());
                if snapshot.is_valid() {
                    let handle = snapshot.handle();
                    Step::Ask {
                        machine: ProcessSearch { target, phase: ProcessPhase::Walking { snapshot } },
                        request: Request::FirstProcess { snapshot: handle },
                    }
                } else {
                    Self::conclude(target, snapshot, Err(WinErrorKind::FindProcessError))
                }
            },
            ProcessPhase::Walking { snapshot } => {
                match reply {
                    Reply::Process { status, entry } => {
                        if status != FALSE {
                            let name = decoded(remove_nil_bytes(&entry.exe_file));
                            return Self::examine(target, snapshot, entry.pid, name);
                        }
                    },
                    _ => {},
                }
                Self::conclude(target, snapshot, Err(WinErrorKind::FindProcessError))
            },
            ProcessPhase::Opening { snapshot, pid, name } => {
                let process = Process::opened(name, pid, reply.handle());
                Self::conclude(target, snapshot, Ok(process))
            },
            ProcessPhase::Closing { result } => Step::Done(result),
        }
    }
}

#[derive(Debug)]
enum ModulePhase {
    AwaitSnapshot,
    Walking { snapshot: Snapshot },
    Closing { result: Result<Module, WinErrorKind> },
}

/// A search for a module of one process by its file name, under way.
#[derive(Debug)]
pub struct ModuleSearch {
    target: String,
    phase: ModulePhase,
}

/// Where a search for a module stands.
pub enum ModulePhaseView {
    /// The snapshot was asked for.
    AwaitSnapshot,
    /// A record of the snapshot was asked for.
    Walking { snapshot: Handle },
    /// The result is settled, and the snapshot is being closed.
    Closing { result: Result<ModuleView, WinErrorKind> },
}

/// A search for a module as a mathematical value.
pub struct ModuleSearchView {
    /// The name sought.
    pub target: Seq<char>,
    pub phase: ModulePhaseView,
}

impl ModuleSearchView {
    /// The search for `target` before any reply.
    pub open spec fn start(target: Seq<char>) -> ModuleSearchView {
        ModuleSearchView { target, phase: ModulePhaseView::AwaitSnapshot }
    }

    /// The search holds no module that it did not match, and no failure but
    /// its own.
    pub open spec fn wf(self) -> bool {
        match self.phase {
            ModulePhaseView::Closing { result: Ok(m) } => self.target.is_prefix_of(m.name),
            ModulePhaseView::Closing { result: Err(e) } => e == WinErrorKind::FindModuleError,
            _ => true,
        }
    }

    /// The way out: `result` is settled, and `snapshot` is closed first where
    /// it is live.
    pub open spec fn conclude(
        target: Seq<char>,
        snapshot: Handle,
        result: Result<ModuleView, WinErrorKind>,
    ) -> StepView<ModuleSearchView, ModuleView> {
        if snapshot.is_live() {
            StepView::Ask {
                machine: ModuleSearchView { target, phase: ModulePhaseView::Closing { result } },
                request: RequestView::Close { handle: snapshot },
            }
        } else {
            StepView::Done(result)
        }
    }

    /// The step on the record `entry` whose name field decoded to `name`:
    /// the module is found where the name matches, else the search goes on
    /// to the next record.
    pub open spec fn examine(
        target: Seq<char>,
        snapshot: Handle,
        entry: ModuleEntry,
        name: Option<Seq<char>>,
    ) -> StepView<ModuleSearchView, ModuleView> {
        if names(name, target) {
            Self::conclude(target, snapshot, Ok(ModuleView::of(name->Some_0, entry)))
        } else {
            StepView::Ask {
                machine: ModuleSearchView { target, phase: ModulePhaseView::Walking { snapshot } },
                request: RequestView::NextModule { snapshot },
            }
        }
    }

    /// The step that the search takes on `reply`.
    pub open spec fn advance(self, reply: ReplyView) -> StepView<ModuleSearchView, ModuleView> {
        match self.phase {
            ModulePhaseView::AwaitSnapshot => {
                let snapshot = reply.handle();
                if snapshot.is_live() {
                    StepView::Ask {
                        machine: ModuleSearchView {
                            target: self.target,
                            phase: ModulePhaseView::Walking { snapshot },
                        },
                        request: RequestView::FirstModule { snapshot },
                    }
                } else {
                    StepView::Done(Err(WinErrorKind::FindModuleError))
                }
            },
            ModulePhaseView::Walking { snapshot } => {
                if reply matches ReplyView::Module { status, entry } && status != FALSE {
                    Self::examine(
                        self.target,
                        snapshot,
                        reply->Module_entry,
                        decoded_name(reply->Module_entry.module@),
                    )
                } else {
                    Self::conclude(self.target, snapshot, Err(WinErrorKind::FindModuleError))
                }
            },
            ModulePhaseView::Closing { result } => StepView::Done(result),
        }
    }
}

impl ModuleSearchView {
    /// A step keeps the search well-formed; a module that it gives bears a
    /// name that begins with the name sought, and its one failure is that no
    /// module was found.
    pub proof fn lemma_advance_wf(self, reply: ReplyView)
        requires
            self.wf(),
        ensures
            match self.advance(reply) {
                StepView::Ask { machine, .. } => machine.wf() && machine.target == self.target,
                StepView::Done(Ok(m)) => self.target.is_prefix_of(m.name),
                StepView::Done(Err(e)) => e == WinErrorKind::FindModuleError,
            },
    {
    }
}

impl Machine for ModuleSearchView {
    type Outcome = ModuleView;

    open spec fn step(self, reply: ReplyView) -> StepView<ModuleSearchView, ModuleView> {
        self.advance(reply)
    }
}

impl View for ModulePhase {
    type V = ModulePhaseView;

    closed spec fn view(&self) -> ModulePhaseView {
        match *self {
            ModulePhase::AwaitSnapshot => ModulePhaseView::AwaitSnapshot,
            ModulePhase::Walking { snapshot } => ModulePhaseView::Walking { snapshot: snapshot@ },
            ModulePhase::Closing { result: Ok(m) } => ModulePhaseView::Closing { result: Ok(m@) },
            ModulePhase::Closing { result: Err(e) } => ModulePhaseView::Closing { result: Err(e) },
        }
    }
}

impl View for ModuleSearch {
    type V = ModuleSearchView;

    closed spec fn view(&self) -> ModuleSearchView {
        ModuleSearchView { target: self.target@, phase: self.phase@ }
    }
}

impl ModuleSearch {
    #[verifier::type_invariant]
    spec fn inv(self) -> bool {
        self@.wf()
    }

    pub(crate) fn start(name: &str) -> (search: ModuleSearch)
        ensures
            search@ == ModuleSearchView::start(name@),
    {
        ModuleSearch { target: name.to_owned(), phase: ModulePhase::AwaitSnapshot }
    }

    fn conclude(target: String, snapshot: Snapshot, result: Result<Module, WinErrorKind>) -> (r:
        Step<ModuleSearch, Module>)
        requires
            match result {
                Ok(m) => target@.is_prefix_of(m@.name),
                Err(e) => e == WinErrorKind::FindModuleError,
            },
        ensures
            r@ == ModuleSearchView::conclude(
                target@,
                snapshot@,
                match result {
                    Ok(m) => Ok(m@),
                    Err(e) => Err(e),
                },
            ),
    {
        let mut snapshot = snapshot;
        match snapshot.release() {
            Some(handle) => Step::Ask {
                machine: ModuleSearch { target, phase: ModulePhase::Closing { result } },
                request: Request::Close { handle },
            },
            None => Step::Done(result),
        }
    }

    /// The step on the record `entry` whose name field decoded to `name`, in
    /// a search for `target` through `snapshot`.
    pub fn examine(target: String, snapshot: Snapshot, entry: &ModuleEntry, name: Option<String>) -> (r:
        Step<ModuleSearch, Module>)
        ensures
            r@ == ModuleSearchView::examine(target@, snapshot@, *entry, name_view(name)),
    {
        match name {
            Some(name) => {
                if str_starts_with(name.as_str(), target.as_str()) {
                    let module = Module::of(name, entry);
                    return Self::conclude(target, snapshot, Ok(module));
                }
            },
            None => {},
        }
        let handle = snapshot.handle();
        Step::Ask {
            machine: ModuleSearch { target, phase: ModulePhase::Walking { snapshot } },
            request: Request::NextModule { snapshot: handle },
        }
    }

    /// Takes the host's reply to the request that is out, and says how the
    /// search goes on. A reply of another kind than the request calls for
    /// stands for a call that failed. A module in the result bears a name
    /// that begins with the name sought, and the one failure is that no
    /// module was found.
    pub fn advance(self, reply: Reply) -> (r: Step<ModuleSearch, Module>)
        ensures
            r@ == self@.advance(reply@),
            r@ matches StepView::Done(Ok(m)) ==> self@.target.is_prefix_of(m.name),
            r@ matches StepView::Done(Err(e)) ==> e == WinErrorKind::FindModuleError,
    {
        proof {
            use_type_invariant(&self);
        }
        let ModuleSearch { target, phase } = self;
        match phase {
            ModulePhase::AwaitSnapshot => {
                let snapshot = Snapshot::holding(reply.handle());
                if snapshot.is_valid() {
                    let handle = snapshot.handle();
                    Step::Ask {
                        machine: ModuleSearch { target, phase: ModulePhase::Walking { snapshot } },
                        request: Request::FirstModule { snapshot: handle },
                    }
                } else {
                    Self::conclude(target, snapshot, Err(WinErrorKind::FindModuleError))
                }
            },
            ModulePhase::Walking { snapshot } => {
                match reply {
                    Reply::Module { status, entry } => {
                        if status != FALSE {
                            let name = decoded(remove_nil_bytes(&entry.module));
                            return Self::examine(target, snapshot, &entry, name);
                        }
                    },
                    _ => {},
                }
                Self::conclude(target, snapshot, Err(WinErrorKind::FindModuleError))
            },
            ModulePhase::Closing { result } => Step::Done(result),
        }
    }
}

} // verus!
