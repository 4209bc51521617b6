//! What holds of the two searches whatever the host replies: a result names
//! a record that the host handed over and that matches, the one failure is
//! the search's own, and the snapshot is closed at most once, by the last
//! request, and exactly once where it was live and the search came to its end.

use crate::host::{Handle, ReplyView, RequestView, StepView};
use crate::module::ModuleView;
use crate::process::ProcessView;
use crate::runs::{asked, lemma_run_done, run};
use crate::search::{ModulePhaseView, ModuleSearchView, ProcessPhaseView, ProcessSearchView};
use crate::utils::{decoded_name, WinErrorKind};
use crate::walks::{module_hit, process_hit};
use vstd::prelude::*;

verus! {

/// The reply hands over a matching record of the process `pid` under the name `name`.
pub open spec fn lists_process(target: Seq<char>, reply: ReplyView, pid: u32, name: Seq<char>) -> bool {
    &&& process_hit(target, reply)
    &&& reply->Process_entry.pid == pid
    &&& decoded_name(reply->Process_entry.exe_file@) == Some(name)
}

/// The search already holds the process `pid` under the name `name`.
pub open spec fn process_in_hand(
    from: StepView<ProcessSearchView, ProcessView>,
    pid: u32,
    name: Seq<char>,
) -> bool {
    match from {
        StepView::Ask { machine, .. } => match machine.phase {
            ProcessPhaseView::Opening { pid: p, name: n, .. } => p == pid && n == name,
            ProcessPhaseView::Closing { result: Ok(q) } => q.pid == pid && q.name == name,
            _ => false,
        },
        StepView::Done(Ok(q)) => q.pid == pid && q.name == name,
        StepView::Done(Err(_)) => false,
    }
}

/// The search's only failure, where it holds or gives one, is that no
/// process was found.
pub open spec fn process_failure_is_own(from: StepView<ProcessSearchView, ProcessView>) -> bool {
    match from {
        StepView::Ask { machine, .. } => !(machine.phase matches ProcessPhaseView::Closing {
            result: Err(e),
        } && e != WinErrorKind::FindProcessError),
        StepView::Done(Err(e)) => e == WinErrorKind::FindProcessError,
        StepView::Done(Ok(_)) => true,
    }
}

proof fn lemma_process_result_from(
    target: Seq<char>,
    from: StepView<ProcessSearchView, ProcessView>,
    replies: Seq<ReplyView>,
)
    requires
        from matches StepView::Ask { machine, .. } ==> machine.target == target,
        process_failure_is_own(from),
    ensures
        run(from, replies) matches StepView::Done(Ok(p)) ==> process_in_hand(from, p.pid, p.name)
            || exists|i: int|
            0 <= i < replies.len() && lists_process(target, #[trigger] replies[i], p.pid, p.name),
        run(from, replies) matches StepView::Done(Err(e)) ==> e == WinErrorKind::FindProcessError,
    decreases replies.len(),
{
    if replies.len() > 0 {
        if let StepView::Ask { machine, request } = from {
            let next = machine.advance(replies.first());
            let rest = replies.drop_first();
            lemma_process_result_from(target, next, rest);
            if let StepView::Done(Ok(p)) = run(from, replies) {
                if process_in_hand(next, p.pid, p.name) {
                    if !process_in_hand(from, p.pid, p.name) {
                        assert(lists_process(target, replies[0], p.pid, p.name));
                    }
                } else {
                    let i = choose|i: int|
                        0 <= i < rest.len() && lists_process(
                            target,
                            #[trigger] rest[i],
                            p.pid,
                            p.name,
                        );
                    assert(rest[i] == replies[i + 1]);
                }
            }
        }
    }
}

/// Whatever the host replies, a process that the search gives was listed:
/// some reply handed over a record with its identifier whose name field
/// decodes to its name, and that name begins with the name sought. And the
/// search fails in one way only: no process was found.
pub proof fn lemma_found_process_was_listed(target: Seq<char>, script: Seq<ReplyView>)
    ensures
        run(ProcessView::find(target), script) matches StepView::Done(Ok(p)) ==> target.is_prefix_of(p.name)
            && exists|i: int|
            0 <= i < script.len() && lists_process(target, #[trigger] script[i], p.pid, p.name),
        run(ProcessView::find(target), script) matches StepView::Done(Err(e)) ==> e
            == WinErrorKind::FindProcessError,
{
    lemma_process_result_from(target, ProcessView::find(target), script);
}

/// The reply hands over a matching record that describes the module `module`.
pub open spec fn lists_module(target: Seq<char>, reply: ReplyView, module: ModuleView) -> bool {
    &&& module_hit(target, reply)
    &&& decoded_name(reply->Module_entry.module@) == Some(module.name)
    &&& module == ModuleView::of(module.name, reply->Module_entry)
}

/// The search already holds the module `module`.
pub open spec fn module_in_hand(
    from: StepView<ModuleSearchView, ModuleView>,
    module: ModuleView,
) -> bool {
    match from {
        StepView::Ask { machine, .. } => machine.phase == (ModulePhaseView::Closing {
            result: Ok(module),
        }),
        StepView::Done(result) => result == Ok::<ModuleView, WinErrorKind>(module),
    }
}

/// The search's only failure, where it holds or gives one, is that no
/// module was found.
pub open spec fn module_failure_is_own(from: StepView<ModuleSearchView, ModuleView>) -> bool {
    match from {
        StepView::Ask { machine, .. } => !(machine.phase matches ModulePhaseView::Closing {
            result: Err(e),
        } && e != WinErrorKind::FindModuleError),
        StepView::Done(Err(e)) => e == WinErrorKind::FindModuleError,
        StepView::Done(Ok(_)) => true,
    }
}

proof fn lemma_module_result_from(
    target: Seq<char>,
    from: StepView<ModuleSearchView, ModuleView>,
    replies: Seq<ReplyView>,
)
    requires
        from matches StepView::Ask { machine, .. } ==> machine.target == target,
        module_failure_is_own(from),
    ensures
        run(from, replies) matches StepView::Done(Ok(m)) ==> module_in_hand(from, m)
            || exists|i: int|
            0 <= i < replies.len() && lists_module(target, #[trigger] replies[i], m),
        run(from, replies) matches StepView::Done(Err(e)) ==> e == WinErrorKind::FindModuleError,
    decreases replies.len(),
{
    if replies.len() > 0 {
        if let StepView::Ask { machine, request } = from {
            let next = machine.advance(replies.first());
            let rest = replies.drop_first();
            lemma_module_result_from(target, next, rest);
            if let StepView::Done(Ok(m)) = run(from, replies) {
                if module_in_hand(next, m) {
                    if !module_in_hand(from, m) {
                        assert(lists_module(target, replies[0], m));
                    }
                } else {
                    let i = choose|i: int|
                        0 <= i < rest.len() && lists_module(target, #[trigger] rest[i], m);
                    assert(rest[i] == replies[i + 1]);
                }
            }
        }
    }
}

/// Whatever the host replies, a module that the search gives was listed:
/// some reply handed over a record that describes it and whose name field
/// decodes to its name, and that name begins with the name sought. And the
/// search fails in one way only: no module was found.
pub proof fn lemma_found_module_was_listed(
    process: ProcessView,
    target: Seq<char>,
    script: Seq<ReplyView>,
)
    ensures
        run(process.find_module(target), script) matches StepView::Done(Ok(m))
            ==> target.is_prefix_of(m.name) && exists|i: int|
            0 <= i < script.len() && lists_module(target, #[trigger] script[i], m),
        run(process.find_module(target), script) matches StepView::Done(Err(e)) ==> e
            == WinErrorKind::FindModuleError,
{
    lemma_module_result_from(target, process.find_module(target), script);
}

/// After a live snapshot arrived, the search for a process owes its
/// closing: it either still walks `snapshot` or opens a process, with
/// another request than a closing out, or it has just asked to close it.
pub open spec fn process_owes_close(
    from: StepView<ProcessSearchView, ProcessView>,
    snapshot: Handle,
) -> bool {
    &&& snapshot.is_live()
    &&& from matches StepView::Ask { machine, request }
    &&& match machine.phase {
        ProcessPhaseView::AwaitSnapshot => false,
        ProcessPhaseView::Walking { snapshot: s } => s == snapshot && !(request is Close),
        ProcessPhaseView::Opening { snapshot: s, .. } => s == snapshot && !(request is Close),
        ProcessPhaseView::Closing { .. } => request == (RequestView::Close { handle: snapshot }),
    }
}

proof fn lemma_process_close_from(
    from: StepView<ProcessSearchView, ProcessView>,
    replies: Seq<ReplyView>,
    snapshot: Handle,
)
    requires
        process_owes_close(from, snapshot),
    ensures
        ({
            let trace = asked(from, replies);
            let end = run(from, replies);
            &&& forall|i: int| 0 <= i < trace.len() - 1 ==> !(#[trigger] trace[i] is Close)
            &&& end is Done ==> trace.len() > 0 && trace.last() == (RequestView::Close {
                handle: snapshot,
            })
            &&& end is Ask ==> process_owes_close(end, snapshot) && (trace.len() > 0
                ==> !(trace.last() is Close))
        }),
    decreases replies.len(),
{
    if replies.len() > 0 {
        let machine = from->Ask_machine;
        let request = from->Ask_request;
        let next = machine.advance(replies.first());
        let rest = replies.drop_first();
        let trace = asked(from, replies);
        let tail = asked(next, rest);
        assert(trace =~= seq![request] + tail);
        if next is Ask {
            lemma_process_close_from(next, rest, snapshot);
            assert forall|i: int| 0 <= i < trace.len() - 1 implies !(#[trigger] trace[i]
                is Close) by {
                if i > 0 {
                    assert(trace[i] == tail[i - 1]);
                }
            }
            if tail.len() > 0 {
                assert(trace.last() == tail.last());
            }
        } else {
            lemma_run_done(next, rest);
        }
    }
}

/// The search for a process closes its snapshot once, and last. Whatever
/// the host replies: no request but the last that was answered is a
/// closing; a closing names the handle that the snapshot request gave, and
/// only where that handle is live, and ends the search; and a search that
/// came to its end on a live snapshot did close it.
pub proof fn lemma_find_closes_snapshot_once(target: Seq<char>, script: Seq<ReplyView>)
    requires
        script.len() > 0,
    ensures
        ({
            let trace = asked(ProcessView::find(target), script);
            let end = run(ProcessView::find(target), script);
            let snapshot = script[0].handle();
            let closing = RequestView::Close { handle: snapshot };
            &&& trace.len() > 0
            &&& forall|i: int| 0 <= i < trace.len() - 1 ==> !(#[trigger] trace[i] is Close)
            &&& trace.last() is Close ==> trace.last() == closing && snapshot.is_live() && end
                is Done
            &&& end is Done && snapshot.is_live() ==> trace.last() == closing
            &&& end matches StepView::Ask { request, .. } ==> ((request is Close) ==> request
                == closing && snapshot.is_live())
        }),
{
    let from = ProcessView::find(target);
    let snapshot = script[0].handle();
    let next = ProcessSearchView::start(target).advance(script.first());
    let rest = script.drop_first();
    let trace = asked(from, script);
    let tail = asked(next, rest);
    assert(trace =~= seq![RequestView::ProcessSnapshot] + tail);
    if snapshot.is_live() {
        lemma_process_close_from(next, rest, snapshot);
        assert forall|i: int| 0 <= i < trace.len() - 1 implies !(#[trigger] trace[i]
            is Close) by {
            if i > 0 {
                assert(trace[i] == tail[i - 1]);
            }
        }
        if tail.len() > 0 {
            assert(trace.last() == tail.last());
        }
    } else {
        lemma_run_done(next, rest);
    }
}

/// After a live snapshot arrived, the search for a module owes its closing:
/// it either still walks `snapshot`, with a fetch out, or it has just asked
/// to close it.
pub open spec fn module_owes_close(
    from: StepView<ModuleSearchView, ModuleView>,
    snapshot: Handle,
) -> bool {
    &&& snapshot.is_live()
    &&& from matches StepView::Ask { machine, request }
    &&& match machine.phase {
        ModulePhaseView::AwaitSnapshot => false,
        ModulePhaseView::Walking { snapshot: s } => s == snapshot && !(request is Close),
        ModulePhaseView::Closing { .. } => request == (RequestView::Close { handle: snapshot }),
    }
}

proof fn lemma_module_close_from(
    from: StepView<ModuleSearchView, ModuleView>,
    replies: Seq<ReplyView>,
    snapshot: Handle,
)
    requires
        module_owes_close(from, snapshot),
    ensures
        ({
            let trace = asked(from, replies);
            let end = run(from, replies);
            &&& forall|i: int| 0 <= i < trace.len() - 1 ==> !(#[trigger] trace[i] is Close)
            &&& end is Done ==> trace.len() > 0 && trace.last() == (RequestView::Close {
                handle: snapshot,
            })
            &&& end is Ask ==> module_owes_close(end, snapshot) && (trace.len() > 0
                ==> !(trace.last() is Close))
        }),
    decreases replies.len(),
{
    if replies.len() > 0 {
        let machine = from->Ask_machine;
        let request = from->Ask_request;
        let next = machine.advance(replies.first());
        let rest = replies.drop_first();
        let trace = asked(from, replies);
        let tail = asked(next, rest);
        assert(trace =~= seq![request] + tail);
        if next is Ask {
            lemma_module_close_from(next, rest, snapshot);
            assert forall|i: int| 0 <= i < trace.len() - 1 implies !(#[trigger] trace[i]
                is Close) by {
                if i > 0 {
                    assert(trace[i] == tail[i - 1]);
                }
            }
            if tail.len() > 0 {
                assert(trace.last() == tail.last());
            }
        } else {
            lemma_run_done(next, rest);
        }
    }
}

/// The search for a module closes its snapshot once, and last. Whatever the
/// host replies: no request but the last that was answered is a closing; a
/// closing names the handle that the snapshot request gave, and only where
/// that handle is live, and ends the search; and a search that came to its
/// end on a live snapshot did close it.
pub proof fn lemma_find_module_closes_snapshot_once(
    process: ProcessView,
    target: Seq<char>,
    script: Seq<ReplyView>,
)
    requires
        script.len() > 0,
    ensures
        ({
            let trace = asked(process.find_module(target), script);
            let end = run(process.find_module(target), script);
            let snapshot = script[0].handle();
            let closing = RequestView::Close { handle: snapshot };
            &&& trace.len() > 0
            &&& forall|i: int| 0 <= i < trace.len() - 1 ==> !(#[trigger] trace[i] is Close)
            &&& trace.last() is Close ==> trace.last() == closing && snapshot.is_live() && end
                is Done
            &&& end is Done && snapshot.is_live() ==> trace.last() == closing
            &&& end matches StepView::Ask { request, .. } ==> ((request is Close) ==> request
                == closing && snapshot.is_live())
        }),
{
    let from = process.find_module(target);
    let snapshot = script[0].handle();
    let next = ModuleSearchView::start(target).advance(script.first());
    let rest = script.drop_first();
    let trace = asked(from, script);
    let tail = asked(next, rest);
    assert(trace =~= seq![RequestView::ModuleSnapshot { pid: process.pid }] + tail);
    if snapshot.is_live() {
        lemma_module_close_from(next, rest, snapshot);
        assert forall|i: int| 0 <= i < trace.len() - 1 implies !(#[trigger] trace[i]
            is Close) by {
            if i > 0 {
                assert(trace[i] == tail[i - 1]);
            }
        }
        if tail.len() > 0 {
            assert(trace.last() == tail.last());
        }
    } else {
        lemma_run_done(next, rest);
    }
}

} // verus!
