//! What the two searches come to on a whole listing: the first record whose
//! name matches is the one found, a listing without one gives the search's
//! failure, and the snapshot is closed exactly once, last of all.

use crate::host::{Handle, ReplyView, RequestView, StepView, FALSE};
use crate::module::ModuleView;
use crate::process::ProcessView;
use crate::runs::{asked, lemma_run_concat, lemma_run_one, run};
use crate::search::{
    names, ModulePhaseView, ModuleSearchView, ProcessPhaseView, ProcessSearchView,
};
use crate::utils::{decoded_name, WinErrorKind};
use vstd::prelude::*;

verus! {

/// The requests of a walk that fetched `n` records: `first` once, then `next`.
pub open spec fn walk_requests(first: RequestView, next: RequestView, n: nat) -> Seq<RequestView> {
    Seq::new(
        n,
        |i: int|
            if i == 0 {
                first
            } else {
                next
            },
    )
}

/// The reply hands over a process record.
pub open spec fn delivers_process(reply: ReplyView) -> bool {
    reply matches ReplyView::Process { status, .. } && status != FALSE
}

/// The reply hands over a process record whose decoded name begins with `target`.
pub open spec fn process_hit(target: Seq<char>, reply: ReplyView) -> bool {
    delivers_process(reply) && names(decoded_name(reply->Process_entry.exe_file@), target)
}

/// The reply hands over a process record that the search for `target` passes over.
pub open spec fn process_miss(target: Seq<char>, reply: ReplyView) -> bool {
    delivers_process(reply) && !names(decoded_name(reply->Process_entry.exe_file@), target)
}

/// A search for `target` that waits for a record of `snapshot`, with `request` out.
pub open spec fn process_walk(target: Seq<char>, snapshot: Handle, request: RequestView) -> StepView<
    ProcessSearchView,
    ProcessView,
> {
    StepView::Ask {
        machine: ProcessSearchView { target, phase: ProcessPhaseView::Walking { snapshot } },
        request,
    }
}

/// Records that do not match leave the search walking: it asks for the next
/// record each time, and for nothing else.
pub proof fn lemma_process_misses(
    target: Seq<char>,
    snapshot: Handle,
    request: RequestView,
    walk: Seq<ReplyView>,
)
    requires
        forall|i: int| 0 <= i < walk.len() ==> process_miss(target, #[trigger] walk[i]),
    ensures
        run(process_walk(target, snapshot, request), walk) == process_walk(
            target,
            snapshot,
            if walk.len() == 0 {
                request
            } else {
                RequestView::NextProcess { snapshot }
            },
        ),
        asked(process_walk(target, snapshot, request), walk) == walk_requests(
            request,
            RequestView::NextProcess { snapshot },
            walk.len(),
        ),
    decreases walk.len(),
{
    let next = RequestView::NextProcess { snapshot };
    let from = process_walk(target, snapshot, request);
    if walk.len() == 0 {
        assert(asked(from, walk) =~= walk_requests(request, next, walk.len()));
    } else {
        assert(process_miss(target, walk[0]));
        let rest = walk.drop_first();
        assert forall|i: int| 0 <= i < rest.len() implies process_miss(
            target,
            #[trigger] rest[i],
        ) by {
            assert(rest[i] == walk[i + 1]);
        }
        lemma_process_misses(target, snapshot, next, rest);
        assert(asked(from, walk) =~= walk_requests(request, next, walk.len()));
    }
}

/// The search finds the first process whose name matches. On a live
/// snapshot whose listing hands over records that do not match and then one
/// that does, the search opens that record's process and closes the
/// snapshot, and its result is the process under the record's decoded name
/// and identifier, with the handle that opening it gave. Its requests are
/// the snapshot, one fetch for each record, the opening, and the closing of
/// the snapshot, in this order.
pub proof fn lemma_find_first_match(
    target: Seq<char>,
    snapshot: Handle,
    walk: Seq<ReplyView>,
    hit: ReplyView,
    opened: ReplyView,
    closed: ReplyView,
)
    requires
        snapshot.is_live(),
        forall|i: int| 0 <= i < walk.len() ==> process_miss(target, #[trigger] walk[i]),
        process_hit(target, hit),
    ensures
        ({
            let script = seq![ReplyView::Handle(snapshot)] + walk + seq![hit, opened, closed];
            let entry = hit->Process_entry;
            let found = ProcessView {
                name: decoded_name(entry.exe_file@)->Some_0,
                pid: entry.pid,
                handle: opened.handle(),
            };
            &&& target.is_prefix_of(found.name)
            &&& run(ProcessView::find(target), script) == StepView::<ProcessSearchView, ProcessView>::Done(
                Ok(found),
            )
            &&& asked(ProcessView::find(target), script) == seq![RequestView::ProcessSnapshot]
                + walk_requests(
                RequestView::FirstProcess { snapshot },
                RequestView::NextProcess { snapshot },
                walk.len() + 1,
            ) + seq![
                RequestView::OpenProcess { pid: entry.pid },
                RequestView::Close { handle: snapshot },
            ]
        }),
{
    let first = RequestView::FirstProcess { snapshot };
    let next = RequestView::NextProcess { snapshot };
    let entry = hit->Process_entry;
    let name = decoded_name(entry.exe_file@)->Some_0;
    let found = ProcessView { name, pid: entry.pid, handle: opened.handle() };
    let begin = ProcessView::find(target);
    let s0 = seq![ReplyView::Handle(snapshot)];
    let script = s0 + walk + seq![hit, opened, closed];

    // the snapshot arrives
    lemma_run_one(ProcessSearchView::start(target), RequestView::ProcessSnapshot, s0[0]);
    let walking = process_walk(target, snapshot, first);
    assert(run(begin, s0) == walking);
    // the records that do not match
    lemma_process_misses(target, snapshot, first, walk);
    lemma_run_concat(begin, s0, walk);
    let out = if walk.len() == 0 {
        first
    } else {
        next
    };
    assert(run(begin, s0 + walk) == process_walk(target, snapshot, out));
    // the record that matches
    let at_hit = ProcessSearchView { target, phase: ProcessPhaseView::Walking { snapshot } };
    lemma_run_one(at_hit, out, hit);
    lemma_run_concat(begin, s0 + walk, seq![hit]);
    let opening = ProcessSearchView {
        target,
        phase: ProcessPhaseView::Opening { snapshot, pid: entry.pid, name },
    };
    assert(run(begin, s0 + walk + seq![hit]) == StepView::<
        ProcessSearchView,
        ProcessView,
    >::Ask { machine: opening, request: RequestView::OpenProcess { pid: entry.pid } });
    // the process is opened
    lemma_run_one(opening, RequestView::OpenProcess { pid: entry.pid }, opened);
    lemma_run_concat(begin, s0 + walk + seq![hit], seq![opened]);
    let closing = ProcessSearchView {
        target,
        phase: ProcessPhaseView::Closing { result: Ok(found) },
    };
    // the snapshot is closed
    lemma_run_one(closing, RequestView::Close { handle: snapshot }, closed);
    lemma_run_concat(begin, s0 + walk + seq![hit] + seq![opened], seq![closed]);
    assert(script =~= s0 + walk + seq![hit] + seq![opened] + seq![closed]);
    assert(walk_requests(first, next, walk.len()) + seq![out] =~= walk_requests(
        first,
        next,
        walk.len() + 1,
    ));
    assert(asked(begin, script) =~= seq![RequestView::ProcessSnapshot] + walk_requests(
        first,
        next,
        walk.len() + 1,
    ) + seq![RequestView::OpenProcess { pid: entry.pid }, RequestView::Close { handle: snapshot }]);
}

/// A listing without a match gives the search's failure. On a live snapshot
/// whose listing hands over records that do not match and then ends, the
/// search closes the snapshot and fails: no process was found. Its requests
/// are the snapshot, one fetch for each record and one that met the end,
/// and the closing of the snapshot.
pub proof fn lemma_find_no_match(
    target: Seq<char>,
    snapshot: Handle,
    walk: Seq<ReplyView>,
    end: ReplyView,
    closed: ReplyView,
)
    requires
        snapshot.is_live(),
        forall|i: int| 0 <= i < walk.len() ==> process_miss(target, #[trigger] walk[i]),
        !delivers_process(end),
    ensures
        ({
            let script = seq![ReplyView::Handle(snapshot)] + walk + seq![end, closed];
            &&& run(ProcessView::find(target), script) == StepView::<ProcessSearchView, ProcessView>::Done(
                Err(WinErrorKind::FindProcessError),
            )
            &&& asked(ProcessView::find(target), script) == seq![RequestView::ProcessSnapshot]
                + walk_requests(
                RequestView::FirstProcess { snapshot },
                RequestView::NextProcess { snapshot },
                walk.len() + 1,
            ) + seq![RequestView::Close { handle: snapshot }]
        }),
{
    let first = RequestView::FirstProcess { snapshot };
    let next = RequestView::NextProcess { snapshot };
    let begin = ProcessView::find(target);
    let s0 = seq![ReplyView::Handle(snapshot)];
    let script = s0 + walk + seq![end, closed];

    lemma_run_one(ProcessSearchView::start(target), RequestView::ProcessSnapshot, s0[0]);
    lemma_process_misses(target, snapshot, first, walk);
    lemma_run_concat(begin, s0, walk);
    let out = if walk.len() == 0 {
        first
    } else {
        next
    };
    let at_end = ProcessSearchView { target, phase: ProcessPhaseView::Walking { snapshot } };
    lemma_run_one(at_end, out, end);
    lemma_run_concat(begin, s0 + walk, seq![end]);
    let closing = ProcessSearchView {
        target,
        phase: ProcessPhaseView::Closing { result: Err(WinErrorKind::FindProcessError) },
    };
    lemma_run_one(closing, RequestView::Close { handle: snapshot }, closed);
    lemma_run_concat(begin, s0 + walk + seq![end], seq![closed]);
    assert(script =~= s0 + walk + seq![end] + seq![closed]);
    assert(walk_requests(first, next, walk.len()) + seq![out] =~= walk_requests(
        first,
        next,
        walk.len() + 1,
    ));
    assert(asked(begin, script) =~= seq![RequestView::ProcessSnapshot] + walk_requests(
        first,
        next,
        walk.len() + 1,
    ) + seq![RequestView::Close { handle: snapshot }]);
}

/// Without a valid snapshot there is no search: where the snapshot request
/// gives a null handle, the sentinel, or no handle at all, the search fails
/// at once. No record is fetched, and nothing is closed.
pub proof fn lemma_find_without_snapshot(target: Seq<char>, reply: ReplyView)
    requires
        !reply.handle().is_live(),
    ensures
        run(ProcessView::find(target), seq![reply]) == StepView::<ProcessSearchView, ProcessView>::Done(
            Err(WinErrorKind::FindProcessError),
        ),
        asked(ProcessView::find(target), seq![reply]) == seq![RequestView::ProcessSnapshot],
{
    lemma_run_one(ProcessSearchView::start(target), RequestView::ProcessSnapshot, reply);
}

/// The reply hands over a module record.
pub open spec fn delivers_module(reply: ReplyView) -> bool {
    reply matches ReplyView::Module { status, .. } && status != FALSE
}

/// The reply hands over a module record whose decoded name begins with `target`.
pub open spec fn module_hit(target: Seq<char>, reply: ReplyView) -> bool {
    delivers_module(reply) && names(decoded_name(reply->Module_entry.module@), target)
}

/// The reply hands over a module record that the search for `target` passes over.
pub open spec fn module_miss(target: Seq<char>, reply: ReplyView) -> bool {
    delivers_module(reply) && !names(decoded_name(reply->Module_entry.module@), target)
}

/// A search for `target` that waits for a record of `snapshot`, with `request` out.
pub open spec fn module_walk(target: Seq<char>, snapshot: Handle, request: RequestView) -> StepView<
    ModuleSearchView,
    ModuleView,
> {
    StepView::Ask {
        machine: ModuleSearchView { target, phase: ModulePhaseView::Walking { snapshot } },
        request,
    }
}

/// Records that do not match leave the search walking: it asks for the next
/// record each time, and for nothing else.
pub proof fn lemma_module_misses(
    target: Seq<char>,
    snapshot: Handle,
    request: RequestView,
    walk: Seq<ReplyView>,
)
    requires
        forall|i: int| 0 <= i < walk.len() ==> module_miss(target, #[trigger] walk[i]),
    ensures
        run(module_walk(target, snapshot, request), walk) == module_walk(
            target,
            snapshot,
            if walk.len() == 0 {
                request
            } else {
                RequestView::NextModule { snapshot }
            },
        ),
        asked(module_walk(target, snapshot, request), walk) == walk_requests(
            request,
            RequestView::NextModule { snapshot },
            walk.len(),
        ),
    decreases walk.len(),
{
    let next = RequestView::NextModule { snapshot };
    let from = module_walk(target, snapshot, request);
    if walk.len() == 0 {
        assert(asked(from, walk) =~= walk_requests(request, next, walk.len()));
    } else {
        assert(module_miss(target, walk[0]));
        let rest = walk.drop_first();
        assert forall|i: int| 0 <= i < rest.len() implies module_miss(
            target,
            #[trigger] rest[i],
        ) by {
            assert(rest[i] == walk[i + 1]);
        }
        lemma_module_misses(target, snapshot, next, rest);
        assert(asked(from, walk) =~= walk_requests(request, next, walk.len()));
    }
}

/// The search finds the first module whose name matches. On a live snapshot
/// whose listing hands over records that do not match and then one that
/// does, the search closes the snapshot, and its result is the module under
/// the record's decoded name, with the record's base address cut to the
/// address width and the record's image size, whatever that size is, zero
/// included. Its requests are the snapshot, one fetch for each record, and
/// the closing of the snapshot, in this order.
pub proof fn lemma_find_module_first_match(
    process: ProcessView,
    target: Seq<char>,
    snapshot: Handle,
    walk: Seq<ReplyView>,
    hit: ReplyView,
    closed: ReplyView,
)
    requires
        snapshot.is_live(),
        forall|i: int| 0 <= i < walk.len() ==> module_miss(target, #[trigger] walk[i]),
        module_hit(target, hit),
    ensures
        ({
            let script = seq![ReplyView::Handle(snapshot)] + walk + seq![hit, closed];
            let entry = hit->Module_entry;
            let found = ModuleView::of(decoded_name(entry.module@)->Some_0, entry);
            &&& target.is_prefix_of(found.name)
            &&& found.len == entry.base_size
            &&& run(process.find_module(target), script) == StepView::<
                ModuleSearchView,
                ModuleView,
            >::Done(Ok(found))
            &&& asked(process.find_module(target), script) == seq![
                RequestView::ModuleSnapshot { pid: process.pid },
            ] + walk_requests(
                RequestView::FirstModule { snapshot },
                RequestView::NextModule { snapshot },
                walk.len() + 1,
            ) + seq![RequestView::Close { handle: snapshot }]
        }),
{
    let first = RequestView::FirstModule { snapshot };
    let next = RequestView::NextModule { snapshot };
    let asks = RequestView::ModuleSnapshot { pid: process.pid };
    let entry = hit->Module_entry;
    let found = ModuleView::of(decoded_name(entry.module@)->Some_0, entry);
    let begin = process.find_module(target);
    let s0 = seq![ReplyView::Handle(snapshot)];
    let script = s0 + walk + seq![hit, closed];

    lemma_run_one(ModuleSearchView::start(target), asks, s0[0]);
    lemma_module_misses(target, snapshot, first, walk);
    lemma_run_concat(begin, s0, walk);
    let out = if walk.len() == 0 {
        first
    } else {
        next
    };
    let at_hit = ModuleSearchView { target, phase: ModulePhaseView::Walking { snapshot } };
    lemma_run_one(at_hit, out, hit);
    lemma_run_concat(begin, s0 + walk, seq![hit]);
    let closing = ModuleSearchView { target, phase: ModulePhaseView::Closing { result: Ok(found) } };
    lemma_run_one(closing, RequestView::Close { handle: snapshot }, closed);
    lemma_run_concat(begin, s0 + walk + seq![hit], seq![closed]);
    assert(script =~= s0 + walk + seq![hit] + seq![closed]);
    assert(walk_requests(first, next, walk.len()) + seq![out] =~= walk_requests(
        first,
        next,
        walk.len() + 1,
    ));
    assert(asked(begin, script) =~= seq![asks] + walk_requests(first, next, walk.len() + 1)
        + seq![RequestView::Close { handle: snapshot }]);
}

/// A listing without a match gives the search's failure. On a live snapshot
/// whose listing hands over records that do not match and then ends, the
/// search closes the snapshot and fails: no module was found.
pub proof fn lemma_find_module_no_match(
    process: ProcessView,
    target: Seq<char>,
    snapshot: Handle,
    walk: Seq<ReplyView>,
    end: ReplyView,
    closed: ReplyView,
)
    requires
        snapshot.is_live(),
        forall|i: int| 0 <= i < walk.len() ==> module_miss(target, #[trigger] walk[i]),
        !delivers_module(end),
    ensures
        ({
            let script = seq![ReplyView::Handle(snapshot)] + walk + seq![end, closed];
            &&& run(process.find_module(target), script) == StepView::<
                ModuleSearchView,
                ModuleView,
            >::Done(Err(WinErrorKind::FindModuleError))
            &&& asked(process.find_module(target), script) == seq![
                RequestView::ModuleSnapshot { pid: process.pid },
            ] + walk_requests(
                RequestView::FirstModule { snapshot },
                RequestView::NextModule { snapshot },
                walk.len() + 1,
            ) + seq![RequestView::Close { handle: snapshot }]
        }),
{
    let first = RequestView::FirstModule { snapshot };
    let next = RequestView::NextModule { snapshot };
    let asks = RequestView::ModuleSnapshot { pid: process.pid };
    let begin = process.find_module(target);
    let s0 = seq![ReplyView::Handle(snapshot)];
    let script = s0 + walk + seq![end, closed];

    lemma_run_one(ModuleSearchView::start(target), asks, s0[0]);
    lemma_module_misses(target, snapshot, first, walk);
    lemma_run_concat(begin, s0, walk);
    let out = if walk.len() == 0 {
        first
    } else {
        next
    };
    let at_end = ModuleSearchView { target, phase: ModulePhaseView::Walking { snapshot } };
    lemma_run_one(at_end, out, end);
    lemma_run_concat(begin, s0 + walk, seq![end]);
    let closing = ModuleSearchView {
        target,
        phase: ModulePhaseView::Closing { result: Err(WinErrorKind::FindModuleError) },
    };
    lemma_run_one(closing, RequestView::Close { handle: snapshot }, closed);
    lemma_run_concat(begin, s0 + walk + seq![end], seq![closed]);
    assert(script =~= s0 + walk + seq![end] + seq![closed]);
    assert(walk_requests(first, next, walk.len()) + seq![out] =~= walk_requests(
        first,
        next,
        walk.len() + 1,
    ));
    assert(asked(begin, script) =~= seq![asks] + walk_requests(first, next, walk.len() + 1)
        + seq![RequestView::Close { handle: snapshot }]);
}

/// Without a valid snapshot there is no search: where the snapshot request
/// gives a null handle, the sentinel, or no handle at all, the search fails
/// at once. No record is fetched, and nothing is closed.
pub proof fn lemma_find_module_without_snapshot(
    process: ProcessView,
    target: Seq<char>,
    reply: ReplyView,
)
    requires
        !reply.handle().is_live(),
    ensures
        run(process.find_module(target), seq![reply]) == StepView::<
            ModuleSearchView,
            ModuleView,
        >::Done(Err(WinErrorKind::FindModuleError)),
        asked(process.find_module(target), seq![reply]) == seq![
            RequestView::ModuleSnapshot { pid: process.pid },
        ],
{
    lemma_run_one(
        ModuleSearchView::start(target),
        RequestView::ModuleSnapshot { pid: process.pid },
        reply,
    );
}

} // verus!
