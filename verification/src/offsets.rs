//! What a transfer at an offset from a module's base comes to: it is the
//! lookup of the module, followed by the transfer at the module's base plus
//! the offset; where the lookup fails, or the sum is no address, it fails
//! before any memory is touched; and a transfer that the host reports as
//! failed never gives a value.

use crate::every_run::lemma_found_module_was_listed;
use crate::host::{Handle, ReplyView, RequestView, StepView, TRUE};
use crate::memory::{
    MemoryReadView, MemoryWriteView, RelativeReadView, RelativeWriteView,
};
use crate::module::ModuleView;
use crate::process::ProcessView;
use crate::runs::{asked, lemma_run_concat, lemma_run_done, lemma_run_one, run};
use crate::search::ModuleSearchView;
use crate::utils::WinErrorKind;
use vstd::prelude::*;

verus! {

/// The request moves bytes into or out of a process.
pub open spec fn touches_memory(request: RequestView) -> bool {
    request is Read || request is Write
}

/// `script` holds the replies that the lookup `lookup` takes, and no more:
/// the lookup is not over before the last of them.
pub open spec fn feeds_lookup(
    lookup: StepView<ModuleSearchView, ModuleView>,
    script: Seq<ReplyView>,
) -> bool {
    script.len() > 0 ==> run(lookup, script.drop_last()) is Ask
}

/// A read hands on what the host holds: where the host reports success and
/// its buffer has the width asked for, the read gives the buffer's bytes,
/// unchanged. So a read of as many bytes as were just written gives the
/// written bytes wherever the host hands them back.
pub proof fn lemma_full_read_gives_the_bytes(read: MemoryReadView, bytes: Seq<u8>)
    requires
        bytes.len() == read.width,
    ensures
        read.advance(ReplyView::Read { status: TRUE, bytes }) == StepView::<
            MemoryReadView,
            Seq<u8>,
        >::Done(Ok(bytes)),
{
}

/// A read that the host does not report as a success of the full width gives
/// no bytes: it is a failed read.
pub proof fn lemma_failed_read_gives_nothing(read: MemoryReadView, reply: ReplyView)
    requires
        !(reply matches ReplyView::Read { status, bytes } && status == TRUE && bytes.len()
            == read.width),
    ensures
        read.advance(reply) == StepView::<MemoryReadView, Seq<u8>>::Done(
            Err(WinErrorKind::ReadMemoryError),
        ),
        (RelativeReadView::Reading { read }).advance(reply) == StepView::<
            RelativeReadView,
            Seq<u8>,
        >::Done(Err(WinErrorKind::ReadMemoryError)),
{
}

/// A write that the host does not report as a success is a failed write.
pub proof fn lemma_failed_write_fails(write: MemoryWriteView, reply: ReplyView)
    requires
        reply != ReplyView::Status(TRUE),
    ensures
        write.advance(reply) == StepView::<MemoryWriteView, ()>::Done(
            Err(WinErrorKind::WriteMemoryError),
        ),
        (RelativeWriteView::Writing { write }).advance(reply) == StepView::<
            RelativeWriteView,
            (),
        >::Done(Err(WinErrorKind::WriteMemoryError)),
{
}

/// A lookup asks for snapshots, records and closings, never for memory.
pub proof fn lemma_lookup_touches_no_memory(
    lookup: StepView<ModuleSearchView, ModuleView>,
    replies: Seq<ReplyView>,
)
    requires
        lookup matches StepView::Ask { request, .. } ==> !touches_memory(request),
    ensures
        forall|i: int|
            0 <= i < asked(lookup, replies).len() ==> !touches_memory(
                #[trigger] asked(lookup, replies)[i],
            ),
        run(lookup, replies) matches StepView::Ask { request, .. } ==> !touches_memory(request),
    decreases replies.len(),
{
    if replies.len() > 0 {
        if let StepView::Ask { machine, request } = lookup {
            let next = machine.advance(replies.first());
            lemma_lookup_touches_no_memory(next, replies.drop_first());
            let tail = asked(next, replies.drop_first());
            assert(asked(lookup, replies) =~= seq![request] + tail);
            assert forall|i: int| 0 <= i < asked(lookup, replies).len() implies !touches_memory(
                #[trigger] asked(lookup, replies)[i],
            ) by {
                if i > 0 {
                    assert(asked(lookup, replies)[i] == tail[i - 1]);
                }
            }
        }
    }
}

proof fn lemma_split_script(
    lookup: StepView<ModuleSearchView, ModuleView>,
    replies: Seq<ReplyView>,
)
    requires
        lookup is Ask,
        replies.len() > 1,
        feeds_lookup(lookup, replies),
    ensures
        lookup->Ask_machine.advance(replies.first()) is Ask,
        feeds_lookup(lookup->Ask_machine.advance(replies.first()), replies.drop_first()),
{
    let next = lookup->Ask_machine.advance(replies.first());
    let rest = replies.drop_first();
    assert(replies.drop_last().first() == replies.first());
    assert(replies.drop_last().drop_first() =~= rest.drop_last());
    assert(run(lookup, replies.drop_last()) == run(next, rest.drop_last()));
    if next is Done {
        lemma_run_done(next, rest.drop_last());
    }
}

/// While the module is looked up, the read at an offset does what the
/// lookup does: the same requests, reply by reply; and when the lookup ends,
/// the read goes on from the lookup's result.
pub proof fn lemma_relative_read_follows_lookup(
    lookup: StepView<ModuleSearchView, ModuleView>,
    process: Handle,
    offset: u32,
    width: usize,
    script: Seq<ReplyView>,
)
    requires
        lookup is Ask,
        feeds_lookup(lookup, script),
    ensures
        run(RelativeReadView::resolving(lookup, process, offset, width), script)
            == RelativeReadView::resolving(run(lookup, script), process, offset, width),
        asked(RelativeReadView::resolving(lookup, process, offset, width), script) == asked(
            lookup,
            script,
        ),
    decreases script.len(),
{
    let relative = RelativeReadView::resolving(lookup, process, offset, width);
    if script.len() > 0 {
        let next = lookup->Ask_machine.advance(script.first());
        let rest = script.drop_first();
        let after = RelativeReadView::resolving(next, process, offset, width);
        assert(relative->Ask_machine.advance(script.first()) == after);
        if rest.len() > 0 {
            lemma_split_script(lookup, script);
            lemma_relative_read_follows_lookup(next, process, offset, width, rest);
        } else {
            assert(asked(after, rest) =~= asked(next, rest));
        }
    }
}

/// While the module is looked up, the write at an offset does what the
/// lookup does: the same requests, reply by reply; and when the lookup ends,
/// the write goes on from the lookup's result.
pub proof fn lemma_relative_write_follows_lookup(
    lookup: StepView<ModuleSearchView, ModuleView>,
    process: Handle,
    offset: u32,
    bytes: Seq<u8>,
    script: Seq<ReplyView>,
)
    requires
        lookup is Ask,
        feeds_lookup(lookup, script),
    ensures
        run(RelativeWriteView::resolving(lookup, process, offset, bytes), script)
            == RelativeWriteView::resolving(run(lookup, script), process, offset, bytes),
        asked(RelativeWriteView::resolving(lookup, process, offset, bytes), script) == asked(
            lookup,
            script,
        ),
    decreases script.len(),
{
    let relative = RelativeWriteView::resolving(lookup, process, offset, bytes);
    if script.len() > 0 {
        let next = lookup->Ask_machine.advance(script.first());
        let rest = script.drop_first();
        let after = RelativeWriteView::resolving(next, process, offset, bytes);
        assert(relative->Ask_machine.advance(script.first()) == after);
        if rest.len() > 0 {
            lemma_split_script(lookup, script);
            lemma_relative_write_follows_lookup(next, process, offset, bytes, rest);
        } else {
            assert(asked(after, rest) =~= asked(next, rest));
        }
    }
}

/// A read at an offset is the read at the module's base plus the offset.
/// Where the lookup of the module, on the replies of `script`, finds
/// `module`, and the base plus the offset is an address, the read at an
/// offset has by then asked what the lookup asked, now has the very request
/// out that an absolute read at that address starts with, and gives on the
/// host's reply what the absolute read gives on it.
pub proof fn lemma_relative_read_reads_at_base(
    process: ProcessView,
    name: Seq<char>,
    offset: u32,
    width: usize,
    script: Seq<ReplyView>,
    module: ModuleView,
    reply: ReplyView,
)
    requires
        feeds_lookup(process.find_module(name), script),
        run(process.find_module(name), script) == StepView::<ModuleSearchView, ModuleView>::Done(
            Ok(module),
        ),
        module.address + offset <= u32::MAX,
    ensures
        ({
            let relative = RelativeReadView::resolving(
                process.find_module(name),
                process.handle,
                offset,
                width,
            );
            let absolute = MemoryReadView::at(
                process.handle,
                (module.address + offset) as u32,
                width,
            );
            &&& asked(relative, script) == asked(process.find_module(name), script)
            &&& run(relative, script) == RelativeReadView::reading(absolute)
            &&& run(relative, script)->Ask_request == absolute->Ask_request
            &&& run(relative, script.push(reply)) is Done
            &&& run(absolute, seq![reply]) is Done
            &&& run(relative, script.push(reply))->Done_0 == run(absolute, seq![reply])->Done_0
        }),
{
    let lookup = process.find_module(name);
    let relative = RelativeReadView::resolving(lookup, process.handle, offset, width);
    let absolute = MemoryReadView::at(process.handle, (module.address + offset) as u32, width);
    lemma_relative_read_follows_lookup(lookup, process.handle, offset, width, script);
    lemma_run_concat(relative, script, seq![reply]);
    assert(script.push(reply) =~= script + seq![reply]);
    lemma_run_one(absolute->Ask_machine, absolute->Ask_request, reply);
    lemma_run_one(
        RelativeReadView::Reading { read: absolute->Ask_machine },
        absolute->Ask_request,
        reply,
    );
}

/// A write at an offset is the write at the module's base plus the offset.
/// Where the lookup of the module, on the replies of `script`, finds
/// `module`, and the base plus the offset is an address, the write at an
/// offset has by then asked what the lookup asked, now has the very request
/// out that an absolute write of the same bytes at that address starts
/// with, and gives on the host's reply what the absolute write gives on it.
pub proof fn lemma_relative_write_writes_at_base(
    process: ProcessView,
    name: Seq<char>,
    offset: u32,
    bytes: Seq<u8>,
    script: Seq<ReplyView>,
    module: ModuleView,
    reply: ReplyView,
)
    requires
        feeds_lookup(process.find_module(name), script),
        run(process.find_module(name), script) == StepView::<ModuleSearchView, ModuleView>::Done(
            Ok(module),
        ),
        module.address + offset <= u32::MAX,
    ensures
        ({
            let relative = RelativeWriteView::resolving(
                process.find_module(name),
                process.handle,
                offset,
                bytes,
            );
            let absolute = MemoryWriteView::at(
                process.handle,
                (module.address + offset) as u32,
                bytes,
            );
            &&& asked(relative, script) == asked(process.find_module(name), script)
            &&& run(relative, script) == RelativeWriteView::writing(absolute)
            &&& run(relative, script)->Ask_request == absolute->Ask_request
            &&& run(relative, script.push(reply)) is Done
            &&& run(absolute, seq![reply]) is Done
            &&& run(relative, script.push(reply))->Done_0 == run(absolute, seq![reply])->Done_0
        }),
{
    let lookup = process.find_module(name);
    let relative = RelativeWriteView::resolving(lookup, process.handle, offset, bytes);
    let absolute = MemoryWriteView::at(process.handle, (module.address + offset) as u32, bytes);
    lemma_relative_write_follows_lookup(lookup, process.handle, offset, bytes, script);
    lemma_run_concat(relative, script, seq![reply]);
    assert(script.push(reply) =~= script + seq![reply]);
    lemma_run_one(absolute->Ask_machine, absolute->Ask_request, reply);
    lemma_run_one(
        RelativeWriteView::Writing { write: absolute->Ask_machine },
        absolute->Ask_request,
        reply,
    );
}

/// Without an address there is no read. Where the lookup of the module, on
/// the replies of `script`, fails, the read at an offset fails with the
/// lookup's failure: no module was found. Where it finds a module but the
/// base plus the offset is beyond the width of an address, the read fails
/// as a read. Either way it is over, and no request of the run touched
/// memory.
pub proof fn lemma_relative_read_without_address(
    process: ProcessView,
    name: Seq<char>,
    offset: u32,
    width: usize,
    script: Seq<ReplyView>,
)
    requires
        feeds_lookup(process.find_module(name), script),
        run(process.find_module(name), script) matches StepView::Done(found) && (found matches Ok(
            module,
        ) ==> module.address + offset > u32::MAX),
    ensures
        ({
            let relative = RelativeReadView::resolving(
                process.find_module(name),
                process.handle,
                offset,
                width,
            );
            &&& run(relative, script) == StepView::<RelativeReadView, Seq<u8>>::Done(
                Err(
                    if run(process.find_module(name), script) matches StepView::Done(Ok(_)) {
                        WinErrorKind::ReadMemoryError
                    } else {
                        WinErrorKind::FindModuleError
                    },
                ),
            )
            &&& forall|i: int|
                0 <= i < asked(relative, script).len() ==> !touches_memory(
                    #[trigger] asked(relative, script)[i],
                )
        }),
{
    let lookup = process.find_module(name);
    lemma_relative_read_follows_lookup(lookup, process.handle, offset, width, script);
    lemma_lookup_touches_no_memory(lookup, script);
    lemma_found_module_was_listed(process, name, script);
}

/// Without an address there is no write. Where the lookup of the module, on
/// the replies of `script`, fails, the write at an offset fails with the
/// lookup's failure: no module was found. Where it finds a module but the
/// base plus the offset is beyond the width of an address, the write fails
/// as a write. Either way it is over, and no request of the run touched
/// memory.
pub proof fn lemma_relative_write_without_address(
    process: ProcessView,
    name: Seq<char>,
    offset: u32,
    bytes: Seq<u8>,
    script: Seq<ReplyView>,
)
    requires
        feeds_lookup(process.find_module(name), script),
        run(process.find_module(name), script) matches StepView::Done(found) && (found matches Ok(
            module,
        ) ==> module.address + offset > u32::MAX),
    ensures
        ({
            let relative = RelativeWriteView::resolving(
                process.find_module(name),
                process.handle,
                offset,
                bytes,
            );
            &&& run(relative, script) == StepView::<RelativeWriteView, ()>::Done(
                Err(
                    if run(process.find_module(name), script) matches StepView::Done(Ok(_)) {
                        WinErrorKind::WriteMemoryError
                    } else {
                        WinErrorKind::FindModuleError
                    },
                ),
            )
            &&& forall|i: int|
                0 <= i < asked(relative, script).len() ==> !touches_memory(
                    #[trigger] asked(relative, script)[i],
                )
        }),
{
    let lookup = process.find_module(name);
    lemma_relative_write_follows_lookup(lookup, process.handle, offset, bytes, script);
    lemma_lookup_touches_no_memory(lookup, script);
    lemma_found_module_was_listed(process, name, script);
}

} // verus!
