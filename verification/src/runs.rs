//! Whole runs of an operation: the steps it takes when the host's replies
//! are handed to it one after another, and the requests it puts on the way.

use crate::host::{ReplyView, RequestView, StepView};
use vstd::prelude::*;

verus! {

/// An operation that goes on reply by reply.
pub trait Machine: Sized {
    /// What the operation gives when it succeeds.
    type Outcome;

    /// The step taken on `reply`.
    spec fn step(self, reply: ReplyView) -> StepView<Self, Self::Outcome>;
}

/// Where an operation that stands at `from` stands after `replies`, each
/// answering the request that was out when it came. Replies that come after
/// the operation is done change nothing.
pub open spec fn run<M: Machine>(from: StepView<M, M::Outcome>, replies: Seq<ReplyView>) -> StepView<
    M,
    M::Outcome,
>
    decreases replies.len(),
{
    if replies.len() == 0 {
        from
    } else {
        match from {
            StepView::Ask { machine, request } => run(
                machine.step(replies.first()),
                replies.drop_first(),
            ),
            StepView::Done(_) => from,
        }
    }
}

/// The requests that `replies` answered, in order, in the run from `from`.
pub open spec fn asked<M: Machine>(from: StepView<M, M::Outcome>, replies: Seq<ReplyView>) -> Seq<
    RequestView,
>
    decreases replies.len(),
{
    if replies.len() == 0 {
        Seq::empty()
    } else {
        match from {
            StepView::Ask { machine, request } => seq![request] + asked(
                machine.step(replies.first()),
                replies.drop_first(),
            ),
            StepView::Done(_) => Seq::empty(),
        }
    }
}

/// A run over two scripts, one after the other, is the run over the second
/// from where the first ended; and its requests are those of the two runs.
pub proof fn lemma_run_concat<M: Machine>(
    from: StepView<M, M::Outcome>,
    first: Seq<ReplyView>,
    second: Seq<ReplyView>,
)
    ensures
        run(from, first + second) == run(run(from, first), second),
        asked(from, first + second) == asked(from, first) + asked(run(from, first), second),
    decreases first.len(),
{
    if first.len() == 0 {
        assert(first + second =~= second);
        assert(asked(from, first) + asked(run(from, first), second) =~= asked(from, second));
    } else {
        match from {
            StepView::Ask { machine, request } => {
                let next = machine.step(first.first());
                assert((first + second).first() == first.first());
                assert((first + second).drop_first() =~= first.drop_first() + second);
                lemma_run_concat(next, first.drop_first(), second);
                assert(asked(from, first + second) =~= asked(from, first) + asked(
                    run(from, first),
                    second,
                ));
            },
            StepView::Done(_) => {
                lemma_run_done(from, second);
                assert(asked(from, first + second) =~= asked(from, first) + asked(
                    run(from, first),
                    second,
                ));
            },
        }
    }
}

/// An operation that is done stays as it is, and asks nothing more.
pub proof fn lemma_run_done<M: Machine>(from: StepView<M, M::Outcome>, replies: Seq<ReplyView>)
    requires
        from is Done,
    ensures
        run(from, replies) == from,
        asked(from, replies) == Seq::<RequestView>::empty(),
{
}

/// One reply to an operation that waits: the step on it, and the request
/// that it answered.
pub proof fn lemma_run_one<M: Machine>(machine: M, request: RequestView, reply: ReplyView)
    ensures
        run(StepView::Ask { machine, request }, seq![reply]) == machine.step(reply),
        asked(StepView::<M, M::Outcome>::Ask { machine, request }, seq![reply]) == seq![request],
{
    let from = StepView::<M, M::Outcome>::Ask { machine, request };
    let replies = seq![reply];
    assert(replies.first() == reply);
    assert(replies.drop_first().len() == 0);
    assert(run(machine.step(reply), replies.drop_first()) == machine.step(reply));
    assert(asked(machine.step(reply), replies.drop_first()) =~= Seq::<RequestView>::empty());
    assert(asked(from, replies) =~= seq![request]);
}

} // verus!
