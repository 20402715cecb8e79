//! What holds of the core, whatever it is handed.

use crate::model::CoreView;
use crate::protocol::{InputView, ReplyView};
use vstd::prelude::*;

pub mod answers;
pub mod blocks;
pub mod commits;
pub mod effects;
pub mod epochs;
pub mod members;
pub mod refusals;
pub mod rounds;
pub mod serving;
pub mod sync;
pub mod values;
pub mod voting;

verus! {

/// The state after an input is taken.
#[verifier::opaque]
pub open spec fn state_after(core: CoreView, input: InputView) -> CoreView {
    core.step(input).0
}

/// The reply to an input.
#[verifier::opaque]
pub open spec fn reply_to(core: CoreView, input: InputView) -> ReplyView {
    core.step(input).1
}

/// Whether an input is admitted.
#[verifier::opaque]
pub open spec fn admitted(core: CoreView, input: InputView) -> bool {
    core.admits(input)
}

/// The state after a run: the inputs are taken one after the other.
pub open spec fn run(core: CoreView, inputs: Seq<InputView>) -> CoreView
    decreases inputs.len(),
{
    if inputs.len() == 0 {
        core
    } else {
        state_after(run(core, inputs.drop_last()), inputs.last())
    }
}

/// The state before the given input of a run is taken.
pub open spec fn state_at(core: CoreView, inputs: Seq<InputView>, i: int) -> CoreView {
    run(core, inputs.take(i))
}

/// The reply to the given input of a run.
pub open spec fn reply_at(core: CoreView, inputs: Seq<InputView>, i: int) -> ReplyView {
    reply_to(state_at(core, inputs, i), inputs[i])
}

/// Whether the core admits every input of a run.
pub open spec fn admits_all(core: CoreView, inputs: Seq<InputView>) -> bool {
    forall|i: int|
        0 <= i < inputs.len() ==> admitted(#[trigger] state_at(core, inputs, i), inputs[i])
}

/// Whether the input makes the core adopt a checkpoint.
pub open spec fn adopts_checkpoint(core: CoreView, input: InputView) -> bool {
    core.stage is CheckpointVerification && input matches InputView::Verified(Ok(_))
}

/// Every step keeps the state well-formed.
#[verifier::rlimit(30)]
pub proof fn law_step_keeps_wf(core: CoreView, input: InputView)
    requires
        core.wf(),
        core.admits(input),
    ensures
        core.step(input).0.wf(),
{
}

/// The node keeps its name, and the committee stays the same, across all rounds
/// and epochs.
pub proof fn law_identity_is_fixed(core: CoreView, input: InputView)
    requires
        core.admits(input),
    ensures
        core.step(input).0.name == core.name,
        core.step(input).0.committee == core.committee,
        core.step(input).0.fast_sync == core.fast_sync,
{
}

/// No step goes back: neither the current round, nor the rounds voted for and
/// committed, nor the round of the highest certificate ever decreases.
#[verifier::rlimit(30)]
pub proof fn law_rounds_never_decrease(core: CoreView, input: InputView)
    requires
        core.wf(),
        core.admits(input),
    ensures
        core.step(input).0.round >= core.round,
        core.step(input).0.last_voted_round >= core.last_voted_round,
        core.step(input).0.last_committed_round >= core.last_committed_round,
        core.step(input).0.high_qc.round >= core.high_qc.round,
{
}

pub(crate) proof fn lemma_state_succ(core: CoreView, inputs: Seq<InputView>, i: int)
    requires
        0 <= i < inputs.len(),
    ensures
        state_at(core, inputs, i + 1) == state_after(state_at(core, inputs, i), inputs[i]),
{
    assert(inputs.take(i + 1).drop_last() =~= inputs.take(i));
}

/// Every state of a run is well-formed.
pub proof fn law_runs_keep_wf(core: CoreView, inputs: Seq<InputView>, i: int)
    requires
        core.wf(),
        admits_all(core, inputs),
        0 <= i <= inputs.len(),
    ensures
        state_at(core, inputs, i).wf(),
    decreases i,
{
    if i > 0 {
        law_runs_keep_wf(core, inputs, i - 1);
        lemma_state_succ(core, inputs, i - 1);
        lemma_admitted(core, inputs, i - 1);
        lemma_unfold(state_at(core, inputs, i - 1), inputs[i - 1]);
        law_step_keeps_wf(state_at(core, inputs, i - 1), inputs[i - 1]);
    }
}

/// No later state of a run goes back behind an earlier one.
pub proof fn law_runs_never_go_back(core: CoreView, inputs: Seq<InputView>, i: int, j: int)
    requires
        core.wf(),
        admits_all(core, inputs),
        0 <= i <= j <= inputs.len(),
    ensures
        state_at(core, inputs, i).round <= state_at(core, inputs, j).round,
        state_at(core, inputs, i).last_voted_round <= state_at(core, inputs, j).last_voted_round,
        state_at(core, inputs, i).last_committed_round <= state_at(
            core,
            inputs,
            j,
        ).last_committed_round,
        state_at(core, inputs, i).high_qc.round <= state_at(core, inputs, j).high_qc.round,
    decreases j,
{
    if i < j {
        law_runs_never_go_back(core, inputs, i, j - 1);
        law_runs_keep_wf(core, inputs, j - 1);
        lemma_state_succ(core, inputs, j - 1);
        lemma_admitted(core, inputs, j - 1);
        lemma_unfold(state_at(core, inputs, j - 1), inputs[j - 1]);
        law_rounds_never_decrease(state_at(core, inputs, j - 1), inputs[j - 1]);
    }
}

/// What the names for the parts of a step stand for.
pub(crate) proof fn lemma_unfold(core: CoreView, input: InputView)
    ensures
        core.step(input) == (state_after(core, input), reply_to(core, input)),
        core.admits(input) == admitted(core, input),
{
    reveal(state_after);
    reveal(reply_to);
    reveal(admitted);
}

pub(crate) proof fn lemma_admitted(core: CoreView, inputs: Seq<InputView>, i: int)
    requires
        admits_all(core, inputs),
        0 <= i < inputs.len(),
    ensures
        admitted(state_at(core, inputs, i), inputs[i]),
{
}

/// The states of a short run, each found from the one before.
pub(crate) proof fn lemma_short_run(
    core: CoreView,
    inputs: Seq<InputView>,
    states: Seq<CoreView>,
    replies: Seq<ReplyView>,
)
    requires
        states.len() == inputs.len() + 1,
        replies.len() == inputs.len(),
        states[0] == core,
        forall|i: int|
            #![trigger inputs[i]]
            0 <= i < inputs.len() ==> admitted(states[i], inputs[i]) && state_after(
                states[i],
                inputs[i],
            ) == states[i + 1] && reply_to(states[i], inputs[i]) == replies[i],
    ensures
        admits_all(core, inputs),
        run(core, inputs) == states.last(),
        forall|i: int|
            0 <= i < inputs.len() ==> #[trigger] reply_at(core, inputs, i) == replies[i],
{
    assert forall|i: int| 0 <= i <= inputs.len() implies #[trigger] state_at(core, inputs, i)
        == states[i] by {
        lemma_short_run_state(core, inputs, states, i);
    }
    assert(inputs.take(inputs.len() as int) =~= inputs);
    assert(state_at(core, inputs, inputs.len() as int) == states.last());
}

proof fn lemma_short_run_state(
    core: CoreView,
    inputs: Seq<InputView>,
    states: Seq<CoreView>,
    i: int,
)
    requires
        states.len() == inputs.len() + 1,
        states[0] == core,
        forall|i: int|
            #![trigger inputs[i]]
            0 <= i < inputs.len() ==> state_after(states[i], inputs[i]) == states[i + 1],
        0 <= i <= inputs.len(),
    ensures
        state_at(core, inputs, i) == states[i],
    decreases i,
{
    if i > 0 {
        lemma_short_run_state(core, inputs, states, i - 1);
        lemma_state_succ(core, inputs, i - 1);
    }
}

/// One step from a state to the next.
pub(crate) proof fn lemma_step(
    core: CoreView,
    input: InputView,
    next: CoreView,
    reply: ReplyView,
)
    requires
        core.admits(input),
        core.step(input) == (next, reply),
    ensures
        admitted(core, input),
        state_after(core, input) == next,
        reply_to(core, input) == reply,
{
    lemma_unfold(core, input);
}

} // verus!
