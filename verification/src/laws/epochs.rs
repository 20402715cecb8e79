//! Epochs and checkpoints.

use crate::consensus::Round;
use crate::laws::{
    admits_all, adopts_checkpoint, law_runs_keep_wf, lemma_admitted, lemma_state_succ,
    lemma_unfold, state_at,
};
use crate::messages::QCView;
use crate::model::{epoch_of, CoreView};
use crate::protocol::{InputView, StageView};
use vstd::prelude::*;

verus! {

/// The quorum certificate that an input makes the core process, if any.
pub open spec fn processed_qc(core: CoreView, input: InputView) -> Option<QCView> {
    match (core.stage, input) {
        (StageView::VoteAggregation, InputView::VoteAdded(Ok(qc))) => qc,
        (StageView::TimeoutVerification(timeout), InputView::Verified(Ok(_))) => Some(
            timeout.high_qc,
        ),
        (StageView::ProposalVerification(block), InputView::Verified(Ok(_))) => Some(block.qc),
        _ => None,
    }
}

/// The epoch is the one that the current round belongs to.
pub open spec fn epoch_follows_round(core: CoreView) -> bool {
    core.current_epoch == epoch_of(core.round as int)
}

/// The epoch is not ahead of the one that the current round belongs to.
pub open spec fn epoch_in_range(core: CoreView) -> bool {
    1 <= core.current_epoch <= epoch_of(core.round as int)
}

/// Whether the input makes the core adopt a checkpoint of another epoch than that
/// of the round after it, in which the node goes on.
pub open spec fn adopts_checkpoint_of_another_epoch(core: CoreView, input: InputView) -> bool {
    &&& adopts_checkpoint(core, input)
    &&& core.stage->CheckpointVerification_0.epoch != epoch_of(
        core.stage->CheckpointVerification_0.round + 1,
    )
}

/// Whether the input makes the core adopt a checkpoint whose epoch is none, or is
/// ahead of its round.
pub open spec fn adopts_checkpoint_out_of_range(core: CoreView, input: InputView) -> bool {
    &&& adopts_checkpoint(core, input)
    &&& !(1 <= core.stage->CheckpointVerification_0.epoch <= epoch_of(
        core.stage->CheckpointVerification_0.round as int,
    ))
}

proof fn lemma_epoch_bounds(low: int, high: int)
    requires
        0 <= low <= high <= Round::MAX,
    ensures
        1 <= epoch_of(low) <= epoch_of(high) <= u128::MAX,
{
}

/// A completed round leads into the epoch of the next round, if that is another
/// one, and else leaves the epoch as it is.
proof fn lemma_advanced_epoch(core: CoreView, round: Round)
    requires
        core.round <= round ==> round < Round::MAX,
    ensures
        core.advanced(round).round >= core.round,
        core.advanced(round).current_epoch == if epoch_of(core.advanced(round).round as int)
            != epoch_of(core.round as int) {
            epoch_of(core.advanced(round).round as int)
        } else {
            core.current_epoch as int
        },
{
    if round >= core.round {
        lemma_epoch_bounds(core.round as int, round + 1);
    }
}

/// Whenever the core enters a round of another epoch in normal operation, the
/// epoch becomes that of the round, also where rounds are skipped. Else it stays.
pub proof fn law_epoch_changes_with_the_round(core: CoreView, input: InputView)
    requires
        core.admits(input),
        !adopts_checkpoint(core, input),
    ensures
        core.step(input).0.round >= core.round,
        core.step(input).0.current_epoch == if epoch_of(core.step(input).0.round as int)
            != epoch_of(core.round as int) {
            epoch_of(core.step(input).0.round as int)
        } else {
            core.current_epoch as int
        },
{
    match (core.stage, input) {
        (StageView::VoteAggregation, InputView::VoteAdded(Ok(Some(qc)))) => {
            lemma_advanced_epoch(core, qc.round);
        },
        (StageView::TimeoutVerification(timeout), InputView::Verified(Ok(_))) => {
            lemma_advanced_epoch(core, timeout.high_qc.round);
        },
        (StageView::TimeoutAggregation, InputView::TimeoutAdded(Ok(Some(tc)))) => {
            lemma_advanced_epoch(core, tc.round);
        },
        (StageView::TCVerification(tc), InputView::Verified(Ok(_))) => {
            lemma_advanced_epoch(core, tc.round);
        },
        (StageView::ProposalVerification(block), InputView::Verified(Ok(_))) => {
            let between = core.with_qc(block.qc);
            lemma_advanced_epoch(core, block.qc.round);
            if let Some(tc) = block.tc {
                lemma_advanced_epoch(between, tc.round);
                lemma_epoch_bounds(core.round as int, between.round as int);
                lemma_epoch_bounds(between.round as int, between.advanced(tc.round).round as int);
            }
        },
        _ => {},
    }
}

/// Epoch `e` contains the rounds from `(e - 1) * ROUNDS_PER_EPOCH` up to
/// `e * ROUNDS_PER_EPOCH - 1`: whichever round is completed, the epoch stays the
/// one that the current round belongs to.
pub proof fn law_epoch_of_round(core: CoreView, round: Round)
    requires
        core.round <= round < Round::MAX,
        epoch_follows_round(core),
    ensures
        epoch_follows_round(core.advanced(round)),
{
    lemma_advanced_epoch(core, round);
}

/// The epoch stays the one that the current round belongs to, in every step.
pub proof fn law_epochs_follow_rounds(core: CoreView, input: InputView)
    requires
        core.admits(input),
        epoch_follows_round(core),
        !adopts_checkpoint_of_another_epoch(core, input),
    ensures
        epoch_follows_round(core.step(input).0),
{
    if !adopts_checkpoint(core, input) {
        law_epoch_changes_with_the_round(core, input);
    }
}

/// In every run, the epoch stays the one that the current round belongs to, as it
/// is at genesis.
pub proof fn law_epochs_follow_rounds_in_runs(core: CoreView, inputs: Seq<InputView>, i: int)
    requires
        epoch_follows_round(core),
        admits_all(core, inputs),
        forall|k: int|
            0 <= k < inputs.len() ==> !adopts_checkpoint_of_another_epoch(
                #[trigger] state_at(core, inputs, k),
                inputs[k],
            ),
        0 <= i <= inputs.len(),
    ensures
        epoch_follows_round(state_at(core, inputs, i)),
    decreases i,
{
    if i > 0 {
        law_epochs_follow_rounds_in_runs(core, inputs, i - 1);
        lemma_state_succ(core, inputs, i - 1);
        lemma_admitted(core, inputs, i - 1);
        lemma_unfold(state_at(core, inputs, i - 1), inputs[i - 1]);
        law_epochs_follow_rounds(state_at(core, inputs, i - 1), inputs[i - 1]);
    }
}

/// Also with a checkpoint of the epoch that ends with it, the epoch is never ahead
/// of the one that the current round belongs to, and never decreases.
pub proof fn law_epochs_never_decrease(core: CoreView, input: InputView)
    requires
        core.wf(),
        core.admits(input),
        epoch_in_range(core),
        !adopts_checkpoint_out_of_range(core, input),
    ensures
        epoch_in_range(core.step(input).0),
        core.step(input).0.current_epoch >= core.current_epoch,
{
    if adopts_checkpoint(core, input) {
        let checkpoint = core.stage->CheckpointVerification_0;
        lemma_epoch_bounds(checkpoint.round as int, checkpoint.round + 1);
    } else {
        law_epoch_changes_with_the_round(core, input);
        lemma_epoch_bounds(core.round as int, core.step(input).0.round as int);
    }
}

/// In every run, also with a checkpoint of the epoch that ends with it, the epoch
/// never decreases, and is never ahead of the one that the current round belongs
/// to, as it is not at genesis.
pub proof fn law_epochs_never_decrease_in_runs(
    core: CoreView,
    inputs: Seq<InputView>,
    i: int,
    j: int,
)
    requires
        core.wf(),
        epoch_in_range(core),
        admits_all(core, inputs),
        forall|k: int|
            0 <= k < inputs.len() ==> !adopts_checkpoint_out_of_range(
                #[trigger] state_at(core, inputs, k),
                inputs[k],
            ),
        0 <= i <= j <= inputs.len(),
    ensures
        epoch_in_range(state_at(core, inputs, j)),
        state_at(core, inputs, i).current_epoch <= state_at(core, inputs, j).current_epoch,
    decreases j,
{
    if j > 0 {
        let earlier = if i < j {
            i
        } else {
            j - 1
        };
        law_epochs_never_decrease_in_runs(core, inputs, earlier, j - 1);
        law_runs_keep_wf(core, inputs, j - 1);
        lemma_state_succ(core, inputs, j - 1);
        lemma_admitted(core, inputs, j - 1);
        lemma_unfold(state_at(core, inputs, j - 1), inputs[j - 1]);
        law_epochs_never_decrease(state_at(core, inputs, j - 1), inputs[j - 1]);
    }
}

} // verus!
