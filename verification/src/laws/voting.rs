//! Votes, timeouts and certificates.

use crate::consensus::Round;
use crate::laws::epochs::processed_qc;
use crate::laws::{
    admits_all, adopts_checkpoint, law_runs_keep_wf, law_runs_never_go_back, lemma_admitted,
    lemma_state_succ, lemma_unfold, reply_at, state_at,
};
use crate::messages::BlockView;
use crate::model::CoreView;
use crate::protocol::{InputView, NextView, QueryView, StageView};
use vstd::prelude::*;

verus! {

/// The core asks for a vote only for a block of its current round that the
/// voting rules allow, under its own name, and from then on votes for no other
/// block of that round.
pub proof fn law_votes_follow_the_rules(core: CoreView, input: InputView)
    requires
        core.admits(input),
    ensures
        core.step(input).1.next matches NextView::Ask(QueryView::SignVote(block, name)) ==> {
            &&& name == core.name
            &&& block.round == core.round
            &&& core.may_vote(block)
            &&& core.step(input).0.last_voted_round == block.round
        },
{
}

/// A block that the voting rules allow is voted for, once it is stored and what it
/// commits is committed.
pub proof fn law_allowed_votes_are_cast(core: CoreView, input: InputView, block: BlockView)
    requires
        core.admits(input),
        match core.stage {
            StageView::BlockDigest { block: b, .. } => b == block,
            StageView::ParentLookup { block: b, .. } => b == block,
            _ => false,
        },
        input !is ParentFound || input matches InputView::ParentFound(Ok(_)),
        core.step(input).0.stage !is ParentLookup,
        block.round == core.round,
        core.may_vote(block),
    ensures
        core.step(input).1.next == NextView::Ask(QueryView::SignVote(block, core.name)),
{
}

/// A node never votes twice in a round: in every run, the blocks that it votes
/// for are of ever higher rounds.
pub proof fn law_one_vote_per_round(
    core: CoreView,
    inputs: Seq<InputView>,
    i: int,
    j: int,
    first: BlockView,
    second: BlockView,
)
    requires
        core.wf(),
        admits_all(core, inputs),
        0 <= i < j < inputs.len(),
        reply_at(core, inputs, i).next matches NextView::Ask(QueryView::SignVote(b, _)) && b
            == first,
        reply_at(core, inputs, j).next matches NextView::Ask(QueryView::SignVote(b, _)) && b
            == second,
    ensures
        first.round < second.round,
{
    lemma_admitted(core, inputs, i);
    lemma_unfold(state_at(core, inputs, i), inputs[i]);
    law_votes_follow_the_rules(state_at(core, inputs, i), inputs[i]);
    lemma_admitted(core, inputs, j);
    lemma_unfold(state_at(core, inputs, j), inputs[j]);
    law_votes_follow_the_rules(state_at(core, inputs, j), inputs[j]);
    lemma_state_succ(core, inputs, i);
    law_runs_never_go_back(core, inputs, i + 1, j);
}

/// A node that gives up on a round announces its current round and its highest
/// certificate, and from then on votes for no block of that round.
pub proof fn law_timeouts_carry_the_state(core: CoreView, input: InputView)
    requires
        core.wf(),
        core.admits(input),
    ensures
        core.step(input).1.next matches NextView::Ask(QueryView::SignTimeout(qc, round, name)) ==> {
            &&& qc == core.high_qc
            &&& round == core.round
            &&& name == core.name
            &&& core.step(input).0.last_voted_round == round
        },
{
}

/// Once a node has given up on a round, it votes only for blocks of later
/// rounds.
pub proof fn law_no_vote_after_timeout(
    core: CoreView,
    inputs: Seq<InputView>,
    i: int,
    j: int,
    round: Round,
    block: BlockView,
)
    requires
        core.wf(),
        admits_all(core, inputs),
        0 <= i < j < inputs.len(),
        reply_at(core, inputs, i).next matches NextView::Ask(QueryView::SignTimeout(_, r, _)) && r
            == round,
        reply_at(core, inputs, j).next matches NextView::Ask(QueryView::SignVote(b, _)) && b
            == block,
    ensures
        round < block.round,
{
    law_runs_keep_wf(core, inputs, i);
    lemma_admitted(core, inputs, i);
    lemma_unfold(state_at(core, inputs, i), inputs[i]);
    law_timeouts_carry_the_state(state_at(core, inputs, i), inputs[i]);
    lemma_admitted(core, inputs, j);
    lemma_unfold(state_at(core, inputs, j), inputs[j]);
    law_votes_follow_the_rules(state_at(core, inputs, j), inputs[j]);
    lemma_state_succ(core, inputs, i);
    law_runs_never_go_back(core, inputs, i + 1, j);
}

/// Whether the input makes the core adopt a checkpoint whose certificate is of a
/// later round than the checkpoint itself.
pub open spec fn adopts_inverted_checkpoint(core: CoreView, input: InputView) -> bool {
    adopts_checkpoint(core, input) && core.stage->CheckpointVerification_0.qc.round
        > core.stage->CheckpointVerification_0.round
}

/// The highest certificate is of a round already completed, and stays so.
pub proof fn law_high_qc_is_of_a_completed_round(core: CoreView, input: InputView)
    requires
        core.admits(input),
        core.high_qc.round < core.round,
        !adopts_inverted_checkpoint(core, input),
    ensures
        core.step(input).0.high_qc.round < core.step(input).0.round,
{
}

/// Before a node orders a block, it asks who leads its current round.
pub proof fn law_leader_of_the_current_round_is_asked(core: CoreView, input: InputView)
    requires
        core.admits(input),
        core.step(input).0.stage is StartupLeader || core.step(input).0.stage is VoteLeader
            || core.step(input).0.stage is TimeoutLeader || core.step(input).0.stage is TCLeader,
    ensures
        core.step(input).1.next == NextView::Ask(QueryView::Leader(core.step(input).0.round)),
{
}

/// In every run from genesis, the highest certificate is of a round already
/// completed.
pub proof fn law_high_qc_is_of_a_completed_round_in_runs(
    core: CoreView,
    inputs: Seq<InputView>,
    i: int,
)
    requires
        core.at_genesis(),
        admits_all(core, inputs),
        forall|k: int|
            0 <= k < inputs.len() ==> !adopts_inverted_checkpoint(
                #[trigger] state_at(core, inputs, k),
                inputs[k],
            ),
        0 <= i <= inputs.len(),
    ensures
        state_at(core, inputs, i).high_qc.round < state_at(core, inputs, i).round,
    decreases i,
{
    if i > 0 {
        law_high_qc_is_of_a_completed_round_in_runs(core, inputs, i - 1);
        lemma_state_succ(core, inputs, i - 1);
        lemma_admitted(core, inputs, i - 1);
        lemma_unfold(state_at(core, inputs, i - 1), inputs[i - 1]);
        law_high_qc_is_of_a_completed_round(state_at(core, inputs, i - 1), inputs[i - 1]);
    }
}

/// A processed certificate completes its round, and is kept exactly if its round
/// is higher than that of the certificate known before.
pub proof fn law_highest_qc_is_kept(core: CoreView, input: InputView)
    requires
        core.admits(input),
        !adopts_checkpoint(core, input),
    ensures
        match processed_qc(core, input) {
            Some(qc) => {
                &&& core.step(input).0.round > qc.round
                &&& core.step(input).0.high_qc == if qc.round > core.high_qc.round {
                    qc
                } else {
                    core.high_qc
                }
            },
            None => core.step(input).0.high_qc == core.high_qc,
        },
{
}

} // verus!
