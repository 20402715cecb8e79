//! Questions of the core, and the answers that it takes.

use crate::config::Authority;
use crate::consensus::Round;
use crate::error::ConsensusError;
use crate::laws::members::law_strangers_have_no_address;
use crate::laws::refusals::quiet;
use crate::messages::BlockView;
use crate::model::CoreView;
use crate::protocol::{InputView, NextView, QueryView, StageView};
use vstd::prelude::*;

verus! {

/// After a question the core waits for the answer to it and for nothing else.
/// Without one it waits for a checkpoint, or for news.
pub proof fn law_answers_fit_questions(core: CoreView, input: InputView, answer: InputView)
    requires
        core.admits(input),
    ensures
        core.step(input).0.expects(answer) == (match core.step(input).1.next {
            NextView::Ask(QueryView::Digest(_)) => answer is Digest,
            NextView::Ask(QueryView::Leader(_)) => answer is Leader,
            NextView::Ask(QueryView::VerifyBlock(_)) => answer is Verified,
            NextView::Ask(QueryView::VerifyVote(_)) => answer is Verified,
            NextView::Ask(QueryView::VerifyTimeout(_)) => answer is Verified,
            NextView::Ask(QueryView::VerifyTC(_)) => answer is Verified,
            NextView::Ask(QueryView::AddVote(_)) => answer is VoteAdded,
            NextView::Ask(QueryView::AddTimeout(_)) => answer is TimeoutAdded,
            NextView::Ask(QueryView::SignVote(_, _)) => answer is VoteSigned,
            NextView::Ask(QueryView::SignTimeout(_, _, _)) => answer is TimeoutSigned,
            NextView::Ask(QueryView::VerifyPayload(_)) => answer is PayloadVerified,
            NextView::Ask(QueryView::Ancestors(_)) => answer is AncestorsFound,
            NextView::Ask(QueryView::Parent(_)) => answer is ParentFound,
            NextView::AwaitCheckpoint => answer is Message || answer is SyncAbandoned,
            NextView::Done(_) => answer is Message || answer is Loopback || answer is TimerExpired,
        }),
{
}

/// A new core waits to be started.
pub proof fn law_new_core_waits_for_its_start(core: CoreView, input: InputView)
    requires
        core.stage is New,
    ensures
        core.admits(input) <==> input is Start,
{
}

/// The core takes all news that arrive while it waits for them.
pub proof fn law_news_are_admitted(core: CoreView, input: InputView)
    ensures
        core.stage is Idle ==> (core.admits(input) <==> input is Message || input is Loopback
            || input is TimerExpired),
        core.stage is Syncing ==> (core.admits(input) <==> input is Message
            || input is SyncAbandoned),
{
}

/// Where the question was whether something is valid, what follows from it, or
/// where to find it, and the answer is an error, the core passes the error on, has
/// nothing done and stays as it is.
pub proof fn law_errors_are_passed_on(core: CoreView, input: InputView, e: ConsensusError)
    requires
        match core.stage {
            StageView::VoteVerification(_) => input == InputView::Verified(Err(e)),
            StageView::TimeoutVerification(_) => input == InputView::Verified(Err(e)),
            StageView::TCVerification(_) => input == InputView::Verified(Err(e)),
            StageView::ProposalVerification(_) => input == InputView::Verified(Err(e)),
            StageView::VoteAggregation => input == InputView::VoteAdded(Err(e)),
            StageView::TimeoutAggregation => input == InputView::TimeoutAdded(Err(e)),
            StageView::PayloadVerification(_) => input == InputView::PayloadVerified(Err(e)),
            StageView::AncestorLookup(_) => input == InputView::AncestorsFound(Err(e)),
            StageView::ParentLookup { .. } => input == InputView::ParentFound(Err(e)),
            _ => false,
        },
    ensures
        core.admits(input),
        core.step(input) == (
            CoreView { stage: StageView::Idle, ..core },
            quiet(NextView::Done(Err(e))),
        ),
{
}

/// As long as there is no quorum, or a block lacks its payload or an ancestor, the
/// core has nothing done and stays as it is.
pub proof fn law_incomplete_work_is_put_aside(core: CoreView, input: InputView)
    requires
        match core.stage {
            StageView::VoteAggregation => input == InputView::VoteAdded(Ok(None)),
            StageView::TimeoutAggregation => input == InputView::TimeoutAdded(Ok(None)),
            StageView::PayloadVerification(_) => input == InputView::PayloadVerified(Ok(false)),
            StageView::AncestorLookup(_) => input == InputView::AncestorsFound(Ok(None)),
            _ => false,
        },
    ensures
        core.admits(input),
        core.step(input) == (
            CoreView { stage: StageView::Idle, ..core },
            quiet(NextView::Done(Ok(()))),
        ),
{
}

/// No certificate and no checkpoint is admitted that would lead to a round beyond
/// the largest one.
pub proof fn law_rounds_stay_in_range(core: CoreView, input: InputView)
    requires
        core.admits(input),
    ensures
        input matches InputView::VoteAdded(Ok(Some(qc))) ==> qc.round < Round::MAX,
        input matches InputView::TimeoutAdded(Ok(Some(tc))) ==> tc.round < Round::MAX,
        input matches InputView::VoteSigned(_) ==> core.round < Round::MAX,
        input matches InputView::Verified(Ok(_)) ==> match core.stage {
            StageView::CheckpointVerification(block) => block.round < Round::MAX,
            StageView::TimeoutVerification(timeout) => timeout.high_qc.round < Round::MAX,
            StageView::TCVerification(tc) => tc.round < Round::MAX,
            StageView::ProposalVerification(block) => {
                &&& block.qc.round < Round::MAX
                &&& block.tc matches Some(tc) ==> tc.round < Round::MAX
            },
            _ => true,
        },
{
}

/// While a chain is looked up that is to be committed, no ancestor may be missing.
pub proof fn law_no_ancestor_is_missing(
    core: CoreView,
    block: BlockView,
    head: BlockView,
    ancestors: Seq<BlockView>,
)
    requires
        core.stage == (StageView::ParentLookup { block, head, ancestors }),
    ensures
        !core.admits(InputView::ParentFound(Ok(None))),
{
}

/// A block of the current round whose timeout certificate nobody signed, or whose
/// certificates are for the largest round, is never decided on.
pub proof fn law_undecidable_blocks_are_not_admitted(
    core: CoreView,
    block: BlockView,
    input: InputView,
)
    requires
        match core.stage {
            StageView::BlockDigest { block: b, b0, b1 } => {
                b == block && !(b0.round + 1 == b1.round && b0.round > core.last_committed_round
                    + 1)
            },
            StageView::ParentLookup { block: b, .. } => {
                b == block && (input matches InputView::ParentFound(Ok(Some(parent)))
                    && parent.round <= core.last_committed_round + 1)
            },
            _ => false,
        },
        block.round == core.round,
        block.qc.round == Round::MAX || (block.tc matches Some(tc) && (tc.round == Round::MAX
            || tc.votes.len() == 0)),
    ensures
        !core.admits(input),
{
}

/// A vote can be sent to a member only.
pub proof fn law_next_leader_is_a_member(core: CoreView, input: InputView)
    requires
        core.stage is NextLeader,
        core.admits(input),
    ensures
        input matches InputView::Leader(leader) && (leader == core.name || exists|i: int|
            0 <= i < core.committee.len() && (#[trigger] core.committee[i]).name == leader),
{
    let leader = input->Leader_0;
    let members: Seq<Authority> = core.committee;
    if leader != core.name && forall|i: int|
        0 <= i < members.len() ==> (#[trigger] members[i]).name != leader {
        law_strangers_have_no_address(members, leader);
    }
}

} // verus!
