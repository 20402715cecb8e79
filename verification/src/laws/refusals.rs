//! Messages that the core refuses or ignores.

use crate::consensus::ConsensusMessageView;
use crate::error::ConsensusError;
use crate::keys::{Digest, PublicKey};
use crate::laws::{admits_all, lemma_short_run, lemma_step, reply_at, run};
use crate::messages::{BlockView, TCView, TimeoutView, Vote};
use crate::model::CoreView;
use crate::protocol::{EffectView, InputView, NextView, QueryView, ReplyView, StageView};
use vstd::prelude::*;

verus! {

/// A reply without effects.
pub open spec fn quiet(next: NextView) -> ReplyView {
    ReplyView { effects: Seq::empty(), next }
}

/// A run without any effect that ends in the state in which it began, with all
/// that it was handed dealt with.
pub open spec fn leaves_no_trace(
    core: CoreView,
    inputs: Seq<InputView>,
    result: Result<(), ConsensusError>,
) -> bool {
    &&& admits_all(core, inputs)
    &&& run(core, inputs) == core
    &&& forall|i: int|
        0 <= i < inputs.len() ==> #[trigger] reply_at(core, inputs, i).effects
            == Seq::<EffectView>::empty()
    &&& reply_at(core, inputs, inputs.len() - 1).next == NextView::Done(result)
}

/// A step that fails has no effect and changes nothing: the core is back to
/// waiting for news, in the state in which it was.
pub proof fn law_failure_changes_nothing(core: CoreView, input: InputView, e: ConsensusError)
    requires
        core.admits(input),
        core.step(input).1.next == NextView::Done(Err(e)),
    ensures
        core.step(input).1.effects == Seq::<EffectView>::empty(),
        core.step(input).0 == (CoreView { stage: StageView::Idle, ..core }),
{
}

/// Votes and timeouts for rounds left behind change nothing and have no effect.
pub proof fn law_stale_messages_are_ignored(core: CoreView, message: ConsensusMessageView)
    requires
        core.stage is Idle,
        message matches ConsensusMessageView::Vote(vote) ==> vote.round < core.round,
        message matches ConsensusMessageView::Timeout(timeout) ==> timeout.round < core.round,
        message is Vote || message is Timeout,
    ensures
        core.admits(InputView::Message(message)),
        core.step(InputView::Message(message)) == (core, quiet(NextView::Done(Ok(())))),
{
}

/// Requests for help and checkpoints that reach the core in normal operation
/// change nothing and have no effect.
pub proof fn law_sync_messages_are_ignored(core: CoreView, message: ConsensusMessageView)
    requires
        core.stage is Idle,
        message is SyncRequest || message is SyncCheckpointRequest
            || message is SyncCheckpointResponse,
    ensures
        core.admits(InputView::Message(message)),
        core.step(InputView::Message(message)) == (core, quiet(NextView::Done(Ok(())))),
{
}

/// An input whose handling asks one question and then ends without effect.
proof fn lemma_two_steps(
    core: CoreView,
    first: InputView,
    query: QueryView,
    stage: StageView,
    second: InputView,
    result: Result<(), ConsensusError>,
)
    requires
        core.stage is Idle,
        core.admits(first),
        core.step(first) == (CoreView { stage, ..core }, quiet(NextView::Ask(query))),
        (CoreView { stage, ..core }).admits(second),
        (CoreView { stage, ..core }).step(second) == (core, quiet(NextView::Done(result))),
    ensures
        leaves_no_trace(core, seq![first, second], result),
{
    let inputs = seq![first, second];
    let waiting = CoreView { stage, ..core };
    let states = seq![core, waiting, core];
    let replies = seq![quiet(NextView::Ask(query)), quiet(NextView::Done(result))];
    lemma_step(core, first, waiting, replies[0]);
    lemma_step(waiting, second, core, replies[1]);
    lemma_short_run(core, inputs, states, replies);
}

/// A vote that fails its verification is answered with the error, and leaves no
/// trace.
pub proof fn law_invalid_vote_leaves_no_trace(core: CoreView, vote: Vote, e: ConsensusError)
    requires
        core.stage is Idle,
        vote.round >= core.round,
    ensures
        leaves_no_trace(
            core,
            seq![
                InputView::Message(ConsensusMessageView::Vote(vote)),
                InputView::Verified(Err(e)),
            ],
            Err(e),
        ),
{
    lemma_two_steps(
        core,
        InputView::Message(ConsensusMessageView::Vote(vote)),
        QueryView::VerifyVote(vote),
        StageView::VoteVerification(vote),
        InputView::Verified(Err(e)),
        Err(e),
    );
}

/// A timeout that fails its verification is answered with the error, and leaves
/// no trace.
pub proof fn law_invalid_timeout_leaves_no_trace(
    core: CoreView,
    timeout: TimeoutView,
    e: ConsensusError,
)
    requires
        core.stage is Idle,
        timeout.round >= core.round,
    ensures
        leaves_no_trace(
            core,
            seq![
                InputView::Message(ConsensusMessageView::Timeout(timeout)),
                InputView::Verified(Err(e)),
            ],
            Err(e),
        ),
{
    lemma_two_steps(
        core,
        InputView::Message(ConsensusMessageView::Timeout(timeout)),
        QueryView::VerifyTimeout(timeout),
        StageView::TimeoutVerification(timeout),
        InputView::Verified(Err(e)),
        Err(e),
    );
}

/// A timeout certificate that fails its verification is answered with the error,
/// and leaves no trace.
pub proof fn law_invalid_tc_leaves_no_trace(core: CoreView, tc: TCView, e: ConsensusError)
    requires
        core.stage is Idle,
    ensures
        leaves_no_trace(
            core,
            seq![
                InputView::Message(ConsensusMessageView::TC(tc)),
                InputView::Verified(Err(e)),
            ],
            Err(e),
        ),
{
    lemma_two_steps(
        core,
        InputView::Message(ConsensusMessageView::TC(tc)),
        QueryView::VerifyTC(tc),
        StageView::TCVerification(tc),
        InputView::Verified(Err(e)),
        Err(e),
    );
}

/// A valid timeout certificate for a round left behind leaves no trace.
pub proof fn law_stale_tc_leaves_no_trace(core: CoreView, tc: TCView)
    requires
        core.stage is Idle,
        tc.round < core.round,
    ensures
        leaves_no_trace(
            core,
            seq![
                InputView::Message(ConsensusMessageView::TC(tc)),
                InputView::Verified(Ok(())),
            ],
            Ok(()),
        ),
{
    lemma_two_steps(
        core,
        InputView::Message(ConsensusMessageView::TC(tc)),
        QueryView::VerifyTC(tc),
        StageView::TCVerification(tc),
        InputView::Verified(Ok(())),
        Ok(()),
    );
}

/// A block whose ancestors are not at hand leaves no trace.
pub proof fn law_suspended_block_leaves_no_trace(core: CoreView, block: BlockView)
    requires
        core.stage is Idle,
    ensures
        leaves_no_trace(
            core,
            seq![InputView::Loopback(block), InputView::AncestorsFound(Ok(None))],
            Ok(()),
        ),
{
    lemma_two_steps(
        core,
        InputView::Loopback(block),
        QueryView::Ancestors(block),
        StageView::AncestorLookup(block),
        InputView::AncestorsFound(Ok(None)),
        Ok(()),
    );
}

/// A proposal by another node than the leader of its round is refused, with an
/// error that names the block, its author and its round, and leaves no trace.
pub proof fn law_wrong_leader_is_refused(
    core: CoreView,
    block: BlockView,
    digest: Digest,
    leader: PublicKey,
)
    requires
        core.stage is Idle,
        block.author != leader,
    ensures
        leaves_no_trace(
            core,
            seq![
                InputView::Message(ConsensusMessageView::Propose(block)),
                InputView::Digest(digest),
                InputView::Leader(leader),
            ],
            Err(
                ConsensusError::WrongLeader { digest, leader: block.author, round: block.round },
            ),
        ),
{
    let inputs = seq![
        InputView::Message(ConsensusMessageView::Propose(block)),
        InputView::Digest(digest),
        InputView::Leader(leader),
    ];
    let e = ConsensusError::WrongLeader { digest, leader: block.author, round: block.round };
    let first = CoreView { stage: StageView::ProposalDigest(block), ..core };
    let second = CoreView { stage: StageView::ProposalLeader(block, digest), ..core };
    let replies = seq![
        quiet(NextView::Ask(QueryView::Digest(block))),
        quiet(NextView::Ask(QueryView::Leader(block.round))),
        quiet(NextView::Done(Err(e))),
    ];
    lemma_step(core, inputs[0], first, replies[0]);
    lemma_step(first, inputs[1], second, replies[1]);
    lemma_step(second, inputs[2], core, replies[2]);
    lemma_short_run(core, inputs, seq![core, first, second, core], replies);
}

/// A proposal that fails its verification is answered with the error, and leaves
/// no trace.
pub proof fn law_invalid_proposal_leaves_no_trace(
    core: CoreView,
    block: BlockView,
    digest: Digest,
    e: ConsensusError,
)
    requires
        core.stage is Idle,
    ensures
        leaves_no_trace(
            core,
            seq![
                InputView::Message(ConsensusMessageView::Propose(block)),
                InputView::Digest(digest),
                InputView::Leader(block.author),
                InputView::Verified(Err(e)),
            ],
            Err(e),
        ),
{
    let inputs = seq![
        InputView::Message(ConsensusMessageView::Propose(block)),
        InputView::Digest(digest),
        InputView::Leader(block.author),
        InputView::Verified(Err(e)),
    ];
    let first = CoreView { stage: StageView::ProposalDigest(block), ..core };
    let second = CoreView { stage: StageView::ProposalLeader(block, digest), ..core };
    let third = CoreView { stage: StageView::ProposalVerification(block), ..core };
    let replies = seq![
        quiet(NextView::Ask(QueryView::Digest(block))),
        quiet(NextView::Ask(QueryView::Leader(block.round))),
        quiet(NextView::Ask(QueryView::VerifyBlock(block))),
        quiet(NextView::Done(Err(e))),
    ];
    lemma_step(core, inputs[0], first, replies[0]);
    lemma_step(first, inputs[1], second, replies[1]);
    lemma_step(second, inputs[2], third, replies[2]);
    lemma_step(third, inputs[3], core, replies[3]);
    lemma_short_run(core, inputs, seq![core, first, second, third, core], replies);
}

} // verus!
