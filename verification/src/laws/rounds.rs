//! How certificates, timeouts and leaders move a node from round to round.

use crate::config::other_addresses;
use crate::consensus::{ConsensusMessageView, Round};
use crate::helper::HelperRequest;
use crate::keys::{Digest, PublicKey};
use crate::laws::effects::law_checkpoint_marked_at_the_end_of_an_epoch;
use crate::laws::epochs::law_epoch_changes_with_the_round;
use crate::laws::refusals::quiet;
use crate::messages::{QCView, TCView, TimeoutView, Vote};
use crate::model::{epoch_of, CoreView};
use crate::proposer::ProposerMessageView;
use crate::protocol::{EffectView, InputView, NextView, QueryView, ReplyView, StageView};
use vstd::prelude::*;

verus! {

/// Epoch `e` consists of the 5000 rounds from `(e - 1) * 5000` up to
/// `e * 5000 - 1`.
pub proof fn law_epochs_have_5000_rounds(round: int, epoch: int)
    requires
        round >= 0,
    ensures
        epoch_of(round) == epoch <==> (epoch - 1) * 5000 <= round < epoch * 5000,
{
}

/// A vote for the current round or a later one is verified, then counted.
pub proof fn law_votes_are_counted(core: CoreView, vote: Vote)
    requires
        core.stage is Idle,
        vote.round >= core.round,
    ensures
        ({
            let arrival = InputView::Message(ConsensusMessageView::Vote(vote));
            let waiting = CoreView { stage: StageView::VoteVerification(vote), ..core };
            &&& core.admits(arrival)
            &&& core.step(arrival) == (waiting, quiet(NextView::Ask(QueryView::VerifyVote(vote))))
            &&& waiting.admits(InputView::Verified(Ok(())))
            &&& waiting.step(InputView::Verified(Ok(()))) == (
                CoreView { stage: StageView::VoteAggregation, ..core },
                quiet(NextView::Ask(QueryView::AddVote(vote))),
            )
        }),
{
}

/// A quorum certificate that is processed completes its round: the node is then in
/// a later round, and in none later than it must be. The certificate is kept if it
/// is of a higher round than the one known before. The block that it certifies is
/// the new checkpoint exactly if its round is the last of some epoch. The timer
/// starts anew and older votes are forgotten exactly if the round changes.
pub proof fn law_quorum_certificates_complete_rounds(core: CoreView, input: InputView, qc: QCView)
    requires
        qc.round < Round::MAX,
        match core.stage {
            StageView::VoteAggregation => input == InputView::VoteAdded(Ok(Some(qc))),
            StageView::TimeoutVerification(timeout) => {
                timeout.high_qc == qc && input == InputView::Verified(Ok(()))
            },
            StageView::ProposalVerification(block) => {
                block.qc == qc && block.tc is None && input == InputView::Verified(Ok(()))
            },
            _ => false,
        },
    ensures
        core.admits(input),
        ({
            let (after, reply) = core.step(input);
            let ends_epoch = qc.round > 0 && (qc.round + 1) % 5000 == 0;
            let mark = EffectView::Helper(HelperRequest::UpdateCheckpoint(qc.hash));
            let forget = EffectView::CleanupAggregator((qc.round + 1) as Round);
            &&& after.round > qc.round
            &&& after.round >= core.round
            &&& after.round == core.round || after.round == qc.round + 1
            &&& qc.round > core.high_qc.round ==> after.high_qc == qc
            &&& qc.round <= core.high_qc.round ==> after.high_qc == core.high_qc
            &&& after.last_voted_round == core.last_voted_round
            &&& after.last_committed_round == core.last_committed_round
            &&& reply.effects == (match (ends_epoch, qc.round >= core.round) {
                (true, true) => seq![mark, EffectView::ResetTimer, forget],
                (true, false) => seq![mark],
                (false, true) => seq![EffectView::ResetTimer, forget],
                (false, false) => seq![],
            })
        }),
{
}

/// The checkpoint is updated exactly by those certificates that are of the last
/// round of an epoch, of whichever epoch, and becomes the block certified.
pub proof fn law_every_epoch_ends_with_a_checkpoint(
    core: CoreView,
    input: InputView,
    digest: Digest,
)
    requires
        core.admits(input),
    ensures
        core.step(input).1.effects.contains(
            EffectView::Helper(HelperRequest::UpdateCheckpoint(digest)),
        ) <==> (match (core.stage, input) {
            (StageView::VoteAggregation, InputView::VoteAdded(Ok(Some(qc)))) => {
                qc.round > 0 && (qc.round + 1) % 5000 == 0 && qc.hash == digest
            },
            (StageView::TimeoutVerification(timeout), InputView::Verified(Ok(_))) => {
                timeout.high_qc.round > 0 && (timeout.high_qc.round + 1) % 5000 == 0
                    && timeout.high_qc.hash == digest
            },
            (StageView::ProposalVerification(block), InputView::Verified(Ok(_))) => {
                block.qc.round > 0 && (block.qc.round + 1) % 5000 == 0 && block.qc.hash == digest
            },
            _ => false,
        }),
{
    law_checkpoint_marked_at_the_end_of_an_epoch(core, input, digest);
}

/// A quorum of votes is followed by the question who leads the round that it led
/// to.
pub proof fn law_quorum_of_votes_asks_for_the_leader(core: CoreView, qc: QCView)
    requires
        core.stage is VoteAggregation,
        qc.round < Round::MAX,
    ensures
        ({
            let (after, reply) = core.step(InputView::VoteAdded(Ok(Some(qc))));
            &&& after.stage is VoteLeader
            &&& reply.next == NextView::Ask(
                QueryView::Leader(
                    if qc.round >= core.round {
                        (qc.round + 1) as Round
                    } else {
                        core.round
                    },
                ),
            )
        }),
{
}

/// When the timer runs out, the node asks for a timeout of its current round with
/// its highest certificate, and gives up voting in that round. Nothing else
/// changes.
pub proof fn law_expired_timer_gives_up_the_round(core: CoreView)
    requires
        core.stage is Idle,
    ensures
        core.admits(InputView::TimerExpired),
        ({
            let (after, reply) = core.step(InputView::TimerExpired);
            &&& reply == quiet(
                NextView::Ask(QueryView::SignTimeout(core.high_qc, core.round, core.name)),
            )
            &&& after.last_voted_round >= core.round
            &&& after.last_voted_round >= core.last_voted_round
            &&& after.last_voted_round == core.round || after.last_voted_round
                == core.last_voted_round
            &&& after == (CoreView {
                last_voted_round: after.last_voted_round,
                stage: StageView::TimeoutSigning,
                ..core
            })
        }),
{
}

/// Our own timeout restarts the timer, goes to all others, and is then handled as
/// if another node had sent it.
pub proof fn law_own_timeouts_are_handled_like_others(core: CoreView, timeout: TimeoutView)
    requires
        core.stage is TimeoutSigning,
    ensures
        core.admits(InputView::TimeoutSigned(timeout)),
        ({
            let (after, reply) = core.step(InputView::TimeoutSigned(timeout));
            let idle = CoreView { stage: StageView::Idle, ..core };
            let (as_received, answer) = idle.step(
                InputView::Message(ConsensusMessageView::Timeout(timeout)),
            );
            &&& after == as_received
            &&& reply.next == answer.next
            &&& reply.effects == seq![
                EffectView::ResetTimer,
                EffectView::Broadcast(
                    other_addresses(core.committee, core.name),
                    ConsensusMessageView::Timeout(timeout),
                ),
            ]
        }),
{
}

/// A timeout for the current round or a later one is verified; its certificate is
/// then processed, and the timeout counted.
pub proof fn law_timeouts_are_counted(core: CoreView, timeout: TimeoutView)
    requires
        core.stage is Idle,
        timeout.round >= core.round,
    ensures
        ({
            let arrival = InputView::Message(ConsensusMessageView::Timeout(timeout));
            let waiting = CoreView { stage: StageView::TimeoutVerification(timeout), ..core };
            let (after, reply) = waiting.step(InputView::Verified(Ok(())));
            &&& core.admits(arrival)
            &&& core.step(arrival) == (
                waiting,
                quiet(NextView::Ask(QueryView::VerifyTimeout(timeout))),
            )
            &&& timeout.high_qc.round < Round::MAX ==> {
                &&& waiting.admits(InputView::Verified(Ok(())))
                &&& after.stage is TimeoutAggregation
                &&& reply.next == NextView::Ask(QueryView::AddTimeout(timeout))
            }
        }),
{
}

/// A quorum of timeouts completes its round, if the node has not left that round
/// yet, is passed on to all others, and is followed by the question who leads the
/// round that the node is in.
pub proof fn law_quorum_of_timeouts_completes_the_round(core: CoreView, tc: TCView)
    requires
        core.stage is TimeoutAggregation,
        tc.round < Round::MAX,
    ensures
        core.admits(InputView::TimeoutAdded(Ok(Some(tc)))),
        ({
            let (after, reply) = core.step(InputView::TimeoutAdded(Ok(Some(tc))));
            let pass_on = EffectView::Broadcast(
                other_addresses(core.committee, core.name),
                ConsensusMessageView::TC(tc),
            );
            &&& tc.round >= core.round ==> after.round == tc.round + 1 && reply.effects == seq![
                EffectView::ResetTimer,
                EffectView::CleanupAggregator((tc.round + 1) as Round),
                pass_on,
            ]
            &&& tc.round < core.round ==> after.round == core.round && reply.effects == seq![
                pass_on,
            ]
            &&& reply.next == NextView::Ask(QueryView::Leader(after.round))
            &&& after == (CoreView {
                round: after.round,
                current_epoch: after.current_epoch,
                stage: StageView::TimeoutLeader(tc),
                ..core
            })
        }),
{
}

/// A timeout certificate of another node is verified, whatever its round.
pub proof fn law_timeout_certificates_are_verified(core: CoreView, tc: TCView)
    requires
        core.stage is Idle,
    ensures
        ({
            let arrival = InputView::Message(ConsensusMessageView::TC(tc));
            &&& core.admits(arrival)
            &&& core.step(arrival) == (
                CoreView { stage: StageView::TCVerification(tc), ..core },
                quiet(NextView::Ask(QueryView::VerifyTC(tc))),
            )
        }),
{
}

/// A verified timeout certificate for the current round or a later one completes
/// its round: the node enters the round after it, starts the timer anew, forgets
/// older votes, and asks who leads the round that it enters.
pub proof fn law_timeout_certificates_complete_rounds(core: CoreView, tc: TCView)
    requires
        core.stage == StageView::TCVerification(tc),
        core.round <= tc.round < Round::MAX,
    ensures
        core.admits(InputView::Verified(Ok(()))),
        ({
            let (after, reply) = core.step(InputView::Verified(Ok(())));
            &&& after.round == tc.round + 1
            &&& reply == (ReplyView {
                effects: seq![
                    EffectView::ResetTimer,
                    EffectView::CleanupAggregator((tc.round + 1) as Round),
                ],
                next: NextView::Ask(QueryView::Leader((tc.round + 1) as Round)),
            })
            &&& after == (CoreView {
                round: after.round,
                current_epoch: after.current_epoch,
                stage: StageView::TCLeader(tc),
                ..core
            })
        }),
{
}

/// A verified timeout certificate for a round left behind changes nothing.
pub proof fn law_old_timeout_certificates_change_nothing(core: CoreView, tc: TCView)
    requires
        core.stage == StageView::TCVerification(tc),
        tc.round < core.round,
    ensures
        core.admits(InputView::Verified(Ok(()))),
        core.step(InputView::Verified(Ok(()))) == (
            CoreView { stage: StageView::Idle, ..core },
            quiet(NextView::Done(Ok(()))),
        ),
{
}

/// Whoever leads the round that the node has come to, it goes on to wait for news,
/// with its state unchanged. If it is the leader itself it orders one block for its
/// round and epoch on top of its highest certificate, with the timeout certificate
/// that led to the round, if one did; else it orders none.
pub proof fn law_only_the_leader_proposes(core: CoreView, leader: PublicKey)
    requires
        core.stage is StartupLeader || core.stage is VoteLeader || core.stage is TimeoutLeader
            || core.stage is TCLeader,
    ensures
        core.admits(InputView::Leader(leader)),
        ({
            let (after, reply) = core.step(InputView::Leader(leader));
            &&& after == (CoreView { stage: StageView::Idle, ..core })
            &&& reply.next == NextView::Done(Ok(()))
            &&& leader != core.name ==> reply.effects.len() == 0
            &&& leader == core.name ==> {
                &&& reply.effects.len() == 1
                &&& reply.effects[0] matches EffectView::Proposer(
                    ProposerMessageView::Make(round, epoch, qc, tc),
                )
                &&& round == core.round
                &&& epoch == core.current_epoch
                &&& qc == core.high_qc
                &&& tc == match core.stage {
                    StageView::TimeoutLeader(tc) => Some(tc),
                    StageView::TCLeader(tc) => Some(tc),
                    _ => None,
                }
            }
        }),
{
}

/// The epoch changes exactly with the first round entered of another epoch, and
/// then becomes the number of that epoch, counted from 1 in steps of 5000 rounds.
pub proof fn law_epoch_of_a_round_entered(core: CoreView, input: InputView)
    requires
        core.admits(input),
        !(core.stage is CheckpointVerification && input matches InputView::Verified(Ok(_))),
    ensures
        ({
            let after = core.step(input).0;
            &&& after.round / 5000 == core.round / 5000 ==> after.current_epoch
                == core.current_epoch
            &&& after.round / 5000 != core.round / 5000 ==> after.current_epoch == (after.round
                / 5000) + 1
        }),
{
    law_epoch_changes_with_the_round(core, input);
}

/// The round changes only by a certificate, and then to the round after it.
pub proof fn law_rounds_need_certificates(core: CoreView, input: InputView)
    requires
        core.admits(input),
        core.step(input).0.round != core.round,
    ensures
        ({
            let entered = core.step(input).0.round;
            match (core.stage, input) {
                (StageView::VoteAggregation, InputView::VoteAdded(Ok(Some(qc)))) => entered
                    == qc.round + 1,
                (StageView::TimeoutVerification(timeout), InputView::Verified(Ok(_))) => entered
                    == timeout.high_qc.round + 1,
                (StageView::TimeoutAggregation, InputView::TimeoutAdded(Ok(Some(tc)))) => entered
                    == tc.round + 1,
                (StageView::TCVerification(tc), InputView::Verified(Ok(_))) => entered == tc.round
                    + 1,
                (StageView::ProposalVerification(block), InputView::Verified(Ok(_))) => {
                    ||| entered == block.qc.round + 1
                    ||| block.tc matches Some(tc) && entered == tc.round + 1
                },
                (StageView::CheckpointVerification(block), InputView::Verified(Ok(_))) => entered
                    == block.round + 1,
                _ => false,
            }
        }),
{
}

} // verus!
