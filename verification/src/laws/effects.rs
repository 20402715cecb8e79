//! The reason for every effect.

use crate::config::{address_of, other_addresses, others, Address, EpochNumber};
use crate::consensus::{ConsensusMessageView, Round};
use crate::helper::HelperRequest;
use crate::keys::Digest;
use crate::laws::adopts_checkpoint;
use crate::laws::epochs::processed_qc;
use crate::messages::{BlockView, QCView, TCView, Vote};
use crate::model::{certifies_checkpoint, CoreView};
use crate::proposer::ProposerMessageView;
use crate::protocol::{EffectView, InputView, NextView, QueryView, StageView};
use vstd::prelude::*;

verus! {

/// Whether the core has a reason for an effect when it takes an input.
pub open spec fn has_reason(core: CoreView, input: InputView, effect: EffectView) -> bool {
    match effect {
        EffectView::ResetTimer => true,
        // The core enters a round.
        EffectView::CleanupAggregator(round) => core.round < round,
        // A block is about to be committed: its child directly follows it.
        EffectView::CleanupMempool(round) => {
            &&& core.stage matches StageView::BlockDigest { b0, b1, .. }
            &&& b0.round + 1 == b1.round
            &&& round == b0.round
        },
        // We lead the current round.
        EffectView::Proposer(ProposerMessageView::Make(round, epoch, qc, tc)) => {
            &&& input == InputView::Leader(core.name)
            &&& round == core.round
            &&& epoch == core.current_epoch
            &&& qc == core.high_qc
        },
        // A block and its ancestors are at hand.
        EffectView::Proposer(ProposerMessageView::Cleanup(digests)) => {
            &&& core.stage matches StageView::BlockDigest { block, b0, b1 }
            &&& digests == b0.payload + b1.payload + block.payload
        },
        // An epoch ends.
        EffectView::Helper(request) => {
            &&& processed_qc(core, input) matches Some(qc)
            &&& certifies_checkpoint(qc)
            &&& request == HelperRequest::UpdateCheckpoint(qc.hash)
        },
        // A chain to be committed is complete.
        EffectView::Commit(_) => core.stage is BlockDigest || core.stage is ParentLookup,
        // A checkpoint is wanted, or our vote goes to the next leader.
        EffectView::Send(address, message) => match (core.stage, input) {
            (StageView::New, InputView::Start(mode)) => {
                &&& core.fast_sync
                &&& mode is FastSync
                &&& others(core.committee, core.name).len() > 0
                &&& address == others(core.committee, core.name)[0].address
                &&& message == ConsensusMessageView::SyncCheckpointRequest(core.name)
            },
            (StageView::NextLeader(vote), InputView::Leader(leader)) => {
                &&& leader != core.name
                &&& address_of(core.committee, leader) == Some(address)
                &&& message == ConsensusMessageView::Vote(vote)
            },
            _ => false,
        },
        // We gave up on a round, or a quorum did.
        EffectView::Broadcast(addresses, message) => {
            &&& addresses == other_addresses(core.committee, core.name)
            &&& match (core.stage, input) {
                (StageView::TimeoutSigning, InputView::TimeoutSigned(timeout)) => message
                    == ConsensusMessageView::Timeout(timeout),
                (StageView::TimeoutAggregation, InputView::TimeoutAdded(Ok(Some(tc)))) => message
                    == ConsensusMessageView::TC(tc),
                _ => false,
            }
        },
        // A checkpoint is adopted, or a block and its ancestors are at hand.
        EffectView::WriteStore(key, block) => {
            &&& input matches InputView::Digest(digest) && digest.0@ == key
            &&& {
                ||| core.stage == StageView::CheckpointDigest(block)
                ||| core.stage matches StageView::BlockDigest { block: b, .. } && b == block
            }
        },
    }
}

/// The effects that come before a commit are those of storing a block.
#[verifier::rlimit(30)]
proof fn lemma_effects_of_commit(core: CoreView, input: InputView, i: int)
    requires
        core.admits(input),
        core.stage is BlockDigest || core.stage is ParentLookup,
        0 <= i < core.step(input).1.effects.len(),
    ensures
        has_reason(core, input, core.step(input).1.effects[i]),
{
    match (core.stage, input) {
        (StageView::BlockDigest { block, b0, b1 }, InputView::Digest(digest)) => {
            assert(core.step(input) == core.store_block(block, b0, b1, digest));
        },
        (
            StageView::ParentLookup { block, head, ancestors },
            InputView::ParentFound(Ok(Some(parent))),
        ) => {
            assert(core.step(input) == core.commit(
                Seq::empty(),
                block,
                head,
                ancestors.push(parent),
            ));
        },
        _ => {},
    }
}

/// The core does nothing without a reason.
#[verifier::rlimit(30)]
pub proof fn law_every_effect_has_a_reason(core: CoreView, input: InputView, i: int)
    requires
        core.admits(input),
        0 <= i < core.step(input).1.effects.len(),
    ensures
        has_reason(core, input, core.step(input).1.effects[i]),
{
    if core.stage is BlockDigest || core.stage is ParentLookup {
        lemma_effects_of_commit(core, input, i);
    }
}

/// Whether an effect is owed wherever there is a reason for it.
pub open spec fn is_owed(effect: EffectView) -> bool {
    match effect {
        EffectView::ResetTimer
        | EffectView::CleanupAggregator(_)
        | EffectView::Commit(_)
        | EffectView::Proposer(ProposerMessageView::Make(_, _, _, _)) => false,
        _ => true,
    }
}

proof fn lemma_contains(effects: Seq<EffectView>, i: int, effect: EffectView)
    requires
        0 <= i < effects.len(),
        effects[i] == effect,
    ensures
        effects.contains(effect),
{
}

/// What there is a reason for is done: blocks at hand are stored, their payloads
/// forgotten by the proposer, commits announced to the mempool, checkpoints named
/// to the helper, and messages sent.
#[verifier::rlimit(30)]
pub proof fn law_owed_effects_are_performed(
    core: CoreView,
    input: InputView,
    effect: EffectView,
)
    requires
        core.admits(input),
        has_reason(core, input, effect),
        is_owed(effect),
    ensures
        core.step(input).1.effects.contains(effect),
{
    let effects = core.step(input).1.effects;
    match effect {
        EffectView::CleanupMempool(_) => {
            lemma_contains(effects, 2, effect);
        },
        EffectView::Proposer(ProposerMessageView::Cleanup(_)) => {
            lemma_contains(effects, 1, effect);
        },
        EffectView::Helper(_) => {
            lemma_contains(effects, 0, effect);
        },
        EffectView::Send(_, _) => {
            lemma_contains(effects, 0, effect);
        },
        EffectView::Broadcast(_, _) => {
            lemma_contains(effects, effects.len() - 1, effect);
        },
        EffectView::WriteStore(_, _) => {
            lemma_contains(effects, 0, effect);
        },
        _ => {},
    }
}

/// What is done has a reason.
proof fn lemma_reason(core: CoreView, input: InputView, effect: EffectView)
    requires
        core.admits(input),
        core.step(input).1.effects.contains(effect),
    ensures
        has_reason(core, input, effect),
{
    let effects = core.step(input).1.effects;
    let i = choose|i: int| 0 <= i < effects.len() && effects[i] == effect;
    law_every_effect_has_a_reason(core, input, i);
}

/// The checkpoint is updated whenever a certificate for the last round of an
/// epoch is processed, and never else; it becomes the block certified.
pub proof fn law_checkpoint_marked_at_the_end_of_an_epoch(
    core: CoreView,
    input: InputView,
    digest: Digest,
)
    requires
        core.admits(input),
    ensures
        core.step(input).1.effects.contains(
            EffectView::Helper(HelperRequest::UpdateCheckpoint(digest)),
        ) <==> (processed_qc(core, input) matches Some(qc) && certifies_checkpoint(qc) && qc.hash
            == digest),
{
    let effect = EffectView::Helper(HelperRequest::UpdateCheckpoint(digest));
    if core.step(input).1.effects.contains(effect) {
        lemma_reason(core, input, effect);
    }
    if has_reason(core, input, effect) {
        law_owed_effects_are_performed(core, input, effect);
    }
}

/// A block is stored exactly when its two ancestors are at hand or when it is
/// adopted as a checkpoint, under the bytes of its digest.
pub proof fn law_block_is_stored_under_its_digest(
    core: CoreView,
    input: InputView,
    key: Seq<u8>,
    block: BlockView,
)
    requires
        core.admits(input),
    ensures
        core.step(input).1.effects.contains(EffectView::WriteStore(key, block)) <==> {
            &&& input matches InputView::Digest(digest) && digest.0@ == key
            &&& {
                ||| core.stage == StageView::CheckpointDigest(block)
                ||| core.stage matches StageView::BlockDigest { block: b, .. } && b == block
            }
        },
{
    let effect = EffectView::WriteStore(key, block);
    if core.step(input).1.effects.contains(effect) {
        lemma_reason(core, input, effect);
    }
    if has_reason(core, input, effect) {
        law_owed_effects_are_performed(core, input, effect);
    }
}

/// Our vote goes to the leader of the next round, at its address.
pub proof fn law_votes_go_to_the_next_leader(
    core: CoreView,
    input: InputView,
    address: Address,
    vote: Vote,
)
    requires
        core.admits(input),
    ensures
        core.stage is VoteSigning ==> core.step(input).1.next == NextView::Ask(
            QueryView::Leader((core.round + 1) as Round),
        ),
        core.step(input).1.effects.contains(
            EffectView::Send(address, ConsensusMessageView::Vote(vote)),
        ) <==> {
            &&& core.stage == StageView::NextLeader(vote)
            &&& input matches InputView::Leader(leader) && leader != core.name && address_of(
                core.committee,
                leader,
            ) == Some(address)
        },
{
    let effect = EffectView::Send(address, ConsensusMessageView::Vote(vote));
    if core.step(input).1.effects.contains(effect) {
        lemma_reason(core, input, effect);
    }
    if has_reason(core, input, effect) {
        law_owed_effects_are_performed(core, input, effect);
    }
}

/// What is broadcast is our own timeout or a timeout certificate just assembled,
/// and it goes to all other nodes.
pub proof fn law_broadcasts_go_to_all_others(
    core: CoreView,
    input: InputView,
    addresses: Seq<Address>,
    message: ConsensusMessageView,
)
    requires
        core.admits(input),
    ensures
        core.step(input).1.effects.contains(EffectView::Broadcast(addresses, message)) <==> {
            &&& addresses == other_addresses(core.committee, core.name)
            &&& match (core.stage, input) {
                (StageView::TimeoutSigning, InputView::TimeoutSigned(timeout)) => message
                    == ConsensusMessageView::Timeout(timeout),
                (StageView::TimeoutAggregation, InputView::TimeoutAdded(Ok(Some(tc)))) => message
                    == ConsensusMessageView::TC(tc),
                _ => false,
            }
        },
{
    let effect = EffectView::Broadcast(addresses, message);
    if core.step(input).1.effects.contains(effect) {
        lemma_reason(core, input, effect);
    }
    if has_reason(core, input, effect) {
        law_owed_effects_are_performed(core, input, effect);
    }
}

/// The node orders a block only if it leads its current round, and the order
/// carries its current round, its epoch and its highest certificate.
pub proof fn law_proposals_carry_the_state(
    core: CoreView,
    input: InputView,
    round: Round,
    epoch: EpochNumber,
    qc: QCView,
    tc: Option<TCView>,
)
    requires
        core.admits(input),
        core.step(input).1.effects.contains(
            EffectView::Proposer(ProposerMessageView::Make(round, epoch, qc, tc)),
        ),
    ensures
        input == InputView::Leader(core.name),
        round == core.round,
        epoch == core.current_epoch,
        qc == core.high_qc,
{
    lemma_reason(
        core,
        input,
        EffectView::Proposer(ProposerMessageView::Make(round, epoch, qc, tc)),
    );
}

/// The leader of a round that a quorum led to orders a block, together with the
/// timeout certificate if it was one that led there.
pub proof fn law_leaders_propose(core: CoreView)
    requires
        core.stage is StartupLeader || core.stage is VoteLeader || core.stage is TimeoutLeader
            || core.stage is TCLeader,
    ensures
        core.admits(InputView::Leader(core.name)),
        core.step(InputView::Leader(core.name)).1.effects == seq![
            EffectView::Proposer(
                ProposerMessageView::Make(
                    core.round,
                    core.current_epoch,
                    core.high_qc,
                    match core.stage {
                        StageView::TimeoutLeader(tc) => Some(tc),
                        StageView::TCLeader(tc) => Some(tc),
                        _ => None,
                    },
                ),
            ),
        ],
{
}

/// Whenever the core enters another round in normal operation, the timer starts
/// anew and what was counted for earlier rounds is forgotten.
#[verifier::rlimit(30)]
pub proof fn law_new_rounds_start_afresh(core: CoreView, input: InputView)
    requires
        core.admits(input),
        !adopts_checkpoint(core, input),
        core.step(input).0.round != core.round,
    ensures
        core.step(input).1.effects.contains(EffectView::ResetTimer),
        core.step(input).1.effects.contains(
            EffectView::CleanupAggregator(core.step(input).0.round),
        ),
{
    let (after, reply) = core.step(input);
    let effects = reply.effects;
    let at = if core.stage is TimeoutAggregation {
        0
    } else {
        effects.len() - 2
    };
    assert(0 <= at && at + 1 < effects.len() && effects[at] == EffectView::ResetTimer
        && effects[at + 1] == EffectView::CleanupAggregator(after.round));
    lemma_contains(effects, at, EffectView::ResetTimer);
    lemma_contains(effects, at + 1, EffectView::CleanupAggregator(after.round));
}

} // verus!
