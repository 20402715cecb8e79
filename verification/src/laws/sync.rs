//! Starting from a checkpoint.

use crate::config::others;
use crate::consensus::{ConsensusMessageView, CoreStartMode, Round};
use crate::error::ConsensusError;
use crate::keys::Digest;
use crate::laws::members::{law_first_peer, law_no_peers};
use crate::laws::refusals::quiet;
use crate::laws::{admits_all, lemma_short_run, lemma_step, reply_at, run};
use crate::messages::BlockView;
use crate::model::CoreView;
use crate::protocol::{EffectView, InputView, NextView, QueryView, ReplyView, StageView};
use vstd::prelude::*;

verus! {

/// The reply with which normal operation begins, once the given effects are
/// performed.
pub open spec fn beginning(core: CoreView, effects: Seq<EffectView>) -> ReplyView {
    ReplyView {
        effects: effects.push(EffectView::ResetTimer),
        next: NextView::Ask(QueryView::Leader(core.round)),
    }
}

/// A node that is not to start from a checkpoint, or is not able to, or has no
/// peer to ask for one, begins at genesis.
pub proof fn law_start_at_genesis(core: CoreView, mode: CoreStartMode)
    requires
        core.wf(),
        core.stage is New,
        mode is Genesis || !core.fast_sync || others(
            core.committee,
            core.name,
        ).len() == 0,
    ensures
        core.admits(InputView::Start(mode)),
        core.step(InputView::Start(mode)) == (
            CoreView { stage: StageView::StartupLeader, ..core },
            beginning(core, Seq::empty()),
        ),
        core.step(InputView::Start(mode)).0.at_genesis(),
{
}

/// A node that gets no checkpoint begins at genesis.
pub proof fn law_abandoned_sync_begins_at_genesis(core: CoreView)
    requires
        core.wf(),
        core.stage is Syncing,
    ensures
        core.admits(InputView::SyncAbandoned),
        core.step(InputView::SyncAbandoned) == (
            CoreView { stage: StageView::StartupLeader, ..core },
            beginning(core, Seq::empty()),
        ),
        core.step(InputView::SyncAbandoned).0.at_genesis(),
{
}

/// Whatever else arrives while a checkpoint is awaited changes nothing.
pub proof fn law_sync_waits_for_a_checkpoint(core: CoreView, message: ConsensusMessageView)
    requires
        core.stage is Syncing,
        !(message matches ConsensusMessageView::SyncCheckpointResponse(Some(_))),
    ensures
        core.admits(InputView::Message(message)),
        core.step(InputView::Message(message)) == (core, quiet(NextView::AwaitCheckpoint)),
{
}

/// A checkpoint that fails its verification changes nothing: another one is
/// awaited.
pub proof fn law_invalid_checkpoint_is_ignored(
    core: CoreView,
    block: BlockView,
    e: ConsensusError,
)
    requires
        core.stage is Syncing,
    ensures
        ({
            let inputs = seq![
                InputView::Message(ConsensusMessageView::SyncCheckpointResponse(Some(block))),
                InputView::Verified(Err(e)),
            ];
            &&& admits_all(core, inputs)
            &&& run(core, inputs) == core
            &&& reply_at(core, inputs, 0) == quiet(NextView::Ask(QueryView::VerifyBlock(block)))
            &&& reply_at(core, inputs, 1) == quiet(NextView::AwaitCheckpoint)
        }),
{
    let inputs = seq![
        InputView::Message(ConsensusMessageView::SyncCheckpointResponse(Some(block))),
        InputView::Verified(Err(e)),
    ];
    let first = CoreView { stage: StageView::CheckpointVerification(block), ..core };
    let replies = seq![
        quiet(NextView::Ask(QueryView::VerifyBlock(block))),
        quiet(NextView::AwaitCheckpoint),
    ];
    lemma_step(core, inputs[0], first, replies[0]);
    lemma_step(first, inputs[1], core, replies[1]);
    lemma_short_run(core, inputs, seq![core, first, core], replies);
}

/// A node that adopts a checkpoint stores it and goes on in the round after it,
/// in its epoch and with its certificate, and votes for no block up to its round.
pub proof fn law_checkpoint_is_adopted(core: CoreView, block: BlockView, digest: Digest)
    requires
        core.stage is Syncing,
        block.round < Round::MAX,
    ensures
        ({
            let inputs = seq![
                InputView::Message(ConsensusMessageView::SyncCheckpointResponse(Some(block))),
                InputView::Verified(Ok(())),
                InputView::Digest(digest),
            ];
            let after = run(core, inputs);
            &&& admits_all(core, inputs)
            &&& after.round == block.round + 1
            &&& after.current_epoch == block.epoch
            &&& after.high_qc == block.qc
            &&& after.last_voted_round == block.round
            &&& after.last_committed_round == block.qc.round
            &&& reply_at(core, inputs, 2) == beginning(
                after,
                seq![EffectView::WriteStore(digest.0@, block)],
            )
        }),
{
    let inputs = seq![
        InputView::Message(ConsensusMessageView::SyncCheckpointResponse(Some(block))),
        InputView::Verified(Ok(())),
        InputView::Digest(digest),
    ];
    let first = CoreView { stage: StageView::CheckpointVerification(block), ..core };
    let second = CoreView {
        stage: StageView::CheckpointDigest(block),
        ..core.adopted(block)
    };
    let third = CoreView { stage: StageView::StartupLeader, ..second };
    let replies = seq![
        quiet(NextView::Ask(QueryView::VerifyBlock(block))),
        quiet(NextView::Ask(QueryView::Digest(block))),
        beginning(third, seq![EffectView::WriteStore(digest.0@, block)]),
    ];
    lemma_step(core, inputs[0], first, replies[0]);
    lemma_step(first, inputs[1], second, replies[1]);
    lemma_step(second, inputs[2], third, replies[2]);
    lemma_short_run(core, inputs, seq![core, first, second, third], replies);
}

/// A node that is to start from a checkpoint, and is able to, asks the first member
/// with another name for one, in its own name, and waits. Its state is unchanged.
pub proof fn law_first_peer_is_asked(core: CoreView, i: int)
    requires
        core.stage is New,
        core.fast_sync,
        0 <= i < core.committee.len(),
        core.committee[i].name != core.name,
        forall|j: int| 0 <= j < i ==> (#[trigger] core.committee[j]).name == core.name,
    ensures
        core.admits(InputView::Start(CoreStartMode::FastSync)),
        core.step(InputView::Start(CoreStartMode::FastSync)) == (
            CoreView { stage: StageView::Syncing, ..core },
            ReplyView {
                effects: seq![
                    EffectView::Send(
                        core.committee[i].address,
                        ConsensusMessageView::SyncCheckpointRequest(core.name),
                    ),
                ],
                next: NextView::AwaitCheckpoint,
            },
        ),
{
    law_first_peer(core.committee, core.name, i);
}

/// A node that is not to start from a checkpoint, or is not able to, or is the only
/// member, starts its timer and asks who leads its round. Its state is unchanged.
pub proof fn law_normal_operation_begins(core: CoreView, input: InputView)
    requires
        match core.stage {
            StageView::New => {
                ||| input == InputView::Start(CoreStartMode::Genesis)
                ||| input is Start && !core.fast_sync
                ||| input is Start && forall|i: int|
                    0 <= i < core.committee.len() ==> (#[trigger] core.committee[i]).name
                        == core.name
            },
            StageView::Syncing => input is SyncAbandoned,
            _ => false,
        },
    ensures
        core.admits(input),
        core.step(input) == (
            CoreView { stage: StageView::StartupLeader, ..core },
            ReplyView {
                effects: seq![EffectView::ResetTimer],
                next: NextView::Ask(QueryView::Leader(core.round)),
            },
        ),
{
    assert(Seq::<EffectView>::empty().push(EffectView::ResetTimer) =~= seq![
        EffectView::ResetTimer,
    ]);
    if core.stage is New && input is Start && forall|i: int|
        0 <= i < core.committee.len() ==> (#[trigger] core.committee[i]).name == core.name {
        law_no_peers(core.committee, core.name);
    }
}

/// While a node waits for a checkpoint, one that arrives is verified. If it is
/// valid, the node takes over its epoch and its certificate, goes on in the round
/// after it, votes for no block up to its round, and holds what its certificate is
/// for to be committed. It then stores the checkpoint under its digest, starts its
/// timer and asks who leads its round.
pub proof fn law_checkpoints_are_taken_over(core: CoreView, block: BlockView, digest: Digest)
    requires
        core.stage is Syncing,
        block.round < Round::MAX,
    ensures
        ({
            let arrival = InputView::Message(
                ConsensusMessageView::SyncCheckpointResponse(Some(block)),
            );
            let waiting = CoreView { stage: StageView::CheckpointVerification(block), ..core };
            let (adopted, reply) = waiting.step(InputView::Verified(Ok(())));
            let (started, answer) = adopted.step(InputView::Digest(digest));
            &&& core.admits(arrival)
            &&& core.step(arrival) == (waiting, quiet(NextView::Ask(QueryView::VerifyBlock(block))))
            &&& waiting.admits(InputView::Verified(Ok(())))
            &&& adopted.round == block.round + 1
            &&& adopted.current_epoch == block.epoch
            &&& adopted.high_qc == block.qc
            &&& adopted.last_voted_round == block.round
            &&& adopted.last_committed_round == block.qc.round
            &&& reply == quiet(NextView::Ask(QueryView::Digest(block)))
            &&& adopted.admits(InputView::Digest(digest))
            &&& started == (CoreView { stage: StageView::StartupLeader, ..adopted })
            &&& answer == (ReplyView {
                effects: seq![
                    EffectView::WriteStore(digest.0@, block),
                    EffectView::ResetTimer,
                ],
                next: NextView::Ask(QueryView::Leader(adopted.round)),
            })
        }),
{
    assert(seq![EffectView::WriteStore(digest.0@, block)].push(EffectView::ResetTimer) =~= seq![
        EffectView::WriteStore(digest.0@, block),
        EffectView::ResetTimer,
    ]);
}

/// A node that knows nothing but genesis is in round 1 of epoch 1; it has voted for
/// nothing and committed nothing, and its certificate is the one that nobody signed,
/// for round 0.
pub proof fn law_genesis(core: CoreView)
    requires
        core.at_genesis(),
    ensures
        core.round == 1,
        core.current_epoch == 1,
        core.last_voted_round == 0,
        core.last_committed_round == 0,
        core.high_qc.round == 0,
        core.high_qc.votes.len() == 0,
        core.high_qc.hash.0@.len() == 32,
        forall|i: int| 0 <= i < 32 ==> #[trigger] core.high_qc.hash.0@[i] == 0,
{
}

} // verus!
