//! The way of a block: proposed, stored, committed and voted for.

use crate::consensus::{ConsensusMessageView, Round};
use crate::config::address_of;
use crate::helper::HelperRequest;
use crate::keys::{Digest, PublicKey};
use crate::laws::commits::{
    commit_inputs, committed, law_commits, law_whole_chain_is_committed,
};
use crate::laws::refusals::quiet;
use crate::laws::{admits_all, reply_at, run};
use crate::messages::{BlockView, TCView, Vote};
use crate::model::{oldest, CoreView};
use crate::proposer::ProposerMessageView;
use crate::protocol::{EffectView, InputView, NextView, QueryView, ReplyView, StageView};
use vstd::prelude::*;

verus! {

/// A proposal is accepted for verification only from the leader of its own round:
/// first its digest is asked for, then the leader of its round, then whether it is
/// valid.
pub proof fn law_proposals_are_checked(
    core: CoreView,
    block: BlockView,
    digest: Digest,
)
    requires
        core.stage is Idle,
    ensures
        ({
            let arrival = InputView::Message(ConsensusMessageView::Propose(block));
            let first = CoreView { stage: StageView::ProposalDigest(block), ..core };
            let second = CoreView { stage: StageView::ProposalLeader(block, digest), ..core };
            let third = CoreView { stage: StageView::ProposalVerification(block), ..core };
            &&& core.admits(arrival)
            &&& core.step(arrival) == (first, quiet(NextView::Ask(QueryView::Digest(block))))
            &&& first.admits(InputView::Digest(digest))
            &&& first.step(InputView::Digest(digest)) == (
                second,
                quiet(NextView::Ask(QueryView::Leader(block.round))),
            )
            &&& second.admits(InputView::Leader(block.author))
            &&& second.step(InputView::Leader(block.author)) == (
                third,
                quiet(NextView::Ask(QueryView::VerifyBlock(block))),
            )
        }),
{
}

/// Both certificates of a valid proposal count. The node is then in a round after
/// those of both certificates, and in none later than it must be; it enters the
/// round after the quorum certificate first, then the one after the timeout
/// certificate. Only the quorum certificate can be kept or mark a checkpoint.
pub proof fn law_both_certificates_count(core: CoreView, block: BlockView, tc: TCView)
    requires
        core.stage == StageView::ProposalVerification(block),
        block.tc == Some(tc),
        block.qc.round < Round::MAX,
        tc.round < Round::MAX,
    ensures
        core.admits(InputView::Verified(Ok(()))),
        ({
            let (after, reply) = core.step(InputView::Verified(Ok(())));
            let qc = block.qc;
            let mark: Seq<EffectView> = if qc.round > 0 && (qc.round + 1) % 5000 == 0 {
                seq![EffectView::Helper(HelperRequest::UpdateCheckpoint(qc.hash))]
            } else {
                seq![]
            };
            let by_qc: Seq<EffectView> = if qc.round >= core.round {
                seq![
                    EffectView::ResetTimer,
                    EffectView::CleanupAggregator((qc.round + 1) as Round),
                ]
            } else {
                seq![]
            };
            let by_tc: Seq<EffectView> = if tc.round >= core.round && tc.round > qc.round {
                seq![
                    EffectView::ResetTimer,
                    EffectView::CleanupAggregator((tc.round + 1) as Round),
                ]
            } else {
                seq![]
            };
            &&& after.round > qc.round && after.round > tc.round && after.round >= core.round
            &&& after.round == core.round || after.round == qc.round + 1 || after.round
                == tc.round + 1
            &&& qc.round > core.high_qc.round ==> after.high_qc == qc
            &&& qc.round <= core.high_qc.round ==> after.high_qc == core.high_qc
            &&& after == (CoreView {
                round: after.round,
                current_epoch: after.current_epoch,
                high_qc: after.high_qc,
                stage: StageView::PayloadVerification(block),
                ..core
            })
            &&& reply.effects == mark + by_qc + by_tc
            &&& reply.next == NextView::Ask(QueryView::VerifyPayload(block))
        }),
{
    let reply = core.step(InputView::Verified(Ok(()))).1;
    assert(reply.effects =~= core.qc_effects(block.qc) + core.with_qc(
        block.qc,
    ).advance_effects(tc.round));
}

/// The payload of a valid proposal is asked for; once it is at hand, the proposal
/// is processed as if it had come back to the node.
pub proof fn law_proposals_with_payload_are_processed(core: CoreView, block: BlockView)
    requires
        core.stage == StageView::PayloadVerification(block),
    ensures
        core.admits(InputView::PayloadVerified(Ok(true))),
        core.step(InputView::PayloadVerified(Ok(true))) == (CoreView {
            stage: StageView::Idle,
            ..core
        }).step(InputView::Loopback(block)),
{
}

/// A valid proposal without a timeout certificate has its payload asked for.
pub proof fn law_payload_is_asked_for(core: CoreView, block: BlockView)
    requires
        core.stage == StageView::ProposalVerification(block),
        block.tc is None,
    ensures
        core.step(InputView::Verified(Ok(()))).0.stage == StageView::PayloadVerification(block),
        core.step(InputView::Verified(Ok(()))).1.next == NextView::Ask(
            QueryView::VerifyPayload(block),
        ),
{
}

/// A block that comes back to the node has its two ancestors asked for, and once
/// they are at hand, its digest.
pub proof fn law_ancestors_are_asked_for(
    core: CoreView,
    block: BlockView,
    b0: BlockView,
    b1: BlockView,
)
    requires
        core.stage is Idle,
    ensures
        ({
            let waiting = CoreView { stage: StageView::AncestorLookup(block), ..core };
            let found = InputView::AncestorsFound(Ok(Some((b0, b1))));
            &&& core.admits(InputView::Loopback(block))
            &&& core.step(InputView::Loopback(block)) == (
                waiting,
                quiet(NextView::Ask(QueryView::Ancestors(block))),
            )
            &&& waiting.admits(found)
            &&& waiting.step(found) == (
                CoreView { stage: StageView::BlockDigest { block, b0, b1 }, ..core },
                quiet(NextView::Ask(QueryView::Digest(block))),
            )
        }),
{
}

/// A block whose ancestors `b0 <- b1 <- block` are at hand is stored under its
/// digest, and the proposer forgets the payloads of all three, before anything
/// else is done. The mempool is told of `b0` exactly if `b1` directly follows it.
/// Then `b0` is committed at once, if the last commit was of the round before it,
/// or its ancestors are looked up, if rounds lie between; else nothing is
/// committed.
pub proof fn law_blocks_are_stored_and_committed(
    core: CoreView,
    block: BlockView,
    b0: BlockView,
    b1: BlockView,
    digest: Digest,
)
    requires
        core.stage == (StageView::BlockDigest { block, b0, b1 }),
        b0.round < Round::MAX,
        (b0.round + 1 == b1.round && b0.round > core.last_committed_round + 1) || (block.round
            == core.round ==> block.qc.round < Round::MAX && (block.tc matches Some(tc)
            ==> tc.round < Round::MAX && tc.votes.len() > 0)),
    ensures
        core.admits(InputView::Digest(digest)),
        ({
            let (after, reply) = core.step(InputView::Digest(digest));
            let store = EffectView::WriteStore(digest.0@, block);
            let forget = EffectView::Proposer(
                ProposerMessageView::Cleanup(b0.payload + b1.payload + block.payload),
            );
            let announce = EffectView::CleanupMempool(b0.round);
            let last = core.last_committed_round;
            if b0.round + 1 != b1.round {
                &&& reply.effects == seq![store, forget]
                &&& after.last_committed_round == last
            } else if b0.round <= last {
                &&& reply.effects == seq![store, forget, announce]
                &&& after.last_committed_round == last
            } else if b0.round == last + 1 {
                &&& reply.effects == seq![store, forget, announce, EffectView::Commit(b0)]
                &&& after.last_committed_round == b0.round
            } else {
                &&& reply.effects == seq![store, forget, announce]
                &&& reply.next == NextView::Ask(QueryView::Parent(b0))
                &&& after == (CoreView {
                    stage: StageView::ParentLookup { block, head: b0, ancestors: seq![] },
                    ..core
                })
            }
        }),
{
    let reply = core.step(InputView::Digest(digest)).1;
    let effects = reply.effects;
    assert(Seq::<BlockView>::empty().push(b0) =~= seq![b0]);
    if b0.round + 1 == b1.round && b0.round == core.last_committed_round + 1 {
        assert(effects =~= seq![
            EffectView::WriteStore(digest.0@, block),
            EffectView::Proposer(
                ProposerMessageView::Cleanup(b0.payload + b1.payload + block.payload),
            ),
            EffectView::CleanupMempool(b0.round),
            EffectView::Commit(b0),
        ]);
    }
}

/// As long as the ancestors found are of rounds that do not directly follow the
/// last committed one, the lookup goes on with the parent of the one found, and
/// nothing is committed.
pub proof fn law_lookup_goes_on(
    core: CoreView,
    block: BlockView,
    head: BlockView,
    ancestors: Seq<BlockView>,
    parent: BlockView,
)
    requires
        core.stage == (StageView::ParentLookup { block, head, ancestors }),
        parent.round > core.last_committed_round + 1,
    ensures
        core.admits(InputView::ParentFound(Ok(Some(parent)))),
        core.step(InputView::ParentFound(Ok(Some(parent)))) == (
            CoreView {
                stage: StageView::ParentLookup { block, head, ancestors: ancestors.push(parent) },
                ..core
            },
            quiet(NextView::Ask(QueryView::Parent(parent))),
        ),
{
}

/// The lookup that completes a chain commits all of it at once: every ancestor
/// looked up before, in the order of the lookups, then the last one found unless it
/// was committed already, then the head. Nothing else is done, and the head's round
/// is then the last committed one.
pub proof fn law_complete_chains_are_committed(
    core: CoreView,
    block: BlockView,
    head: BlockView,
    ancestors: Seq<BlockView>,
    parent: BlockView,
)
    requires
        core.stage == (StageView::ParentLookup { block, head, ancestors }),
        parent.round <= core.last_committed_round + 1,
        block.round == core.round ==> block.qc.round < Round::MAX && (block.tc matches Some(tc)
            ==> tc.round < Round::MAX && tc.votes.len() > 0),
    ensures
        core.admits(InputView::ParentFound(Ok(Some(parent)))),
        ({
            let (after, reply) = core.step(InputView::ParentFound(Ok(Some(parent))));
            let effects = reply.effects;
            let n = ancestors.len() as int;
            &&& forall|i: int|
                0 <= i < n ==> #[trigger] effects[i] == EffectView::Commit(ancestors[i])
            &&& parent.round > core.last_committed_round ==> effects.len() == n + 2 && effects[n]
                == EffectView::Commit(parent)
            &&& parent.round <= core.last_committed_round ==> effects.len() == n + 1
            &&& effects.last() == EffectView::Commit(head)
            &&& after.last_committed_round == head.round
        }),
{
}

/// No ancestor is lost, as after a change of view: every ancestor of a round after
/// the last committed one is handed to the application by the step that completes
/// the chain, and so is the head; and nothing but these.
pub proof fn law_no_ancestor_is_lost(
    core: CoreView,
    block: BlockView,
    head: BlockView,
    ancestors: Seq<BlockView>,
    parent: BlockView,
    b: BlockView,
)
    requires
        core.wf(),
        core.stage == (StageView::ParentLookup { block, head, ancestors }),
        core.admits(InputView::ParentFound(Ok(Some(parent)))),
        parent.round <= core.last_committed_round + 1,
    ensures
        ({
            let effects = core.step(InputView::ParentFound(Ok(Some(parent)))).1.effects;
            effects.contains(EffectView::Commit(b)) <==> b == head || (ancestors.push(
                parent,
            ).contains(b) && b.round > core.last_committed_round)
        }),
{
    let effects = core.step(InputView::ParentFound(Ok(Some(parent)))).1.effects;
    let known = ancestors.push(parent);
    let commit = EffectView::Commit(b);
    law_complete_chains_are_committed(core, block, head, ancestors, parent);
    if effects.contains(commit) {
        let i = choose|i: int| 0 <= i < effects.len() && effects[i] == commit;
        if i < ancestors.len() {
            assert(known[i] == b);
        } else if i < effects.len() - 1 {
            assert(known[ancestors.len() as int] == b);
        }
    }
    if b == head {
        assert(effects[effects.len() - 1] == commit);
    }
    if known.contains(b) && b.round > core.last_committed_round {
        let i = choose|i: int| 0 <= i < known.len() && known[i] == b;
        assert(effects[i] == commit);
    }
}

/// A chain of two commits its head with every ancestor back to the last committed
/// round, none left out and none twice: over the whole run of lookups, what is
/// committed is the ancestors in the order of the lookups, without the last if it
/// was committed before, then the head.
pub proof fn law_chains_are_committed_without_gaps(
    core: CoreView,
    block: BlockView,
    b0: BlockView,
    b1: BlockView,
    digest: Digest,
    parents: Seq<BlockView>,
)
    requires
        core.wf(),
        core.stage == (StageView::BlockDigest { block, b0, b1 }),
        b0.round < Round::MAX,
        b0.round + 1 == b1.round,
        block.round == core.round ==> block.qc.round < Round::MAX && (block.tc matches Some(tc)
            ==> tc.round < Round::MAX && tc.votes.len() > 0),
        parents.len() > 0,
        b0.round > core.last_committed_round + 1,
        forall|i: int|
            0 <= i < parents.len() - 1 ==> (#[trigger] parents[i]).round
                > core.last_committed_round + 1,
        parents.last().round <= core.last_committed_round + 1,
    ensures
        ({
            let inputs = seq![InputView::Digest(digest)] + parents.map_values(
                |parent: BlockView| InputView::ParentFound(Ok(Some(parent))),
            );
            let blocks = committed(reply_at(core, inputs, parents.len() as int).effects);
            &&& admits_all(core, inputs)
            &&& forall|i: int|
                0 <= i < parents.len() ==> committed(
                    (#[trigger] reply_at(core, inputs, i)).effects,
                ).len() == 0
            &&& parents.last().round > core.last_committed_round ==> blocks == parents.push(b0)
            &&& parents.last().round <= core.last_committed_round ==> blocks
                == parents.drop_last().push(b0)
            &&& run(core, inputs).last_committed_round == b0.round
        }),
{
    assert forall|i: int| 0 <= i < parents.len() implies core.last_committed_round + 1 < oldest(
        b0,
        #[trigger] parents.take(i),
    ).round by {
        if i > 0 {
            assert(parents.take(i).last() == parents[i - 1]);
        }
    }
    law_whole_chain_is_committed(core, block, b0, b1, digest, parents);
    assert(commit_inputs(digest, parents) == seq![InputView::Digest(digest)]
        + parents.map_values(|parent: BlockView| InputView::ParentFound(Ok(Some(parent)))));
}

/// Blocks are committed only as the head of a chain of two, or as an ancestor of
/// such a head.
pub proof fn law_only_chains_are_committed(core: CoreView, input: InputView, b: BlockView)
    requires
        core.wf(),
        core.admits(input),
        committed(core.step(input).1.effects).contains(b),
    ensures
        match core.stage {
            StageView::BlockDigest { block, b0, b1 } => b == b0 && b0.round + 1 == b1.round,
            StageView::ParentLookup { block, head, ancestors } => {
                ||| b == head
                ||| ancestors.contains(b)
                ||| input == InputView::ParentFound(Ok(Some(b)))
            },
            _ => false,
        },
{
    law_commits(core, input);
    if let StageView::ParentLookup { block, head, ancestors } = core.stage {
        if let InputView::ParentFound(Ok(Some(parent))) = input {
            let blocks = committed(core.step(input).1.effects);
            let i = choose|i: int| 0 <= i < blocks.len() && blocks[i] == b;
            if i < ancestors.len() {
                assert(ancestors[i] == b || b == head);
            }
        }
    }
}

/// A vote is cast only for a block of the current round, if none of this round or a
/// later one was voted for. The block must directly follow the block certified by
/// its quorum certificate; or it must directly follow the round given up by its
/// timeout certificate, and then no signer of that may have known a quorum
/// certificate of a higher round than the block's own.
pub proof fn law_votes_are_safe(core: CoreView, input: InputView, block: BlockView)
    requires
        core.admits(input),
        core.step(input).1.next matches NextView::Ask(QueryView::SignVote(b, _)) && b == block,
    ensures
        block.round == core.round,
        block.round > core.last_voted_round,
        block.qc.round + 1 == block.round || match block.tc {
            Some(tc) => {
                &&& tc.round + 1 == block.round
                &&& forall|i: int|
                    0 <= i < tc.votes.len() ==> (#[trigger] tc.votes[i]).2 <= block.qc.round
            },
            None => false,
        },
        core.step(input).0 == (CoreView {
            last_voted_round: block.round,
            last_committed_round: core.step(input).0.last_committed_round,
            stage: StageView::VoteSigning(block),
            ..core
        }),
        core.step(input).1.next == NextView::Ask(QueryView::SignVote(block, core.name)),
{
    if block.qc.round + 1 != block.round {
        let tc = block.tc->0;
        assert forall|i: int| 0 <= i < tc.votes.len() implies (#[trigger] tc.votes[i]).2
            <= block.qc.round by {
            assert(tc.high_qc_rounds()[i] == tc.votes[i].2);
        }
    }
}

/// A block that is stored, with what it commits committed, is voted for if it is of
/// the current round, none of this round was voted for, and it directly follows its
/// quorum certificate, or its timeout certificate on top of a quorum certificate as
/// high as any that the signers knew. Else the node votes for nothing, and is done.
pub proof fn law_votes_are_owed(core: CoreView, input: InputView, block: BlockView)
    requires
        core.admits(input),
        match core.stage {
            StageView::BlockDigest { block: b, b0, b1 } => {
                b == block && input is Digest && !(b0.round + 1 == b1.round && b0.round
                    > core.last_committed_round + 1)
            },
            StageView::ParentLookup { block: b, .. } => {
                b == block && (input matches InputView::ParentFound(Ok(Some(parent)))
                    && parent.round <= core.last_committed_round + 1)
            },
            _ => false,
        },
    ensures
        ({
            let (after, reply) = core.step(input);
            let on_tc = match block.tc {
                Some(tc) => {
                    &&& tc.round + 1 == block.round
                    &&& forall|i: int|
                        0 <= i < tc.votes.len() ==> (#[trigger] tc.votes[i]).2 <= block.qc.round
                },
                None => false,
            };
            if block.round == core.round && block.round > core.last_voted_round && (block.qc.round
                + 1 == block.round || on_tc) {
                &&& reply.next == NextView::Ask(QueryView::SignVote(block, core.name))
                &&& after == (CoreView {
                    last_voted_round: block.round,
                    last_committed_round: after.last_committed_round,
                    stage: StageView::VoteSigning(block),
                    ..core
                })
            } else {
                &&& reply.next == NextView::Done(Ok(()))
                &&& after == (CoreView {
                    last_committed_round: after.last_committed_round,
                    stage: StageView::Idle,
                    ..core
                })
            }
        }),
{
    if let Some(tc) = block.tc {
        assert(tc.high_qc_rounds().len() == tc.votes.len());
        assert forall|i: int| 0 <= i < tc.votes.len() implies tc.high_qc_rounds()[i] == (
        #[trigger] tc.votes[i]).2 by {}
        if forall|i: int|
            0 <= i < tc.votes.len() ==> (#[trigger] tc.votes[i]).2 <= block.qc.round {
            assert forall|i: int| 0 <= i < tc.high_qc_rounds().len() implies (
            #[trigger] tc.high_qc_rounds()[i]) <= block.qc.round by {
                assert(tc.votes[i].2 <= block.qc.round);
            }
        }
    }
}

/// A signed vote goes to the leader of the next round, who is asked for first. If
/// that is the node itself, it handles its vote as if another node had sent it;
/// else it sends the vote to the address of the leader, and is done.
pub proof fn law_votes_reach_the_next_leader(
    core: CoreView,
    block: BlockView,
    vote: Vote,
    leader: PublicKey,
)
    requires
        core.stage == StageView::VoteSigning(block),
        core.round < Round::MAX,
        leader == core.name || address_of(core.committee, leader) is Some,
    ensures
        ({
            let signed = CoreView { stage: StageView::NextLeader(vote), ..core };
            let idle = CoreView { stage: StageView::Idle, ..core };
            &&& core.admits(InputView::VoteSigned(vote))
            &&& core.step(InputView::VoteSigned(vote)) == (
                signed,
                quiet(NextView::Ask(QueryView::Leader((core.round + 1) as Round))),
            )
            &&& signed.admits(InputView::Leader(leader))
            &&& leader == core.name ==> signed.step(InputView::Leader(leader)) == idle.step(
                InputView::Message(ConsensusMessageView::Vote(vote)),
            )
            &&& leader != core.name ==> signed.step(InputView::Leader(leader)) == (
                idle,
                ReplyView {
                    effects: seq![
                        EffectView::Send(
                            address_of(core.committee, leader)->0,
                            ConsensusMessageView::Vote(vote),
                        ),
                    ],
                    next: NextView::Done(Ok(())),
                },
            )
        }),
{
}

/// A timeout certificate tells of each signer the round of the highest quorum
/// certificate that the signer knew, in the order of the signatures.
pub proof fn law_signers_tell_their_rounds(tc: TCView, i: int)
    requires
        0 <= i < tc.votes.len(),
    ensures
        tc.high_qc_rounds().len() == tc.votes.len(),
        tc.high_qc_rounds()[i] == tc.votes[i].2,
{
}

} // verus!
