//! The behaviour of the core as a function from its state and an input to its
//! next state and its reply.

use crate::config::{address_of, other_addresses, others, Authority, EpochNumber};
use crate::consensus::{ConsensusMessageView, CoreStartMode, Round};
use crate::error::ConsensusError;
use crate::helper::HelperRequest;
use crate::keys::{Digest, PublicKey};
use crate::messages::{BlockView, QCView, TCView, TimeoutView, Vote};
use crate::proposer::ProposerMessageView;
use crate::protocol::{EffectView, InputView, NextView, QueryView, ReplyView, StageView};
use vstd::prelude::*;

verus! {

/// The number of rounds of an epoch.
pub const ROUNDS_PER_EPOCH: Round = 5000;

/// Whether an epoch begins with the given round.
pub open spec fn begins_epoch(round: int) -> bool {
    round % ROUNDS_PER_EPOCH as int == 0
}

/// The epoch that the given round belongs to, where epoch `e` consists of the
/// rounds from `(e - 1) * ROUNDS_PER_EPOCH` up to `e * ROUNDS_PER_EPOCH - 1`.
pub open spec fn epoch_of(round: int) -> int {
    round / ROUNDS_PER_EPOCH as int + 1
}

/// Whether a certificate is for the last round of an epoch, so that the block
/// it certifies is the checkpoint of that epoch.
pub open spec fn certifies_checkpoint(qc: QCView) -> bool {
    qc.round > 0 && begins_epoch(qc.round + 1)
}

/// Whether a block directly follows the block that its certificate is for.
pub open spec fn extends_qc(block: BlockView) -> bool {
    block.qc.round + 1 == block.round
}

/// Whether a block directly follows the round that its timeout certificate
/// gave up, on top of a certificate no older than any that the signers knew.
pub open spec fn extends_tc(block: BlockView) -> bool {
    &&& block.tc matches Some(tc)
    &&& tc.round + 1 == block.round
    &&& forall|i: int|
        0 <= i < tc.high_qc_rounds().len() ==> #[trigger] tc.high_qc_rounds()[i]
            <= block.qc.round
}

/// The effects that hand the blocks to the application, in their order.
pub open spec fn commit_effects(blocks: Seq<BlockView>) -> Seq<EffectView> {
    blocks.map_values(|block: BlockView| EffectView::Commit(block))
}

/// The state of the core.
pub struct CoreView {
    /// Our own name.
    pub name: PublicKey,
    pub committee: Seq<Authority>,
    /// Whether the node is able to start from a checkpoint.
    pub fast_sync: bool,
    /// The current round.
    pub round: Round,
    /// No block of this round or of an earlier one is voted for any more.
    pub last_voted_round: Round,
    /// The round of the last committed block.
    pub last_committed_round: Round,
    pub current_epoch: EpochNumber,
    /// The certificate with the highest round known.
    pub high_qc: QCView,
    pub stage: StageView,
}

// What holds of the state.
impl CoreView {
    /// The state in which a node begins that knows nothing but genesis.
    pub open spec fn at_genesis(self) -> bool {
        &&& self.round == 1
        &&& self.last_voted_round == 0
        &&& self.last_committed_round == 0
        &&& self.current_epoch == 1
        &&& self.high_qc.is_genesis()
    }

    /// What every operation keeps.
    pub open spec fn wf(self) -> bool {
        &&& self.round >= 1
        &&& self.last_voted_round <= self.round
        &&& match self.stage {
            StageView::New
            | StageView::Syncing
            | StageView::CheckpointVerification(_) => self.at_genesis(),
            StageView::TimeoutSigning => self.last_voted_round == self.round,
            StageView::VoteSigning(block) => {
                &&& block.round == self.round
                &&& self.last_voted_round == self.round
            },
            StageView::ParentLookup { block, head, ancestors } => {
                &&& self.last_committed_round < head.round
                &&& self.last_committed_round + 1 < oldest(head, ancestors).round
                &&& forall|i: int|
                    0 <= i < ancestors.len() ==> self.last_committed_round + 1
                        < (#[trigger] ancestors[i]).round
            },
            _ => true,
        }
    }
}

// Parts of a transition.
impl CoreView {
    /// The state reached once the given effects are performed and the question
    /// is put.
    pub open spec fn ask(
        self,
        effects: Seq<EffectView>,
        stage: StageView,
        query: QueryView,
    ) -> (CoreView, ReplyView) {
        (CoreView { stage, ..self }, ReplyView { effects, next: NextView::Ask(query) })
    }

    /// The state reached once the given effects are performed and the input is
    /// dealt with.
    pub open spec fn done(
        self,
        effects: Seq<EffectView>,
        result: Result<(), ConsensusError>,
    ) -> (CoreView, ReplyView) {
        (
            CoreView { stage: StageView::Idle, ..self },
            ReplyView { effects, next: NextView::Done(result) },
        )
    }

    /// The state in which a checkpoint is awaited.
    pub open spec fn await_checkpoint(self, effects: Seq<EffectView>) -> (CoreView, ReplyView) {
        (
            CoreView { stage: StageView::Syncing, ..self },
            ReplyView { effects, next: NextView::AwaitCheckpoint },
        )
    }

    /// The state after the given round is completed. A round already left
    /// behind changes nothing. The epoch changes where the next round belongs to
    /// another epoch than the current one.
    pub open spec fn advanced(self, round: Round) -> CoreView {
        if round < self.round {
            self
        } else {
            CoreView {
                round: (round + 1) as Round,
                current_epoch: if epoch_of(round + 1) != epoch_of(self.round as int) {
                    epoch_of(round + 1) as EpochNumber
                } else {
                    self.current_epoch
                },
                ..self
            }
        }
    }

    pub open spec fn advance_effects(self, round: Round) -> Seq<EffectView> {
        if round < self.round {
            Seq::empty()
        } else {
            seq![EffectView::ResetTimer, EffectView::CleanupAggregator((round + 1) as Round)]
        }
    }

    /// The state after a certificate is processed: its round is completed, and
    /// it becomes the highest one if its round is higher.
    pub open spec fn with_qc(self, qc: QCView) -> CoreView {
        CoreView {
            high_qc: if qc.round > self.high_qc.round {
                qc
            } else {
                self.high_qc
            },
            ..self.advanced(qc.round)
        }
    }

    pub open spec fn qc_effects(self, qc: QCView) -> Seq<EffectView> {
        let checkpoint: Seq<EffectView> = if certifies_checkpoint(qc) {
            seq![EffectView::Helper(HelperRequest::UpdateCheckpoint(qc.hash))]
        } else {
            Seq::empty()
        };
        checkpoint + self.advance_effects(qc.round)
    }

    /// The state after the certificates of a proposal are processed.
    pub open spec fn with_certificates(self, block: BlockView) -> CoreView {
        let core = self.with_qc(block.qc);
        match block.tc {
            Some(tc) => core.advanced(tc.round),
            None => core,
        }
    }

    pub open spec fn certificate_effects(self, block: BlockView) -> Seq<EffectView> {
        let effects = self.qc_effects(block.qc);
        match block.tc {
            Some(tc) => effects + self.with_qc(block.qc).advance_effects(tc.round),
            None => effects,
        }
    }

    /// The order for a new block, if the given leader is us.
    pub open spec fn proposal(self, leader: PublicKey, tc: Option<TCView>) -> Seq<EffectView> {
        if leader == self.name {
            seq![
                EffectView::Proposer(
                    ProposerMessageView::Make(self.round, self.current_epoch, self.high_qc, tc),
                ),
            ]
        } else {
            Seq::empty()
        }
    }

    /// The effect that sends a message to all other nodes.
    pub open spec fn broadcast(self, message: ConsensusMessageView) -> EffectView {
        EffectView::Broadcast(other_addresses(self.committee, self.name), message)
    }

    /// Whether the core may vote for a block: no block of its round or a later
    /// one was voted for, and it extends the certificates as it must.
    pub open spec fn may_vote(self, block: BlockView) -> bool {
        &&& block.round > self.last_voted_round
        &&& extends_qc(block) || extends_tc(block)
    }

    /// The state initialised from a checkpoint: the node goes on in the round
    /// after the checkpoint, as if it had voted for it.
    pub open spec fn adopted(self, checkpoint: BlockView) -> CoreView {
        CoreView {
            round: (checkpoint.round + 1) as Round,
            last_voted_round: checkpoint.round,
            last_committed_round: checkpoint.qc.round,
            current_epoch: checkpoint.epoch,
            high_qc: checkpoint.qc,
            ..self
        }
    }
}

// The handlers. Each takes the effects that come before its own.
impl CoreView {
    pub open spec fn start(self, mode: CoreStartMode) -> (CoreView, ReplyView) {
        let peers = others(self.committee, self.name);
        if self.fast_sync && mode is FastSync && peers.len() > 0 {
            self.await_checkpoint(
                seq![
                    EffectView::Send(
                        peers[0].address,
                        ConsensusMessageView::SyncCheckpointRequest(self.name),
                    ),
                ],
            )
        } else {
            self.begin(Seq::empty())
        }
    }

    /// Normal operation begins with the current state.
    pub open spec fn begin(self, effects: Seq<EffectView>) -> (CoreView, ReplyView) {
        self.ask(
            effects.push(EffectView::ResetTimer),
            StageView::StartupLeader,
            QueryView::Leader(self.round),
        )
    }

    pub open spec fn handle_message(self, message: ConsensusMessageView) -> (CoreView, ReplyView) {
        match message {
            ConsensusMessageView::Propose(block) => self.ask(
                Seq::empty(),
                StageView::ProposalDigest(block),
                QueryView::Digest(block),
            ),
            ConsensusMessageView::Vote(vote) => self.handle_vote(vote),
            ConsensusMessageView::Timeout(timeout) => self.handle_timeout(Seq::empty(), timeout),
            ConsensusMessageView::TC(tc) => self.ask(
                Seq::empty(),
                StageView::TCVerification(tc),
                QueryView::VerifyTC(tc),
            ),
            _ => self.done(Seq::empty(), Ok(())),
        }
    }

    /// Votes for rounds left behind are ignored.
    pub open spec fn handle_vote(self, vote: Vote) -> (CoreView, ReplyView) {
        if vote.round < self.round {
            self.done(Seq::empty(), Ok(()))
        } else {
            self.ask(
                Seq::empty(),
                StageView::VoteVerification(vote),
                QueryView::VerifyVote(vote),
            )
        }
    }

    /// Timeouts for rounds left behind are ignored.
    pub open spec fn handle_timeout(
        self,
        effects: Seq<EffectView>,
        timeout: TimeoutView,
    ) -> (CoreView, ReplyView) {
        if timeout.round < self.round {
            self.done(effects, Ok(()))
        } else {
            self.ask(
                effects,
                StageView::TimeoutVerification(timeout),
                QueryView::VerifyTimeout(timeout),
            )
        }
    }

    /// The round timer ran out: from now on no block of the round is voted for.
    pub open spec fn local_timeout(self) -> (CoreView, ReplyView) {
        CoreView {
            last_voted_round: if self.last_voted_round < self.round {
                self.round
            } else {
                self.last_voted_round
            },
            ..self
        }.ask(
            Seq::empty(),
            StageView::TimeoutSigning,
            QueryView::SignTimeout(self.high_qc, self.round, self.name),
        )
    }

    /// A timeout certificate that was just assembled completes its round and is
    /// passed on.
    pub open spec fn tc_assembled(self, tc: TCView) -> (CoreView, ReplyView) {
        let core = self.advanced(tc.round);
        core.ask(
            self.advance_effects(tc.round).push(self.broadcast(ConsensusMessageView::TC(tc))),
            StageView::TimeoutLeader(tc),
            QueryView::Leader(core.round),
        )
    }

    /// Verified timeout certificates for rounds left behind are ignored.
    pub open spec fn tc_verified(self, tc: TCView) -> (CoreView, ReplyView) {
        if tc.round < self.round {
            self.done(Seq::empty(), Ok(()))
        } else {
            let core = self.advanced(tc.round);
            core.ask(
                self.advance_effects(tc.round),
                StageView::TCLeader(tc),
                QueryView::Leader(core.round),
            )
        }
    }

    /// Only the leader of its round may propose a block.
    pub open spec fn proposal_leader(
        self,
        block: BlockView,
        digest: Digest,
        leader: PublicKey,
    ) -> (CoreView, ReplyView) {
        if block.author == leader {
            self.ask(
                Seq::empty(),
                StageView::ProposalVerification(block),
                QueryView::VerifyBlock(block),
            )
        } else {
            self.done(
                Seq::empty(),
                Err(
                    ConsensusError::WrongLeader {
                        digest,
                        leader: block.author,
                        round: block.round,
                    },
                ),
            )
        }
    }

    pub open spec fn process_block(self, block: BlockView) -> (CoreView, ReplyView) {
        self.ask(Seq::empty(), StageView::AncestorLookup(block), QueryView::Ancestors(block))
    }

    /// A block whose ancestors `b0 <- b1` are at hand is stored, and `b0` is
    /// committed if `b1` directly follows it.
    pub open spec fn store_block(
        self,
        block: BlockView,
        b0: BlockView,
        b1: BlockView,
        digest: Digest,
    ) -> (CoreView, ReplyView) {
        let effects = seq![
            EffectView::WriteStore(digest.0@, block),
            EffectView::Proposer(
                ProposerMessageView::Cleanup(b0.payload + b1.payload + block.payload),
            ),
        ];
        if b0.round + 1 != b1.round {
            self.vote(effects, block)
        } else if self.last_committed_round >= b0.round {
            self.vote(effects.push(EffectView::CleanupMempool(b0.round)), block)
        } else {
            self.commit(
                effects.push(EffectView::CleanupMempool(b0.round)),
                block,
                b0,
                Seq::empty(),
            )
        }
    }

    /// Commits `head` together with its ancestors, once they reach back to the
    /// last committed round: first the ancestors not committed yet, in the order
    /// in which they were looked up, then `head`.
    pub open spec fn commit(
        self,
        effects: Seq<EffectView>,
        block: BlockView,
        head: BlockView,
        ancestors: Seq<BlockView>,
    ) -> (CoreView, ReplyView) {
        let oldest = oldest(head, ancestors);
        if self.last_committed_round + 1 < oldest.round {
            self.ask(
                effects,
                StageView::ParentLookup { block, head, ancestors },
                QueryView::Parent(oldest),
            )
        } else {
            CoreView { last_committed_round: head.round, ..self }.vote(
                effects + commit_effects(
                    newly(self.last_committed_round, ancestors).push(head),
                ),
                block,
            )
        }
    }

    /// Votes for a block of the current round, if that is allowed.
    pub open spec fn vote(self, effects: Seq<EffectView>, block: BlockView) -> (
        CoreView,
        ReplyView,
    ) {
        if block.round == self.round && self.may_vote(block) {
            CoreView { last_voted_round: block.round, ..self }.ask(
                effects,
                StageView::VoteSigning(block),
                QueryView::SignVote(block, self.name),
            )
        } else {
            self.done(effects, Ok(()))
        }
    }

    /// Our vote goes to the leader of the next round.
    pub open spec fn send_vote(self, vote: Vote, leader: PublicKey) -> (CoreView, ReplyView) {
        if leader == self.name {
            self.handle_vote(vote)
        } else {
            self.done(
                seq![
                    EffectView::Send(
                        address_of(self.committee, leader)->0,
                        ConsensusMessageView::Vote(vote),
                    ),
                ],
                Ok(()),
            )
        }
    }
}

/// The oldest block known of the chain that leads to `head`.
pub open spec fn oldest(head: BlockView, ancestors: Seq<BlockView>) -> BlockView {
    if ancestors.len() == 0 {
        head
    } else {
        ancestors.last()
    }
}

/// The ancestors that are newly committed. All but the one looked up last are of
/// later rounds than the last committed one; that one may be the block where the
/// earlier commits ended.
pub open spec fn newly(last_committed_round: Round, ancestors: Seq<BlockView>) -> Seq<BlockView> {
    if ancestors.len() > 0 && ancestors.last().round <= last_committed_round {
        ancestors.drop_last()
    } else {
        ancestors
    }
}

// The transition function.
impl CoreView {
    /// Whether the input is one that the core is waiting for.
    pub open spec fn expects(self, input: InputView) -> bool {
        match self.stage {
            StageView::New => input is Start,
            StageView::Syncing => input is Message || input is SyncAbandoned,
            StageView::Idle => input is Message || input is Loopback || input is TimerExpired,
            StageView::CheckpointVerification(_)
            | StageView::VoteVerification(_)
            | StageView::TimeoutVerification(_)
            | StageView::TCVerification(_)
            | StageView::ProposalVerification(_) => input is Verified,
            StageView::CheckpointDigest(_)
            | StageView::ProposalDigest(_)
            | StageView::BlockDigest { .. } => input is Digest,
            StageView::StartupLeader
            | StageView::VoteLeader
            | StageView::TimeoutLeader(_)
            | StageView::TCLeader(_)
            | StageView::ProposalLeader(_, _)
            | StageView::NextLeader(_) => input is Leader,
            StageView::VoteAggregation => input is VoteAdded,
            StageView::TimeoutAggregation => input is TimeoutAdded,
            StageView::VoteSigning(_) => input is VoteSigned,
            StageView::TimeoutSigning => input is TimeoutSigned,
            StageView::PayloadVerification(_) => input is PayloadVerified,
            StageView::AncestorLookup(_) => input is AncestorsFound,
            StageView::ParentLookup { .. } => input is ParentFound,
        }
    }

    /// Whether it can be decided if the block may be voted for: the rounds of
    /// its certificates have a successor, and its timeout certificate is signed.
    pub open spec fn votable(self, block: BlockView) -> bool {
        block.round == self.round ==> {
            &&& block.qc.round < Round::MAX
            &&& block.tc matches Some(tc) ==> tc.round < Round::MAX && tc.votes.len() > 0
        }
    }

    /// Whether the core can act on an input that it expects. It cannot where the
    /// successor of a round does not fit the round type, where an ancestor of a
    /// block to be committed is missing, or where the next leader is unknown.
    pub open spec fn can_act_on(self, input: InputView) -> bool {
        match (self.stage, input) {
            (StageView::CheckpointVerification(block), InputView::Verified(Ok(_))) => block.round
                < Round::MAX,
            (StageView::TimeoutVerification(timeout), InputView::Verified(Ok(_))) =>
                timeout.high_qc.round < Round::MAX,
            (StageView::TCVerification(tc), InputView::Verified(Ok(_))) => tc.round < Round::MAX,
            (StageView::ProposalVerification(block), InputView::Verified(Ok(_))) => {
                &&& block.qc.round < Round::MAX
                &&& block.tc matches Some(tc) ==> tc.round < Round::MAX
            },
            (_, InputView::VoteAdded(Ok(Some(qc)))) => qc.round < Round::MAX,
            (_, InputView::TimeoutAdded(Ok(Some(tc)))) => tc.round < Round::MAX,
            (StageView::BlockDigest { block, b0, b1 }, _) => {
                &&& b0.round < Round::MAX
                &&& self.votable(block)
                    || b0.round + 1 == b1.round && self.last_committed_round + 1 < b0.round
            },
            (
                StageView::ParentLookup { block, head, ancestors },
                InputView::ParentFound(Ok(parent)),
            ) => {
                &&& parent matches Some(parent)
                &&& self.votable(block) || self.last_committed_round + 1 < parent.round
            },
            (StageView::VoteSigning(_), _) => self.round < Round::MAX,
            (StageView::NextLeader(_), InputView::Leader(leader)) => {
                leader == self.name || address_of(self.committee, leader) is Some
            },
            _ => true,
        }
    }

    /// Whether the core takes the input.
    pub open spec fn admits(self, input: InputView) -> bool {
        self.expects(input) && self.can_act_on(input)
    }

    /// The next state and the reply to an input that the core admits.
    pub open spec fn step(self, input: InputView) -> (CoreView, ReplyView) {
        match (self.stage, input) {
            (StageView::New, InputView::Start(mode)) => self.start(mode),
            (
                StageView::Syncing,
                InputView::Message(ConsensusMessageView::SyncCheckpointResponse(Some(block))),
            ) => self.ask(
                Seq::empty(),
                StageView::CheckpointVerification(block),
                QueryView::VerifyBlock(block),
            ),
            (StageView::Syncing, InputView::Message(_)) => self.await_checkpoint(Seq::empty()),
            (StageView::Syncing, InputView::SyncAbandoned) => self.begin(Seq::empty()),
            (StageView::CheckpointVerification(block), InputView::Verified(Ok(_))) => self.adopted(
                block,
            ).ask(
                Seq::empty(),
                StageView::CheckpointDigest(block),
                QueryView::Digest(block),
            ),
            (StageView::CheckpointVerification(_), InputView::Verified(Err(_))) =>
                self.await_checkpoint(Seq::empty()),
            (StageView::CheckpointDigest(block), InputView::Digest(digest)) => self.begin(
                seq![EffectView::WriteStore(digest.0@, block)],
            ),
            (StageView::StartupLeader, InputView::Leader(leader)) => self.done(
                self.proposal(leader, None),
                Ok(()),
            ),
            (StageView::Idle, InputView::Message(message)) => self.handle_message(message),
            (StageView::Idle, InputView::Loopback(block)) => self.process_block(block),
            (StageView::Idle, InputView::TimerExpired) => self.local_timeout(),
            (StageView::VoteVerification(vote), InputView::Verified(Ok(_))) => self.ask(
                Seq::empty(),
                StageView::VoteAggregation,
                QueryView::AddVote(vote),
            ),
            (StageView::VoteAggregation, InputView::VoteAdded(Ok(Some(qc)))) => self.with_qc(
                qc,
            ).ask(
                self.qc_effects(qc),
                StageView::VoteLeader,
                QueryView::Leader(self.with_qc(qc).round),
            ),
            (StageView::VoteLeader, InputView::Leader(leader)) => self.done(
                self.proposal(leader, None),
                Ok(()),
            ),
            (StageView::TimeoutSigning, InputView::TimeoutSigned(timeout)) => self.handle_timeout(
                seq![
                    EffectView::ResetTimer,
                    self.broadcast(ConsensusMessageView::Timeout(timeout)),
                ],
                timeout,
            ),
            (StageView::TimeoutVerification(timeout), InputView::Verified(Ok(_))) => self.with_qc(
                timeout.high_qc,
            ).ask(
                self.qc_effects(timeout.high_qc),
                StageView::TimeoutAggregation,
                QueryView::AddTimeout(timeout),
            ),
            (StageView::TimeoutAggregation, InputView::TimeoutAdded(Ok(Some(tc)))) =>
                self.tc_assembled(tc),
            (StageView::TimeoutLeader(tc), InputView::Leader(leader)) => self.done(
                self.proposal(leader, Some(tc)),
                Ok(()),
            ),
            (StageView::TCVerification(tc), InputView::Verified(Ok(_))) => self.tc_verified(tc),
            (StageView::TCLeader(tc), InputView::Leader(leader)) => self.done(
                self.proposal(leader, Some(tc)),
                Ok(()),
            ),
            (StageView::ProposalDigest(block), InputView::Digest(digest)) => self.ask(
                Seq::empty(),
                StageView::ProposalLeader(block, digest),
                QueryView::Leader(block.round),
            ),
            (StageView::ProposalLeader(block, digest), InputView::Leader(leader)) =>
                self.proposal_leader(block, digest, leader),
            (StageView::ProposalVerification(block), InputView::Verified(Ok(_))) =>
                self.with_certificates(block).ask(
                    self.certificate_effects(block),
                    StageView::PayloadVerification(block),
                    QueryView::VerifyPayload(block),
                ),
            (StageView::PayloadVerification(block), InputView::PayloadVerified(Ok(true))) =>
                self.process_block(block),
            (
                StageView::AncestorLookup(block),
                InputView::AncestorsFound(Ok(Some((b0, b1)))),
            ) => self.ask(
                Seq::empty(),
                StageView::BlockDigest { block, b0, b1 },
                QueryView::Digest(block),
            ),
            (StageView::BlockDigest { block, b0, b1 }, InputView::Digest(digest)) =>
                self.store_block(block, b0, b1, digest),
            (
                StageView::ParentLookup { block, head, ancestors },
                InputView::ParentFound(Ok(Some(parent))),
            ) => self.commit(Seq::empty(), block, head, ancestors.push(parent)),
            (StageView::VoteSigning(_), InputView::VoteSigned(vote)) => self.ask(
                Seq::empty(),
                StageView::NextLeader(vote),
                QueryView::Leader((self.round + 1) as Round),
            ),
            (StageView::NextLeader(vote), InputView::Leader(leader)) => self.send_vote(
                vote,
                leader,
            ),
            // A check or a lookup failed.
            (_, InputView::Verified(Err(e)))
            | (_, InputView::VoteAdded(Err(e)))
            | (_, InputView::TimeoutAdded(Err(e)))
            | (_, InputView::PayloadVerified(Err(e)))
            | (_, InputView::AncestorsFound(Err(e)))
            | (_, InputView::ParentFound(Err(e))) => self.done(Seq::empty(), Err(e)),
            // There is no quorum yet, or something that the block needs is not at
            // hand yet.
            _ => self.done(Seq::empty(), Ok(())),
        }
    }
}

} // verus!
