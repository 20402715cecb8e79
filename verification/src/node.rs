//! The core of a node: it votes, moves from round to round, commits blocks and
//! keeps track of epochs.

use crate::config::{address_of, Committee, EpochNumber};
use crate::consensus::{ConsensusMessage, ConsensusMessageView, CoreStartMode, Round};
use crate::error::ConsensusError;
use crate::helper::HelperRequest;
use crate::keys::{Digest, PublicKey};
use crate::laws::law_step_keeps_wf;
use crate::messages::{Block, Timeout, Vote, QC, TC};
use crate::model::{
    commit_effects, epoch_of, extends_tc, newly, oldest, CoreView, ROUNDS_PER_EPOCH,
};
use crate::proposer::{ProposerMessage, ProposerMessageView};
use crate::protocol::{
    Effect, EffectView, Input, Next, Query, QueryView, Reply, Stage, StageView,
};
use vstd::prelude::*;

verus! {

/// How long a node waits for a checkpoint, in milliseconds.
pub const FAST_SYNC_TIMEOUT_MS: u64 = 10_000;

/// The state of the core.
#[derive(Debug, PartialEq, Eq)]
pub struct Core {
    /// Our own name.
    name: PublicKey,
    committee: Committee,
    /// Whether the node is able to start from a checkpoint.
    fast_sync: bool,
    /// The current round.
    round: Round,
    /// No block of this round or of an earlier one is voted for any more.
    last_voted_round: Round,
    /// The round of the last committed block.
    last_committed_round: Round,
    current_epoch: EpochNumber,
    /// The certificate with the highest round known.
    high_qc: QC,
    stage: Stage,
}

/// The epoch that a round belongs to.
pub fn epoch_of_round(round: Round) -> (epoch: EpochNumber)
    ensures
        epoch == epoch_of(round as int),
        (epoch - 1) * 5000 <= round < epoch * 5000,
{
    (round / ROUNDS_PER_EPOCH + 1) as EpochNumber
}

impl View for Core {
    type V = CoreView;

    closed spec fn view(&self) -> CoreView {
        CoreView {
            name: self.name,
            committee: self.committee@,
            fast_sync: self.fast_sync,
            round: self.round,
            last_voted_round: self.last_voted_round,
            last_committed_round: self.last_committed_round,
            current_epoch: self.current_epoch,
            high_qc: self.high_qc@,
            stage: self.stage@,
        }
    }
}

impl Core {
    /// The core of the named node, before it starts.
    pub fn new(name: PublicKey, committee: Committee, fast_sync: bool) -> (core: Core)
        ensures
            core@.name == name,
            core@.committee == committee@,
            core@.fast_sync == fast_sync,
            core@.at_genesis(),
            core@.round == 1,
            core@.last_voted_round == 0,
            core@.last_committed_round == 0,
            core@.current_epoch == 1,
            core@.high_qc.round == 0,
            core@.high_qc.votes.len() == 0,
            core@.stage is New,
            core@.wf(),
    {
        Core {
            name,
            committee,
            fast_sync,
            round: 1,
            last_voted_round: 0,
            last_committed_round: 0,
            current_epoch: 1,
            high_qc: QC::genesis(),
            stage: Stage::New,
        }
    }

    /// The current round.
    pub fn round(&self) -> (round: Round)
        ensures
            round == self@.round,
    {
        self.round
    }

    /// The round up to which the core votes for no block any more.
    pub fn last_voted_round(&self) -> (round: Round)
        ensures
            round == self@.last_voted_round,
    {
        self.last_voted_round
    }

    /// The round of the last committed block.
    pub fn last_committed_round(&self) -> (round: Round)
        ensures
            round == self@.last_committed_round,
    {
        self.last_committed_round
    }

    /// The current epoch.
    pub fn current_epoch(&self) -> (epoch: EpochNumber)
        ensures
            epoch == self@.current_epoch,
    {
        self.current_epoch
    }

    /// The certificate with the highest round known.
    pub fn high_qc(&self) -> (qc: &QC)
        ensures
            qc@ == self@.high_qc,
    {
        &self.high_qc
    }

    fn ask(&mut self, effects: Vec<Effect>, stage: Stage, query: Query) -> (reply: Reply)
        ensures
            (final(self)@, reply@) == old(self)@.ask(effects.deep_view(), stage@, query@),
    {
        self.stage = stage;
        Reply { effects, next: Next::Ask(query) }
    }

    fn done(&mut self, effects: Vec<Effect>, result: Result<(), ConsensusError>) -> (reply: Reply)
        ensures
            (final(self)@, reply@) == old(self)@.done(effects.deep_view(), result),
    {
        self.stage = Stage::Idle;
        Reply { effects, next: Next::Done(result) }
    }

    fn await_checkpoint(&mut self, effects: Vec<Effect>) -> (reply: Reply)
        ensures
            (final(self)@, reply@) == old(self)@.await_checkpoint(effects.deep_view()),
    {
        self.stage = Stage::Syncing;
        Reply { effects, next: Next::AwaitCheckpoint }
    }

    fn increase_last_voted_round(&mut self, target: Round)
        ensures
            final(self)@ == (CoreView {
                last_voted_round: if old(self).last_voted_round < target {
                    target
                } else {
                    old(self).last_voted_round
                },
                ..old(self)@
            }),
    {
        if self.last_voted_round < target {
            self.last_voted_round = target;
        }
    }

    /// Decides whether to vote for a block, and if so promises not to vote for
    /// another of its round.
    fn make_vote(&mut self, block: &Block) -> (vote: bool)
        requires
            block.qc.round < Round::MAX,
            block@.tc matches Some(tc) ==> tc.round < Round::MAX && tc.votes.len() > 0,
        ensures
            vote == old(self)@.may_vote(block@),
            vote ==> final(self)@ == (CoreView { last_voted_round: block.round, ..old(self)@ }),
            !vote ==> final(self)@ == old(self)@,
    {
        let safety_rule_1 = block.round > self.last_voted_round;
        let mut safety_rule_2 = block.qc.round + 1 == block.round;
        if let Some(tc) = &block.tc {
            let highest = Self::highest(&tc.high_qc_rounds());
            let can_extend = tc.round + 1 == block.round && block.qc.round >= highest;
            assert(can_extend == extends_tc(block@));
            safety_rule_2 = safety_rule_2 || can_extend;
        }
        if !(safety_rule_1 && safety_rule_2) {
            return false;
        }
        self.increase_last_voted_round(block.round);
        true
    }

    /// The highest of some rounds.
    fn highest(rounds: &Vec<Round>) -> (highest: Round)
        requires
            rounds.len() > 0,
        ensures
            rounds@.contains(highest),
            forall|i: int| 0 <= i < rounds.len() ==> #[trigger] rounds[i] <= highest,
    {
        let mut highest: Round = rounds[0];
        let mut i: usize = 1;
        while i < rounds.len()
            invariant
                1 <= i <= rounds.len(),
                rounds@.contains(highest),
                forall|j: int| 0 <= j < i ==> #[trigger] rounds[j] <= highest,
            decreases rounds.len() - i,
        {
            if rounds[i] > highest {
                highest = rounds[i];
            }
            i += 1;
        }
        highest
    }

    /// Keeps the certificate if its round is higher than that of the one known.
    fn update_high_qc(&mut self, qc: &QC)
        ensures
            final(self)@ == (CoreView {
                high_qc: if qc.round > old(self).high_qc.round {
                    qc@
                } else {
                    old(self)@.high_qc
                },
                ..old(self)@
            }),
    {
        if qc.round > self.high_qc.round {
            self.high_qc = qc.clone();
        }
    }

    /// Completes a round, and enters the epoch of the next round, if that is
    /// another one.
    fn advance_round(&mut self, round: Round, effects: &mut Vec<Effect>)
        requires
            old(self).round <= round ==> round < Round::MAX,
        ensures
            final(self)@ == old(self)@.advanced(round),
            final(effects).deep_view() == old(effects).deep_view() + old(self)@.advance_effects(
                round,
            ),
    {
        let ghost before = effects.deep_view();
        if round < self.round {
            assert(before =~= before + old(self)@.advance_effects(round));
            return ;
        }
        let next_round: Round = round + 1;
        let next_epoch: EpochNumber = epoch_of_round(next_round);
        if next_epoch != epoch_of_round(self.round) {
            self.current_epoch = next_epoch;
        }
        Effect::ResetTimer.emit(effects);
        self.round = next_round;
        Effect::CleanupAggregator(next_round).emit(effects);
        assert(effects.deep_view() =~= before + old(self)@.advance_effects(round));
    }

    /// Orders a block for the current round on top of the highest certificate.
    fn generate_proposal(&self, tc: Option<TC>, effects: &mut Vec<Effect>)
        ensures
            final(effects).deep_view() == old(effects).deep_view() + self@.proposal(
                self.name,
                tc.deep_view(),
            ),
    {
        let ghost before = effects.deep_view();
        let make = ProposerMessage::Make(
            self.round,
            self.current_epoch,
            self.high_qc.clone(),
            tc,
        );
        Effect::Proposer(make).emit(effects);
        assert(effects.deep_view() =~= before + self@.proposal(self.name, tc.deep_view()));
    }

    /// Orders a block if we are the leader, and is done.
    fn propose_if_leader(&mut self, leader: PublicKey, tc: Option<TC>) -> (reply: Reply)
        ensures
            (final(self)@, reply@) == old(self)@.done(
                old(self)@.proposal(leader, tc.deep_view()),
                Ok(()),
            ),
    {
        let mut effects: Vec<Effect> = Vec::new();
        if leader == self.name {
            self.generate_proposal(tc, &mut effects);
        }
        assert(effects.deep_view() =~= self@.proposal(leader, tc.deep_view()));
        self.done(effects, Ok(()))
    }

    /// Has the proposer forget what the three blocks carry.
    fn cleanup_proposer(b0: &Block, b1: &Block, block: &Block, effects: &mut Vec<Effect>)
        ensures
            final(effects).deep_view() == old(effects).deep_view().push(
                EffectView::Proposer(
                    ProposerMessageView::Cleanup(
                        b0.payload@ + b1.payload@ + block.payload@,
                    ),
                ),
            ),
    {
        let mut digests: Vec<Digest> = Vec::new();
        Self::append(&mut digests, &b0.payload);
        Self::append(&mut digests, &b1.payload);
        Self::append(&mut digests, &block.payload);
        assert(digests@ =~= b0.payload@ + b1.payload@ + block.payload@);
        Effect::Proposer(ProposerMessage::Cleanup(digests)).emit(effects);
    }

    fn append(digests: &mut Vec<Digest>, more: &Vec<Digest>)
        ensures
            final(digests)@ == old(digests)@ + more@,
    {
        let ghost before = digests@;
        let mut i: usize = 0;
        while i < more.len()
            invariant
                i <= more.len(),
                digests@ == before + more@.take(i as int),
            decreases more.len() - i,
        {
            digests.push(more[i]);
            i += 1;
            assert(digests@ =~= before + more@.take(i as int));
        }
        assert(more@.take(i as int) =~= more@);
    }

    /// Completes the round of a certificate. The block certified for the last
    /// round of an epoch becomes the checkpoint.
    fn process_qc(&mut self, qc: &QC, effects: &mut Vec<Effect>)
        requires
            qc.round < Round::MAX,
        ensures
            final(self)@ == old(self)@.with_qc(qc@),
            final(effects).deep_view() == old(effects).deep_view() + old(self)@.qc_effects(qc@),
    {
        let ghost before = effects.deep_view();
        let next_round: Round = qc.round + 1;
        if qc.round > 0 && next_round % ROUNDS_PER_EPOCH == 0 {
            Effect::Helper(HelperRequest::UpdateCheckpoint(qc.hash)).emit(effects);
        }
        self.advance_round(qc.round, effects);
        self.update_high_qc(qc);
        assert(effects.deep_view() =~= before + old(self)@.qc_effects(qc@));
    }

    /// The effect that sends a message to all other nodes.
    fn broadcast(&self, message: ConsensusMessage) -> (effect: Effect)
        ensures
            effect@ == self@.broadcast(message@),
    {
        Effect::Broadcast(self.committee.peer_addresses(&self.name), message)
    }

    fn start(&mut self, mode: CoreStartMode) -> (reply: Reply)
        ensures
            (final(self)@, reply@) == old(self)@.start(mode),
    {
        let mut effects: Vec<Effect> = Vec::new();
        assert(effects.deep_view() =~= Seq::empty());
        if self.fast_sync && matches!(mode, CoreStartMode::FastSync) {
            let peers = self.committee.broadcast_addresses(&self.name);
            if peers.len() > 0 {
                let request = ConsensusMessage::SyncCheckpointRequest(self.name);
                Effect::Send(peers[0].address, request).emit(&mut effects);
                assert(effects.deep_view() =~= self@.start(mode).1.effects);
                return self.await_checkpoint(effects);
            }
        }
        self.begin(effects)
    }

    fn begin(&mut self, mut effects: Vec<Effect>) -> (reply: Reply)
        ensures
            (final(self)@, reply@) == old(self)@.begin(effects.deep_view()),
    {
        Effect::ResetTimer.emit(&mut effects);
        self.ask(effects, Stage::StartupLeader, Query::Leader(self.round))
    }

    /// A verified checkpoint becomes the state to start from.
    fn adopt_checkpoint(&mut self, checkpoint: Block) -> (reply: Reply)
        requires
            checkpoint.round < Round::MAX,
        ensures
            (final(self)@, reply@) == old(self)@.adopted(checkpoint@).ask(
                Seq::empty(),
                StageView::CheckpointDigest(checkpoint@),
                QueryView::Digest(checkpoint@),
            ),
    {
        self.current_epoch = checkpoint.epoch;
        self.round = checkpoint.round + 1;
        self.high_qc = checkpoint.qc.clone();
        self.last_voted_round = checkpoint.round;
        self.last_committed_round = self.high_qc.round;
        let query = Query::Digest(checkpoint.clone());
        self.ask(Self::nothing(), Stage::CheckpointDigest(checkpoint), query)
    }

    /// No effect at all.
    fn nothing() -> (effects: Vec<Effect>)
        ensures
            effects.deep_view() == Seq::<EffectView>::empty(),
    {
        let effects: Vec<Effect> = Vec::new();
        assert(effects.deep_view() =~= Seq::empty());
        effects
    }

    /// One effect alone.
    fn only(effect: Effect) -> (effects: Vec<Effect>)
        ensures
            effects.deep_view() == seq![effect@],
    {
        let mut effects = Self::nothing();
        effect.emit(&mut effects);
        assert(effects.deep_view() =~= seq![effect@]);
        effects
    }

    fn handle_message(&mut self, message: ConsensusMessage) -> (reply: Reply)
        ensures
            (final(self)@, reply@) == old(self)@.handle_message(message@),
    {
        match message {
            ConsensusMessage::Propose(block) => {
                let query = Query::Digest(block.clone());
                self.ask(Self::nothing(), Stage::ProposalDigest(block), query)
            },
            ConsensusMessage::Vote(vote) => self.handle_vote(vote),
            ConsensusMessage::Timeout(timeout) => self.handle_timeout(Self::nothing(), timeout),
            ConsensusMessage::TC(tc) => {
                let query = Query::VerifyTC(tc.clone());
                self.ask(Self::nothing(), Stage::TCVerification(tc), query)
            },
            ConsensusMessage::SyncRequest(_, _) => self.done(Self::nothing(), Ok(())),
            ConsensusMessage::SyncCheckpointRequest(_) => self.done(Self::nothing(), Ok(())),
            ConsensusMessage::SyncCheckpointResponse(_) => self.done(Self::nothing(), Ok(())),
        }
    }

    fn handle_vote(&mut self, vote: Vote) -> (reply: Reply)
        ensures
            (final(self)@, reply@) == old(self)@.handle_vote(vote),
    {
        if vote.round < self.round {
            return self.done(Self::nothing(), Ok(()));
        }
        self.ask(Self::nothing(), Stage::VoteVerification(vote), Query::VerifyVote(vote))
    }

    /// A quorum of votes was reached.
    fn qc_assembled(&mut self, qc: QC) -> (reply: Reply)
        requires
            qc.round < Round::MAX,
        ensures
            (final(self)@, reply@) == old(self)@.with_qc(qc@).ask(
                old(self)@.qc_effects(qc@),
                StageView::VoteLeader,
                QueryView::Leader(old(self)@.with_qc(qc@).round),
            ),
    {
        let mut effects = Self::nothing();
        self.process_qc(&qc, &mut effects);
        assert(effects.deep_view() =~= old(self)@.qc_effects(qc@));
        self.ask(effects, Stage::VoteLeader, Query::Leader(self.round))
    }

    fn handle_timeout(&mut self, effects: Vec<Effect>, timeout: Timeout) -> (reply: Reply)
        ensures
            (final(self)@, reply@) == old(self)@.handle_timeout(effects.deep_view(), timeout@),
    {
        if timeout.round < self.round {
            return self.done(effects, Ok(()));
        }
        let query = Query::VerifyTimeout(timeout.clone());
        self.ask(effects, Stage::TimeoutVerification(timeout), query)
    }

    fn local_timeout_round(&mut self) -> (reply: Reply)
        ensures
            (final(self)@, reply@) == old(self)@.local_timeout(),
    {
        let round: Round = self.round;
        self.increase_last_voted_round(round);
        let query = Query::SignTimeout(self.high_qc.clone(), round, self.name);
        self.ask(Self::nothing(), Stage::TimeoutSigning, query)
    }

    /// Our own timeout is passed on, and handled as any other.
    fn timeout_signed(&mut self, timeout: Timeout) -> (reply: Reply)
        ensures
            (final(self)@, reply@) == old(self)@.handle_timeout(
                seq![
                    EffectView::ResetTimer,
                    old(self)@.broadcast(
                        ConsensusMessageView::Timeout(timeout@),
                    ),
                ],
                timeout@,
            ),
    {
        let mut effects = Self::only(Effect::ResetTimer);
        self.broadcast(ConsensusMessage::Timeout(timeout.clone())).emit(&mut effects);
        assert(effects.deep_view() =~= seq![
            EffectView::ResetTimer,
            self@.broadcast(ConsensusMessageView::Timeout(timeout@)),
        ]);
        self.handle_timeout(effects, timeout)
    }

    /// A verified timeout is counted.
    fn timeout_verified(&mut self, timeout: Timeout) -> (reply: Reply)
        requires
            timeout.high_qc.round < Round::MAX,
        ensures
            (final(self)@, reply@) == old(self)@.with_qc(timeout@.high_qc).ask(
                old(self)@.qc_effects(timeout@.high_qc),
                StageView::TimeoutAggregation,
                QueryView::AddTimeout(timeout@),
            ),
    {
        let mut effects = Self::nothing();
        self.process_qc(&timeout.high_qc, &mut effects);
        assert(effects.deep_view() =~= old(self)@.qc_effects(timeout@.high_qc));
        self.ask(effects, Stage::TimeoutAggregation, Query::AddTimeout(timeout))
    }

    /// A quorum of timeouts was reached.
    fn tc_assembled(&mut self, tc: TC) -> (reply: Reply)
        requires
            tc.round < Round::MAX,
        ensures
            (final(self)@, reply@) == old(self)@.tc_assembled(tc@),
    {
        let mut effects = Self::nothing();
        self.advance_round(tc.round, &mut effects);
        self.broadcast(ConsensusMessage::TC(tc.clone())).emit(&mut effects);
        assert(effects.deep_view() =~= old(self)@.tc_assembled(tc@).1.effects);
        self.ask(effects, Stage::TimeoutLeader(tc), Query::Leader(self.round))
    }

    /// A timeout certificate from another node was verified.
    fn tc_verified(&mut self, tc: TC) -> (reply: Reply)
        requires
            tc.round < Round::MAX,
        ensures
            (final(self)@, reply@) == old(self)@.tc_verified(tc@),
    {
        if tc.round < self.round {
            return self.done(Self::nothing(), Ok(()));
        }
        let mut effects = Self::nothing();
        self.advance_round(tc.round, &mut effects);
        assert(effects.deep_view() =~= old(self)@.advance_effects(tc.round));
        self.ask(effects, Stage::TCLeader(tc), Query::Leader(self.round))
    }

    /// A proposal is refused unless its author leads its round.
    fn proposal_leader(&mut self, block: Block, digest: Digest, leader: PublicKey) -> (reply: Reply)
        ensures
            (final(self)@, reply@) == old(self)@.proposal_leader(block@, digest, leader),
    {
        if block.author != leader {
            let error = ConsensusError::WrongLeader {
                digest,
                leader: block.author,
                round: block.round,
            };
            return self.done(Self::nothing(), Err(error));
        }
        let query = Query::VerifyBlock(block.clone());
        self.ask(Self::nothing(), Stage::ProposalVerification(block), query)
    }

    /// The certificates of a verified proposal may complete rounds.
    fn proposal_verified(&mut self, block: Block) -> (reply: Reply)
        requires
            block.qc.round < Round::MAX,
            block@.tc matches Some(tc) ==> tc.round < Round::MAX,
        ensures
            (final(self)@, reply@) == old(self)@.with_certificates(block@).ask(
                old(self)@.certificate_effects(block@),
                StageView::PayloadVerification(block@),
                QueryView::VerifyPayload(block@),
            ),
    {
        let mut effects = Self::nothing();
        self.process_qc(&block.qc, &mut effects);
        if let Some(tc) = &block.tc {
            self.advance_round(tc.round, &mut effects);
        }
        assert(effects.deep_view() =~= old(self)@.certificate_effects(block@));
        let query = Query::VerifyPayload(block.clone());
        self.ask(effects, Stage::PayloadVerification(block), query)
    }

    fn process_block(&mut self, block: Block) -> (reply: Reply)
        ensures
            (final(self)@, reply@) == old(self)@.process_block(block@),
    {
        let query = Query::Ancestors(block.clone());
        self.ask(Self::nothing(), Stage::AncestorLookup(block), query)
    }

    /// Stores a block whose ancestors are at hand, and commits the head of the
    /// chain of two that leads to it.
    fn store_block(&mut self, block: Block, b0: Block, b1: Block, digest: Digest) -> (reply: Reply)
        requires
            b0.round < Round::MAX,
            old(self)@.votable(block@) || b0.round + 1 == b1.round && old(
                self,
            ).last_committed_round + 1 < b0.round,
        ensures
            (final(self)@, reply@) == old(self)@.store_block(block@, b0@, b1@, digest),
    {
        let mut effects = Self::only(Effect::WriteStore(digest.to_vec(), block.clone()));
        Self::cleanup_proposer(&b0, &b1, &block, &mut effects);
        let ghost stored = seq![
            EffectView::WriteStore(digest.0@, block@),
            EffectView::Proposer(
                ProposerMessageView::Cleanup(
                    b0.payload@ + b1.payload@ + block.payload@,
                ),
            ),
        ];
        assert(effects.deep_view() =~= stored);
        if b0.round + 1 == b1.round {
            Effect::CleanupMempool(b0.round).emit(&mut effects);
            if self.last_committed_round >= b0.round {
                return self.vote(effects, block);
            }
            let ancestors: Vec<Block> = Vec::new();
            assert(ancestors.deep_view() =~= Seq::empty());
            return self.commit(effects, block, b0, ancestors);
        }
        self.vote(effects, block)
    }

    /// Commits a block with all its ancestors after the last committed round, as
    /// soon as they are known.
    fn commit(
        &mut self,
        mut effects: Vec<Effect>,
        block: Block,
        head: Block,
        mut ancestors: Vec<Block>,
    ) -> (reply: Reply)
        requires
            old(self).last_committed_round < Round::MAX,
            old(self)@.votable(block@) || old(self).last_committed_round + 1
                < oldest(head@, ancestors.deep_view()).round,
        ensures
            (final(self)@, reply@) == old(self)@.commit(
                effects.deep_view(),
                block@,
                head@,
                ancestors.deep_view(),
            ),
    {
        let tip = if ancestors.len() == 0 {
            &head
        } else {
            &ancestors[ancestors.len() - 1]
        };
        assert(tip@ == oldest(head@, ancestors.deep_view()));
        if self.last_committed_round + 1 < tip.round {
            let query = Query::Parent(tip.clone());
            return self.ask(effects, Stage::ParentLookup { block, head, ancestors }, query);
        }
        let ghost known = ancestors.deep_view();
        if ancestors.len() > 0 && ancestors[ancestors.len() - 1].round
            <= self.last_committed_round {
            ancestors.pop();
        }
        assert(ancestors.deep_view() =~= newly(self.last_committed_round, known));
        self.last_committed_round = head.round;
        let ghost before = effects.deep_view();
        let mut i: usize = 0;
        while i < ancestors.len()
            invariant
                i <= ancestors.len(),
                effects.deep_view() == before + commit_effects(
                    ancestors.deep_view().take(i as int),
                ),
            decreases ancestors.len() - i,
        {
            Effect::Commit(ancestors[i].clone()).emit(&mut effects);
            i += 1;
            assert(effects.deep_view() =~= before + commit_effects(
                ancestors.deep_view().take(i as int),
            ));
        }
        let ghost committed = ancestors.deep_view().push(head@);
        Effect::Commit(head).emit(&mut effects);
        assert(effects.deep_view() =~= before + commit_effects(committed));
        self.vote(effects, block)
    }

    /// Votes for a block if it is of the current round and the rules allow it.
    fn vote(&mut self, effects: Vec<Effect>, block: Block) -> (reply: Reply)
        requires
            old(self)@.votable(block@),
        ensures
            (final(self)@, reply@) == old(self)@.vote(effects.deep_view(), block@),
    {
        if block.round != self.round {
            return self.done(effects, Ok(()));
        }
        if !self.make_vote(&block) {
            return self.done(effects, Ok(()));
        }
        let query = Query::SignVote(block.clone(), self.name);
        self.ask(effects, Stage::VoteSigning(block), query)
    }

    /// Hands our vote to the leader of the next round.
    fn send_vote(&mut self, vote: Vote, leader: PublicKey) -> (reply: Reply)
        requires
            leader == old(self).name || address_of(
                old(self).committee@,
                leader,
            ) is Some,
        ensures
            (final(self)@, reply@) == old(self)@.send_vote(vote, leader),
    {
        if leader == self.name {
            return self.handle_vote(vote);
        }
        let effects = match self.committee.address(&leader) {
            Some(address) => Self::only(Effect::Send(address, ConsensusMessage::Vote(vote))),
            None => Self::nothing(),
        };
        self.done(effects, Ok(()))
    }

    /// Takes an input: updates the state, and replies with what is to be done and
    /// how the core goes on.
    #[verifier::rlimit(30)]
    pub fn step(&mut self, input: Input) -> (reply: Reply)
        requires
            old(self)@.wf(),
            old(self)@.admits(input@),
        ensures
            (final(self)@, reply@) == old(self)@.step(input@),
            final(self)@.wf(),
    {
        proof {
            law_step_keeps_wf(self@, input@);
        }
        let mut stage = Stage::Idle;
        std::mem::swap(&mut self.stage, &mut stage);
        match (stage, input) {
            (Stage::New, Input::Start(mode)) => self.start(mode),
            (Stage::Syncing, Input::Message(message)) => match message {
                ConsensusMessage::SyncCheckpointResponse(Some(block)) => {
                    let query = Query::VerifyBlock(block.clone());
                    self.ask(Self::nothing(), Stage::CheckpointVerification(block), query)
                },
                _ => self.await_checkpoint(Self::nothing()),
            },
            (Stage::Syncing, Input::SyncAbandoned) => self.begin(Self::nothing()),
            (Stage::CheckpointVerification(block), Input::Verified(res)) => match res {
                Ok(_) => self.adopt_checkpoint(block),
                Err(_) => self.await_checkpoint(Self::nothing()),
            },
            (Stage::CheckpointDigest(block), Input::Digest(digest)) => {
                let key = digest.to_vec();
                self.begin(Self::only(Effect::WriteStore(key, block)))
            },
            (Stage::StartupLeader, Input::Leader(leader)) => self.propose_if_leader(leader, None),
            (Stage::Idle, Input::Message(message)) => self.handle_message(message),
            (Stage::Idle, Input::Loopback(block)) => self.process_block(block),
            (Stage::Idle, Input::TimerExpired) => self.local_timeout_round(),
            (Stage::VoteVerification(vote), Input::Verified(res)) => match res {
                Ok(_) => self.ask(Self::nothing(), Stage::VoteAggregation, Query::AddVote(vote)),
                Err(e) => self.done(Self::nothing(), Err(e)),
            },
            (Stage::VoteAggregation, Input::VoteAdded(res)) => match res {
                Ok(Some(qc)) => self.qc_assembled(qc),
                Ok(None) => self.done(Self::nothing(), Ok(())),
                Err(e) => self.done(Self::nothing(), Err(e)),
            },
            (Stage::VoteLeader, Input::Leader(leader)) => self.propose_if_leader(leader, None),
            (Stage::TimeoutSigning, Input::TimeoutSigned(timeout)) => self.timeout_signed(timeout),
            (Stage::TimeoutVerification(timeout), Input::Verified(res)) => match res {
                Ok(_) => self.timeout_verified(timeout),
                Err(e) => self.done(Self::nothing(), Err(e)),
            },
            (Stage::TimeoutAggregation, Input::TimeoutAdded(res)) => match res {
                Ok(Some(tc)) => self.tc_assembled(tc),
                Ok(None) => self.done(Self::nothing(), Ok(())),
                Err(e) => self.done(Self::nothing(), Err(e)),
            },
            (Stage::TimeoutLeader(tc), Input::Leader(leader)) => self.propose_if_leader(
                leader,
                Some(tc),
            ),
            (Stage::TCVerification(tc), Input::Verified(res)) => match res {
                Ok(_) => self.tc_verified(tc),
                Err(e) => self.done(Self::nothing(), Err(e)),
            },
            (Stage::TCLeader(tc), Input::Leader(leader)) => self.propose_if_leader(
                leader,
                Some(tc),
            ),
            (Stage::ProposalDigest(block), Input::Digest(digest)) => {
                let query = Query::Leader(block.round);
                self.ask(Self::nothing(), Stage::ProposalLeader(block, digest), query)
            },
            (Stage::ProposalLeader(block, digest), Input::Leader(leader)) => self.proposal_leader(
                block,
                digest,
                leader,
            ),
            (Stage::ProposalVerification(block), Input::Verified(res)) => match res {
                Ok(_) => self.proposal_verified(block),
                Err(e) => self.done(Self::nothing(), Err(e)),
            },
            (Stage::PayloadVerification(block), Input::PayloadVerified(res)) => match res {
                Ok(true) => self.process_block(block),
                Ok(false) => self.done(Self::nothing(), Ok(())),
                Err(e) => self.done(Self::nothing(), Err(e)),
            },
            (Stage::AncestorLookup(block), Input::AncestorsFound(res)) => match res {
                Ok(Some((b0, b1))) => {
                    let query = Query::Digest(block.clone());
                    self.ask(Self::nothing(), Stage::BlockDigest { block, b0, b1 }, query)
                },
                Ok(None) => self.done(Self::nothing(), Ok(())),
                Err(e) => self.done(Self::nothing(), Err(e)),
            },
            (Stage::BlockDigest { block, b0, b1 }, Input::Digest(digest)) => self.store_block(
                block,
                b0,
                b1,
                digest,
            ),
            (Stage::ParentLookup { block, head, mut ancestors }, Input::ParentFound(res)) => {
                let ghost known = ancestors.deep_view();
                match res {
                    Ok(Some(parent)) => {
                        ancestors.push(parent);
                        assert(ancestors.deep_view() =~= known.push(parent@));
                        self.commit(Self::nothing(), block, head, ancestors)
                    },
                    Ok(None) => self.done(Self::nothing(), Ok(())),
                    Err(e) => self.done(Self::nothing(), Err(e)),
                }
            },
            (Stage::VoteSigning(_), Input::VoteSigned(vote)) => {
                let next_round: Round = self.round + 1;
                self.ask(Self::nothing(), Stage::NextLeader(vote), Query::Leader(next_round))
            },
            (Stage::NextLeader(vote), Input::Leader(leader)) => self.send_vote(vote, leader),
            // The core expects no other input.
            _ => self.done(Self::nothing(), Ok(())),
        }
    }

    /// Whether the input is one that the core is waiting for.
    pub fn expects(&self, input: &Input) -> (expected: bool)
        ensures
            expected == self@.expects(input@),
    {
        match &self.stage {
            Stage::New => matches!(input, Input::Start(_)),
            Stage::Syncing => matches!(input, Input::Message(_) | Input::SyncAbandoned),
            Stage::Idle => matches!(
                input,
                Input::Message(_) | Input::Loopback(_) | Input::TimerExpired
            ),
            Stage::CheckpointVerification(_)
            | Stage::VoteVerification(_)
            | Stage::TimeoutVerification(_)
            | Stage::TCVerification(_)
            | Stage::ProposalVerification(_) => matches!(input, Input::Verified(_)),
            Stage::CheckpointDigest(_)
            | Stage::ProposalDigest(_)
            | Stage::BlockDigest { .. } => matches!(input, Input::Digest(_)),
            Stage::StartupLeader
            | Stage::VoteLeader
            | Stage::TimeoutLeader(_)
            | Stage::TCLeader(_)
            | Stage::ProposalLeader(_, _)
            | Stage::NextLeader(_) => matches!(input, Input::Leader(_)),
            Stage::VoteAggregation => matches!(input, Input::VoteAdded(_)),
            Stage::TimeoutAggregation => matches!(input, Input::TimeoutAdded(_)),
            Stage::VoteSigning(_) => matches!(input, Input::VoteSigned(_)),
            Stage::TimeoutSigning => matches!(input, Input::TimeoutSigned(_)),
            Stage::PayloadVerification(_) => matches!(input, Input::PayloadVerified(_)),
            Stage::AncestorLookup(_) => matches!(input, Input::AncestorsFound(_)),
            Stage::ParentLookup { .. } => matches!(input, Input::ParentFound(_)),
        }
    }

    fn votable(&self, block: &Block) -> (votable: bool)
        ensures
            votable == self@.votable(block@),
    {
        if block.round != self.round {
            return true;
        }
        let signed = match &block.tc {
            Some(tc) => tc.round < Round::MAX && tc.votes.len() > 0,
            None => true,
        };
        block.qc.round < Round::MAX && signed
    }

    /// Whether the core takes the input.
    #[verifier::rlimit(30)]
    pub fn admits(&self, input: &Input) -> (admitted: bool)
        requires
            self@.wf(),
        ensures
            admitted == self@.admits(input@),
    {
        if !self.expects(input) {
            return false;
        }
        match (&self.stage, input) {
            (Stage::CheckpointVerification(block), Input::Verified(Ok(_))) => block.round
                < Round::MAX,
            (Stage::TimeoutVerification(timeout), Input::Verified(Ok(_))) => timeout.high_qc.round
                < Round::MAX,
            (Stage::TCVerification(tc), Input::Verified(Ok(_))) => tc.round < Round::MAX,
            (Stage::ProposalVerification(block), Input::Verified(Ok(_))) => {
                let extendable = match &block.tc {
                    Some(tc) => tc.round < Round::MAX,
                    None => true,
                };
                block.qc.round < Round::MAX && extendable
            },
            (_, Input::VoteAdded(Ok(Some(qc)))) => qc.round < Round::MAX,
            (_, Input::TimeoutAdded(Ok(Some(tc)))) => tc.round < Round::MAX,
            (Stage::BlockDigest { block, b0, b1 }, _) => {
                b0.round < Round::MAX && (self.votable(block) || (b0.round + 1 == b1.round
                    && self.last_committed_round < b0.round && self.last_committed_round + 1
                    < b0.round))
            },
            (Stage::ParentLookup { block, .. }, Input::ParentFound(Ok(parent))) => match parent {
                Some(parent) => self.votable(block) || self.last_committed_round + 1
                    < parent.round,
                None => false,
            },
            (Stage::VoteSigning(_), _) => self.round < Round::MAX,
            (Stage::NextLeader(_), Input::Leader(leader)) => {
                *leader == self.name || self.committee.address(leader).is_some()
            },
            _ => true,
        }
    }
}

} // verus!
