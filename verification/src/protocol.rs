//! What passes between the core of a node and its surroundings.

use crate::config::Address;
use crate::consensus::{ConsensusMessage, ConsensusMessageView, CoreStartMode, Round};
use crate::error::ConsensusError;
use crate::helper::HelperRequest;
use crate::keys::{Digest, PublicKey};
use crate::messages::{
    Block, BlockView, QCView, TCView, Timeout, TimeoutView, Vote, QC, TC,
};
use crate::proposer::{ProposerMessage, ProposerMessageView};
use vstd::prelude::*;

verus! {

/// What the core is handed: news from outside, or the answer to its last
/// question.
#[derive(Debug, PartialEq, Eq)]
pub enum Input {
    /// The node begins to run.
    Start(CoreStartMode),
    /// A message arrived from another node.
    Message(ConsensusMessage),
    /// A block came back, for instance because what it lacked has arrived.
    Loopback(Block),
    /// The round timer ran out.
    TimerExpired,
    /// No checkpoint will come any more: the deadline passed, or the channel of
    /// messages was closed.
    SyncAbandoned,
    /// Answer to [`Query::Digest`].
    Digest(Digest),
    /// Answer to [`Query::Leader`].
    Leader(PublicKey),
    /// Answer to the questions that ask for a message to be verified.
    Verified(Result<(), ConsensusError>),
    /// Answer to [`Query::AddVote`]: the certificate, once there is a quorum.
    VoteAdded(Result<Option<QC>, ConsensusError>),
    /// Answer to [`Query::AddTimeout`]: the certificate, once there is a quorum.
    TimeoutAdded(Result<Option<TC>, ConsensusError>),
    /// Answer to [`Query::SignVote`].
    VoteSigned(Vote),
    /// Answer to [`Query::SignTimeout`].
    TimeoutSigned(Timeout),
    /// Answer to [`Query::VerifyPayload`]: whether the payload is at hand.
    PayloadVerified(Result<bool, ConsensusError>),
    /// Answer to [`Query::Ancestors`]: the grandparent and the parent, if both
    /// are at hand.
    AncestorsFound(Result<Option<(Block, Block)>, ConsensusError>),
    /// Answer to [`Query::Parent`].
    ParentFound(Result<Option<Block>, ConsensusError>),
}

/// What the core needs to know before it can go on.
#[derive(Debug, PartialEq, Eq)]
pub enum Query {
    /// The digest of a block.
    Digest(Block),
    /// The leader of a round.
    Leader(Round),
    VerifyBlock(Block),
    VerifyVote(Vote),
    VerifyTimeout(Timeout),
    VerifyTC(TC),
    /// Count a vote.
    AddVote(Vote),
    /// Count a timeout.
    AddTimeout(Timeout),
    /// A vote for the block, signed by the named node.
    SignVote(Block, PublicKey),
    /// A timeout with the certificate for the round, signed by the named node.
    SignTimeout(QC, Round, PublicKey),
    /// Whether the payload of the block is at hand; it is fetched if it is not.
    VerifyPayload(Block),
    /// The two blocks before a block; they are fetched if they are not at hand.
    Ancestors(Block),
    /// The block before a block.
    Parent(Block),
}

/// What the core wants done.
#[derive(Debug, PartialEq, Eq)]
pub enum Effect {
    /// Start the round timer anew.
    ResetTimer,
    /// Forget the votes and timeouts for rounds before the given one.
    CleanupAggregator(Round),
    /// Tell the mempool that a block of the given round is about to be committed.
    CleanupMempool(Round),
    /// Instruct the proposer.
    Proposer(ProposerMessage),
    /// Send a request to the helper.
    Helper(HelperRequest),
    /// Hand a committed block to the application.
    Commit(Block),
    /// Send a message to an address.
    Send(Address, ConsensusMessage),
    /// Send a message to each of the addresses.
    Broadcast(Vec<Address>, ConsensusMessage),
    /// Store a block under a key.
    WriteStore(Vec<u8>, Block),
}

/// How the core goes on once its effects are performed.
#[derive(Debug, PartialEq, Eq)]
pub enum Next {
    /// It waits for the answer to a question.
    Ask(Query),
    /// It waits for a checkpoint to arrive.
    AwaitCheckpoint,
    /// It is done with the input that it was handed, and waits for news.
    Done(Result<(), ConsensusError>),
}

/// The core's response to an input: effects to be performed in their order, and
/// how it goes on.
#[derive(Debug, PartialEq, Eq)]
pub struct Reply {
    pub effects: Vec<Effect>,
    pub next: Next,
}

/// What the core is waiting for, with what it must remember until then.
#[derive(Debug, PartialEq, Eq)]
pub enum Stage {
    /// To be started.
    New,
    /// A checkpoint from a peer.
    Syncing,
    /// The verification of a checkpoint.
    CheckpointVerification(Block),
    /// The digest of an adopted checkpoint.
    CheckpointDigest(Block),
    /// The leader of the first round.
    StartupLeader,
    /// News.
    Idle,
    VoteVerification(Vote),
    VoteAggregation,
    /// The leader of the round that a quorum of votes led to.
    VoteLeader,
    /// Our own timeout to be signed.
    TimeoutSigning,
    TimeoutVerification(Timeout),
    TimeoutAggregation,
    /// The leader of the round that a quorum of timeouts led to.
    TimeoutLeader(TC),
    TCVerification(TC),
    /// The leader of the round that a received timeout certificate led to.
    TCLeader(TC),
    ProposalDigest(Block),
    /// The leader of the round of a proposal.
    ProposalLeader(Block, Digest),
    ProposalVerification(Block),
    PayloadVerification(Block),
    AncestorLookup(Block),
    /// The digest of `block`, to store it; its ancestors are `b0 <- b1 <- block`.
    BlockDigest { block: Block, b0: Block, b1: Block },
    /// The parent of the last of `ancestors`, or of `head` if there is none:
    /// they are to be committed together, while `block` is being processed.
    ParentLookup { block: Block, head: Block, ancestors: Vec<Block> },
    /// Our vote for a block to be signed.
    VoteSigning(Block),
    /// The leader of the round after that of our vote.
    NextLeader(Vote),
}

/// Mathematical value of an [`Input`].
pub enum InputView {
    Start(CoreStartMode),
    Message(ConsensusMessageView),
    Loopback(BlockView),
    TimerExpired,
    SyncAbandoned,
    Digest(Digest),
    Leader(PublicKey),
    Verified(Result<(), ConsensusError>),
    VoteAdded(Result<Option<QCView>, ConsensusError>),
    TimeoutAdded(Result<Option<TCView>, ConsensusError>),
    VoteSigned(Vote),
    TimeoutSigned(TimeoutView),
    PayloadVerified(Result<bool, ConsensusError>),
    AncestorsFound(Result<Option<(BlockView, BlockView)>, ConsensusError>),
    ParentFound(Result<Option<BlockView>, ConsensusError>),
}

/// Mathematical value of a [`Query`].
pub enum QueryView {
    Digest(BlockView),
    Leader(Round),
    VerifyBlock(BlockView),
    VerifyVote(Vote),
    VerifyTimeout(TimeoutView),
    VerifyTC(TCView),
    AddVote(Vote),
    AddTimeout(TimeoutView),
    SignVote(BlockView, PublicKey),
    SignTimeout(QCView, Round, PublicKey),
    VerifyPayload(BlockView),
    Ancestors(BlockView),
    Parent(BlockView),
}

/// Mathematical value of an [`Effect`].
pub enum EffectView {
    ResetTimer,
    CleanupAggregator(Round),
    CleanupMempool(Round),
    Proposer(ProposerMessageView),
    Helper(HelperRequest),
    Commit(BlockView),
    Send(Address, ConsensusMessageView),
    Broadcast(Seq<Address>, ConsensusMessageView),
    WriteStore(Seq<u8>, BlockView),
}

/// Mathematical value of a [`Next`].
pub enum NextView {
    Ask(QueryView),
    AwaitCheckpoint,
    Done(Result<(), ConsensusError>),
}

/// Mathematical value of a [`Reply`].
pub struct ReplyView {
    pub effects: Seq<EffectView>,
    pub next: NextView,
}

/// Mathematical value of a [`Stage`].
pub enum StageView {
    New,
    Syncing,
    CheckpointVerification(BlockView),
    CheckpointDigest(BlockView),
    StartupLeader,
    Idle,
    VoteVerification(Vote),
    VoteAggregation,
    VoteLeader,
    TimeoutSigning,
    TimeoutVerification(TimeoutView),
    TimeoutAggregation,
    TimeoutLeader(TCView),
    TCVerification(TCView),
    TCLeader(TCView),
    ProposalDigest(BlockView),
    ProposalLeader(BlockView, Digest),
    ProposalVerification(BlockView),
    PayloadVerification(BlockView),
    AncestorLookup(BlockView),
    BlockDigest { block: BlockView, b0: BlockView, b1: BlockView },
    ParentLookup { block: BlockView, head: BlockView, ancestors: Seq<BlockView> },
    VoteSigning(BlockView),
    NextLeader(Vote),
}

/// The mathematical value of a result.
pub open spec fn result_view<T: DeepView>(res: Result<T, ConsensusError>) -> Result<
    T::V,
    ConsensusError,
> {
    match res {
        Ok(value) => Ok(value.deep_view()),
        Err(e) => Err(e),
    }
}

impl View for Input {
    type V = InputView;

    open spec fn view(&self) -> InputView {
        match *self {
            Input::Start(mode) => InputView::Start(mode),
            Input::Message(message) => InputView::Message(message@),
            Input::Loopback(block) => InputView::Loopback(block@),
            Input::TimerExpired => InputView::TimerExpired,
            Input::SyncAbandoned => InputView::SyncAbandoned,
            Input::Digest(digest) => InputView::Digest(digest),
            Input::Leader(leader) => InputView::Leader(leader),
            Input::Verified(res) => InputView::Verified(res),
            Input::VoteAdded(res) => InputView::VoteAdded(result_view(res)),
            Input::TimeoutAdded(res) => InputView::TimeoutAdded(result_view(res)),
            Input::VoteSigned(vote) => InputView::VoteSigned(vote),
            Input::TimeoutSigned(timeout) => InputView::TimeoutSigned(timeout@),
            Input::PayloadVerified(res) => InputView::PayloadVerified(res),
            Input::AncestorsFound(res) => InputView::AncestorsFound(result_view(res)),
            Input::ParentFound(res) => InputView::ParentFound(result_view(res)),
        }
    }
}

impl View for Query {
    type V = QueryView;

    open spec fn view(&self) -> QueryView {
        match *self {
            Query::Digest(block) => QueryView::Digest(block@),
            Query::Leader(round) => QueryView::Leader(round),
            Query::VerifyBlock(block) => QueryView::VerifyBlock(block@),
            Query::VerifyVote(vote) => QueryView::VerifyVote(vote),
            Query::VerifyTimeout(timeout) => QueryView::VerifyTimeout(timeout@),
            Query::VerifyTC(tc) => QueryView::VerifyTC(tc@),
            Query::AddVote(vote) => QueryView::AddVote(vote),
            Query::AddTimeout(timeout) => QueryView::AddTimeout(timeout@),
            Query::SignVote(block, name) => QueryView::SignVote(block@, name),
            Query::SignTimeout(qc, round, name) => QueryView::SignTimeout(qc@, round, name),
            Query::VerifyPayload(block) => QueryView::VerifyPayload(block@),
            Query::Ancestors(block) => QueryView::Ancestors(block@),
            Query::Parent(block) => QueryView::Parent(block@),
        }
    }
}

impl View for Effect {
    type V = EffectView;

    open spec fn view(&self) -> EffectView {
        match *self {
            Effect::ResetTimer => EffectView::ResetTimer,
            Effect::CleanupAggregator(round) => EffectView::CleanupAggregator(round),
            Effect::CleanupMempool(round) => EffectView::CleanupMempool(round),
            Effect::Proposer(message) => EffectView::Proposer(message@),
            Effect::Helper(request) => EffectView::Helper(request),
            Effect::Commit(block) => EffectView::Commit(block@),
            Effect::Send(address, message) => EffectView::Send(address, message@),
            Effect::Broadcast(addresses, message) => EffectView::Broadcast(
                addresses@,
                message@,
            ),
            Effect::WriteStore(key, block) => EffectView::WriteStore(key@, block@),
        }
    }
}

impl DeepView for Effect {
    type V = EffectView;

    open spec fn deep_view(&self) -> EffectView {
        self@
    }
}

impl View for Next {
    type V = NextView;

    open spec fn view(&self) -> NextView {
        match *self {
            Next::Ask(query) => NextView::Ask(query@),
            Next::AwaitCheckpoint => NextView::AwaitCheckpoint,
            Next::Done(res) => NextView::Done(res),
        }
    }
}

impl View for Reply {
    type V = ReplyView;

    open spec fn view(&self) -> ReplyView {
        ReplyView { effects: self.effects.deep_view(), next: self.next@ }
    }
}

impl View for Stage {
    type V = StageView;

    open spec fn view(&self) -> StageView {
        match *self {
            Stage::New => StageView::New,
            Stage::Syncing => StageView::Syncing,
            Stage::CheckpointVerification(block) => StageView::CheckpointVerification(block@),
            Stage::CheckpointDigest(block) => StageView::CheckpointDigest(block@),
            Stage::StartupLeader => StageView::StartupLeader,
            Stage::Idle => StageView::Idle,
            Stage::VoteVerification(vote) => StageView::VoteVerification(vote),
            Stage::VoteAggregation => StageView::VoteAggregation,
            Stage::VoteLeader => StageView::VoteLeader,
            Stage::TimeoutSigning => StageView::TimeoutSigning,
            Stage::TimeoutVerification(timeout) => StageView::TimeoutVerification(timeout@),
            Stage::TimeoutAggregation => StageView::TimeoutAggregation,
            Stage::TimeoutLeader(tc) => StageView::TimeoutLeader(tc@),
            Stage::TCVerification(tc) => StageView::TCVerification(tc@),
            Stage::TCLeader(tc) => StageView::TCLeader(tc@),
            Stage::ProposalDigest(block) => StageView::ProposalDigest(block@),
            Stage::ProposalLeader(block, digest) => StageView::ProposalLeader(block@, digest),
            Stage::ProposalVerification(block) => StageView::ProposalVerification(block@),
            Stage::PayloadVerification(block) => StageView::PayloadVerification(block@),
            Stage::AncestorLookup(block) => StageView::AncestorLookup(block@),
            Stage::BlockDigest { block, b0, b1 } => StageView::BlockDigest {
                block: block@,
                b0: b0@,
                b1: b1@,
            },
            Stage::ParentLookup { block, head, ancestors } => StageView::ParentLookup {
                block: block@,
                head: head@,
                ancestors: ancestors.deep_view(),
            },
            Stage::VoteSigning(block) => StageView::VoteSigning(block@),
            Stage::NextLeader(vote) => StageView::NextLeader(vote),
        }
    }
}

impl Effect {
    /// Adds an effect behind the others.
    pub fn emit(self, effects: &mut Vec<Effect>)
        ensures
            final(effects).deep_view() == old(effects).deep_view().push(self@),
    {
        let ghost before = effects.deep_view();
        effects.push(self);
        assert(effects.deep_view() =~= before.push(self@));
    }
}

} // verus!
