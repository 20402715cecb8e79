//! The helper of a node: it serves blocks and checkpoints to other nodes.

use crate::config::{address_of, Address, Authority, Committee};
use crate::consensus::{ConsensusMessage, ConsensusMessageView};
use crate::keys::{Digest, PublicKey};
use crate::messages::{Block, BlockView};
use vstd::prelude::*;

verus! {

/// A request to the helper.
#[derive(Clone, Copy, Debug, PartialEq, Eq)]
pub enum HelperRequest {
    /// Another node asks for the block with the given digest.
    GetBlock(Digest, PublicKey),
    /// Another node asks for the latest checkpoint block.
    GetCheckpoint(PublicKey),
    /// The core names the digest of the new checkpoint block.
    UpdateCheckpoint(Digest),
}

/// What the helper is handed: a request, or the answer to its last question.
#[derive(Debug, PartialEq, Eq)]
pub enum HelperInput {
    Request(HelperRequest),
    /// Answer to [`HelperReply::Read`].
    StoreRead(Result<Option<Vec<u8>>, String>),
    /// Answer to [`HelperReply::Decode`].
    Decoded(Result<Block, String>),
}

/// The helper's response to an input.
#[derive(Debug, PartialEq, Eq)]
pub enum HelperReply {
    /// It needs what the store holds under a key.
    Read(Vec<u8>),
    /// It needs the block that some bytes encode.
    Decode(Vec<u8>),
    /// It is done, with a message to be sent.
    Send(Address, ConsensusMessage),
    /// It is done.
    Nothing,
}

/// What the helper is waiting for, and where its answer goes.
#[derive(Clone, Copy, Debug, PartialEq, Eq)]
pub enum HelperStage {
    /// A request.
    Idle,
    ReadingBlock(Address),
    DecodingBlock(Address),
    ReadingCheckpoint(Address),
    DecodingCheckpoint(Address),
}

/// The state of the helper.
#[derive(Debug, PartialEq, Eq)]
pub struct Helper {
    committee: Committee,
    /// The digest of the latest checkpoint that the core named.
    current_checkpoint_digest: Option<Digest>,
    stage: HelperStage,
}

/// Mathematical value of a [`HelperInput`].
pub enum HelperInputView {
    Request(HelperRequest),
    StoreRead(Result<Option<Seq<u8>>, String>),
    Decoded(Result<BlockView, String>),
}

/// Mathematical value of a [`HelperReply`].
pub enum HelperReplyView {
    Read(Seq<u8>),
    Decode(Seq<u8>),
    Send(Address, ConsensusMessageView),
    Nothing,
}

/// Mathematical value of a [`Helper`].
pub struct HelperView {
    pub committee: Seq<Authority>,
    pub current_checkpoint_digest: Option<Digest>,
    pub stage: HelperStage,
}

impl View for HelperInput {
    type V = HelperInputView;

    open spec fn view(&self) -> HelperInputView {
        match *self {
            HelperInput::Request(request) => HelperInputView::Request(request),
            HelperInput::StoreRead(Ok(Some(bytes))) => HelperInputView::StoreRead(
                Ok(Some(bytes@)),
            ),
            HelperInput::StoreRead(Ok(None)) => HelperInputView::StoreRead(Ok(None)),
            HelperInput::StoreRead(Err(e)) => HelperInputView::StoreRead(Err(e)),
            HelperInput::Decoded(Ok(block)) => HelperInputView::Decoded(Ok(block@)),
            HelperInput::Decoded(Err(e)) => HelperInputView::Decoded(Err(e)),
        }
    }
}

impl View for HelperReply {
    type V = HelperReplyView;

    open spec fn view(&self) -> HelperReplyView {
        match *self {
            HelperReply::Read(key) => HelperReplyView::Read(key@),
            HelperReply::Decode(bytes) => HelperReplyView::Decode(bytes@),
            HelperReply::Send(address, message) => HelperReplyView::Send(address, message@),
            HelperReply::Nothing => HelperReplyView::Nothing,
        }
    }
}

impl View for Helper {
    type V = HelperView;

    closed spec fn view(&self) -> HelperView {
        HelperView {
            committee: self.committee@,
            current_checkpoint_digest: self.current_checkpoint_digest,
            stage: self.stage,
        }
    }
}

impl HelperView {
    pub open spec fn reply(self, stage: HelperStage, reply: HelperReplyView) -> (
        HelperView,
        HelperReplyView,
    ) {
        (HelperView { stage, ..self }, reply)
    }

    /// A request for a block is dealt with: the block is sent if there is one.
    pub open spec fn serve_block(self, address: Address, block: Option<BlockView>) -> (
        HelperView,
        HelperReplyView,
    ) {
        self.reply(
            HelperStage::Idle,
            match block {
                Some(block) => HelperReplyView::Send(
                    address,
                    ConsensusMessageView::Propose(block),
                ),
                None => HelperReplyView::Nothing,
            },
        )
    }

    /// A request for the checkpoint is dealt with: it is answered even if there
    /// is none.
    pub open spec fn serve_checkpoint(self, address: Address, block: Option<BlockView>) -> (
        HelperView,
        HelperReplyView,
    ) {
        self.reply(
            HelperStage::Idle,
            HelperReplyView::Send(address, ConsensusMessageView::SyncCheckpointResponse(block)),
        )
    }

    pub open spec fn handle(self, request: HelperRequest) -> (HelperView, HelperReplyView) {
        match request {
            HelperRequest::GetBlock(digest, origin) => {
                match address_of(self.committee, origin) {
                    Some(address) => self.reply(
                        HelperStage::ReadingBlock(address),
                        HelperReplyView::Read(digest.0@),
                    ),
                    None => self.reply(HelperStage::Idle, HelperReplyView::Nothing),
                }
            },
            HelperRequest::UpdateCheckpoint(digest) => HelperView {
                current_checkpoint_digest: Some(digest),
                ..self
            }.reply(HelperStage::Idle, HelperReplyView::Nothing),
            HelperRequest::GetCheckpoint(origin) => {
                match (
                    address_of(self.committee, origin),
                    self.current_checkpoint_digest,
                ) {
                    (Some(address), Some(digest)) => self.reply(
                        HelperStage::ReadingCheckpoint(address),
                        HelperReplyView::Read(digest.0@),
                    ),
                    (Some(address), None) => self.serve_checkpoint(address, None),
                    (None, _) => self.reply(HelperStage::Idle, HelperReplyView::Nothing),
                }
            },
        }
    }

    /// Whether the input is one that the helper is waiting for.
    pub open spec fn expects(self, input: HelperInputView) -> bool {
        match self.stage {
            HelperStage::Idle => input is Request,
            HelperStage::ReadingBlock(_) | HelperStage::ReadingCheckpoint(_) => input is StoreRead,
            HelperStage::DecodingBlock(_) | HelperStage::DecodingCheckpoint(_) => input is Decoded,
        }
    }

    /// The next state and the reply to an input that the helper expects.
    pub open spec fn step(self, input: HelperInputView) -> (HelperView, HelperReplyView) {
        match (self.stage, input) {
            (_, HelperInputView::Request(request)) => self.handle(request),
            (
                HelperStage::ReadingBlock(address),
                HelperInputView::StoreRead(Ok(Some(bytes))),
            ) => self.reply(HelperStage::DecodingBlock(address), HelperReplyView::Decode(bytes)),
            (
                HelperStage::ReadingCheckpoint(address),
                HelperInputView::StoreRead(Ok(Some(bytes))),
            ) => self.reply(
                HelperStage::DecodingCheckpoint(address),
                HelperReplyView::Decode(bytes),
            ),
            (HelperStage::DecodingBlock(address), HelperInputView::Decoded(Ok(block))) =>
                self.serve_block(address, Some(block)),
            (HelperStage::DecodingCheckpoint(address), HelperInputView::Decoded(Ok(block))) =>
                self.serve_checkpoint(address, Some(block)),
            // The block is missing, or cannot be read.
            (HelperStage::ReadingBlock(address), _) | (HelperStage::DecodingBlock(address), _) =>
                self.serve_block(address, None),
            (HelperStage::ReadingCheckpoint(address), _)
            | (HelperStage::DecodingCheckpoint(address), _) => self.serve_checkpoint(
                address,
                None,
            ),
            _ => self.reply(HelperStage::Idle, HelperReplyView::Nothing),
        }
    }
}

impl Helper {
    /// A helper that knows of no checkpoint yet.
    pub fn new(committee: Committee) -> (helper: Helper)
        ensures
            helper@ == (HelperView {
                committee: committee@,
                current_checkpoint_digest: None,
                stage: HelperStage::Idle,
            }),
    {
        Helper { committee, current_checkpoint_digest: None, stage: HelperStage::Idle }
    }

    /// The digest of the latest checkpoint that the core named.
    pub fn current_checkpoint_digest(&self) -> (digest: Option<Digest>)
        ensures
            digest == self@.current_checkpoint_digest,
    {
        self.current_checkpoint_digest
    }

    fn reply(&mut self, stage: HelperStage, reply: HelperReply) -> (res: HelperReply)
        ensures
            (final(self)@, res@) == old(self)@.reply(stage, reply@),
    {
        self.stage = stage;
        reply
    }

    fn serve_checkpoint(&mut self, address: Address, block: Option<Block>) -> (reply: HelperReply)
        ensures
            (final(self)@, reply@) == old(self)@.serve_checkpoint(address, block.deep_view()),
    {
        self.reply(
            HelperStage::Idle,
            HelperReply::Send(address, ConsensusMessage::SyncCheckpointResponse(block)),
        )
    }

    fn handle(&mut self, request: HelperRequest) -> (reply: HelperReply)
        ensures
            (final(self)@, reply@) == old(self)@.handle(request),
    {
        match request {
            HelperRequest::GetBlock(digest, origin) => {
                match self.committee.address(&origin) {
                    Some(address) => self.reply(
                        HelperStage::ReadingBlock(address),
                        HelperReply::Read(digest.to_vec()),
                    ),
                    None => self.reply(HelperStage::Idle, HelperReply::Nothing),
                }
            },
            HelperRequest::UpdateCheckpoint(digest) => {
                self.current_checkpoint_digest = Some(digest);
                self.reply(HelperStage::Idle, HelperReply::Nothing)
            },
            HelperRequest::GetCheckpoint(origin) => {
                let address = match self.committee.address(&origin) {
                    Some(address) => address,
                    None => {
                        return self.reply(HelperStage::Idle, HelperReply::Nothing);
                    },
                };
                match self.current_checkpoint_digest {
                    Some(digest) => self.reply(
                        HelperStage::ReadingCheckpoint(address),
                        HelperReply::Read(digest.to_vec()),
                    ),
                    None => self.serve_checkpoint(address, None),
                }
            },
        }
    }

    /// Whether the input is one that the helper is waiting for.
    pub fn expects(&self, input: &HelperInput) -> (expected: bool)
        ensures
            expected == self@.expects(input@),
    {
        match self.stage {
            HelperStage::Idle => matches!(input, HelperInput::Request(_)),
            HelperStage::ReadingBlock(_) | HelperStage::ReadingCheckpoint(_) => matches!(
                input,
                HelperInput::StoreRead(_)
            ),
            HelperStage::DecodingBlock(_) | HelperStage::DecodingCheckpoint(_) => matches!(
                input,
                HelperInput::Decoded(_)
            ),
        }
    }

    /// Takes an input: updates the state, and replies with what is needed or what
    /// is to be sent.
    pub fn step(&mut self, input: HelperInput) -> (reply: HelperReply)
        requires
            old(self)@.expects(input@),
        ensures
            (final(self)@, reply@) == old(self)@.step(input@),
    {
        match (self.stage, input) {
            (_, HelperInput::Request(request)) => self.handle(request),
            (HelperStage::ReadingBlock(address), HelperInput::StoreRead(Ok(Some(bytes)))) =>
                self.reply(HelperStage::DecodingBlock(address), HelperReply::Decode(bytes)),
            (HelperStage::ReadingCheckpoint(address), HelperInput::StoreRead(Ok(Some(bytes)))) =>
                self.reply(HelperStage::DecodingCheckpoint(address), HelperReply::Decode(bytes)),
            (HelperStage::DecodingBlock(address), HelperInput::Decoded(Ok(block))) => self.reply(
                HelperStage::Idle,
                HelperReply::Send(address, ConsensusMessage::Propose(block)),
            ),
            (HelperStage::DecodingCheckpoint(address), HelperInput::Decoded(Ok(block))) =>
                self.serve_checkpoint(address, Some(block)),
            (HelperStage::ReadingCheckpoint(address), _)
            | (HelperStage::DecodingCheckpoint(address), _) => self.serve_checkpoint(
                address,
                None,
            ),
            _ => self.reply(HelperStage::Idle, HelperReply::Nothing),
        }
    }
}

} // verus!
