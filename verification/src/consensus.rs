//! The messages of the protocol and where each of them goes.

use crate::config::{address_of, Address, Committee, IpAddress};
use crate::error::ConsensusError;
use crate::helper::HelperRequest;
use crate::keys::{Digest, PublicKey};
use crate::messages::{Block, BlockView, TCView, Timeout, TimeoutView, Vote, TC};
use crate::wire::{ack_contents, acknowledgement, bytes_contents};
use bytes::Bytes;
use vstd::prelude::*;

verus! {

/// The default capacity of each channel of the consensus.
pub const CHANNEL_CAPACITY: usize = 1_000;

/// The consensus round number.
pub type Round = u64;

#[derive(Debug, PartialEq, Eq)]
pub enum ConsensusMessage {
    Propose(Block),
    Vote(Vote),
    Timeout(Timeout),
    TC(TC),
    SyncRequest(Digest, PublicKey),
    /// Asks for the latest checkpoint.
    SyncCheckpointRequest(PublicKey),
    /// Answers with the last block of the latest epoch known to have ended.
    SyncCheckpointResponse(Option<Block>),
}

/// How a node begins.
#[derive(Debug, Clone, Copy, PartialEq, Eq)]
pub enum CoreStartMode {
    Genesis,
    FastSync,
}

/// Mathematical value of a [`ConsensusMessage`].
pub enum ConsensusMessageView {
    Propose(BlockView),
    Vote(Vote),
    Timeout(TimeoutView),
    TC(TCView),
    SyncRequest(Digest, PublicKey),
    SyncCheckpointRequest(PublicKey),
    SyncCheckpointResponse(Option<BlockView>),
}

impl View for ConsensusMessage {
    type V = ConsensusMessageView;

    open spec fn view(&self) -> ConsensusMessageView {
        match *self {
            ConsensusMessage::Propose(block) => ConsensusMessageView::Propose(block@),
            ConsensusMessage::Vote(vote) => ConsensusMessageView::Vote(vote),
            ConsensusMessage::Timeout(timeout) => ConsensusMessageView::Timeout(timeout@),
            ConsensusMessage::TC(tc) => ConsensusMessageView::TC(tc@),
            ConsensusMessage::SyncRequest(digest, origin) => ConsensusMessageView::SyncRequest(
                digest,
                origin,
            ),
            ConsensusMessage::SyncCheckpointRequest(origin) =>
                ConsensusMessageView::SyncCheckpointRequest(origin),
            ConsensusMessage::SyncCheckpointResponse(block) =>
                ConsensusMessageView::SyncCheckpointResponse(block.deep_view()),
        }
    }
}

/// The task of the node that a message is meant for.
#[derive(Debug, PartialEq, Eq)]
pub enum Destination {
    Helper(HelperRequest),
    Core(ConsensusMessage),
}

/// What is done with a message received from the network.
#[derive(Debug, PartialEq, Eq)]
pub struct Dispatch {
    /// What is sent back to the sender at once.
    pub reply: Option<Bytes>,
    pub destination: Destination,
}

pub struct Consensus;

impl Consensus {
    /// The address on which a node listens: the port under which the committee
    /// knows it, on every local interface. `None` for a node that is not a
    /// member.
    pub fn listen_address(name: &PublicKey, committee: &Committee) -> (address: Option<Address>)
        ensures
            match address_of(committee@, *name) {
                Some(known) => {
                    &&& address matches Some(listen)
                    &&& listen.port == known.port
                    &&& listen.ip matches IpAddress::V4(ip)
                    &&& ip@ == seq![0u8, 0u8, 0u8, 0u8]
                },
                None => address is None,
            },
    {
        match committee.address(name) {
            Some(known) => {
                let ip: [u8; 4] = [0, 0, 0, 0];
                assert(ip@ =~= seq![0u8, 0u8, 0u8, 0u8]);
                Some(Address { ip: IpAddress::V4(ip), port: known.port })
            },
            None => None,
        }
    }

    /// Decides what to do with a message received from the network, given the
    /// outcome of decoding it. Requests for help go to the helper, all else to
    /// the core, and only proposals are acknowledged.
    pub fn dispatch(decoded: Result<ConsensusMessage, String>) -> (res: Result<
        Dispatch,
        ConsensusError,
    >)
        ensures
            match decoded {
                Err(reason) => res == Err::<Dispatch, _>(
                    ConsensusError::SerializationError(reason),
                ),
                Ok(message) => {
                    &&& res matches Ok(dispatch)
                    &&& dispatch.destination == (match message {
                        ConsensusMessage::SyncRequest(missing, origin) => Destination::Helper(
                            HelperRequest::GetBlock(missing, origin),
                        ),
                        ConsensusMessage::SyncCheckpointRequest(origin) => Destination::Helper(
                            HelperRequest::GetCheckpoint(origin),
                        ),
                        _ => Destination::Core(message),
                    })
                    &&& dispatch.reply is Some <==> message is Propose
                    &&& dispatch.reply matches Some(ack) ==> bytes_contents(ack)
                        == ack_contents() && bytes_contents(ack) == seq![65u8, 99u8, 107u8]
                },
            },
    {
        let message = match decoded {
            Ok(message) => message,
            Err(reason) => {
                return Err(ConsensusError::SerializationError(reason));
            },
        };
        let dispatch = match message {
            ConsensusMessage::SyncRequest(missing, origin) => Dispatch {
                reply: None,
                destination: Destination::Helper(HelperRequest::GetBlock(missing, origin)),
            },
            ConsensusMessage::SyncCheckpointRequest(origin) => Dispatch {
                reply: None,
                destination: Destination::Helper(HelperRequest::GetCheckpoint(origin)),
            },
            ConsensusMessage::Propose(block) => Dispatch {
                reply: Some(acknowledgement()),
                destination: Destination::Core(ConsensusMessage::Propose(block)),
            },
            other => Dispatch { reply: None, destination: Destination::Core(other) },
        };
        Ok(dispatch)
    }
}

} // verus!
