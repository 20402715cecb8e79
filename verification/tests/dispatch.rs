use bytes::Bytes;
use consensus::config::{Address, Authority, Committee, IpAddress};
use consensus::consensus::{
    Consensus, ConsensusMessage, Destination, CHANNEL_CAPACITY,
};
use consensus::error::{report, ConsensusError, Report};
use consensus::helper::HelperRequest;
use consensus::keys::{Digest, PublicKey, Signature};
use consensus::messages::{Block, Timeout, Vote, QC, TC};
use consensus::node::FAST_SYNC_TIMEOUT_MS;
use consensus::wire::{acknowledgement, frame};

fn key(n: u8) -> PublicKey {
    PublicKey([n; 32])
}

fn signature() -> Signature {
    Signature { part1: [0; 32], part2: [0; 32] }
}

fn block() -> Block {
    Block {
        qc: QC::genesis(),
        tc: None,
        author: key(1),
        round: 1,
        epoch: 1,
        payload: vec![],
        signature: signature(),
    }
}

fn committee() -> Committee {
    Committee {
        authorities: vec![
            Authority {
                name: key(1),
                address: Address { ip: IpAddress::V4([10, 0, 0, 1]), port: 9001 },
            },
            Authority {
                name: key(2),
                address: Address { ip: IpAddress::V6([1; 16]), port: 9002 },
            },
            Authority {
                name: key(3),
                address: Address { ip: IpAddress::V4([10, 0, 0, 3]), port: 9003 },
            },
        ],
    }
}

#[test]
fn proposals_are_acknowledged() {
    let dispatch = Consensus::dispatch(Ok(ConsensusMessage::Propose(block()))).unwrap();
    assert_eq!(dispatch.reply, Some(Bytes::from("Ack")));
    assert_eq!(dispatch.reply.unwrap().to_vec(), vec![65, 99, 107]);
    assert_eq!(dispatch.destination, Destination::Core(ConsensusMessage::Propose(block())));
}

#[test]
fn requests_go_to_the_helper() {
    let message = ConsensusMessage::SyncRequest(Digest([5; 32]), key(2));
    let dispatch = Consensus::dispatch(Ok(message)).unwrap();
    assert_eq!(dispatch.reply, None);
    let request = HelperRequest::GetBlock(Digest([5; 32]), key(2));
    assert_eq!(dispatch.destination, Destination::Helper(request));

    let message = ConsensusMessage::SyncCheckpointRequest(key(3));
    let dispatch = Consensus::dispatch(Ok(message)).unwrap();
    assert_eq!(dispatch.reply, None);
    let request = HelperRequest::GetCheckpoint(key(3));
    assert_eq!(dispatch.destination, Destination::Helper(request));
}

#[test]
fn all_else_goes_to_the_core() {
    let messages = || {
        vec![
            ConsensusMessage::Vote(Vote {
                hash: Digest([1; 32]),
                round: 3,
                author: key(1),
                signature: signature(),
            }),
            ConsensusMessage::Timeout(Timeout {
                high_qc: QC::genesis(),
                round: 3,
                author: key(1),
                signature: signature(),
            }),
            ConsensusMessage::TC(TC { round: 3, votes: vec![] }),
            ConsensusMessage::SyncCheckpointResponse(Some(block())),
            ConsensusMessage::SyncCheckpointResponse(None),
        ]
    };
    for (message, same) in messages().into_iter().zip(messages()) {
        let dispatch = Consensus::dispatch(Ok(message)).unwrap();
        assert_eq!(dispatch.reply, None);
        assert_eq!(dispatch.destination, Destination::Core(same));
    }
}

#[test]
fn undecodable_message_is_refused() {
    let result = Consensus::dispatch(Err(format!("unexpected end"))).map(|_| ());
    let error = ConsensusError::SerializationError(format!("unexpected end"));
    assert_eq!(result, Err(error));
}

#[test]
fn reports() {
    assert_eq!(report(&Ok(())), Report::Nothing);
    assert_eq!(report(&Err(ConsensusError::StoreError(format!("x")))), Report::StoreFailure);
    let corrupted = ConsensusError::SerializationError(format!("x"));
    assert_eq!(report(&Err(corrupted)), Report::StoreCorrupted);
    let invalid = ConsensusError::InvalidMessage(format!("x"));
    assert_eq!(report(&Err(invalid)), Report::Refusal);
}

#[test]
fn frames_hold_the_message() {
    let buffer = frame(vec![9, 8, 7, 0]);
    assert_eq!(buffer.len(), 4);
    assert_eq!(&buffer[..], [9, 8, 7, 0]);
    assert_eq!(frame(vec![]).len(), 0);
    let mut spare = Vec::with_capacity(64);
    spare.push(3);
    assert_eq!(&frame(spare)[..], [3]);
    assert_eq!(&acknowledgement()[..], b"Ack");
}

#[test]
fn nodes_listen_on_every_interface() {
    let any = |port| Some(Address { ip: IpAddress::V4([0, 0, 0, 0]), port });
    assert_eq!(Consensus::listen_address(&key(1), &committee()), any(9001));
    assert_eq!(Consensus::listen_address(&key(2), &committee()), any(9002));
    assert_eq!(Consensus::listen_address(&key(7), &committee()), None);
}

#[test]
fn addresses_of_members() {
    let committee = committee();
    assert_eq!(committee.address(&key(3)), Some(committee.authorities[2].address));
    assert_eq!(committee.address(&key(7)), None);
    let peers = committee.broadcast_addresses(&key(2));
    assert_eq!(peers, vec![committee.authorities[0], committee.authorities[2]]);
    let addresses = committee.peer_addresses(&key(1));
    assert_eq!(
        addresses,
        vec![committee.authorities[1].address, committee.authorities[2].address]
    );
    assert_eq!(committee.broadcast_addresses(&key(7)).len(), 3);
    assert_eq!(committee.clone(), committee);
}

#[test]
fn digests_are_their_bytes() {
    let mut bytes = [0u8; 32];
    bytes[0] = 7;
    bytes[31] = 9;
    assert_eq!(Digest(bytes).to_vec(), bytes.to_vec());
    assert!(Digest(bytes) == Digest(bytes));
    assert!(Digest(bytes) != Digest([0; 32]));
    assert!(key(1) != key(2));
}

#[test]
fn rounds_known_to_the_signers() {
    let votes = vec![(key(1), signature(), 4), (key(2), signature(), 2)];
    let tc = TC { round: 5, votes };
    assert_eq!(tc.high_qc_rounds(), vec![4, 2]);
    assert_eq!(tc.clone(), tc);
}

#[test]
fn constants() {
    assert_eq!(CHANNEL_CAPACITY, 1000);
    assert_eq!(FAST_SYNC_TIMEOUT_MS, 10_000);
    assert_eq!(consensus::model::ROUNDS_PER_EPOCH, 5000);
}
