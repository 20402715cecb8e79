use consensus::config::{Address, Authority, Committee, IpAddress};
use consensus::consensus::ConsensusMessage;
use consensus::helper::{Helper, HelperInput, HelperReply, HelperRequest};
use consensus::keys::{Digest, PublicKey, Signature};
use consensus::messages::{Block, QC};

fn key(n: u8) -> PublicKey {
    PublicKey([n; 32])
}

fn address(n: u8) -> Address {
    Address { ip: IpAddress::V4([10, 0, 0, n]), port: 7 }
}

fn helper() -> Helper {
    let authorities = (1..=2).map(|n| Authority { name: key(n), address: address(n) }).collect();
    Helper::new(Committee { authorities })
}

fn block() -> Block {
    Block {
        qc: QC::genesis(),
        tc: None,
        author: key(1),
        round: 4999,
        epoch: 1,
        payload: vec![],
        signature: Signature { part1: [0; 32], part2: [0; 32] },
    }
}

fn step(helper: &mut Helper, input: HelperInput) -> HelperReply {
    assert!(helper.expects(&input));
    helper.step(input)
}

fn request(helper: &mut Helper, request: HelperRequest) -> HelperReply {
    step(helper, HelperInput::Request(request))
}

fn response(to: u8, block: Option<Block>) -> HelperReply {
    HelperReply::Send(address(to), ConsensusMessage::SyncCheckpointResponse(block))
}

#[test]
fn block_is_served_as_a_proposal() {
    let mut helper = helper();
    let reply = request(&mut helper, HelperRequest::GetBlock(Digest([6; 32]), key(2)));
    assert_eq!(reply, HelperReply::Read(vec![6; 32]));
    let reply = step(&mut helper, HelperInput::StoreRead(Ok(Some(vec![1, 2, 3]))));
    assert_eq!(reply, HelperReply::Decode(vec![1, 2, 3]));
    let reply = step(&mut helper, HelperInput::Decoded(Ok(block())));
    let proposal = ConsensusMessage::Propose(block());
    assert_eq!(reply, HelperReply::Send(address(2), proposal));
}

#[test]
fn unavailable_block_is_not_answered() {
    for answer in [Ok(None), Err(format!("disk"))] {
        let mut helper = helper();
        request(&mut helper, HelperRequest::GetBlock(Digest([6; 32]), key(2)));
        let reply = step(&mut helper, HelperInput::StoreRead(answer));
        assert_eq!(reply, HelperReply::Nothing);
    }
    let mut helper = helper();
    request(&mut helper, HelperRequest::GetBlock(Digest([6; 32]), key(2)));
    step(&mut helper, HelperInput::StoreRead(Ok(Some(vec![1]))));
    let reply = step(&mut helper, HelperInput::Decoded(Err(format!("truncated"))));
    assert_eq!(reply, HelperReply::Nothing);
}

#[test]
fn strangers_are_not_served() {
    let mut helper = helper();
    request(&mut helper, HelperRequest::UpdateCheckpoint(Digest([3; 32])));
    let reply = request(&mut helper, HelperRequest::GetBlock(Digest([6; 32]), key(9)));
    assert_eq!(reply, HelperReply::Nothing);
    let reply = request(&mut helper, HelperRequest::GetCheckpoint(key(9)));
    assert_eq!(reply, HelperReply::Nothing);
}

#[test]
fn no_checkpoint_yet() {
    let mut helper = helper();
    assert_eq!(helper.current_checkpoint_digest(), None);
    let reply = request(&mut helper, HelperRequest::GetCheckpoint(key(1)));
    assert_eq!(reply, response(1, None));
}

#[test]
fn latest_checkpoint_is_served() {
    let mut helper = helper();
    for n in [3, 4] {
        let reply = request(&mut helper, HelperRequest::UpdateCheckpoint(Digest([n; 32])));
        assert_eq!(reply, HelperReply::Nothing);
    }
    assert_eq!(helper.current_checkpoint_digest(), Some(Digest([4; 32])));
    let reply = request(&mut helper, HelperRequest::GetCheckpoint(key(1)));
    assert_eq!(reply, HelperReply::Read(vec![4; 32]));
    let reply = step(&mut helper, HelperInput::StoreRead(Ok(Some(vec![5]))));
    assert_eq!(reply, HelperReply::Decode(vec![5]));
    let reply = step(&mut helper, HelperInput::Decoded(Ok(block())));
    assert_eq!(reply, response(1, Some(block())));
    assert_eq!(helper.current_checkpoint_digest(), Some(Digest([4; 32])));
}

#[test]
fn unavailable_checkpoint_is_answered_with_none() {
    for answer in [Ok(None), Err(format!("disk"))] {
        let mut helper = helper();
        request(&mut helper, HelperRequest::UpdateCheckpoint(Digest([4; 32])));
        request(&mut helper, HelperRequest::GetCheckpoint(key(2)));
        let reply = step(&mut helper, HelperInput::StoreRead(answer));
        assert_eq!(reply, response(2, None));
    }
    let mut helper = helper();
    request(&mut helper, HelperRequest::UpdateCheckpoint(Digest([4; 32])));
    request(&mut helper, HelperRequest::GetCheckpoint(key(2)));
    step(&mut helper, HelperInput::StoreRead(Ok(Some(vec![1]))));
    let reply = step(&mut helper, HelperInput::Decoded(Err(format!("truncated"))));
    assert_eq!(reply, response(2, None));
}

#[test]
fn helper_expects_requests_or_answers() {
    let mut helper = helper();
    assert!(!helper.expects(&HelperInput::StoreRead(Ok(None))));
    request(&mut helper, HelperRequest::GetBlock(Digest([6; 32]), key(2)));
    assert!(!helper.expects(&HelperInput::Request(HelperRequest::GetCheckpoint(key(1)))));
    assert!(!helper.expects(&HelperInput::Decoded(Err(format!("early")))));
    assert!(helper.expects(&HelperInput::StoreRead(Ok(None))));
}
