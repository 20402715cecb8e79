use consensus::config::{Address, Authority, Committee, IpAddress};
use consensus::consensus::{ConsensusMessage, CoreStartMode};
use consensus::error::{report, ConsensusError, Report};
use consensus::helper::HelperRequest;
use consensus::keys::{Digest, PublicKey, Signature};
use consensus::messages::{Block, Timeout, Vote, QC, TC};
use consensus::node::{epoch_of_round, Core};
use consensus::proposer::ProposerMessage;
use consensus::protocol::{Effect, Input, Next, Query, Reply};

fn key(n: u8) -> PublicKey {
    PublicKey([n; 32])
}

fn digest(n: u8) -> Digest {
    Digest([n; 32])
}

fn signature() -> Signature {
    Signature { part1: [1; 32], part2: [2; 32] }
}

fn address(n: u8) -> Address {
    Address { ip: IpAddress::V4([127, 0, 0, n]), port: 9000 }
}

fn committee() -> Committee {
    let authorities = (1..=4).map(|n| Authority { name: key(n), address: address(n) }).collect();
    Committee { authorities }
}

fn qc(round: u64) -> QC {
    QC { hash: digest(round as u8), round, votes: vec![(key(1), signature())] }
}

fn tc(round: u64, high_qc_rounds: &[u64]) -> TC {
    let votes = high_qc_rounds.iter().map(|r| (key(1), signature(), *r)).collect();
    TC { round, votes }
}

fn vote(round: u64) -> Vote {
    Vote { hash: digest(9), round, author: key(2), signature: signature() }
}

fn timeout(round: u64, high_qc: QC) -> Timeout {
    Timeout { high_qc, round, author: key(2), signature: signature() }
}

/// A block of the given round on top of a block of the round before.
fn block(round: u64) -> Block {
    Block {
        qc: qc(round - 1),
        tc: None,
        author: key(3),
        round,
        epoch: 1,
        payload: vec![digest(round as u8 + 100)],
        signature: signature(),
    }
}

fn step(core: &mut Core, input: Input) -> Reply {
    assert!(core.admits(&input));
    core.step(input)
}

fn ask(reply: Reply) -> Query {
    match reply.next {
        Next::Ask(query) => query,
        other => panic!("{:?}", other),
    }
}

fn done(reply: Reply) -> Result<(), ConsensusError> {
    match reply.next {
        Next::Done(result) => result,
        other => panic!("{:?}", other),
    }
}

/// The core of node 1 in normal operation, which does not lead the first round.
fn idle_core() -> Core {
    let mut core = Core::new(key(1), committee(), true);
    step(&mut core, Input::Start(CoreStartMode::Genesis));
    let reply = step(&mut core, Input::Leader(key(2)));
    assert_eq!(reply.effects, vec![]);
    assert_eq!(done(reply), Ok(()));
    core
}

/// Completes a round with a quorum of votes; we do not lead the next one.
fn complete(core: &mut Core, round: u64) -> Vec<Effect> {
    step(core, Input::Message(ConsensusMessage::Vote(vote(round))));
    step(core, Input::Verified(Ok(())));
    let reply = step(core, Input::VoteAdded(Ok(Some(qc(round)))));
    step(core, Input::Leader(key(2)));
    reply.effects
}

/// Brings a block with its ancestors to the point where it is about to be stored.
fn before_store(core: &mut Core, block: &Block, b0: &Block, b1: &Block) {
    let reply = step(core, Input::Loopback(block.clone()));
    assert_eq!(ask(reply), Query::Ancestors(block.clone()));
    let found = Input::AncestorsFound(Ok(Some((b0.clone(), b1.clone()))));
    let reply = step(core, found);
    assert_eq!(reply.effects, vec![]);
    assert_eq!(ask(reply), Query::Digest(block.clone()));
}

fn committed(effects: &[Effect]) -> Vec<u64> {
    effects
        .iter()
        .filter_map(|effect| match effect {
            Effect::Commit(block) => Some(block.round),
            _ => None,
        })
        .collect()
}

#[test]
fn new_core_is_at_genesis() {
    let core = Core::new(key(1), committee(), false);
    assert_eq!(core.round(), 1);
    assert_eq!(core.last_voted_round(), 0);
    assert_eq!(core.last_committed_round(), 0);
    assert_eq!(core.current_epoch(), 1);
    assert_eq!(*core.high_qc(), QC { hash: digest(0), round: 0, votes: vec![] });
}

#[test]
fn start_asks_for_the_leader_of_the_first_round() {
    let mut core = Core::new(key(1), committee(), true);
    let reply = step(&mut core, Input::Start(CoreStartMode::Genesis));
    assert_eq!(reply.effects, vec![Effect::ResetTimer]);
    assert_eq!(ask(reply), Query::Leader(1));
}

#[test]
fn first_leader_proposes() {
    let mut core = Core::new(key(1), committee(), true);
    step(&mut core, Input::Start(CoreStartMode::Genesis));
    let reply = step(&mut core, Input::Leader(key(1)));
    let make = ProposerMessage::Make(1, 1, QC::genesis(), None);
    assert_eq!(reply.effects, vec![Effect::Proposer(make)]);
    assert_eq!(done(reply), Ok(()));
}

#[test]
fn stale_vote_is_ignored() {
    let mut core = idle_core();
    complete(&mut core, 1);
    let reply = step(&mut core, Input::Message(ConsensusMessage::Vote(vote(1))));
    assert_eq!(reply.effects, vec![]);
    assert_eq!(done(reply), Ok(()));
    assert_eq!(core.round(), 2);
}

#[test]
fn votes_below_a_quorum_change_nothing() {
    let mut core = idle_core();
    let reply = step(&mut core, Input::Message(ConsensusMessage::Vote(vote(1))));
    assert_eq!(ask(reply), Query::VerifyVote(vote(1)));
    let reply = step(&mut core, Input::Verified(Ok(())));
    assert_eq!(ask(reply), Query::AddVote(vote(1)));
    let reply = step(&mut core, Input::VoteAdded(Ok(None)));
    assert_eq!(done(reply), Ok(()));
    assert_eq!(core, idle_core());
}

#[test]
fn invalid_vote_is_refused() {
    let mut core = idle_core();
    step(&mut core, Input::Message(ConsensusMessage::Vote(vote(1))));
    let error = ConsensusError::InvalidMessage(format!("bad signature"));
    let reply = step(&mut core, Input::Verified(Err(error)));
    assert_eq!(reply.effects, vec![]);
    let result = done(reply);
    assert_eq!(report(&result), Report::Refusal);
    assert_eq!(result, Err(ConsensusError::InvalidMessage(format!("bad signature"))));
    assert_eq!(core, idle_core());
}

#[test]
fn quorum_of_votes_completes_the_round() {
    let mut core = idle_core();
    step(&mut core, Input::Message(ConsensusMessage::Vote(vote(7))));
    step(&mut core, Input::Verified(Ok(())));
    let reply = step(&mut core, Input::VoteAdded(Ok(Some(qc(7)))));
    assert_eq!(reply.effects, vec![Effect::ResetTimer, Effect::CleanupAggregator(8)]);
    assert_eq!(ask(reply), Query::Leader(8));
    let reply = step(&mut core, Input::Leader(key(1)));
    let make = ProposerMessage::Make(8, 1, qc(7), None);
    assert_eq!(reply.effects, vec![Effect::Proposer(make)]);
    assert_eq!(done(reply), Ok(()));
    assert_eq!(core.round(), 8);
    assert_eq!(*core.high_qc(), qc(7));
}

#[test]
fn aggregation_error_is_passed_on() {
    let mut core = idle_core();
    step(&mut core, Input::Message(ConsensusMessage::Vote(vote(1))));
    step(&mut core, Input::Verified(Ok(())));
    let error = ConsensusError::InvalidMessage(format!("authority reuse"));
    let reply = step(&mut core, Input::VoteAdded(Err(error)));
    assert_eq!(done(reply), Err(ConsensusError::InvalidMessage(format!("authority reuse"))));
    assert_eq!(core, idle_core());
}

#[test]
fn high_qc_only_grows() {
    let mut core = idle_core();
    complete(&mut core, 9);
    assert_eq!(core.high_qc().round, 9);
    // A valid timeout with an older certificate.
    let old = timeout(10, qc(4));
    step(&mut core, Input::Message(ConsensusMessage::Timeout(old)));
    let reply = step(&mut core, Input::Verified(Ok(())));
    assert_eq!(reply.effects, vec![]);
    assert_eq!(core.high_qc().round, 9);
    assert_eq!(core.round(), 10);
}

#[test]
fn expired_timer_gives_up_the_round() {
    let mut core = idle_core();
    complete(&mut core, 4);
    let reply = step(&mut core, Input::TimerExpired);
    assert_eq!(reply.effects, vec![]);
    assert_eq!(ask(reply), Query::SignTimeout(qc(4), 5, key(1)));
    assert_eq!(core.last_voted_round(), 5);

    let mine = timeout(5, qc(4));
    let reply = step(&mut core, Input::TimeoutSigned(mine.clone()));
    let peers = vec![address(2), address(3), address(4)];
    let announcement = ConsensusMessage::Timeout(mine.clone());
    assert_eq!(
        reply.effects,
        vec![Effect::ResetTimer, Effect::Broadcast(peers.clone(), announcement)]
    );
    assert_eq!(ask(reply), Query::VerifyTimeout(mine.clone()));

    let reply = step(&mut core, Input::Verified(Ok(())));
    assert_eq!(reply.effects, vec![]);
    assert_eq!(ask(reply), Query::AddTimeout(mine));

    let quorum = tc(5, &[4, 3, 4]);
    let reply = step(&mut core, Input::TimeoutAdded(Ok(Some(quorum.clone()))));
    assert_eq!(
        reply.effects,
        vec![
            Effect::ResetTimer,
            Effect::CleanupAggregator(6),
            Effect::Broadcast(peers, ConsensusMessage::TC(quorum.clone())),
        ]
    );
    assert_eq!(ask(reply), Query::Leader(6));
    let reply = step(&mut core, Input::Leader(key(1)));
    let make = ProposerMessage::Make(6, 1, qc(4), Some(quorum));
    assert_eq!(reply.effects, vec![Effect::Proposer(make)]);
    assert_eq!(core.round(), 6);
}

#[test]
fn stale_timeout_is_ignored() {
    let mut core = idle_core();
    complete(&mut core, 4);
    let old = timeout(4, qc(3));
    let reply = step(&mut core, Input::Message(ConsensusMessage::Timeout(old)));
    assert_eq!(reply.effects, vec![]);
    assert_eq!(done(reply), Ok(()));
}

#[test]
fn timeout_carries_a_certificate_forward() {
    let mut core = idle_core();
    let ahead = timeout(6, qc(5));
    step(&mut core, Input::Message(ConsensusMessage::Timeout(ahead.clone())));
    let reply = step(&mut core, Input::Verified(Ok(())));
    assert_eq!(reply.effects, vec![Effect::ResetTimer, Effect::CleanupAggregator(6)]);
    assert_eq!(ask(reply), Query::AddTimeout(ahead));
    let reply = step(&mut core, Input::TimeoutAdded(Ok(None)));
    assert_eq!(done(reply), Ok(()));
    assert_eq!(core.round(), 6);
    assert_eq!(*core.high_qc(), qc(5));
}

#[test]
fn received_tc_completes_its_round() {
    let mut core = idle_core();
    let quorum = tc(3, &[0]);
    let reply = step(&mut core, Input::Message(ConsensusMessage::TC(quorum.clone())));
    assert_eq!(ask(reply), Query::VerifyTC(quorum.clone()));
    let reply = step(&mut core, Input::Verified(Ok(())));
    assert_eq!(reply.effects, vec![Effect::ResetTimer, Effect::CleanupAggregator(4)]);
    assert_eq!(ask(reply), Query::Leader(4));
    let reply = step(&mut core, Input::Leader(key(1)));
    let make = ProposerMessage::Make(4, 1, QC::genesis(), Some(quorum));
    assert_eq!(reply.effects, vec![Effect::Proposer(make)]);
}

#[test]
fn stale_tc_is_verified_and_ignored() {
    let mut core = idle_core();
    complete(&mut core, 4);
    let reply = step(&mut core, Input::Message(ConsensusMessage::TC(tc(4, &[3]))));
    assert_eq!(ask(reply), Query::VerifyTC(tc(4, &[3])));
    let reply = step(&mut core, Input::Verified(Ok(())));
    assert_eq!(reply.effects, vec![]);
    assert_eq!(done(reply), Ok(()));
    assert_eq!(core.round(), 5);
}

#[test]
fn sync_messages_are_ignored_in_normal_operation() {
    let messages = vec![
        ConsensusMessage::SyncRequest(digest(1), key(2)),
        ConsensusMessage::SyncCheckpointRequest(key(2)),
        ConsensusMessage::SyncCheckpointResponse(Some(block(1))),
        ConsensusMessage::SyncCheckpointResponse(None),
    ];
    let mut core = idle_core();
    for message in messages {
        let reply = step(&mut core, Input::Message(message));
        assert_eq!(reply.effects, vec![]);
        assert_eq!(done(reply), Ok(()));
    }
    assert_eq!(core, idle_core());
}

#[test]
fn last_round_of_an_epoch() {
    let mut core = idle_core();
    let effects = complete(&mut core, 4998);
    assert_eq!(effects, vec![Effect::ResetTimer, Effect::CleanupAggregator(4999)]);
    assert_eq!(core.current_epoch(), 1);

    step(&mut core, Input::Message(ConsensusMessage::Vote(vote(4999))));
    step(&mut core, Input::Verified(Ok(())));
    let last = QC { hash: digest(77), round: 4999, votes: vec![] };
    let reply = step(&mut core, Input::VoteAdded(Ok(Some(last.clone()))));
    assert_eq!(
        reply.effects,
        vec![
            Effect::Helper(HelperRequest::UpdateCheckpoint(digest(77))),
            Effect::ResetTimer,
            Effect::CleanupAggregator(5000),
        ]
    );
    assert_eq!(core.current_epoch(), 2);
    let reply = step(&mut core, Input::Leader(key(1)));
    let make = ProposerMessage::Make(5000, 2, last, None);
    assert_eq!(reply.effects, vec![Effect::Proposer(make)]);
}

#[test]
fn checkpoint_of_an_epoch_already_left() {
    let mut core = idle_core();
    complete(&mut core, 6000);
    // The certificate for the end of the first epoch arrives late.
    let late = timeout(6001, QC { hash: digest(5), round: 4999, votes: vec![] });
    step(&mut core, Input::Message(ConsensusMessage::Timeout(late)));
    let reply = step(&mut core, Input::Verified(Ok(())));
    let update = HelperRequest::UpdateCheckpoint(digest(5));
    assert_eq!(reply.effects, vec![Effect::Helper(update)]);
    assert_eq!(core.round(), 6001);
}

#[test]
fn epochs_count_up() {
    let mut core = idle_core();
    for epoch in 1..=3u64 {
        complete(&mut core, epoch * 5000 - 1);
        assert_eq!(core.round(), epoch * 5000);
        assert_eq!(core.current_epoch(), epoch as u128 + 1);
        complete(&mut core, epoch * 5000);
        assert_eq!(core.current_epoch(), epoch as u128 + 1);
    }
}

#[test]
fn skipped_first_round_enters_the_epoch() {
    let mut core = idle_core();
    complete(&mut core, 4989);
    assert_eq!((core.round(), core.current_epoch()), (4990, 1));
    complete(&mut core, 5003);
    assert_eq!((core.round(), core.current_epoch()), (5004, 2));
    // Several epochs at once.
    complete(&mut core, 21_000);
    assert_eq!((core.round(), core.current_epoch()), (21_001, 5));
    // Within an epoch nothing changes.
    complete(&mut core, 24_998);
    assert_eq!((core.round(), core.current_epoch()), (24_999, 5));
}

#[test]
fn epochs_of_rounds() {
    assert_eq!(epoch_of_round(0), 1);
    assert_eq!(epoch_of_round(4999), 1);
    assert_eq!(epoch_of_round(5000), 2);
    assert_eq!(epoch_of_round(9999), 2);
    assert_eq!(epoch_of_round(10_000), 3);
}

#[test]
fn proposal_crosses_an_epoch_between_its_certificates() {
    let mut core = idle_core();
    let mut proposal = block(8);
    proposal.round = 5003;
    proposal.qc = QC { hash: digest(7), round: 4999, votes: vec![] };
    proposal.tc = Some(tc(5002, &[4999]));
    step(&mut core, Input::Message(ConsensusMessage::Propose(proposal)));
    step(&mut core, Input::Digest(digest(40)));
    step(&mut core, Input::Leader(key(3)));
    let reply = step(&mut core, Input::Verified(Ok(())));
    let update = HelperRequest::UpdateCheckpoint(digest(7));
    assert_eq!(
        reply.effects,
        vec![
            Effect::Helper(update),
            Effect::ResetTimer,
            Effect::CleanupAggregator(5000),
            Effect::ResetTimer,
            Effect::CleanupAggregator(5003),
        ]
    );
    assert_eq!((core.round(), core.current_epoch()), (5003, 2));
}

#[test]
fn timeouts_end_an_epoch_without_a_checkpoint() {
    let mut core = idle_core();
    step(&mut core, Input::Message(ConsensusMessage::TC(tc(4999, &[0]))));
    let reply = step(&mut core, Input::Verified(Ok(())));
    assert_eq!(reply.effects, vec![Effect::ResetTimer, Effect::CleanupAggregator(5000)]);
    assert_eq!(core.current_epoch(), 2);
}

#[test]
fn proposal_is_stored_and_voted_for() {
    let mut core = idle_core();
    let proposal = block(3);
    let reply = step(&mut core, Input::Message(ConsensusMessage::Propose(proposal.clone())));
    assert_eq!(ask(reply), Query::Digest(proposal.clone()));
    let reply = step(&mut core, Input::Digest(digest(40)));
    assert_eq!(ask(reply), Query::Leader(3));
    let reply = step(&mut core, Input::Leader(key(3)));
    assert_eq!(ask(reply), Query::VerifyBlock(proposal.clone()));
    let reply = step(&mut core, Input::Verified(Ok(())));
    assert_eq!(reply.effects, vec![Effect::ResetTimer, Effect::CleanupAggregator(3)]);
    assert_eq!(ask(reply), Query::VerifyPayload(proposal.clone()));
    assert_eq!(core.round(), 3);
    let reply = step(&mut core, Input::PayloadVerified(Ok(true)));
    assert_eq!(ask(reply), Query::Ancestors(proposal.clone()));
    let (b0, b1) = (block(1), block(2));
    let found = Input::AncestorsFound(Ok(Some((b0.clone(), b1.clone()))));
    let reply = step(&mut core, found);
    assert_eq!(ask(reply), Query::Digest(proposal.clone()));
    let reply = step(&mut core, Input::Digest(digest(40)));
    let cleanup = ProposerMessage::Cleanup(vec![digest(101), digest(102), digest(103)]);
    assert_eq!(
        reply.effects,
        vec![
            Effect::WriteStore(vec![40; 32], proposal.clone()),
            Effect::Proposer(cleanup),
            Effect::CleanupMempool(1),
            Effect::Commit(b0),
        ]
    );
    assert_eq!(ask(reply), Query::SignVote(proposal, key(1)));
    assert_eq!(core.last_committed_round(), 1);
    assert_eq!(core.last_voted_round(), 3);
    let reply = step(&mut core, Input::VoteSigned(vote(3)));
    assert_eq!(ask(reply), Query::Leader(4));
    let reply = step(&mut core, Input::Leader(key(4)));
    assert_eq!(
        reply.effects,
        vec![Effect::Send(address(4), ConsensusMessage::Vote(vote(3)))]
    );
    assert_eq!(done(reply), Ok(()));
}

#[test]
fn our_vote_stays_here_if_we_lead_next() {
    let mut core = idle_core();
    complete(&mut core, 2);
    before_store(&mut core, &block(3), &block(1), &block(2));
    step(&mut core, Input::Digest(digest(40)));
    step(&mut core, Input::VoteSigned(vote(3)));
    let reply = step(&mut core, Input::Leader(key(1)));
    assert_eq!(reply.effects, vec![]);
    assert_eq!(ask(reply), Query::VerifyVote(vote(3)));
}

#[test]
fn wrong_leader_is_refused() {
    let mut core = idle_core();
    step(&mut core, Input::Message(ConsensusMessage::Propose(block(3))));
    step(&mut core, Input::Digest(digest(40)));
    let reply = step(&mut core, Input::Leader(key(4)));
    assert_eq!(reply.effects, vec![]);
    let result = done(reply);
    assert_eq!(report(&result), Report::Refusal);
    let error = ConsensusError::WrongLeader { digest: digest(40), leader: key(3), round: 3 };
    assert_eq!(result, Err(error));
    assert_eq!(core, idle_core());
}

#[test]
fn invalid_proposal_is_refused() {
    let mut core = idle_core();
    step(&mut core, Input::Message(ConsensusMessage::Propose(block(3))));
    step(&mut core, Input::Digest(digest(40)));
    step(&mut core, Input::Leader(key(3)));
    let error = ConsensusError::InvalidMessage(format!("no quorum"));
    let reply = step(&mut core, Input::Verified(Err(error)));
    assert_eq!(done(reply), Err(ConsensusError::InvalidMessage(format!("no quorum"))));
    assert_eq!(core, idle_core());
}

#[test]
fn both_certificates_of_a_proposal_count() {
    let mut core = idle_core();
    let mut proposal = block(8);
    proposal.qc = qc(4);
    proposal.tc = Some(tc(7, &[4, 2]));
    step(&mut core, Input::Message(ConsensusMessage::Propose(proposal)));
    step(&mut core, Input::Digest(digest(40)));
    step(&mut core, Input::Leader(key(3)));
    let reply = step(&mut core, Input::Verified(Ok(())));
    assert_eq!(
        reply.effects,
        vec![
            Effect::ResetTimer,
            Effect::CleanupAggregator(5),
            Effect::ResetTimer,
            Effect::CleanupAggregator(8),
        ]
    );
    assert_eq!(core.round(), 8);
    assert_eq!(core.high_qc().round, 4);
}

#[test]
fn missing_payload_suspends_a_proposal() {
    for answer in [Ok(false), Err(ConsensusError::StoreError(format!("disk")))] {
        let mut core = idle_core();
        step(&mut core, Input::Message(ConsensusMessage::Propose(block(1))));
        step(&mut core, Input::Digest(digest(40)));
        step(&mut core, Input::Leader(key(3)));
        step(&mut core, Input::Verified(Ok(())));
        let expected = match &answer {
            Ok(_) => Report::Nothing,
            Err(_) => Report::StoreFailure,
        };
        let reply = step(&mut core, Input::PayloadVerified(answer));
        assert_eq!(reply.effects, vec![]);
        assert_eq!(report(&done(reply)), expected);
        assert_eq!(core.last_voted_round(), 0);
    }
}

#[test]
fn missing_ancestors_suspend_a_block() {
    let corrupted = || ConsensusError::SerializationError(format!("truncated"));
    let mut core = idle_core();
    step(&mut core, Input::Loopback(block(3)));
    let reply = step(&mut core, Input::AncestorsFound(Ok(None)));
    assert_eq!(reply.effects, vec![]);
    assert_eq!(done(reply), Ok(()));
    step(&mut core, Input::Loopback(block(3)));
    let reply = step(&mut core, Input::AncestorsFound(Err(corrupted())));
    let result = done(reply);
    assert_eq!(report(&result), Report::StoreCorrupted);
    assert_eq!(result, Err(corrupted()));
    assert_eq!(core, idle_core());
}

#[test]
fn block_of_another_round_is_stored_but_not_voted_for() {
    let mut core = idle_core();
    before_store(&mut core, &block(9), &block(5), &block(7));
    let reply = step(&mut core, Input::Digest(digest(40)));
    assert_eq!(reply.effects.len(), 2);
    assert_eq!(done(reply), Ok(()));
    assert_eq!(core.last_voted_round(), 0);
    assert_eq!(core.last_committed_round(), 0);
}

#[test]
fn one_vote_per_round() {
    let mut core = idle_core();
    complete(&mut core, 4);
    before_store(&mut core, &block(5), &block(2), &block(4));
    let reply = step(&mut core, Input::Digest(digest(40)));
    assert_eq!(ask(reply), Query::SignVote(block(5), key(1)));
    step(&mut core, Input::VoteSigned(vote(5)));
    step(&mut core, Input::Leader(key(2)));
    // Another block of the same round.
    let mut rival = block(5);
    rival.payload = vec![];
    before_store(&mut core, &rival, &block(2), &block(4));
    let reply = step(&mut core, Input::Digest(digest(41)));
    assert_eq!(done(reply), Ok(()));
}

#[test]
fn no_vote_after_a_timeout() {
    let mut core = idle_core();
    complete(&mut core, 4);
    step(&mut core, Input::TimerExpired);
    step(&mut core, Input::TimeoutSigned(timeout(5, qc(4))));
    step(&mut core, Input::Verified(Ok(())));
    step(&mut core, Input::TimeoutAdded(Ok(None)));
    before_store(&mut core, &block(5), &block(2), &block(4));
    let reply = step(&mut core, Input::Digest(digest(40)));
    assert_eq!(done(reply), Ok(()));
    assert_eq!(core.last_voted_round(), 5);
}

#[test]
fn block_must_extend_its_certificates() {
    // The round of the block's certificate, its timeout certificate, and whether a
    // block of round 8 may be voted for.
    let cases = vec![
        (7, None, true),
        (6, None, false),
        (8, None, false),
        (4, Some(tc(7, &[4, 2, 3])), true),
        (4, Some(tc(7, &[2, 5])), false),
        (4, Some(tc(6, &[2])), false),
        (7, Some(tc(3, &[9])), true),
    ];
    for (parent, certificate, allowed) in cases {
        let mut core = idle_core();
        complete(&mut core, 7);
        let mut proposal = block(8);
        proposal.qc = qc(parent);
        proposal.tc = certificate;
        before_store(&mut core, &proposal, &block(2), &block(4));
        let reply = step(&mut core, Input::Digest(digest(40)));
        if allowed {
            assert_eq!(ask(reply), Query::SignVote(proposal, key(1)));
            assert_eq!(core.last_voted_round(), 8);
        } else {
            assert_eq!(done(reply), Ok(()));
            assert_eq!(core.last_voted_round(), 0);
        }
    }
}

#[test]
fn whole_chain_is_committed() {
    let mut core = idle_core();
    let (b0, b1) = (block(4), block(5));
    before_store(&mut core, &block(6), &b0, &b1);
    let reply = step(&mut core, Input::Digest(digest(40)));
    assert_eq!(committed(&reply.effects), vec![]);
    assert_eq!(ask(reply), Query::Parent(b0.clone()));
    let reply = step(&mut core, Input::ParentFound(Ok(Some(block(3)))));
    assert_eq!(reply.effects, vec![]);
    assert_eq!(ask(reply), Query::Parent(block(3)));
    let reply = step(&mut core, Input::ParentFound(Ok(Some(block(2)))));
    assert_eq!(ask(reply), Query::Parent(block(2)));
    let reply = step(&mut core, Input::ParentFound(Ok(Some(block(1)))));
    // The ancestors in the order of their lookup, then the head.
    assert_eq!(committed(&reply.effects), vec![3, 2, 1, 4]);
    assert_eq!(done(reply), Ok(()));
    assert_eq!(core.last_committed_round(), 4);
}

#[test]
fn committed_ancestor_is_not_committed_again() {
    let mut core = idle_core();
    before_store(&mut core, &block(3), &block(1), &block(2));
    let reply = step(&mut core, Input::Digest(digest(40)));
    assert_eq!(committed(&reply.effects), vec![1]);
    // The parent of the block of round 5 is the block of round 1 once more.
    before_store(&mut core, &block(7), &block(5), &block(6));
    step(&mut core, Input::Digest(digest(41)));
    let reply = step(&mut core, Input::ParentFound(Ok(Some(block(1)))));
    assert_eq!(committed(&reply.effects), vec![5]);
    assert_eq!(core.last_committed_round(), 5);
}

#[test]
fn genesis_is_not_committed() {
    let mut core = idle_core();
    before_store(&mut core, &block(6), &block(4), &block(5));
    step(&mut core, Input::Digest(digest(40)));
    step(&mut core, Input::ParentFound(Ok(Some(block(2)))));
    let mut genesis = block(1);
    genesis.round = 0;
    let reply = step(&mut core, Input::ParentFound(Ok(Some(genesis))));
    assert_eq!(committed(&reply.effects), vec![2, 4]);
    assert_eq!(core.last_committed_round(), 4);
}

#[test]
fn failed_lookup_commits_nothing() {
    let mut core = idle_core();
    before_store(&mut core, &block(6), &block(4), &block(5));
    step(&mut core, Input::Digest(digest(40)));
    let error = ConsensusError::StoreError(format!("disk"));
    let reply = step(&mut core, Input::ParentFound(Err(error)));
    assert_eq!(reply.effects, vec![]);
    assert_eq!(done(reply), Err(ConsensusError::StoreError(format!("disk"))));
    assert_eq!(core, idle_core());
}

#[test]
fn committed_block_is_not_committed_again() {
    let mut core = idle_core();
    before_store(&mut core, &block(3), &block(1), &block(2));
    step(&mut core, Input::Digest(digest(40)));
    before_store(&mut core, &block(3), &block(1), &block(2));
    let reply = step(&mut core, Input::Digest(digest(40)));
    assert_eq!(reply.effects.len(), 3);
    assert_eq!(reply.effects[2], Effect::CleanupMempool(1));
    assert_eq!(core.last_committed_round(), 1);
}

#[test]
fn fast_sync_asks_the_first_peer() {
    let mut core = Core::new(key(1), committee(), true);
    let reply = step(&mut core, Input::Start(CoreStartMode::FastSync));
    assert_eq!(
        reply.effects,
        vec![Effect::Send(address(2), ConsensusMessage::SyncCheckpointRequest(key(1)))]
    );
    assert_eq!(reply.next, Next::AwaitCheckpoint);
}

#[test]
fn fast_sync_needs_the_ability_and_a_peer() {
    let alone = Committee {
        authorities: vec![Authority { name: key(1), address: address(1) }],
    };
    for mut core in [Core::new(key(1), committee(), false), Core::new(key(1), alone, true)] {
        let reply = step(&mut core, Input::Start(CoreStartMode::FastSync));
        assert_eq!(reply.effects, vec![Effect::ResetTimer]);
        assert_eq!(ask(reply), Query::Leader(1));
    }
}

#[test]
fn checkpoint_is_adopted() {
    let mut core = Core::new(key(1), committee(), true);
    step(&mut core, Input::Start(CoreStartMode::FastSync));
    let mut checkpoint = block(4999);
    checkpoint.epoch = 1;
    let response = ConsensusMessage::SyncCheckpointResponse(Some(checkpoint.clone()));
    let reply = step(&mut core, Input::Message(response));
    assert_eq!(ask(reply), Query::VerifyBlock(checkpoint.clone()));
    let reply = step(&mut core, Input::Verified(Ok(())));
    assert_eq!(ask(reply), Query::Digest(checkpoint.clone()));
    assert_eq!(core.round(), 5000);
    assert_eq!(core.current_epoch(), 1);
    assert_eq!(core.last_voted_round(), 4999);
    assert_eq!(core.last_committed_round(), 4998);
    assert_eq!(*core.high_qc(), qc(4998));
    let reply = step(&mut core, Input::Digest(digest(8)));
    assert_eq!(
        reply.effects,
        vec![Effect::WriteStore(vec![8; 32], checkpoint), Effect::ResetTimer]
    );
    assert_eq!(ask(reply), Query::Leader(5000));
}

#[test]
fn epochs_go_on_after_a_checkpoint() {
    let mut core = Core::new(key(1), committee(), true);
    step(&mut core, Input::Start(CoreStartMode::FastSync));
    let mut checkpoint = block(4999);
    checkpoint.epoch = 1;
    let response = ConsensusMessage::SyncCheckpointResponse(Some(checkpoint));
    step(&mut core, Input::Message(response));
    step(&mut core, Input::Verified(Ok(())));
    step(&mut core, Input::Digest(digest(8)));
    step(&mut core, Input::Leader(key(2)));
    assert_eq!((core.round(), core.current_epoch()), (5000, 1));
    complete(&mut core, 9998);
    assert_eq!((core.round(), core.current_epoch()), (9999, 1));
    complete(&mut core, 10_001);
    assert_eq!((core.round(), core.current_epoch()), (10_002, 3));
}

#[test]
fn useless_messages_do_not_end_the_sync() {
    let mut core = Core::new(key(1), committee(), true);
    step(&mut core, Input::Start(CoreStartMode::FastSync));
    let messages = vec![
        ConsensusMessage::SyncCheckpointResponse(None),
        ConsensusMessage::Vote(vote(1)),
        ConsensusMessage::Propose(block(1)),
    ];
    for message in messages {
        let reply = step(&mut core, Input::Message(message));
        assert_eq!(reply.effects, vec![]);
        assert_eq!(reply.next, Next::AwaitCheckpoint);
    }
    let response = ConsensusMessage::SyncCheckpointResponse(Some(block(4999)));
    step(&mut core, Input::Message(response));
    let error = ConsensusError::InvalidMessage(format!("bad signature"));
    let reply = step(&mut core, Input::Verified(Err(error)));
    assert_eq!(reply.next, Next::AwaitCheckpoint);
    assert_eq!(core.round(), 1);

    let reply = step(&mut core, Input::SyncAbandoned);
    assert_eq!(reply.effects, vec![Effect::ResetTimer]);
    assert_eq!(ask(reply), Query::Leader(1));
    assert_eq!(core.current_epoch(), 1);
}

#[test]
fn only_expected_inputs_are_admitted() {
    let core = Core::new(key(1), committee(), true);
    assert!(core.admits(&Input::Start(CoreStartMode::Genesis)));
    assert!(!core.admits(&Input::TimerExpired));
    let core = idle_core();
    assert!(core.admits(&Input::TimerExpired));
    assert!(!core.admits(&Input::Start(CoreStartMode::Genesis)));
    assert!(!core.admits(&Input::Leader(key(1))));
    assert!(!core.admits(&Input::SyncAbandoned));
}

#[test]
fn rounds_without_a_successor_are_not_admitted() {
    let mut core = idle_core();
    step(&mut core, Input::Message(ConsensusMessage::Vote(vote(1))));
    step(&mut core, Input::Verified(Ok(())));
    assert!(!core.admits(&Input::VoteAdded(Ok(Some(qc(u64::MAX))))));
    assert!(core.admits(&Input::VoteAdded(Ok(Some(qc(u64::MAX - 1))))));
    let mut core = idle_core();
    step(&mut core, Input::Message(ConsensusMessage::TC(tc(u64::MAX, &[1]))));
    assert!(!core.admits(&Input::Verified(Ok(()))));
    let error = ConsensusError::InvalidMessage(format!("forged"));
    assert!(core.admits(&Input::Verified(Err(error))));
}

#[test]
fn unsigned_tc_is_not_admitted_for_a_vote() {
    let mut core = idle_core();
    complete(&mut core, 7);
    let mut proposal = block(8);
    proposal.tc = Some(tc(3, &[]));
    before_store(&mut core, &proposal, &block(2), &block(4));
    assert!(!core.admits(&Input::Digest(digest(40))));
}

#[test]
fn missing_parent_is_not_admitted() {
    let mut core = idle_core();
    before_store(&mut core, &block(6), &block(4), &block(5));
    step(&mut core, Input::Digest(digest(40)));
    assert!(!core.admits(&Input::ParentFound(Ok(None))));
    assert!(core.admits(&Input::ParentFound(Ok(Some(block(3))))));
}

#[test]
fn unknown_leader_is_not_admitted_for_our_vote() {
    let mut core = idle_core();
    complete(&mut core, 2);
    before_store(&mut core, &block(3), &block(1), &block(2));
    step(&mut core, Input::Digest(digest(40)));
    step(&mut core, Input::VoteSigned(vote(3)));
    assert!(!core.admits(&Input::Leader(key(9))));
    assert!(core.admits(&Input::Leader(key(4))));
    assert!(core.admits(&Input::Leader(key(1))));
}
