//! What passes between nodes and tasks is known by its mathematical value.

use crate::consensus::ConsensusMessage;
use crate::helper::HelperReply;
use crate::messages::{Block, Timeout, QC, TC};
use crate::proposer::ProposerMessage;
use crate::protocol::{Effect, Next, Query, Reply};
use vstd::prelude::*;

verus! {

/// Certificates of the same value agree in all that they hold.
pub proof fn law_certificates_are_their_values(a: QC, b: QC, c: TC, d: TC)
    ensures
        a@ == b@ <==> a.hash == b.hash && a.round == b.round && a.votes@ == b.votes@,
        c@ == d@ <==> c.round == d.round && c.votes@ == d.votes@,
{
}

/// Timeouts of the same value agree in all that they hold.
pub proof fn law_timeouts_are_their_values(a: Timeout, b: Timeout)
    ensures
        a@ == b@ <==> a.high_qc@ == b.high_qc@ && a.round == b.round && a.author == b.author
            && a.signature == b.signature,
{
}

/// Blocks of the same value agree in all that they hold.
pub proof fn law_blocks_are_their_values(a: Block, b: Block)
    ensures
        a@ == b@ <==> {
            &&& a.qc@ == b.qc@
            &&& match (a.tc, b.tc) {
                (Some(x), Some(y)) => x@ == y@,
                (None, None) => true,
                _ => false,
            }
            &&& a.author == b.author
            &&& a.round == b.round
            &&& a.epoch == b.epoch
            &&& a.payload@ == b.payload@
            &&& a.signature == b.signature
        },
{
}

/// Messages of the same value are of the same kind and hold the same.
pub proof fn law_messages_are_their_values(a: ConsensusMessage, b: ConsensusMessage)
    ensures
        a@ == b@ <==> match (a, b) {
            (ConsensusMessage::Propose(x), ConsensusMessage::Propose(y)) => x@ == y@,
            (ConsensusMessage::Vote(x), ConsensusMessage::Vote(y)) => x == y,
            (ConsensusMessage::Timeout(x), ConsensusMessage::Timeout(y)) => x@ == y@,
            (ConsensusMessage::TC(x), ConsensusMessage::TC(y)) => x@ == y@,
            (ConsensusMessage::SyncRequest(x, m), ConsensusMessage::SyncRequest(y, n)) => {
                x == y && m == n
            },
            (
                ConsensusMessage::SyncCheckpointRequest(m),
                ConsensusMessage::SyncCheckpointRequest(n),
            ) => m == n,
            (
                ConsensusMessage::SyncCheckpointResponse(x),
                ConsensusMessage::SyncCheckpointResponse(y),
            ) => match (x, y) {
                (Some(x), Some(y)) => x@ == y@,
                (None, None) => true,
                _ => false,
            },
            _ => false,
        },
{
}

/// Instructions to the proposer of the same value are of the same kind and hold the
/// same.
pub proof fn law_instructions_are_their_values(a: ProposerMessage, b: ProposerMessage)
    ensures
        a@ == b@ <==> match (a, b) {
            (ProposerMessage::Make(r, e, x, s), ProposerMessage::Make(q, f, y, t)) => {
                &&& r == q
                &&& e == f
                &&& x@ == y@
                &&& match (s, t) {
                    (Some(s), Some(t)) => s@ == t@,
                    (None, None) => true,
                    _ => false,
                }
            },
            (ProposerMessage::Cleanup(x), ProposerMessage::Cleanup(y)) => x@ == y@,
            _ => false,
        },
{
}

/// Effects of the same value are of the same kind and hold the same.
pub proof fn law_effects_are_their_values(a: Effect, b: Effect)
    ensures
        a@ == b@ <==> match (a, b) {
            (Effect::ResetTimer, Effect::ResetTimer) => true,
            (Effect::CleanupAggregator(r), Effect::CleanupAggregator(q)) => r == q,
            (Effect::CleanupMempool(r), Effect::CleanupMempool(q)) => r == q,
            (Effect::Proposer(x), Effect::Proposer(y)) => x@ == y@,
            (Effect::Helper(x), Effect::Helper(y)) => x == y,
            (Effect::Commit(x), Effect::Commit(y)) => x@ == y@,
            (Effect::Send(m, x), Effect::Send(n, y)) => m == n && x@ == y@,
            (Effect::Broadcast(m, x), Effect::Broadcast(n, y)) => m@ == n@ && x@ == y@,
            (Effect::WriteStore(m, x), Effect::WriteStore(n, y)) => m@ == n@ && x@ == y@,
            _ => false,
        },
{
}

/// Questions of the same value are of the same kind and ask for the same.
pub proof fn law_questions_are_their_values(a: Query, b: Query)
    ensures
        a@ == b@ <==> match (a, b) {
            (Query::Digest(x), Query::Digest(y)) => x@ == y@,
            (Query::Leader(r), Query::Leader(q)) => r == q,
            (Query::VerifyBlock(x), Query::VerifyBlock(y)) => x@ == y@,
            (Query::VerifyVote(x), Query::VerifyVote(y)) => x == y,
            (Query::VerifyTimeout(x), Query::VerifyTimeout(y)) => x@ == y@,
            (Query::VerifyTC(x), Query::VerifyTC(y)) => x@ == y@,
            (Query::AddVote(x), Query::AddVote(y)) => x == y,
            (Query::AddTimeout(x), Query::AddTimeout(y)) => x@ == y@,
            (Query::SignVote(x, m), Query::SignVote(y, n)) => x@ == y@ && m == n,
            (Query::SignTimeout(x, r, m), Query::SignTimeout(y, q, n)) => {
                x@ == y@ && r == q && m == n
            },
            (Query::VerifyPayload(x), Query::VerifyPayload(y)) => x@ == y@,
            (Query::Ancestors(x), Query::Ancestors(y)) => x@ == y@,
            (Query::Parent(x), Query::Parent(y)) => x@ == y@,
            _ => false,
        },
{
}

/// Replies of the same value have the same done, effect by effect, and go on in the
/// same way.
pub proof fn law_replies_are_their_values(a: Reply, b: Reply)
    ensures
        a@ == b@ <==> {
            &&& a.effects@.len() == b.effects@.len()
            &&& forall|i: int|
                0 <= i < a.effects@.len() ==> (#[trigger] a.effects@[i])@ == b.effects@[i]@
            &&& match (a.next, b.next) {
                (Next::Ask(x), Next::Ask(y)) => x@ == y@,
                (Next::AwaitCheckpoint, Next::AwaitCheckpoint) => true,
                (Next::Done(x), Next::Done(y)) => x == y,
                _ => false,
            }
        },
{
    let same = a.effects@.len() == b.effects@.len() && forall|i: int|
        0 <= i < a.effects@.len() ==> (#[trigger] a.effects@[i])@ == b.effects@[i]@;
    if same {
        assert(a.effects.deep_view() =~= b.effects.deep_view());
    }
    if a@ == b@ {
        assert(a.effects.deep_view().len() == a.effects@.len());
        assert(b.effects.deep_view().len() == b.effects@.len());
        assert forall|i: int| 0 <= i < a.effects@.len() implies (#[trigger] a.effects@[i])@
            == b.effects@[i]@ by {
            assert(a.effects.deep_view()[i] == a.effects@[i]@);
            assert(b.effects.deep_view()[i] == b.effects@[i]@);
        }
    }
}

/// Replies of the helper of the same value are of the same kind and hold the same.
pub proof fn law_helper_replies_are_their_values(a: HelperReply, b: HelperReply)
    ensures
        a@ == b@ <==> match (a, b) {
            (HelperReply::Read(x), HelperReply::Read(y)) => x@ == y@,
            (HelperReply::Decode(x), HelperReply::Decode(y)) => x@ == y@,
            (HelperReply::Send(m, x), HelperReply::Send(n, y)) => m == n && x@ == y@,
            (HelperReply::Nothing, HelperReply::Nothing) => true,
            _ => false,
        },
{
}

} // verus!
