//! Blocks, votes, timeouts and the certificates assembled from them.

use crate::config::EpochNumber;
use crate::consensus::Round;
use crate::keys::{Digest, PublicKey, Signature};
use vstd::prelude::*;

verus! {

/// A quorum certificate: a quorum of votes for one block.
#[derive(Debug, PartialEq, Eq)]
pub struct QC {
    /// The digest of the certified block.
    pub hash: Digest,
    /// The round of the certified block.
    pub round: Round,
    pub votes: Vec<(PublicKey, Signature)>,
}

/// A timeout certificate: a quorum of nodes that gave up on a round, each with
/// the round of the highest quorum certificate it knew.
#[derive(Debug, PartialEq, Eq)]
pub struct TC {
    /// The round that was given up.
    pub round: Round,
    pub votes: Vec<(PublicKey, Signature, Round)>,
}

/// A vote for a block.
#[derive(Clone, Copy, Debug, PartialEq, Eq)]
pub struct Vote {
    pub hash: Digest,
    pub round: Round,
    pub author: PublicKey,
    pub signature: Signature,
}

/// A node's announcement that it gives up on a round.
#[derive(Debug, PartialEq, Eq)]
pub struct Timeout {
    pub high_qc: QC,
    pub round: Round,
    pub author: PublicKey,
    pub signature: Signature,
}

/// A proposal.
#[derive(Debug, PartialEq, Eq)]
pub struct Block {
    /// The certificate of the parent block.
    pub qc: QC,
    /// The certificate that lets the block skip rounds after its parent.
    pub tc: Option<TC>,
    pub author: PublicKey,
    pub round: Round,
    pub epoch: EpochNumber,
    pub payload: Vec<Digest>,
    pub signature: Signature,
}

/// Mathematical value of a [`QC`].
pub struct QCView {
    pub hash: Digest,
    pub round: Round,
    pub votes: Seq<(PublicKey, Signature)>,
}

/// Mathematical value of a [`TC`].
pub struct TCView {
    pub round: Round,
    pub votes: Seq<(PublicKey, Signature, Round)>,
}

/// Mathematical value of a [`Timeout`].
pub struct TimeoutView {
    pub high_qc: QCView,
    pub round: Round,
    pub author: PublicKey,
    pub signature: Signature,
}

/// Mathematical value of a [`Block`].
pub struct BlockView {
    pub qc: QCView,
    pub tc: Option<TCView>,
    pub author: PublicKey,
    pub round: Round,
    pub epoch: EpochNumber,
    pub payload: Seq<Digest>,
    pub signature: Signature,
}

impl View for QC {
    type V = QCView;

    open spec fn view(&self) -> QCView {
        QCView { hash: self.hash, round: self.round, votes: self.votes@ }
    }
}

impl DeepView for QC {
    type V = QCView;

    open spec fn deep_view(&self) -> QCView {
        self@
    }
}

impl View for TC {
    type V = TCView;

    open spec fn view(&self) -> TCView {
        TCView { round: self.round, votes: self.votes@ }
    }
}

impl DeepView for TC {
    type V = TCView;

    open spec fn deep_view(&self) -> TCView {
        self@
    }
}

impl View for Timeout {
    type V = TimeoutView;

    open spec fn view(&self) -> TimeoutView {
        TimeoutView {
            high_qc: self.high_qc@,
            round: self.round,
            author: self.author,
            signature: self.signature,
        }
    }
}

impl View for Block {
    type V = BlockView;

    open spec fn view(&self) -> BlockView {
        BlockView {
            qc: self.qc@,
            tc: self.tc.deep_view(),
            author: self.author,
            round: self.round,
            epoch: self.epoch,
            payload: self.payload@,
            signature: self.signature,
        }
    }
}

impl DeepView for Block {
    type V = BlockView;

    open spec fn deep_view(&self) -> BlockView {
        self@
    }
}

/// A copy of a vector of plain values.
fn copied<T: Copy>(items: &Vec<T>) -> (copy: Vec<T>)
    ensures
        copy@ == items@,
{
    let mut copy: Vec<T> = Vec::with_capacity(items.len());
    let mut i: usize = 0;
    while i < items.len()
        invariant
            i <= items.len(),
            copy@ == items@.take(i as int),
        decreases items.len() - i,
    {
        copy.push(items[i]);
        i += 1;
    }
    copy
}

impl Clone for QC {
    fn clone(&self) -> (res: Self)
        ensures
            res@ == self@,
            res.hash == self.hash,
            res.round == self.round,
            res.votes@ == self.votes@,
    {
        QC { hash: self.hash, round: self.round, votes: copied(&self.votes) }
    }
}

impl Clone for TC {
    fn clone(&self) -> (res: Self)
        ensures
            res@ == self@,
            res.round == self.round,
            res.votes@ == self.votes@,
    {
        TC { round: self.round, votes: copied(&self.votes) }
    }
}

impl Clone for Timeout {
    fn clone(&self) -> (res: Self)
        ensures
            res@ == self@,
            res.high_qc@ == self.high_qc@,
            res.round == self.round,
            res.author == self.author,
            res.signature == self.signature,
    {
        Timeout {
            high_qc: self.high_qc.clone(),
            round: self.round,
            author: self.author,
            signature: self.signature,
        }
    }
}

impl Clone for Block {
    fn clone(&self) -> (res: Self)
        ensures
            res@ == self@,
            res.qc@ == self.qc@,
            res.tc is Some <==> self.tc is Some,
            res.tc is Some ==> res.tc->0@ == self.tc->0@,
            res.author == self.author,
            res.round == self.round,
            res.epoch == self.epoch,
            res.payload@ == self.payload@,
            res.signature == self.signature,
    {
        Block {
            qc: self.qc.clone(),
            tc: match &self.tc {
                Some(tc) => Some(tc.clone()),
                None => None,
            },
            author: self.author,
            round: self.round,
            epoch: self.epoch,
            payload: copied(&self.payload),
            signature: self.signature,
        }
    }
}

impl QCView {
    /// The certificate of the genesis block, which nobody voted for.
    pub open spec fn is_genesis(self) -> bool {
        &&& self.hash.0@ == Seq::new(32, |i: int| 0u8)
        &&& self.round == 0
        &&& self.votes == Seq::<(PublicKey, Signature)>::empty()
    }
}

impl QC {
    /// The certificate of the genesis block.
    pub fn genesis() -> (qc: QC)
        ensures
            qc@.is_genesis(),
            qc.round == 0,
            qc.votes.len() == 0,
            forall|i: int| 0 <= i < 32 ==> #[trigger] qc.hash.0@[i] == 0,
    {
        let hash = Digest([0; 32]);
        assert(hash.0@ =~= Seq::new(32, |i: int| 0u8));
        QC { hash, round: 0, votes: Vec::new() }
    }
}

impl TCView {
    /// The rounds of the highest quorum certificates that the signers knew.
    pub open spec fn high_qc_rounds(self) -> Seq<Round> {
        self.votes.map_values(|vote: (PublicKey, Signature, Round)| vote.2)
    }
}

impl TC {
    /// The rounds of the highest quorum certificates that the signers knew.
    pub fn high_qc_rounds(&self) -> (rounds: Vec<Round>)
        ensures
            rounds@ == self@.high_qc_rounds(),
            rounds.len() == self.votes.len(),
            forall|i: int| 0 <= i < rounds.len() ==> rounds[i] == #[trigger] self.votes[i].2,
    {
        let mut rounds: Vec<Round> = Vec::new();
        let mut i: usize = 0;
        while i < self.votes.len()
            invariant
                i <= self.votes.len(),
                rounds.len() == i,
                forall|j: int| 0 <= j < i ==> rounds[j] == #[trigger] self.votes[j].2,
            decreases self.votes.len() - i,
        {
            rounds.push(self.votes[i].2);
            i += 1;
        }
        assert(rounds@ =~= self@.high_qc_rounds());
        rounds
    }
}

} // verus!
