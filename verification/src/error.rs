//! Reasons for which the handling of a message fails.

use crate::consensus::Round;
use crate::keys::{Digest, PublicKey};
use vstd::prelude::*;

verus! {

#[derive(Debug, PartialEq, Eq)]
pub enum ConsensusError {
    /// The store failed, for the reason given.
    StoreError(String),
    /// Bytes could not be turned into a message, for the reason given.
    SerializationError(String),
    /// A block was not proposed by the leader of its round.
    WrongLeader { digest: Digest, leader: PublicKey, round: Round },
    /// A message or a certificate failed a check, for the reason given.
    InvalidMessage(String),
}

/// How a node reports the result of handling an input.
#[derive(Clone, Copy, Debug, PartialEq, Eq)]
pub enum Report {
    /// All went well.
    Nothing,
    /// The store failed.
    StoreFailure,
    /// The store holds what cannot be decoded.
    StoreCorrupted,
    /// The input was refused.
    Refusal,
}

/// How the result of handling an input is reported.
pub fn report(result: &Result<(), ConsensusError>) -> (report: Report)
    ensures
        report == (match *result {
            Ok(_) => Report::Nothing,
            Err(ConsensusError::StoreError(_)) => Report::StoreFailure,
            Err(ConsensusError::SerializationError(_)) => Report::StoreCorrupted,
            Err(_) => Report::Refusal,
        }),
{
    match result {
        Ok(_) => Report::Nothing,
        Err(ConsensusError::StoreError(_)) => Report::StoreFailure,
        Err(ConsensusError::SerializationError(_)) => Report::StoreCorrupted,
        Err(_) => Report::Refusal,
    }
}

} // verus!
