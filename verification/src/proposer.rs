//! Instructions to the task that makes new blocks.

use crate::config::EpochNumber;
use crate::consensus::Round;
use crate::keys::Digest;
use crate::messages::{QCView, TCView, QC, TC};
use vstd::prelude::*;

verus! {

#[derive(Debug, PartialEq, Eq)]
pub enum ProposerMessage {
    /// Make a block for the given round and epoch on top of the given
    /// certificates.
    Make(Round, EpochNumber, QC, Option<TC>),
    /// Forget the given payloads: they are part of blocks already.
    Cleanup(Vec<Digest>),
}

/// Mathematical value of a [`ProposerMessage`].
pub enum ProposerMessageView {
    Make(Round, EpochNumber, QCView, Option<TCView>),
    Cleanup(Seq<Digest>),
}

impl View for ProposerMessage {
    type V = ProposerMessageView;

    open spec fn view(&self) -> ProposerMessageView {
        match *self {
            ProposerMessage::Make(round, epoch, qc, tc) => ProposerMessageView::Make(
                round,
                epoch,
                qc@,
                tc.deep_view(),
            ),
            ProposerMessage::Cleanup(digests) => ProposerMessageView::Cleanup(digests@),
        }
    }
}

} // verus!
