//! What other nodes get from the helper, and what they are sent.

use crate::config::{address_of, others, Address, Authority};
use crate::consensus::ConsensusMessageView;
use crate::helper::{HelperInputView, HelperReplyView, HelperRequest, HelperView};
use crate::keys::{Digest, PublicKey};
use crate::laws::effects::law_checkpoint_marked_at_the_end_of_an_epoch;
use crate::laws::epochs::processed_qc;
use crate::messages::BlockView;
use crate::model::{certifies_checkpoint, CoreView};
use crate::protocol::{EffectView, InputView};
use vstd::prelude::*;

verus! {

/// The authorities other than a node are the members with another name.
pub proof fn law_others(authorities: Seq<Authority>, name: PublicKey, authority: Authority)
    ensures
        others(authorities, name).contains(authority) <==> authorities.contains(authority)
            && authority.name != name,
{
    broadcast use vstd::seq_lib::group_filter_ensures;

    let keep = |a: Authority| a.name != name;
    if others(authorities, name).contains(authority) {
        authorities.lemma_filter_contains_rev(keep, authority);
    }
    if authorities.contains(authority) && authority.name != name {
        let i = choose|i: int| 0 <= i < authorities.len() && authorities[i] == authority;
        assert(keep(authorities[i]));
    }
}

/// The state of the helper after it takes the inputs one after the other.
pub open spec fn helper_run(helper: HelperView, inputs: Seq<HelperInputView>) -> HelperView
    decreases inputs.len(),
{
    if inputs.len() == 0 {
        helper
    } else {
        helper_run(helper, inputs.drop_last()).step(inputs.last()).0
    }
}

/// Whether the helper expects every input of a run.
pub open spec fn expects_all(helper: HelperView, inputs: Seq<HelperInputView>) -> bool {
    forall|i: int|
        0 <= i < inputs.len() ==> #[trigger] helper_run(helper, inputs.take(i)).expects(inputs[i])
}

/// The checkpoint named last, if any is.
pub open spec fn last_named(known: Option<Digest>, inputs: Seq<HelperInputView>) -> Option<Digest>
    decreases inputs.len(),
{
    if inputs.len() == 0 {
        known
    } else {
        match inputs.last() {
            HelperInputView::Request(HelperRequest::UpdateCheckpoint(digest)) => Some(digest),
            _ => last_named(known, inputs.drop_last()),
        }
    }
}

/// The helper knows the checkpoint that the core named last. Nothing that it
/// serves changes this, and the committee stays the same.
pub proof fn law_latest_checkpoint_is_known(helper: HelperView, inputs: Seq<HelperInputView>)
    requires
        expects_all(helper, inputs),
    ensures
        helper_run(helper, inputs).current_checkpoint_digest == last_named(
            helper.current_checkpoint_digest,
            inputs,
        ),
        helper_run(helper, inputs).committee == helper.committee,
    decreases inputs.len(),
{
    if inputs.len() > 0 {
        let before = inputs.drop_last();
        assert(inputs.take(inputs.len() - 1) =~= before);
        assert forall|i: int| 0 <= i < before.len() implies #[trigger] helper_run(
            helper,
            before.take(i),
        ).expects(before[i]) by {
            assert(before.take(i) =~= inputs.take(i));
        }
        law_latest_checkpoint_is_known(helper, before);
    }
}

/// The end of serving a request, given what the store holds and what it encodes.
pub open spec fn served(
    helper: HelperView,
    request: HelperRequest,
    read: Result<Option<Seq<u8>>, String>,
    decoded: Result<BlockView, String>,
) -> (HelperView, HelperReplyView) {
    let (asked, reply) = helper.step(HelperInputView::Request(request));
    match reply {
        HelperReplyView::Read(_) => {
            let (found, reply) = asked.step(HelperInputView::StoreRead(read));
            match reply {
                HelperReplyView::Decode(_) => found.step(HelperInputView::Decoded(decoded)),
                _ => (found, reply),
            }
        },
        _ => (asked, reply),
    }
}

/// The block found, if the store can be read, holds it, and it can be decoded.
pub open spec fn found(
    read: Result<Option<Seq<u8>>, String>,
    decoded: Result<BlockView, String>,
) -> Option<BlockView> {
    match (read, decoded) {
        (Ok(Some(_)), Ok(block)) => Some(block),
        _ => None,
    }
}

/// A member that asks for the checkpoint always gets an answer: the checkpoint
/// block if it is known and can be read, and else that there is none.
pub proof fn law_checkpoint_requests_are_answered(
    helper: HelperView,
    origin: PublicKey,
    address: Address,
    read: Result<Option<Seq<u8>>, String>,
    decoded: Result<BlockView, String>,
)
    requires
        helper.stage is Idle,
        address_of(helper.committee, origin) == Some(address),
    ensures
        served(helper, HelperRequest::GetCheckpoint(origin), read, decoded) == (
            helper,
            HelperReplyView::Send(
                address,
                ConsensusMessageView::SyncCheckpointResponse(
                    if helper.current_checkpoint_digest is Some {
                        found(read, decoded)
                    } else {
                        None
                    },
                ),
            ),
        ),
{
}

/// A member that asks for a block gets it as a proposal if it can be read, and
/// else no answer.
pub proof fn law_block_requests_are_answered(
    helper: HelperView,
    origin: PublicKey,
    digest: Digest,
    address: Address,
    read: Result<Option<Seq<u8>>, String>,
    decoded: Result<BlockView, String>,
)
    requires
        helper.stage is Idle,
        address_of(helper.committee, origin) == Some(address),
    ensures
        served(helper, HelperRequest::GetBlock(digest, origin), read, decoded) == (
            helper,
            match found(read, decoded) {
                Some(block) => HelperReplyView::Send(
                    address,
                    ConsensusMessageView::Propose(block),
                ),
                None => HelperReplyView::Nothing,
            },
        ),
{
}

/// What the store holds is what is decoded.
pub proof fn law_what_is_read_is_decoded(helper: HelperView, bytes: Seq<u8>)
    requires
        helper.stage is ReadingBlock || helper.stage is ReadingCheckpoint,
    ensures
        helper.step(HelperInputView::StoreRead(Ok(Some(bytes)))).1 == HelperReplyView::Decode(
            bytes,
        ),
{
}

/// Nodes that are not members are not served, and their requests change nothing.
pub proof fn law_strangers_are_not_served(helper: HelperView, request: HelperRequest)
    requires
        helper.stage is Idle,
        match request {
            HelperRequest::GetBlock(_, origin) => address_of(helper.committee, origin) is None,
            HelperRequest::GetCheckpoint(origin) => address_of(helper.committee, origin) is None,
            HelperRequest::UpdateCheckpoint(_) => false,
        },
    ensures
        helper.step(HelperInputView::Request(request)) == (helper, HelperReplyView::Nothing),
{
}

/// Once the core has processed a certificate for the last round of an epoch and
/// the helper has been told, a member that asks for the checkpoint makes the
/// helper read the key under which the core stores the certified block.
pub proof fn law_end_of_epoch_is_served(
    core: CoreView,
    input: InputView,
    helper: HelperView,
    origin: PublicKey,
)
    requires
        core.admits(input),
        processed_qc(core, input) matches Some(qc) && certifies_checkpoint(qc),
        helper.stage is Idle,
        address_of(helper.committee, origin) is Some,
    ensures
        ({
            let digest = processed_qc(core, input)->0.hash;
            let update = HelperRequest::UpdateCheckpoint(digest);
            let told = helper.step(HelperInputView::Request(update)).0;
            &&& core.step(input).1.effects.contains(EffectView::Helper(update))
            &&& told.step(HelperInputView::Request(HelperRequest::GetCheckpoint(origin))).1
                == HelperReplyView::Read(digest.0@)
        }),
{
    law_checkpoint_marked_at_the_end_of_an_epoch(
        core,
        input,
        processed_qc(core, input)->0.hash,
    );
}

/// A member that asks for a block makes the helper read the store under the bytes of
/// the digest asked for, whatever checkpoint is known; what is read is decoded; and
/// what is decoded is sent to the member as a proposal. The helper is then as it was
/// before.
pub proof fn law_requested_blocks_are_served(
    helper: HelperView,
    digest: Digest,
    origin: PublicKey,
    address: Address,
    bytes: Seq<u8>,
    block: BlockView,
)
    requires
        helper.stage is Idle,
        address_of(helper.committee, origin) == Some(address),
    ensures
        ({
            let request = HelperInputView::Request(HelperRequest::GetBlock(digest, origin));
            let found = HelperInputView::StoreRead(Ok(Some(bytes)));
            let (reading, first) = helper.step(request);
            let (decoding, second) = reading.step(found);
            let (served, third) = decoding.step(HelperInputView::Decoded(Ok(block)));
            &&& helper.expects(request)
            &&& first == HelperReplyView::Read(digest.0@)
            &&& reading.expects(found)
            &&& second == HelperReplyView::Decode(bytes)
            &&& decoding.expects(HelperInputView::Decoded(Ok(block)))
            &&& third == HelperReplyView::Send(address, ConsensusMessageView::Propose(block))
            &&& served == helper
        }),
{
}

/// A member that asks for a block gets no answer if the store cannot be read, does
/// not hold the block, or holds what cannot be decoded.
pub proof fn law_missing_blocks_are_not_served(
    helper: HelperView,
    digest: Digest,
    origin: PublicKey,
    read: Result<Option<Seq<u8>>, String>,
    decoded: Result<BlockView, String>,
)
    requires
        helper.stage is Idle,
        address_of(helper.committee, origin) is Some,
        read matches Ok(Some(_)) ==> decoded is Err,
    ensures
        ({
            let request = HelperInputView::Request(HelperRequest::GetBlock(digest, origin));
            let reading = helper.step(request).0;
            let (after, reply) = reading.step(HelperInputView::StoreRead(read));
            if read matches Ok(Some(_)) {
                after.step(HelperInputView::Decoded(decoded)) == (helper, HelperReplyView::Nothing)
            } else {
                (after, reply) == (helper, HelperReplyView::Nothing)
            }
        }),
{
}

/// A member that asks for the checkpoint is told that there is none, if none is
/// known. Else the store is read under the bytes of the digest known, what is read
/// is decoded, and what is decoded is sent to the member as the checkpoint. The
/// helper is then as it was before.
pub proof fn law_known_checkpoints_are_served(
    helper: HelperView,
    origin: PublicKey,
    address: Address,
    bytes: Seq<u8>,
    block: BlockView,
)
    requires
        helper.stage is Idle,
        address_of(helper.committee, origin) == Some(address),
    ensures
        ({
            let request = HelperInputView::Request(HelperRequest::GetCheckpoint(origin));
            let found = HelperInputView::StoreRead(Ok(Some(bytes)));
            let (reading, first) = helper.step(request);
            let (decoding, second) = reading.step(found);
            let (served, third) = decoding.step(HelperInputView::Decoded(Ok(block)));
            &&& helper.expects(request)
            &&& helper.current_checkpoint_digest is None ==> reading == helper && first
                == HelperReplyView::Send(
                address,
                ConsensusMessageView::SyncCheckpointResponse(None),
            )
            &&& helper.current_checkpoint_digest matches Some(digest) ==> {
                &&& first == HelperReplyView::Read(digest.0@)
                &&& reading.expects(found)
                &&& second == HelperReplyView::Decode(bytes)
                &&& decoding.expects(HelperInputView::Decoded(Ok(block)))
                &&& third == HelperReplyView::Send(
                    address,
                    ConsensusMessageView::SyncCheckpointResponse(Some(block)),
                )
                &&& served == helper
            }
        }),
{
}

/// A member that asks for a checkpoint that is known but cannot be read or decoded
/// is told that there is none.
pub proof fn law_lost_checkpoints_are_denied(
    helper: HelperView,
    origin: PublicKey,
    address: Address,
    read: Result<Option<Seq<u8>>, String>,
    decoded: Result<BlockView, String>,
)
    requires
        helper.stage is Idle,
        address_of(helper.committee, origin) == Some(address),
        helper.current_checkpoint_digest is Some,
        read matches Ok(Some(_)) ==> decoded is Err,
    ensures
        ({
            let request = HelperInputView::Request(HelperRequest::GetCheckpoint(origin));
            let denial = HelperReplyView::Send(
                address,
                ConsensusMessageView::SyncCheckpointResponse(None),
            );
            let reading = helper.step(request).0;
            let (after, reply) = reading.step(HelperInputView::StoreRead(read));
            if read matches Ok(Some(_)) {
                after.step(HelperInputView::Decoded(decoded)) == (helper, denial)
            } else {
                (after, reply) == (helper, denial)
            }
        }),
{
}

/// A checkpoint that the core names replaces the one known before, and nothing else
/// changes.
pub proof fn law_named_checkpoints_are_known(helper: HelperView, digest: Digest)
    requires
        helper.stage is Idle,
    ensures
        ({
            let update = HelperInputView::Request(HelperRequest::UpdateCheckpoint(digest));
            &&& helper.expects(update)
            &&& helper.step(update) == (
                HelperView { current_checkpoint_digest: Some(digest), ..helper },
                HelperReplyView::Nothing,
            )
        }),
{
}

/// The helper waits for the answer to its question and for nothing else, and for a
/// request where it has none.
pub proof fn law_helper_waits_for_answers(
    helper: HelperView,
    input: HelperInputView,
    answer: HelperInputView,
)
    requires
        helper.expects(input),
    ensures
        helper.step(input).0.expects(answer) == (match helper.step(input).1 {
            HelperReplyView::Read(_) => answer is StoreRead,
            HelperReplyView::Decode(_) => answer is Decoded,
            HelperReplyView::Send(_, _) => answer is Request,
            HelperReplyView::Nothing => answer is Request,
        }),
        helper.stage is Idle ==> input is Request,
{
}

} // verus!
