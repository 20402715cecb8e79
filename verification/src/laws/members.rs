//! Who the members of the committee are, and where they are reached.

use crate::config::{address_of, other_addresses, others, Address, Authority};
use crate::keys::PublicKey;
use crate::laws::serving::law_others;
use vstd::prelude::*;

verus! {

/// A member is reached at the address under which it is listed first.
pub proof fn law_members_are_reached(authorities: Seq<Authority>, name: PublicKey, i: int)
    requires
        0 <= i < authorities.len(),
        authorities[i].name == name,
        forall|j: int| 0 <= j < i ==> (#[trigger] authorities[j]).name != name,
    ensures
        address_of(authorities, name) == Some(authorities[i].address),
    decreases i,
{
    if i > 0 {
        assert(authorities[0].name != name);
        let rest = authorities.drop_first();
        assert forall|j: int| 0 <= j < i - 1 implies (#[trigger] rest[j]).name != name by {
            assert(rest[j] == authorities[j + 1]);
        }
        law_members_are_reached(rest, name, i - 1);
    }
}

/// A node that is not a member has no address.
pub proof fn law_strangers_have_no_address(authorities: Seq<Authority>, name: PublicKey)
    requires
        forall|i: int| 0 <= i < authorities.len() ==> (#[trigger] authorities[i]).name != name,
    ensures
        address_of(authorities, name) is None,
    decreases authorities.len(),
{
    if authorities.len() > 0 {
        assert(authorities[0].name != name);
        let rest = authorities.drop_first();
        assert forall|i: int| 0 <= i < rest.len() implies (#[trigger] rest[i]).name != name by {
            assert(rest[i] == authorities[i + 1]);
        }
        law_strangers_have_no_address(rest, name);
    }
}

/// A further member joins the others of a node at their end, if it has another
/// name, and else changes nothing: the others keep the order of the committee.
pub proof fn law_others_keep_their_order(
    authorities: Seq<Authority>,
    name: PublicKey,
    last: Authority,
)
    ensures
        others(Seq::empty(), name) == Seq::<Authority>::empty(),
        last.name != name ==> others(authorities.push(last), name) == others(
            authorities,
            name,
        ).push(last),
        last.name == name ==> others(authorities.push(last), name) == others(authorities, name),
{
    reveal_with_fuel(Seq::filter, 1);
    let keep = |a: Authority| a.name != name;
    authorities.lemma_filter_push(last, keep);
}

/// The first of the others is the first member with another name.
pub proof fn law_first_peer(authorities: Seq<Authority>, name: PublicKey, i: int)
    requires
        0 <= i < authorities.len(),
        authorities[i].name != name,
        forall|j: int| 0 <= j < i ==> (#[trigger] authorities[j]).name == name,
    ensures
        others(authorities, name).len() > 0,
        others(authorities, name)[0] == authorities[i],
    decreases authorities.len(),
{
    let before = authorities.drop_last();
    assert(before.push(authorities.last()) =~= authorities);
    law_others_keep_their_order(before, name, authorities.last());
    if i < before.len() {
        law_first_peer(before, name, i);
    } else {
        law_no_peers(before, name);
    }
}

/// A node has no others if all members have its name.
pub proof fn law_no_peers(authorities: Seq<Authority>, name: PublicKey)
    requires
        forall|i: int| 0 <= i < authorities.len() ==> (#[trigger] authorities[i]).name == name,
    ensures
        others(authorities, name).len() == 0,
{
    if others(authorities, name).len() > 0 {
        let authority = others(authorities, name)[0];
        law_others(authorities, name, authority);
        let i = choose|i: int| 0 <= i < authorities.len() && authorities[i] == authority;
        assert(authorities[i].name == name);
    }
}

/// What is sent to all others goes to the address of each of them, in their order.
pub proof fn law_other_addresses(authorities: Seq<Authority>, name: PublicKey, i: int)
    requires
        0 <= i < others(authorities, name).len(),
    ensures
        other_addresses(authorities, name).len() == others(authorities, name).len(),
        other_addresses(authorities, name)[i] == others(authorities, name)[i].address,
{
}

/// What is sent to all others reaches exactly the members with another name.
pub proof fn law_others_are_reached(authorities: Seq<Authority>, name: PublicKey, address: Address)
    ensures
        other_addresses(authorities, name).contains(address) <==> exists|i: int|
            0 <= i < authorities.len() && (#[trigger] authorities[i]).name != name
                && authorities[i].address == address,
{
    let peers = others(authorities, name);
    let addresses = other_addresses(authorities, name);
    if addresses.contains(address) {
        let k = choose|k: int| 0 <= k < addresses.len() && addresses[k] == address;
        law_other_addresses(authorities, name, k);
        assert(peers.contains(peers[k]));
        law_others(authorities, name, peers[k]);
        let i = choose|i: int| 0 <= i < authorities.len() && authorities[i] == peers[k];
        assert(authorities[i].name != name);
    }
    if exists|i: int|
        0 <= i < authorities.len() && (#[trigger] authorities[i]).name != name
            && authorities[i].address == address {
        let i = choose|i: int|
            0 <= i < authorities.len() && (#[trigger] authorities[i]).name != name
                && authorities[i].address == address;
        law_others(authorities, name, authorities[i]);
        let k = choose|k: int| 0 <= k < peers.len() && peers[k] == authorities[i];
        assert(addresses[k] == address);
    }
}

} // verus!
