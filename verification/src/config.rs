//! The members of the network.

use crate::keys::PublicKey;
use crate::laws::serving::law_others;
use vstd::prelude::*;

verus! {

/// The number of an epoch; the first epoch has number 1.
pub type EpochNumber = u128;

#[derive(Clone, Copy, Debug, PartialEq, Eq)]
pub enum IpAddress {
    V4([u8; 4]),
    V6([u8; 16]),
}

/// A network address.
#[derive(Clone, Copy, Debug, PartialEq, Eq)]
pub struct Address {
    pub ip: IpAddress,
    pub port: u16,
}

/// A member of the committee and the address at which it listens.
#[derive(Clone, Copy, Debug, PartialEq, Eq)]
pub struct Authority {
    pub name: PublicKey,
    pub address: Address,
}

/// The nodes that take part in the consensus. The committee stays the same
/// across all epochs.
#[derive(Debug, PartialEq, Eq)]
pub struct Committee {
    pub authorities: Vec<Authority>,
}

/// The address of the first authority with the given name.
pub open spec fn address_of(authorities: Seq<Authority>, name: PublicKey) -> Option<Address>
    decreases authorities.len(),
{
    if authorities.len() == 0 {
        None
    } else if authorities.first().name == name {
        Some(authorities.first().address)
    } else {
        address_of(authorities.drop_first(), name)
    }
}

/// The authorities other than the one named, in their order.
pub open spec fn others(authorities: Seq<Authority>, name: PublicKey) -> Seq<Authority> {
    authorities.filter(|a: Authority| a.name != name)
}

/// The addresses of the authorities other than the one named, in their order.
pub open spec fn other_addresses(authorities: Seq<Authority>, name: PublicKey) -> Seq<Address> {
    others(authorities, name).map_values(|a: Authority| a.address)
}

impl View for Committee {
    type V = Seq<Authority>;

    open spec fn view(&self) -> Seq<Authority> {
        self.authorities@
    }
}

impl Clone for Committee {
    fn clone(&self) -> (res: Self)
        ensures
            res@ == self@,
    {
        Committee { authorities: self.authorities.clone() }
    }
}

impl Committee {
    /// The address of a member, or `None` for a name that is not a member's.
    pub fn address(&self, name: &PublicKey) -> (address: Option<Address>)
        ensures
            address == address_of(self@, *name),
            address matches Some(found) ==> exists|i: int|
                0 <= i < self@.len() && #[trigger] self@[i].name == *name && self@[i].address
                    == found && forall|j: int| 0 <= j < i ==> (#[trigger] self@[j]).name != *name,
            address is Some <==> exists|i: int|
                0 <= i < self@.len() && #[trigger] self@[i].name == *name,
    {
        let mut i: usize = 0;
        assert(self@.skip(0) =~= self@);
        while i < self.authorities.len()
            invariant
                i <= self.authorities.len(),
                forall|j: int| 0 <= j < i ==> #[trigger] self@[j].name != *name,
                address_of(self@, *name) == address_of(self@.skip(i as int), *name),
            decreases self.authorities.len() - i,
        {
            assert(self@.skip(i as int).drop_first() =~= self@.skip(i + 1));
            if self.authorities[i].name == *name {
                return Some(self.authorities[i].address);
            }
            i += 1;
        }
        None
    }

    /// The members other than the one named.
    pub fn broadcast_addresses(&self, name: &PublicKey) -> (peers: Vec<Authority>)
        ensures
            peers@ == others(self@, *name),
            forall|a: Authority| #[trigger]
                peers@.contains(a) <==> self@.contains(a) && a.name != *name,
    {
        let mut peers: Vec<Authority> = Vec::new();
        let ghost keep = |a: Authority| a.name != *name;
        let mut i: usize = 0;
        proof {
            reveal_with_fuel(Seq::filter, 1);
        }
        while i < self.authorities.len()
            invariant
                i <= self.authorities.len(),
                keep == (|a: Authority| a.name != *name),
                peers@ == self@.take(i as int).filter(keep),
            decreases self.authorities.len() - i,
        {
            proof {
                assert(self@.take(i + 1) =~= self@.take(i as int).push(self@[i as int]));
                self@.take(i as int).lemma_filter_push(self@[i as int], keep);
            }
            if self.authorities[i].name != *name {
                peers.push(self.authorities[i]);
            }
            i += 1;
        }
        assert(self@.take(i as int) =~= self@);
        proof {
            assert forall|a: Authority| #[trigger]
                peers@.contains(a) <==> self@.contains(a) && a.name != *name by {
                law_others(self@, *name, a);
            }
        }
        peers
    }

    /// The addresses of the members other than the one named.
    pub fn peer_addresses(&self, name: &PublicKey) -> (addresses: Vec<Address>)
        ensures
            addresses@ == other_addresses(self@, *name),
    {
        let peers = self.broadcast_addresses(name);
        let mut addresses: Vec<Address> = Vec::new();
        let mut i: usize = 0;
        while i < peers.len()
            invariant
                i <= peers.len(),
                addresses@ == peers@.take(i as int).map_values(|a: Authority| a.address),
            decreases peers.len() - i,
        {
            addresses.push(peers[i].address);
            i += 1;
            assert(addresses@ =~= peers@.take(i as int).map_values(|a: Authority| a.address));
        }
        assert(peers@.take(i as int) =~= peers@);
        addresses
    }
}

} // verus!
