//! Identifiers of blocks and nodes.

use vstd::prelude::*;

verus! {

/// Number of bytes of a digest and of a public key.
pub const KEY_SIZE: usize = 32;

/// The hash of a block.
#[derive(Clone, Copy, Debug, Eq)]
pub struct Digest(pub [u8; KEY_SIZE]);

/// The name of a node.
#[derive(Clone, Copy, Debug, Eq)]
pub struct PublicKey(pub [u8; KEY_SIZE]);

/// The signature of a node on a message.
#[derive(Clone, Copy, Debug, PartialEq, Eq)]
pub struct Signature {
    pub part1: [u8; KEY_SIZE],
    pub part2: [u8; KEY_SIZE],
}

/// Whether two arrays hold the same bytes.
fn same_bytes(a: &[u8; KEY_SIZE], b: &[u8; KEY_SIZE]) -> (same: bool)
    ensures
        same == (*a == *b),
{
    let mut i: usize = 0;
    while i < KEY_SIZE
        invariant
            i <= KEY_SIZE,
            forall|j: int| 0 <= j < i ==> a[j] == b[j],
        decreases KEY_SIZE - i,
    {
        if a[i] != b[i] {
            return false;
        }
        i += 1;
    }
    assert(*a =~= *b);
    true
}

impl PartialEq for Digest {
    fn eq(&self, other: &Self) -> (same: bool) {
        same_bytes(&self.0, &other.0)
    }
}

impl vstd::std_specs::cmp::PartialEqSpecImpl for Digest {
    open spec fn obeys_eq_spec() -> bool {
        true
    }

    open spec fn eq_spec(&self, other: &Self) -> bool {
        *self == *other
    }
}

impl PartialEq for PublicKey {
    fn eq(&self, other: &Self) -> (same: bool) {
        same_bytes(&self.0, &other.0)
    }
}

impl vstd::std_specs::cmp::PartialEqSpecImpl for PublicKey {
    open spec fn obeys_eq_spec() -> bool {
        true
    }

    open spec fn eq_spec(&self, other: &Self) -> bool {
        *self == *other
    }
}

impl Digest {
    /// The bytes of the digest, in order: the key of its block in the store.
    pub fn to_vec(&self) -> (bytes: Vec<u8>)
        ensures
            bytes@ == self.0@,
    {
        let mut bytes: Vec<u8> = Vec::new();
        let mut i: usize = 0;
        while i < KEY_SIZE
            invariant
                i <= KEY_SIZE,
                bytes@ == self.0@.take(i as int),
            decreases KEY_SIZE - i,
        {
            bytes.push(self.0[i]);
            i += 1;
        }
        bytes
    }
}

} // verus!
