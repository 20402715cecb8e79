//! Buffers handed to the network.

use bytes::Bytes;
use vstd::prelude::*;

verus! {

/// The buffer type of the `bytes` crate.
#[verifier::external_type_specification]
#[verifier::external_body]
pub struct ExBytes(bytes::Bytes);

/// The bytes that a buffer holds, in order.
pub uninterp spec fn bytes_contents(buffer: Bytes) -> Seq<u8>;

/// Calls `<Bytes as From<Vec<u8>>>::from`, which takes over the vector's
/// allocation: the buffer holds the bytes of the vector in their order.
#[verifier::external_body]
fn bytes_from_vec(bytes: Vec<u8>) -> (buffer: Bytes)
    ensures
        bytes_contents(buffer) == bytes@,
{
    Bytes::from(bytes)
}

/// Calls `<Bytes as From<&'static str>>::from`, which borrows the text: the
/// buffer holds its UTF-8 encoding.
#[verifier::external_body]
fn bytes_from_str(text: &'static str) -> (buffer: Bytes)
    ensures
        bytes_contents(buffer) == vstd::utf8::encode_utf8(text@),
{
    Bytes::from(text)
}

/// The bytes of the acknowledgement: the word `Ack` in ASCII.
pub open spec fn ack_contents() -> Seq<u8> {
    seq![65u8, 99u8, 107u8]
}

/// The buffer in which an encoded message travels.
pub fn frame(message: Vec<u8>) -> (buffer: Bytes)
    ensures
        bytes_contents(buffer) == message@,
{
    bytes_from_vec(message)
}

/// The acknowledgement owed to the sender of a proposal.
pub fn acknowledgement() -> (buffer: Bytes)
    ensures
        bytes_contents(buffer) == ack_contents(),
        bytes_contents(buffer) == seq![65u8, 99u8, 107u8],
{
    proof {
        reveal_strlit("Ack");
        vstd::utf8::is_ascii_chars_encode_utf8("Ack"@);
        assert(vstd::utf8::encode_utf8("Ack"@) =~= ack_contents());
    }
    bytes_from_str("Ack")
}

} // verus!
