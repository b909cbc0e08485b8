//! Little-endian encoding of 32-bit integers, as `borsh` writes and reads them.

use vstd::prelude::*;

verus! {

/// Number of bytes that an encoded `u32` occupies.
pub const U32_LEN: usize = 4;

/// The four bytes of `value`, least significant first.
pub open spec fn u32_to_bytes(value: u32) -> Seq<u8> {
    seq![
        (value % 0x100) as u8,
        (value / 0x100 % 0x100) as u8,
        (value / 0x1_0000 % 0x100) as u8,
        (value / 0x100_0000) as u8,
    ]
}

/// The integer whose little-endian bytes are `bytes`.
pub open spec fn u32_from_bytes(bytes: Seq<u8>) -> u32
    recommends
        bytes.len() == U32_LEN,
{
    (bytes[0] + 0x100 * bytes[1] + 0x1_0000 * bytes[2] + 0x100_0000 * bytes[3]) as u32
}

/// Decoding the encoding of an integer gives the integer back.
pub proof fn lemma_u32_roundtrip(value: u32)
    ensures
        u32_to_bytes(value).len() == U32_LEN,
        u32_from_bytes(u32_to_bytes(value)) == value,
{
    let high: int = value as int / 0x1_0000;
    assert(value / 0x100_0000 == high / 0x100);
    assert(value / 0x100 % 0x100 == (value % 0x1_0000) / 0x100);
    assert(value == value % 0x100 + 0x100 * (value / 0x100 % 0x100) + 0x1_0000 * (high % 0x100)
        + 0x100_0000 * (high / 0x100));
}

/// Encoding the integer read from four bytes gives the four bytes back.
pub proof fn lemma_bytes_roundtrip(bytes: Seq<u8>)
    requires
        bytes.len() == U32_LEN,
    ensures
        u32_to_bytes(u32_from_bytes(bytes)) == bytes,
{
    let low: int = bytes[0] + 0x100 * bytes[1];
    let high: int = bytes[2] + 0x100 * bytes[3];
    let value = u32_from_bytes(bytes);
    assert(value == low + 0x1_0000 * high);
    assert(value / 0x100 == bytes[1] + 0x100 * high);
    assert(value / 0x1_0000 == high);
    assert(value / 0x100_0000 == bytes[3]);
    assert(u32_to_bytes(value) =~= bytes);
}

/// Two integers with the same encoding are the same integer.
pub proof fn lemma_u32_to_bytes_injective(a: u32, b: u32)
    requires
        u32_to_bytes(a) == u32_to_bytes(b),
    ensures
        a == b,
{
    lemma_u32_roundtrip(a);
    lemma_u32_roundtrip(b);
}

/// Why bytes could not be read as a value.
#[derive(Clone, Copy, Debug, PartialEq, Eq, Structural)]
pub enum DecodeError {
    /// The input is shorter or longer than the value's encoding.
    UnexpectedLength,
    /// The first byte, given here, is the tag of no variant.
    UnexpectedVariant(u8),
}

/// `std::io::Error`, in which borsh reports a failure. Nothing is known of
/// what such a value holds.
#[verifier::external_type_specification]
#[verifier::external_body]
pub struct ExIoError(std::io::Error);

/// Calls `borsh::BorshDeserialize::try_from_slice` for `u32`.
///
/// Trusted: borsh reads exactly four bytes as a little-endian integer, fails
/// on a shorter slice, and fails when bytes are left over.
#[verifier::external_body]
pub(crate) fn read_u32(bytes: &[u8]) -> (r: Result<u32, std::io::Error>)
    ensures
        r is Ok <==> bytes@.len() == U32_LEN,
        r is Ok ==> r->Ok_0 == u32_from_bytes(bytes@),
{
    borsh::BorshDeserialize::try_from_slice(bytes)
}

/// Calls `borsh::BorshSerialize::serialize` for `u32`, with a vector to
/// write to.
///
/// Trusted: borsh appends the integer's four little-endian bytes to the
/// vector, which cannot fail.
#[verifier::external_body]
pub(crate) fn write_u32(value: u32, writer: &mut Vec<u8>) -> (r: Result<(), std::io::Error>)
    ensures
        r is Ok,
        final(writer)@ == old(writer)@ + u32_to_bytes(value),
{
    borsh::BorshSerialize::serialize(&value, writer)
}

} // verus!
