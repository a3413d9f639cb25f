//! The BLAKE3 hash of the `blake3` crate, as the project hash uses it.
//!
//! Nothing in this file is proved: it states what the crate's `Hasher` is
//! trusted to do. The hash itself is not restated here but named, as a
//! function of the bytes that went in.

use vstd::prelude::*;

verus! {

#[verifier::external_type_specification]
#[verifier::external_body]
pub struct ExHasher(blake3::Hasher);

/// The bytes that a hasher has taken in, in their order.
pub uninterp spec fn hasher_input(hasher: blake3::Hasher) -> Seq<u8>;

/// The BLAKE3 hash of `input`, written in lower-case hexadecimal.
pub uninterp spec fn blake3_hex(input: Seq<u8>) -> Seq<char>;

/// A digit of lower-case hexadecimal.
pub open spec fn hex_digit(c: char) -> bool {
    ('0' <= c && c <= '9') || ('a' <= c && c <= 'f')
}

/// The number of characters of a hash in hexadecimal.
pub const HEX_LEN: usize = 64;

/// `blake3::Hasher::new`: a hasher that has taken in nothing.
#[verifier::external_body]
pub(crate) fn hasher_new() -> (hasher: blake3::Hasher)
    ensures
        hasher_input(hasher) == Seq::<u8>::empty(),
{
    blake3::Hasher::new()
}

/// `blake3::Hasher::update`: takes in `bytes` after what came before.
#[verifier::external_body]
pub(crate) fn hasher_update(hasher: &mut blake3::Hasher, bytes: &Vec<u8>)
    ensures
        hasher_input(*final(hasher)) == hasher_input(*old(hasher)) + bytes@,
{
    hasher.update(bytes);
}

/// `blake3::Hasher::finalize`, written out by `Hash`'s `Display`: the hash
/// of all that was taken in, as `HEX_LEN` digits of lower-case
/// hexadecimal.
#[verifier::external_body]
pub(crate) fn hasher_hex(hasher: &blake3::Hasher) -> (hex: String)
    ensures
        hex@ == blake3_hex(hasher_input(*hasher)),
        hex@.len() == HEX_LEN,
        forall|i: int| 0 <= i < hex@.len() ==> hex_digit(#[trigger] hex@[i]),
{
    hasher.finalize().to_string()
}

} // verus!
