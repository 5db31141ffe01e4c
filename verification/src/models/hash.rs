//! The stable hash under which a cache key is found again in the store.

use std::collections::hash_map::DefaultHasher;
use std::hash::Hasher;
use vstd::prelude::*;
use vstd::std_specs::hash::DefaultHasherAdditionalSpecFns;
use crate::models::strings::{decimal, u64_to_decimal};

verus! {

/// What the hasher has been fed once a string was hashed into it: the
/// string's UTF-8 bytes, then the byte `0xff` that ends every string.
pub open spec fn hashed_writes(key: Seq<char>) -> Seq<Seq<u8>> {
    seq![vstd::utf8::encode_utf8(key), seq![0xffu8]]
}

/// The hash of a key: the decimal numeral of the 64-bit digest that the
/// standard library's default hasher, freshly made, gives for the key.
pub open spec fn key_hash(key: Seq<char>) -> Seq<char> {
    decimal(DefaultHasher::spec_finish(hashed_writes(key)) as nat)
}

/// Hashes a key with the standard library's default hasher and writes the
/// digest in decimal.
pub fn calculate_hash(t: &String) -> (hash: String)
    ensures
        hash@ == key_hash(t@),
{
    let mut s = DefaultHasher::new();
    s.write(t.as_str().as_bytes());
    let end: [u8; 1] = [0xff];
    let last = end.as_slice();
    assert(last@ =~= seq![0xffu8]);
    s.write(last);
    assert(s@ =~= hashed_writes(t@));
    u64_to_decimal(s.finish())
}

} // verus!
