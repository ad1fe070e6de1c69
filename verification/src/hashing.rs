//! The hash primitive behind the Merkle commitment, and byte-level helpers:
//! big-endian encoding of amounts and byte-wise comparison of hashes.

use vstd::prelude::*;
use vstd::slice::slice_to_vec;

verus! {

/// The digest that the host ledger's hash primitive returns for the
/// concatenation of the given byte segments. Left uninterpreted: the digest
/// is a pure function of the bytes, but its value is fixed by the hash
/// function itself, not restated here.
pub uninterp spec fn hash_of(segments: Seq<Seq<u8>>) -> Seq<u8>;

/// Relies on `anchor_lang::solana_program::hash::hashv`
/// (`solana_sha256_hasher::hashv`): the SHA-256 digest, 32 bytes, of the
/// concatenation of the given byte slices, a function of those bytes alone.
#[verifier::external_body]
fn hashv_bytes(segments: &Vec<Vec<u8>>) -> (r: [u8; 32])
    ensures
        r@ == hash_of(segments@.map_values(|v: Vec<u8>| v@)),
{
    let slices: Vec<&[u8]> = segments.iter().map(|v| v.as_slice()).collect();
    anchor_lang::solana_program::hash::hashv(&slices).to_bytes()
}

/// Digest of a single byte segment.
pub open spec fn spec_hash1(a: Seq<u8>) -> Seq<u8> {
    hash_of(seq![a])
}

/// Digest of two byte segments, the first fed to the hash before the second.
pub open spec fn spec_hash2(a: Seq<u8>, b: Seq<u8>) -> Seq<u8> {
    hash_of(seq![a, b])
}

/// Hash one 32-byte value.
pub fn hash1(a: &[u8; 32]) -> (r: [u8; 32])
    ensures
        r@ == spec_hash1(a@),
{
    let mut segments: Vec<Vec<u8>> = Vec::new();
    segments.push(slice_to_vec(a.as_slice()));
    let r = hashv_bytes(&segments);
    proof {
        assert(segments@.map_values(|v: Vec<u8>| v@) =~= seq![a@]);
    }
    r
}

/// Hash the concatenation of two byte strings.
pub fn hash2(a: &Vec<u8>, b: &Vec<u8>) -> (r: [u8; 32])
    ensures
        r@ == spec_hash2(a@, b@),
{
    let mut segments: Vec<Vec<u8>> = Vec::new();
    segments.push(slice_to_vec(a.as_slice()));
    segments.push(slice_to_vec(b.as_slice()));
    let r = hashv_bytes(&segments);
    proof {
        assert(segments@.map_values(|v: Vec<u8>| v@) =~= seq![a@, b@]);
    }
    r
}

/// Big-endian bytes of a 64-bit amount, most significant byte first.
pub open spec fn spec_be_bytes(x: u64) -> Seq<u8> {
    seq![
        (x >> 56) as u8,
        (x >> 48) as u8,
        (x >> 40) as u8,
        (x >> 32) as u8,
        (x >> 24) as u8,
        (x >> 16) as u8,
        (x >> 8) as u8,
        x as u8,
    ]
}

/// The amount as it enters the leaf pre-image: eight big-endian bytes.
pub fn be_bytes(x: u64) -> (r: [u8; 8])
    ensures
        r@ == spec_be_bytes(x),
{
    let r: [u8; 8] = [
        (x >> 56) as u8,
        (x >> 48) as u8,
        (x >> 40) as u8,
        (x >> 32) as u8,
        (x >> 24) as u8,
        (x >> 16) as u8,
        (x >> 8) as u8,
        x as u8,
    ];
    proof {
        assert(r@ =~= spec_be_bytes(x));
    }
    r
}

/// Byte-wise (lexicographic) order on byte strings of equal length: the
/// tie-break rule that fixes in which order two sibling hashes are combined.
pub open spec fn spec_le_bytes(a: Seq<u8>, b: Seq<u8>) -> bool
    decreases a.len(),
{
    if a.len() == 0 || b.len() == 0 {
        true
    } else if a[0] < b[0] {
        true
    } else if a[0] > b[0] {
        false
    } else {
        spec_le_bytes(a.skip(1), b.skip(1))
    }
}

/// Byte-wise comparison of two 32-byte hashes.
pub fn le_bytes(a: &[u8; 32], b: &[u8; 32]) -> (r: bool)
    ensures
        r == spec_le_bytes(a@, b@),
{
    let mut i: usize = 0;
    proof {
        assert(a@.skip(0) =~= a@);
        assert(b@.skip(0) =~= b@);
    }
    while i < 32
        invariant
            i <= 32,
            spec_le_bytes(a@, b@) == spec_le_bytes(a@.skip(i as int), b@.skip(i as int)),
        decreases 32 - i,
    {
        if a[i] < b[i] {
            proof {
                assert(a@.skip(i as int)[0] == a@[i as int]);
            }
            return true;
        }
        if a[i] > b[i] {
            proof {
                assert(a@.skip(i as int)[0] == a@[i as int]);
            }
            return false;
        }
        proof {
            assert(a@.skip(i as int).skip(1) =~= a@.skip(i as int + 1));
            assert(b@.skip(i as int).skip(1) =~= b@.skip(i as int + 1));
        }
        i += 1;
    }
    proof {
        assert(a@.skip(32) =~= Seq::<u8>::empty());
    }
    true
}

/// Equality of two 32-byte hashes.
pub fn eq_bytes(a: &[u8; 32], b: &[u8; 32]) -> (r: bool)
    ensures
        r == (a@ == b@),
{
    let mut i: usize = 0;
    while i < 32
        invariant
            i <= 32,
            forall|j: int| 0 <= j < i ==> a@[j] == b@[j],
        decreases 32 - i,
    {
        if a[i] != b[i] {
            return false;
        }
        i += 1;
    }
    proof {
        assert(a@ =~= b@);
    }
    true
}

} // verus!
