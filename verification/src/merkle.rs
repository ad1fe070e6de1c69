//! The proof verifier: a pure function that recomputes the Merkle root from
//! a `(recipient, cumulative entitlement)` leaf and an ordered sequence of
//! sibling hashes, and compares it to the committed root.

use vstd::prelude::*;
use vstd::slice::slice_to_vec;

verus! {

use crate::hashing::be_bytes;
use crate::hashing::eq_bytes;
use crate::hashing::hash1;
use crate::hashing::hash2;
use crate::hashing::le_bytes;
use crate::hashing::spec_be_bytes;
use crate::hashing::spec_hash1;
use crate::hashing::spec_hash2;
use crate::hashing::spec_le_bytes;

/// The sequence of byte strings a proof's sibling hashes stand for.
pub open spec fn hashes_view(proof: Seq<[u8; 32]>) -> Seq<Seq<u8>> {
    proof.map_values(|h: [u8; 32]| h@)
}

/// The double-hashed leaf for a recipient and a cumulative entitlement:
/// `hash(hash(recipient || big_endian(total_amount)))`. The outer hash
/// hardens leaves against being confused with internal nodes.
pub open spec fn spec_leaf(recipient: Seq<u8>, total_amount: u64) -> Seq<u8> {
    spec_hash1(spec_hash2(recipient, spec_be_bytes(total_amount)))
}

/// One fold step: combine the running hash with a sibling, the byte-wise
/// smaller of the two fed to the hash first, so the proof need not encode
/// left/right positions.
pub open spec fn spec_combine(acc: Seq<u8>, sibling: Seq<u8>) -> Seq<u8> {
    if spec_le_bytes(acc, sibling) {
        spec_hash2(acc, sibling)
    } else {
        spec_hash2(sibling, acc)
    }
}

/// Fold a whole proof over a starting hash, front to back.
pub open spec fn spec_fold(acc: Seq<u8>, proof: Seq<Seq<u8>>) -> Seq<u8>
    decreases proof.len(),
{
    if proof.len() == 0 {
        acc
    } else {
        spec_fold(spec_combine(acc, proof[0]), proof.skip(1))
    }
}

/// Whether `proof` shows `(recipient, total_amount)` to be a member of the
/// tree committed to by `root`: the fold of the double-hashed leaf over the
/// sibling hashes equals the root.
pub open spec fn spec_proof_verifies(
    recipient: Seq<u8>,
    total_amount: u64,
    proof: Seq<Seq<u8>>,
    root: Seq<u8>,
) -> bool {
    spec_fold(spec_leaf(recipient, total_amount), proof) == root
}

/// Folding one more sibling at the back folds the front part first.
pub proof fn lemma_fold_push(acc: Seq<u8>, proof: Seq<Seq<u8>>, sibling: Seq<u8>)
    ensures
        spec_fold(acc, proof.push(sibling)) == spec_combine(spec_fold(acc, proof), sibling),
    decreases proof.len(),
{
    if proof.len() == 0 {
        assert(proof.push(sibling)[0] == sibling);
        assert(proof.push(sibling).skip(1) =~= Seq::<Seq<u8>>::empty());
        assert(spec_fold(acc, proof.push(sibling)) == spec_fold(
            spec_combine(acc, sibling),
            Seq::<Seq<u8>>::empty(),
        ));
    } else {
        assert(proof.push(sibling)[0] == proof[0]);
        assert(proof.push(sibling).skip(1) =~= proof.skip(1).push(sibling));
        lemma_fold_push(spec_combine(acc, proof[0]), proof.skip(1), sibling);
        assert(spec_fold(acc, proof.push(sibling)) == spec_fold(
            spec_combine(acc, proof[0]),
            proof.skip(1).push(sibling),
        ));
    }
}

/// The double-hashed leaf for a recipient and a cumulative entitlement.
pub fn compute_leaf(recipient: &[u8; 32], total_amount: u64) -> (r: [u8; 32])
    ensures
        r@ == spec_leaf(recipient@, total_amount),
{
    let amount_bytes = be_bytes(total_amount);
    let preimage = hash2(&slice_to_vec(recipient.as_slice()), &slice_to_vec(
        amount_bytes.as_slice(),
    ));
    hash1(&preimage)
}

/// Combine a running hash with one sibling under the canonical ordering
/// rule.
pub fn combine(acc: &[u8; 32], sibling: &[u8; 32]) -> (r: [u8; 32])
    ensures
        r@ == spec_combine(acc@, sibling@),
{
    let acc_vec = slice_to_vec(acc.as_slice());
    let sibling_vec = slice_to_vec(sibling.as_slice());
    if le_bytes(acc, sibling) {
        hash2(&acc_vec, &sibling_vec)
    } else {
        hash2(&sibling_vec, &acc_vec)
    }
}

/// Decide whether `(recipient, total_amount)` is a member of the tree
/// committed to by `root`: recompute the root from the double-hashed leaf
/// and the sibling path and compare. Pure: no state is read or written.
pub fn verify_proof(
    recipient: &[u8; 32],
    total_amount: u64,
    proof: &Vec<[u8; 32]>,
    root: &[u8; 32],
) -> (r: bool)
    ensures
        r == spec_proof_verifies(recipient@, total_amount, hashes_view(proof@), root@),
{
    let ghost pview = hashes_view(proof@);
    let mut acc = compute_leaf(recipient, total_amount);
    let mut i: usize = 0;
    proof {
        assert(pview.take(0) =~= Seq::<Seq<u8>>::empty());
    }
    while i < proof.len()
        invariant
            i <= proof.len(),
            pview == hashes_view(proof@),
            acc@ == spec_fold(spec_leaf(recipient@, total_amount), pview.take(i as int)),
        decreases proof.len() - i,
    {
        let next = combine(&acc, &proof[i]);
        proof {
            assert(pview.take(i + 1) =~= pview.take(i as int).push(pview[i as int]));
            lemma_fold_push(spec_leaf(recipient@, total_amount), pview.take(i as int), pview[i as int]);
        }
        acc = next;
        i += 1;
    }
    proof {
        assert(pview.take(proof.len() as int) =~= pview);
    }
    eq_bytes(&acc, root)
}

} // verus!
