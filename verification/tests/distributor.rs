//! End-to-end tests of the distribution core against the real hash
//! primitive: Merkle trees are built here with the host ledger's own
//! SHA-256, and the library must agree with them.

use merkle_distributor::claim::Claim;
use merkle_distributor::error::ErrorCode;
use merkle_distributor::hashing::{be_bytes, eq_bytes, le_bytes};
use merkle_distributor::merkle::verify_proof;
use merkle_distributor::shutdown::Shutdown;
use merkle_distributor::state::{ClaimedRewards, DistributorConfig};
use merkle_distributor::{claim, initialize, set_admin, shutdown, update_root};

const ALICE: [u8; 32] = [0xA1; 32];
const BOB: [u8; 32] = [0xB0; 32];
const ADMIN: [u8; 32] = [0xAD; 32];
const VAULT: [u8; 32] = [0x7A; 32];

fn h(parts: &[&[u8]]) -> [u8; 32] {
    anchor_lang::solana_program::hash::hashv(parts).to_bytes()
}

/// The double-hashed leaf for a recipient and a cumulative entitlement.
fn leaf(recipient: &[u8; 32], amount: u64) -> [u8; 32] {
    h(&[&h(&[recipient.as_slice(), &amount.to_be_bytes()])])
}

/// Combine two nodes under the canonical byte-wise ordering rule.
fn node(a: [u8; 32], b: [u8; 32]) -> [u8; 32] {
    if a <= b {
        h(&[&a, &b])
    } else {
        h(&[&b, &a])
    }
}

/// A fresh configuration and claim state for a two-leaf tree over
/// `{(ALICE, alice_total), (BOB, bob_total)}`, with Alice's sibling proof.
fn two_leaf_setup(
    alice_total: u64,
    bob_total: u64,
    vault_balance: u64,
) -> (DistributorConfig, Claim, Vec<[u8; 32]>) {
    let root = node(leaf(&ALICE, alice_total), leaf(&BOB, bob_total));
    let config = initialize(ADMIN, VAULT, root);
    let accounts = Claim {
        config,
        claimed_rewards: ClaimedRewards::new(),
        from_amount: vault_balance,
        claimant: ALICE,
    };
    (config, accounts, vec![leaf(&BOB, bob_total)])
}

#[test]
fn be_bytes_exact() {
    assert_eq!(be_bytes(0x0102030405060708), [1, 2, 3, 4, 5, 6, 7, 8]);
    assert_eq!(be_bytes(0), [0; 8]);
    assert_eq!(be_bytes(u64::MAX), [0xFF; 8]);
    assert_eq!(be_bytes(256), [0, 0, 0, 0, 0, 0, 1, 0]);
    assert_eq!(be_bytes(77), 77u64.to_be_bytes());
}

#[test]
fn byte_order_matches_std() {
    let mut a = [0u8; 32];
    let mut b = [0u8; 32];
    assert!(le_bytes(&a, &b));
    assert!(eq_bytes(&a, &b));
    b[31] = 1;
    assert!(le_bytes(&a, &b));
    assert!(!le_bytes(&b, &a));
    assert!(!eq_bytes(&a, &b));
    a[0] = 2;
    assert!(le_bytes(&b, &a));
    assert!(!le_bytes(&a, &b));
    assert_eq!(le_bytes(&a, &b), a <= b);
    assert_eq!(le_bytes(&b, &a), b <= a);
}

#[test]
fn proof_accepts_member_leaf() {
    let alice_leaf = leaf(&ALICE, 100);
    let bob_leaf = leaf(&BOB, 50);
    let root = node(alice_leaf, bob_leaf);
    assert!(verify_proof(&ALICE, 100, &vec![bob_leaf], &root));
    assert!(verify_proof(&BOB, 50, &vec![alice_leaf], &root));
}

#[test]
fn proof_accepts_single_leaf_tree() {
    // A one-leaf tree: the root is the double-hashed leaf, the proof is empty.
    let root = leaf(&ALICE, 7);
    assert!(verify_proof(&ALICE, 7, &vec![], &root));
    assert!(!verify_proof(&ALICE, 8, &vec![], &root));
}

#[test]
fn proof_accepts_four_leaf_tree() {
    let carol = [0xCA; 32];
    let dave = [0xDA; 32];
    let l1 = leaf(&ALICE, 100);
    let l2 = leaf(&BOB, 50);
    let l3 = leaf(&carol, 25);
    let l4 = leaf(&dave, 12);
    let n12 = node(l1, l2);
    let n34 = node(l3, l4);
    let root = node(n12, n34);
    assert!(verify_proof(&ALICE, 100, &vec![l2, n34], &root));
    assert!(verify_proof(&BOB, 50, &vec![l1, n34], &root));
    assert!(verify_proof(&carol, 25, &vec![l4, n12], &root));
    assert!(verify_proof(&dave, 12, &vec![l3, n12], &root));
    // Swapping the order of the siblings breaks the fold.
    assert!(!verify_proof(&ALICE, 100, &vec![n34, l2], &root));
}

#[test]
fn proof_rejects_any_flipped_bit() {
    let bob_leaf = leaf(&BOB, 50);
    let root = node(leaf(&ALICE, 100), bob_leaf);

    // A bit flip in the sibling hash.
    let mut bad_sibling = bob_leaf;
    bad_sibling[17] ^= 0x04;
    assert!(!verify_proof(&ALICE, 100, &vec![bad_sibling], &root));

    // A different total than the tree committed to.
    assert!(!verify_proof(&ALICE, 101, &vec![bob_leaf], &root));

    // A bit flip in the recipient identity.
    let mut mallory = ALICE;
    mallory[0] ^= 0x80;
    assert!(!verify_proof(&mallory, 100, &vec![bob_leaf], &root));

    // A bit flip in the root.
    let mut bad_root = root;
    bad_root[31] ^= 0x01;
    assert!(!verify_proof(&ALICE, 100, &vec![bob_leaf], &bad_root));
}

#[test]
fn leaf_is_double_hashed() {
    // The root of a one-leaf tree is not the bare pre-image hash: the extra
    // hashing step must be there.
    let preimage = h(&[ALICE.as_slice(), &100u64.to_be_bytes()]);
    assert!(!verify_proof(&ALICE, 100, &vec![], &preimage));
    assert!(verify_proof(&ALICE, 100, &vec![], &h(&[&preimage])));
}

#[test]
fn claim_pays_the_delta_once() {
    let (_, mut accounts, proof) = two_leaf_setup(100, 50, 1000);
    assert_eq!(claim(&mut accounts, 100, &proof), Ok(100));
    assert_eq!(accounts.claimed_rewards.claimed, 100);
    // Replay of the same total: nothing new to disburse.
    assert_eq!(claim(&mut accounts, 100, &proof), Err(ErrorCode::AlreadyClaimed));
    assert_eq!(accounts.claimed_rewards.claimed, 100);
    // A stale, lower total is rejected the same way.
    assert_eq!(claim(&mut accounts, 40, &proof), Err(ErrorCode::AlreadyClaimed));
}

#[test]
fn claim_rejects_invalid_proof() {
    let (_, mut accounts, proof) = two_leaf_setup(100, 50, 1000);
    assert_eq!(claim(&mut accounts, 99, &proof), Err(ErrorCode::InvalidProof));
    let mut bad = proof.clone();
    bad[0][3] ^= 1;
    assert_eq!(claim(&mut accounts, 100, &bad), Err(ErrorCode::InvalidProof));
    assert_eq!(accounts.claimed_rewards.claimed, 0);
}

#[test]
fn claim_rejects_insufficient_balance() {
    let (_, mut accounts, proof) = two_leaf_setup(100, 50, 99);
    assert_eq!(claim(&mut accounts, 100, &proof), Err(ErrorCode::InsufficientBalance));
    assert_eq!(accounts.claimed_rewards.claimed, 0);
    accounts.from_amount = 100;
    assert_eq!(claim(&mut accounts, 100, &proof), Ok(100));
}

#[test]
fn claim_rejects_after_shutdown() {
    let (_, mut accounts, proof) = two_leaf_setup(100, 50, 1000);
    accounts.config.shutdown = true;
    assert_eq!(claim(&mut accounts, 100, &proof), Err(ErrorCode::Shutdown));
    assert_eq!(accounts.claimed_rewards.claimed, 0);
}

#[test]
fn root_rotation_pays_only_the_increment() {
    // The concrete scenario: a tree over {(Alice, 100), (Bob, 50)}.
    let (config, mut accounts, proof) = two_leaf_setup(100, 50, 1000);
    assert_eq!(claim(&mut accounts, 100, &proof), Ok(100));
    assert_eq!(accounts.claimed_rewards.claimed, 100);
    assert_eq!(claim(&mut accounts, 100, &proof), Err(ErrorCode::AlreadyClaimed));

    // The admin rotates the root to commit {(Alice, 150), (Bob, 50)}.
    let bob_leaf = leaf(&BOB, 50);
    let new_root = node(leaf(&ALICE, 150), bob_leaf);
    let mut config = config;
    assert_eq!(update_root(&mut config, &ADMIN, new_root), Ok(()));
    accounts.config = config;

    // The old proof no longer verifies for the new total; the new one pays
    // exactly the 50 outstanding.
    assert_eq!(claim(&mut accounts, 150, &proof), Ok(50));
    assert_eq!(accounts.claimed_rewards.claimed, 150);
}

#[test]
fn transferred_deltas_sum_to_final_claimed() {
    let (config, mut accounts, proof100) = two_leaf_setup(100, 50, 1000);
    let mut paid: u64 = 0;
    let mut config = config;

    if let Ok(delta) = claim(&mut accounts, 100, &proof100) {
        paid += delta;
    }
    // A replay and an invalid proof pay nothing.
    assert!(claim(&mut accounts, 100, &proof100).is_err());
    assert!(claim(&mut accounts, 175, &proof100).is_err());

    let new_root = node(leaf(&ALICE, 175), leaf(&BOB, 50));
    assert_eq!(update_root(&mut config, &ADMIN, new_root), Ok(()));
    accounts.config = config;
    if let Ok(delta) = claim(&mut accounts, 175, &vec![leaf(&BOB, 50)]) {
        paid += delta;
    }

    assert_eq!(paid, accounts.claimed_rewards.claimed);
    assert_eq!(paid, 175);
}

#[test]
fn update_root_requires_admin_and_open() {
    let root = leaf(&ALICE, 1);
    let mut config = initialize(ADMIN, VAULT, root);
    let other = [0x55; 32];
    assert_eq!(update_root(&mut config, &other, [9; 32]), Err(ErrorCode::Unauthorized));
    assert_eq!(config.root, root);
    assert_eq!(update_root(&mut config, &ADMIN, [9; 32]), Ok(()));
    assert_eq!(config.root, [9; 32]);
    config.shutdown = true;
    assert_eq!(update_root(&mut config, &ADMIN, [7; 32]), Err(ErrorCode::Shutdown));
    assert_eq!(config.root, [9; 32]);
}

#[test]
fn set_admin_hands_authority_over() {
    let mut config = initialize(ADMIN, VAULT, [0; 32]);
    let new_admin = [0x11; 32];
    let intruder = [0x22; 32];
    assert_eq!(set_admin(&mut config, &intruder, new_admin), Err(ErrorCode::Unauthorized));
    assert_eq!(config.admin, ADMIN);
    assert_eq!(set_admin(&mut config, &ADMIN, new_admin), Ok(()));
    assert_eq!(config.admin, new_admin);
    // The former admin has no authority left, anywhere.
    assert_eq!(update_root(&mut config, &ADMIN, [1; 32]), Err(ErrorCode::Unauthorized));
    assert_eq!(set_admin(&mut config, &ADMIN, ADMIN), Err(ErrorCode::Unauthorized));
    let mut accounts = Shutdown { config, from_amount: 10, admin: ADMIN };
    assert_eq!(shutdown(&mut accounts), Err(ErrorCode::Unauthorized));
    // The new admin can rotate the root.
    assert_eq!(update_root(&mut config, &new_admin, [1; 32]), Ok(()));
}

#[test]
fn shutdown_sweeps_everything_once() {
    let config = initialize(ADMIN, VAULT, [0; 32]);
    let mut accounts = Shutdown { config, from_amount: 987, admin: ADMIN };
    // The whole remaining balance is swept; nothing is left behind.
    assert_eq!(shutdown(&mut accounts), Ok(987));
    assert!(accounts.config.shutdown);
    // A second shutdown, and any later claim or root update, are rejected.
    accounts.from_amount = 0;
    assert_eq!(shutdown(&mut accounts), Err(ErrorCode::Shutdown));
    let mut config = accounts.config;
    assert_eq!(update_root(&mut config, &ADMIN, [1; 32]), Err(ErrorCode::Shutdown));
    let mut claim_accounts = Claim {
        config,
        claimed_rewards: ClaimedRewards::new(),
        from_amount: 0,
        claimant: ALICE,
    };
    assert_eq!(claim(&mut claim_accounts, 5, &vec![]), Err(ErrorCode::Shutdown));
}

#[test]
fn shutdown_requires_admin() {
    let config = initialize(ADMIN, VAULT, [0; 32]);
    let mut accounts = Shutdown { config, from_amount: 10, admin: [0x66; 32] };
    assert_eq!(shutdown(&mut accounts), Err(ErrorCode::Unauthorized));
    assert!(!accounts.config.shutdown);
}

#[test]
fn claim_handles_the_largest_amount() {
    let root = leaf(&ALICE, u64::MAX);
    let config = initialize(ADMIN, VAULT, root);
    let mut accounts = Claim {
        config,
        claimed_rewards: ClaimedRewards::new(),
        from_amount: u64::MAX,
        claimant: ALICE,
    };
    assert_eq!(claim(&mut accounts, u64::MAX, &vec![]), Ok(u64::MAX));
    assert_eq!(accounts.claimed_rewards.claimed, u64::MAX);
    assert_eq!(claim(&mut accounts, u64::MAX, &vec![]), Err(ErrorCode::AlreadyClaimed));
}

#[test]
fn recipients_have_independent_records() {
    let (config, mut alice_accounts, alice_proof) = two_leaf_setup(100, 50, 1000);
    let mut bob_accounts = Claim {
        config,
        claimed_rewards: ClaimedRewards::new(),
        from_amount: 1000,
        claimant: BOB,
    };
    assert_eq!(claim(&mut alice_accounts, 100, &alice_proof), Ok(100));
    // Alice's record does not count against Bob, and the proofs do not mix.
    assert_eq!(claim(&mut bob_accounts, 50, &alice_proof), Err(ErrorCode::InvalidProof));
    assert_eq!(claim(&mut bob_accounts, 50, &vec![leaf(&ALICE, 100)]), Ok(50));
    assert_eq!(bob_accounts.claimed_rewards.claimed, 50);
    assert_eq!(alice_accounts.claimed_rewards.claimed, 100);
}

#[test]
fn error_names_are_stable() {
    assert_eq!(ErrorCode::Shutdown.name(), "Shutdown");
    assert_eq!(ErrorCode::AlreadyClaimed.name(), "AlreadyClaimed");
    assert_eq!(ErrorCode::InvalidProof.name(), "InvalidProof");
    assert_eq!(ErrorCode::InsufficientBalance.name(), "InsufficientBalance");
    assert_eq!(ErrorCode::Unauthorized.name(), "Unauthorized");
}
