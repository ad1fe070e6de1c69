//! Verified core of a token-distribution ledger: Merkle inclusion proofs
//! are checked against a rotating root, each recipient's cumulative
//! entitlement is accounted so that only the outstanding delta is ever
//! disbursed, and the admin-gated lifecycle (root rotation, admin
//! transfer, shutdown with a final sweep) is enforced.
//!
//! The host ledger runtime is an external collaborator: it stores the
//! [`state::DistributorConfig`] and one [`state::ClaimedRewards`] record per
//! recipient durably and atomically, authenticates callers, and executes
//! balance transfers. The functions here take the stored state and the
//! authenticated caller identity as plain values, decide each operation,
//! and return the amount the runtime must transfer.

use vstd::prelude::*;

pub mod claim;
pub mod error;
pub mod hashing;
pub mod laws;
pub mod merkle;
pub mod shutdown;
pub mod state;

verus! {

use crate::claim::Claim;
use crate::error::ErrorCode;
use crate::shutdown::Shutdown;
use crate::state::DistributorConfig;
use crate::state::spec_set_admin;
use crate::state::spec_update_root;

/// Create the distribution configuration: the caller becomes the admin, the
/// custody vault reference and the first Merkle root are recorded, and the
/// distribution starts open. The host runtime must create the record at most
/// once per distribution.
pub fn initialize(caller: [u8; 32], token_vault: [u8; 32], initial_root: [u8; 32]) -> (config:
    DistributorConfig)
    ensures
        config.admin == caller,
        config.token_vault == token_vault,
        config.root == initial_root,
        !config.shutdown,
{
    DistributorConfig { root: initial_root, admin: caller, token_vault, shutdown: false }
}

/// Redeem tokens up to the claimed cumulative entitlement; see
/// [`Claim::handle_claim`] for the exact contract.
pub fn claim(accounts: &mut Claim, total_amount: u64, proof: &Vec<[u8; 32]>) -> (r: Result<
    u64,
    ErrorCode,
>)
    ensures
        r == crate::claim::spec_claim(
            old(accounts).config,
            old(accounts).claimed_rewards.claimed,
            old(accounts).claimant@,
            old(accounts).from_amount,
            total_amount,
            crate::merkle::hashes_view(proof@),
        ),
        r is Ok ==> *final(accounts) == (Claim {
            claimed_rewards: crate::state::ClaimedRewards { claimed: total_amount },
            ..*old(accounts)
        }),
        r is Err ==> *final(accounts) == *old(accounts),
{
    accounts.handle_claim(total_amount, proof)
}

/// Replace the Merkle root; admin-only, rejected after shutdown.
pub fn update_root(config: &mut DistributorConfig, caller: &[u8; 32], new_root: [u8; 32]) -> (r:
    Result<(), ErrorCode>)
    ensures
        match r {
            Ok(()) => spec_update_root(*old(config), caller@, new_root) == Ok::<_, ErrorCode>(
                *final(config),
            ),
            Err(e) => spec_update_root(*old(config), caller@, new_root) == Err::<
                DistributorConfig,
                _,
            >(e) && *final(config) == *old(config),
        },
{
    if !crate::hashing::eq_bytes(caller, &config.admin) {
        return Err(ErrorCode::Unauthorized);
    }
    if config.shutdown {
        return Err(ErrorCode::Shutdown);
    }
    config.root = new_root;
    Ok(())
}

/// Hand the admin authority to another identity outright; admin-only.
pub fn set_admin(config: &mut DistributorConfig, caller: &[u8; 32], new_admin: [u8; 32]) -> (r:
    Result<(), ErrorCode>)
    ensures
        match r {
            Ok(()) => spec_set_admin(*old(config), caller@, new_admin) == Ok::<_, ErrorCode>(
                *final(config),
            ),
            Err(e) => spec_set_admin(*old(config), caller@, new_admin) == Err::<
                DistributorConfig,
                _,
            >(e) && *final(config) == *old(config),
        },
{
    if !crate::hashing::eq_bytes(caller, &config.admin) {
        return Err(ErrorCode::Unauthorized);
    }
    config.admin = new_admin;
    Ok(())
}

/// Freeze the distribution for good and sweep the whole custody balance to
/// the admin; see [`Shutdown::handle_shutdown`] for the exact contract.
pub fn shutdown(accounts: &mut Shutdown) -> (r: Result<u64, ErrorCode>)
    ensures
        r == crate::shutdown::spec_shutdown(
            old(accounts).config,
            old(accounts).admin@,
            old(accounts).from_amount,
        ),
        r is Ok ==> *final(accounts) == (Shutdown {
            config: DistributorConfig { shutdown: true, ..old(accounts).config },
            ..*old(accounts)
        }),
        r is Err ==> *final(accounts) == *old(accounts),
{
    accounts.handle_shutdown()
}

} // verus!
