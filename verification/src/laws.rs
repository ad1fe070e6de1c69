//! Laws of the distribution core, each proved from the transition
//! specifications alone: monotonic cumulative accounting, replay safety,
//! root-rotation transparency, shutdown finality, and authorization.

use vstd::prelude::*;

verus! {

use crate::claim::spec_claim;
use crate::error::ErrorCode;
use crate::merkle::spec_proof_verifies;
use crate::shutdown::spec_shutdown;
use crate::state::DistributorConfig;
use crate::state::spec_set_admin;
use crate::state::spec_update_root;

/// One claim call in a history of calls by a single recipient: the
/// configuration in force at its serialization point (the root may have
/// rotated between calls), the vault balance it observed, and the claimed
/// total with its proof.
pub struct ClaimCall {
    /// The configuration the call was validated against.
    pub config: DistributorConfig,
    /// The vault balance at the call's serialization point.
    pub vault_amount: u64,
    /// The cumulative entitlement the call claimed.
    pub total_amount: u64,
    /// The sibling hashes the call presented.
    pub proof: Seq<Seq<u8>>,
}

/// The recipient's recorded cumulative total after a history of claim
/// calls: each successful call sets the record to its claimed total,
/// each rejected call leaves it alone.
pub open spec fn claimed_after(claimant: Seq<u8>, claimed0: u64, calls: Seq<ClaimCall>) -> u64
    decreases calls.len(),
{
    if calls.len() == 0 {
        claimed0
    } else {
        let c = calls[0];
        let next = if spec_claim(
            c.config,
            claimed0,
            claimant,
            c.vault_amount,
            c.total_amount,
            c.proof,
        ) is Ok {
            c.total_amount
        } else {
            claimed0
        };
        claimed_after(claimant, next, calls.skip(1))
    }
}

/// The sum of the deltas actually transferred over a history of claim
/// calls: each successful call pays out exactly what it returned, each
/// rejected call pays nothing.
pub open spec fn deltas_paid(claimant: Seq<u8>, claimed0: u64, calls: Seq<ClaimCall>) -> int
    decreases calls.len(),
{
    if calls.len() == 0 {
        0
    } else {
        let c = calls[0];
        match spec_claim(c.config, claimed0, claimant, c.vault_amount, c.total_amount, c.proof) {
            Ok(delta) => delta + deltas_paid(claimant, c.total_amount, calls.skip(1)),
            Err(_) => deltas_paid(claimant, claimed0, calls.skip(1)),
        }
    }
}

/// Monotonic claims: over any history of claim calls by one recipient, the
/// recorded cumulative total never decreases, and the sum of all transferred
/// deltas equals exactly the growth of that record — no over- or
/// under-payment, whatever the order, outcomes, or root rotations.
pub proof fn lemma_monotonic_claims(claimant: Seq<u8>, claimed0: u64, calls: Seq<ClaimCall>)
    ensures
        claimed_after(claimant, claimed0, calls) >= claimed0,
        deltas_paid(claimant, claimed0, calls) == claimed_after(claimant, claimed0, calls)
            - claimed0,
    decreases calls.len(),
{
    if calls.len() > 0 {
        let c = calls[0];
        if spec_claim(c.config, claimed0, claimant, c.vault_amount, c.total_amount, c.proof)
            is Ok {
            lemma_monotonic_claims(claimant, c.total_amount, calls.skip(1));
        } else {
            lemma_monotonic_claims(claimant, claimed0, calls.skip(1));
        }
    }
}

/// Replay safety: a claim that succeeds pays a positive delta and sets the
/// record to `total_amount`; repeating the call with the same `total_amount`
/// — with any proof and any vault balance — is rejected as `AlreadyClaimed`.
pub proof fn lemma_replay_rejected(
    config: DistributorConfig,
    already_claimed: u64,
    claimant: Seq<u8>,
    vault_amount: u64,
    total_amount: u64,
    proof: Seq<Seq<u8>>,
    vault_amount2: u64,
    proof2: Seq<Seq<u8>>,
)
    requires
        spec_claim(config, already_claimed, claimant, vault_amount, total_amount, proof) is Ok,
    ensures
        spec_claim(config, already_claimed, claimant, vault_amount, total_amount, proof) == Ok::<
            u64,
            ErrorCode,
        >((total_amount - already_claimed) as u64),
        total_amount > already_claimed,
        spec_claim(config, total_amount, claimant, vault_amount2, total_amount, proof2) == Err::<
            u64,
            ErrorCode,
        >(ErrorCode::AlreadyClaimed),
{
}

/// Root-rotation transparency: once the admin rotates the root to one that
/// commits a higher cumulative total for a recipient who already claimed
/// part of it, a claim of the higher total with a proof valid against the
/// new root succeeds and transfers only the outstanding delta.
pub proof fn lemma_root_rotation_transparency(
    config: DistributorConfig,
    new_root: [u8; 32],
    already_claimed: u64,
    claimant: Seq<u8>,
    vault_amount: u64,
    total_amount: u64,
    proof: Seq<Seq<u8>>,
)
    requires
        !config.shutdown,
        total_amount > already_claimed,
        spec_proof_verifies(claimant, total_amount, proof, new_root@),
        vault_amount >= total_amount - already_claimed,
    ensures
        spec_update_root(config, config.admin@, new_root) == Ok::<_, ErrorCode>(
            (DistributorConfig { root: new_root, ..config }),
        ),
        spec_claim(
            (DistributorConfig { root: new_root, ..config }),
            already_claimed,
            claimant,
            vault_amount,
            total_amount,
            proof,
        ) == Ok::<u64, ErrorCode>((total_amount - already_claimed) as u64),
{
}

/// The configuration as shutdown leaves it: only the terminal flag changes.
pub open spec fn spec_after_shutdown(config: DistributorConfig) -> DistributorConfig {
    DistributorConfig { shutdown: true, ..config }
}

/// Shutdown finality: shutting down an open distribution sweeps the whole
/// vault balance, leaving nothing behind; afterwards every claim, every
/// admin root update, and a second shutdown by the admin are rejected as
/// `Shutdown`.
pub proof fn lemma_shutdown_finality(config: DistributorConfig, vault_amount: u64)
    requires
        !config.shutdown,
    ensures
        spec_shutdown(config, config.admin@, vault_amount) == Ok::<u64, ErrorCode>(vault_amount),
        forall|already: u64, who: Seq<u8>, v: u64, t: u64, p: Seq<Seq<u8>>|
            (#[trigger] spec_claim(spec_after_shutdown(config), already, who, v, t, p)) == Err::<
                u64,
                ErrorCode,
            >(ErrorCode::Shutdown),
        forall|nr: [u8; 32]|
            (#[trigger] spec_update_root(spec_after_shutdown(config), config.admin@, nr)) == Err::<
                DistributorConfig,
                ErrorCode,
            >(ErrorCode::Shutdown),
        forall|v2: u64|
            (#[trigger] spec_shutdown(spec_after_shutdown(config), config.admin@, v2)) == Err::<
                u64,
                ErrorCode,
            >(ErrorCode::Shutdown),
{
}

/// Authorization: every admin-gated operation — root update, admin
/// transfer, shutdown — is rejected as `Unauthorized` when the caller is
/// not the recorded admin, whatever the rest of the state.
pub proof fn lemma_authorization(
    config: DistributorConfig,
    caller: Seq<u8>,
    new_root: [u8; 32],
    new_admin: [u8; 32],
    vault_amount: u64,
)
    requires
        caller != config.admin@,
    ensures
        spec_update_root(config, caller, new_root) == Err::<DistributorConfig, ErrorCode>(
            ErrorCode::Unauthorized,
        ),
        spec_set_admin(config, caller, new_admin) == Err::<DistributorConfig, ErrorCode>(
            ErrorCode::Unauthorized,
        ),
        spec_shutdown(config, caller, vault_amount) == Err::<u64, ErrorCode>(
            ErrorCode::Unauthorized,
        ),
{
}

/// Authorization after a handoff: once `set_admin` moves authority to a
/// different identity, the former admin is rejected as `Unauthorized` on
/// every admin-gated operation.
pub proof fn lemma_former_admin_unauthorized(
    config: DistributorConfig,
    new_admin: [u8; 32],
    new_root: [u8; 32],
    other_admin: [u8; 32],
    vault_amount: u64,
)
    requires
        config.admin@ != new_admin@,
    ensures
        spec_set_admin(config, config.admin@, new_admin) == Ok::<_, ErrorCode>(
            (DistributorConfig { admin: new_admin, ..config }),
        ),
        spec_update_root(
            (DistributorConfig { admin: new_admin, ..config }),
            config.admin@,
            new_root,
        ) == Err::<DistributorConfig, ErrorCode>(ErrorCode::Unauthorized),
        spec_set_admin(
            (DistributorConfig { admin: new_admin, ..config }),
            config.admin@,
            other_admin,
        ) == Err::<DistributorConfig, ErrorCode>(ErrorCode::Unauthorized),
        spec_shutdown((DistributorConfig { admin: new_admin, ..config }), config.admin@, vault_amount)
            == Err::<u64, ErrorCode>(ErrorCode::Unauthorized),
{
}

} // verus!

