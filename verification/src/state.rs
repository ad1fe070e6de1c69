//! The two persistent entities: the per-distribution configuration and the
//! per-recipient cumulative claim record, together with the admin-gated
//! transitions of the configuration.

use vstd::prelude::*;

verus! {

use crate::error::ErrorCode;

/// Per-distribution configuration, created once and mutated only by
/// admin-gated operations.
#[derive(Clone, Copy, Debug, PartialEq, Eq)]
pub struct DistributorConfig {
    /// The current Merkle commitment over `(recipient, cumulative
    /// entitlement)` pairs.
    pub root: [u8; 32],
    /// Identity authorized to rotate the root, hand over authority, and shut
    /// the distribution down.
    pub admin: [u8; 32],
    /// Reference to the custody balance that disbursements are drawn from;
    /// immutable once set.
    pub token_vault: [u8; 32],
    /// Monotonic false-to-true: once set, claims and root updates are
    /// permanently disabled.
    pub shutdown: bool,
}

/// Per-recipient record of the cumulative amount already disbursed; created
/// zeroed on the recipient's first claim attempt and never deleted.
#[derive(Clone, Copy, Debug, PartialEq, Eq)]
pub struct ClaimedRewards {
    /// Cumulative amount already paid out to this recipient.
    pub claimed: u64,
}

impl ClaimedRewards {
    /// The record as the host runtime creates it on first access: nothing
    /// paid out yet.
    pub fn new() -> (r: ClaimedRewards)
        ensures
            r.claimed == 0,
    {
        ClaimedRewards { claimed: 0 }
    }
}

/// What `update_root` decides: `Ok` carries the configuration after the
/// rotation. Only the admin may rotate, and not after shutdown; the caller
/// check comes first, as the host runtime validates the caller's identity
/// before the operation body runs.
pub open spec fn spec_update_root(
    config: DistributorConfig,
    caller: Seq<u8>,
    new_root: [u8; 32],
) -> Result<DistributorConfig, ErrorCode> {
    if caller != config.admin@ {
        Err(ErrorCode::Unauthorized)
    } else if config.shutdown {
        Err(ErrorCode::Shutdown)
    } else {
        Ok(DistributorConfig { root: new_root, ..config })
    }
}

/// What `set_admin` decides: `Ok` carries the configuration with the new
/// admin. Authority moves outright, and shutdown does not block the handoff.
pub open spec fn spec_set_admin(
    config: DistributorConfig,
    caller: Seq<u8>,
    new_admin: [u8; 32],
) -> Result<DistributorConfig, ErrorCode> {
    if caller != config.admin@ {
        Err(ErrorCode::Unauthorized)
    } else {
        Ok(DistributorConfig { admin: new_admin, ..config })
    }
}

} // verus!
