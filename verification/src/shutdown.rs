//! The shutdown operation: a one-way terminal transition that freezes the
//! distribution and sweeps the whole remaining custody balance to the admin.

use vstd::prelude::*;

verus! {

use crate::error::ErrorCode;
use crate::hashing::eq_bytes;
use crate::state::DistributorConfig;

/// The state a shutdown call runs against: the configuration, the custody
/// vault's current balance, and the authenticated caller identity.
#[derive(Clone, Copy, Debug, PartialEq, Eq)]
pub struct Shutdown {
    /// The distribution configuration being shut down.
    pub config: DistributorConfig,
    /// Balance of the custody vault at the serialization point of this call.
    pub from_amount: u64,
    /// The authenticated identity of the caller; must be the admin.
    pub admin: [u8; 32],
}

/// What a shutdown decides. `Ok` carries the sweep amount — the entire
/// remaining vault balance, so nothing is left behind — and the shutdown
/// flag is set for good. The caller check comes first, as the host runtime
/// validates the caller's identity before the operation body runs; a second
/// shutdown by the admin is rejected as `Shutdown`.
pub open spec fn spec_shutdown(
    config: DistributorConfig,
    caller: Seq<u8>,
    vault_amount: u64,
) -> Result<u64, ErrorCode> {
    if caller != config.admin@ {
        Err(ErrorCode::Unauthorized)
    } else if config.shutdown {
        Err(ErrorCode::Shutdown)
    } else {
        Ok(vault_amount)
    }
}

impl Shutdown {
    /// Shut the distribution down: set the terminal flag and return the
    /// whole vault balance, which the host runtime must transfer to a
    /// balance owned by the admin. On failure nothing changes.
    pub fn handle_shutdown(&mut self) -> (r: Result<u64, ErrorCode>)
        ensures
            r == spec_shutdown(old(self).config, old(self).admin@, old(self).from_amount),
            r is Ok ==> *final(self) == (Shutdown {
                config: DistributorConfig { shutdown: true, ..old(self).config },
                ..*old(self)
            }),
            r is Err ==> *final(self) == *old(self),
    {
        if !eq_bytes(&self.admin, &self.config.admin) {
            return Err(ErrorCode::Unauthorized);
        }
        if self.config.shutdown {
            return Err(ErrorCode::Shutdown);
        }
        self.config.shutdown = true;
        Ok(self.from_amount)
    }
}

} // verus!
