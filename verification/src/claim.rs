//! The claim operation: verify membership of `(claimant, total_amount)` in
//! the committed tree, then pay out only the delta over what the claimant
//! was already paid.

use vstd::prelude::*;

verus! {

use crate::error::ErrorCode;
use crate::merkle::hashes_view;
use crate::merkle::spec_proof_verifies;
use crate::merkle::verify_proof;
use crate::state::ClaimedRewards;
use crate::state::DistributorConfig;

/// The state a claim call runs against: the distribution configuration, the
/// claimant's own claim record, the custody vault's current balance, and the
/// claimant's identity, which the host runtime has authenticated before this
/// code runs.
#[derive(Clone, Copy, Debug, PartialEq, Eq)]
pub struct Claim {
    /// The distribution configuration the claim is validated against.
    pub config: DistributorConfig,
    /// The claimant's record of what was already paid out; the host runtime
    /// creates it zeroed on first access.
    pub claimed_rewards: ClaimedRewards,
    /// Balance of the custody vault at the serialization point of this call.
    pub from_amount: u64,
    /// The authenticated identity of the caller.
    pub claimant: [u8; 32],
}

/// What a claim decides, given the state it runs against. `Ok` carries the
/// delta the host runtime must transfer from the vault to the claimant; the
/// record is then set to `total_amount` outright. Exactly one error fits any
/// rejected call: shutdown is checked first, then staleness, then the proof,
/// then the vault balance.
pub open spec fn spec_claim(
    config: DistributorConfig,
    already_claimed: u64,
    claimant: Seq<u8>,
    vault_amount: u64,
    total_amount: u64,
    proof: Seq<Seq<u8>>,
) -> Result<u64, ErrorCode> {
    if config.shutdown {
        Err(ErrorCode::Shutdown)
    } else if total_amount <= already_claimed {
        Err(ErrorCode::AlreadyClaimed)
    } else if !spec_proof_verifies(claimant, total_amount, proof, config.root@) {
        Err(ErrorCode::InvalidProof)
    } else if vault_amount < total_amount - already_claimed {
        Err(ErrorCode::InsufficientBalance)
    } else {
        Ok((total_amount - already_claimed) as u64)
    }
}

impl Claim {
    /// Decide a claim of `total_amount` cumulative entitlement, shown by
    /// `proof`. On success the claim record is set to `total_amount` and the
    /// returned delta — the only amount the host runtime may transfer out of
    /// the vault for this call — is exactly `total_amount` minus what was
    /// recorded before. On failure nothing changes.
    pub fn handle_claim(&mut self, total_amount: u64, proof: &Vec<[u8; 32]>) -> (r: Result<
        u64,
        ErrorCode,
    >)
        ensures
            r == spec_claim(
                old(self).config,
                old(self).claimed_rewards.claimed,
                old(self).claimant@,
                old(self).from_amount,
                total_amount,
                hashes_view(proof@),
            ),
            r is Ok ==> *final(self) == (Claim {
                claimed_rewards: ClaimedRewards { claimed: total_amount },
                ..*old(self)
            }),
            r is Err ==> *final(self) == *old(self),
    {
        if self.config.shutdown {
            return Err(ErrorCode::Shutdown);
        }
        let already_claimed = self.claimed_rewards.claimed;
        if total_amount <= already_claimed {
            return Err(ErrorCode::AlreadyClaimed);
        }
        if !verify_proof(&self.claimant, total_amount, proof, &self.config.root) {
            return Err(ErrorCode::InvalidProof);
        }
        let amount = total_amount - already_claimed;
        if self.from_amount < amount {
            return Err(ErrorCode::InsufficientBalance);
        }
        self.claimed_rewards.claimed = total_amount;
        Ok(amount)
    }
}

} // verus!
