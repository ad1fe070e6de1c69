//! The error taxonomy. Every operation either succeeds or returns exactly
//! one of these kinds, with no partial mutation.

use vstd::prelude::*;

verus! {

/// Why an operation was rejected. Each failure aborts the whole call; the
/// host runtime's transaction envelope guarantees that no partial state
/// survives a rejection.
#[derive(Clone, Copy, Debug, PartialEq, Eq)]
pub enum ErrorCode {
    /// The distribution has been shut down; claims and root updates are
    /// permanently disabled.
    Shutdown,
    /// The claimed cumulative total does not exceed what was already paid
    /// out, so there is nothing new to disburse.
    AlreadyClaimed,
    /// The Merkle proof does not fold to the current root.
    InvalidProof,
    /// The custody vault holds less than the outstanding delta.
    InsufficientBalance,
    /// The caller is not the recorded admin of an admin-only operation.
    Unauthorized,
}

impl ErrorCode {
    /// A short, stable name for the error kind.
    pub fn name(&self) -> (r: &'static str)
        ensures
            r@ == self.spec_name(),
    {
        match self {
            ErrorCode::Shutdown => "Shutdown",
            ErrorCode::AlreadyClaimed => "AlreadyClaimed",
            ErrorCode::InvalidProof => "InvalidProof",
            ErrorCode::InsufficientBalance => "InsufficientBalance",
            ErrorCode::Unauthorized => "Unauthorized",
        }
    }

    /// The name each error kind carries.
    pub open spec fn spec_name(self) -> Seq<char> {
        match self {
            ErrorCode::Shutdown => "Shutdown"@,
            ErrorCode::AlreadyClaimed => "AlreadyClaimed"@,
            ErrorCode::InvalidProof => "InvalidProof"@,
            ErrorCode::InsufficientBalance => "InsufficientBalance"@,
            ErrorCode::Unauthorized => "Unauthorized"@,
        }
    }
}

} // verus!
