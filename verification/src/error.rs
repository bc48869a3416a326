//! The reasons for which a call is refused.

use vstd::prelude::*;

verus! {

/// The reasons for which a call on the escrow is refused.
#[derive(Clone, Copy, Debug, PartialEq, Eq, Structural)]
pub enum EscrowError {
    /// The escrow has been set up before.
    AlreadyInitialised,
    /// The escrow has not been set up yet.
    NotInitialised,
    /// The funds have already been released or refunded.
    AlreadyReleased,
    /// The lock has not run out; the depositor cannot take the funds back yet.
    LockNotExpired,
    /// The lock has run out; the arbiter can no longer decide.
    LockExpired,
    /// The amount to lock is not strictly positive.
    InvalidAmount,
    /// The fee is above 10 000 basis points.
    InvalidFeeBps,
    /// The beneficiary is the depositor.
    InvalidBeneficiary,
    /// The arbiter is the depositor or the beneficiary.
    InvalidArbiter,
}

impl EscrowError {
    /// The number under which the ledger reports this refusal.
    pub open spec fn spec_code(self) -> u32 {
        match self {
            EscrowError::AlreadyInitialised => 1,
            EscrowError::NotInitialised => 2,
            EscrowError::AlreadyReleased => 3,
            EscrowError::LockNotExpired => 4,
            EscrowError::LockExpired => 5,
            EscrowError::InvalidAmount => 6,
            EscrowError::InvalidFeeBps => 7,
            EscrowError::InvalidBeneficiary => 8,
            EscrowError::InvalidArbiter => 9,
        }
    }

    /// Returns the number under which the ledger reports this refusal.
    pub fn code(self) -> (c: u32)
        ensures
            c == self.spec_code(),
    {
        match self {
            EscrowError::AlreadyInitialised => 1,
            EscrowError::NotInitialised => 2,
            EscrowError::AlreadyReleased => 3,
            EscrowError::LockNotExpired => 4,
            EscrowError::LockExpired => 5,
            EscrowError::InvalidAmount => 6,
            EscrowError::InvalidFeeBps => 7,
            EscrowError::InvalidBeneficiary => 8,
            EscrowError::InvalidArbiter => 9,
        }
    }
}

/// Two different refusals never share a number. The numbers run from one to nine:
/// first the refusals that the stage of the escrow gives, then those that bad
/// terms give.
pub proof fn law_codes_tell_refusals_apart(a: EscrowError, b: EscrowError)
    ensures
        a.spec_code() == b.spec_code() <==> a == b,
        1 <= a.spec_code() <= 9,
        a is AlreadyInitialised <==> a.spec_code() == 1,
        a is NotInitialised <==> a.spec_code() == 2,
        a is AlreadyReleased <==> a.spec_code() == 3,
        a is LockNotExpired <==> a.spec_code() == 4,
        a is LockExpired <==> a.spec_code() == 5,
        a is InvalidAmount <==> a.spec_code() == 6,
        a is InvalidFeeBps <==> a.spec_code() == 7,
        a is InvalidBeneficiary <==> a.spec_code() == 8,
        a is InvalidArbiter <==> a.spec_code() == 9,
{
}

} // verus!
