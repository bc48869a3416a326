//! What an escrow keeps on the ledger, and how its funds are divided.

use vstd::prelude::*;

use crate::address::Address;
use crate::error::EscrowError;

verus! {

/// A fee of the whole amount, in basis points.
pub const MAX_FEE_BPS: u32 = 10_000;

/// The state of one escrow.
#[derive(Clone, Copy, Debug, PartialEq, Eq)]
pub struct EscrowState {
    /// Party that deposited the funds and may take them back after the lock.
    pub depositor: Address,
    /// Party that receives the funds on release.
    pub beneficiary: Address,
    /// Neutral third party that decides on release or early refund.
    pub arbiter: Address,
    /// Token that is held.
    pub token: Address,
    /// Gross amount locked, before any fee.
    pub amount: i128,
    /// Fee in basis points, taken from `amount` on release.
    pub fee_bps: u32,
    /// Party that receives the fee.
    pub fee_recipient: Address,
    /// Ledger sequence number after which the depositor may take the funds back
    /// alone; zero disables that path, and the arbiter's window never closes.
    pub lock_until_ledger: u32,
    /// Whether the funds have left, in either direction.
    pub released: bool,
}

impl EscrowState {
    /// Why these terms are refused at setup, if they are: the first of the
    /// conditions below that they break, in this order.
    pub open spec fn refusal(self) -> Option<EscrowError> {
        if self.amount <= 0 {
            Some(EscrowError::InvalidAmount)
        } else if self.fee_bps > MAX_FEE_BPS {
            Some(EscrowError::InvalidFeeBps)
        } else if self.beneficiary == self.depositor {
            Some(EscrowError::InvalidBeneficiary)
        } else if self.arbiter == self.depositor || self.arbiter == self.beneficiary {
            Some(EscrowError::InvalidArbiter)
        } else {
            None
        }
    }

    /// What holds of every escrow that has been set up: something is locked, the
    /// fee is at most the whole of it, and the three parties are distinct.
    pub open spec fn well_formed(self) -> bool {
        &&& self.amount > 0
        &&& self.fee_bps <= MAX_FEE_BPS
        &&& self.beneficiary != self.depositor
        &&& self.arbiter != self.depositor
        &&& self.arbiter != self.beneficiary
    }

    /// Whether the lock has run out at ledger `sequence`. A lock at ledger zero
    /// never runs out.
    pub open spec fn lock_expired(self, sequence: u32) -> bool {
        0 < self.lock_until_ledger < sequence
    }

    /// The same escrow once its funds have left.
    pub open spec fn closed_out(self) -> EscrowState {
        EscrowState { released: true, ..self }
    }

    /// Whether the fee can be computed: the amount times the basis points is
    /// within the range of the amounts.
    pub open spec fn fee_fits(self) -> bool {
        i128::MIN <= self.amount * self.fee_bps <= i128::MAX
    }

    /// The fee: that many ten-thousandths of the amount, rounded toward zero.
    pub open spec fn fee(self) -> int {
        let product = self.amount * self.fee_bps;
        if product >= 0 {
            product / 10_000
        } else {
            -((-product) / 10_000)
        }
    }

    /// What is left for the beneficiary.
    pub open spec fn net(self) -> int {
        self.amount - self.fee()
    }

    /// Computes the fee and what is left for the beneficiary.
    pub fn split(&self) -> (parts: (i128, i128))
        requires
            self.fee_fits(),
        ensures
            parts.0 == self.fee(),
            parts.1 == self.net(),
            parts.0 + parts.1 == self.amount,
            self.amount >= 0 ==> parts.0 * 10_000 <= self.amount * self.fee_bps < (parts.0 + 1)
                * 10_000,
    {
        proof {
            lemma_product_sign(self.amount as int, self.fee_bps as int);
        }
        let fee: i128 = self.amount * self.fee_bps as i128 / 10_000;
        let net: i128 = self.amount - fee;
        (fee, net)
    }
}

/// A product has the sign of its first factor when the second is not negative.
pub(crate) proof fn lemma_product_sign(a: int, b: int)
    by (nonlinear_arith)
    requires
        b >= 0,
    ensures
        a >= 0 ==> a * b >= 0,
        a <= 0 ==> a * b <= 0,
{
}

/// Setup refuses exactly the terms that are not well formed: where nothing is
/// locked, the fee is above the whole, or two of depositor, beneficiary and arbiter
/// are the same party.
pub proof fn law_setup_refuses_exactly_bad_terms(terms: EscrowState)
    ensures
        terms.refusal() is None <==> terms.well_formed(),
        terms.well_formed() <==> {
            &&& terms.amount > 0
            &&& terms.fee_bps <= 10_000
            &&& terms.beneficiary != terms.depositor
            &&& terms.arbiter != terms.depositor
            &&& terms.arbiter != terms.beneficiary
        },
{
}

/// A split loses and creates nothing. The fee is the true fraction of the amount
/// rounded toward zero: down where the amount is not negative, up where it is. At
/// a rate that a setup accepts neither part of a non-negative amount is negative.
/// No fee is taken at zero basis points, and the whole amount at the maximum.
pub proof fn law_split_conserves(state: EscrowState)
    ensures
        state.fee() + state.net() == state.amount,
        state.amount >= 0 && state.fee_bps <= 10_000 ==> 0 <= state.fee() <= state.amount,
        state.amount >= 0 && state.fee_bps <= 10_000 ==> 0 <= state.net() <= state.amount,
        state.amount >= 0 ==> state.fee() * 10_000 <= state.amount * state.fee_bps < (state.fee()
            + 1) * 10_000,
        state.amount <= 0 ==> (state.fee() - 1) * 10_000 < state.amount * state.fee_bps
            <= state.fee() * 10_000,
        state.fee_bps == 0 ==> state.fee() == 0,
        state.fee_bps == 10_000 ==> state.net() == 0,
{
    lemma_product_sign(state.amount as int, state.fee_bps as int);
    if state.amount >= 0 && state.fee_bps <= 10_000 {
        assert(state.amount * state.fee_bps <= state.amount * 10_000) by (nonlinear_arith)
            requires
                state.amount >= 0,
                state.fee_bps <= 10_000,
        ;
    }
    if state.fee_bps == 0 {
        assert(state.amount * state.fee_bps == 0) by (nonlinear_arith)
            requires
                state.fee_bps == 0,
        ;
    }
    if state.fee_bps == 10_000 {
        assert(state.amount * state.fee_bps == state.amount * 10_000);
    }
}

/// The only inputs that a split leaves out are those whose amount times rate is
/// outside the range of amounts. Every amount can be split at rates zero and one,
/// and every amount up to a ten-thousandth of the range at any rate that a setup
/// accepts.
pub proof fn law_split_covers_the_range(state: EscrowState)
    ensures
        state.fee_fits() <==> i128::MIN <= state.amount * state.fee_bps <= i128::MAX,
        state.fee_bps <= 1 ==> state.fee_fits(),
        0 <= state.amount <= i128::MAX / 10_000 && state.fee_bps <= 10_000 ==> state.fee_fits(),
{
    lemma_product_sign(state.amount as int, state.fee_bps as int);
    if state.fee_bps <= 1 {
        assert(state.amount * state.fee_bps == if state.fee_bps == 0 { 0 } else { state.amount as int })
            by (nonlinear_arith)
            requires
                state.fee_bps <= 1,
        ;
    }
    if 0 <= state.amount && state.fee_bps <= 10_000 {
        assert(state.amount * state.fee_bps <= state.amount * 10_000) by (nonlinear_arith)
            requires
                state.amount >= 0,
                state.fee_bps <= 10_000,
        ;
    }
}

/// A higher fee rate never lowers the fee of an amount that is not negative.
pub proof fn law_fee_grows_with_rate(low: EscrowState, high: EscrowState)
    requires
        low.amount == high.amount,
        low.amount >= 0,
        low.fee_bps <= high.fee_bps,
    ensures
        low.fee() <= high.fee(),
{
    lemma_product_sign(low.amount as int, low.fee_bps as int);
    assert(low.amount * low.fee_bps <= low.amount * high.fee_bps) by (nonlinear_arith)
        requires
            low.amount >= 0,
            low.fee_bps <= high.fee_bps,
    ;
}

/// A lock has run out at exactly the ledgers after its own, and a lock at ledger
/// zero at none. So once it has run out it stays so: at every later ledger it has
/// run out too.
pub proof fn law_lock_expiry_is_final(state: EscrowState, sequence: u32, later: u32)
    ensures
        state.lock_expired(sequence) <==> state.lock_until_ledger != 0 && sequence
            > state.lock_until_ledger,
        state.lock_expired(sequence) && sequence <= later ==> state.lock_expired(later),
        state.lock_until_ledger == 0 ==> !state.lock_expired(sequence),
{
}

/// Closing an escrow out marks it as released and touches no term of it.
pub proof fn law_closing_touches_no_term(state: EscrowState)
    ensures
        state.closed_out().released,
        state.closed_out().depositor == state.depositor,
        state.closed_out().beneficiary == state.beneficiary,
        state.closed_out().arbiter == state.arbiter,
        state.closed_out().token == state.token,
        state.closed_out().amount == state.amount,
        state.closed_out().fee_bps == state.fee_bps,
        state.closed_out().fee_recipient == state.fee_recipient,
        state.closed_out().lock_until_ledger == state.lock_until_ledger,
{
}

} // verus!
