//! What each call promises, in terms of the fields that it is given or that are
//! stored, and of the effects that it records.

use vstd::prelude::*;

use crate::env::{Effect, EnvView};
use crate::error::EscrowError;
use crate::state::{lemma_product_sign, EscrowState};

verus! {

/// Good terms are accepted where nothing is set up, and nothing else is: each
/// refusal comes on exactly the inputs that give it.
pub proof fn law_setup_accepts_exactly_good_terms(env: EnvView, terms: EscrowState)
    ensures
        env.setup_answer(terms) is Ok <==> {
            &&& env.state is None
            &&& terms.amount > 0
            &&& terms.fee_bps <= 10_000
            &&& terms.beneficiary != terms.depositor
            &&& terms.arbiter != terms.depositor
            &&& terms.arbiter != terms.beneficiary
        },
        env.setup_answer(terms) == Err::<(), EscrowError>(EscrowError::InvalidAmount)
            <==> terms.amount <= 0,
        env.setup_answer(terms) == Err::<(), EscrowError>(EscrowError::InvalidFeeBps) <==> {
            &&& terms.amount > 0
            &&& terms.fee_bps > 10_000
        },
        env.setup_answer(terms) == Err::<(), EscrowError>(EscrowError::InvalidBeneficiary) <==> {
            &&& terms.amount > 0
            &&& terms.fee_bps <= 10_000
            &&& terms.beneficiary == terms.depositor
        },
        env.setup_answer(terms) == Err::<(), EscrowError>(EscrowError::InvalidArbiter) <==> {
            &&& terms.amount > 0
            &&& terms.fee_bps <= 10_000
            &&& terms.beneficiary != terms.depositor
            &&& terms.arbiter == terms.depositor || terms.arbiter == terms.beneficiary
        },
        env.setup_answer(terms) == Err::<(), EscrowError>(EscrowError::AlreadyInitialised) <==> {
            &&& env.state is Some
            &&& terms.amount > 0
            &&& terms.fee_bps <= 10_000
            &&& terms.beneficiary != terms.depositor
            &&& terms.arbiter != terms.depositor
            &&& terms.arbiter != terms.beneficiary
        },
{
}

/// A setup that goes through asks the depositor, moves the deposit to the escrow
/// and stores the terms as they were given; one that is refused does nothing.
pub proof fn law_setup_stores_the_terms_given(env: EnvView, terms: EscrowState)
    ensures
        env.setup_answer(terms) is Ok ==> {
            let after = env.after_setup(terms);
            &&& after.state == Some(terms)
            &&& after.contract == env.contract
            &&& after.sequence == env.sequence
            &&& after.effects == env.effects + seq![
                Effect::RequireAuth(terms.depositor),
                Effect::Transfer {
                    token: terms.token,
                    from: terms.depositor,
                    to: env.contract,
                    amount: terms.amount,
                },
                Effect::Store(terms),
            ]
        },
        env.setup_answer(terms) is Err ==> env.after_setup(terms) == env,
{
}

/// The state read is the state stored, whatever is stored and whatever has been
/// recorded; where nothing is stored, the question is refused.
pub proof fn law_state_read_is_state_stored(env: EnvView, s: EscrowState)
    ensures
        env.state == Some(s) <==> env.read_answer() == Ok::<EscrowState, EscrowError>(s),
        env.state is None <==> env.read_answer() == Err::<EscrowState, EscrowError>(
            EscrowError::NotInitialised,
        ),
        env.read_answer() is Err ==> env.state is None,
{
}

/// The arbiter may decide up to and at the ledger of the lock, or at any ledger if
/// there is no lock, as long as the funds are there.
pub proof fn law_arbiter_decides_until_the_lock(env: EnvView)
    ensures
        env.arbiter_answer() is Ok <==> {
            &&& env.state is Some
            &&& !env.state->0.released
            &&& env.state->0.lock_until_ledger == 0 || env.sequence
                <= env.state->0.lock_until_ledger
        },
        env.arbiter_answer() == Err::<(), EscrowError>(EscrowError::LockExpired) <==> {
            &&& env.state is Some
            &&& !env.state->0.released
            &&& env.state->0.lock_until_ledger != 0
            &&& env.sequence > env.state->0.lock_until_ledger
        },
        env.arbiter_answer() == Err::<(), EscrowError>(EscrowError::AlreadyReleased) <==> {
            &&& env.state is Some
            &&& env.state->0.released
        },
        env.arbiter_answer() == Err::<(), EscrowError>(EscrowError::NotInitialised)
            <==> env.state is None,
{
}

/// The depositor may take the funds back alone from the first ledger after the
/// lock on, as long as they are there, and never if there is no lock.
pub proof fn law_depositor_decides_after_the_lock(env: EnvView)
    ensures
        env.depositor_answer() is Ok <==> {
            &&& env.state is Some
            &&& !env.state->0.released
            &&& env.state->0.lock_until_ledger != 0
            &&& env.sequence > env.state->0.lock_until_ledger
        },
        env.depositor_answer() == Err::<(), EscrowError>(EscrowError::LockNotExpired) <==> {
            &&& env.state is Some
            &&& !env.state->0.released
            &&& env.state->0.lock_until_ledger == 0 || env.sequence
                <= env.state->0.lock_until_ledger
        },
        env.depositor_answer() == Err::<(), EscrowError>(EscrowError::AlreadyReleased) <==> {
            &&& env.state is Some
            &&& env.state->0.released
        },
        env.depositor_answer() == Err::<(), EscrowError>(EscrowError::NotInitialised)
            <==> env.state is None,
{
}

/// A release may be called wherever it would be refused, and wherever the amount
/// times the fee rate is within the range of amounts.
pub proof fn law_release_is_left_out_only_beyond_the_range(env: EnvView)
    ensures
        !env.release_fits() <==> {
            &&& env.state is Some
            &&& !env.state->0.released
            &&& env.state->0.lock_until_ledger == 0 || env.sequence
                <= env.state->0.lock_until_ledger
            &&& env.state->0.amount * env.state->0.fee_bps > i128::MAX || env.state->0.amount
                * env.state->0.fee_bps < i128::MIN
        },
{
}

/// A release that goes through asks the arbiter, pays the fee to the fee recipient
/// if there is one to pay, pays the rest to the beneficiary, and stores the escrow
/// as released with its terms as they were. Here `fee` is that many
/// ten-thousandths of the amount, rounded toward zero.
pub proof fn law_release_pays_in_order(env: EnvView, s: EscrowState, fee: i128)
    requires
        env.state == Some(s),
        env.arbiter_answer() is Ok,
        i128::MIN <= s.amount * s.fee_bps <= i128::MAX,
        s.amount >= 0 ==> fee * 10_000 <= s.amount * s.fee_bps < (fee + 1) * 10_000,
        s.amount < 0 ==> (fee - 1) * 10_000 < s.amount * s.fee_bps <= fee * 10_000,
    ensures
        ({
            let after = env.after_release();
            let ask = Effect::RequireAuth(s.arbiter);
            let charge = Effect::Transfer {
                token: s.token,
                from: env.contract,
                to: s.fee_recipient,
                amount: fee,
            };
            let pay = Effect::Transfer {
                token: s.token,
                from: env.contract,
                to: s.beneficiary,
                amount: (s.amount - fee) as i128,
            };
            let closed = EscrowState { released: true, ..s };
            &&& i128::MIN <= s.amount - fee <= i128::MAX
            &&& after.state == Some(closed)
            &&& after.contract == env.contract
            &&& after.sequence == env.sequence
            &&& fee > 0 ==> after.effects == env.effects + seq![
                ask,
                charge,
                pay,
                Effect::Store(closed),
            ]
            &&& fee <= 0 ==> after.effects == env.effects + seq![ask, pay, Effect::Store(closed)]
        }),
{
    lemma_product_sign(s.amount as int, s.fee_bps as int);
    assert(s.fee() == fee);
    assert(s.net() == s.amount - fee);
}

/// A refund that goes through asks the arbiter, a self-refund the depositor; each
/// then pays the whole amount to the depositor, and stores the escrow as released
/// with its terms as they were.
pub proof fn law_refunds_pay_in_order(env: EnvView, s: EscrowState)
    requires
        env.state == Some(s),
    ensures
        env.arbiter_answer() is Ok ==> {
            let after = env.after_refund();
            let closed = EscrowState { released: true, ..s };
            &&& after.state == Some(closed)
            &&& after.contract == env.contract
            &&& after.sequence == env.sequence
            &&& after.effects == env.effects + seq![
                Effect::RequireAuth(s.arbiter),
                Effect::Transfer {
                    token: s.token,
                    from: env.contract,
                    to: s.depositor,
                    amount: s.amount,
                },
                Effect::Store(closed),
            ]
        },
        env.depositor_answer() is Ok ==> {
            let after = env.after_self_refund();
            let closed = EscrowState { released: true, ..s };
            &&& after.state == Some(closed)
            &&& after.contract == env.contract
            &&& after.sequence == env.sequence
            &&& after.effects == env.effects + seq![
                Effect::RequireAuth(s.depositor),
                Effect::Transfer {
                    token: s.token,
                    from: env.contract,
                    to: s.depositor,
                    amount: s.amount,
                },
                Effect::Store(closed),
            ]
        },
{
}

/// A refused payout does nothing where no escrow is set up; where one is, it has
/// asked its party for authorisation and done nothing else.
pub proof fn law_refused_payouts_only_ask(env: EnvView)
    ensures
        env.state is None ==> {
            &&& env.after_release() == env
            &&& env.after_refund() == env
            &&& env.after_self_refund() == env
        },
        env.state is Some && env.arbiter_answer() is Err ==> {
            let asked = EnvView {
                effects: env.effects.push(Effect::RequireAuth(env.state->0.arbiter)),
                ..env
            };
            &&& env.after_release() == asked
            &&& env.after_refund() == asked
        },
        env.state is Some && env.depositor_answer() is Err ==> env.after_self_refund() == (
        EnvView {
            effects: env.effects.push(Effect::RequireAuth(env.state->0.depositor)),
            ..env
        }),
{
}

} // verus!
