//! The calls that the parties make on an escrow.

use vstd::prelude::*;

use crate::address::Address;
use crate::env::{Env, EnvView};
use crate::error::EscrowError;
use crate::state::EscrowState;

verus! {

/// The escrow contract.
pub struct EscrowContract;

impl EnvView {
    /// The answer to a setup with `terms`: bad terms are refused first, then a
    /// second setup.
    pub open spec fn setup_answer(self, terms: EscrowState) -> Result<(), EscrowError> {
        match terms.refusal() {
            Some(e) => Err(e),
            None => if self.state is Some {
                Err(EscrowError::AlreadyInitialised)
            } else {
                Ok(())
            },
        }
    }

    /// The answer to a release or a refund by the arbiter.
    pub open spec fn arbiter_answer(self) -> Result<(), EscrowError> {
        match self.state {
            None => Err(EscrowError::NotInitialised),
            Some(s) => if s.released {
                Err(EscrowError::AlreadyReleased)
            } else if s.lock_expired(self.sequence) {
                Err(EscrowError::LockExpired)
            } else {
                Ok(())
            },
        }
    }

    /// The answer to the depositor who takes the funds back alone.
    pub open spec fn depositor_answer(self) -> Result<(), EscrowError> {
        match self.state {
            None => Err(EscrowError::NotInitialised),
            Some(s) => if s.released {
                Err(EscrowError::AlreadyReleased)
            } else if !s.lock_expired(self.sequence) {
                Err(EscrowError::LockNotExpired)
            } else {
                Ok(())
            },
        }
    }

    /// The answer to a question after the state.
    pub open spec fn read_answer(self) -> Result<EscrowState, EscrowError> {
        match self.state {
            Some(s) => Ok(s),
            None => Err(EscrowError::NotInitialised),
        }
    }

    /// Whether a release can be computed: where it would go through, the fee
    /// is within range.
    pub open spec fn release_fits(self) -> bool {
        self.arbiter_answer() is Ok ==> self.state->0.fee_fits()
    }

    /// The ledger after a setup with `terms`.
    pub open spec fn after_setup(self, terms: EscrowState) -> EnvView {
        if self.setup_answer(terms) is Ok {
            self.asking(terms.depositor).moving(
                terms.token,
                terms.depositor,
                self.contract,
                terms.amount as int,
            ).storing(terms)
        } else {
            self
        }
    }

    /// The ledger after a release: the arbiter is asked; if the answer is yes,
    /// the fee, where there is one, and the rest are paid, and the escrow closes.
    pub open spec fn after_release(self) -> EnvView {
        match self.state {
            None => self,
            Some(s) => {
                let asked = self.asking(s.arbiter);
                if self.arbiter_answer() is Ok {
                    let charged = if s.fee() > 0 {
                        asked.moving(s.token, self.contract, s.fee_recipient, s.fee())
                    } else {
                        asked
                    };
                    charged.moving(s.token, self.contract, s.beneficiary, s.net()).storing(
                        s.closed_out(),
                    )
                } else {
                    asked
                }
            },
        }
    }

    /// The ledger once the whole amount has gone back to the depositor and the
    /// escrow `s` is closed.
    pub open spec fn giving_back(self, s: EscrowState) -> EnvView {
        self.moving(s.token, self.contract, s.depositor, s.amount as int).storing(s.closed_out())
    }

    /// The ledger after a refund: the arbiter is asked; if the answer is yes, the
    /// whole amount goes back.
    pub open spec fn after_refund(self) -> EnvView {
        match self.state {
            None => self,
            Some(s) => if self.arbiter_answer() is Ok {
                self.asking(s.arbiter).giving_back(s)
            } else {
                self.asking(s.arbiter)
            },
        }
    }

    /// The ledger after the depositor took the funds back alone: the depositor
    /// is asked; if the answer is yes, the whole amount goes back.
    pub open spec fn after_self_refund(self) -> EnvView {
        match self.state {
            None => self,
            Some(s) => if self.depositor_answer() is Ok {
                self.asking(s.depositor).giving_back(s)
            } else {
                self.asking(s.depositor)
            },
        }
    }
}

impl EscrowContract {
    /// Sets the escrow up. The depositor must authorise the call; `amount` of
    /// `token` goes from the depositor to the escrow.
    ///
    /// * `lock_until_ledger` - ledger after which the depositor may take the
    ///   funds back without the arbiter; zero disables that.
    /// * `fee_bps` - fee in basis points, at most 10 000.
    /// * `fee_recipient` - receives the fee on release.
    pub fn initialize(
        env: &mut Env,
        depositor: Address,
        beneficiary: Address,
        arbiter: Address,
        token: Address,
        amount: i128,
        lock_until_ledger: u32,
        fee_bps: u32,
        fee_recipient: Address,
    ) -> (answer: Result<(), EscrowError>)
        ensures
            ({
                let terms = EscrowState {
                    depositor,
                    beneficiary,
                    arbiter,
                    token,
                    amount,
                    fee_bps,
                    fee_recipient,
                    lock_until_ledger,
                    released: false,
                };
                &&& answer == old(env)@.setup_answer(terms)
                &&& final(env)@ == old(env)@.after_setup(terms)
            }),
            answer is Ok <==> ({
                &&& old(env).state is None
                &&& amount > 0
                &&& fee_bps <= 10_000
                &&& beneficiary != depositor
                &&& arbiter != depositor
                &&& arbiter != beneficiary
            }),
            answer is Ok ==> ({
                &&& final(env).state is Some
                &&& final(env).state->0.depositor == depositor
                &&& final(env).state->0.beneficiary == beneficiary
                &&& final(env).state->0.arbiter == arbiter
                &&& final(env).state->0.token == token
                &&& final(env).state->0.amount == amount
                &&& final(env).state->0.lock_until_ledger == lock_until_ledger
                &&& final(env).state->0.fee_bps == fee_bps
                &&& final(env).state->0.fee_recipient == fee_recipient
                &&& !final(env).state->0.released
            }),
            answer is Err ==> final(env).state == old(env).state,
    {
        if amount <= 0 {
            return Err(EscrowError::InvalidAmount);
        }
        if fee_bps > 10_000 {
            return Err(EscrowError::InvalidFeeBps);
        }
        if beneficiary == depositor {
            return Err(EscrowError::InvalidBeneficiary);
        }
        if arbiter == depositor || arbiter == beneficiary {
            return Err(EscrowError::InvalidArbiter);
        }
        if env.state.is_some() {
            return Err(EscrowError::AlreadyInitialised);
        }
        let contract = env.contract;
        env.require_auth(depositor);
        env.transfer(token, depositor, contract, amount);
        env.store(
            EscrowState {
                depositor,
                beneficiary,
                arbiter,
                token,
                amount,
                fee_bps,
                fee_recipient,
                lock_until_ledger,
                released: false,
            },
        );
        Ok(())
    }

    /// Whether [`EscrowContract::release`] may be called: false where it would go
    /// through but the amount times the fee rate exceeds the range of amounts.
    pub fn release_fits(env: &Env) -> (fits: bool)
        ensures
            fits == env@.release_fits(),
    {
        match env.state {
            None => true,
            Some(state) => {
                state.released || (state.lock_until_ledger > 0 && env.sequence
                    > state.lock_until_ledger) || state.amount.checked_mul(
                    state.fee_bps as i128,
                ).is_some()
            },
        }
    }

    /// Releases the funds: the fee to the fee recipient, the rest to the
    /// beneficiary. Only the arbiter may do so, and only until the lock runs out.
    pub fn release(env: &mut Env) -> (answer: Result<(), EscrowError>)
        requires
            old(env)@.release_fits(),
        ensures
            answer == old(env)@.arbiter_answer(),
            final(env)@ == old(env)@.after_release(),
            answer is Ok <==> ({
                &&& old(env).state is Some
                &&& !old(env).state->0.released
                &&& old(env).state->0.lock_until_ledger == 0 || old(env).sequence
                    <= old(env).state->0.lock_until_ledger
            }),
            answer is Ok ==> final(env).state == Some(
                (EscrowState { released: true, ..old(env).state->0 }),
            ),
            answer is Err ==> final(env).state == old(env).state,
    {
        let mut state: EscrowState = match env.state {
            Some(state) => state,
            None => return Err(EscrowError::NotInitialised),
        };
        env.require_auth(state.arbiter);
        if state.released {
            return Err(EscrowError::AlreadyReleased);
        }
        if state.lock_until_ledger > 0 && env.sequence > state.lock_until_ledger {
            return Err(EscrowError::LockExpired);
        }
        let contract = env.contract;
        let (fee, net): (i128, i128) = state.split();
        if fee > 0 {
            env.transfer(state.token, contract, state.fee_recipient, fee);
        }
        env.transfer(state.token, contract, state.beneficiary, net);
        state.released = true;
        env.store(state);
        Ok(())
    }

    /// Returns the whole amount to the depositor. Only the arbiter may do so, and
    /// only until the lock runs out.
    pub fn refund(env: &mut Env) -> (answer: Result<(), EscrowError>)
        ensures
            answer == old(env)@.arbiter_answer(),
            final(env)@ == old(env)@.after_refund(),
            answer is Ok <==> ({
                &&& old(env).state is Some
                &&& !old(env).state->0.released
                &&& old(env).state->0.lock_until_ledger == 0 || old(env).sequence
                    <= old(env).state->0.lock_until_ledger
            }),
            answer is Ok ==> final(env).state == Some(
                (EscrowState { released: true, ..old(env).state->0 }),
            ),
            answer is Err ==> final(env).state == old(env).state,
    {
        let mut state: EscrowState = match env.state {
            Some(state) => state,
            None => return Err(EscrowError::NotInitialised),
        };
        env.require_auth(state.arbiter);
        if state.released {
            return Err(EscrowError::AlreadyReleased);
        }
        if state.lock_until_ledger > 0 && env.sequence > state.lock_until_ledger {
            return Err(EscrowError::LockExpired);
        }
        let contract = env.contract;
        env.transfer(state.token, contract, state.depositor, state.amount);
        state.released = true;
        env.store(state);
        Ok(())
    }

    /// Returns the whole amount to the depositor, who alone may do so, once the
    /// lock has run out.
    pub fn self_refund(env: &mut Env) -> (answer: Result<(), EscrowError>)
        ensures
            answer == old(env)@.depositor_answer(),
            final(env)@ == old(env)@.after_self_refund(),
            answer is Ok <==> ({
                &&& old(env).state is Some
                &&& !old(env).state->0.released
                &&& old(env).state->0.lock_until_ledger > 0
                &&& old(env).sequence > old(env).state->0.lock_until_ledger
            }),
            answer is Ok ==> final(env).state == Some(
                (EscrowState { released: true, ..old(env).state->0 }),
            ),
            answer is Err ==> final(env).state == old(env).state,
    {
        let mut state: EscrowState = match env.state {
            Some(state) => state,
            None => return Err(EscrowError::NotInitialised),
        };
        env.require_auth(state.depositor);
        if state.released {
            return Err(EscrowError::AlreadyReleased);
        }
        if state.lock_until_ledger == 0 || env.sequence <= state.lock_until_ledger {
            return Err(EscrowError::LockNotExpired);
        }
        let contract = env.contract;
        env.transfer(state.token, contract, state.depositor, state.amount);
        state.released = true;
        env.store(state);
        Ok(())
    }

    /// Returns the state of the escrow.
    pub fn get_state(env: &Env) -> (answer: Result<EscrowState, EscrowError>)
        ensures
            answer == env@.read_answer(),
            answer is Ok <==> env.state is Some,
            answer is Ok ==> answer->Ok_0 == env.state->0,
    {
        match env.state {
            Some(state) => Ok(state),
            None => Err(EscrowError::NotInitialised),
        }
    }
}

} // verus!
