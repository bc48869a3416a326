//! What a call on the escrow sees of the ledger, and what it asks of it.

use vstd::prelude::*;

use crate::address::Address;
use crate::state::EscrowState;

verus! {

/// One thing that a call asks of the ledger.
///
/// The ledger does what is asked in the order in which it is recorded. Where it
/// cannot do one of these (an authorisation is missing, a balance is too low),
/// the whole call is undone as if it had never been made.
#[derive(Clone, Copy, Debug, PartialEq, Eq)]
pub enum Effect {
    /// Go on only if this party has authorised the call.
    RequireAuth(Address),
    /// Move `amount` of `token`.
    Transfer { token: Address, from: Address, to: Address, amount: i128 },
    /// Keep this as the state of the escrow.
    Store(EscrowState),
}

/// The ledger as the escrow sees it.
pub struct Env {
    /// The escrow's own address.
    pub contract: Address,
    /// Sequence number of the current ledger.
    pub sequence: u32,
    /// The state that the escrow has stored, if any.
    pub state: Option<EscrowState>,
    /// What has been asked of the ledger so far, oldest first.
    pub effects: Vec<Effect>,
}

/// The mathematical content of an [`Env`].
#[verifier::ext_equal]
pub struct EnvView {
    pub contract: Address,
    pub sequence: u32,
    pub state: Option<EscrowState>,
    pub effects: Seq<Effect>,
}

impl View for Env {
    type V = EnvView;

    open spec fn view(&self) -> EnvView {
        EnvView {
            contract: self.contract,
            sequence: self.sequence,
            state: self.state,
            effects: self.effects@,
        }
    }
}

impl EnvView {
    /// After `effect` has been recorded.
    pub open spec fn recording(self, effect: Effect) -> EnvView {
        EnvView { effects: self.effects.push(effect), ..self }
    }

    /// After `who` has been asked for authorisation.
    pub open spec fn asking(self, who: Address) -> EnvView {
        self.recording(Effect::RequireAuth(who))
    }

    /// After a transfer has been asked for.
    pub open spec fn moving(self, token: Address, from: Address, to: Address, amount: int) -> EnvView {
        self.recording(Effect::Transfer { token, from, to, amount: amount as i128 })
    }

    /// After `state` has been stored.
    pub open spec fn storing(self, state: EscrowState) -> EnvView {
        EnvView { state: Some(state), ..self.recording(Effect::Store(state)) }
    }

    /// The same ledger contents at another sequence number.
    pub open spec fn at(self, sequence: u32) -> EnvView {
        EnvView { sequence, ..self }
    }
}

impl Env {
    /// The ledger at the start of a call, when nothing has been asked of it.
    pub fn new(contract: Address, sequence: u32, state: Option<EscrowState>) -> (env: Env)
        ensures
            env@ == (EnvView { contract, sequence, state, effects: Seq::empty() }),
    {
        Env { contract, sequence, state, effects: Vec::new() }
    }

    /// Asks for the authorisation of `who`.
    pub(crate) fn require_auth(&mut self, who: Address)
        ensures
            final(self)@ == old(self)@.asking(who),
    {
        self.effects.push(Effect::RequireAuth(who));
    }

    /// Asks for a transfer.
    pub(crate) fn transfer(&mut self, token: Address, from: Address, to: Address, amount: i128)
        ensures
            final(self)@ == old(self)@.moving(token, from, to, amount as int),
    {
        self.effects.push(Effect::Transfer { token, from, to, amount });
    }

    /// Stores `state`.
    pub(crate) fn store(&mut self, state: EscrowState)
        ensures
            final(self)@ == old(self)@.storing(state),
    {
        self.state = Some(state);
        self.effects.push(Effect::Store(state));
    }
}

/// What the contracts say of an [`Env`] they say of its four fields.
pub proof fn law_view_shows_the_fields(env: Env)
    ensures
        env@.contract == env.contract,
        env@.sequence == env.sequence,
        env@.state == env.state,
        env@.effects == env.effects@,
{
}

} // verus!
