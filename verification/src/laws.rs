//! What holds of an escrow whatever calls are made on it, at whatever ledgers.

use vstd::prelude::*;

use crate::address::Address;
use crate::env::{Effect, EnvView};
use crate::error::EscrowError;
use crate::guarantees::{
    law_arbiter_decides_until_the_lock, law_depositor_decides_after_the_lock,
    law_refused_payouts_only_ask, law_setup_stores_the_terms_given,
};
use crate::state::{law_split_conserves, lemma_product_sign, EscrowState};

verus! {

/// A call that may change the escrow.
pub enum Call {
    /// A setup with these terms.
    Initialize(EscrowState),
    Release,
    Refund,
    SelfRefund,
}

impl EnvView {
    /// The answer to `call`.
    pub open spec fn answer(self, call: Call) -> Result<(), EscrowError> {
        match call {
            Call::Initialize(terms) => self.setup_answer(EscrowState { released: false, ..terms }),
            Call::Release => self.arbiter_answer(),
            Call::Refund => self.arbiter_answer(),
            Call::SelfRefund => self.depositor_answer(),
        }
    }

    /// The ledger after `call`.
    pub open spec fn after(self, call: Call) -> EnvView {
        match call {
            Call::Initialize(terms) => self.after_setup(EscrowState { released: false, ..terms }),
            Call::Release => self.after_release(),
            Call::Refund => self.after_refund(),
            Call::SelfRefund => self.after_self_refund(),
        }
    }

    /// Whether `call` may be made here.
    pub open spec fn admits(self, call: Call) -> bool {
        call is Release ==> self.release_fits()
    }

    /// The ledger after `calls`, each made at its own ledger sequence number.
    pub open spec fn run(self, calls: Seq<(u32, Call)>) -> EnvView
        decreases calls.len(),
    {
        if calls.len() == 0 {
            self
        } else {
            self.run(calls.drop_last()).at(calls.last().0).after(calls.last().1)
        }
    }

    /// Whether each of `calls` may be made in its turn.
    pub open spec fn admits_run(self, calls: Seq<(u32, Call)>) -> bool
        decreases calls.len(),
    {
        calls.len() > 0 ==> {
            &&& self.admits_run(calls.drop_last())
            &&& self.run(calls.drop_last()).at(calls.last().0).admits(calls.last().1)
        }
    }

    /// How much of `token` the setups among `calls` move.
    pub open spec fn deposited(self, calls: Seq<(u32, Call)>, token: Address) -> int
        decreases calls.len(),
    {
        if calls.len() == 0 {
            0
        } else {
            self.deposited(calls.drop_last(), token) + if calls.last().1 is Initialize {
                moved(self.run(calls).effects, token) - moved(
                    self.run(calls.drop_last()).effects,
                    token,
                )
            } else {
                0
            }
        }
    }

    /// How much of `token` the releases and refunds among `calls` move.
    pub open spec fn paid_out(self, calls: Seq<(u32, Call)>, token: Address) -> int
        decreases calls.len(),
    {
        if calls.len() == 0 {
            0
        } else {
            self.paid_out(calls.drop_last(), token) + if calls.last().1 is Initialize {
                0
            } else {
                moved(self.run(calls).effects, token) - moved(
                    self.run(calls.drop_last()).effects,
                    token,
                )
            }
        }
    }

    /// Whether a release among `calls` goes through.
    pub open spec fn releases(self, calls: Seq<(u32, Call)>) -> bool
        decreases calls.len(),
    {
        calls.len() > 0 && {
            ||| self.releases(calls.drop_last())
            ||| calls.last().1 is Release && self.run(calls.drop_last()).at(
                calls.last().0,
            ).arbiter_answer() is Ok
        }
    }

    /// Whether a release or a refund among `calls` goes through.
    pub open spec fn pays_out(self, calls: Seq<(u32, Call)>) -> bool
        decreases calls.len(),
    {
        calls.len() > 0 && {
            ||| self.pays_out(calls.drop_last())
            ||| !(calls.last().1 is Initialize) && self.run(calls.drop_last()).at(
                calls.last().0,
            ).answer(calls.last().1) is Ok
        }
    }

    /// What the escrow still owes, in units of `token`.
    pub open spec fn owed(self, token: Address) -> int {
        match self.state {
            Some(s) => if !s.released && s.token == token {
                s.amount as int
            } else {
                0
            },
            None => 0,
        }
    }
}

/// By how much `effect` changes what `who` has of `token`.
pub open spec fn effect_gain(effect: Effect, token: Address, who: Address) -> int {
    match effect {
        Effect::Transfer { token: t, from, to, amount } => if t == token {
            (if to == who { amount as int } else { 0 }) - (if from == who { amount as int } else { 0 })
        } else {
            0
        },
        _ => 0,
    }
}

/// By how much `effects` change what `who` has of `token`.
pub open spec fn gain(effects: Seq<Effect>, token: Address, who: Address) -> int
    decreases effects.len(),
{
    if effects.len() == 0 {
        0
    } else {
        gain(effects.drop_last(), token, who) + effect_gain(effects.last(), token, who)
    }
}

/// How much of `token` `effects` move in all, whoever pays and whoever is paid.
pub open spec fn moved(effects: Seq<Effect>, token: Address) -> int
    decreases effects.len(),
{
    if effects.len() == 0 {
        0
    } else {
        moved(effects.drop_last(), token) + effect_moved(effects.last(), token)
    }
}

/// How much of `token` `effect` moves.
pub open spec fn effect_moved(effect: Effect, token: Address) -> int {
    match effect {
        Effect::Transfer { token: t, amount, .. } => if t == token {
            amount as int
        } else {
            0
        },
        _ => 0,
    }
}

/// The state that `effects` leave stored, where `initial` was stored before.
pub open spec fn stored_by(effects: Seq<Effect>, initial: Option<EscrowState>) -> Option<EscrowState>
    decreases effects.len(),
{
    if effects.len() == 0 {
        initial
    } else {
        match effects.last() {
            Effect::Store(state) => Some(state),
            _ => stored_by(effects.drop_last(), initial),
        }
    }
}

/// What `who` has gained, of its token, while the funds of `s` are locked in
/// `contract`.
pub open spec fn locked_gain(s: EscrowState, contract: Address, who: Address) -> int {
    (if who == contract { s.amount as int } else { 0 }) - (if who == s.depositor {
        s.amount as int
    } else { 0 })
}

/// What `who` has gained, of its token, once the funds of `s` have been released.
pub open spec fn released_gain(s: EscrowState, who: Address) -> int {
    (if who == s.fee_recipient { s.fee() } else { 0 }) + (if who == s.beneficiary {
        s.net()
    } else { 0 }) - (if who == s.depositor { s.amount as int } else { 0 })
}

/// The party whose authorisation `call` needs.
pub open spec fn asked_party(env: EnvView, call: Call) -> Address {
    match call {
        Call::Initialize(terms) => terms.depositor,
        Call::Release => env.state->0.arbiter,
        Call::Refund => env.state->0.arbiter,
        Call::SelfRefund => env.state->0.depositor,
    }
}

proof fn lemma_gain_push(effects: Seq<Effect>, effect: Effect, token: Address, who: Address)
    ensures
        gain(effects.push(effect), token, who) == gain(effects, token, who) + effect_gain(
            effect,
            token,
            who,
        ),
{
    assert(effects.push(effect).drop_last() =~= effects);
}

proof fn lemma_moved_push(effects: Seq<Effect>, effect: Effect, token: Address)
    ensures
        moved(effects.push(effect), token) == moved(effects, token) + effect_moved(effect, token),
{
    assert(effects.push(effect).drop_last() =~= effects);
}

/// A call that goes through moves the amount of the escrow that it sets up or
/// closes; one that is refused moves nothing.
proof fn lemma_call_moves(env: EnvView, call: Call, token: Address)
    requires
        env.admits(call),
        env.state is Some ==> env.state->0.well_formed(),
    ensures
        moved(env.after(call).effects, token) - moved(env.effects, token) == (if env.answer(call)
            is Ok && env.after(call).state->0.token == token {
            env.after(call).state->0.amount as int
        } else {
            0
        }),
{
    let party = asked_party(env, call);
    let asked = env.asking(party);
    lemma_moved_push(env.effects, Effect::RequireAuth(party), token);
    if env.answer(call) is Ok {
        let s = env.after(call).state->0;
        lemma_moved_push(env.after(call).effects.drop_last(), Effect::Store(s), token);
        assert(env.after(call).effects.drop_last().push(Effect::Store(s))
            =~= env.after(call).effects);
        if call is Release {
            law_split_conserves(env.state->0);
            let charged = if s.fee() > 0 {
                asked.moving(s.token, env.contract, s.fee_recipient, s.fee())
            } else {
                asked
            };
            let paid = charged.moving(s.token, env.contract, s.beneficiary, s.net());
            if s.fee() > 0 {
                lemma_moved_push(asked.effects, charged.effects.last(), token);
            }
            lemma_moved_push(charged.effects, paid.effects.last(), token);
            assert(env.after(call).effects.drop_last() =~= paid.effects);
        } else {
            let payment = env.after(call).effects.drop_last().last();
            lemma_moved_push(asked.effects, payment, token);
            assert(env.after(call).effects.drop_last() =~= asked.effects.push(payment));
        }
    }
}

/// A setup that goes through moves the amount from the depositor to the escrow,
/// and nothing else.
pub proof fn law_setup_moves_the_deposit(env: EnvView, terms: EscrowState, token: Address, who: Address)
    requires
        env.setup_answer(terms) is Ok,
    ensures
        gain(env.after_setup(terms).effects, token, who) - gain(env.effects, token, who) == (
        if token == terms.token {
            (if who == env.contract { terms.amount as int } else { 0 }) - (if who
                == terms.depositor { terms.amount as int } else { 0 })
        } else {
            0
        }),
{
    let asked = env.asking(terms.depositor);
    let moved = asked.moving(terms.token, terms.depositor, env.contract, terms.amount as int);
    lemma_gain_push(env.effects, Effect::RequireAuth(terms.depositor), token, who);
    lemma_gain_push(asked.effects, moved.effects.last(), token, who);
    lemma_gain_push(moved.effects, Effect::Store(terms), token, who);
}

/// A release that goes through pays the fee to the fee recipient and the rest to
/// the beneficiary, all of it out of the escrow, and moves nothing else. The fee of
/// an escrow that calls alone have brought about is never negative.
pub proof fn law_release_pays_fee_and_rest(env: EnvView, token: Address, who: Address)
    requires
        env.arbiter_answer() is Ok,
        env.release_fits(),
        env.state->0.fee() >= 0,
    ensures
        gain(env.after_release().effects, token, who) - gain(env.effects, token, who) == ({
            let s = env.state->0;
            if token == s.token {
                (if who == s.fee_recipient { s.fee() } else { 0 }) + (if who == s.beneficiary {
                    s.net()
                } else { 0 }) - (if who == env.contract { s.amount as int } else { 0 })
            } else {
                0
            }
        }),
{
    let s = env.state->0;
    lemma_product_sign(s.amount as int, s.fee_bps as int);
    let asked = env.asking(s.arbiter);
    let charged = if s.fee() > 0 {
        asked.moving(s.token, env.contract, s.fee_recipient, s.fee())
    } else {
        asked
    };
    let paid = charged.moving(s.token, env.contract, s.beneficiary, s.net());
    lemma_gain_push(env.effects, Effect::RequireAuth(s.arbiter), token, who);
    if s.fee() > 0 {
        lemma_gain_push(asked.effects, charged.effects.last(), token, who);
    }
    lemma_gain_push(charged.effects, paid.effects.last(), token, who);
    lemma_gain_push(paid.effects, Effect::Store(s.closed_out()), token, who);
}

proof fn lemma_giving_back(env: EnvView, asked: Address, token: Address, who: Address)
    requires
        env.state is Some,
    ensures
        gain(env.asking(asked).giving_back(env.state->0).effects, token, who) - gain(
            env.effects,
            token,
            who,
        ) == ({
            let s = env.state->0;
            if token == s.token {
                (if who == s.depositor { s.amount as int } else { 0 }) - (if who == env.contract {
                    s.amount as int
                } else { 0 })
            } else {
                0
            }
        }),
{
    let s = env.state->0;
    let moved = env.asking(asked).moving(s.token, env.contract, s.depositor, s.amount as int);
    lemma_gain_push(env.effects, Effect::RequireAuth(asked), token, who);
    lemma_gain_push(env.asking(asked).effects, moved.effects.last(), token, who);
    lemma_gain_push(moved.effects, Effect::Store(s.closed_out()), token, who);
}

/// A refund that goes through, by the arbiter or by the depositor alone, returns
/// the whole amount to the depositor, without a fee, and moves nothing else.
pub proof fn law_refunds_return_everything(env: EnvView, call: Call, token: Address, who: Address)
    requires
        call is Refund || call is SelfRefund,
        env.answer(call) is Ok,
    ensures
        gain(env.after(call).effects, token, who) - gain(env.effects, token, who) == ({
            let s = env.state->0;
            if token == s.token {
                (if who == s.depositor { s.amount as int } else { 0 }) - (if who == env.contract {
                    s.amount as int
                } else { 0 })
            } else {
                0
            }
        }),
{
    lemma_giving_back(env, asked_party(env, call), token, who);
}

/// A refund undoes a setup: after both, every party has of every token what it
/// had before.
pub proof fn law_refund_undoes_setup(
    env: EnvView,
    terms: EscrowState,
    sequence: u32,
    call: Call,
    token: Address,
    who: Address,
)
    requires
        env.setup_answer(terms) is Ok,
        call is Refund || call is SelfRefund,
        env.after_setup(terms).at(sequence).answer(call) is Ok,
    ensures
        gain(env.after_setup(terms).at(sequence).after(call).effects, token, who) == gain(
            env.effects,
            token,
            who,
        ),
{
    law_setup_moves_the_deposit(env, terms, token, who);
    law_refunds_return_everything(env.after_setup(terms).at(sequence), call, token, who);
}

/// What one call does to a stored escrow: it keeps every term, and once the funds
/// have left they stay so.
proof fn lemma_call_keeps_terms(env: EnvView, call: Call)
    requires
        env.state is Some,
    ensures
        env.after(call).state is Some,
        env.after(call).state->0 == env.state->0 || env.after(call).state->0
            == env.state->0.closed_out(),
{
}

/// The terms of an escrow are final: whatever calls follow, the escrow stays set
/// up with the same terms, and once its funds have left they never come back.
pub proof fn law_terms_are_final(env: EnvView, calls: Seq<(u32, Call)>)
    requires
        env.state is Some,
    ensures
        env.run(calls).state is Some,
        env.run(calls).state->0 == env.state->0 || env.run(calls).state->0
            == env.state->0.closed_out(),
    decreases calls.len(),
{
    if calls.len() > 0 {
        law_terms_are_final(env, calls.drop_last());
        lemma_call_keeps_terms(
            env.run(calls.drop_last()).at(calls.last().0),
            calls.last().1,
        );
    }
}

/// An escrow is set up at most once: whatever calls have followed a setup, a
/// further one is refused, and refused as a second one if its terms are good.
pub proof fn law_second_setup_is_refused(
    env: EnvView,
    calls: Seq<(u32, Call)>,
    terms: EscrowState,
)
    requires
        env.state is Some,
    ensures
        env.run(calls).setup_answer(terms) is Err,
        terms.well_formed() ==> env.run(calls).setup_answer(terms) == Err::<(), EscrowError>(
            EscrowError::AlreadyInitialised,
        ),
        env.run(calls).after_setup(terms) == env.run(calls),
{
    law_terms_are_final(env, calls);
}

/// A setup that goes through is read back: the state is then the terms given.
pub proof fn law_setup_is_read_back(env: EnvView, terms: EscrowState)
    requires
        env.setup_answer(terms) is Ok,
    ensures
        env.read_answer() == Err::<EscrowState, EscrowError>(EscrowError::NotInitialised),
        env.after_setup(terms).read_answer() == Ok::<EscrowState, EscrowError>(terms),
{
}

/// Every escrow that has come about by calls alone is well formed.
pub proof fn law_escrows_are_well_formed(env: EnvView, calls: Seq<(u32, Call)>)
    requires
        env.state is None,
    ensures
        env.run(calls).state is Some ==> env.run(calls).state->0.well_formed(),
    decreases calls.len(),
{
    if calls.len() > 0 {
        law_escrows_are_well_formed(env, calls.drop_last());
        let before = env.run(calls.drop_last()).at(calls.last().0);
        if before.state is Some {
            lemma_call_keeps_terms(before, calls.last().1);
        }
    }
}

/// A call that goes through as a payout closes the escrow.
pub proof fn law_payout_closes(env: EnvView, call: Call)
    requires
        !(call is Initialize),
        env.answer(call) is Ok,
    ensures
        !env.state->0.released,
        env.after(call).state == Some(env.state->0.closed_out()),
{
}

/// Funds leave once: on an escrow whose funds have left, whatever calls follow,
/// at any ledger every payout is refused as such, the state stays the same, and
/// no party's holding of any token changes.
pub proof fn law_funds_leave_once(
    env: EnvView,
    calls: Seq<(u32, Call)>,
    sequence: u32,
    call: Call,
    token: Address,
    who: Address,
)
    requires
        env.state is Some,
        env.state->0.released,
    ensures
        env.run(calls).state == env.state,
        gain(env.run(calls).effects, token, who) == gain(env.effects, token, who),
        !(call is Initialize) ==> env.run(calls).at(sequence).answer(call) == Err::<
            (),
            EscrowError,
        >(EscrowError::AlreadyReleased),
    decreases calls.len(),
{
    if calls.len() > 0 {
        law_funds_leave_once(env, calls.drop_last(), sequence, call, token, who);
        let before = env.run(calls.drop_last()).at(calls.last().0);
        law_refused_calls_change_nothing(before, calls.last().1, token, who);
    }
}

/// A refused call changes nothing: the state stays the same and no party's
/// holding changes. All that it asks of the ledger is one authorisation, where
/// the escrow is set up and the call is not a setup.
pub proof fn law_refused_calls_change_nothing(
    env: EnvView,
    call: Call,
    token: Address,
    who: Address,
)
    requires
        env.answer(call) is Err,
    ensures
        env.after(call).state == env.state,
        gain(env.after(call).effects, token, who) == gain(env.effects, token, who),
        env.after(call) == (if env.state is None || call is Initialize {
            env
        } else {
            env.asking(asked_party(env, call))
        }),
{
    lemma_gain_push(env.effects, Effect::RequireAuth(asked_party(env, call)), token, who);
}

/// Nothing happens without the right party: a call that goes through asks first
/// for the authorisation of the depositor (setup, self-refund) or of the arbiter
/// (release, refund). Everything else that it asks for comes after, and what was
/// asked for before the call stays as it was.
pub proof fn law_authorisation_comes_first(env: EnvView, call: Call)
    requires
        env.answer(call) is Ok,
    ensures
        env.after(call).effects.len() > env.effects.len(),
        env.after(call).effects.take(env.effects.len() as int) == env.effects,
        env.after(call).effects[env.effects.len() as int] == Effect::RequireAuth(
            asked_party(env, call),
        ),
        forall|i: int|
            env.effects.len() < i < env.after(call).effects.len() ==> !(
            #[trigger] env.after(call).effects[i] is RequireAuth),
{
}

/// The effects carry the state: whoever does what a run of calls asks for has
/// stored, in the end, the state that the escrow is in.
pub proof fn law_effects_carry_the_state(env: EnvView, calls: Seq<(u32, Call)>)
    requires
        env.effects.len() == 0,
    ensures
        stored_by(env.run(calls).effects, env.state) == env.run(calls).state,
    decreases calls.len(),
{
    if calls.len() > 0 {
        law_effects_carry_the_state(env, calls.drop_last());
        let before = env.run(calls.drop_last()).at(calls.last().0);
        let call = calls.last().1;
        if before.answer(call) is Err {
            assert(before.effects.push(Effect::RequireAuth(asked_party(before, call))).drop_last()
                =~= before.effects);
        }
    }
}

/// There is always one way out: at every ledger, for funds that have not left,
/// exactly one of the arbiter and the depositor may move them. The arbiter may
/// until the lock runs out; the depositor may afterwards, and never if there is
/// no lock. A refund is open wherever a release is, whatever the fee.
pub proof fn law_one_way_out(env: EnvView)
    requires
        env.state is Some,
        !env.state->0.released,
    ensures
        env.answer(Call::Refund) is Ok <==> !env.state->0.lock_expired(env.sequence),
        env.answer(Call::Release) is Ok <==> !env.state->0.lock_expired(env.sequence),
        env.answer(Call::SelfRefund) is Ok <==> env.state->0.lock_expired(env.sequence),
        env.state->0.lock_until_ledger == 0 ==> env.answer(Call::Refund) is Ok && env.answer(
            Call::SelfRefund,
        ) is Err,
{
}

/// The depositor's way out stays open: where the depositor may take the funds
/// back alone, that is so at every later ledger too while the state is the same,
/// and the arbiter is refused.
pub proof fn law_depositor_keeps_the_way_out(env: EnvView, later: u32)
    requires
        env.answer(Call::SelfRefund) is Ok,
        env.sequence <= later,
    ensures
        env.at(later).answer(Call::SelfRefund) is Ok,
        env.at(later).answer(Call::Release) == Err::<(), EscrowError>(EscrowError::LockExpired),
        env.at(later).answer(Call::Refund) == Err::<(), EscrowError>(EscrowError::LockExpired),
{
}

/// Nothing is released after the lock has run out: whatever calls are made on an
/// escrow from a ledger on at which its lock has run out, no release goes through.
pub proof fn law_no_release_after_the_lock(env: EnvView, calls: Seq<(u32, Call)>)
    requires
        env.state is Some,
        env.state->0.lock_expired(env.sequence),
        forall|i: int| 0 <= i < calls.len() ==> env.sequence <= (#[trigger] calls[i]).0,
    ensures
        !env.releases(calls),
    decreases calls.len(),
{
    if calls.len() > 0 {
        assert forall|i: int| 0 <= i < calls.drop_last().len() implies env.sequence <= (
        #[trigger] calls.drop_last()[i]).0 by {
            assert(calls.drop_last()[i] == calls[i]);
        }
        law_no_release_after_the_lock(env, calls.drop_last());
        law_terms_are_final(env, calls.drop_last());
        assert(calls.last() == calls[calls.len() - 1]);
    }
}

/// What one party has gained of one token after any calls.
proof fn lemma_gain_after_calls(
    env: EnvView,
    calls: Seq<(u32, Call)>,
    token: Address,
    who: Address,
)
    requires
        env.state is None,
        env.effects.len() == 0,
        env.admits_run(calls),
    ensures
        env.run(calls).contract == env.contract,
        env.releases(calls) ==> env.run(calls).state is Some && env.run(calls).state->0.released,
        gain(env.run(calls).effects, token, who) == (match env.run(calls).state {
            None => 0,
            Some(s) => if token != s.token {
                0
            } else if !s.released {
                locked_gain(s, env.contract, who)
            } else if env.releases(calls) {
                released_gain(s, who)
            } else {
                0
            },
        }),
    decreases calls.len(),
{
    if calls.len() > 0 {
        let before = env.run(calls.drop_last()).at(calls.last().0);
        let call = calls.last().1;
        lemma_gain_after_calls(env, calls.drop_last(), token, who);
        law_escrows_are_well_formed(env, calls.drop_last());
        match before.answer(call) {
            Err(_) => law_refused_calls_change_nothing(before, call, token, who),
            Ok(_) => match call {
                Call::Initialize(terms) => law_setup_moves_the_deposit(
                    before,
                    EscrowState { released: false, ..terms },
                    token,
                    who,
                ),
                Call::Release => {
                    law_split_conserves(before.state->0);
                    law_release_pays_fee_and_rest(before, token, who)
                },
                _ => law_refunds_return_everything(before, call, token, who),
            },
        }
    }
}

/// Where the funds are. Start where nothing has been set up and make any calls.
/// Before a setup, nobody has gained anything. While the funds are locked, the
/// escrow has the amount that the depositor has given. Once they have left, it is
/// one of two for all parties together: if a release went through, the fee
/// recipient has the fee and the beneficiary the rest; if none did, everyone has
/// what they had. Of no other token has anyone gained anything.
pub proof fn law_where_the_funds_are(env: EnvView, calls: Seq<(u32, Call)>)
    requires
        env.state is None,
        env.effects.len() == 0,
        env.admits_run(calls),
    ensures
        match env.run(calls).state {
            None => {
                &&& !env.releases(calls)
                &&& forall|t: Address, w: Address| #[trigger]
                    gain(env.run(calls).effects, t, w) == 0
            },
            Some(s) => {
                &&& forall|t: Address, w: Address|
                    t != s.token ==> #[trigger] gain(env.run(calls).effects, t, w) == 0
                &&& if !s.released {
                    &&& !env.releases(calls)
                    &&& forall|w: Address| #[trigger]
                        gain(env.run(calls).effects, s.token, w) == locked_gain(
                            s,
                            env.contract,
                            w,
                        )
                } else if env.releases(calls) {
                    forall|w: Address| #[trigger]
                        gain(env.run(calls).effects, s.token, w) == released_gain(s, w)
                } else {
                    forall|w: Address| #[trigger] gain(env.run(calls).effects, s.token, w) == 0
                }
            },
        },
{
    lemma_gain_after_calls(env, calls, env.contract, env.contract);
    assert forall|t: Address, w: Address| #[trigger] gain(env.run(calls).effects, t, w) == (
    match env.run(calls).state {
        None => 0,
        Some(s) => if t != s.token {
            0
        } else if !s.released {
            locked_gain(s, env.contract, w)
        } else if env.releases(calls) {
            released_gain(s, w)
        } else {
            0
        },
    }) by {
        lemma_gain_after_calls(env, calls, t, w);
    }
}

/// The escrow covers what it owes to a depositor other than itself. Start where
/// nothing has been set up and make any calls: of every token, what the escrow has
/// been given less what it has given away is at least what it still owes. It is
/// exactly that, unless the escrow itself is the beneficiary or the fee recipient.
///
/// An escrow whose depositor is its own address is left out, for its own token: a
/// deposit that it makes to itself gives it nothing to cover the amount with.
pub proof fn law_escrow_covers_what_it_owes(
    env: EnvView,
    calls: Seq<(u32, Call)>,
    token: Address,
)
    requires
        env.state is None,
        env.effects.len() == 0,
        env.admits_run(calls),
        env.run(calls).state matches Some(s) ==> s.token == token ==> s.depositor != env.contract,
    ensures
        gain(env.run(calls).effects, token, env.contract) >= env.run(calls).owed(token),
        (env.run(calls).state matches Some(s) ==> s.beneficiary != env.contract && s.fee_recipient
            != env.contract) ==> gain(env.run(calls).effects, token, env.contract) == env.run(
            calls,
        ).owed(token),
{
    law_where_the_funds_are(env, calls);
    law_escrows_are_well_formed(env, calls);
    if let Some(s) = env.run(calls).state {
        law_split_conserves(s);
    }
}

/// The books balance. Start where nothing has been set up and make any calls: of
/// the token of the escrow, the setups have moved its amount, once; the releases
/// and refunds have moved that amount if the funds have left, and nothing if not;
/// the difference is what the escrow still owes. Of no other token has anything
/// been moved.
pub proof fn law_books_balance(env: EnvView, calls: Seq<(u32, Call)>, token: Address)
    requires
        env.state is None,
        env.admits_run(calls),
    ensures
        env.deposited(calls, token) - env.paid_out(calls, token) == env.run(calls).owed(token),
        env.deposited(calls, token) == (match env.run(calls).state {
            Some(s) => if s.token == token {
                s.amount as int
            } else {
                0
            },
            None => 0,
        }),
        env.paid_out(calls, token) == (match env.run(calls).state {
            Some(s) => if s.token == token && s.released {
                s.amount as int
            } else {
                0
            },
            None => 0,
        }),
    decreases calls.len(),
{
    if calls.len() > 0 {
        let before = env.run(calls.drop_last()).at(calls.last().0);
        let call = calls.last().1;
        law_books_balance(env, calls.drop_last(), token);
        law_escrows_are_well_formed(env, calls.drop_last());
        lemma_call_moves(before, call, token);
    }
}

/// The window is that of the terms given: after a setup, the arbiter may decide at
/// every ledger up to the lock that was agreed, or at any ledger if none was, and
/// the depositor may take the funds back at all the others.
pub proof fn law_window_is_that_of_the_terms(env: EnvView, terms: EscrowState, sequence: u32)
    requires
        env.setup_answer(terms) is Ok,
        !terms.released,
    ensures
        ({
            let then = env.after_setup(terms).at(sequence);
            if terms.lock_until_ledger == 0 || sequence <= terms.lock_until_ledger {
                &&& then.answer(Call::Release) is Ok
                &&& then.answer(Call::Refund) is Ok
                &&& then.answer(Call::SelfRefund) == Err::<(), EscrowError>(
                    EscrowError::LockNotExpired,
                )
            } else {
                &&& then.answer(Call::Release) == Err::<(), EscrowError>(EscrowError::LockExpired)
                &&& then.answer(Call::Refund) == Err::<(), EscrowError>(EscrowError::LockExpired)
                &&& then.answer(Call::SelfRefund) is Ok
            }
        }),
{
    let then = env.after_setup(terms).at(sequence);
    law_setup_stores_the_terms_given(env, terms);
    law_arbiter_decides_until_the_lock(then);
    law_depositor_decides_after_the_lock(then);
}

/// From setup to release: once both have gone through, the depositor has given the
/// amount agreed, the fee recipient agreed has the fee at the rate agreed, rounded
/// down, and the beneficiary agreed has the rest. Nobody else, the escrow included,
/// has gained or lost anything, nor anyone of another token.
pub proof fn law_release_pays_the_parties_of_the_terms(
    env: EnvView,
    terms: EscrowState,
    sequence: u32,
    fee: int,
    token: Address,
    who: Address,
)
    requires
        env.setup_answer(terms) is Ok,
        env.after_setup(terms).at(sequence).answer(Call::Release) is Ok,
        terms.amount * terms.fee_bps <= i128::MAX,
        fee * 10_000 <= terms.amount * terms.fee_bps < (fee + 1) * 10_000,
    ensures
        gain(env.after_setup(terms).at(sequence).after(Call::Release).effects, token, who) - gain(
            env.effects,
            token,
            who,
        ) == (if token == terms.token {
            (if who == terms.fee_recipient { fee } else { 0 }) + (if who == terms.beneficiary {
                terms.amount - fee
            } else { 0 }) - (if who == terms.depositor { terms.amount as int } else { 0 })
        } else {
            0
        }),
{
    let then = env.after_setup(terms).at(sequence);
    law_setup_stores_the_terms_given(env, terms);
    law_setup_moves_the_deposit(env, terms, token, who);
    lemma_product_sign(terms.amount as int, terms.fee_bps as int);
    law_split_conserves(terms);
    law_release_pays_fee_and_rest(then, token, who);
}

/// The terms given at setup can be read back for ever: after any further calls the
/// state read is those terms, marked as released if and only if one of these calls
/// paid the funds out.
pub proof fn law_terms_given_are_read_for_ever(
    env: EnvView,
    terms: EscrowState,
    calls: Seq<(u32, Call)>,
)
    requires
        env.setup_answer(terms) is Ok,
        !terms.released,
    ensures
        env.after_setup(terms).run(calls).read_answer() == Ok::<EscrowState, EscrowError>(
            EscrowState { released: env.after_setup(terms).pays_out(calls), ..terms },
        ),
    decreases calls.len(),
{
    law_setup_stores_the_terms_given(env, terms);
    if calls.len() > 0 {
        law_terms_given_are_read_for_ever(env, terms, calls.drop_last());
        let before = env.after_setup(terms).run(calls.drop_last()).at(calls.last().0);
        let call = calls.last().1;
        match call {
            Call::Initialize(other) => {
                law_setup_stores_the_terms_given(before, EscrowState { released: false, ..other })
            },
            _ => law_refused_payouts_only_ask(before),
        }
    }
}

/// What was recorded before does not matter: two ledgers with the same state and
/// the same sequence number give every call the same answer, leave the same state
/// after it, and give the same state to read. If they are of the same contract,
/// the call asks the same of both.
pub proof fn law_history_does_not_matter(a: EnvView, b: EnvView, call: Call)
    requires
        a.state == b.state,
        a.sequence == b.sequence,
    ensures
        a.answer(call) == b.answer(call),
        a.admits(call) == b.admits(call),
        a.after(call).state == b.after(call).state,
        a.read_answer() == b.read_answer(),
        a.contract == b.contract ==> a.after(call).effects.skip(a.effects.len() as int)
            == b.after(call).effects.skip(b.effects.len() as int),
{
}

} // verus!
