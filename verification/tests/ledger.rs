//! The escrow on a simulated ledger, with a real token: a contract that asks the
//! library what to do and has the ledger do it.

use escrow::{Effect, EscrowContract, EscrowState};
use soroban_sdk::testutils::{
    Address as _, ContractFunctionSet, EnvTestConfig, Ledger, LedgerInfo,
};
use soroban_sdk::token::{Client as TokenClient, StellarAssetClient};
use soroban_sdk::{
    Address, Bytes, ConversionError, Env, Error, IntoVal, InvokeError, Symbol, TryFromVal, Val, Vec,
};

const ESCROW: &str = "ESCROW";
const MINT_AMOUNT: i128 = 1_000_000;

// The contract.

/// The fields of a state, as the ledger stores them.
type Fields = (Address, Address, Address, Address, i128, u32, Address, u32, bool);

fn party(address: &Address) -> escrow::Address {
    let mut strkey = [0u8; 56];
    address.to_string().copy_into_slice(&mut strkey);
    escrow::Address { strkey }
}

fn address(env: &Env, party: &escrow::Address) -> Address {
    Address::from_string_bytes(&Bytes::from_slice(env, &party.strkey))
}

fn fields(env: &Env, state: &EscrowState) -> Fields {
    (
        address(env, &state.depositor),
        address(env, &state.beneficiary),
        address(env, &state.arbiter),
        address(env, &state.token),
        state.amount,
        state.fee_bps,
        address(env, &state.fee_recipient),
        state.lock_until_ledger,
        state.released,
    )
}

fn state(fields: &Fields) -> EscrowState {
    EscrowState {
        depositor: party(&fields.0),
        beneficiary: party(&fields.1),
        arbiter: party(&fields.2),
        token: party(&fields.3),
        amount: fields.4,
        fee_bps: fields.5,
        fee_recipient: party(&fields.6),
        lock_until_ledger: fields.7,
        released: fields.8,
    }
}

fn view(env: &Env) -> escrow::Env {
    let stored: Option<Fields> = env.storage().instance().get(&ESCROW);
    escrow::Env::new(
        party(&env.current_contract_address()),
        env.ledger().sequence(),
        stored.map(|fields| state(&fields)),
    )
}

fn perform(env: &Env, effects: &[Effect]) {
    for effect in effects {
        match effect {
            Effect::RequireAuth(who) => address(env, who).require_auth(),
            Effect::Transfer { token, from, to, amount } => {
                TokenClient::new(env, &address(env, token)).transfer(
                    &address(env, from),
                    &address(env, to),
                    amount,
                );
            }
            Effect::Store(state) => env.storage().instance().set(&ESCROW, &fields(env, state)),
        }
    }
}

struct Contract;

impl ContractFunctionSet for Contract {
    fn call(&self, func: &str, env: Env, args: &[Val]) -> Option<Val> {
        let who = |i: usize| party(&Address::try_from_val(&env, &args[i]).unwrap());
        let mut ledger = match func {
            "initialize" | "release" | "refund" | "self_refund" | "get_state" => view(&env),
            _ => return None,
        };
        let answer = match func {
            "initialize" => EscrowContract::initialize(
                &mut ledger,
                who(0),
                who(1),
                who(2),
                who(3),
                i128::try_from_val(&env, &args[4]).unwrap(),
                u32::try_from_val(&env, &args[5]).unwrap(),
                u32::try_from_val(&env, &args[6]).unwrap(),
                who(7),
            ),
            "release" => {
                assert!(EscrowContract::release_fits(&ledger));
                EscrowContract::release(&mut ledger)
            }
            "refund" => EscrowContract::refund(&mut ledger),
            "self_refund" => EscrowContract::self_refund(&mut ledger),
            _ => {
                return Some(match EscrowContract::get_state(&ledger) {
                    Ok(state) => fields(&env, &state).into_val(&env),
                    Err(e) => Error::from_contract_error(e.code()).into(),
                })
            }
        };
        perform(&env, &ledger.effects);
        Some(match answer {
            Ok(()) => Val::VOID.into(),
            Err(e) => Error::from_contract_error(e.code()).into(),
        })
    }
}

type Answer<T, C> = Result<Result<T, C>, Result<Error, InvokeError>>;

struct Client {
    env: Env,
    id: Address,
}

impl Client {
    fn call(&self, func: &str, args: Vec<Val>) -> Answer<(), ConversionError> {
        self.env.try_invoke_contract(&self.id, &Symbol::new(&self.env, func), args)
    }

    fn try_initialize(
        &self,
        depositor: &Address,
        beneficiary: &Address,
        arbiter: &Address,
        token: &Address,
        amount: &i128,
        lock_until_ledger: &u32,
        fee_bps: &u32,
        fee_recipient: &Address,
    ) -> Answer<(), ConversionError> {
        let args: Vec<Val> = (
            depositor,
            beneficiary,
            arbiter,
            token,
            *amount,
            *lock_until_ledger,
            *fee_bps,
            fee_recipient,
        )
            .into_val(&self.env);
        self.call("initialize", args)
    }

    fn try_release(&self) -> Answer<(), ConversionError> {
        self.call("release", Vec::new(&self.env))
    }

    fn try_refund(&self) -> Answer<(), ConversionError> {
        self.call("refund", Vec::new(&self.env))
    }

    fn try_self_refund(&self) -> Answer<(), ConversionError> {
        self.call("self_refund", Vec::new(&self.env))
    }

    fn try_get_state(&self) -> Answer<EscrowState, Error> {
        let answer: Answer<Fields, Error> = self.env.try_invoke_contract(
            &self.id,
            &Symbol::new(&self.env, "get_state"),
            Vec::new(&self.env),
        );
        answer.map(|read| read.map(|fields| state(&fields)))
    }
}

// Helpers.

/// A fresh ledger with a token and an escrow contract; every authorisation is
/// granted.
fn setup() -> (Env, Address, Address, Address, Address, Address, Client) {
    let env = Env::new_with_config(EnvTestConfig { capture_snapshot_at_drop: false });
    env.mock_all_auths();

    let depositor = Address::generate(&env);
    let beneficiary = Address::generate(&env);
    let arbiter = Address::generate(&env);
    let fee_recipient = Address::generate(&env);

    let token_admin = Address::generate(&env);
    let token_id = env.register_stellar_asset_contract_v2(token_admin.clone());
    StellarAssetClient::new(&env, &token_id.address()).mint(&depositor, &MINT_AMOUNT);

    let id = env.register(Contract, ());
    let client = Client { env: env.clone(), id };

    (env, depositor, beneficiary, arbiter, fee_recipient, token_id.address(), client)
}

/// Advance the ledger sequence by `delta`.
fn advance_ledger(env: &Env, delta: u32) {
    let current = env.ledger().sequence();
    env.ledger().set(LedgerInfo {
        protocol_version: 25,
        sequence_number: current + delta,
        timestamp: env.ledger().timestamp() + (delta as u64 * 5),
        network_id: Default::default(),
        base_reserve: 5_000_000,
        min_persistent_entry_ttl: 4096,
        min_temp_entry_ttl: 16,
        max_entry_ttl: 9_999_999,
    });
}

fn init(
    client: &Client,
    depositor: &Address,
    beneficiary: &Address,
    arbiter: &Address,
    token: &Address,
    amount: i128,
    lock_until_ledger: u32,
    fee_bps: u32,
    fee_recipient: &Address,
) {
    client
        .try_initialize(
            depositor,
            beneficiary,
            arbiter,
            token,
            &amount,
            &lock_until_ledger,
            &fee_bps,
            fee_recipient,
        )
        .expect("initialize should succeed")
        .expect("initialize returned error");
}

// Happy-path tests.

#[test]
fn test_initialize_stores_correct_state() {
    let (env, depositor, beneficiary, arbiter, fee_recipient, token, client) = setup();
    let amount: i128 = 500_000;

    init(&client, &depositor, &beneficiary, &arbiter, &token, amount, 100, 250, &fee_recipient);

    let state = client
        .try_get_state()
        .expect("try_get_state panicked")
        .expect("get_state returned error");

    assert_eq!(state.amount, amount);
    assert_eq!(state.fee_bps, 250);
    assert_eq!(state.lock_until_ledger, 100);
    assert!(!state.released);

    // Depositor's balance should decrease by `amount`.
    let tc = TokenClient::new(&env, &token);
    assert_eq!(tc.balance(&depositor), MINT_AMOUNT - amount);
}

#[test]
fn test_release_distributes_fee_and_net() {
    let (env, depositor, beneficiary, arbiter, fee_recipient, token, client) = setup();
    let amount: i128 = 500_000;
    // 2.5 % fee → fee = 12 500, net = 487 500
    let fee_bps: u32 = 250;

    init(&client, &depositor, &beneficiary, &arbiter, &token, amount, 100, fee_bps, &fee_recipient);

    client
        .try_release()
        .expect("try_release panicked")
        .expect("release returned error");

    let tc = TokenClient::new(&env, &token);
    let expected_fee = amount * fee_bps as i128 / 10_000;
    let expected_net = amount - expected_fee;

    assert_eq!(tc.balance(&beneficiary), expected_net);
    assert_eq!(tc.balance(&fee_recipient), expected_fee);

    let state = client
        .try_get_state()
        .expect("try_get_state panicked")
        .expect("get_state returned error");
    assert!(state.released);
}

#[test]
fn test_release_with_zero_fee() {
    let (env, depositor, beneficiary, arbiter, fee_recipient, token, client) = setup();
    let amount: i128 = 300_000;

    init(&client, &depositor, &beneficiary, &arbiter, &token, amount, 50, 0, &fee_recipient);

    client
        .try_release()
        .expect("try_release panicked")
        .expect("release returned error");

    let tc = TokenClient::new(&env, &token);
    // Full amount goes to beneficiary; fee_recipient receives nothing.
    assert_eq!(tc.balance(&beneficiary), amount);
    assert_eq!(tc.balance(&fee_recipient), 0);
}

#[test]
fn test_refund_returns_full_amount_to_depositor() {
    let (env, depositor, beneficiary, arbiter, fee_recipient, token, client) = setup();
    let amount: i128 = 200_000;

    init(&client, &depositor, &beneficiary, &arbiter, &token, amount, 50, 100, &fee_recipient);

    client
        .try_refund()
        .expect("try_refund panicked")
        .expect("refund returned error");

    let tc = TokenClient::new(&env, &token);
    // Depositor gets full amount back (no fee on refund).
    assert_eq!(tc.balance(&depositor), MINT_AMOUNT);

    let state = client
        .try_get_state()
        .expect("try_get_state panicked")
        .expect("get_state returned error");
    assert!(state.released);
}

#[test]
fn test_self_refund_after_lock_expiry() {
    let (env, depositor, beneficiary, arbiter, fee_recipient, token, client) = setup();
    let amount: i128 = 400_000;
    let lock_ledger: u32 = 50;

    init(&client, &depositor, &beneficiary, &arbiter, &token, amount, lock_ledger, 0, &fee_recipient);

    // Move past the lock.
    advance_ledger(&env, lock_ledger + 1);

    client
        .try_self_refund()
        .expect("try_self_refund panicked")
        .expect("self_refund returned error");

    let tc = TokenClient::new(&env, &token);
    assert_eq!(tc.balance(&depositor), MINT_AMOUNT);

    let state = client
        .try_get_state()
        .expect("try_get_state panicked")
        .expect("get_state returned error");
    assert!(state.released);
}

// Failure / edge-case tests.

#[test]
fn test_double_initialize_fails() {
    let (_env, depositor, beneficiary, arbiter, fee_recipient, token, client) = setup();
    let amount: i128 = 100_000;

    init(&client, &depositor, &beneficiary, &arbiter, &token, amount, 0, 0, &fee_recipient);

    // Second initialise must be rejected.
    let result = client.try_initialize(
        &depositor, &beneficiary, &arbiter, &token,
        &amount, &0_u32, &0_u32, &fee_recipient,
    );
    assert!(result.is_err() || result.unwrap().is_err());
}

#[test]
fn test_initialize_zero_amount_fails() {
    let (_env, depositor, beneficiary, arbiter, fee_recipient, token, client) = setup();

    let result = client.try_initialize(
        &depositor, &beneficiary, &arbiter, &token,
        &0_i128, &0_u32, &0_u32, &fee_recipient,
    );
    assert!(result.is_err() || result.unwrap().is_err());
}

#[test]
fn test_initialize_negative_amount_fails() {
    let (_env, depositor, beneficiary, arbiter, fee_recipient, token, client) = setup();

    let result = client.try_initialize(
        &depositor, &beneficiary, &arbiter, &token,
        &(-1_i128), &0_u32, &0_u32, &fee_recipient,
    );
    assert!(result.is_err() || result.unwrap().is_err());
}

#[test]
fn test_initialize_fee_above_10000_fails() {
    let (_env, depositor, beneficiary, arbiter, fee_recipient, token, client) = setup();

    let result = client.try_initialize(
        &depositor, &beneficiary, &arbiter, &token,
        &100_000_i128, &0_u32, &10_001_u32, &fee_recipient,
    );
    assert!(result.is_err() || result.unwrap().is_err());
}

#[test]
fn test_initialize_beneficiary_equals_depositor_fails() {
    let (_env, depositor, _beneficiary, arbiter, fee_recipient, token, client) = setup();

    // Beneficiary == depositor must be rejected.
    let result = client.try_initialize(
        &depositor, &depositor, &arbiter, &token,
        &100_000_i128, &0_u32, &0_u32, &fee_recipient,
    );
    assert!(result.is_err() || result.unwrap().is_err());
}

#[test]
fn test_initialize_arbiter_equals_depositor_fails() {
    let (_env, depositor, beneficiary, _arbiter, fee_recipient, token, client) = setup();

    // Arbiter == depositor must be rejected.
    let result = client.try_initialize(
        &depositor, &beneficiary, &depositor, &token,
        &100_000_i128, &0_u32, &0_u32, &fee_recipient,
    );
    assert!(result.is_err() || result.unwrap().is_err());
}

#[test]
fn test_initialize_arbiter_equals_beneficiary_fails() {
    let (_env, depositor, beneficiary, _arbiter, fee_recipient, token, client) = setup();

    // Arbiter == beneficiary must be rejected.
    let result = client.try_initialize(
        &depositor, &beneficiary, &beneficiary, &token,
        &100_000_i128, &0_u32, &0_u32, &fee_recipient,
    );
    assert!(result.is_err() || result.unwrap().is_err());
}

#[test]
fn test_release_without_initialize_fails() {
    let (_env, _d, _b, _a, _f, _t, client) = setup();

    let result = client.try_release();
    assert!(result.is_err() || result.unwrap().is_err());
}

#[test]
fn test_refund_without_initialize_fails() {
    let (_env, _d, _b, _a, _f, _t, client) = setup();

    let result = client.try_refund();
    assert!(result.is_err() || result.unwrap().is_err());
}

#[test]
fn test_self_refund_without_initialize_fails() {
    let (_env, _d, _b, _a, _f, _t, client) = setup();

    let result = client.try_self_refund();
    assert!(result.is_err() || result.unwrap().is_err());
}

#[test]
fn test_release_after_already_released_fails() {
    let (_env, depositor, beneficiary, arbiter, fee_recipient, token, client) = setup();

    init(&client, &depositor, &beneficiary, &arbiter, &token, 100_000, 0, 0, &fee_recipient);

    client
        .try_release()
        .expect("try_release panicked")
        .expect("first release failed");

    // Second release must fail.
    let result = client.try_release();
    assert!(result.is_err() || result.unwrap().is_err());
}

#[test]
fn test_refund_after_already_released_fails() {
    let (_env, depositor, beneficiary, arbiter, fee_recipient, token, client) = setup();

    init(&client, &depositor, &beneficiary, &arbiter, &token, 100_000, 0, 0, &fee_recipient);

    client
        .try_refund()
        .expect("try_refund panicked")
        .expect("first refund failed");

    let result = client.try_refund();
    assert!(result.is_err() || result.unwrap().is_err());
}

#[test]
fn test_premature_self_refund_before_expiry_fails() {
    let (env, depositor, beneficiary, arbiter, fee_recipient, token, client) = setup();
    let lock_ledger: u32 = 100;

    init(&client, &depositor, &beneficiary, &arbiter, &token, 500_000, lock_ledger, 0, &fee_recipient);

    // Lock has NOT expired yet – advance only half-way.
    advance_ledger(&env, 50);
    let result = client.try_self_refund();
    assert!(result.is_err() || result.unwrap().is_err());
}

#[test]
fn test_self_refund_at_exact_expiry_ledger_fails() {
    let (env, depositor, beneficiary, arbiter, fee_recipient, token, client) = setup();
    let lock_ledger: u32 = 100;

    init(&client, &depositor, &beneficiary, &arbiter, &token, 500_000, lock_ledger, 0, &fee_recipient);

    // Exactly at the lock ledger – still locked (sequence <= lock_until).
    advance_ledger(&env, lock_ledger);
    let result = client.try_self_refund();
    assert!(result.is_err() || result.unwrap().is_err());
}

#[test]
fn test_arbiter_release_after_lock_expired_fails() {
    let (env, depositor, beneficiary, arbiter, fee_recipient, token, client) = setup();
    let lock_ledger: u32 = 50;

    init(&client, &depositor, &beneficiary, &arbiter, &token, 500_000, lock_ledger, 0, &fee_recipient);

    // Move past the lock – arbiter window is now closed.
    advance_ledger(&env, lock_ledger + 5);
    let result = client.try_release();
    assert!(result.is_err() || result.unwrap().is_err());
}

#[test]
fn test_arbiter_refund_after_lock_expired_fails() {
    let (env, depositor, beneficiary, arbiter, fee_recipient, token, client) = setup();
    let lock_ledger: u32 = 50;

    init(&client, &depositor, &beneficiary, &arbiter, &token, 500_000, lock_ledger, 0, &fee_recipient);

    advance_ledger(&env, lock_ledger + 5);
    let result = client.try_refund();
    assert!(result.is_err() || result.unwrap().is_err());
}

#[test]
fn test_self_refund_with_no_lock_fails() {
    let (_env, depositor, beneficiary, arbiter, fee_recipient, token, client) = setup();

    // lock_until_ledger = 0 disables the self-refund path.
    init(&client, &depositor, &beneficiary, &arbiter, &token, 200_000, 0, 0, &fee_recipient);

    let result = client.try_self_refund();
    assert!(result.is_err() || result.unwrap().is_err());
}

#[test]
fn test_get_state_before_initialize_fails() {
    let (_env, _d, _b, _a, _f, _t, client) = setup();

    let result = client.try_get_state();
    assert!(result.is_err() || result.unwrap().is_err());
}

// Fee-distribution edge cases.

#[test]
fn test_release_maximum_fee_bps() {
    // 100 % fee – all funds go to fee_recipient, beneficiary gets zero.
    let (env, depositor, beneficiary, arbiter, fee_recipient, token, client) = setup();
    let amount: i128 = 100_000;

    init(&client, &depositor, &beneficiary, &arbiter, &token, amount, 0, 10_000, &fee_recipient);

    client
        .try_release()
        .expect("try_release panicked")
        .expect("release failed");

    let tc = TokenClient::new(&env, &token);
    assert_eq!(tc.balance(&fee_recipient), amount);
    assert_eq!(tc.balance(&beneficiary), 0);
}

#[test]
fn test_fee_rounds_down_correctly() {
    // 1 bps on 999 tokens → floor(999 * 1 / 10_000) = 0
    let (env, depositor, beneficiary, arbiter, fee_recipient, token, client) = setup();
    let amount: i128 = 999;

    init(&client, &depositor, &beneficiary, &arbiter, &token, amount, 0, 1, &fee_recipient);

    client
        .try_release()
        .expect("try_release panicked")
        .expect("release failed");

    let tc = TokenClient::new(&env, &token);
    assert_eq!(tc.balance(&beneficiary), 999); // fee rounds to zero
    assert_eq!(tc.balance(&fee_recipient), 0);
}

// Ledger simulation / network-condition tests.

#[test]
fn test_release_just_before_lock_expiry_succeeds() {
    let (env, depositor, beneficiary, arbiter, fee_recipient, token, client) = setup();
    let lock_ledger: u32 = 200;
    let amount: i128 = 500_000;

    init(&client, &depositor, &beneficiary, &arbiter, &token, amount, lock_ledger, 0, &fee_recipient);

    // One ledger before the lock.
    advance_ledger(&env, lock_ledger - 1);

    client
        .try_release()
        .expect("try_release panicked")
        .expect("release failed");

    let tc = TokenClient::new(&env, &token);
    assert_eq!(tc.balance(&beneficiary), amount);
}

#[test]
fn test_self_refund_one_ledger_after_expiry() {
    let (env, depositor, beneficiary, arbiter, fee_recipient, token, client) = setup();
    let lock_ledger: u32 = 10;
    let amount: i128 = 250_000;

    init(&client, &depositor, &beneficiary, &arbiter, &token, amount, lock_ledger, 0, &fee_recipient);

    advance_ledger(&env, lock_ledger + 1);

    client
        .try_self_refund()
        .expect("try_self_refund panicked")
        .expect("self_refund failed");

    let tc = TokenClient::new(&env, &token);
    assert_eq!(tc.balance(&depositor), MINT_AMOUNT);
}

#[test]
fn test_full_lifecycle_with_fee_and_lock() {
    let (env, depositor, beneficiary, arbiter, fee_recipient, token, client) = setup();
    let amount: i128 = 800_000;
    let fee_bps: u32 = 500; // 5 %
    let lock_ledger: u32 = 30;

    init(&client, &depositor, &beneficiary, &arbiter, &token, amount, lock_ledger, fee_bps, &fee_recipient);

    // Arbiter releases while lock is active.
    advance_ledger(&env, 20);

    client
        .try_release()
        .expect("try_release panicked")
        .expect("release failed");

    let tc = TokenClient::new(&env, &token);
    let expected_fee = amount * fee_bps as i128 / 10_000; // 40_000
    let expected_net = amount - expected_fee;              // 760_000

    assert_eq!(tc.balance(&beneficiary), expected_net);
    assert_eq!(tc.balance(&fee_recipient), expected_fee);
    assert_eq!(tc.balance(&depositor), MINT_AMOUNT - amount);

    let state = client
        .try_get_state()
        .expect("try_get_state panicked")
        .expect("get_state returned error");
    assert!(state.released);
}

// What the ledger reports and undoes.

fn code(result: Answer<(), ConversionError>) -> u32 {
    match result {
        Err(Ok(error)) => error.get_code(),
        _ => panic!("not a refusal"),
    }
}

#[test]
fn refusals_reach_the_caller_under_their_codes() {
    let (env, depositor, beneficiary, arbiter, fee_recipient, token, client) = setup();
    assert_eq!(code(client.try_release()), 2);

    init(&client, &depositor, &beneficiary, &arbiter, &token, 100_000, 50, 0, &fee_recipient);
    let again = client.try_initialize(
        &depositor, &beneficiary, &arbiter, &token, &100_000, &50, &0, &fee_recipient,
    );
    assert_eq!(code(again), 1);
    assert_eq!(code(client.try_self_refund()), 4);
    advance_ledger(&env, 51);
    assert_eq!(code(client.try_release()), 5);
    assert_eq!(code(client.try_refund()), 5);
    client.try_self_refund().expect("self_refund refused").expect("self_refund returned error");
    assert_eq!(code(client.try_self_refund()), 3);
}

#[test]
fn calls_without_authorisation_are_undone() {
    let (env, depositor, beneficiary, arbiter, fee_recipient, token, client) = setup();
    init(&client, &depositor, &beneficiary, &arbiter, &token, 100_000, 50, 0, &fee_recipient);

    // From here on nobody authorises anything.
    env.set_auths(&[]);
    assert!(client.try_release().is_err());
    assert!(client.try_refund().is_err());
    advance_ledger(&env, 51);
    assert!(client.try_self_refund().is_err());

    let tc = TokenClient::new(&env, &token);
    assert_eq!(tc.balance(&client.id), 100_000);
    assert_eq!(tc.balance(&beneficiary), 0);
    let state = client.try_get_state().expect("no answer").expect("no state");
    assert!(!state.released);
}

#[test]
fn setup_beyond_the_balance_is_undone() {
    let (env, depositor, beneficiary, arbiter, fee_recipient, token, client) = setup();
    let result = client.try_initialize(
        &depositor, &beneficiary, &arbiter, &token, &(MINT_AMOUNT + 1), &0, &0, &fee_recipient,
    );
    assert!(result.is_err());
    assert_eq!(TokenClient::new(&env, &token).balance(&depositor), MINT_AMOUNT);
    assert!(client.try_get_state().is_err());
}

#[test]
fn stored_state_reads_back_with_every_field() {
    let (_env, depositor, beneficiary, arbiter, fee_recipient, token, client) = setup();
    init(&client, &depositor, &beneficiary, &arbiter, &token, 500_000, 100, 250, &fee_recipient);
    let read = client.try_get_state().expect("no answer").expect("no state");
    assert_eq!(
        read,
        EscrowState {
            depositor: party(&depositor),
            beneficiary: party(&beneficiary),
            arbiter: party(&arbiter),
            token: party(&token),
            amount: 500_000,
            fee_bps: 250,
            fee_recipient: party(&fee_recipient),
            lock_until_ledger: 100,
            released: false,
        }
    );
}
