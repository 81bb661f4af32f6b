//! Scenarios: whole calls, with a small stand-in for the network around them.
//!
//! The stand-in keeps token balances, performs the actions that a call asks for,
//! in order, and undoes what a failed call has moved.
use std::cell::RefCell;

use ed25519_dalek::{Signer, SigningKey};
use onboarding_bridge::actions::{Action, Event};
use onboarding_bridge::books::settle_loyalty;
use onboarding_bridge::bytes::{Bytes32, Signature};
use onboarding_bridge::errors::BridgeError;
use onboarding_bridge::host::map_key;
use onboarding_bridge::state::OnboardingBridge;
use onboarding_bridge::types::{
    Address, AddressKind, CommitmentEntry, DataKey, FeeTier, Ledger, MetaFundParams,
    PendingUpgrade, RelayerSig, TimelockEntry, COMMIT_REVEAL_MIN_DELAY_LEDGERS,
    CRITICAL_ENTRY_TTL_THRESHOLD, MAX_ALLOWED_TTL,
};
use soroban_sdk::address_payload::AddressPayload;
use soroban_sdk::testutils::Address as _;
use soroban_sdk::{Bytes, BytesN};

type Outcome<T> = Result<T, Result<BridgeError, ()>>;

#[derive(Clone, Copy)]
struct Pool {
    id: Address,
    input_token: Address,
    output_token: Address,
    rate: i128,
}

struct World {
    timestamp: u64,
    sequence: u32,
    authorized: bool,
    overdraft: bool,
    bridges: Vec<(Address, OnboardingBridge)>,
    balances: Vec<((Address, Address), i128)>,
    pools: Vec<Pool>,
    events: Vec<(Address, &'static str, Event)>,
    live_until: Vec<(DataKey, u32)>,
    instance_live_until: u32,
    wasm: Option<Bytes32>,
    swapped: Option<(i128, i128, i128)>,
}

struct Network {
    host: soroban_sdk::Env,
    world: RefCell<World>,
}

impl Network {
    fn default() -> Network {
        Network {
            host: soroban_sdk::Env::default(),
            world: RefCell::new(World {
                timestamp: 0,
                sequence: 0,
                authorized: false,
                overdraft: false,
                bridges: Vec::new(),
                balances: Vec::new(),
                pools: Vec::new(),
                events: Vec::new(),
                live_until: Vec::new(),
                instance_live_until: 0,
                wasm: None,
                swapped: None,
            }),
        }
    }

    fn mock_all_auths(&self) {
        self.world.borrow_mut().authorized = true;
    }

    fn clear_auths(&self) {
        self.world.borrow_mut().authorized = false;
    }

    fn ledger(&self) -> &Network {
        self
    }

    fn set_timestamp(&self, timestamp: u64) {
        self.world.borrow_mut().timestamp = timestamp;
    }

    fn timestamp(&self) -> u64 {
        self.world.borrow().timestamp
    }

    fn set_sequence_number(&self, sequence: u32) {
        self.world.borrow_mut().sequence = sequence;
    }

    fn sequence(&self) -> u32 {
        self.world.borrow().sequence
    }

    fn all_events(&self) -> Vec<(Address, &'static str, Event)> {
        self.world.borrow().events.clone()
    }

    fn balance(&self, asset: Address, holder: Address) -> i128 {
        let world = self.world.borrow();
        let found = world.balances.iter().find(|(k, _)| *k == (asset, holder));
        found.map(|(_, v)| *v).unwrap_or(0)
    }

    fn set_balance(&self, asset: Address, holder: Address, amount: i128) {
        let mut world = self.world.borrow_mut();
        world.balances.retain(|(k, _)| *k != (asset, holder));
        world.balances.push(((asset, holder), amount));
    }

    fn transfer(&self, asset: Address, from: Address, to: Address, amount: i128) {
        if from == to {
            return;
        }
        let held = self.balance(asset, from);
        if held < amount && !self.world.borrow().overdraft {
            panic!("insufficient balance");
        }
        self.set_balance(asset, from, held - amount);
        self.set_balance(asset, to, self.balance(asset, to) + amount);
    }

    fn instance_ttl(&self) -> u32 {
        let world = self.world.borrow();
        world.instance_live_until.saturating_sub(world.sequence)
    }

    fn ttl(&self, key: &DataKey) -> u32 {
        let world = self.world.borrow();
        let found = world.live_until.iter().find(|(k, _)| k == key);
        found.map(|(_, until)| until.saturating_sub(world.sequence)).unwrap_or(0)
    }

    fn swap(&self, pool: Address, min_amount_out: i128, to: Address) -> i128 {
        let found = self.world.borrow().pools.iter().find(|p| p.id == pool).copied();
        let p = found.expect("no such pool");
        let amount_out = self.balance(p.input_token, pool).checked_mul(p.rate).unwrap_or(0);
        if amount_out >= min_amount_out {
            self.transfer(p.output_token, pool, to, amount_out);
        }
        amount_out
    }

    fn perform(&self, contract: Address, actions: Vec<Action>) {
        for action in actions {
            match action {
                Action::RequireAuth { .. } => {
                    if !self.world.borrow().authorized {
                        panic!("not authorized");
                    }
                }
                Action::VerifySignature { pubkey, message, signature } => {
                    self.host.crypto().ed25519_verify(
                        &BytesN::from_array(&self.host, &array32(&pubkey)),
                        &Bytes::from_array(&self.host, &array32(&message)),
                        &BytesN::from_array(&self.host, &array64(&signature)),
                    );
                }
                Action::Transfer { asset, from, to, amount } => {
                    self.transfer(asset, from, to, amount);
                }
                Action::InvokeSwap { pool, target_asset, min_amount_out, to } => {
                    let before = self.balance(target_asset, contract);
                    let out = self.swap(pool, min_amount_out, to);
                    let after = self.balance(target_asset, contract);
                    self.world.borrow_mut().swapped = Some((out, before, after));
                }
                Action::RewardLoyalty { token, recipient, amount } => {
                    let reserve = self.balance(token, contract);
                    let settled = settle_loyalty(contract, token, recipient, amount, reserve);
                    self.perform(contract, vec![settled]);
                }
                Action::ExtendInstanceTtl { threshold, extend_to } => {
                    let left = self.instance_ttl();
                    let mut world = self.world.borrow_mut();
                    if left < threshold {
                        world.instance_live_until = world.sequence + extend_to;
                    }
                }
                Action::ExtendTtl { key, threshold, extend_to } => {
                    let left = self.ttl(&key);
                    let mut world = self.world.borrow_mut();
                    if left < threshold {
                        let until = world.sequence + extend_to;
                        world.live_until.retain(|(k, _)| *k != key);
                        world.live_until.push((key, until));
                    }
                }
                Action::UpdateWasm { hash } => {
                    self.world.borrow_mut().wasm = Some(hash);
                }
                Action::Publish { event } => {
                    let topic = topic_of(&event);
                    self.world.borrow_mut().events.push((contract, topic, event));
                }
            }
        }
    }
}

fn topic_of(event: &Event) -> &'static str {
    match event {
        Event::CAddressFunded { .. } => "CAddressFunded",
        Event::BatchTransferFailed { .. } => "BatchTransferFailed",
        Event::BatchCompleted { .. } => "BatchCompleted",
        Event::ContractUpgraded { .. } => "ContractUpgraded",
        Event::SourcePersistentTtlExtended { .. } => "SourcePersistentTtlExtended",
        _ => "other",
    }
}

fn array32(b: &Bytes32) -> [u8; 32] {
    let mut out = [0u8; 32];
    out.copy_from_slice(&b.to_vec());
    out
}

fn array64(s: &Signature) -> [u8; 64] {
    let mut out = [0u8; 64];
    out[..32].copy_from_slice(&s.r.to_vec());
    out[32..].copy_from_slice(&s.s.to_vec());
    out
}

fn bytes32(_env: &Network, bytes: &[u8; 32]) -> Bytes32 {
    Bytes32::from_array(*bytes)
}

fn bytes64(_env: &Network, bytes: &[u8; 64]) -> Signature {
    let mut r = [0u8; 32];
    let mut s = [0u8; 32];
    r.copy_from_slice(&bytes[..32]);
    s.copy_from_slice(&bytes[32..]);
    Signature { r: Bytes32::from_array(r), s: Bytes32::from_array(s) }
}

fn host_address(env: &Network, a: &Address) -> soroban_sdk::Address {
    let id = BytesN::from_array(&env.host, &array32(&a.id));
    let payload = match a.kind {
        AddressKind::Account => AddressPayload::AccountIdPublicKeyEd25519(id),
        AddressKind::Contract => AddressPayload::ContractIdHash(id),
    };
    soroban_sdk::Address::from_payload(&env.host, payload)
}

fn generate(env: &Network) -> Address {
    match soroban_sdk::Address::generate(&env.host).to_payload() {
        Some(AddressPayload::AccountIdPublicKeyEd25519(id)) => {
            Address { kind: AddressKind::Account, id: Bytes32::from_array(id.to_array()) }
        }
        Some(AddressPayload::ContractIdHash(id)) => {
            Address { kind: AddressKind::Contract, id: Bytes32::from_array(id.to_array()) }
        }
        None => panic!("unknown kind of address"),
    }
}

fn list_of<T: Clone, const N: usize>(_env: &Network, items: [T; N]) -> Vec<T> {
    items.to_vec()
}

fn register_bridge(env: &Network) -> Address {
    let id = generate(env);
    let ledger = Ledger { timestamp: 0, sequence: 0, contract: id };
    let bridge = OnboardingBridge::new(&env.host, ledger);
    env.world.borrow_mut().bridges.push((id, bridge));
    id
}

fn register_pool(env: &Network) -> Address {
    generate(env)
}

fn initialize_pool(env: &Network, id: &Address, input: &Address, output: &Address, rate: i128) {
    let pool = Pool { id: *id, input_token: *input, output_token: *output, rate };
    env.world.borrow_mut().pools.push(pool);
}

struct Bridge<'a> {
    env: &'a Network,
    address: Address,
}

impl<'a> Bridge<'a> {
    fn new(env: &'a Network, id: &Address) -> Bridge<'a> {
        Bridge { env, address: *id }
    }

    fn read<T>(&self, f: impl FnOnce(&OnboardingBridge) -> T) -> T {
        let world = self.env.world.borrow();
        let (_, bridge) = world.bridges.iter().find(|(id, _)| *id == self.address).unwrap();
        f(bridge)
    }

    fn call<T>(
        &self,
        f: impl FnOnce(&mut OnboardingBridge, &soroban_sdk::Env) -> Result<T, BridgeError>,
    ) -> Outcome<T> {
        let (result, actions) = {
            let mut world = self.env.world.borrow_mut();
            let timestamp = world.timestamp;
            let sequence = world.sequence;
            let found = world.bridges.iter_mut().find(|(id, _)| *id == self.address);
            let (_, bridge) = found.unwrap();
            bridge.ledger = Ledger { timestamp, sequence, contract: self.address };
            let result = f(bridge, &self.env.host);
            (result, std::mem::take(&mut bridge.actions))
        };
        match result {
            Ok(value) => {
                self.env.perform(self.address, actions);
                Ok(value)
            }
            Err(e) => Err(Ok(e)),
        }
    }

    fn try_batch_fund_c_address(
        &self,
        source: &Address,
        targets: &Vec<Address>,
        amounts: &Vec<i128>,
        asset: &Address,
        nonce: &Option<u64>,
        deadline: &Option<u64>,
    ) -> Outcome<()> {
        self.call(|b, _| {
            b.batch_fund_c_address(*source, targets, amounts, *asset, *nonce, *deadline)
        })
    }

    fn batch_fund_c_address(
        &self,
        source: &Address,
        targets: &Vec<Address>,
        amounts: &Vec<i128>,
        asset: &Address,
        nonce: &Option<u64>,
        deadline: &Option<u64>,
    ) {
        self.try_batch_fund_c_address(source, targets, amounts, asset, nonce, deadline).unwrap()
    }

    fn try_set_fee_tiers(&self, tiers: &Vec<FeeTier>) -> Outcome<()> {
        self.call(|b, _| b.set_fee_tiers(tiers.clone()))
    }

    fn set_fee_tiers(&self, tiers: &Vec<FeeTier>) {
        self.try_set_fee_tiers(tiers).unwrap()
    }

    fn try_reclaim_tokens(
        &self,
        asset: &Address,
        amount: &i128,
        destination: &Address,
        nonce: &Option<u64>,
    ) -> Outcome<()> {
        let held = self.env.balance(*asset, self.address);
        self.call(|b, _| b.reclaim_tokens(*asset, *amount, *destination, *nonce, held))
    }

    fn reclaim_tokens(
        &self,
        asset: &Address,
        amount: &i128,
        destination: &Address,
        nonce: &Option<u64>,
    ) {
        self.try_reclaim_tokens(asset, amount, destination, nonce).unwrap()
    }

    fn try_fund_c_address_with_swap(
        &self,
        source: &Address,
        target: &Address,
        source_asset: &Address,
        target_asset: &Address,
        source_amount: &i128,
        min_target_amount: &i128,
        swap_route: &Vec<Address>,
        nonce: &Option<u64>,
        deadline: &Option<u64>,
    ) -> Outcome<()> {
        let balances = self.env.world.borrow().balances.clone();
        let pending = self.call(|b, _| {
            b.fund_c_address_with_swap(
                *source,
                *target,
                *source_asset,
                *target_asset,
                *source_amount,
                *min_target_amount,
                swap_route,
                *nonce,
                *deadline,
            )
        })?;
        let (reported, before, after) = self.env.world.borrow_mut().swapped.take().unwrap();
        let done = self.call(|b, _| b.complete_swap(pending, reported, before, after));
        if done.is_err() {
            self.env.world.borrow_mut().balances = balances;
        }
        done
    }

    fn fund_c_address_with_swap(
        &self,
        source: &Address,
        target: &Address,
        source_asset: &Address,
        target_asset: &Address,
        source_amount: &i128,
        min_target_amount: &i128,
        swap_route: &Vec<Address>,
        nonce: &Option<u64>,
        deadline: &Option<u64>,
    ) {
        self.try_fund_c_address_with_swap(
            source,
            target,
            source_asset,
            target_asset,
            source_amount,
            min_target_amount,
            swap_route,
            nonce,
            deadline,
        )
        .unwrap()
    }

    fn try_fund_c_address_crosschain(
        &self,
        chain_id: &u32,
        tx_hash: &Bytes32,
        target: &Address,
        asset: &Address,
        amount: &i128,
        sigs: &Vec<RelayerSig>,
    ) -> Outcome<()> {
        self.call(|b, host| {
            b.fund_c_address_crosschain(host, *chain_id, *tx_hash, *target, *asset, *amount, sigs)
        })
    }

    fn fund_c_address_crosschain(
        &self,
        chain_id: &u32,
        tx_hash: &Bytes32,
        target: &Address,
        asset: &Address,
        amount: &i128,
        sigs: &Vec<RelayerSig>,
    ) {
        self.try_fund_c_address_crosschain(chain_id, tx_hash, target, asset, amount, sigs).unwrap()
    }

    fn try_reveal_fund(
        &self,
        id: &u64,
        source: &Address,
        target: &Address,
        asset: &Address,
        amount: &i128,
        nonce: &u64,
    ) -> Outcome<()> {
        self.call(|b, host| {
            b.reveal_fund(host, *id, *source, *target, *asset, *amount, *nonce)
        })
    }

    fn reveal_fund(
        &self,
        id: &u64,
        source: &Address,
        target: &Address,
        asset: &Address,
        amount: &i128,
        nonce: &u64,
    ) {
        self.try_reveal_fund(id, source, target, asset, amount, nonce).unwrap()
    }

    fn try_execute_meta_fund(
        &self,
        params: &MetaFundParams,
        pubkey: &Bytes32,
        signature: &Signature,
    ) -> Outcome<()> {
        self.call(|b, host| b.execute_meta_fund(host, *params, *pubkey, *signature))
    }

    fn execute_meta_fund(&self, params: &MetaFundParams, pubkey: &Bytes32, signature: &Signature) {
        self.try_execute_meta_fund(params, pubkey, signature).unwrap()
    }

    fn query_balance(&self, c_address: &Address, asset: &Address) -> i128 {
        self.env.balance(*asset, *c_address)
    }

    fn query_fee_balance(&self, asset: &Address) -> i128 {
        let held = self.env.balance(*asset, self.address);
        self.read(|b| b.query_fee_balance(held)).unwrap()
    }

    fn try_query_all_balances(
        &self,
        assets: &Vec<Address>,
    ) -> Outcome<soroban_sdk::Map<(u32, u128, u128), i128>> {
        let held: Vec<i128> = assets.iter().map(|a| self.env.balance(*a, self.address)).collect();
        OnboardingBridge::query_all_balances(&self.env.host, assets, &held).map_err(Ok)
    }

    fn query_all_balances(
        &self,
        assets: &Vec<Address>,
    ) -> soroban_sdk::Map<(u32, u128, u128), i128> {
        self.try_query_all_balances(assets).unwrap()
    }

    fn try_initialize(
        &self,
        admin: &Address,
        fee_collector: &Address,
        fee_bps: &u32,
        nonce: &Option<u64>,
    ) -> Outcome<()> {
        self.call(|b, _| b.initialize(*admin, *fee_collector, *fee_bps, *nonce))
    }

    fn initialize(
        &self,
        admin: &Address,
        fee_collector: &Address,
        fee_bps: &u32,
        nonce: &Option<u64>,
    ) {
        self.try_initialize(admin, fee_collector, fee_bps, nonce).unwrap()
    }

    fn try_fund_c_address(
        &self,
        source: &Address,
        target: &Address,
        asset: &Address,
        amount: &i128,
        nonce: &Option<u64>,
        deadline: &Option<u64>,
    ) -> Outcome<()> {
        self.call(|b, _| b.fund_c_address(*source, *target, *asset, *amount, *nonce, *deadline))
    }

    fn fund_c_address(
        &self,
        source: &Address,
        target: &Address,
        asset: &Address,
        amount: &i128,
        nonce: &Option<u64>,
        deadline: &Option<u64>,
    ) {
        self.try_fund_c_address(source, target, asset, amount, nonce, deadline).unwrap()
    }

    fn try_set_fee_bps(&self, new_fee_bps: &u32, nonce: &Option<u64>) -> Outcome<()> {
        self.call(|b, _| b.set_fee_bps(*new_fee_bps, *nonce))
    }

    fn set_fee_bps(&self, new_fee_bps: &u32, nonce: &Option<u64>) {
        self.try_set_fee_bps(new_fee_bps, nonce).unwrap()
    }

    fn try_set_source_daily_limit(
        &self,
        source: &Address,
        asset: &Address,
        limit: &i128,
        nonce: &Option<u64>,
    ) -> Outcome<()> {
        self.call(|b, _| b.set_source_daily_limit(*source, *asset, *limit, *nonce))
    }

    fn set_source_daily_limit(
        &self,
        source: &Address,
        asset: &Address,
        limit: &i128,
        nonce: &Option<u64>,
    ) {
        self.try_set_source_daily_limit(source, asset, limit, nonce).unwrap()
    }

    fn try_set_asset_fee_cap(
        &self,
        asset: &Address,
        max_fee_bps: &u32,
        nonce: &Option<u64>,
    ) -> Outcome<()> {
        self.call(|b, _| b.set_asset_fee_cap(*asset, *max_fee_bps, *nonce))
    }

    fn set_asset_fee_cap(&self, asset: &Address, max_fee_bps: &u32, nonce: &Option<u64>) {
        self.try_set_asset_fee_cap(asset, max_fee_bps, nonce).unwrap()
    }

    fn try_set_fee_collector(
        &self,
        new_fee_collector: &Address,
        nonce: &Option<u64>,
    ) -> Outcome<()> {
        self.call(|b, _| b.set_fee_collector(*new_fee_collector, *nonce))
    }

    fn set_fee_collector(&self, new_fee_collector: &Address, nonce: &Option<u64>) {
        self.try_set_fee_collector(new_fee_collector, nonce).unwrap()
    }

    fn try_propose_new_fee_collector(
        &self,
        new_collector: &Address,
        nonce: &Option<u64>,
    ) -> Outcome<()> {
        self.call(|b, _| b.propose_new_fee_collector(*new_collector, *nonce))
    }

    fn propose_new_fee_collector(&self, new_collector: &Address, nonce: &Option<u64>) {
        self.try_propose_new_fee_collector(new_collector, nonce).unwrap()
    }

    fn try_accept_fee_collector(&self) -> Outcome<()> {
        self.call(|b, _| b.accept_fee_collector())
    }

    fn accept_fee_collector(&self) {
        self.try_accept_fee_collector().unwrap()
    }

    fn try_set_admin(&self, new_admin: &Address, nonce: &Option<u64>) -> Outcome<()> {
        self.call(|b, _| b.set_admin(*new_admin, *nonce))
    }

    fn set_admin(&self, new_admin: &Address, nonce: &Option<u64>) {
        self.try_set_admin(new_admin, nonce).unwrap()
    }

    fn try_propose_new_admin(&self, new_admin: &Address, nonce: &Option<u64>) -> Outcome<()> {
        self.call(|b, _| b.propose_new_admin(*new_admin, *nonce))
    }

    fn propose_new_admin(&self, new_admin: &Address, nonce: &Option<u64>) {
        self.try_propose_new_admin(new_admin, nonce).unwrap()
    }

    fn try_accept_admin(&self) -> Outcome<()> {
        self.call(|b, _| b.accept_admin())
    }

    fn accept_admin(&self) {
        self.try_accept_admin().unwrap()
    }

    fn try_set_minimum_amount(&self, amount: &i128, nonce: &Option<u64>) -> Outcome<()> {
        self.call(|b, _| b.set_minimum_amount(*amount, *nonce))
    }

    fn set_minimum_amount(&self, amount: &i128, nonce: &Option<u64>) {
        self.try_set_minimum_amount(amount, nonce).unwrap()
    }

    fn try_withdraw_fees(
        &self,
        asset: &Address,
        amount: &i128,
        nonce: &Option<u64>,
    ) -> Outcome<()> {
        self.call(|b, _| b.withdraw_fees(*asset, *amount, *nonce))
    }

    fn withdraw_fees(&self, asset: &Address, amount: &i128, nonce: &Option<u64>) {
        self.try_withdraw_fees(asset, amount, nonce).unwrap()
    }

    fn try_set_max_withdraw_per_tx(&self, amount: &i128, nonce: &Option<u64>) -> Outcome<()> {
        self.call(|b, _| b.set_max_withdraw_per_tx(*amount, *nonce))
    }

    fn set_max_withdraw_per_tx(&self, amount: &i128, nonce: &Option<u64>) {
        self.try_set_max_withdraw_per_tx(amount, nonce).unwrap()
    }

    fn try_set_referral_rate(&self, bps: &u32, nonce: &Option<u64>) -> Outcome<()> {
        self.call(|b, _| b.set_referral_rate(*bps, *nonce))
    }

    fn set_referral_rate(&self, bps: &u32, nonce: &Option<u64>) {
        self.try_set_referral_rate(bps, nonce).unwrap()
    }

    fn try_fund_c_address_with_referral(
        &self,
        source: &Address,
        target: &Address,
        asset: &Address,
        amount: &i128,
        referrer: &Option<Address>,
    ) -> Outcome<()> {
        self.call(|b, _| {
            b.fund_c_address_with_referral(*source, *target, *asset, *amount, *referrer)
        })
    }

    fn fund_c_address_with_referral(
        &self,
        source: &Address,
        target: &Address,
        asset: &Address,
        amount: &i128,
        referrer: &Option<Address>,
    ) {
        self.try_fund_c_address_with_referral(source, target, asset, amount, referrer).unwrap()
    }

    fn try_pause(&self, nonce: &Option<u64>) -> Outcome<()> {
        self.call(|b, _| b.pause(*nonce))
    }

    fn pause(&self, nonce: &Option<u64>) {
        self.try_pause(nonce).unwrap()
    }

    fn try_unpause(&self, nonce: &Option<u64>) -> Outcome<()> {
        self.call(|b, _| b.unpause(*nonce))
    }

    fn unpause(&self, nonce: &Option<u64>) {
        self.try_unpause(nonce).unwrap()
    }

    fn try_upgrade(&self, new_wasm_hash: &Bytes32, nonce: &Option<u64>) -> Outcome<()> {
        self.call(|b, _| b.upgrade(*new_wasm_hash, *nonce))
    }

    fn upgrade(&self, new_wasm_hash: &Bytes32, nonce: &Option<u64>) {
        self.try_upgrade(new_wasm_hash, nonce).unwrap()
    }

    fn try_schedule_upgrade(&self, new_wasm_hash: &Bytes32, nonce: &Option<u64>) -> Outcome<u32> {
        self.call(|b, _| b.schedule_upgrade(*new_wasm_hash, *nonce))
    }

    fn schedule_upgrade(&self, new_wasm_hash: &Bytes32, nonce: &Option<u64>) -> u32 {
        self.try_schedule_upgrade(new_wasm_hash, nonce).unwrap()
    }

    fn try_execute_upgrade(&self, expected_hash: &Bytes32, nonce: &Option<u64>) -> Outcome<()> {
        self.call(|b, _| b.execute_upgrade(*expected_hash, *nonce))
    }

    fn execute_upgrade(&self, expected_hash: &Bytes32, nonce: &Option<u64>) {
        self.try_execute_upgrade(expected_hash, nonce).unwrap()
    }

    fn try_cancel_upgrade(&self, nonce: &Option<u64>) -> Outcome<()> {
        self.call(|b, _| b.cancel_upgrade(*nonce))
    }

    fn cancel_upgrade(&self, nonce: &Option<u64>) {
        self.try_cancel_upgrade(nonce).unwrap()
    }

    fn try_emergency_migrate(&self, new_contract: &Address, migrate_data: &bool) -> Outcome<()> {
        self.call(|b, _| b.emergency_migrate(*new_contract, *migrate_data))
    }

    fn emergency_migrate(&self, new_contract: &Address, migrate_data: &bool) {
        self.try_emergency_migrate(new_contract, migrate_data).unwrap()
    }

    fn try_add_to_blocklist(&self, address: &Address, nonce: &Option<u64>) -> Outcome<()> {
        self.call(|b, _| b.add_to_blocklist(*address, *nonce))
    }

    fn add_to_blocklist(&self, address: &Address, nonce: &Option<u64>) {
        self.try_add_to_blocklist(address, nonce).unwrap()
    }

    fn try_remove_from_blocklist(&self, address: &Address, nonce: &Option<u64>) -> Outcome<()> {
        self.call(|b, _| b.remove_from_blocklist(*address, *nonce))
    }

    fn remove_from_blocklist(&self, address: &Address, nonce: &Option<u64>) {
        self.try_remove_from_blocklist(address, nonce).unwrap()
    }

    fn try_add_to_allowlist(&self, address: &Address, nonce: &Option<u64>) -> Outcome<()> {
        self.call(|b, _| b.add_to_allowlist(*address, *nonce))
    }

    fn add_to_allowlist(&self, address: &Address, nonce: &Option<u64>) {
        self.try_add_to_allowlist(address, nonce).unwrap()
    }

    fn try_remove_from_allowlist(&self, address: &Address, nonce: &Option<u64>) -> Outcome<()> {
        self.call(|b, _| b.remove_from_allowlist(*address, *nonce))
    }

    fn remove_from_allowlist(&self, address: &Address, nonce: &Option<u64>) {
        self.try_remove_from_allowlist(address, nonce).unwrap()
    }

    fn try_set_allowlist_mode(&self, enabled: &bool, nonce: &Option<u64>) -> Outcome<()> {
        self.call(|b, _| b.set_allowlist_mode(*enabled, *nonce))
    }

    fn set_allowlist_mode(&self, enabled: &bool, nonce: &Option<u64>) {
        self.try_set_allowlist_mode(enabled, nonce).unwrap()
    }

    fn try_add_asset(&self, asset: &Address, nonce: &Option<u64>) -> Outcome<()> {
        self.call(|b, _| b.add_asset(*asset, *nonce))
    }

    fn add_asset(&self, asset: &Address, nonce: &Option<u64>) {
        self.try_add_asset(asset, nonce).unwrap()
    }

    fn try_remove_asset(&self, asset: &Address, nonce: &Option<u64>) -> Outcome<()> {
        self.call(|b, _| b.remove_asset(*asset, *nonce))
    }

    fn remove_asset(&self, asset: &Address, nonce: &Option<u64>) {
        self.try_remove_asset(asset, nonce).unwrap()
    }

    fn try_add_swap_pool(&self, pool: &Address, nonce: &Option<u64>) -> Outcome<()> {
        self.call(|b, _| b.add_swap_pool(*pool, *nonce))
    }

    fn add_swap_pool(&self, pool: &Address, nonce: &Option<u64>) {
        self.try_add_swap_pool(pool, nonce).unwrap()
    }

    fn try_set_loyalty_token(&self, token: &Address, amount_per_fund: &i128) -> Outcome<()> {
        self.call(|b, _| b.set_loyalty_token(*token, *amount_per_fund))
    }

    fn set_loyalty_token(&self, token: &Address, amount_per_fund: &i128) {
        self.try_set_loyalty_token(token, amount_per_fund).unwrap()
    }

    fn try_add_relayer(&self, pubkey: &Bytes32) -> Outcome<()> {
        self.call(|b, _| b.add_relayer(*pubkey))
    }

    fn add_relayer(&self, pubkey: &Bytes32) {
        self.try_add_relayer(pubkey).unwrap()
    }

    fn try_remove_relayer(&self, pubkey: &Bytes32) -> Outcome<()> {
        self.call(|b, _| b.remove_relayer(*pubkey))
    }

    fn remove_relayer(&self, pubkey: &Bytes32) {
        self.try_remove_relayer(pubkey).unwrap()
    }

    fn try_set_relayer_threshold(&self, threshold: &u32) -> Outcome<()> {
        self.call(|b, _| b.set_relayer_threshold(*threshold))
    }

    fn set_relayer_threshold(&self, threshold: &u32) {
        self.try_set_relayer_threshold(threshold).unwrap()
    }

    fn try_fund_c_address_timelocked(
        &self,
        source: &Address,
        target: &Address,
        asset: &Address,
        amount: &i128,
        release_time: &u64,
        cliff_time: &u64,
        nonce: &Option<u64>,
        deadline: &Option<u64>,
    ) -> Outcome<u64> {
        self.call(|b, _| {
            b.fund_c_address_timelocked(
                *source,
                *target,
                *asset,
                *amount,
                *release_time,
                *cliff_time,
                *nonce,
                *deadline,
            )
        })
    }

    fn fund_c_address_timelocked(
        &self,
        source: &Address,
        target: &Address,
        asset: &Address,
        amount: &i128,
        release_time: &u64,
        cliff_time: &u64,
        nonce: &Option<u64>,
        deadline: &Option<u64>,
    ) -> u64 {
        self.try_fund_c_address_timelocked(
            source,
            target,
            asset,
            amount,
            release_time,
            cliff_time,
            nonce,
            deadline,
        )
        .unwrap()
    }

    fn try_claim_timelocked(&self, id: &u64) -> Outcome<()> {
        self.call(|b, _| b.claim_timelocked(*id))
    }

    fn claim_timelocked(&self, id: &u64) {
        self.try_claim_timelocked(id).unwrap()
    }

    fn try_extend_instance_ttl(&self, ttl: &u32) -> Outcome<()> {
        self.call(|b, _| b.extend_instance_ttl(*ttl))
    }

    fn extend_instance_ttl(&self, ttl: &u32) {
        self.try_extend_instance_ttl(ttl).unwrap()
    }

    fn try_extend_persistent_ttl(&self, key_asset: &Address, ttl: &u32) -> Outcome<()> {
        self.call(|b, _| b.extend_persistent_ttl(*key_asset, *ttl))
    }

    fn extend_persistent_ttl(&self, key_asset: &Address, ttl: &u32) {
        self.try_extend_persistent_ttl(key_asset, ttl).unwrap()
    }

    fn try_extend_timelock_ttl(&self, id: &u64, ttl: &u32) -> Outcome<()> {
        self.call(|b, _| b.extend_timelock_ttl(*id, *ttl))
    }

    fn extend_timelock_ttl(&self, id: &u64, ttl: &u32) {
        self.try_extend_timelock_ttl(id, ttl).unwrap()
    }

    fn try_extend_source_persistent_ttl(
        &self,
        source: &Address,
        asset: &Address,
        ttl: &u32,
    ) -> Outcome<()> {
        self.call(|b, _| b.extend_source_persistent_ttl(*source, *asset, *ttl))
    }

    fn extend_source_persistent_ttl(&self, source: &Address, asset: &Address, ttl: &u32) {
        self.try_extend_source_persistent_ttl(source, asset, ttl).unwrap()
    }

    fn try_set_max_instance_ttl(&self, ttl: &u32) -> Outcome<()> {
        self.call(|b, _| b.set_max_instance_ttl(*ttl))
    }

    fn set_max_instance_ttl(&self, ttl: &u32) {
        self.try_set_max_instance_ttl(ttl).unwrap()
    }

    fn try_set_max_persistent_ttl(&self, ttl: &u32) -> Outcome<()> {
        self.call(|b, _| b.set_max_persistent_ttl(*ttl))
    }

    fn set_max_persistent_ttl(&self, ttl: &u32) {
        self.try_set_max_persistent_ttl(ttl).unwrap()
    }

    fn try_verify_auth_entry(
        &self,
        source: &Address,
        nonce: &u64,
        valid_after: &u32,
        valid_before: &u32,
    ) -> Outcome<()> {
        self.call(|b, _| b.verify_auth_entry(*source, *nonce, *valid_after, *valid_before))
    }

    fn verify_auth_entry(
        &self,
        source: &Address,
        nonce: &u64,
        valid_after: &u32,
        valid_before: &u32,
    ) {
        self.try_verify_auth_entry(source, nonce, valid_after, valid_before).unwrap()
    }

    fn try_commit_fund(
        &self,
        source: &Address,
        target: &Address,
        asset: &Address,
        amount_hash: &Bytes32,
        deadline: &u64,
    ) -> Outcome<u64> {
        self.call(|b, _| b.commit_fund(*source, *target, *asset, *amount_hash, *deadline))
    }

    fn commit_fund(
        &self,
        source: &Address,
        target: &Address,
        asset: &Address,
        amount_hash: &Bytes32,
        deadline: &u64,
    ) -> u64 {
        self.try_commit_fund(source, target, asset, amount_hash, deadline).unwrap()
    }

    fn try_register_meta_signer(&self, source: &Address, pubkey: &Bytes32) -> Outcome<()> {
        self.call(|b, _| b.register_meta_signer(*source, *pubkey))
    }

    fn register_meta_signer(&self, source: &Address, pubkey: &Bytes32) {
        self.try_register_meta_signer(source, pubkey).unwrap()
    }

    fn try_query_fee_bps(&self) -> Outcome<u32> {
        self.read(|b| b.query_fee_bps()).map_err(Ok)
    }

    fn query_fee_bps(&self) -> u32 {
        self.try_query_fee_bps().unwrap()
    }

    fn try_query_fee_collector(&self) -> Outcome<Address> {
        self.read(|b| b.query_fee_collector()).map_err(Ok)
    }

    fn query_fee_collector(&self) -> Address {
        self.try_query_fee_collector().unwrap()
    }

    fn try_query_admin(&self) -> Outcome<Address> {
        self.read(|b| b.query_admin()).map_err(Ok)
    }

    fn query_admin(&self) -> Address {
        self.try_query_admin().unwrap()
    }

    fn try_query_source_daily_limit(&self, source: &Address, asset: &Address) -> Outcome<i128> {
        self.read(|b| b.query_source_daily_limit(*source, *asset)).map_err(Ok)
    }

    fn query_source_daily_limit(&self, source: &Address, asset: &Address) -> i128 {
        self.try_query_source_daily_limit(source, asset).unwrap()
    }

    fn try_query_asset_fee_cap(&self, asset: &Address) -> Outcome<u32> {
        self.read(|b| b.query_asset_fee_cap(*asset)).map_err(Ok)
    }

    fn query_asset_fee_cap(&self, asset: &Address) -> u32 {
        self.try_query_asset_fee_cap(asset).unwrap()
    }

    fn try_query_max_withdraw_per_tx(&self) -> Outcome<i128> {
        self.read(|b| b.query_max_withdraw_per_tx()).map_err(Ok)
    }

    fn query_max_withdraw_per_tx(&self) -> i128 {
        self.try_query_max_withdraw_per_tx().unwrap()
    }

    fn try_query_minimum_amount(&self) -> Outcome<i128> {
        self.read(|b| b.query_minimum_amount()).map_err(Ok)
    }

    fn query_minimum_amount(&self) -> i128 {
        self.try_query_minimum_amount().unwrap()
    }

    fn try_query_referral_rate(&self) -> Outcome<u32> {
        self.read(|b| b.query_referral_rate()).map_err(Ok)
    }

    fn query_referral_rate(&self) -> u32 {
        self.try_query_referral_rate().unwrap()
    }

    fn try_query_calculate_fee(&self, gross_amount: &i128) -> Outcome<(i128, i128)> {
        self.read(|b| b.query_calculate_fee(*gross_amount)).map_err(Ok)
    }

    fn query_calculate_fee(&self, gross_amount: &i128) -> (i128, i128) {
        self.try_query_calculate_fee(gross_amount).unwrap()
    }

    fn try_query_effective_fee(
        &self,
        source: &Address,
        asset: &Address,
        amount: &i128,
    ) -> Outcome<(u32, i128, i128)> {
        self.read(|b| b.query_effective_fee(*source, *asset, *amount)).map_err(Ok)
    }

    fn query_effective_fee(
        &self,
        source: &Address,
        asset: &Address,
        amount: &i128,
    ) -> (u32, i128, i128) {
        self.try_query_effective_fee(source, asset, amount).unwrap()
    }

    fn try_query_total_bridged(&self, asset: &Address) -> Outcome<i128> {
        self.read(|b| b.query_total_bridged(*asset)).map_err(Ok)
    }

    fn query_total_bridged(&self, asset: &Address) -> i128 {
        self.try_query_total_bridged(asset).unwrap()
    }

    fn try_query_total_fees_collected(&self, asset: &Address) -> Outcome<i128> {
        self.read(|b| b.query_total_fees_collected(*asset)).map_err(Ok)
    }

    fn query_total_fees_collected(&self, asset: &Address) -> i128 {
        self.try_query_total_fees_collected(asset).unwrap()
    }

    fn try_query_accrued_fees(&self, asset: &Address) -> Outcome<i128> {
        self.read(|b| b.query_accrued_fees(*asset)).map_err(Ok)
    }

    fn query_accrued_fees(&self, asset: &Address) -> i128 {
        self.try_query_accrued_fees(asset).unwrap()
    }

    fn try_query_is_asset_whitelisted(&self, asset: &Address) -> Outcome<bool> {
        self.read(|b| b.query_is_asset_whitelisted(*asset)).map_err(Ok)
    }

    fn query_is_asset_whitelisted(&self, asset: &Address) -> bool {
        self.try_query_is_asset_whitelisted(asset).unwrap()
    }

    fn try_query_whitelisted_assets(&self, offset: &u32, limit: &u32) -> Outcome<Vec<Address>> {
        self.read(|b| b.query_whitelisted_assets(*offset, *limit)).map_err(Ok)
    }

    fn query_whitelisted_assets(&self, offset: &u32, limit: &u32) -> Vec<Address> {
        self.try_query_whitelisted_assets(offset, limit).unwrap()
    }

    fn try_query_relayer_threshold(&self) -> Outcome<u32> {
        self.read(|b| b.query_relayer_threshold()).map_err(Ok)
    }

    fn query_relayer_threshold(&self) -> u32 {
        self.try_query_relayer_threshold().unwrap()
    }

    fn try_query_is_relayer(&self, pubkey: &Bytes32) -> Outcome<bool> {
        self.read(|b| b.query_is_relayer(*pubkey)).map_err(Ok)
    }

    fn query_is_relayer(&self, pubkey: &Bytes32) -> bool {
        self.try_query_is_relayer(pubkey).unwrap()
    }

    fn try_query_timelocked(&self, id: &u64) -> Outcome<TimelockEntry> {
        self.read(|b| b.query_timelocked(*id)).map_err(Ok)
    }

    fn query_timelocked(&self, id: &u64) -> TimelockEntry {
        self.try_query_timelocked(id).unwrap()
    }

    fn try_query_commitment(&self, id: &u64) -> Outcome<CommitmentEntry> {
        self.read(|b| b.query_commitment(*id)).map_err(Ok)
    }

    fn query_commitment(&self, id: &u64) -> CommitmentEntry {
        self.try_query_commitment(id).unwrap()
    }

    fn try_query_ttl_config(&self) -> Outcome<(u32, u32, u32, u32)> {
        self.read(|b| b.query_ttl_config()).map_err(Ok)
    }

    fn query_ttl_config(&self) -> (u32, u32, u32, u32) {
        self.try_query_ttl_config().unwrap()
    }

    fn query_is_initialized(&self) -> bool {
        self.read(|b| b.query_is_initialized())
    }

    fn query_is_paused(&self) -> bool {
        self.read(|b| b.query_is_paused())
    }

    fn query_nonce(&self, caller: &Address) -> u64 {
        self.read(|b| b.query_nonce(*caller))
    }

    fn query_is_blocked(&self, address: &Address) -> bool {
        self.read(|b| b.query_is_blocked(*address))
    }

    fn query_is_allowlisted(&self, address: &Address) -> bool {
        self.read(|b| b.query_is_allowlisted(*address))
    }

    fn query_allowlist_mode(&self) -> bool {
        self.read(|b| b.query_allowlist_mode())
    }

    fn query_pending_upgrade(&self) -> Option<PendingUpgrade> {
        self.read(|b| b.query_pending_upgrade())
    }

    fn query_pending_admin(&self) -> Option<Address> {
        self.read(|b| b.query_pending_admin())
    }
}

fn register_all_contracts(env: &Network) -> (Address, Address) {
    let bridge_id = register_bridge(env);
    let token_id = generate(env);
    (bridge_id, token_id)
}

fn register_all_contracts_mocked(env: &Network) -> (Address, Address) {
    env.mock_all_auths();
    register_all_contracts(env)
}

fn init_token(_env: &Network, _token_id: &Address, _admin: &Address) {}

fn create_bridge_client<'a>(env: &'a Network, bridge_id: &Address) -> Bridge<'a> {
    Bridge::new(env, bridge_id)
}

fn create_test_users(env: &Network) -> (Address, Address, Address) {
    let admin = generate(env);
    let user = generate(env);
    let fee_collector = generate(env);
    (admin, user, fee_collector)
}

fn mint_tokens(env: &Network, token_id: &Address, to: &Address, amount: i128) {
    env.set_balance(*token_id, *to, env.balance(*token_id, *to) + amount);
}

fn check_balance(env: &Network, token_id: &Address, addr: &Address) -> i128 {
    env.balance(*token_id, *addr)
}

fn advance_ledger_time(env: &Network, timestamp: u64) {
    env.set_timestamp(timestamp);
}

fn advance_ledger_sequence(env: &Network, sequence: u32) {
    env.set_sequence_number(sequence);
}

fn count_events_with_topic(env: &Network, bridge_id: &Address, topic: &str) -> u32 {
    let mut count = 0u32;
    for (contract, name, _) in env.all_events().iter() {
        if contract == bridge_id && *name == topic {
            count += 1;
        }
    }
    count
}

fn sha256(env: &Network, data: &[u8]) -> Bytes32 {
    let digest = env.host.crypto().sha256(&Bytes::from_slice(&env.host, data));
    Bytes32::from_array(digest.to_array())
}

fn strkey_hash(env: &Network, a: &Address) -> Bytes32 {
    let text: Vec<u8> = host_address(env, a).to_string().to_bytes().iter().collect();
    sha256(env, &text)
}

fn commit_reveal_amount_hash(env: &Network, amount: i128, nonce: u64) -> Bytes32 {
    let mut preimage: Vec<u8> = Vec::new();
    preimage.extend_from_slice(&amount.to_be_bytes());
    preimage.extend_from_slice(&nonce.to_be_bytes());
    sha256(env, &preimage)
}

fn make_signing_key(seed: [u8; 32]) -> SigningKey {
    SigningKey::from_bytes(&seed)
}

fn build_payload_hash(
    env: &Network,
    chain_id: u32,
    tx_hash: &Bytes32,
    target: &Address,
    asset: &Address,
    amount: i128,
) -> Bytes32 {
    let mut nonce_pre: Vec<u8> = Vec::new();
    nonce_pre.extend_from_slice(&chain_id.to_be_bytes());
    nonce_pre.extend_from_slice(&array32(tx_hash));
    let nonce = sha256(env, &nonce_pre);

    let mut payload: Vec<u8> = Vec::new();
    payload.extend_from_slice(&chain_id.to_be_bytes());
    payload.extend_from_slice(&array32(tx_hash));
    payload.extend_from_slice(&array32(&strkey_hash(env, target)));
    payload.extend_from_slice(&array32(&strkey_hash(env, asset)));
    payload.extend_from_slice(&amount.to_be_bytes());
    payload.extend_from_slice(&array32(&nonce));
    sha256(env, &payload)
}

fn sign_payload(env: &Network, signing_key: &SigningKey, payload_hash: &Bytes32) -> Signature {
    bytes64(env, &signing_key.sign(&array32(payload_hash)).to_bytes())
}

fn make_relayer_sig(env: &Network, signing_key: &SigningKey, payload_hash: &Bytes32) -> RelayerSig {
    RelayerSig {
        pubkey: bytes32(env, signing_key.verifying_key().as_bytes()),
        signature: sign_payload(env, signing_key, payload_hash),
    }
}

fn build_meta_fund_payload_hash(
    env: &Network,
    source: &Address,
    target: &Address,
    asset: &Address,
    amount: i128,
    nonce: u64,
    deadline: u64,
) -> Bytes32 {
    let mut payload: Vec<u8> = Vec::new();
    payload.extend_from_slice(b"meta_fund");
    payload.extend_from_slice(&array32(&strkey_hash(env, source)));
    payload.extend_from_slice(&array32(&strkey_hash(env, target)));
    payload.extend_from_slice(&array32(&strkey_hash(env, asset)));
    payload.extend_from_slice(&amount.to_be_bytes());
    payload.extend_from_slice(&nonce.to_be_bytes());
    payload.extend_from_slice(&deadline.to_be_bytes());
    sha256(env, &payload)
}

fn sign_meta_fund_payload(
    env: &Network,
    signing_key: &SigningKey,
    payload_hash: &Bytes32,
) -> Signature {
    sign_payload(env, signing_key, payload_hash)
}

#[test]
fn test_initialize() {
    let env = Network::default();
    let (admin, _user, fee_collector) = create_test_users(&env);
    let (bridge_id, _) = register_all_contracts_mocked(&env);
    let bridge = create_bridge_client(&env, &bridge_id);

    bridge.initialize(&admin, &fee_collector, &50u32, &None);

    assert_eq!(bridge.query_fee_bps(), 50u32);
    assert_eq!(bridge.query_fee_collector(), fee_collector);
    assert_eq!(bridge.query_admin(), admin);
    assert!(bridge.query_is_initialized());
}

#[test]
fn test_initialize_twice() {
    let env = Network::default();
    let (admin, _user, fee_collector) = create_test_users(&env);
    let (bridge_id, _) = register_all_contracts_mocked(&env);
    let bridge = create_bridge_client(&env, &bridge_id);

    bridge.initialize(&admin, &fee_collector, &50u32, &None);
    assert_eq!(
        bridge.try_initialize(&admin, &fee_collector, &50u32, &None),
        Err(Ok(BridgeError::AlreadyInitialized))
    );
}

#[test]
fn test_initialize_fee_too_high() {
    let env = Network::default();
    let (admin, _user, fee_collector) = create_test_users(&env);
    let (bridge_id, _) = register_all_contracts_mocked(&env);
    let bridge = create_bridge_client(&env, &bridge_id);

    assert_eq!(
        bridge.try_initialize(&admin, &fee_collector, &2000u32, &None),
        Err(Ok(BridgeError::FeeTooHigh))
    );
}

#[test]
fn test_fund_c_address() {
    let env = Network::default();
    let (admin, user, fee_collector) = create_test_users(&env);
    let (bridge_id, token_id) = register_all_contracts_mocked(&env);
    let bridge = create_bridge_client(&env, &bridge_id);
    init_token(&env, &token_id, &admin);

    bridge.initialize(&admin, &fee_collector, &100u32, &None);
    bridge.add_asset(&token_id, &None);
    mint_tokens(&env, &token_id, &user, 1000i128);

    let target = generate(&env);
    bridge.fund_c_address(&user, &target, &token_id, &500i128, &None, &None);

    assert_eq!(check_balance(&env, &token_id, &user), 500i128);
    assert_eq!(check_balance(&env, &token_id, &target), 495i128);
    assert_eq!(check_balance(&env, &token_id, &fee_collector), 0i128);
    assert_eq!(check_balance(&env, &token_id, &bridge_id), 5i128);
}

#[test]
fn test_fund_without_initialize() {
    let env = Network::default();
    let (_admin, user, _fee_collector) = create_test_users(&env);
    let (bridge_id, token_id) = register_all_contracts_mocked(&env);
    let bridge = create_bridge_client(&env, &bridge_id);

    bridge.initialize(&generate(&env), &generate(&env), &50u32, &None);

    let b2_id = register_bridge(&env);
    let b2 = Bridge::new(&env, &b2_id);
    let target = generate(&env);
    assert_eq!(
        b2.try_fund_c_address(&user, &target, &token_id, &100i128, &None, &None),
        Err(Ok(BridgeError::NotInitialized))
    );
}

#[test]
fn test_batch_fund_c_addresses() {
    let env = Network::default();
    let (admin, user, fee_collector) = create_test_users(&env);
    let (bridge_id, token_id) = register_all_contracts_mocked(&env);
    let bridge = create_bridge_client(&env, &bridge_id);
    init_token(&env, &token_id, &admin);

    bridge.initialize(&admin, &fee_collector, &100u32, &None);
    bridge.add_asset(&token_id, &None);
    mint_tokens(&env, &token_id, &user, 3000i128);

    let target1 = generate(&env);
    let target2 = generate(&env);
    let targets = list_of(&env, [target1.clone(), target2.clone()]);
    let amounts = list_of(&env, [1000i128, 500i128]);

    bridge.batch_fund_c_address(&user, &targets, &amounts, &token_id, &None, &None);

    assert_eq!(check_balance(&env, &token_id, &user), 1500i128);
    assert_eq!(check_balance(&env, &token_id, &target1), 990i128);
    assert_eq!(check_balance(&env, &token_id, &target2), 495i128);
    assert_eq!(check_balance(&env, &token_id, &fee_collector), 0i128);
    assert_eq!(check_balance(&env, &token_id, &bridge_id), 15i128);
}

#[test]
fn test_fund_with_zero_fee() {
    let env = Network::default();
    let (admin, user, fee_collector) = create_test_users(&env);
    let (bridge_id, token_id) = register_all_contracts_mocked(&env);
    let bridge = create_bridge_client(&env, &bridge_id);
    init_token(&env, &token_id, &admin);

    bridge.initialize(&admin, &fee_collector, &0u32, &None);
    bridge.add_asset(&token_id, &None);
    mint_tokens(&env, &token_id, &user, 1000i128);

    let target = generate(&env);
    bridge.fund_c_address(&user, &target, &token_id, &500i128, &None, &None);

    assert_eq!(check_balance(&env, &token_id, &user), 500i128);
    assert_eq!(check_balance(&env, &token_id, &target), 500i128);
    assert_eq!(check_balance(&env, &token_id, &fee_collector), 0i128);
    assert_eq!(check_balance(&env, &token_id, &bridge_id), 0i128);
}

#[test]
fn test_set_fee_bps() {
    let env = Network::default();
    let (admin, _user, fee_collector) = create_test_users(&env);
    let (bridge_id, _) = register_all_contracts_mocked(&env);
    let bridge = create_bridge_client(&env, &bridge_id);

    bridge.initialize(&admin, &fee_collector, &50u32, &None);
    assert_eq!(bridge.query_fee_bps(), 50u32);

    bridge.set_fee_bps(&200u32, &None);
    assert_eq!(bridge.query_fee_bps(), 200u32);
}

#[test]
fn test_set_fee_bps_too_high() {
    let env = Network::default();
    let (admin, _user, fee_collector) = create_test_users(&env);
    let (bridge_id, _) = register_all_contracts_mocked(&env);
    let bridge = create_bridge_client(&env, &bridge_id);

    bridge.initialize(&admin, &fee_collector, &50u32, &None);
    assert_eq!(
        bridge.try_set_fee_bps(&2000u32, &None),
        Err(Ok(BridgeError::FeeTooHigh))
    );
}

#[test]
fn test_set_fee_collector() {
    let env = Network::default();
    let (admin, _user, fee_collector) = create_test_users(&env);
    let (bridge_id, _) = register_all_contracts_mocked(&env);
    let bridge = create_bridge_client(&env, &bridge_id);

    bridge.initialize(&admin, &fee_collector, &50u32, &None);
    let new_collector = generate(&env);
    bridge.set_fee_collector(&new_collector, &None);
    assert_eq!(bridge.query_fee_collector(), new_collector);
}

#[test]
fn test_set_admin() {
    let env = Network::default();
    let (admin, _user, fee_collector) = create_test_users(&env);
    let (bridge_id, _) = register_all_contracts_mocked(&env);
    let bridge = create_bridge_client(&env, &bridge_id);

    bridge.initialize(&admin, &fee_collector, &50u32, &None);
    let new_admin = generate(&env);
    bridge.set_admin(&new_admin, &None);
    assert_eq!(bridge.query_admin(), new_admin);
}

#[test]
fn test_withdraw_fees() {
    let env = Network::default();
    let (admin, user, fee_collector) = create_test_users(&env);
    let (bridge_id, token_id) = register_all_contracts_mocked(&env);
    let bridge = create_bridge_client(&env, &bridge_id);
    init_token(&env, &token_id, &admin);

    bridge.initialize(&admin, &fee_collector, &100u32, &None);
    bridge.add_asset(&token_id, &None);
    mint_tokens(&env, &token_id, &user, 1000i128);

    let target = generate(&env);
    bridge.fund_c_address(&user, &target, &token_id, &500i128, &None, &None);

    assert_eq!(check_balance(&env, &token_id, &fee_collector), 0i128);
    assert_eq!(check_balance(&env, &token_id, &bridge_id), 5i128);

    bridge.withdraw_fees(&token_id, &5i128, &None);

    assert_eq!(check_balance(&env, &token_id, &fee_collector), 5i128);
    assert_eq!(check_balance(&env, &token_id, &bridge_id), 0i128);
}

#[test]
fn test_query_balance() {
    let env = Network::default();
    let (admin, user, _fee_collector) = create_test_users(&env);
    let (bridge_id, token_id) = register_all_contracts_mocked(&env);
    let bridge = create_bridge_client(&env, &bridge_id);
    init_token(&env, &token_id, &admin);

    bridge.initialize(&admin, &generate(&env), &0u32, &None);
    mint_tokens(&env, &token_id, &user, 1000i128);

    let bal = bridge.query_balance(&user, &token_id);
    assert_eq!(bal, 1000i128);
}

#[test]
fn test_batch_empty() {
    let env = Network::default();
    let (admin, _user, fee_collector) = create_test_users(&env);
    let (bridge_id, _) = register_all_contracts_mocked(&env);
    let bridge = create_bridge_client(&env, &bridge_id);

    let token_id = generate(&env);
    bridge.initialize(&admin, &fee_collector, &50u32, &None);

    let targets: Vec<Address> = Vec::new();
    let amounts: Vec<i128> = Vec::new();

    bridge.batch_fund_c_address(&admin, &targets, &amounts, &token_id, &None, &None);
}

#[test]
fn test_fund_events() {
    let env = Network::default();
    let (admin, user, fee_collector) = create_test_users(&env);
    let (bridge_id, token_id) = register_all_contracts_mocked(&env);
    let bridge = create_bridge_client(&env, &bridge_id);
    init_token(&env, &token_id, &admin);

    bridge.initialize(&admin, &fee_collector, &100u32, &None);
    bridge.add_asset(&token_id, &None);
    mint_tokens(&env, &token_id, &user, 1000i128);

    let target = generate(&env);
    bridge.fund_c_address(&user, &target, &token_id, &500i128, &None, &None);

    let events = env.all_events();
    assert!(events.len() > 0);

    let (contract_id, _topics, _data) = &events.get(events.len() - 1).unwrap();
    assert_eq!(contract_id, &bridge_id);
}

#[test]
fn test_query_fee_bps_uninitialized() {
    let env = Network::default();
    let (bridge_id, _) = register_all_contracts_mocked(&env);
    let bridge = create_bridge_client(&env, &bridge_id);
    assert_eq!(
        bridge.try_query_fee_bps(),
        Err(Ok(BridgeError::NotInitialized))
    );
}

// Pause / Upgrade tests

#[test]
fn test_pause_and_unpause() {
    let env = Network::default();
    let (admin, _user, fee_collector) = create_test_users(&env);
    let (bridge_id, _) = register_all_contracts_mocked(&env);
    let bridge = create_bridge_client(&env, &bridge_id);

    bridge.initialize(&admin, &fee_collector, &50u32, &None);

    assert!(!bridge.query_is_paused());

    bridge.pause(&None);
    assert!(bridge.query_is_paused());

    bridge.unpause(&None);
    assert!(!bridge.query_is_paused());
}

#[test]
fn test_fund_c_address_paused() {
    let env = Network::default();
    let (admin, user, fee_collector) = create_test_users(&env);
    let (bridge_id, token_id) = register_all_contracts_mocked(&env);
    let bridge = create_bridge_client(&env, &bridge_id);
    init_token(&env, &token_id, &admin);

    bridge.initialize(&admin, &fee_collector, &100u32, &None);
    mint_tokens(&env, &token_id, &user, 1000i128);
    bridge.pause(&None);

    let target = generate(&env);
    assert_eq!(
        bridge.try_fund_c_address(&user, &target, &token_id, &500i128, &None, &None),
        Err(Ok(BridgeError::ContractPaused))
    );
}

#[test]
fn test_batch_fund_paused() {
    let env = Network::default();
    let (admin, user, fee_collector) = create_test_users(&env);
    let (bridge_id, token_id) = register_all_contracts_mocked(&env);
    let bridge = create_bridge_client(&env, &bridge_id);
    init_token(&env, &token_id, &admin);

    bridge.initialize(&admin, &fee_collector, &100u32, &None);
    mint_tokens(&env, &token_id, &user, 1000i128);
    bridge.pause(&None);

    let target = generate(&env);
    let targets = list_of(&env, [target.clone()]);
    let amounts = list_of(&env, [500i128]);
    assert_eq!(
        bridge.try_batch_fund_c_address(&user, &targets, &amounts, &token_id, &None, &None),
        Err(Ok(BridgeError::ContractPaused))
    );
}

#[test]
fn test_withdraw_fees_paused() {
    let env = Network::default();
    let (admin, user, fee_collector) = create_test_users(&env);
    let (bridge_id, token_id) = register_all_contracts_mocked(&env);
    let bridge = create_bridge_client(&env, &bridge_id);
    init_token(&env, &token_id, &admin);

    bridge.initialize(&admin, &fee_collector, &100u32, &None);
    bridge.add_asset(&token_id, &None);
    mint_tokens(&env, &token_id, &user, 1000i128);
    let target = generate(&env);
    bridge.fund_c_address(&user, &target, &token_id, &500i128, &None, &None);
    bridge.pause(&None);

    assert_eq!(
        bridge.try_withdraw_fees(&token_id, &5i128, &None),
        Err(Ok(BridgeError::ContractPaused))
    );
}

#[test]
fn test_set_fee_bps_paused() {
    let env = Network::default();
    let (admin, _user, fee_collector) = create_test_users(&env);
    let (bridge_id, _) = register_all_contracts_mocked(&env);
    let bridge = create_bridge_client(&env, &bridge_id);

    bridge.initialize(&admin, &fee_collector, &50u32, &None);
    bridge.pause(&None);
    assert_eq!(
        bridge.try_set_fee_bps(&100u32, &None),
        Err(Ok(BridgeError::ContractPaused))
    );
}

#[test]
fn test_set_fee_collector_paused() {
    let env = Network::default();
    let (admin, _user, fee_collector) = create_test_users(&env);
    let (bridge_id, _) = register_all_contracts_mocked(&env);
    let bridge = create_bridge_client(&env, &bridge_id);

    bridge.initialize(&admin, &fee_collector, &50u32, &None);
    bridge.pause(&None);
    assert_eq!(
        bridge.try_set_fee_collector(&generate(&env), &None),
        Err(Ok(BridgeError::ContractPaused))
    );
}

#[test]
fn test_set_admin_paused() {
    let env = Network::default();
    let (admin, _user, fee_collector) = create_test_users(&env);
    let (bridge_id, _) = register_all_contracts_mocked(&env);
    let bridge = create_bridge_client(&env, &bridge_id);

    bridge.initialize(&admin, &fee_collector, &50u32, &None);
    bridge.pause(&None);
    assert_eq!(
        bridge.try_set_admin(&generate(&env), &None),
        Err(Ok(BridgeError::ContractPaused))
    );
}

// Issue: check_not_paused consistency across admin setters

#[test]
fn test_set_referral_rate_paused() {
    let env = Network::default();
    let (admin, _user, fee_collector) = create_test_users(&env);
    let (bridge_id, _) = register_all_contracts_mocked(&env);
    let bridge = create_bridge_client(&env, &bridge_id);

    bridge.initialize(&admin, &fee_collector, &50u32, &None);
    bridge.pause(&None);
    assert_eq!(
        bridge.try_set_referral_rate(&1000u32, &None),
        Err(Ok(BridgeError::ContractPaused))
    );
}

#[test]
fn test_set_asset_fee_cap_paused() {
    let env = Network::default();
    let (admin, _user, fee_collector) = create_test_users(&env);
    let (bridge_id, token_id) = register_all_contracts_mocked(&env);
    let bridge = create_bridge_client(&env, &bridge_id);
    init_token(&env, &token_id, &admin);

    bridge.initialize(&admin, &fee_collector, &50u32, &None);
    bridge.pause(&None);
    assert_eq!(
        bridge.try_set_asset_fee_cap(&token_id, &50u32, &None),
        Err(Ok(BridgeError::ContractPaused))
    );
}

#[test]
fn test_set_source_daily_limit_paused() {
    let env = Network::default();
    let (admin, user, fee_collector) = create_test_users(&env);
    let (bridge_id, token_id) = register_all_contracts_mocked(&env);
    let bridge = create_bridge_client(&env, &bridge_id);
    init_token(&env, &token_id, &admin);

    bridge.initialize(&admin, &fee_collector, &50u32, &None);
    bridge.pause(&None);
    assert_eq!(
        bridge.try_set_source_daily_limit(&user, &token_id, &10_000i128, &None),
        Err(Ok(BridgeError::ContractPaused))
    );
}

#[test]
fn test_set_loyalty_token_paused() {
    let env = Network::default();
    let (admin, _user, fee_collector) = create_test_users(&env);
    let (bridge_id, token_id) = register_all_contracts_mocked(&env);
    let bridge = create_bridge_client(&env, &bridge_id);
    init_token(&env, &token_id, &admin);

    bridge.initialize(&admin, &fee_collector, &50u32, &None);
    bridge.pause(&None);
    assert_eq!(
        bridge.try_set_loyalty_token(&token_id, &10i128),
        Err(Ok(BridgeError::ContractPaused))
    );
}

#[test]
fn test_set_fee_tiers_paused() {
    let env = Network::default();
    let (admin, _user, fee_collector) = create_test_users(&env);
    let (bridge_id, _) = register_all_contracts_mocked(&env);
    let bridge = create_bridge_client(&env, &bridge_id);

    bridge.initialize(&admin, &fee_collector, &50u32, &None);
    bridge.pause(&None);
    let tiers = list_of(
        &env,
        [FeeTier {
            min_volume: 0,
            max_volume: 1000i128,
            fee_bps: 50u32,
        }],
    );
    assert_eq!(
        bridge.try_set_fee_tiers(&tiers),
        Err(Ok(BridgeError::ContractPaused))
    );
}

#[test]
fn test_add_relayer_paused() {
    let env = Network::default();
    let (admin, _user, fee_collector) = create_test_users(&env);
    let (bridge_id, _) = register_all_contracts_mocked(&env);
    let bridge = create_bridge_client(&env, &bridge_id);

    bridge.initialize(&admin, &fee_collector, &50u32, &None);
    bridge.pause(&None);
    let pubkey = bytes32(&env, &[7u8; 32]);
    assert_eq!(
        bridge.try_add_relayer(&pubkey),
        Err(Ok(BridgeError::ContractPaused))
    );
}

#[test]
fn test_remove_relayer_paused() {
    let env = Network::default();
    let (admin, _user, fee_collector) = create_test_users(&env);
    let (bridge_id, _) = register_all_contracts_mocked(&env);
    let bridge = create_bridge_client(&env, &bridge_id);

    bridge.initialize(&admin, &fee_collector, &50u32, &None);
    let pubkey = bytes32(&env, &[7u8; 32]);
    bridge.add_relayer(&pubkey);
    bridge.pause(&None);
    assert_eq!(
        bridge.try_remove_relayer(&pubkey),
        Err(Ok(BridgeError::ContractPaused))
    );
}

#[test]
fn test_set_relayer_threshold_paused() {
    let env = Network::default();
    let (admin, _user, fee_collector) = create_test_users(&env);
    let (bridge_id, _) = register_all_contracts_mocked(&env);
    let bridge = create_bridge_client(&env, &bridge_id);

    bridge.initialize(&admin, &fee_collector, &50u32, &None);
    let pubkey = bytes32(&env, &[7u8; 32]);
    bridge.add_relayer(&pubkey);
    bridge.pause(&None);
    assert_eq!(
        bridge.try_set_relayer_threshold(&1u32),
        Err(Ok(BridgeError::ContractPaused))
    );
}

#[test]
fn test_view_functions_work_when_paused() {
    let env = Network::default();
    let (admin, user, fee_collector) = create_test_users(&env);
    let (bridge_id, token_id) = register_all_contracts_mocked(&env);
    let bridge = create_bridge_client(&env, &bridge_id);
    init_token(&env, &token_id, &admin);

    bridge.initialize(&admin, &fee_collector, &50u32, &None);
    mint_tokens(&env, &token_id, &user, 1000i128);
    bridge.pause(&None);

    assert_eq!(bridge.query_fee_bps(), 50u32);
    assert_eq!(bridge.query_fee_collector(), fee_collector);
    assert_eq!(bridge.query_admin(), admin);
    assert!(bridge.query_is_initialized());
    assert!(bridge.query_is_paused());
    assert_eq!(bridge.query_balance(&user, &token_id), 1000i128);
}

#[test]
fn test_pause_emits_event() {
    let env = Network::default();
    let (admin, _user, fee_collector) = create_test_users(&env);
    let (bridge_id, _) = register_all_contracts_mocked(&env);
    let bridge = create_bridge_client(&env, &bridge_id);

    bridge.initialize(&admin, &fee_collector, &50u32, &None);
    bridge.pause(&None);

    let events = env.all_events();
    let (contract_id, _topics, _data) = &events.get(events.len() - 1).unwrap();
    assert_eq!(contract_id, &bridge_id);
}

#[test]
fn test_unpause_emits_event() {
    let env = Network::default();
    let (admin, _user, fee_collector) = create_test_users(&env);
    let (bridge_id, _) = register_all_contracts_mocked(&env);
    let bridge = create_bridge_client(&env, &bridge_id);

    bridge.initialize(&admin, &fee_collector, &50u32, &None);
    bridge.pause(&None);
    bridge.unpause(&None);

    let events = env.all_events();
    let (contract_id, _topics, _data) = &events.get(events.len() - 1).unwrap();
    assert_eq!(contract_id, &bridge_id);
}

#[test]
fn test_fund_works_after_unpause() {
    let env = Network::default();
    let (admin, user, fee_collector) = create_test_users(&env);
    let (bridge_id, token_id) = register_all_contracts_mocked(&env);
    let bridge = create_bridge_client(&env, &bridge_id);
    init_token(&env, &token_id, &admin);

    bridge.initialize(&admin, &fee_collector, &100u32, &None);
    bridge.add_asset(&token_id, &None);
    mint_tokens(&env, &token_id, &user, 1000i128);
    bridge.pause(&None);
    bridge.unpause(&None);

    let target = generate(&env);
    bridge.fund_c_address(&user, &target, &token_id, &500i128, &None, &None);

    assert_eq!(check_balance(&env, &token_id, &target), 495i128);
}

#[test]
fn test_upgrade_admin_only_and_event() {
    let env = Network::default();
    let (admin, _user, fee_collector) = create_test_users(&env);
    let (bridge_id, _) = register_all_contracts_mocked(&env);
    let bridge = create_bridge_client(&env, &bridge_id);
    env.mock_all_auths();

    bridge.initialize(&admin, &fee_collector, &50u32, &None);

    let wasm_hash: Bytes32 = bytes32(&env, &[2u8; 32]);

    bridge.upgrade(&wasm_hash, &None);

    // Verify the Upgraded event was emitted from the bridge contract.
    let events = env.all_events();
    let (contract_id, _topics, _data) = &events.get(events.len() - 1).unwrap();
    assert_eq!(contract_id, &bridge_id);
}

#[test]
#[should_panic]
fn test_upgrade_non_admin_rejected() {
    let env = Network::default();
    let (admin, _user, fee_collector) = create_test_users(&env);
    let bridge_id = register_bridge(&env);
    env.mock_all_auths();
    let bridge = create_bridge_client(&env, &bridge_id);

    bridge.initialize(&admin, &fee_collector, &50u32, &None);

    let wasm_hash: Bytes32 = bytes32(&env, &[2u8; 32]);

    // Clear all mocked auths so upgrade is called without admin authorization.
    env.clear_auths();
    bridge.upgrade(&wasm_hash, &None);
}

// Timelocked upgrade tests (execute_upgrade)

#[test]
fn test_execute_upgrade_succeeds_at_timelock_boundary_and_clears_pending() {
    let env = Network::default();
    let (admin, _user, fee_collector) = create_test_users(&env);
    let (bridge_id, _) = register_all_contracts_mocked(&env);
    let bridge = create_bridge_client(&env, &bridge_id);

    bridge.initialize(&admin, &fee_collector, &50u32, &None);

    let wasm_hash: Bytes32 = bytes32(&env, &[2u8; 32]);

    let executable_after_ledger = bridge.schedule_upgrade(&wasm_hash, &None);
    assert_eq!(
        bridge.query_pending_upgrade(),
        Some(PendingUpgrade {
            new_wasm_hash: wasm_hash.clone(),
            executable_after_ledger,
        })
    );

    // Exactly at the boundary: docs specify `sequence >= scheduled + timelock`,
    // so landing exactly on `executable_after_ledger` must already succeed.
    advance_ledger_sequence(&env, executable_after_ledger);
    bridge.execute_upgrade(&wasm_hash, &None);

    // The pending record is cleared before the wasm swap, so a second
    // execute now reports "not scheduled" rather than replaying the upgrade.
    assert_eq!(bridge.query_pending_upgrade(), None);
    assert_eq!(
        bridge.try_execute_upgrade(&wasm_hash, &None),
        Err(Ok(BridgeError::UpgradeNotScheduled))
    );

    assert_eq!(count_events_with_topic(&env, &bridge_id, "ContractUpgraded"), 1);
}

#[test]
fn test_execute_upgrade_not_initialized_fails() {
    let env = Network::default();
    let (bridge_id, _) = register_all_contracts_mocked(&env);
    let bridge = create_bridge_client(&env, &bridge_id);

    assert_eq!(
        bridge.try_execute_upgrade(&bytes32(&env, &[0u8; 32]), &None),
        Err(Ok(BridgeError::NotInitialized))
    );
}

#[test]
fn test_execute_upgrade_not_scheduled_fails() {
    let env = Network::default();
    let (admin, _user, fee_collector) = create_test_users(&env);
    let (bridge_id, _) = register_all_contracts_mocked(&env);
    let bridge = create_bridge_client(&env, &bridge_id);

    bridge.initialize(&admin, &fee_collector, &50u32, &None);

    assert_eq!(
        bridge.try_execute_upgrade(&bytes32(&env, &[1u8; 32]), &None),
        Err(Ok(BridgeError::UpgradeNotScheduled))
    );
}

#[test]
fn test_execute_upgrade_hash_mismatch_fails() {
    let env = Network::default();
    let (admin, _user, fee_collector) = create_test_users(&env);
    let (bridge_id, _) = register_all_contracts_mocked(&env);
    let bridge = create_bridge_client(&env, &bridge_id);

    bridge.initialize(&admin, &fee_collector, &50u32, &None);

    let scheduled_hash = bytes32(&env, &[1u8; 32]);
    let wrong_hash = bytes32(&env, &[2u8; 32]);
    let executable_after_ledger = bridge.schedule_upgrade(&scheduled_hash, &None);
    advance_ledger_sequence(&env, executable_after_ledger);

    // Never reaches the wasm swap, so a synthetic (non-uploaded) hash is fine here.
    assert_eq!(
        bridge.try_execute_upgrade(&wrong_hash, &None),
        Err(Ok(BridgeError::UpgradeHashMismatch))
    );
}

#[test]
fn test_execute_upgrade_before_timelock_elapses_fails() {
    let env = Network::default();
    let (admin, _user, fee_collector) = create_test_users(&env);
    let (bridge_id, _) = register_all_contracts_mocked(&env);
    let bridge = create_bridge_client(&env, &bridge_id);

    bridge.initialize(&admin, &fee_collector, &50u32, &None);

    let wasm_hash = bytes32(&env, &[1u8; 32]);
    bridge.schedule_upgrade(&wasm_hash, &None);

    // No ledgers have elapsed since scheduling.
    assert_eq!(
        bridge.try_execute_upgrade(&wasm_hash, &None),
        Err(Ok(BridgeError::UpgradeTimelockActive))
    );
}

#[test]
fn test_execute_upgrade_one_ledger_before_boundary_fails() {
    let env = Network::default();
    let (admin, _user, fee_collector) = create_test_users(&env);
    let (bridge_id, _) = register_all_contracts_mocked(&env);
    let bridge = create_bridge_client(&env, &bridge_id);

    bridge.initialize(&admin, &fee_collector, &50u32, &None);

    let wasm_hash = bytes32(&env, &[1u8; 32]);
    let executable_after_ledger = bridge.schedule_upgrade(&wasm_hash, &None);
    advance_ledger_sequence(&env, executable_after_ledger - 1);

    assert_eq!(
        bridge.try_execute_upgrade(&wasm_hash, &None),
        Err(Ok(BridgeError::UpgradeTimelockActive))
    );
}

#[test]
fn test_execute_upgrade_duplicate_nonce_fails() {
    let env = Network::default();
    let (admin, _user, fee_collector) = create_test_users(&env);
    let (bridge_id, _) = register_all_contracts_mocked(&env);
    let bridge = create_bridge_client(&env, &bridge_id);

    bridge.initialize(&admin, &fee_collector, &50u32, &None);

    let wasm_hash = bytes32(&env, &[1u8; 32]);
    let executable_after_ledger = bridge.schedule_upgrade(&wasm_hash, &None);
    advance_ledger_sequence(&env, executable_after_ledger);

    // The admin's nonce is still 0; passing 1 must be rejected.
    assert_eq!(
        bridge.try_execute_upgrade(&wasm_hash, &Some(1u64)),
        Err(Ok(BridgeError::DuplicateNonce))
    );
}

// --------- Blocklist / Allowlist Tests ---------

fn setup_bridge(env: &Network) -> (Bridge<'_>, Address, Address, Address) {
    let (bridge_id, token_id) = register_all_contracts_mocked(env);
    let bridge = create_bridge_client(env, &bridge_id);
    let (admin, user, fee_collector) = create_test_users(env);
    init_token(env, &token_id, &admin);
    bridge.initialize(&admin, &fee_collector, &0u32, &None);
    bridge.add_asset(&token_id, &None);
    mint_tokens(env, &token_id, &user, 1000i128);
    (bridge, user, token_id, admin)
}

#[test]
fn test_blocklist_prevents_fund() {
    let env = Network::default();
    let (bridge, user, token_id, _admin) = setup_bridge(&env);
    let target = generate(&env);

    bridge.add_to_blocklist(&target, &None);
    assert!(bridge.query_is_blocked(&target));

    assert_eq!(
        bridge.try_fund_c_address(&user, &target, &token_id, &500i128, &None, &None),
        Err(Ok(BridgeError::AddressBlocked))
    );
}

#[test]
fn test_remove_from_blocklist_allows_fund() {
    let env = Network::default();
    let (bridge, user, token_id, _admin) = setup_bridge(&env);
    let target = generate(&env);

    bridge.add_to_blocklist(&target, &None);
    bridge.remove_from_blocklist(&target, &None);
    assert!(!bridge.query_is_blocked(&target));

    bridge.fund_c_address(&user, &target, &token_id, &500i128, &None, &None);
    assert_eq!(check_balance(&env, &token_id, &target), 500i128);
}

#[test]
fn test_allowlist_mode_blocks_non_allowlisted() {
    let env = Network::default();
    let (bridge, user, token_id, _admin) = setup_bridge(&env);
    let target = generate(&env);

    bridge.set_allowlist_mode(&true, &None);
    assert!(bridge.query_allowlist_mode());

    assert_eq!(
        bridge.try_fund_c_address(&user, &target, &token_id, &500i128, &None, &None),
        Err(Ok(BridgeError::AddressNotAllowlisted))
    );
}

#[test]
fn test_allowlist_mode_allows_allowlisted() {
    let env = Network::default();
    let (bridge, user, token_id, _admin) = setup_bridge(&env);
    let target = generate(&env);

    bridge.set_allowlist_mode(&true, &None);
    bridge.add_to_allowlist(&target, &None);
    assert!(bridge.query_is_allowlisted(&target));

    bridge.fund_c_address(&user, &target, &token_id, &500i128, &None, &None);
    assert_eq!(check_balance(&env, &token_id, &target), 500i128);
}

#[test]
fn test_remove_from_allowlist_blocks_in_allowlist_mode() {
    let env = Network::default();
    let (bridge, user, token_id, _admin) = setup_bridge(&env);
    let target = generate(&env);

    bridge.set_allowlist_mode(&true, &None);
    bridge.add_to_allowlist(&target, &None);
    bridge.remove_from_allowlist(&target, &None);
    assert!(!bridge.query_is_allowlisted(&target));

    assert_eq!(
        bridge.try_fund_c_address(&user, &target, &token_id, &500i128, &None, &None),
        Err(Ok(BridgeError::AddressNotAllowlisted))
    );
}

#[test]
fn test_blocklist_overrides_allowlist() {
    let env = Network::default();
    let (bridge, user, token_id, _admin) = setup_bridge(&env);
    let target = generate(&env);

    bridge.set_allowlist_mode(&true, &None);
    bridge.add_to_allowlist(&target, &None);
    bridge.add_to_blocklist(&target, &None);

    assert_eq!(
        bridge.try_fund_c_address(&user, &target, &token_id, &500i128, &None, &None),
        Err(Ok(BridgeError::AddressBlocked))
    );
}

#[test]
fn test_batch_fund_blocked_address_fails() {
    let env = Network::default();
    let (bridge, user, token_id, _admin) = setup_bridge(&env);
    let t1 = generate(&env);
    let t2 = generate(&env);

    bridge.add_to_blocklist(&t2, &None);

    let targets = list_of(&env, [t1.clone(), t2.clone()]);
    let amounts = list_of(&env, [200i128, 300i128]);

    // batch_fund_c_address skips blocked targets (refunding their amount) rather than failing.
    // t1 succeeds, t2 is blocked and refunded to source.
    bridge.batch_fund_c_address(&user, &targets, &amounts, &token_id, &None, &None);
    assert_eq!(check_balance(&env, &token_id, &t2), 0i128);
}

#[test]
fn test_allowlist_mode_off_allows_all() {
    let env = Network::default();
    let (bridge, user, token_id, _admin) = setup_bridge(&env);
    let target = generate(&env);

    // allowlist mode off by default
    assert!(!bridge.query_allowlist_mode());
    bridge.fund_c_address(&user, &target, &token_id, &500i128, &None, &None);
    assert_eq!(check_balance(&env, &token_id, &target), 500i128);
}

// --------- reclaim_tokens Tests ---------

#[test]
fn test_reclaim_accidentally_sent_tokens() {
    let env = Network::default();
    let (bridge, _user, token_id, admin) = setup_bridge(&env);

    // Directly mint tokens to bridge (simulating accidental transfer, no fees accrued)
    mint_tokens(&env, &token_id, &bridge.address, 500i128);

    let destination = generate(&env);
    bridge.reclaim_tokens(&token_id, &500i128, &destination, &None);

    assert_eq!(check_balance(&env, &token_id, &destination), 500i128);
    let _ = admin; // suppress unused warning
}

#[test]
fn test_reclaim_cannot_take_accrued_fees() {
    let env = Network::default();
    let (bridge, user, token_id, _admin) = setup_bridge(&env);

    // Fund so fees (10%) accrue in contract
    bridge.set_fee_bps(&1000u32, &None); // 10%
    let target = generate(&env);
    bridge.fund_c_address(&user, &target, &token_id, &1000i128, &None, &None);
    // contract now holds 100 in accrued fees, 0 reclaimable

    let destination = generate(&env);
    assert_eq!(
        bridge.try_reclaim_tokens(&token_id, &1i128, &destination, &None),
        Err(Ok(BridgeError::InsufficientReclaimable))
    );
}

#[test]
fn test_reclaim_only_excess_over_fees() {
    let env = Network::default();
    let (bridge, user, token_id, _admin) = setup_bridge(&env);

    bridge.set_fee_bps(&1000u32, &None); // 10%
    let target = generate(&env);
    bridge.fund_c_address(&user, &target, &token_id, &1000i128, &None, &None);
    // 100 accrued fees in contract; mint 200 more directly
    mint_tokens(&env, &token_id, &bridge.address, 200i128);

    let destination = generate(&env);
    // Can reclaim exactly 200 (the excess)
    bridge.reclaim_tokens(&token_id, &200i128, &destination, &None);
    assert_eq!(check_balance(&env, &token_id, &destination), 200i128);

    // Cannot reclaim 1 more
    let dest2 = generate(&env);
    assert_eq!(
        bridge.try_reclaim_tokens(&token_id, &1i128, &dest2, &None),
        Err(Ok(BridgeError::InsufficientReclaimable))
    );
}

#[test]
fn test_reclaim_emits_event() {
    let env = Network::default();
    let (bridge, _user, token_id, _admin) = setup_bridge(&env);

    mint_tokens(&env, &token_id, &bridge.address, 300i128);
    let destination = generate(&env);
    bridge.reclaim_tokens(&token_id, &300i128, &destination, &None);

    let events = env.all_events();
    let (contract_id, _topics, _data) = &events.get(events.len() - 1).unwrap();
    assert_eq!(contract_id, &bridge.address);
}

#[test]
fn test_reclaim_cannot_drain_active_timelocks() {
    let env = Network::default();
    env.ledger().set_timestamp(1_000);
    let (bridge, user, token_id, _admin) = setup_bridge(&env);
    let target = generate(&env);
    let destination = generate(&env);

    // 500 tokens locked in an unclaimed timelock; nothing else in the balance.
    let release_time = 1_100u64;
    let id = bridge.fund_c_address_timelocked(
        &user,
        &target,
        &token_id,
        &500i128,
        &release_time,
        &0u64,
        &None,
        &None,
    );
    assert_eq!(check_balance(&env, &token_id, &bridge.address), 500i128);

    // Locked funds cannot be reclaimed at all before the timelock is claimed.
    assert_eq!(
        bridge.try_reclaim_tokens(&token_id, &1i128, &destination, &None),
        Err(Ok(BridgeError::InsufficientReclaimable))
    );

    // Tokens sent to the contract by accident, on top of the locked timelock,
    // remain reclaimable up to the excess only.
    mint_tokens(&env, &token_id, &bridge.address, 200i128);
    bridge.reclaim_tokens(&token_id, &200i128, &destination, &None);
    assert_eq!(check_balance(&env, &token_id, &destination), 200i128);
    assert_eq!(
        bridge.try_reclaim_tokens(&token_id, &1i128, &destination, &None),
        Err(Ok(BridgeError::InsufficientReclaimable))
    );

    // Once claimed, the timelocked amount leaves the contract balance and is
    // no longer ring-fenced: freshly accidental tokens are reclaimable again.
    advance_ledger_time(&env, release_time + 1);
    bridge.claim_timelocked(&id);
    mint_tokens(&env, &token_id, &bridge.address, 50i128);
    bridge.reclaim_tokens(&token_id, &50i128, &destination, &None);
}

#[test]
fn test_reclaim_cannot_drain_active_commitments() {
    let env = Network::default();
    env.ledger().set_timestamp(1_000);
    let (bridge, user, token_id, _admin) = setup_bridge(&env);
    let target = generate(&env);
    let destination = generate(&env);

    // commit_fund never transfers tokens into the contract up front - the
    // actual transfer happens atomically inside reveal_fund - so an
    // unrevealed commitment holds no contract balance to protect.
    let amount_hash: Bytes32 =
        sha256(&env, &[0u8; 24]);
    bridge.commit_fund(&user, &target, &token_id, &amount_hash, &2_000u64);

    // Tokens sent to the contract are fully reclaimable; the pending
    // commitment does not reduce the reclaimable amount.
    mint_tokens(&env, &token_id, &bridge.address, 300i128);
    bridge.reclaim_tokens(&token_id, &300i128, &destination, &None);
    assert_eq!(check_balance(&env, &token_id, &destination), 300i128);
}

// Commit-reveal (reveal_fund) tests

#[test]
fn test_reveal_fund_mints_loyalty() {
    let env = Network::default();
    env.ledger().set_timestamp(1_000);
    let (bridge, user, token_id, admin) = setup_bridge(&env);
    let target = generate(&env);

    let loyalty_token_id = generate(&env);
    init_token(&env, &loyalty_token_id, &admin);
    bridge.set_loyalty_token(&loyalty_token_id, &8i128);
    mint_tokens(&env, &loyalty_token_id, &bridge.address, 1_000i128);

    let amount: i128 = 500;
    let nonce: u64 = 1;
    let amount_hash = commit_reveal_amount_hash(&env, amount, nonce);

    let id = bridge.commit_fund(&user, &target, &token_id, &amount_hash, &10_000u64);
    env.ledger().set_sequence_number(10);

    bridge.reveal_fund(&id, &user, &target, &token_id, &amount, &nonce);

    assert_eq!(check_balance(&env, &loyalty_token_id, &user), 8i128);
}

#[test]
fn test_reveal_fund_rejects_below_minimum() {
    let env = Network::default();
    env.ledger().set_timestamp(1_000);
    let (bridge, user, token_id, _admin) = setup_bridge(&env);
    let target = generate(&env);

    bridge.set_minimum_amount(&100i128, &None);

    let amount: i128 = 50; // below the configured minimum of 100
    let nonce: u64 = 1;
    let amount_hash = commit_reveal_amount_hash(&env, amount, nonce);

    let id = bridge.commit_fund(&user, &target, &token_id, &amount_hash, &10_000u64);
    env.ledger().set_sequence_number(10);

    assert_eq!(
        bridge.try_reveal_fund(&id, &user, &target, &token_id, &amount, &nonce),
        Err(Ok(BridgeError::InvalidAmount))
    );
}

// Asset whitelist tests

#[test]
fn test_add_asset_whitelists_it() {
    let env = Network::default();
    let (admin, _user, fee_collector) = create_test_users(&env);
    let (bridge_id, token_id) = register_all_contracts_mocked(&env);
    let bridge = create_bridge_client(&env, &bridge_id);

    bridge.initialize(&admin, &fee_collector, &50u32, &None);
    assert_eq!(bridge.query_is_asset_whitelisted(&token_id), false);

    bridge.add_asset(&token_id, &None);
    assert_eq!(bridge.query_is_asset_whitelisted(&token_id), true);
}

#[test]
fn test_remove_asset() {
    let env = Network::default();
    let (admin, _user, fee_collector) = create_test_users(&env);
    let (bridge_id, token_id) = register_all_contracts_mocked(&env);
    let bridge = create_bridge_client(&env, &bridge_id);

    bridge.initialize(&admin, &fee_collector, &50u32, &None);
    bridge.add_asset(&token_id, &None);
    assert_eq!(bridge.query_is_asset_whitelisted(&token_id), true);

    bridge.remove_asset(&token_id, &None);
    assert_eq!(bridge.query_is_asset_whitelisted(&token_id), false);
}

#[test]
fn test_query_whitelisted_assets() {
    let env = Network::default();
    let (admin, _user, fee_collector) = create_test_users(&env);
    let (bridge_id, _) = register_all_contracts_mocked(&env);
    let bridge = create_bridge_client(&env, &bridge_id);

    bridge.initialize(&admin, &fee_collector, &50u32, &None);

    let asset1 = generate(&env);
    let asset2 = generate(&env);
    bridge.add_asset(&asset1, &None);
    bridge.add_asset(&asset2, &None);

    let assets = bridge.query_whitelisted_assets(&0u32, &100u32);
    assert_eq!(assets.len(), 2);

    let mut found1 = false;
    let mut found2 = false;
    for a in assets.iter() {
        if *a == asset1 {
            found1 = true;
        }
        if *a == asset2 {
            found2 = true;
        }
    }
    assert!(found1 && found2);
}

#[test]
fn test_add_asset_is_idempotent() {
    let env = Network::default();
    let (admin, _user, fee_collector) = create_test_users(&env);
    let (bridge_id, token_id) = register_all_contracts_mocked(&env);
    let bridge = create_bridge_client(&env, &bridge_id);

    bridge.initialize(&admin, &fee_collector, &50u32, &None);
    bridge.add_asset(&token_id, &None);
    bridge.add_asset(&token_id, &None);

    assert_eq!(bridge.query_whitelisted_assets(&0u32, &100u32).len(), 1);
}

#[test]
#[should_panic]
fn test_add_asset_non_admin_rejected() {
    let env = Network::default();
    let (admin, _user, fee_collector) = create_test_users(&env);
    let (bridge_id, token_id) = register_all_contracts_mocked(&env);
    let bridge = create_bridge_client(&env, &bridge_id);

    bridge.initialize(&admin, &fee_collector, &50u32, &None);

    env.clear_auths();
    bridge.add_asset(&token_id, &None);
}

#[test]
#[should_panic]
fn test_remove_asset_non_admin_rejected() {
    let env = Network::default();
    let (admin, _user, fee_collector) = create_test_users(&env);
    let (bridge_id, token_id) = register_all_contracts_mocked(&env);
    let bridge = create_bridge_client(&env, &bridge_id);

    bridge.initialize(&admin, &fee_collector, &50u32, &None);
    bridge.add_asset(&token_id, &None);

    env.clear_auths();
    bridge.remove_asset(&token_id, &None);
}

#[test]
fn test_whitelist_query_uninitialized() {
    let env = Network::default();
    let (bridge_id, token_id) = register_all_contracts_mocked(&env);
    let bridge = create_bridge_client(&env, &bridge_id);
    assert_eq!(
        bridge.try_query_is_asset_whitelisted(&token_id),
        Err(Ok(BridgeError::NotInitialized))
    );
}

#[test]
fn test_fund_rejects_non_whitelisted_asset() {
    let env = Network::default();
    let (admin, user, fee_collector) = create_test_users(&env);
    let (bridge_id, token_id) = register_all_contracts_mocked(&env);
    let bridge = create_bridge_client(&env, &bridge_id);
    init_token(&env, &token_id, &admin);

    bridge.initialize(&admin, &fee_collector, &100u32, &None);
    mint_tokens(&env, &token_id, &user, 1000i128);

    let target = generate(&env);
    assert_eq!(
        bridge.try_fund_c_address(&user, &target, &token_id, &500i128, &None, &None),
        Err(Ok(BridgeError::AssetNotWhitelisted))
    );
}

#[test]
fn test_batch_fund_rejects_non_whitelisted_asset() {
    let env = Network::default();
    let (admin, user, fee_collector) = create_test_users(&env);
    let (bridge_id, token_id) = register_all_contracts_mocked(&env);
    let bridge = create_bridge_client(&env, &bridge_id);
    init_token(&env, &token_id, &admin);

    bridge.initialize(&admin, &fee_collector, &100u32, &None);
    mint_tokens(&env, &token_id, &user, 3000i128);

    let target1 = generate(&env);
    let targets = list_of(&env, [target1]);
    let amounts = list_of(&env, [1000i128]);

    assert_eq!(
        bridge.try_batch_fund_c_address(&user, &targets, &amounts, &token_id, &None, &None),
        Err(Ok(BridgeError::AssetNotWhitelisted))
    );
}

// query_all_balances Tests

#[test]
fn test_query_all_balances_returns_contract_balances() {
    let env = Network::default();
    let (admin, _user, fee_collector) = create_test_users(&env);
    let (bridge_id, token_id) = register_all_contracts_mocked(&env);
    let bridge = create_bridge_client(&env, &bridge_id);
    init_token(&env, &token_id, &admin);
    bridge.initialize(&admin, &fee_collector, &0u32, &None);

    // Mint directly to the bridge contract
    mint_tokens(&env, &token_id, &bridge_id, 750i128);

    let assets = list_of(&env, [token_id.clone()]);
    let balances = bridge.query_all_balances(&assets);

    assert_eq!(balances.get(map_key(token_id)).unwrap(), 750i128);
}

#[test]
fn test_query_all_balances_empty_input() {
    let env = Network::default();
    let (admin, _user, fee_collector) = create_test_users(&env);
    let (bridge_id, _token_id) = register_all_contracts_mocked(&env);
    let bridge = create_bridge_client(&env, &bridge_id);
    bridge.initialize(&admin, &fee_collector, &0u32, &None);

    let assets: Vec<Address> = Vec::new();
    let balances = bridge.query_all_balances(&assets);
    assert_eq!(balances.len(), 0);
}

#[test]
fn test_query_all_balances_rejects_oversized_input() {
    let env = Network::default();
    let (admin, _user, fee_collector) = create_test_users(&env);
    let (bridge_id, _token_id) = register_all_contracts_mocked(&env);
    let bridge = create_bridge_client(&env, &bridge_id);
    bridge.initialize(&admin, &fee_collector, &0u32, &None);

    // MAX_BATCH_SIZE is 100 - one more than that must be rejected.
    let mut assets: Vec<Address> = Vec::new();
    for _ in 0..101 {
        assets.push(generate(&env));
    }
    assert_eq!(
        bridge.try_query_all_balances(&assets),
        Err(Ok(BridgeError::BatchTooLarge))
    );

    // Exactly MAX_BATCH_SIZE is accepted.
    assets.pop();
    assert_eq!(bridge.query_all_balances(&assets).len(), 100);
}

#[test]
fn test_query_whitelisted_assets_pagination() {
    let env = Network::default();
    let (admin, _user, fee_collector) = create_test_users(&env);
    let (bridge_id, _) = register_all_contracts_mocked(&env);
    let bridge = create_bridge_client(&env, &bridge_id);
    bridge.initialize(&admin, &fee_collector, &50u32, &None);

    for _ in 0..5 {
        bridge.add_asset(&generate(&env), &None);
    }

    let page1 = bridge.query_whitelisted_assets(&0u32, &2u32);
    assert_eq!(page1.len(), 2);
    let page2 = bridge.query_whitelisted_assets(&2u32, &2u32);
    assert_eq!(page2.len(), 2);
    let page3 = bridge.query_whitelisted_assets(&4u32, &2u32);
    assert_eq!(page3.len(), 1);
    // Offset past the end returns an empty page rather than erroring.
    let page4 = bridge.query_whitelisted_assets(&5u32, &2u32);
    assert_eq!(page4.len(), 0);

    // A limit above MAX_BATCH_SIZE is silently clamped, not rejected.
    let clamped = bridge.query_whitelisted_assets(&0u32, &1000u32);
    assert_eq!(clamped.len(), 5);
}

#[test]
fn test_accrued_fees_single_deposit() {
    let env = Network::default();
    let (admin, user, fee_collector) = create_test_users(&env);
    let (bridge_id, token_id) = register_all_contracts_mocked(&env);
    let bridge = create_bridge_client(&env, &bridge_id);
    init_token(&env, &token_id, &admin);

    bridge.initialize(&admin, &fee_collector, &100u32, &None);
    bridge.add_asset(&token_id, &None);
    mint_tokens(&env, &token_id, &user, 1000i128);

    let target = generate(&env);
    bridge.fund_c_address(&user, &target, &token_id, &500i128, &None, &None);

    // 500 * 100 / 10000 = 5
    assert_eq!(bridge.query_accrued_fees(&token_id), 5i128);
}

#[test]
fn test_accrued_fees_accumulate_across_deposits() {
    let env = Network::default();
    let (admin, user, fee_collector) = create_test_users(&env);
    let (bridge_id, token_id) = register_all_contracts_mocked(&env);
    let bridge = create_bridge_client(&env, &bridge_id);
    init_token(&env, &token_id, &admin);

    bridge.initialize(&admin, &fee_collector, &100u32, &None);
    bridge.add_asset(&token_id, &None);
    mint_tokens(&env, &token_id, &user, 3000i128);

    let target = generate(&env);
    bridge.fund_c_address(&user, &target, &token_id, &500i128, &None, &None); // fee = 5
    bridge.fund_c_address(&user, &target, &token_id, &1000i128, &None, &None); // fee = 10

    assert_eq!(bridge.query_accrued_fees(&token_id), 15i128);
}

#[test]
fn test_accrued_fees_batch_accumulate() {
    let env = Network::default();
    let (admin, user, fee_collector) = create_test_users(&env);
    let (bridge_id, token_id) = register_all_contracts_mocked(&env);
    let bridge = create_bridge_client(&env, &bridge_id);
    init_token(&env, &token_id, &admin);

    bridge.initialize(&admin, &fee_collector, &100u32, &None);
    bridge.add_asset(&token_id, &None);
    mint_tokens(&env, &token_id, &user, 3000i128);

    let target1 = generate(&env);
    let target2 = generate(&env);
    let targets = list_of(&env, [target1.clone(), target2.clone()]);
    let amounts = list_of(&env, [1000i128, 500i128]);

    bridge.batch_fund_c_address(&user, &targets, &amounts, &token_id, &None, &None);

    // 1000*100/10000 + 500*100/10000 = 10 + 5 = 15
    assert_eq!(bridge.query_accrued_fees(&token_id), 15i128);
}

#[test]
fn test_withdraw_fees_decrements_accrued() {
    let env = Network::default();
    let (admin, user, fee_collector) = create_test_users(&env);
    let (bridge_id, token_id) = register_all_contracts_mocked(&env);
    let bridge = create_bridge_client(&env, &bridge_id);
    init_token(&env, &token_id, &admin);

    bridge.initialize(&admin, &fee_collector, &100u32, &None);
    bridge.add_asset(&token_id, &None);
    mint_tokens(&env, &token_id, &user, 1000i128);

    let target = generate(&env);
    bridge.fund_c_address(&user, &target, &token_id, &500i128, &None, &None); // accrued = 5

    bridge.withdraw_fees(&token_id, &3i128, &None);

    assert_eq!(bridge.query_accrued_fees(&token_id), 2i128);
    assert_eq!(check_balance(&env, &token_id, &fee_collector), 3i128);
}

#[test]
fn test_withdraw_fees_exceeds_accrued() {
    let env = Network::default();
    let (admin, user, fee_collector) = create_test_users(&env);
    let (bridge_id, token_id) = register_all_contracts_mocked(&env);
    let bridge = create_bridge_client(&env, &bridge_id);
    init_token(&env, &token_id, &admin);

    bridge.initialize(&admin, &fee_collector, &100u32, &None);
    bridge.add_asset(&token_id, &None);
    mint_tokens(&env, &token_id, &user, 1000i128);

    let target = generate(&env);
    bridge.fund_c_address(&user, &target, &token_id, &500i128, &None, &None); // accrued = 5

    assert_eq!(
        bridge.try_withdraw_fees(&token_id, &6i128, &None),
        Err(Ok(BridgeError::InsufficientReclaimable))
    );
}

#[test]
fn test_zero_fee_no_accrued_entry() {
    let env = Network::default();
    let (admin, user, fee_collector) = create_test_users(&env);
    let (bridge_id, token_id) = register_all_contracts_mocked(&env);
    let bridge = create_bridge_client(&env, &bridge_id);
    init_token(&env, &token_id, &admin);

    bridge.initialize(&admin, &fee_collector, &0u32, &None);
    bridge.add_asset(&token_id, &None);
    mint_tokens(&env, &token_id, &user, 1000i128);

    let target = generate(&env);
    bridge.fund_c_address(&user, &target, &token_id, &500i128, &None, &None);

    assert_eq!(bridge.query_accrued_fees(&token_id), 0i128);
}

// fund_c_address_with_swap tests

fn setup_swap(
    env: &Network,
) -> (
    Bridge<'_>,
    Address,
    Address,
    Address,
) {
    let (admin, user, fee_collector) = create_test_users(env);
    let (bridge_id, source_token_id) = register_all_contracts_mocked(env);
    let bridge = create_bridge_client(env, &bridge_id);
    init_token(env, &source_token_id, &admin);

    let target_token_id = generate(env);
    init_token(env, &target_token_id, &admin);

    bridge.initialize(&admin, &fee_collector, &0u32, &None);
    bridge.add_asset(&target_token_id, &None);
    mint_tokens(env, &source_token_id, &user, 1_000i128);

    (bridge, user, source_token_id, target_token_id)
}

#[test]
fn test_swap_rejects_non_whitelisted_pool() {
    let env = Network::default();
    let (bridge, user, source_token_id, target_token_id) = setup_swap(&env);

    // A pool that would happily perform the swap, but was never whitelisted.
    let pool_id = register_pool(&env);
    initialize_pool(&env, &pool_id, &source_token_id, &target_token_id, 1i128);
    mint_tokens(&env, &target_token_id, &pool_id, 10_000i128);

    let target = generate(&env);
    let swap_route = list_of(&env, [pool_id]);

    assert_eq!(
        bridge.try_fund_c_address_with_swap(
            &user,
            &target,
            &source_token_id,
            &target_token_id,
            &500i128,
            &400i128,
            &swap_route,
            &None,
            &None,
        ),
        Err(Ok(BridgeError::PoolNotWhitelisted))
    );
    // Nothing was pulled from the user since the whitelist check runs first.
    assert_eq!(check_balance(&env, &source_token_id, &user), 1_000i128);
}

#[test]
fn test_swap_multi_hop_route_rejected() {
    let env = Network::default();
    let (bridge, user, source_token_id, target_token_id) = setup_swap(&env);

    let pool1_id = register_pool(&env);
    let pool2_id = register_pool(&env);
    bridge.add_swap_pool(&pool1_id, &None);
    bridge.add_swap_pool(&pool2_id, &None);

    let target = generate(&env);
    // Even though both pools are whitelisted, multi-hop routes must be rejected
    // rather than silently miscomputing which token the intermediate hop holds.
    let swap_route = list_of(&env, [pool1_id, pool2_id]);

    assert_eq!(
        bridge.try_fund_c_address_with_swap(
            &user,
            &target,
            &source_token_id,
            &target_token_id,
            &500i128,
            &400i128,
            &swap_route,
            &None,
            &None,
        ),
        Err(Ok(BridgeError::MultiHopNotSupported))
    );
}

#[test]
fn test_swap_happy_path_single_hop() {
    let env = Network::default();
    let (bridge, user, source_token_id, target_token_id) = setup_swap(&env);

    let pool_id = register_pool(&env);
    initialize_pool(&env, &pool_id, &source_token_id, &target_token_id, 1i128);
    mint_tokens(&env, &target_token_id, &pool_id, 10_000i128);
    bridge.add_swap_pool(&pool_id, &None);

    let target = generate(&env);
    let swap_route = list_of(&env, [pool_id]);

    bridge.fund_c_address_with_swap(
        &user,
        &target,
        &source_token_id,
        &target_token_id,
        &500i128,
        &400i128,
        &swap_route,
        &None,
        &None,
    );

    assert_eq!(check_balance(&env, &target_token_id, &target), 500i128);
}

#[test]
fn test_swap_nonce_replay_rejected() {
    let env = Network::default();
    let (bridge, user, source_token_id, target_token_id) = setup_swap(&env);

    let pool_id = register_pool(&env);
    initialize_pool(&env, &pool_id, &source_token_id, &target_token_id, 1i128);
    mint_tokens(&env, &target_token_id, &pool_id, 10_000i128);
    bridge.add_swap_pool(&pool_id, &None);

    let target = generate(&env);
    let swap_route = list_of(&env, [pool_id]);

    bridge.fund_c_address_with_swap(
        &user,
        &target,
        &source_token_id,
        &target_token_id,
        &500i128,
        &400i128,
        &swap_route,
        &Some(0u64),
        &None,
    );
    assert_eq!(bridge.query_nonce(&user), 1u64);

    // Reusing nonce=0 is rejected.
    let target2 = generate(&env);
    assert_eq!(
        bridge.try_fund_c_address_with_swap(
            &user,
            &target2,
            &source_token_id,
            &target_token_id,
            &500i128,
            &400i128,
            &swap_route,
            &Some(0u64),
            &None,
        ),
        Err(Ok(BridgeError::DuplicateNonce))
    );
}

#[test]
fn test_swap_deadline_expired_reverts() {
    let env = Network::default();
    env.ledger().set_timestamp(2_000);
    let (bridge, user, source_token_id, target_token_id) = setup_swap(&env);

    let pool_id = register_pool(&env);
    initialize_pool(&env, &pool_id, &source_token_id, &target_token_id, 1i128);
    mint_tokens(&env, &target_token_id, &pool_id, 10_000i128);
    bridge.add_swap_pool(&pool_id, &None);

    let target = generate(&env);
    let swap_route = list_of(&env, [pool_id]);

    assert_eq!(
        bridge.try_fund_c_address_with_swap(
            &user,
            &target,
            &source_token_id,
            &target_token_id,
            &500i128,
            &400i128,
            &swap_route,
            &None,
            &Some(1_999u64),
        ),
        Err(Ok(BridgeError::TransactionExpired))
    );
    // Nothing was pulled from the user since the deadline check runs first.
    assert_eq!(check_balance(&env, &source_token_id, &user), 1_000i128);
}

#[test]
fn test_swap_deadline_in_future_passes() {
    let env = Network::default();
    env.ledger().set_timestamp(2_000);
    let (bridge, user, source_token_id, target_token_id) = setup_swap(&env);

    let pool_id = register_pool(&env);
    initialize_pool(&env, &pool_id, &source_token_id, &target_token_id, 1i128);
    mint_tokens(&env, &target_token_id, &pool_id, 10_000i128);
    bridge.add_swap_pool(&pool_id, &None);

    let target = generate(&env);
    let swap_route = list_of(&env, [pool_id]);

    bridge.fund_c_address_with_swap(
        &user,
        &target,
        &source_token_id,
        &target_token_id,
        &500i128,
        &400i128,
        &swap_route,
        &None,
        &Some(3_000u64),
    );
    assert_eq!(check_balance(&env, &target_token_id, &target), 500i128);
}

#[test]
fn test_swap_slippage_exceeded_fails() {
    let env = Network::default();
    let (bridge, user, source_token_id, target_token_id) = setup_swap(&env);

    let pool_id = register_pool(&env);
    initialize_pool(&env, &pool_id, &source_token_id, &target_token_id, 1i128);
    mint_tokens(&env, &target_token_id, &pool_id, 10_000i128);
    bridge.add_swap_pool(&pool_id, &None);

    let target = generate(&env);
    let swap_route = list_of(&env, [pool_id]);

    // min_target_amount (600) > actual output (500 * 1 = 500) -> slippage exceeded.
    // The pool returns 500 without transferring when min_amount_out isn't met;
    // the bridge then detects 500 < 600 and rejects.
    assert_eq!(
        bridge.try_fund_c_address_with_swap(
            &user,
            &target,
            &source_token_id,
            &target_token_id,
            &500i128,
            &600i128,
            &swap_route,
            &None,
            &None,
        ),
        Err(Ok(BridgeError::SlippageExceeded))
    );
}

#[test]
fn test_swap_pool_call_failure_reverts() {
    let env = Network::default();
    let (bridge, user, source_token_id, target_token_id) = setup_swap(&env);

    // A pool with rate=0 computes amount_out = amount_in * 0 = 0.
    // The bridge treats zero output as SwapFailed.
    let pool_id = register_pool(&env);
    initialize_pool(&env, &pool_id, &source_token_id, &target_token_id, 0i128);
    mint_tokens(&env, &target_token_id, &pool_id, 10_000i128);
    bridge.add_swap_pool(&pool_id, &None);

    let target = generate(&env);
    let swap_route = list_of(&env, [pool_id]);

    assert_eq!(
        bridge.try_fund_c_address_with_swap(
            &user,
            &target,
            &source_token_id,
            &target_token_id,
            &500i128,
            &1i128,
            &swap_route,
            &None,
            &None,
        ),
        Err(Ok(BridgeError::SwapFailed))
    );
}

// query_calculate_fee tests

#[test]
fn test_query_calculate_fee() {
    let env = Network::default();
    let (admin, _user, fee_collector) = create_test_users(&env);
    let (bridge_id, _) = register_all_contracts_mocked(&env);
    let bridge = create_bridge_client(&env, &bridge_id);

    bridge.initialize(&admin, &fee_collector, &100u32, &None);

    let (fee, net) = bridge.query_calculate_fee(&1000i128);
    assert_eq!(fee, 10i128);
    assert_eq!(net, 990i128);
}

#[test]
fn test_query_calculate_fee_zero_fee() {
    let env = Network::default();
    let (admin, _user, fee_collector) = create_test_users(&env);
    let (bridge_id, _) = register_all_contracts_mocked(&env);
    let bridge = create_bridge_client(&env, &bridge_id);

    bridge.initialize(&admin, &fee_collector, &0u32, &None);

    let (fee, net) = bridge.query_calculate_fee(&1000i128);
    assert_eq!(fee, 0i128);
    assert_eq!(net, 1000i128);
}

#[test]
fn test_query_calculate_fee_max_fee() {
    let env = Network::default();
    let (admin, _user, fee_collector) = create_test_users(&env);
    let (bridge_id, _) = register_all_contracts_mocked(&env);
    let bridge = create_bridge_client(&env, &bridge_id);

    bridge.initialize(&admin, &fee_collector, &1000u32, &None);

    let (fee, net) = bridge.query_calculate_fee(&1000i128);
    assert_eq!(fee, 100i128);
    assert_eq!(net, 900i128);
}

// query_effective_fee tests

#[test]
fn test_query_effective_fee_with_asset_cap() {
    let env = Network::default();
    let (admin, user, fee_collector) = create_test_users(&env);
    let (bridge_id, token_id) = register_all_contracts_mocked(&env);
    let bridge = create_bridge_client(&env, &bridge_id);
    init_token(&env, &token_id, &admin);

    bridge.initialize(&admin, &fee_collector, &500u32, &None);
    bridge.add_asset(&token_id, &None);
    // Set a per-asset cap lower than global fee
    bridge.set_asset_fee_cap(&token_id, &200u32, &None);
    mint_tokens(&env, &token_id, &user, 2000i128);

    let amount = 1000i128;
    let (bps, predicted_fee, predicted_net) =
        bridge.query_effective_fee(&user, &token_id, &amount);

    // Global = 500, cap = 200, so effective = 200
    // fee = 1000 * 200 / 10000 = 20
    assert_eq!(bps, 200u32);
    assert_eq!(predicted_fee, 20i128);
    assert_eq!(predicted_net, 980i128);

    // Verify fund_c_address produces the same fee
    let target = generate(&env);
    bridge.fund_c_address(&user, &target, &token_id, &amount, &None, &None);

    assert_eq!(check_balance(&env, &token_id, &target), predicted_net);
    assert_eq!(check_balance(&env, &token_id, &bridge_id), predicted_fee);
}

#[test]
fn test_query_effective_fee_with_tier_discount() {
    let env = Network::default();
    let (admin, user, fee_collector) = create_test_users(&env);
    let (bridge_id, token_id) = register_all_contracts_mocked(&env);
    let bridge = create_bridge_client(&env, &bridge_id);
    init_token(&env, &token_id, &admin);

    bridge.initialize(&admin, &fee_collector, &500u32, &None);
    bridge.add_asset(&token_id, &None);

    // Set a tier: volume < 5000 -> 100 bps (discounted)
    let tiers = list_of(
        &env,
        [FeeTier {
            min_volume: 0,
            max_volume: 5_000i128,
            fee_bps: 100u32,
        }],
    );
    bridge.set_fee_tiers(&tiers);
    mint_tokens(&env, &token_id, &user, 2000i128);

    let amount = 1000i128;
    let (bps, predicted_fee, predicted_net) =
        bridge.query_effective_fee(&user, &token_id, &amount);

    // Global = 500, tier = 100 (volume 0 < 5000), so effective = 100
    // fee = 1000 * 100 / 10000 = 10
    assert_eq!(bps, 100u32);
    assert_eq!(predicted_fee, 10i128);
    assert_eq!(predicted_net, 990i128);

    // Verify fund_c_address produces the same fee
    let target = generate(&env);
    bridge.fund_c_address(&user, &target, &token_id, &amount, &None, &None);

    assert_eq!(check_balance(&env, &token_id, &target), predicted_net);
    assert_eq!(check_balance(&env, &token_id, &bridge_id), 10i128);
}

#[test]
fn test_query_effective_fee_with_cap_and_tier() {
    let env = Network::default();
    let (admin, user, fee_collector) = create_test_users(&env);
    let (bridge_id, token_id) = register_all_contracts_mocked(&env);
    let bridge = create_bridge_client(&env, &bridge_id);
    init_token(&env, &token_id, &admin);

    bridge.initialize(&admin, &fee_collector, &500u32, &None);
    bridge.add_asset(&token_id, &None);

    // Tier: volume < 5000 -> 200 bps
    let tiers = list_of(
        &env,
        [FeeTier {
            min_volume: 0,
            max_volume: 5_000i128,
            fee_bps: 200u32,
        }],
    );
    bridge.set_fee_tiers(&tiers);
    // Cap at 150 bps (below tier rate)
    bridge.set_asset_fee_cap(&token_id, &150u32, &None);
    mint_tokens(&env, &token_id, &user, 2000i128);

    let amount = 1000i128;
    let (bps, predicted_fee, predicted_net) =
        bridge.query_effective_fee(&user, &token_id, &amount);

    // Global = 500, tier = 200, cap = 150, so effective = 150
    // fee = 1000 * 150 / 10000 = 15
    assert_eq!(bps, 150u32);
    assert_eq!(predicted_fee, 15i128);
    assert_eq!(predicted_net, 985i128);

    // Verify fund_c_address produces the same fee
    let target = generate(&env);
    bridge.fund_c_address(&user, &target, &token_id, &amount, &None, &None);

    assert_eq!(check_balance(&env, &token_id, &target), predicted_net);
    assert_eq!(check_balance(&env, &token_id, &bridge_id), predicted_fee);
}

// cumulative counters tests

#[test]
fn test_query_total_bridged_and_fees_collected() {
    let env = Network::default();
    let (admin, user, fee_collector) = create_test_users(&env);
    let (bridge_id, token_id) = register_all_contracts_mocked(&env);
    let bridge = create_bridge_client(&env, &bridge_id);
    init_token(&env, &token_id, &admin);

    bridge.initialize(&admin, &fee_collector, &100u32, &None);
    bridge.add_asset(&token_id, &None);
    mint_tokens(&env, &token_id, &user, 1000i128);

    let target = generate(&env);
    bridge.fund_c_address(&user, &target, &token_id, &500i128, &None, &None);

    let total_bridged = bridge.query_total_bridged(&token_id);
    let total_fees = bridge.query_total_fees_collected(&token_id);

    assert_eq!(total_bridged, 495i128);
    assert_eq!(total_fees, 5i128);
}

#[test]
fn test_query_total_bridged_accumulates() {
    let env = Network::default();
    let (admin, user, fee_collector) = create_test_users(&env);
    let (bridge_id, token_id) = register_all_contracts_mocked(&env);
    let bridge = create_bridge_client(&env, &bridge_id);
    init_token(&env, &token_id, &admin);

    bridge.initialize(&admin, &fee_collector, &50u32, &None);
    bridge.add_asset(&token_id, &None);
    mint_tokens(&env, &token_id, &user, 5000i128);

    let target1 = generate(&env);
    let target2 = generate(&env);

    bridge.fund_c_address(&user, &target1, &token_id, &1000i128, &None, &None);
    bridge.fund_c_address(&user, &target2, &token_id, &1000i128, &None, &None);

    let total_bridged = bridge.query_total_bridged(&token_id);
    let total_fees = bridge.query_total_fees_collected(&token_id);

    assert_eq!(total_bridged, 1990i128);
    assert_eq!(total_fees, 10i128);
}

#[test]
fn test_query_total_bridged_batch() {
    let env = Network::default();
    let (admin, user, fee_collector) = create_test_users(&env);
    let (bridge_id, token_id) = register_all_contracts_mocked(&env);
    let bridge = create_bridge_client(&env, &bridge_id);
    init_token(&env, &token_id, &admin);

    bridge.initialize(&admin, &fee_collector, &100u32, &None);
    bridge.add_asset(&token_id, &None);
    mint_tokens(&env, &token_id, &user, 3000i128);

    let target1 = generate(&env);
    let target2 = generate(&env);
    let targets = list_of(&env, [target1, target2]);
    let amounts = list_of(&env, [1000i128, 500i128]);

    bridge.batch_fund_c_address(&user, &targets, &amounts, &token_id, &None, &None);

    let total_bridged = bridge.query_total_bridged(&token_id);
    let total_fees = bridge.query_total_fees_collected(&token_id);

    assert_eq!(total_bridged, 1485i128);
    assert_eq!(total_fees, 15i128);
}

#[test]
fn test_query_total_bridged_zero() {
    let env = Network::default();
    let (admin, _user, fee_collector) = create_test_users(&env);
    let (bridge_id, token_id) = register_all_contracts_mocked(&env);
    let bridge = create_bridge_client(&env, &bridge_id);

    bridge.initialize(&admin, &fee_collector, &50u32, &None);

    let total_bridged = bridge.query_total_bridged(&token_id);
    let total_fees = bridge.query_total_fees_collected(&token_id);

    assert_eq!(total_bridged, 0i128);
    assert_eq!(total_fees, 0i128);
}

// admin state change events tests

#[test]
fn test_initialize_emits_event() {
    let env = Network::default();
    let (admin, _user, fee_collector) = create_test_users(&env);
    let (bridge_id, _) = register_all_contracts_mocked(&env);
    let bridge = create_bridge_client(&env, &bridge_id);

    bridge.initialize(&admin, &fee_collector, &50u32, &None);

    let events = env.all_events();
    let (contract_id, _topics, _data) = &events.get(events.len() - 1).unwrap();
    assert_eq!(contract_id, &bridge_id);
}

#[test]
fn test_fee_bps_changed_emits_event() {
    let env = Network::default();
    let (admin, _user, fee_collector) = create_test_users(&env);
    let (bridge_id, _) = register_all_contracts_mocked(&env);
    let bridge = create_bridge_client(&env, &bridge_id);

    bridge.initialize(&admin, &fee_collector, &50u32, &None);
    bridge.set_fee_bps(&100u32, &None);

    let events = env.all_events();
    let (contract_id, _topics, _data) = &events.get(events.len() - 1).unwrap();
    assert_eq!(contract_id, &bridge_id);
}

#[test]
fn test_fee_collector_changed_emits_event() {
    let env = Network::default();
    let (admin, _user, fee_collector) = create_test_users(&env);
    let (bridge_id, _) = register_all_contracts_mocked(&env);
    let bridge = create_bridge_client(&env, &bridge_id);

    bridge.initialize(&admin, &fee_collector, &50u32, &None);
    let new_collector = generate(&env);
    bridge.set_fee_collector(&new_collector, &None);

    let events = env.all_events();
    let (contract_id, _topics, _data) = &events.get(events.len() - 1).unwrap();
    assert_eq!(contract_id, &bridge_id);
}

#[test]
fn test_admin_changed_emits_event() {
    let env = Network::default();
    let (admin, _user, fee_collector) = create_test_users(&env);
    let (bridge_id, _) = register_all_contracts_mocked(&env);
    let bridge = create_bridge_client(&env, &bridge_id);

    bridge.initialize(&admin, &fee_collector, &50u32, &None);
    let new_admin = generate(&env);
    bridge.set_admin(&new_admin, &None);

    let events = env.all_events();
    let (contract_id, _topics, _data) = &events.get(events.len() - 1).unwrap();
    assert_eq!(contract_id, &bridge_id);
}

// --------- batch_fund_c_address edge case tests ---------

fn setup_batch(env: &Network) -> (Bridge<'_>, Address, Address, Address) {
    let (bridge_id, token_id) = register_all_contracts_mocked(env);
    let bridge = create_bridge_client(env, &bridge_id);
    let (admin, user, fee_collector) = create_test_users(env);
    init_token(env, &token_id, &admin);
    bridge.initialize(&admin, &fee_collector, &100u32, &None); // 1% fee
    bridge.add_asset(&token_id, &None);
    mint_tokens(env, &token_id, &user, 1_000_000i128);
    (bridge, user, token_id, admin)
}

/// Empty targets array - returns Ok immediately, no BatchCompleted event.
#[test]
fn test_batch_empty_array_no_events() {
    let env = Network::default();
    let (bridge, user, token_id, _) = setup_batch(&env);
    let event_count_before = env.all_events().len();

    let targets: Vec<Address> = Vec::new();
    let amounts: Vec<i128> = Vec::new();
    bridge.batch_fund_c_address(&user, &targets, &amounts, &token_id, &None, &None);

    // No new events emitted - the contract returns early before even emitting BatchCompleted.
    assert_eq!(env.all_events().len(), event_count_before);
    // Source balance unchanged.
    assert_eq!(check_balance(&env, &token_id, &user), 1_000_000i128);
}

/// Single target - boundary case; correct fee and CAddressFunded + BatchCompleted events.
#[test]
fn test_batch_single_target() {
    let env = Network::default();
    let (bridge, user, token_id, _) = setup_batch(&env);
    let bridge_id = bridge.address.clone();

    let target = generate(&env);
    let targets = list_of(&env, [target.clone()]);
    let amounts = list_of(&env, [1000i128]);
    bridge.batch_fund_c_address(&user, &targets, &amounts, &token_id, &None, &None);

    // Check events BEFORE any additional contract calls that may reset the event log.
    assert_eq!(count_events_with_topic(&env, &bridge_id, "CAddressFunded"), 1);
    assert_eq!(count_events_with_topic(&env, &bridge_id, "BatchCompleted"), 1);

    assert_eq!(check_balance(&env, &token_id, &target), 990i128); // 1% fee
    assert_eq!(check_balance(&env, &token_id, &user), 999_000i128);
}

/// Duplicate target addresses - each entry is processed independently.
#[test]
fn test_batch_duplicate_targets() {
    let env = Network::default();
    let (bridge, user, token_id, _) = setup_batch(&env);
    let bridge_id = bridge.address.clone();

    let target = generate(&env);
    let targets = list_of(&env, [target.clone(), target.clone(), target.clone()]);
    let amounts = list_of(&env, [1000i128, 2000i128, 3000i128]);
    bridge.batch_fund_c_address(&user, &targets, &amounts, &token_id, &None, &None);

    assert_eq!(count_events_with_topic(&env, &bridge_id, "CAddressFunded"), 3);
    assert_eq!(count_events_with_topic(&env, &bridge_id, "BatchCompleted"), 1);
    // Net: 990 + 1980 + 2970 = 5940
    assert_eq!(check_balance(&env, &token_id, &target), 5940i128);
}

/// Target is same as source - source receives net amount back (self-fund).
#[test]
fn test_batch_target_is_source() {
    let env = Network::default();
    let (bridge, user, token_id, _) = setup_batch(&env);
    let bridge_id = bridge.address.clone();

    // user sends 1000 to themselves; they pay fee, so net back is 990.
    let targets = list_of(&env, [user.clone()]);
    let amounts = list_of(&env, [1000i128]);
    bridge.batch_fund_c_address(&user, &targets, &amounts, &token_id, &None, &None);

    assert_eq!(count_events_with_topic(&env, &bridge_id, "CAddressFunded"), 1);
    assert_eq!(count_events_with_topic(&env, &bridge_id, "BatchCompleted"), 1);
    // Started with 1_000_000. Paid 1000, received 990. Net: 999_990.
    assert_eq!(check_balance(&env, &token_id, &user), 999_990i128);
}

/// Target is the contract itself - contract receives the net amount.
#[test]
fn test_batch_target_is_contract() {
    let env = Network::default();
    let (bridge, user, token_id, _) = setup_batch(&env);
    let bridge_id = bridge.address.clone();

    let targets = list_of(&env, [bridge_id.clone()]);
    let amounts = list_of(&env, [1000i128]);
    bridge.batch_fund_c_address(&user, &targets, &amounts, &token_id, &None, &None);

    assert_eq!(count_events_with_topic(&env, &bridge_id, "CAddressFunded"), 1);
    assert_eq!(count_events_with_topic(&env, &bridge_id, "BatchCompleted"), 1);
    // Contract should hold 1000 total (990 transferred to itself as target + 10 accrued fee).
    assert_eq!(check_balance(&env, &token_id, &bridge_id), 1000i128);
}

/// Zero amount in array - rejected with InvalidAmount before any transfer.
#[test]
fn test_batch_zero_amount_rejected() {
    let env = Network::default();
    let (bridge, user, token_id, _) = setup_batch(&env);

    let t1 = generate(&env);
    let t2 = generate(&env);
    let targets = list_of(&env, [t1.clone(), t2.clone()]);
    let amounts = list_of(&env, [500i128, 0i128]);

    assert_eq!(
        bridge.try_batch_fund_c_address(&user, &targets, &amounts, &token_id, &None, &None),
        Err(Ok(BridgeError::InvalidAmount))
    );
    // No tokens moved - user balance intact.
    assert_eq!(check_balance(&env, &token_id, &user), 1_000_000i128);
    assert_eq!(check_balance(&env, &token_id, &t1), 0i128);
}

/// Negative amount in array - also rejected as InvalidAmount.
#[test]
fn test_batch_negative_amount_rejected() {
    let env = Network::default();
    let (bridge, user, token_id, _) = setup_batch(&env);

    let target = generate(&env);
    let targets = list_of(&env, [target]);
    let amounts = list_of(&env, [-1i128]);

    assert_eq!(
        bridge.try_batch_fund_c_address(&user, &targets, &amounts, &token_id, &None, &None),
        Err(Ok(BridgeError::InvalidAmount))
    );
    assert_eq!(check_balance(&env, &token_id, &user), 1_000_000i128);
}

/// Fee causes net_amount == 0 - transfer is skipped, fee still accrues.
/// At 1000 bps (10%), an amount of 9 -> fee=0 (rounds down), net=9, transfer happens.
/// At 1000 bps, amount=1 -> fee=0 (1*1000/10000 = 0), net=1.
/// To get net==0 we need fee_bps=10000 which exceeds max. Instead, use fee_bps=1000 and
/// amount=1: fee = 1*1000/10000 = 0, net = 1. Can't get net=0 with valid fee_bps.
/// The contract MAX_FEE_BPS is 1000 (10%), so with amount=1: fee=0, net=1.
/// With amount=9 and fee_bps=1000: fee=0, net=9.
/// The only way net rounds to 0 is if the math rounds to exactly amount.
/// This is mathematically impossible with fee_bps <= 1000 for integer amount >= 1.
/// Test documents this invariant: net is always > 0 for any valid input.
#[test]
fn test_batch_fee_never_produces_zero_net_within_max_fee_bps() {
    let env = Network::default();
    let (bridge, user, token_id, admin) = setup_batch(&env);
    let bridge_id = bridge.address.clone();

    // Set max fee 1000 bps (10%).
    bridge.set_fee_bps(&1000u32, &None);

    // Amount=1: fee = 1*1000/10000 = 0, net = 1. Transfer happens.
    let target = generate(&env);
    let targets = list_of(&env, [target.clone()]);
    let amounts = list_of(&env, [1i128]);
    bridge.batch_fund_c_address(&user, &targets, &amounts, &token_id, &None, &None);

    assert_eq!(count_events_with_topic(&env, &bridge_id, "CAddressFunded"), 1);
    assert_eq!(check_balance(&env, &token_id, &target), 1i128);
    let _ = admin;
}

/// Mismatched arrays - rejected with MismatchedArrays.
#[test]
fn test_batch_mismatched_arrays() {
    let env = Network::default();
    let (bridge, user, token_id, _) = setup_batch(&env);

    let t1 = generate(&env);
    let targets = list_of(&env, [t1]);
    let amounts = list_of(&env, [500i128, 300i128]);

    assert_eq!(
        bridge.try_batch_fund_c_address(&user, &targets, &amounts, &token_id, &None, &None),
        Err(Ok(BridgeError::MismatchedArrays))
    );
}

/// Blocked target in batch - that entry is skipped and refunded, others succeed.
/// BatchTransferFailed emitted for the blocked one, CAddressFunded for successful ones,
/// BatchCompleted at the end reflecting counts.
#[test]
fn test_batch_blocked_target_skipped_and_refunded() {
    let env = Network::default();
    let (bridge, user, token_id, _) = setup_batch(&env);
    let bridge_id = bridge.address.clone();

    let good = generate(&env);
    let blocked = generate(&env);
    bridge.add_to_blocklist(&blocked, &None);

    let targets = list_of(&env, [good.clone(), blocked.clone()]);
    let amounts = list_of(&env, [1000i128, 500i128]);
    bridge.batch_fund_c_address(&user, &targets, &amounts, &token_id, &None, &None);

    assert_eq!(count_events_with_topic(&env, &bridge_id, "CAddressFunded"), 1);
    assert_eq!(count_events_with_topic(&env, &bridge_id, "BatchTransferFailed"), 1);
    assert_eq!(count_events_with_topic(&env, &bridge_id, "BatchCompleted"), 1);
    // Good target receives net amount (1% fee on 1000 = 990).
    assert_eq!(check_balance(&env, &token_id, &good), 990i128);
    // Blocked target receives nothing; 500 refunded to source.
    assert_eq!(check_balance(&env, &token_id, &blocked), 0i128);
    // Source paid 1500 total, got 500 back: net cost 1000.
    assert_eq!(check_balance(&env, &token_id, &user), 999_000i128);
}

/// All targets blocked - all refunded, only BatchTransferFailed + BatchCompleted emitted.
#[test]
fn test_batch_all_blocked_full_refund() {
    let env = Network::default();
    let (bridge, user, token_id, _) = setup_batch(&env);
    let bridge_id = bridge.address.clone();

    let t1 = generate(&env);
    let t2 = generate(&env);
    bridge.add_to_blocklist(&t1, &None);
    bridge.add_to_blocklist(&t2, &None);

    let targets = list_of(&env, [t1.clone(), t2.clone()]);
    let amounts = list_of(&env, [400i128, 600i128]);
    bridge.batch_fund_c_address(&user, &targets, &amounts, &token_id, &None, &None);

    assert_eq!(count_events_with_topic(&env, &bridge_id, "CAddressFunded"), 0);
    assert_eq!(count_events_with_topic(&env, &bridge_id, "BatchTransferFailed"), 2);
    assert_eq!(count_events_with_topic(&env, &bridge_id, "BatchCompleted"), 1);
    // Full refund - source balance unchanged.
    assert_eq!(check_balance(&env, &token_id, &user), 1_000_000i128);
    assert_eq!(check_balance(&env, &token_id, &t1), 0i128);
    assert_eq!(check_balance(&env, &token_id, &t2), 0i128);
}

/// Large batch (100 targets) - verifies all succeed, correct event count, correct balances.
#[test]
fn test_batch_100_targets() {
    let env = Network::default();
    let (bridge, user, token_id, _) = setup_batch(&env);
    let bridge_id = bridge.address.clone();

    // Give user enough tokens: 100 * 1000 = 100_000.
    mint_tokens(&env, &token_id, &user, 100_000i128);

    let mut targets_vec = Vec::new();
    let mut amounts_vec = Vec::new();
    let mut target_addrs: Vec<Address> = Vec::new();
    for _ in 0..100 {
        let t = generate(&env);
        target_addrs.push(t.clone());
        targets_vec.push(t);
        amounts_vec.push(1000i128);
    }

    bridge.batch_fund_c_address(&user, &targets_vec, &amounts_vec, &token_id, &None, &None);

    assert_eq!(count_events_with_topic(&env, &bridge_id, "CAddressFunded"), 100);
    assert_eq!(count_events_with_topic(&env, &bridge_id, "BatchCompleted"), 1);
    // Each target receives 990 (1% fee on 1000).
    for i in 0..100 {
        assert_eq!(check_balance(&env, &token_id, &target_addrs[i as usize]), 990i128);
    }
    // Source spent 100_000 tokens from the extra mint.
    assert_eq!(check_balance(&env, &token_id, &user), 1_000_000i128); // original unchanged
}

/// Batches larger than MAX_BATCH_SIZE (100) must be rejected.
#[test]
fn test_batch_exceeds_max_size() {
    let env = Network::default();
    let (bridge, user, token_id, _) = setup_batch(&env);

    let mut targets: Vec<Address> = Vec::new();
    let mut amounts: Vec<i128> = Vec::new();
    for _ in 0..101 {
        targets.push(generate(&env));
        amounts.push(1i128);
    }

    assert_eq!(
        bridge.try_batch_fund_c_address(&user, &targets, &amounts, &token_id, &None, &None),
        Err(Ok(BridgeError::BatchTooLarge))
    );
    assert_eq!(check_balance(&env, &token_id, &user), 1_000_000i128);
}

// Nonce tests

#[test]
fn test_nonce_starts_at_zero() {
    let env = Network::default();
    let (bridge_id, _) = register_all_contracts_mocked(&env);
    let bridge = create_bridge_client(&env, &bridge_id);
    let caller = generate(&env);
    assert_eq!(bridge.query_nonce(&caller), 0u64);
}

#[test]
fn test_nonce_increments_on_use() {
    let env = Network::default();
    let (bridge, user, token_id, _) = setup_batch(&env);

    assert_eq!(bridge.query_nonce(&user), 0u64);

    let target = generate(&env);
    let targets = list_of(&env, [target]);
    let amounts = list_of(&env, [100i128]);
    bridge.batch_fund_c_address(&user, &targets, &amounts, &token_id, &Some(0u64), &None);

    assert_eq!(bridge.query_nonce(&user), 1u64);
}

#[test]
fn test_nonce_replay_rejected() {
    let env = Network::default();
    let (bridge, user, token_id, _) = setup_batch(&env);

    let target1 = generate(&env);
    let target2 = generate(&env);
    let targets1 = list_of(&env, [target1]);
    let targets2 = list_of(&env, [target2]);
    let amounts = list_of(&env, [100i128]);

    // First call with nonce=0 succeeds.
    bridge.batch_fund_c_address(&user, &targets1, &amounts, &token_id, &Some(0u64), &None);

    // Replaying nonce=0 rejected.
    assert_eq!(
        bridge.try_batch_fund_c_address(&user, &targets2, &amounts, &token_id, &Some(0u64), &None),
        Err(Ok(BridgeError::DuplicateNonce))
    );
}

#[test]
fn test_nonce_none_skips_check() {
    let env = Network::default();
    let (bridge, user, token_id, _) = setup_batch(&env);

    let target = generate(&env);
    let targets = list_of(&env, [target]);
    let amounts = list_of(&env, [100i128]);

    // None skips nonce check; nonce stays at 0.
    bridge.batch_fund_c_address(&user, &targets, &amounts, &token_id, &None, &None);
    assert_eq!(bridge.query_nonce(&user), 0u64);
}

#[test]
fn test_nonce_wrong_value_rejected() {
    let env = Network::default();
    let (bridge, user, token_id, _) = setup_batch(&env);

    let target = generate(&env);
    let targets = list_of(&env, [target]);
    let amounts = list_of(&env, [100i128]);

    // Nonce is 0, passing 1 should fail.
    assert_eq!(
        bridge.try_batch_fund_c_address(&user, &targets, &amounts, &token_id, &Some(1u64), &None),
        Err(Ok(BridgeError::DuplicateNonce))
    );
}

#[test]
fn test_nonce_independent_per_caller() {
    let env = Network::default();
    let (bridge, user, token_id, admin) = setup_batch(&env);

    let user2 = generate(&env);
    mint_tokens(&env, &token_id, &user2, 1_000i128);

    let target = generate(&env);
    let targets = list_of(&env, [target]);
    let amounts = list_of(&env, [100i128]);

    // user uses nonce=0.
    bridge.batch_fund_c_address(&user, &targets, &amounts, &token_id, &Some(0u64), &None);
    // user2's nonce is still 0, independent of user's.
    assert_eq!(bridge.query_nonce(&user2), 0u64);
    assert_eq!(bridge.query_nonce(&user), 1u64);
    let _ = admin;
}

#[test]
fn test_fund_c_address_nonce() {
    let env = Network::default();
    let (bridge, user, token_id, _) = setup_batch(&env);

    let target = generate(&env);
    bridge.fund_c_address(&user, &target, &token_id, &100i128, &Some(0u64), &None);
    assert_eq!(bridge.query_nonce(&user), 1u64);

    // Reuse nonce=0 on fund_c_address rejected.
    let target2 = generate(&env);
    assert_eq!(
        bridge.try_fund_c_address(&user, &target2, &token_id, &100i128, &Some(0u64), &None),
        Err(Ok(BridgeError::DuplicateNonce))
    );
}

// Deadline tests

#[test]
fn test_fund_c_address_deadline_none_always_passes() {
    let env = Network::default();
    let (bridge, user, token_id, _) = setup_batch(&env);
    let target = generate(&env);
    // No deadline - always succeeds regardless of ledger time.
    bridge.fund_c_address(&user, &target, &token_id, &100i128, &None, &None);
    assert_eq!(check_balance(&env, &token_id, &target), 99i128); // 1% fee
}

#[test]
fn test_fund_c_address_deadline_in_future_passes() {
    let env = Network::default();
    env.ledger().set_timestamp(1000);
    let (bridge, user, token_id, _) = setup_batch(&env);
    let target = generate(&env);
    bridge.fund_c_address(&user, &target, &token_id, &100i128, &None, &Some(2000u64));
    assert_eq!(check_balance(&env, &token_id, &target), 99i128);
}

#[test]
fn test_fund_c_address_deadline_exact_passes() {
    let env = Network::default();
    env.ledger().set_timestamp(1000);
    let (bridge, user, token_id, _) = setup_batch(&env);
    let target = generate(&env);
    // deadline == current timestamp: not yet expired (strictly >).
    bridge.fund_c_address(&user, &target, &token_id, &100i128, &None, &Some(1000u64));
    assert_eq!(check_balance(&env, &token_id, &target), 99i128);
}

#[test]
fn test_fund_c_address_deadline_expired_reverts() {
    let env = Network::default();
    env.ledger().set_timestamp(2000);
    let (bridge, user, token_id, _) = setup_batch(&env);
    let target = generate(&env);
    assert_eq!(
        bridge.try_fund_c_address(&user, &target, &token_id, &100i128, &None, &Some(1999u64)),
        Err(Ok(BridgeError::TransactionExpired))
    );
    // No tokens moved.
    assert_eq!(check_balance(&env, &token_id, &user), 1_000_000i128);
    assert_eq!(check_balance(&env, &token_id, &target), 0i128);
}

#[test]
fn test_batch_fund_deadline_expired_reverts() {
    let env = Network::default();
    env.ledger().set_timestamp(5000);
    let (bridge, user, token_id, _) = setup_batch(&env);
    let t1 = generate(&env);
    let targets = list_of(&env, [t1.clone()]);
    let amounts = list_of(&env, [500i128]);
    assert_eq!(
        bridge.try_batch_fund_c_address(&user, &targets, &amounts, &token_id, &None, &Some(4999u64)),
        Err(Ok(BridgeError::TransactionExpired))
    );
    assert_eq!(check_balance(&env, &token_id, &user), 1_000_000i128);
    assert_eq!(check_balance(&env, &token_id, &t1), 0i128);
}

#[test]
fn test_batch_fund_deadline_in_future_passes() {
    let env = Network::default();
    env.ledger().set_timestamp(1000);
    let (bridge, user, token_id, _) = setup_batch(&env);
    let t1 = generate(&env);
    let targets = list_of(&env, [t1.clone()]);
    let amounts = list_of(&env, [1000i128]);
    bridge.batch_fund_c_address(&user, &targets, &amounts, &token_id, &None, &Some(9999u64));
    assert_eq!(check_balance(&env, &token_id, &t1), 990i128); // 1% fee
}

// Timelocked funding tests

fn setup_timelocked(env: &Network) -> (
    Bridge<'_>,
    Address,
    Address,
    Address,
    Address,
) {
    let (bridge_id, token_id) = register_all_contracts_mocked(env);
    let bridge = create_bridge_client(env, &bridge_id);
    let (admin, user, fee_collector) = create_test_users(env);
    init_token(env, &token_id, &admin);
    bridge.initialize(&admin, &fee_collector, &100u32, &None); // 1% fee
    bridge.add_asset(&token_id, &None);
    mint_tokens(env, &token_id, &user, 10_000i128);
    (bridge, user, token_id, fee_collector, admin)
}

#[test]
fn test_timelocked_happy_path() {
    let env = Network::default();
    env.ledger().set_timestamp(1_000);
    let (bridge, user, token_id, _fee_collector, _admin) = setup_timelocked(&env);
    let target = generate(&env);
    let release_time = 1_100u64;

    let id = bridge.fund_c_address_timelocked(
        &user,
        &target,
        &token_id,
        &500i128,
        &release_time,
        &0u64,
        &None,
        &None,
    );

    advance_ledger_time(&env, release_time + 1);
    bridge.claim_timelocked(&id);

    assert_eq!(check_balance(&env, &token_id, &target), 495i128);
    assert_eq!(bridge.query_accrued_fees(&token_id), 5i128);
}

#[test]
fn test_timelocked_claim_before_release_fails() {
    let env = Network::default();
    env.ledger().set_timestamp(2_000);
    let (bridge, user, token_id, _fee_collector, _admin) = setup_timelocked(&env);
    let target = generate(&env);

    let id = bridge.fund_c_address_timelocked(
        &user,
        &target,
        &token_id,
        &500i128,
        &(2_100u64),
        &0u64,
        &None,
        &None,
    );

    assert_eq!(
        bridge.try_claim_timelocked(&id),
        Err(Ok(BridgeError::TimelockNotMatured))
    );
}

#[test]
fn test_timelocked_cliff_time_after_release_fails() {
    let env = Network::default();
    env.ledger().set_timestamp(3_000);
    let (bridge, user, token_id, _fee_collector, _admin) = setup_timelocked(&env);
    let target = generate(&env);

    assert_eq!(
        bridge.try_fund_c_address_timelocked(
            &user,
            &target,
            &token_id,
            &500i128,
            &3_100u64,
            &3_101u64,
            &None,
            &None,
        ),
        Err(Ok(BridgeError::InvalidReleaseTime))
    );
}

#[test]
fn test_timelocked_release_in_past_fails() {
    let env = Network::default();
    env.ledger().set_timestamp(4_000);
    let (bridge, user, token_id, _fee_collector, _admin) = setup_timelocked(&env);
    let target = generate(&env);

    assert_eq!(
        bridge.try_fund_c_address_timelocked(
            &user,
            &target,
            &token_id,
            &500i128,
            &4_000u64,
            &0u64,
            &None,
            &None,
        ),
        Err(Ok(BridgeError::InvalidReleaseTime))
    );
}

#[test]
fn test_timelocked_double_claim_fails() {
    let env = Network::default();
    env.ledger().set_timestamp(5_000);
    let (bridge, user, token_id, _fee_collector, _admin) = setup_timelocked(&env);
    let target = generate(&env);
    let release_time = 5_050u64;

    let id = bridge.fund_c_address_timelocked(
        &user,
        &target,
        &token_id,
        &500i128,
        &release_time,
        &0u64,
        &None,
        &None,
    );

    advance_ledger_time(&env, release_time + 1);
    bridge.claim_timelocked(&id);

    assert_eq!(
        bridge.try_claim_timelocked(&id),
        Err(Ok(BridgeError::Unauthorized))
    );
}

#[test]
fn test_query_timelocked_unknown_id_fails() {
    let env = Network::default();
    let (bridge, _user, _token_id, _fee_collector, _admin) = setup_timelocked(&env);

    assert_eq!(
        bridge.try_query_timelocked(&999_999u64),
        Err(Ok(BridgeError::TimelockNotFound))
    );
}

#[test]
fn test_timelocked_fund_mints_loyalty_at_deposit() {
    let env = Network::default();
    env.ledger().set_timestamp(6_000);
    let (bridge, user, token_id, _fee_collector, admin) = setup_timelocked(&env);
    let target = generate(&env);
    let release_time = 6_100u64;

    // Minted at deposit time (when `source`/`user` is known), not at
    // claim_timelocked time (which is authorised by `target`).
    let loyalty_token_id = generate(&env);
    init_token(&env, &loyalty_token_id, &admin);
    bridge.set_loyalty_token(&loyalty_token_id, &4i128);
    mint_tokens(&env, &loyalty_token_id, &bridge.address, 1_000i128);

    bridge.fund_c_address_timelocked(
        &user,
        &target,
        &token_id,
        &500i128,
        &release_time,
        &0u64,
        &None,
        &None,
    );

    assert_eq!(check_balance(&env, &loyalty_token_id, &user), 4i128);
}

// Commit-reveal funding tests

/// Minimum ledgers that must elapse between commit_fund and reveal_fund.
const MIN_DELAY_LEDGERS: u32 = 5;

fn setup_commit_reveal(env: &Network) -> (Bridge<'_>, Address, Address) {
    let (bridge_id, token_id) = register_all_contracts_mocked(env);
    let bridge = create_bridge_client(env, &bridge_id);
    let (admin, user, fee_collector) = create_test_users(env);
    init_token(env, &token_id, &admin);
    bridge.initialize(&admin, &fee_collector, &100u32, &None); // 1% fee
    bridge.add_asset(&token_id, &None);
    mint_tokens(env, &token_id, &user, 10_000i128);
    (bridge, user, token_id)
}

/// Advances the ledger past the commit-reveal minimum delay.
fn advance_past_min_delay(env: &Network) {
    advance_ledger_sequence(env, env.ledger().sequence() + MIN_DELAY_LEDGERS);
}

#[test]
fn test_commit_reveal_happy_path() {
    let env = Network::default();
    env.ledger().set_timestamp(1_000);
    let (bridge, user, token_id) = setup_commit_reveal(&env);
    let target = generate(&env);

    let hash = commit_reveal_amount_hash(&env, 500i128, 42u64);
    let id = bridge.commit_fund(&user, &target, &token_id, &hash, &2_000u64);

    let entry = bridge.query_commitment(&id);
    assert_eq!(entry.source, user);
    assert_eq!(entry.target, target);
    assert!(!entry.revealed);

    advance_past_min_delay(&env);
    bridge.reveal_fund(&id, &user, &target, &token_id, &500i128, &42u64);

    assert_eq!(check_balance(&env, &token_id, &target), 495i128);
    assert_eq!(check_balance(&env, &token_id, &user), 9_500i128);
    assert_eq!(bridge.query_accrued_fees(&token_id), 5i128);
    assert!(bridge.query_commitment(&id).revealed);
}

#[test]
fn test_reveal_before_min_delay_fails() {
    let env = Network::default();
    env.ledger().set_timestamp(1_000);
    let (bridge, user, token_id) = setup_commit_reveal(&env);
    let target = generate(&env);

    let hash = commit_reveal_amount_hash(&env, 500i128, 7u64);
    let id = bridge.commit_fund(&user, &target, &token_id, &hash, &2_000u64);

    // Revealed in the same ledger the commitment was created in.
    assert_eq!(
        bridge.try_reveal_fund(&id, &user, &target, &token_id, &500i128, &7u64),
        Err(Ok(BridgeError::CommitmentNotMatured))
    );
    assert_eq!(check_balance(&env, &token_id, &target), 0i128);
}

#[test]
fn test_reveal_after_deadline_fails() {
    let env = Network::default();
    env.ledger().set_timestamp(1_000);
    let (bridge, user, token_id) = setup_commit_reveal(&env);
    let target = generate(&env);

    let hash = commit_reveal_amount_hash(&env, 500i128, 9u64);
    let id = bridge.commit_fund(&user, &target, &token_id, &hash, &1_500u64);

    advance_past_min_delay(&env);
    env.ledger().set_timestamp(1_501);

    assert_eq!(
        bridge.try_reveal_fund(&id, &user, &target, &token_id, &500i128, &9u64),
        Err(Ok(BridgeError::CommitmentExpired))
    );
    assert_eq!(check_balance(&env, &token_id, &target), 0i128);
}

#[test]
fn test_reveal_twice_fails() {
    let env = Network::default();
    env.ledger().set_timestamp(1_000);
    let (bridge, user, token_id) = setup_commit_reveal(&env);
    let target = generate(&env);

    let hash = commit_reveal_amount_hash(&env, 500i128, 11u64);
    let id = bridge.commit_fund(&user, &target, &token_id, &hash, &2_000u64);

    advance_past_min_delay(&env);
    bridge.reveal_fund(&id, &user, &target, &token_id, &500i128, &11u64);

    assert_eq!(
        bridge.try_reveal_fund(&id, &user, &target, &token_id, &500i128, &11u64),
        Err(Ok(BridgeError::CommitmentAlreadyRevealed))
    );
    // Only the first reveal moved funds.
    assert_eq!(check_balance(&env, &token_id, &target), 495i128);
}

#[test]
fn test_reveal_hash_mismatch_fails() {
    let env = Network::default();
    env.ledger().set_timestamp(1_000);
    let (bridge, user, token_id) = setup_commit_reveal(&env);
    let target = generate(&env);

    let hash = commit_reveal_amount_hash(&env, 500i128, 13u64);
    let id = bridge.commit_fund(&user, &target, &token_id, &hash, &2_000u64);

    advance_past_min_delay(&env);

    // Committed to 500, revealing 900 with the same nonce.
    assert_eq!(
        bridge.try_reveal_fund(&id, &user, &target, &token_id, &900i128, &13u64),
        Err(Ok(BridgeError::CommitmentHashMismatch))
    );
    assert_eq!(check_balance(&env, &token_id, &target), 0i128);
    assert!(!bridge.query_commitment(&id).revealed);
}

// Cross-chain Onboarding Tests

fn setup_crosschain(env: &Network) -> (Address, Address, Address, Bridge<'_>) {
    let bridge_id = register_bridge(env);
    let token_id = generate(env);
    env.mock_all_auths();

    let admin = generate(env);
    let fee_collector = generate(env);

    let bridge = Bridge::new(env, &bridge_id);
    bridge.initialize(&admin, &fee_collector, &100u32, &None); // 1% fee
    bridge.add_asset(&token_id, &None);

    // Fund the bridge so it can pay out cross-chain claims
    mint_tokens(env, &token_id, &bridge_id, 10_000i128);

    (bridge_id, token_id, admin, bridge)
}

#[test]
fn test_crosschain_happy_path_single_relayer() {
    let env = Network::default();
    let (bridge_id, token_id, _admin, bridge) = setup_crosschain(&env);

    let sk = make_signing_key([1u8; 32]);
    let pubkey = bytes32(&env, sk.verifying_key().as_bytes());

    bridge.add_relayer(&pubkey);
    bridge.set_relayer_threshold(&1u32);

    let target = generate(&env);
    let tx_hash = bytes32(&env, &[0xab; 32]);
    let chain_id: u32 = 1;
    let amount: i128 = 1000;

    let payload_hash = build_payload_hash(&env, chain_id, &tx_hash, &target, &token_id, amount);
    let sig = make_relayer_sig(&env, &sk, &payload_hash);
    let sigs = list_of(&env, [sig]);

    bridge.fund_c_address_crosschain(&chain_id, &tx_hash, &target, &token_id, &amount, &sigs);

    // 1% fee on 1000 = 10; net = 990
    assert_eq!(check_balance(&env, &token_id, &target), 990i128);
    assert_eq!(check_balance(&env, &token_id, &bridge_id), 10_000 - 990);
}

#[test]
fn test_crosschain_happy_path_2_of_3() {
    let env = Network::default();
    let (_bridge_id, token_id, _admin, bridge) = setup_crosschain(&env);

    let sk1 = make_signing_key([1u8; 32]);
    let sk2 = make_signing_key([2u8; 32]);
    let sk3 = make_signing_key([3u8; 32]);

    bridge.add_relayer(&bytes32(&env, sk1.verifying_key().as_bytes()));
    bridge.add_relayer(&bytes32(&env, sk2.verifying_key().as_bytes()));
    bridge.add_relayer(&bytes32(&env, sk3.verifying_key().as_bytes()));
    bridge.set_relayer_threshold(&2u32);

    let target = generate(&env);
    let tx_hash = bytes32(&env, &[0xcd; 32]);
    let chain_id: u32 = 101;
    let amount: i128 = 500;

    let payload_hash = build_payload_hash(&env, chain_id, &tx_hash, &target, &token_id, amount);
    let sigs = list_of(&env, [
        make_relayer_sig(&env, &sk1, &payload_hash),
        make_relayer_sig(&env, &sk2, &payload_hash),
    ]);

    bridge.fund_c_address_crosschain(&chain_id, &tx_hash, &target, &token_id, &amount, &sigs);
    assert_eq!(check_balance(&env, &token_id, &target), 495i128);
}

#[test]
fn test_crosschain_replay_rejected() {
    let env = Network::default();
    let (_bridge_id, token_id, _admin, bridge) = setup_crosschain(&env);

    let sk = make_signing_key([1u8; 32]);
    bridge.add_relayer(&bytes32(&env, sk.verifying_key().as_bytes()));
    bridge.set_relayer_threshold(&1u32);

    let target = generate(&env);
    let tx_hash = bytes32(&env, &[0xef; 32]);

    let payload_hash = build_payload_hash(&env, 1, &tx_hash, &target, &token_id, 100);
    let sigs = list_of(&env, [make_relayer_sig(&env, &sk, &payload_hash)]);

    bridge.fund_c_address_crosschain(&1u32, &tx_hash, &target, &token_id, &100i128, &sigs);

    // Second call with same tx_hash must fail
    assert_eq!(
        bridge.try_fund_c_address_crosschain(&1u32, &tx_hash, &target, &token_id, &100i128, &sigs),
        Err(Ok(BridgeError::ReplayedNonce))
    );
}

#[test]
fn test_crosschain_below_threshold_rejected() {
    let env = Network::default();
    let (_bridge_id, token_id, _admin, bridge) = setup_crosschain(&env);

    let sk1 = make_signing_key([1u8; 32]);
    let sk2 = make_signing_key([2u8; 32]);

    bridge.add_relayer(&bytes32(&env, sk1.verifying_key().as_bytes()));
    bridge.add_relayer(&bytes32(&env, sk2.verifying_key().as_bytes()));
    bridge.set_relayer_threshold(&2u32);

    let target = generate(&env);
    let tx_hash = bytes32(&env, &[0x11; 32]);

    let payload_hash = build_payload_hash(&env, 1, &tx_hash, &target, &token_id, 100);
    // Only 1 sig when threshold is 2
    let sigs = list_of(&env, [make_relayer_sig(&env, &sk1, &payload_hash)]);

    assert_eq!(
        bridge.try_fund_c_address_crosschain(&1u32, &tx_hash, &target, &token_id, &100i128, &sigs),
        Err(Ok(BridgeError::BelowThreshold))
    );
}

#[test]
fn test_crosschain_non_relayer_rejected() {
    let env = Network::default();
    let (_bridge_id, token_id, _admin, bridge) = setup_crosschain(&env);

    let sk_registered = make_signing_key([1u8; 32]);
    let sk_stranger = make_signing_key([9u8; 32]); // not registered

    bridge.add_relayer(&bytes32(&env, sk_registered.verifying_key().as_bytes()));
    bridge.set_relayer_threshold(&1u32);

    let target = generate(&env);
    let tx_hash = bytes32(&env, &[0x22; 32]);

    let payload_hash = build_payload_hash(&env, 1, &tx_hash, &target, &token_id, 100);
    let sigs = list_of(&env, [make_relayer_sig(&env, &sk_stranger, &payload_hash)]);

    assert_eq!(
        bridge.try_fund_c_address_crosschain(&1u32, &tx_hash, &target, &token_id, &100i128, &sigs),
        Err(Ok(BridgeError::NotRelayer))
    );
}

#[test]
fn test_add_remove_relayer_and_threshold() {
    let env = Network::default();
    let (_bridge_id, _token_id, _admin, bridge) = setup_crosschain(&env);

    let pk = bytes32(&env, make_signing_key([5u8; 32]).verifying_key().as_bytes());

    bridge.add_relayer(&pk);
    assert!(bridge.query_is_relayer(&pk));

    bridge.set_relayer_threshold(&1u32);
    assert_eq!(bridge.query_relayer_threshold(), 1u32);

    // Can't remove last relayer when it would drop below threshold
    assert_eq!(
        bridge.try_remove_relayer(&pk),
        Err(Ok(BridgeError::BelowThreshold))
    );
}

#[test]
fn test_crosschain_duplicate_relayer_signature_rejected() {
    let env = Network::default();
    let (_bridge_id, token_id, _admin, bridge) = setup_crosschain(&env);

    let sk1 = make_signing_key([1u8; 32]);
    let sk2 = make_signing_key([2u8; 32]);

    bridge.add_relayer(&bytes32(&env, sk1.verifying_key().as_bytes()));
    bridge.add_relayer(&bytes32(&env, sk2.verifying_key().as_bytes()));
    bridge.set_relayer_threshold(&2u32);

    let target = generate(&env);
    let tx_hash = bytes32(&env, &[0x33; 32]);

    let payload_hash = build_payload_hash(&env, 1, &tx_hash, &target, &token_id, 100);
    // Same relayer's signature submitted twice must not satisfy a threshold of 2.
    let sig = make_relayer_sig(&env, &sk1, &payload_hash);
    let sigs = list_of(&env, [sig.clone(), sig]);

    assert_eq!(
        bridge.try_fund_c_address_crosschain(&1u32, &tx_hash, &target, &token_id, &100i128, &sigs),
        Err(Ok(BridgeError::DuplicateRelayerSignature))
    );
}

#[test]
fn test_crosschain_mints_loyalty_to_target() {
    let env = Network::default();
    let (bridge_id, token_id, admin, bridge) = setup_crosschain(&env);

    // Cross-chain deposits have no on-chain `source`; the reward is
    // credited to `target`, the only address party to this call.
    let loyalty_token_id = generate(&env);
    init_token(&env, &loyalty_token_id, &admin);
    bridge.set_loyalty_token(&loyalty_token_id, &3i128);
    mint_tokens(&env, &loyalty_token_id, &bridge_id, 1_000i128);

    let sk = make_signing_key([9u8; 32]);
    let pubkey = bytes32(&env, sk.verifying_key().as_bytes());
    bridge.add_relayer(&pubkey);
    bridge.set_relayer_threshold(&1u32);

    let target = generate(&env);
    let tx_hash = bytes32(&env, &[0x77; 32]);
    let chain_id: u32 = 1;
    let amount: i128 = 1000;

    let payload_hash = build_payload_hash(&env, chain_id, &tx_hash, &target, &token_id, amount);
    let sig = make_relayer_sig(&env, &sk, &payload_hash);
    let sigs = list_of(&env, [sig]);

    bridge.fund_c_address_crosschain(&chain_id, &tx_hash, &target, &token_id, &amount, &sigs);

    assert_eq!(check_balance(&env, &loyalty_token_id, &target), 3i128);
}

#[test]
fn test_batch_fund_mints_loyalty_once() {
    let env = Network::default();
    let (admin, user, fee_collector) = create_test_users(&env);
    let (bridge_id, token_id) = register_all_contracts_mocked(&env);
    let bridge = create_bridge_client(&env, &bridge_id);
    init_token(&env, &token_id, &admin);

    let loyalty_token_id = generate(&env);
    init_token(&env, &loyalty_token_id, &admin);

    bridge.initialize(&admin, &fee_collector, &100u32, &None);
    bridge.add_asset(&token_id, &None);
    bridge.set_loyalty_token(&loyalty_token_id, &10i128);
    mint_tokens(&env, &loyalty_token_id, &bridge_id, 1_000i128);
    mint_tokens(&env, &token_id, &user, 2_000i128);

    let t1 = generate(&env);
    let t2 = generate(&env);
    let targets = list_of(&env, [t1, t2]);
    let amounts = list_of(&env, [500i128, 500i128]);
    bridge.batch_fund_c_address(&user, &targets, &amounts, &token_id, &None, &None);

    // Rewarded once per batch call, not once per recipient.
    assert_eq!(check_balance(&env, &loyalty_token_id, &user), 10i128);
}

#[test]
fn test_batch_fund_all_blocked_mints_no_loyalty() {
    let env = Network::default();
    let (admin, user, fee_collector) = create_test_users(&env);
    let (bridge_id, token_id) = register_all_contracts_mocked(&env);
    let bridge = create_bridge_client(&env, &bridge_id);
    init_token(&env, &token_id, &admin);

    let loyalty_token_id = generate(&env);
    init_token(&env, &loyalty_token_id, &admin);

    bridge.initialize(&admin, &fee_collector, &100u32, &None);
    bridge.add_asset(&token_id, &None);
    bridge.set_loyalty_token(&loyalty_token_id, &10i128);
    mint_tokens(&env, &loyalty_token_id, &bridge_id, 1_000i128);
    mint_tokens(&env, &token_id, &user, 1_000i128);

    let t1 = generate(&env);
    bridge.add_to_blocklist(&t1, &None);
    let targets = list_of(&env, [t1]);
    let amounts = list_of(&env, [500i128]);
    bridge.batch_fund_c_address(&user, &targets, &amounts, &token_id, &None, &None);

    // Nothing succeeded, so no loyalty reward is minted.
    assert_eq!(check_balance(&env, &loyalty_token_id, &user), 0i128);
}

// Referral system tests

#[test]
fn test_set_and_query_referral_rate() {
    let env = Network::default();
    let (admin, _user, fee_collector) = create_test_users(&env);
    let (bridge_id, _) = register_all_contracts_mocked(&env);
    let bridge = create_bridge_client(&env, &bridge_id);

    bridge.initialize(&admin, &fee_collector, &100u32, &None);

    // Default referral rate is 0
    assert_eq!(bridge.query_referral_rate(), 0u32);

    // Admin sets referral rate to 2000 (20% of fee)
    bridge.set_referral_rate(&2000u32, &None);
    assert_eq!(bridge.query_referral_rate(), 2000u32);
}

#[test]
fn test_set_referral_rate_too_high() {
    let env = Network::default();
    let (admin, _user, fee_collector) = create_test_users(&env);
    let (bridge_id, _) = register_all_contracts_mocked(&env);
    let bridge = create_bridge_client(&env, &bridge_id);

    bridge.initialize(&admin, &fee_collector, &100u32, &None);

    assert_eq!(
        bridge.try_set_referral_rate(&10001u32, &None),
        Err(Ok(BridgeError::FeeTooHigh))
    );
}

#[test]
fn test_fund_with_referral_splits_fee() {
    let env = Network::default();
    let (admin, user, fee_collector) = create_test_users(&env);
    let (bridge_id, token_id) = register_all_contracts_mocked(&env);
    let bridge = create_bridge_client(&env, &bridge_id);
    init_token(&env, &token_id, &admin);

    // fee_bps = 100 (1%), referral_rate = 2000 (20% of fee)
    bridge.initialize(&admin, &fee_collector, &100u32, &None);
    bridge.add_asset(&token_id, &None);
    bridge.set_referral_rate(&2000u32, &None);

    mint_tokens(&env, &token_id, &user, 1000i128);
    let target = generate(&env);
    let referrer = generate(&env);

    bridge.fund_c_address_with_referral(
        &user,
        &target,
        &token_id,
        &1000i128,
        &Some(referrer.clone()),
    );

    // gross = 1000, fee = 10 (1%), referral_fee = 2 (20% of 10), protocol_fee = 8
    assert_eq!(check_balance(&env, &token_id, &user), 0i128);
    assert_eq!(check_balance(&env, &token_id, &target), 990i128);
    assert_eq!(check_balance(&env, &token_id, &referrer), 2i128);
    // contract holds protocol fee (8)
    assert_eq!(check_balance(&env, &token_id, &bridge_id), 8i128);
}

#[test]
fn test_fund_with_no_referrer_accrues_full_fee() {
    let env = Network::default();
    let (admin, user, fee_collector) = create_test_users(&env);
    let (bridge_id, token_id) = register_all_contracts_mocked(&env);
    let bridge = create_bridge_client(&env, &bridge_id);
    init_token(&env, &token_id, &admin);

    bridge.initialize(&admin, &fee_collector, &100u32, &None);
    bridge.add_asset(&token_id, &None);
    bridge.set_referral_rate(&2000u32, &None);

    mint_tokens(&env, &token_id, &user, 1000i128);
    let target = generate(&env);

    bridge.fund_c_address_with_referral(&user, &target, &token_id, &1000i128, &None);

    // No referrer - full fee (10) stays in contract
    assert_eq!(check_balance(&env, &token_id, &target), 990i128);
    assert_eq!(check_balance(&env, &token_id, &bridge_id), 10i128);
}

#[test]
fn test_fund_with_referral_zero_referral_rate() {
    let env = Network::default();
    let (admin, user, fee_collector) = create_test_users(&env);
    let (bridge_id, token_id) = register_all_contracts_mocked(&env);
    let bridge = create_bridge_client(&env, &bridge_id);
    init_token(&env, &token_id, &admin);

    bridge.initialize(&admin, &fee_collector, &100u32, &None);
    bridge.add_asset(&token_id, &None);
    // referral_rate defaults to 0

    mint_tokens(&env, &token_id, &user, 1000i128);
    let target = generate(&env);
    let referrer = generate(&env);

    bridge.fund_c_address_with_referral(
        &user,
        &target,
        &token_id,
        &1000i128,
        &Some(referrer.clone()),
    );

    // referral_rate = 0, so referrer gets nothing, full fee in contract
    assert_eq!(check_balance(&env, &token_id, &referrer), 0i128);
    assert_eq!(check_balance(&env, &token_id, &bridge_id), 10i128);
}

#[test]
fn test_referral_fund_mints_loyalty() {
    let env = Network::default();
    let (admin, user, fee_collector) = create_test_users(&env);
    let (bridge_id, token_id) = register_all_contracts_mocked(&env);
    let bridge = create_bridge_client(&env, &bridge_id);
    init_token(&env, &token_id, &admin);

    let loyalty_token_id = generate(&env);
    init_token(&env, &loyalty_token_id, &admin);

    bridge.initialize(&admin, &fee_collector, &100u32, &None);
    bridge.add_asset(&token_id, &None);
    bridge.set_loyalty_token(&loyalty_token_id, &6i128);
    mint_tokens(&env, &loyalty_token_id, &bridge_id, 1_000i128);
    mint_tokens(&env, &token_id, &user, 1000i128);

    let target = generate(&env);
    bridge.fund_c_address_with_referral(&user, &target, &token_id, &1000i128, &None);

    assert_eq!(check_balance(&env, &loyalty_token_id, &user), 6i128);
}

#[test]
fn test_referral_fund_rejects_below_minimum() {
    let env = Network::default();
    let (admin, user, fee_collector) = create_test_users(&env);
    let (bridge_id, token_id) = register_all_contracts_mocked(&env);
    let bridge = create_bridge_client(&env, &bridge_id);
    init_token(&env, &token_id, &admin);

    bridge.initialize(&admin, &fee_collector, &100u32, &None);
    bridge.add_asset(&token_id, &None);
    bridge.set_minimum_amount(&100i128, &None);
    mint_tokens(&env, &token_id, &user, 1000i128);

    let target = generate(&env);
    assert_eq!(
        bridge.try_fund_c_address_with_referral(&user, &target, &token_id, &50i128, &None),
        Err(Ok(BridgeError::InvalidAmount))
    );
}

// Zero-amount behavior tests

// fund_c_address with amount=0 - the contract guards `amount <= 0` before
// require_auth, so it must return InvalidAmount immediately.
#[test]
fn test_fund_c_address_zero_amount_fails() {
    let env = Network::default();
    let (admin, user, fee_collector) = create_test_users(&env);
    let (bridge_id, token_id) = register_all_contracts_mocked(&env);
    let bridge = create_bridge_client(&env, &bridge_id);
    init_token(&env, &token_id, &admin);

    bridge.initialize(&admin, &fee_collector, &100u32, &None);
    bridge.add_asset(&token_id, &None);

    let target = generate(&env);
    assert_eq!(
        bridge.try_fund_c_address(&user, &target, &token_id, &0i128, &None, &None),
        Err(Ok(BridgeError::InvalidAmount))
    );
}

// No CAddressFunded event must be emitted when the call is rejected due to zero amount.
#[test]
fn test_fund_c_address_zero_amount_no_event() {
    let env = Network::default();
    let (admin, user, fee_collector) = create_test_users(&env);
    let (bridge_id, token_id) = register_all_contracts_mocked(&env);
    let bridge = create_bridge_client(&env, &bridge_id);
    init_token(&env, &token_id, &admin);

    bridge.initialize(&admin, &fee_collector, &100u32, &None);
    bridge.add_asset(&token_id, &None);

    // Snapshot event count after setup (Initialized + add_asset events already emitted).
    let events_before = env.all_events().len();

    let target = generate(&env);
    let _ = bridge.try_fund_c_address(&user, &target, &token_id, &0i128, &None, &None);

    // No new events should have been emitted by the rejected call.
    assert_eq!(env.all_events().len(), events_before);
}

// batch_fund_c_address where every amount is zero - fails at validation loop.
#[test]
fn test_batch_fund_all_zeros_fails() {
    let env = Network::default();
    let (admin, user, fee_collector) = create_test_users(&env);
    let (bridge_id, token_id) = register_all_contracts_mocked(&env);
    let bridge = create_bridge_client(&env, &bridge_id);
    init_token(&env, &token_id, &admin);

    bridge.initialize(&admin, &fee_collector, &100u32, &None);
    bridge.add_asset(&token_id, &None);

    let targets = list_of(&env, [generate(&env), generate(&env)]);
    let amounts = list_of(&env, [0i128, 0i128]);

    assert_eq!(
        bridge.try_batch_fund_c_address(&user, &targets, &amounts, &token_id, &None, &None),
        Err(Ok(BridgeError::InvalidAmount))
    );
}

// batch_fund_c_address with mixed zero and non-zero amounts - the validation
// loop rejects on the first zero found, before any token transfer occurs.
#[test]
fn test_batch_fund_mixed_zero_nonzero_fails() {
    let env = Network::default();
    let (admin, user, fee_collector) = create_test_users(&env);
    let (bridge_id, token_id) = register_all_contracts_mocked(&env);
    let bridge = create_bridge_client(&env, &bridge_id);
    init_token(&env, &token_id, &admin);

    bridge.initialize(&admin, &fee_collector, &100u32, &None);
    bridge.add_asset(&token_id, &None);
    mint_tokens(&env, &token_id, &user, 1000i128);

    let user_balance_before = check_balance(&env, &token_id, &user);

    let targets = list_of(&env, [generate(&env), generate(&env)]);
    let amounts = list_of(&env, [500i128, 0i128]); // second entry is zero

    assert_eq!(
        bridge.try_batch_fund_c_address(&user, &targets, &amounts, &token_id, &None, &None),
        Err(Ok(BridgeError::InvalidAmount))
    );

    // No tokens must have left the user's account - validation fails before transfer.
    assert_eq!(check_balance(&env, &token_id, &user), user_balance_before);
}

// query_calculate_fee with zero gross amount - should return (fee=0, net=0).
#[test]
fn test_calculate_fee_zero_amount() {
    let env = Network::default();
    let (admin, _user, fee_collector) = create_test_users(&env);
    let (bridge_id, _) = register_all_contracts_mocked(&env);
    let bridge = create_bridge_client(&env, &bridge_id);

    bridge.initialize(&admin, &fee_collector, &100u32, &None);

    let (fee, net) = bridge.query_calculate_fee(&0i128);
    assert_eq!(fee, 0i128);
    assert_eq!(net, 0i128);
}

// Confirm zero amount is rejected even with a max fee rate configured.
#[test]
fn test_fund_c_address_zero_amount_max_fee_fails() {
    let env = Network::default();
    let (admin, user, fee_collector) = create_test_users(&env);
    let (bridge_id, token_id) = register_all_contracts_mocked(&env);
    let bridge = create_bridge_client(&env, &bridge_id);
    init_token(&env, &token_id, &admin);

    bridge.initialize(&admin, &fee_collector, &1000u32, &None); // max fee
    bridge.add_asset(&token_id, &None);

    let target = generate(&env);
    assert_eq!(
        bridge.try_fund_c_address(&user, &target, &token_id, &0i128, &None, &None),
        Err(Ok(BridgeError::InvalidAmount))
    );
}

// --------- Authorization enforcement tests ---------
// These tests verify that specific require_auth() calls are enforced.
// Setup uses register_all_contracts_mocked; auths are cleared before the
// operation under test so that auth enforcement is real, not bypassed.

#[test]
#[should_panic]
fn test_fund_c_address_requires_source_auth() {
    let env = Network::default();
    let (admin, user, fee_collector) = create_test_users(&env);
    let (bridge_id, token_id) = register_all_contracts_mocked(&env);
    let bridge = create_bridge_client(&env, &bridge_id);
    init_token(&env, &token_id, &admin);

    bridge.initialize(&admin, &fee_collector, &100u32, &None);
    bridge.add_asset(&token_id, &None);
    mint_tokens(&env, &token_id, &user, 1000i128);

    env.clear_auths();

    let target = generate(&env);
    bridge.fund_c_address(&user, &target, &token_id, &500i128, &None, &None);
}

#[test]
#[should_panic]
fn test_set_fee_bps_requires_admin_auth() {
    let env = Network::default();
    let (admin, _user, fee_collector) = create_test_users(&env);
    let (bridge_id, _) = register_all_contracts_mocked(&env);
    let bridge = create_bridge_client(&env, &bridge_id);

    bridge.initialize(&admin, &fee_collector, &50u32, &None);

    env.clear_auths();

    bridge.set_fee_bps(&200u32, &None);
}

#[test]
#[should_panic]
fn test_withdraw_fees_requires_fee_collector_auth() {
    let env = Network::default();
    let (admin, user, fee_collector) = create_test_users(&env);
    let (bridge_id, token_id) = register_all_contracts_mocked(&env);
    let bridge = create_bridge_client(&env, &bridge_id);
    init_token(&env, &token_id, &admin);

    bridge.initialize(&admin, &fee_collector, &100u32, &None);
    bridge.add_asset(&token_id, &None);
    mint_tokens(&env, &token_id, &user, 1000i128);
    let target = generate(&env);
    bridge.fund_c_address(&user, &target, &token_id, &500i128, &None, &None);

    env.clear_auths();

    bridge.withdraw_fees(&token_id, &5i128, &None);
}

#[test]
#[should_panic]
fn test_pause_requires_admin_auth() {
    let env = Network::default();
    let (admin, _user, fee_collector) = create_test_users(&env);
    let (bridge_id, _) = register_all_contracts_mocked(&env);
    let bridge = create_bridge_client(&env, &bridge_id);

    bridge.initialize(&admin, &fee_collector, &50u32, &None);

    env.clear_auths();

    bridge.pause(&None);
}

// ============================================================================
// Concurrent / sequential operation simulation tests
//
// Soroban executes all operations in a ledger sequentially (single-threaded),
// but cross-contract call ordering and interleaved state mutations can still
// produce surprising results. These tests simulate such scenarios:
//
//   1. Token transfer during fee withdrawal (cross-contract edge case)
//   2. Batch funding where some targets are blocked mid-batch (sequential skips)
//   3. Multiple fee withdrawals in sequence
//   4. Contract initialization race (multiple init calls in same ledger context)
// ============================================================================

// -----------------------------------------------------------------------
// Shared setup helper
// -----------------------------------------------------------------------

struct ConcurrentSetup {
    env: Network,
    bridge_id: Address,
    token_id: Address,
    admin: Address,
    fee_collector: Address,
    user: Address,
}

impl ConcurrentSetup {
    fn new() -> Self {
        let env = Network::default();
        env.mock_all_auths();

        let (bridge_id, token_id) = register_all_contracts(&env);
        let (admin, user, fee_collector) = create_test_users(&env);

        init_token(&env, &token_id, &admin);

        let bridge = create_bridge_client(&env, &bridge_id);
        bridge.initialize(&admin, &fee_collector, &100u32, &None); // 1% fee
        bridge.add_asset(&token_id, &None);

        Self { env, bridge_id, token_id, admin, fee_collector, user }
    }

    fn bridge(&self) -> Bridge<'_> {
        create_bridge_client(&self.env, &self.bridge_id)
    }
}

// -----------------------------------------------------------------------
// Scenario 1: Token transfer during fee withdrawal
//
// The guard prevents true re-entrancy. This test
// verifies that a fund_c_address followed immediately by withdraw_fees in
// the same ledger context produces correct sequential state:
//   - fee accrued after fund equals what withdraw_fees drains
//   - no double-spending or ghost balance
// -----------------------------------------------------------------------

#[test]
fn test_sequential_fund_then_withdraw_fees_correct_state() {
    let s = ConcurrentSetup::new();
    mint_tokens(&s.env, &s.token_id, &s.user, 10_000i128);

    let target = generate(&s.env);

    // Step 1: fund - accrues 100 in fees (1% of 10_000)
    s.bridge().fund_c_address(
        &s.user, &target, &s.token_id, &10_000i128, &None, &None,
    );

    assert_eq!(s.bridge().query_accrued_fees(&s.token_id), 100i128);
    assert_eq!(check_balance(&s.env, &s.token_id, &s.bridge_id), 100i128);
    assert_eq!(check_balance(&s.env, &s.token_id, &target), 9_900i128);

    // Step 2: withdraw_fees in the same ledger (next sequential call)
    s.bridge().withdraw_fees(&s.token_id, &100i128, &None);

    assert_eq!(s.bridge().query_accrued_fees(&s.token_id), 0i128);
    assert_eq!(check_balance(&s.env, &s.token_id, &s.bridge_id), 0i128);
    assert_eq!(check_balance(&s.env, &s.token_id, &s.fee_collector), 100i128);
}

#[test]
fn test_sequential_withdraw_exceeds_accrued_after_partial_withdrawal() {
    let s = ConcurrentSetup::new();
    mint_tokens(&s.env, &s.token_id, &s.user, 20_000i128);

    let target = generate(&s.env);
    // Fund twice: 10_000 each -> fee = 100 each -> 200 total accrued
    s.bridge().fund_c_address(&s.user, &target, &s.token_id, &10_000i128, &None, &None);
    s.bridge().fund_c_address(&s.user, &target, &s.token_id, &10_000i128, &None, &None);

    assert_eq!(s.bridge().query_accrued_fees(&s.token_id), 200i128);

    // Withdraw 150 -> 50 remaining
    s.bridge().withdraw_fees(&s.token_id, &150i128, &None);
    assert_eq!(s.bridge().query_accrued_fees(&s.token_id), 50i128);

    // Try to withdraw 51 - should fail: InsufficientReclaimable
    assert_eq!(
        s.bridge().try_withdraw_fees(&s.token_id, &51i128, &None),
        Err(Ok(BridgeError::InsufficientReclaimable))
    );

    // Can still withdraw the remaining 50
    s.bridge().withdraw_fees(&s.token_id, &50i128, &None);
    assert_eq!(s.bridge().query_accrued_fees(&s.token_id), 0i128);
}

// -----------------------------------------------------------------------
// Scenario 2: Batch funding where targets change access status mid-processing
//
// In a single batch call the access check is evaluated per-entry in sequence.
// If a target is blocked, its amount is refunded; others succeed.  This
// simulates the observable effect of interleaved access changes across
// sequential calls.
// -----------------------------------------------------------------------

#[test]
fn test_batch_sequential_access_change_between_calls() {
    let s = ConcurrentSetup::new();
    mint_tokens(&s.env, &s.token_id, &s.user, 5_000i128);

    let target_a = generate(&s.env);
    let target_b = generate(&s.env);

    // Call 1: both targets open - both succeed
    let targets = list_of(&s.env, [target_a.clone(), target_b.clone()]);
    let amounts = list_of(&s.env, [1_000i128, 1_000i128]);
    s.bridge().batch_fund_c_address(
        &s.user, &targets, &amounts, &s.token_id, &None, &None,
    );
    assert_eq!(check_balance(&s.env, &s.token_id, &target_a), 990i128);
    assert_eq!(check_balance(&s.env, &s.token_id, &target_b), 990i128);

    // Simulate "interleaved state change": block target_b between calls
    s.bridge().add_to_blocklist(&target_b, &None);

    // Call 2: target_a still open, target_b blocked -> target_b refunded
    let targets2 = list_of(&s.env, [target_a.clone(), target_b.clone()]);
    let amounts2 = list_of(&s.env, [500i128, 500i128]);
    s.bridge().batch_fund_c_address(
        &s.user, &targets2, &amounts2, &s.token_id, &None, &None,
    );

    // target_a receives additional 495 (1% fee on 500); target_b gets nothing
    assert_eq!(check_balance(&s.env, &s.token_id, &target_a), 990 + 495);
    assert_eq!(check_balance(&s.env, &s.token_id, &target_b), 990i128); // unchanged
    // user gets back the 500 for blocked target_b
    assert_eq!(check_balance(&s.env, &s.token_id, &s.user), 5_000 - 2_000 - 500);
}

#[test]
fn test_batch_sequential_all_targets_blocked_mid_sequence() {
    let s = ConcurrentSetup::new();
    mint_tokens(&s.env, &s.token_id, &s.user, 3_000i128);

    let t1 = generate(&s.env);
    let t2 = generate(&s.env);
    let t3 = generate(&s.env);

    // Block all three targets before the batch call
    s.bridge().add_to_blocklist(&t1, &None);
    s.bridge().add_to_blocklist(&t2, &None);
    s.bridge().add_to_blocklist(&t3, &None);

    let targets = list_of(&s.env, [t1.clone(), t2.clone(), t3.clone()]);
    let amounts = list_of(&s.env, [1_000i128, 1_000i128, 1_000i128]);

    s.bridge().batch_fund_c_address(
        &s.user, &targets, &amounts, &s.token_id, &None, &None,
    );

    // Full refund: user gets all 3_000 back
    assert_eq!(check_balance(&s.env, &s.token_id, &s.user), 3_000i128);
    assert_eq!(check_balance(&s.env, &s.token_id, &t1), 0i128);
    assert_eq!(check_balance(&s.env, &s.token_id, &t2), 0i128);
    assert_eq!(check_balance(&s.env, &s.token_id, &t3), 0i128);
    assert_eq!(s.bridge().query_accrued_fees(&s.token_id), 0i128);
}

// -----------------------------------------------------------------------
// Scenario 3: Multiple fee withdrawals in sequence
//
// Verifies that sequential partial withdrawals correctly decrement the
// accrued-fees counter and never allow over-withdrawal.
// -----------------------------------------------------------------------

#[test]
fn test_multiple_sequential_fee_withdrawals() {
    let s = ConcurrentSetup::new();
    mint_tokens(&s.env, &s.token_id, &s.user, 100_000i128);

    let target = generate(&s.env);
    // 10 fund calls x 10_000 each @ 1% = 1_000 total fees
    for _ in 0..10 {
        s.bridge().fund_c_address(
            &s.user, &target, &s.token_id, &10_000i128, &None, &None,
        );
    }
    assert_eq!(s.bridge().query_accrued_fees(&s.token_id), 1_000i128);

    // 5 sequential partial withdrawals of 200 each = 1_000 total
    for i in 0..5u64 {
        s.bridge().withdraw_fees(&s.token_id, &200i128, &None);
        let remaining = 1_000 - (200 * (i as i128 + 1));
        assert_eq!(s.bridge().query_accrued_fees(&s.token_id), remaining);
    }

    // All drained
    assert_eq!(s.bridge().query_accrued_fees(&s.token_id), 0i128);
    assert_eq!(check_balance(&s.env, &s.token_id, &s.fee_collector), 1_000i128);

    // 6th withdrawal must fail
    assert_eq!(
        s.bridge().try_withdraw_fees(&s.token_id, &1i128, &None),
        Err(Ok(BridgeError::InsufficientReclaimable))
    );
}

#[test]
fn test_sequential_fund_withdraw_fund_withdraw_interleaved() {
    let s = ConcurrentSetup::new();
    mint_tokens(&s.env, &s.token_id, &s.user, 50_000i128);

    let target = generate(&s.env);

    // Round 1: fund 10_000 -> fee 100, then immediately withdraw 100
    s.bridge().fund_c_address(
        &s.user, &target, &s.token_id, &10_000i128, &None, &None,
    );
    assert_eq!(s.bridge().query_accrued_fees(&s.token_id), 100i128);
    s.bridge().withdraw_fees(&s.token_id, &100i128, &None);
    assert_eq!(s.bridge().query_accrued_fees(&s.token_id), 0i128);

    // Round 2: fund 20_000 -> fee 200, withdraw 100, 50 remaining
    s.bridge().fund_c_address(
        &s.user, &target, &s.token_id, &20_000i128, &None, &None,
    );
    assert_eq!(s.bridge().query_accrued_fees(&s.token_id), 200i128);
    s.bridge().withdraw_fees(&s.token_id, &100i128, &None);
    s.bridge().withdraw_fees(&s.token_id, &100i128, &None);
    assert_eq!(s.bridge().query_accrued_fees(&s.token_id), 0i128);

    // Total withdrawn = 100 + 200 = 300
    assert_eq!(check_balance(&s.env, &s.token_id, &s.fee_collector), 300i128);
}

// -----------------------------------------------------------------------
// Scenario 4: Contract initialization race
//
// Soroban processes transactions sequentially; a second initialize call in
// the same execution context must return AlreadyInitialized regardless of
// how quickly it follows the first. These tests prove the guard is robust.
// -----------------------------------------------------------------------

#[test]
fn test_double_initialize_rejected_sequential() {
    let env = Network::default();
    env.mock_all_auths();

    let (bridge_id, _) = register_all_contracts_mocked(&env);
    let bridge = create_bridge_client(&env, &bridge_id);
    let (admin, _, fee_collector) = create_test_users(&env);

    // First init succeeds
    bridge.initialize(&admin, &fee_collector, &50u32, &None);
    assert!(bridge.query_is_initialized());

    // Immediate second call: different admin, should still be rejected
    let attacker = generate(&env);
    assert_eq!(
        bridge.try_initialize(&attacker, &attacker, &50u32, &None),
        Err(Ok(BridgeError::AlreadyInitialized))
    );

    // State must reflect the original init only
    assert_eq!(bridge.query_admin(), admin);
    assert_eq!(bridge.query_fee_collector(), fee_collector);
    assert_eq!(bridge.query_fee_bps(), 50u32);
}

#[test]
fn test_initialize_race_cannot_hijack_admin() {
    let env = Network::default();
    env.mock_all_auths();

    let (bridge_id, _) = register_all_contracts_mocked(&env);
    let bridge = create_bridge_client(&env, &bridge_id);
    let (admin, _, fee_collector) = create_test_users(&env);

    bridge.initialize(&admin, &fee_collector, &100u32, &None);

    // Simulate three rapid "race" init attempts
    for _ in 0..3 {
        let fake_admin = generate(&env);
        assert_eq!(
            bridge.try_initialize(&fake_admin, &fake_admin, &1000u32, &None),
            Err(Ok(BridgeError::AlreadyInitialized))
        );
    }

    // Contract state is intact
    assert_eq!(bridge.query_admin(), admin);
    assert_eq!(bridge.query_fee_bps(), 100u32);
}

#[test]
fn test_initialize_race_with_different_fee_bps() {
    let env = Network::default();
    env.mock_all_auths();

    let (bridge_id, _) = register_all_contracts_mocked(&env);
    let bridge = create_bridge_client(&env, &bridge_id);
    let (admin, _, fee_collector) = create_test_users(&env);

    bridge.initialize(&admin, &fee_collector, &200u32, &None);

    // Second call with lower fee should NOT succeed and overwrite
    assert_eq!(
        bridge.try_initialize(&admin, &fee_collector, &0u32, &None),
        Err(Ok(BridgeError::AlreadyInitialized))
    );

    // Fee unchanged
    assert_eq!(bridge.query_fee_bps(), 200u32);
}

// -----------------------------------------------------------------------
// Scenario 5: Re-entrancy guard prevents nested calls
//
// The guard is held for the duration of each mutating call.
// This test verifies fund_c_address -> the guard is cleared after return,
// allowing the next sequential call to proceed normally.
// -----------------------------------------------------------------------

#[test]
fn test_sequential_calls_after_reentrancy_guard_clears() {
    let s = ConcurrentSetup::new();
    mint_tokens(&s.env, &s.token_id, &s.user, 10_000i128);

    let t1 = generate(&s.env);
    let t2 = generate(&s.env);
    let t3 = generate(&s.env);

    // Three sequential fund calls - each must succeed (guard clears between calls)
    s.bridge().fund_c_address(
        &s.user, &t1, &s.token_id, &3_000i128, &None, &None,
    );
    s.bridge().fund_c_address(
        &s.user, &t2, &s.token_id, &3_000i128, &None, &None,
    );
    s.bridge().fund_c_address(
        &s.user, &t3, &s.token_id, &4_000i128, &None, &None,
    );

    // Total fee: 30 + 30 + 40 = 100; net to each: 2970, 2970, 3960
    assert_eq!(check_balance(&s.env, &s.token_id, &t1), 2_970i128);
    assert_eq!(check_balance(&s.env, &s.token_id, &t2), 2_970i128);
    assert_eq!(check_balance(&s.env, &s.token_id, &t3), 3_960i128);
    assert_eq!(s.bridge().query_accrued_fees(&s.token_id), 100i128);
    assert_eq!(check_balance(&s.env, &s.token_id, &s.user), 0i128);
}

// -----------------------------------------------------------------------
// Entering while another call is in progress is refused with
// BridgeError::Reentrant. That is what a token that calls back into the
// bridge would run into.
// -----------------------------------------------------------------------

#[test]
fn test_reentrant_call_returns_error() {
    let s = ConcurrentSetup::new();

    let bridge = s.bridge();
    bridge.call(|b, _| b.enter()).unwrap();
    let inner = bridge.call(|b, _| b.enter());
    assert!(matches!(inner, Err(Ok(BridgeError::Reentrant))));
    let still = bridge.try_set_fee_bps(&1u32, &None);
    assert_eq!(still, Err(Ok(BridgeError::Reentrant)));
    bridge.call(|b, _| Ok(b.leave())).unwrap();

    // Once the outer call is over, entry succeeds again (sequential calls
    // are unaffected, only true reentrancy is rejected).
    assert!(bridge.call(|b, _| b.enter()).is_ok());
}

// -----------------------------------------------------------------------
// Scenario 6: Fee counter consistency across mixed batch + single calls
//
// Mixing batch_fund_c_address and fund_c_address in sequence must keep
// all counters (accrued_fees, total_bridged, total_fees_collected) consistent.
// -----------------------------------------------------------------------

#[test]
fn test_mixed_batch_and_single_fee_counter_consistency() {
    let s = ConcurrentSetup::new();
    mint_tokens(&s.env, &s.token_id, &s.user, 50_000i128);

    let t1 = generate(&s.env);
    let t2 = generate(&s.env);
    let t3 = generate(&s.env);

    // Single fund: 10_000 -> fee 100, net 9_900
    s.bridge().fund_c_address(
        &s.user, &t1, &s.token_id, &10_000i128, &None, &None,
    );

    // Batch fund: [20_000, 5_000] -> fees 200 + 50 = 250, nets 19_800 + 4_950
    let targets = list_of(&s.env, [t2.clone(), t3.clone()]);
    let amounts = list_of(&s.env, [20_000i128, 5_000i128]);
    s.bridge().batch_fund_c_address(
        &s.user, &targets, &amounts, &s.token_id, &None, &None,
    );

    // Another single fund: 15_000 -> fee 150, net 14_850
    s.bridge().fund_c_address(
        &s.user, &t1, &s.token_id, &15_000i128, &None, &None,
    );

    // Total fees = 100 + 250 + 150 = 500
    assert_eq!(s.bridge().query_accrued_fees(&s.token_id), 500i128);
    assert_eq!(s.bridge().query_total_fees_collected(&s.token_id), 500i128);
    // Total bridged = 9_900 + 19_800 + 4_950 + 14_850 = 49_500
    assert_eq!(s.bridge().query_total_bridged(&s.token_id), 49_500i128);

    // Now drain all fees sequentially in two calls
    s.bridge().withdraw_fees(&s.token_id, &300i128, &None);
    s.bridge().withdraw_fees(&s.token_id, &200i128, &None);
    assert_eq!(s.bridge().query_accrued_fees(&s.token_id), 0i128);
    assert_eq!(check_balance(&s.env, &s.token_id, &s.fee_collector), 500i128);
}

#[test]
fn test_emergency_migrate_basic() {
    let env = Network::default();
    let (admin, _user, fee_collector) = create_test_users(&env);
    let (bridge_id, _) = register_all_contracts_mocked(&env);
    let bridge = create_bridge_client(&env, &bridge_id);

    bridge.initialize(&admin, &fee_collector, &50u32, &None);

    let new_contract = generate(&env);

    // Call emergency_migrate as admin
    env.mock_all_auths();
    bridge.emergency_migrate(&new_contract, &true);

    // Verify it is deactivated by trying to call pause/unpause/set_minimum_amount
    assert_eq!(
        bridge.try_pause(&None),
        Err(Ok(BridgeError::ContractDeactivated))
    );
    assert_eq!(
        bridge.try_unpause(&None),
        Err(Ok(BridgeError::ContractDeactivated))
    );
    assert_eq!(
        bridge.try_set_minimum_amount(&100i128, &None),
        Err(Ok(BridgeError::ContractDeactivated))
    );
    assert_eq!(
        bridge.try_upgrade(&bytes32(&env, &[0; 32]), &None),
        Err(Ok(BridgeError::ContractDeactivated))
    );
    assert_eq!(
        bridge.try_schedule_upgrade(&bytes32(&env, &[0; 32]), &None),
        Err(Ok(BridgeError::ContractDeactivated))
    );
    assert_eq!(
        bridge.try_execute_upgrade(&bytes32(&env, &[0; 32]), &None),
        Err(Ok(BridgeError::ContractDeactivated))
    );
    assert_eq!(
        bridge.try_cancel_upgrade(&None),
        Err(Ok(BridgeError::ContractDeactivated))
    );
    assert_eq!(
        bridge.try_emergency_migrate(&new_contract, &true),
        Err(Ok(BridgeError::ContractDeactivated))
    );

    // Verify we can still query the final state
    assert!(bridge.query_is_paused());
}

#[test]
#[should_panic]
fn test_emergency_migrate_non_admin_rejected() {
    let env = Network::default();
    let (admin, _user, fee_collector) = create_test_users(&env);
    let (bridge_id, _) = register_all_contracts_mocked(&env);
    let bridge = create_bridge_client(&env, &bridge_id);

    bridge.initialize(&admin, &fee_collector, &50u32, &None);

    let new_contract = generate(&env);

    // Clear all mocked auths so emergency_migrate is called without admin authorization.
    env.clear_auths();
    bridge.emergency_migrate(&new_contract, &true);
}

// Meta-fund pubkey/source binding

// The supplied `pubkey` must be the one that `params.source` registered: a valid
// signature alone does not say whose funds may be moved. The check against the
// `register_meta_signer` registry happens before signature verification, so a
// bogus/zeroed signature is enough to exercise this path.
#[test]
fn test_meta_fund_rejects_pubkey_source_mismatch() {
    let env = Network::default();
    let (admin, user, fee_collector) = create_test_users(&env);
    let (bridge_id, token_id) = register_all_contracts_mocked(&env);
    let bridge = create_bridge_client(&env, &bridge_id);
    init_token(&env, &token_id, &admin);

    bridge.initialize(&admin, &fee_collector, &100u32, &None);
    bridge.add_asset(&token_id, &None);
    mint_tokens(&env, &token_id, &user, 1000i128);

    let target = generate(&env);

    // `user` registers pubkey_a as their meta-tx signer.
    let pubkey_a = bytes32(&env, &[0xAAu8; 32]);
    bridge.register_meta_signer(&user, &pubkey_a);

    // A relayer attempts to submit a meta-tx for `user` using an unrelated
    // pubkey_b. The signature is bogus, but the source/pubkey binding check
    // runs first, so the call never reaches Ed25519 verification.
    let pubkey_b = bytes32(&env, &[0xBBu8; 32]);
    let bogus_signature = bytes64(&env, &[0u8; 64]);

    let params = MetaFundParams {
        source: user.clone(),
        target,
        asset: token_id.clone(),
        amount: 500i128,
        nonce: 0u64,
        deadline: 1_000_000u64,
    };

    assert_eq!(
        bridge.try_execute_meta_fund(&params, &pubkey_b, &bogus_signature),
        Err(Ok(BridgeError::MetaTxPubkeySourceMismatch))
    );

    // No tokens should have moved.
    assert_eq!(check_balance(&env, &token_id, &user), 1000i128);
    assert_eq!(check_balance(&env, &token_id, &bridge_id), 0i128);
}

// Same scenario, but no pubkey was ever registered for `source` - must also
// be rejected rather than silently accepting any signer.
#[test]
fn test_meta_fund_rejects_unregistered_source() {
    let env = Network::default();
    let (admin, user, fee_collector) = create_test_users(&env);
    let (bridge_id, token_id) = register_all_contracts_mocked(&env);
    let bridge = create_bridge_client(&env, &bridge_id);
    init_token(&env, &token_id, &admin);

    bridge.initialize(&admin, &fee_collector, &100u32, &None);
    bridge.add_asset(&token_id, &None);
    mint_tokens(&env, &token_id, &user, 1000i128);

    let target = generate(&env);
    let pubkey = bytes32(&env, &[0xCCu8; 32]);
    let bogus_signature = bytes64(&env, &[0u8; 64]);

    let params = MetaFundParams {
        source: user.clone(),
        target,
        asset: token_id.clone(),
        amount: 500i128,
        nonce: 0u64,
        deadline: 1_000_000u64,
    };

    assert_eq!(
        bridge.try_execute_meta_fund(&params, &pubkey, &bogus_signature),
        Err(Ok(BridgeError::MetaTxPubkeySourceMismatch))
    );
}

#[test]
fn test_meta_fund_happy_path() {
    let env = Network::default();
    let (admin, user, fee_collector) = create_test_users(&env);
    let (bridge_id, token_id) = register_all_contracts_mocked(&env);
    let bridge = create_bridge_client(&env, &bridge_id);
    init_token(&env, &token_id, &admin);

    bridge.initialize(&admin, &fee_collector, &100u32, &None);
    bridge.add_asset(&token_id, &None);
    mint_tokens(&env, &token_id, &user, 1000i128);

    let target = generate(&env);

    // Deterministic keypair (seed = 0x42..) so the signature is reproducible.
    let seed = [0x42u8; 32];
    let signing_key = SigningKey::from_bytes(&seed);
    let pubkey = bytes32(&env, signing_key.verifying_key().as_bytes());
    bridge.register_meta_signer(&user, &pubkey);

    let amount: i128 = 500;
    let nonce: u64 = 0;
    let deadline: u64 = 2_000_000;

    let payload_hash = build_meta_fund_payload_hash(
        &env, &user, &target, &token_id, amount, nonce, deadline,
    );
    let signature = sign_meta_fund_payload(&env, &signing_key, &payload_hash);

    let params = MetaFundParams {
        source: user.clone(),
        target: target.clone(),
        asset: token_id.clone(),
        amount,
        nonce,
        deadline,
    };

    bridge.execute_meta_fund(&params, &pubkey, &signature);

    // 500 * 100 / 10000 = 5 fee -> net 495 to target
    assert_eq!(check_balance(&env, &token_id, &target), 495i128);
    assert_eq!(check_balance(&env, &token_id, &user), 500i128);
}

#[test]
fn test_meta_fund_expired_deadline_fails() {
    let env = Network::default();
    env.ledger().set_timestamp(2_000);
    let (admin, user, fee_collector) = create_test_users(&env);
    let (bridge_id, token_id) = register_all_contracts_mocked(&env);
    let bridge = create_bridge_client(&env, &bridge_id);
    init_token(&env, &token_id, &admin);

    bridge.initialize(&admin, &fee_collector, &100u32, &None);
    bridge.add_asset(&token_id, &None);
    mint_tokens(&env, &token_id, &user, 1000i128);

    let target = generate(&env);

    let seed = [0x42u8; 32];
    let signing_key = SigningKey::from_bytes(&seed);
    let pubkey = bytes32(&env, signing_key.verifying_key().as_bytes());
    bridge.register_meta_signer(&user, &pubkey);

    let amount: i128 = 500;
    let nonce: u64 = 0;
    let deadline: u64 = 1_999; // already passed (ledger timestamp = 2_000)

    let payload_hash = build_meta_fund_payload_hash(
        &env, &user, &target, &token_id, amount, nonce, deadline,
    );
    let signature = sign_meta_fund_payload(&env, &signing_key, &payload_hash);

    let params = MetaFundParams {
        source: user.clone(),
        target,
        asset: token_id.clone(),
        amount,
        nonce,
        deadline,
    };

    assert_eq!(
        bridge.try_execute_meta_fund(&params, &pubkey, &signature),
        Err(Ok(BridgeError::MetaTxExpired))
    );
}

#[test]
fn test_meta_fund_nonce_replay_rejected() {
    let env = Network::default();
    let (admin, user, fee_collector) = create_test_users(&env);
    let (bridge_id, token_id) = register_all_contracts_mocked(&env);
    let bridge = create_bridge_client(&env, &bridge_id);
    init_token(&env, &token_id, &admin);

    bridge.initialize(&admin, &fee_collector, &0u32, &None);
    bridge.add_asset(&token_id, &None);
    mint_tokens(&env, &token_id, &user, 2000i128);

    let target1 = generate(&env);
    let target2 = generate(&env);

    let seed = [0x7Fu8; 32];
    let signing_key = SigningKey::from_bytes(&seed);
    let pubkey = bytes32(&env, signing_key.verifying_key().as_bytes());
    bridge.register_meta_signer(&user, &pubkey);

    let amount: i128 = 500;
    let nonce: u64 = 42;
    let deadline: u64 = 2_000_000;

    let payload_hash = build_meta_fund_payload_hash(
        &env, &user, &target1, &token_id, amount, nonce, deadline,
    );
    let signature = sign_meta_fund_payload(&env, &signing_key, &payload_hash);

    let params = MetaFundParams {
        source: user.clone(),
        target: target1.clone(),
        asset: token_id.clone(),
        amount,
        nonce,
        deadline,
    };

    // First use succeeds.
    bridge.execute_meta_fund(&params, &pubkey, &signature);
    assert_eq!(check_balance(&env, &token_id, &target1), 500i128);

    // Replay with same (source, nonce) must be rejected.
    let params2 = MetaFundParams {
        source: user.clone(),
        target: target2,
        asset: token_id.clone(),
        amount,
        nonce,
        deadline,
    };

    assert_eq!(
        bridge.try_execute_meta_fund(&params2, &pubkey, &signature),
        Err(Ok(BridgeError::MetaTxNonceAlreadyUsed))
    );
}

#[test]
#[should_panic]
fn test_meta_fund_invalid_signature_fails() {
    let env = Network::default();
    let (admin, user, fee_collector) = create_test_users(&env);
    let (bridge_id, token_id) = register_all_contracts_mocked(&env);
    let bridge = create_bridge_client(&env, &bridge_id);
    init_token(&env, &token_id, &admin);

    bridge.initialize(&admin, &fee_collector, &100u32, &None);
    bridge.add_asset(&token_id, &None);
    mint_tokens(&env, &token_id, &user, 1000i128);

    let target = generate(&env);

    let seed = [0x42u8; 32];
    let signing_key = SigningKey::from_bytes(&seed);
    let pubkey = bytes32(&env, signing_key.verifying_key().as_bytes());
    bridge.register_meta_signer(&user, &pubkey);

    let amount: i128 = 500;
    let nonce: u64 = 0;
    let deadline: u64 = 2_000_000;

    // A signature that is corrupt: all zeros, not produced by the registered key.
    // The Ed25519 host function traps on invalid signatures rather than returning
    // an error, hence `#[should_panic]`.
    let forged_signature = bytes64(&env, &[0u8; 64]);

    let params = MetaFundParams {
        source: user.clone(),
        target,
        asset: token_id.clone(),
        amount,
        nonce,
        deadline,
    };

    bridge.execute_meta_fund(&params, &pubkey, &forged_signature);
}

// Batch fund minimum-amount enforcement

// A batch holds each amount against the configured minimum, as `fund_c_address`
// does.
#[test]
fn test_batch_fund_rejects_amount_below_minimum() {
    let env = Network::default();
    let (admin, user, fee_collector) = create_test_users(&env);
    let (bridge_id, token_id) = register_all_contracts_mocked(&env);
    let bridge = create_bridge_client(&env, &bridge_id);
    init_token(&env, &token_id, &admin);

    bridge.initialize(&admin, &fee_collector, &100u32, &None);
    bridge.add_asset(&token_id, &None);
    bridge.set_minimum_amount(&50i128, &None);

    mint_tokens(&env, &token_id, &user, 1000i128);

    let targets = list_of(&env, [generate(&env), generate(&env)]);
    // Second amount (10) is below the configured minimum of 50.
    let amounts = list_of(&env, [100i128, 10i128]);

    assert_eq!(
        bridge.try_batch_fund_c_address(&user, &targets, &amounts, &token_id, &None, &None),
        Err(Ok(BridgeError::InvalidAmount))
    );

    // The whole batch is rejected before any token pull, so nothing moved.
    assert_eq!(check_balance(&env, &token_id, &user), 1000i128);
    assert_eq!(check_balance(&env, &token_id, &bridge_id), 0i128);
}

// Batch fund daily-limit enforcement

// The daily limit of a source covers what it sends in batches.
#[test]
fn test_batch_fund_respects_daily_limit() {
    let env = Network::default();
    let (admin, user, fee_collector) = create_test_users(&env);
    let (bridge_id, token_id) = register_all_contracts_mocked(&env);
    let bridge = create_bridge_client(&env, &bridge_id);
    init_token(&env, &token_id, &admin);

    bridge.initialize(&admin, &fee_collector, &100u32, &None);
    bridge.add_asset(&token_id, &None);
    bridge.set_source_daily_limit(&user, &token_id, &500i128, &None);

    mint_tokens(&env, &token_id, &user, 1000i128);

    let targets = list_of(&env, [generate(&env), generate(&env)]);
    // 300 + 300 = 600 exceeds the configured daily limit of 500, even though
    // no single amount would trip a per-transfer check.
    let amounts = list_of(&env, [300i128, 300i128]);

    assert_eq!(
        bridge.try_batch_fund_c_address(&user, &targets, &amounts, &token_id, &None, &None),
        Err(Ok(BridgeError::DailyLimitExceeded))
    );

    assert_eq!(check_balance(&env, &token_id, &user), 1000i128);
}

// A batch within the daily limit should still succeed and consume the usage,
// so a subsequent batch that would push cumulative usage over the limit fails.
#[test]
fn test_batch_fund_within_daily_limit_succeeds() {
    let env = Network::default();
    let (admin, user, fee_collector) = create_test_users(&env);
    let (bridge_id, token_id) = register_all_contracts_mocked(&env);
    let bridge = create_bridge_client(&env, &bridge_id);
    init_token(&env, &token_id, &admin);

    bridge.initialize(&admin, &fee_collector, &100u32, &None);
    bridge.add_asset(&token_id, &None);
    bridge.set_source_daily_limit(&user, &token_id, &500i128, &None);

    mint_tokens(&env, &token_id, &user, 1000i128);

    let target1 = generate(&env);
    let target2 = generate(&env);
    let targets = list_of(&env, [target1.clone(), target2.clone()]);
    let amounts = list_of(&env, [200i128, 200i128]);

    bridge.batch_fund_c_address(&user, &targets, &amounts, &token_id, &None, &None);

    assert_eq!(check_balance(&env, &token_id, &user), 600i128);

    let more_targets = list_of(&env, [generate(&env)]);
    let more_amounts = list_of(&env, [200i128]);
    assert_eq!(
        bridge.try_batch_fund_c_address(&user, &more_targets, &more_amounts, &token_id, &None, &None),
        Err(Ok(BridgeError::DailyLimitExceeded))
    );
}

// Tiered fee applied to batch/referral funding paths

// A batch is charged at the volume tier of its source.
#[test]
fn test_batch_fund_applies_tiered_fee() {
    let env = Network::default();
    let (admin, user, fee_collector) = create_test_users(&env);
    let (bridge_id, token_id) = register_all_contracts_mocked(&env);
    let bridge = create_bridge_client(&env, &bridge_id);
    init_token(&env, &token_id, &admin);

    // Global fee is 100 bps (1%), but a volume tier discounts it to 10 bps (0.1%)
    // for cumulative volume in [0, 1_000_000] - i.e. every source by default.
    bridge.initialize(&admin, &fee_collector, &100u32, &None);
    bridge.add_asset(&token_id, &None);
    let tiers = list_of(
        &env,
        [FeeTier {
            min_volume: 0,
            max_volume: 1_000_000i128,
            fee_bps: 10u32,
        }],
    );
    bridge.set_fee_tiers(&tiers);

    mint_tokens(&env, &token_id, &user, 1000i128);
    let target = generate(&env);
    let targets = list_of(&env, [target.clone()]);
    let amounts = list_of(&env, [1000i128]);

    bridge.batch_fund_c_address(&user, &targets, &amounts, &token_id, &None, &None);

    // Tiered fee (10 bps) on 1000 = 1, not the flat global rate (100 bps = 10).
    assert_eq!(check_balance(&env, &token_id, &target), 999i128);
    assert_eq!(check_balance(&env, &token_id, &bridge_id), 1i128);
}

#[test]
fn test_extend_instance_ttl_extends_instance_storage() {
    let env = Network::default();
    let (admin, _user, fee_collector) = create_test_users(&env);
    let (bridge_id, _) = register_all_contracts_mocked(&env);
    let bridge = create_bridge_client(&env, &bridge_id);

    bridge.initialize(&admin, &fee_collector, &50u32, &None);
    env.ledger().set_sequence_number(MAX_ALLOWED_TTL - 10);

    bridge.extend_instance_ttl(&200_000u32);

    let ttl = env.instance_ttl();
    assert!(ttl >= 200_000);
}

#[test]
fn test_extend_persistent_ttl_extends_asset_keys() {
    let env = Network::default();
    let (admin, user, fee_collector) = create_test_users(&env);
    let (bridge_id, token_id) = register_all_contracts_mocked(&env);
    let bridge = create_bridge_client(&env, &bridge_id);
    init_token(&env, &token_id, &admin);

    bridge.initialize(&admin, &fee_collector, &100u32, &None);
    bridge.add_asset(&token_id, &None);
    mint_tokens(&env, &token_id, &user, 1000i128);
    bridge.fund_c_address(
        &user,
        &generate(&env),
        &token_id,
        &500i128,
        &None,
        &None,
    );
    bridge.set_asset_fee_cap(&token_id, &1000u32, &None);

    env.ledger().set_sequence_number(MAX_ALLOWED_TTL - 10);
    bridge.extend_persistent_ttl(&token_id, &200_000u32);

    let expected_keys = [
        DataKey::AccruedFees(token_id.clone()),
        DataKey::TotalBridged(token_id.clone()),
        DataKey::TotalFeesCollected(token_id.clone()),
        DataKey::AssetStats(token_id.clone()),
        DataKey::AssetFeeCap(token_id.clone()),
    ];
    for key in expected_keys.iter() {
        let ttl = env.ttl(key);
        assert!(ttl >= 200_000);
    }
}

// extend_source_persistent_ttl tests

#[test]
fn test_extend_source_persistent_ttl_extends_source_keys() {
    let env = Network::default();
    let (admin, user, fee_collector) = create_test_users(&env);
    let (bridge_id, token_id) = register_all_contracts_mocked(&env);
    let bridge = create_bridge_client(&env, &bridge_id);
    init_token(&env, &token_id, &admin);

    bridge.initialize(&admin, &fee_collector, &100u32, &None);
    bridge.add_asset(&token_id, &None);
    bridge.set_source_daily_limit(&user, &token_id, &10_000i128, &None);
    mint_tokens(&env, &token_id, &user, 1000i128);
    bridge.fund_c_address(
        &user,
        &generate(&env),
        &token_id,
        &500i128,
        &Some(0u64),
        &None,
    );

    let seq = env.ledger().sequence();
    bridge.verify_auth_entry(&user, &0u64, &0u32, &(seq + 100));

    // The daily-usage key is scoped by calendar day, derived the same way
    // `check_daily_limit` derives it internally.
    let day = env.ledger().timestamp() / 86_400;

    env.ledger().set_sequence_number(MAX_ALLOWED_TTL - 10);
    bridge.extend_source_persistent_ttl(&user, &token_id, &200_000u32);

    let expected_keys = [
        DataKey::SourceDailyLimit(user.clone(), token_id.clone()),
        DataKey::DailyUsage(user.clone(), token_id.clone(), day),
        DataKey::UserDeposit(user.clone(), token_id.clone()),
        DataKey::SourceBridgedVolume(user.clone()),
        DataKey::Nonce(user.clone()),
        DataKey::AuthNonce(user.clone()),
    ];
    for key in expected_keys.iter() {
        let ttl = env.ttl(key);
        assert!(ttl >= 200_000);
    }

    assert_eq!(
        count_events_with_topic(&env, &bridge_id, "SourcePersistentTtlExtended"),
        1
    );
}

#[test]
fn test_extend_source_persistent_ttl_not_initialized_fails() {
    let env = Network::default();
    let (bridge_id, _) = register_all_contracts_mocked(&env);
    let bridge = create_bridge_client(&env, &bridge_id);
    let source = generate(&env);
    let asset = generate(&env);

    assert_eq!(
        bridge.try_extend_source_persistent_ttl(&source, &asset, &200_000u32),
        Err(Ok(BridgeError::NotInitialized))
    );
}

#[test]
fn test_extend_source_persistent_ttl_skips_missing_keys() {
    let env = Network::default();
    let (admin, _user, fee_collector) = create_test_users(&env);
    let (bridge_id, _) = register_all_contracts_mocked(&env);
    let bridge = create_bridge_client(&env, &bridge_id);

    bridge.initialize(&admin, &fee_collector, &50u32, &None);

    // This (source, asset) pair has never touched storage; none of the six
    // keys exist, so the call must succeed rather than erroring on a
    // missing entry, mirroring `extend_persistent_ttl`.
    let source = generate(&env);
    let asset = generate(&env);
    bridge.extend_source_persistent_ttl(&source, &asset, &200_000u32);
}

#[test]
fn test_extend_source_persistent_ttl_caps_at_max_allowed_ttl() {
    let env = Network::default();
    let (admin, user, fee_collector) = create_test_users(&env);
    let (bridge_id, token_id) = register_all_contracts_mocked(&env);
    let bridge = create_bridge_client(&env, &bridge_id);
    init_token(&env, &token_id, &admin);

    bridge.initialize(&admin, &fee_collector, &100u32, &None);
    bridge.add_asset(&token_id, &None);
    mint_tokens(&env, &token_id, &user, 1000i128);
    bridge.fund_c_address(
        &user,
        &generate(&env),
        &token_id,
        &500i128,
        &None,
        &None,
    );

    env.ledger().set_sequence_number(MAX_ALLOWED_TTL - 10);
    // Requesting far beyond the hard ceiling must silently clamp to
    // `MAX_ALLOWED_TTL` rather than erroring or exceeding it.
    bridge.extend_source_persistent_ttl(&user, &token_id, &(MAX_ALLOWED_TTL * 10));

    let ttl = env.ttl(&DataKey::UserDeposit(user.clone(), token_id.clone()));
    assert!(ttl <= MAX_ALLOWED_TTL);
}

#[test]
fn test_set_max_ttl_updates_config() {
    let env = Network::default();
    let (admin, _user, fee_collector) = create_test_users(&env);
    let (bridge_id, _) = register_all_contracts_mocked(&env);
    let bridge = create_bridge_client(&env, &bridge_id);

    bridge.initialize(&admin, &fee_collector, &50u32, &None);
    env.ledger().set_sequence_number(MAX_ALLOWED_TTL - 10);

    bridge.set_max_instance_ttl(&200_000u32);
    let instance_ttl = env.instance_ttl();
    assert!(instance_ttl >= 200_000);

    bridge.set_max_persistent_ttl(&300_000u32);

    let (instance_ttl, persistent_ttl, hard_ceiling, critical_threshold) =
        bridge.query_ttl_config();
    assert_eq!(instance_ttl, 200_000);
    assert_eq!(persistent_ttl, 300_000);
    assert_eq!(hard_ceiling, MAX_ALLOWED_TTL);
    assert_eq!(critical_threshold, CRITICAL_ENTRY_TTL_THRESHOLD);
}

#[test]
fn test_query_ttl_config_returns_current_settings() {
    let env = Network::default();
    let (admin, _user, fee_collector) = create_test_users(&env);
    let (bridge_id, _) = register_all_contracts_mocked(&env);
    let bridge = create_bridge_client(&env, &bridge_id);

    bridge.initialize(&admin, &fee_collector, &50u32, &None);

    let (instance_ttl, persistent_ttl, hard_ceiling, critical_threshold) =
        bridge.query_ttl_config();
    assert_eq!(instance_ttl, MAX_ALLOWED_TTL);
    assert_eq!(persistent_ttl, MAX_ALLOWED_TTL);
    assert_eq!(hard_ceiling, MAX_ALLOWED_TTL);
    assert_eq!(critical_threshold, CRITICAL_ENTRY_TTL_THRESHOLD);
}

// A referral funding is charged at the volume tier of its source.
#[test]
fn test_referral_fund_applies_tiered_fee() {
    let env = Network::default();
    let (admin, user, fee_collector) = create_test_users(&env);
    let (bridge_id, token_id) = register_all_contracts_mocked(&env);
    let bridge = create_bridge_client(&env, &bridge_id);
    init_token(&env, &token_id, &admin);

    bridge.initialize(&admin, &fee_collector, &100u32, &None);
    bridge.add_asset(&token_id, &None);
    let tiers = list_of(
        &env,
        [FeeTier {
            min_volume: 0,
            max_volume: 1_000_000i128,
            fee_bps: 10u32,
        }],
    );
    bridge.set_fee_tiers(&tiers);

    mint_tokens(&env, &token_id, &user, 1000i128);
    let target = generate(&env);

    bridge.fund_c_address_with_referral(&user, &target, &token_id, &1000i128, &None);

    // Tiered fee (10 bps) on 1000 = 1, not the flat global rate (100 bps = 10).
    assert_eq!(check_balance(&env, &token_id, &target), 999i128);
    assert_eq!(check_balance(&env, &token_id, &bridge_id), 1i128);
}

// Daily limit unit tests

// The daily limit rejects an over-limit transfer via fund_c_address.
#[test]
fn test_daily_limit_blocks_excess_funding() {
    let env = Network::default();
    let (admin, user, fee_collector) = create_test_users(&env);
    let (bridge_id, token_id) = register_all_contracts_mocked(&env);
    let bridge = create_bridge_client(&env, &bridge_id);
    init_token(&env, &token_id, &admin);

    bridge.initialize(&admin, &fee_collector, &100u32, &None);
    bridge.add_asset(&token_id, &None);
    bridge.set_source_daily_limit(&user, &token_id, &500i128, &None);

    mint_tokens(&env, &token_id, &user, 2000i128);

    let target = generate(&env);
    // 501 exceeds the configured daily limit of 500.
    assert_eq!(
        bridge.try_fund_c_address(&user, &target, &token_id, &501i128, &None, &None),
        Err(Ok(BridgeError::DailyLimitExceeded))
    );

    // Source balance is untouched because the transfer never executed.
    assert_eq!(check_balance(&env, &token_id, &user), 2000i128);
    assert_eq!(check_balance(&env, &token_id, &bridge_id), 0i128);
}

// Verify that the daily limit counter resets on the next UTC day,
// allowing transfers that would have been blocked the previous day.
#[test]
fn test_daily_limit_resets_next_day() {
    let env = Network::default();
    let (admin, user, fee_collector) = create_test_users(&env);
    let (bridge_id, token_id) = register_all_contracts_mocked(&env);
    let bridge = create_bridge_client(&env, &bridge_id);
    init_token(&env, &token_id, &admin);

    bridge.initialize(&admin, &fee_collector, &100u32, &None);
    bridge.add_asset(&token_id, &None);
    bridge.set_source_daily_limit(&user, &token_id, &500i128, &None);

    mint_tokens(&env, &token_id, &user, 2000i128);

    // Day 1: consume the full limit.
    let target1 = generate(&env);
    bridge.fund_c_address(&user, &target1, &token_id, &500i128, &None, &None);

    // Still on day 1: a further transfer is rejected.
    assert_eq!(
        bridge.try_fund_c_address(&user, &generate(&env), &token_id, &1i128, &None, &None),
        Err(Ok(BridgeError::DailyLimitExceeded))
    );

    // Advance to the next UTC day (86 400 seconds later).
    advance_ledger_time(&env, env.ledger().timestamp() + 86_400);

    // After the day rolls over the limit should reset, allowing a fresh transfer.
    let target2 = generate(&env);
    bridge.fund_c_address(&user, &target2, &token_id, &500i128, &None, &None);
    assert_eq!(check_balance(&env, &token_id, &target2), 495i128);
}

// Asset fee cap unit tests

// When a per-asset fee cap is set lower than the global rate, the effective
// fee must use the cap rather than the global rate.
#[test]
fn test_asset_fee_cap_overrides_global_rate() {
    let env = Network::default();
    let (admin, user, fee_collector) = create_test_users(&env);
    let (bridge_id, token_id) = register_all_contracts_mocked(&env);
    let bridge = create_bridge_client(&env, &bridge_id);
    init_token(&env, &token_id, &admin);

    // Global fee is 100 bps (1%), but the asset cap is 50 bps (0.5%).
    bridge.initialize(&admin, &fee_collector, &100u32, &None);
    bridge.add_asset(&token_id, &None);
    bridge.set_asset_fee_cap(&token_id, &50u32, &None);

    mint_tokens(&env, &token_id, &user, 1000i128);

    let target = generate(&env);
    bridge.fund_c_address(&user, &target, &token_id, &1000i128, &None, &None);

    // Effective fee: min(100, 50) = 50 bps -> fee = floor(1000 * 50 / 10000) = 5.
    assert_eq!(check_balance(&env, &token_id, &target), 995i128);
    assert_eq!(check_balance(&env, &token_id, &bridge_id), 5i128);
    assert_eq!(bridge.query_accrued_fees(&token_id), 5i128);
}

#[test]
fn test_query_asset_fee_cap_returns_configured_value() {
    let env = Network::default();
    let (admin, _user, fee_collector) = create_test_users(&env);
    let (bridge_id, token_id) = register_all_contracts_mocked(&env);
    let bridge = create_bridge_client(&env, &bridge_id);
    init_token(&env, &token_id, &admin);

    bridge.initialize(&admin, &fee_collector, &100u32, &None);
    bridge.add_asset(&token_id, &None);

    // Default: no cap set yet, should return MAX_FEE_BPS (1000).
    assert_eq!(bridge.query_asset_fee_cap(&token_id), 1000u32);

    // Set a specific cap.
    bridge.set_asset_fee_cap(&token_id, &75u32, &None);
    assert_eq!(bridge.query_asset_fee_cap(&token_id), 75u32);

    // Zero also queries correctly.
    bridge.set_asset_fee_cap(&token_id, &0u32, &None);
    assert_eq!(bridge.query_asset_fee_cap(&token_id), 0u32);
}

// Withdraw max-per-tx unit tests

// The per-transaction withdrawal cap must reject a withdraw_fees call that
// exceeds the configured limit.
#[test]
fn test_withdraw_fees_rejects_amount_over_max_per_tx() {
    let env = Network::default();
    let (admin, user, fee_collector) = create_test_users(&env);
    let (bridge_id, token_id) = register_all_contracts_mocked(&env);
    let bridge = create_bridge_client(&env, &bridge_id);
    init_token(&env, &token_id, &admin);

    bridge.initialize(&admin, &fee_collector, &100u32, &None);
    bridge.add_asset(&token_id, &None);

    // Accrue enough fees to exceed the cap.
    mint_tokens(&env, &token_id, &user, 10_000i128);
    bridge.fund_c_address(&user, &generate(&env), &token_id, &10_000i128, &None, &None);
    // Fee = 10_000 * 100 / 10_000 = 100 accrued.
    assert_eq!(bridge.query_accrued_fees(&token_id), 100i128);

    // Cap withdrawals at 50 per transaction.
    bridge.set_max_withdraw_per_tx(&50i128, &None);

    // Trying to withdraw 51 exceeds the per-tx cap.
    assert_eq!(
        bridge.try_withdraw_fees(&token_id, &51i128, &None),
        Err(Ok(BridgeError::WithdrawExceedsLimit))
    );

    // Withdrawing within the cap succeeds.
    bridge.withdraw_fees(&token_id, &50i128, &None);
    assert_eq!(check_balance(&env, &token_id, &fee_collector), 50i128);
    assert_eq!(bridge.query_accrued_fees(&token_id), 50i128);
}

#[test]
fn test_set_max_withdraw_per_tx_updates_limit() {
    let env = Network::default();
    let (admin, _user, fee_collector) = create_test_users(&env);
    let (bridge_id, _token_id) = register_all_contracts_mocked(&env);
    let bridge = create_bridge_client(&env, &bridge_id);

    bridge.initialize(&admin, &fee_collector, &50u32, &None);

    // Default: no cap set.
    assert_eq!(bridge.query_max_withdraw_per_tx(), 0i128);

    // Set a cap.
    bridge.set_max_withdraw_per_tx(&500i128, &None);
    assert_eq!(bridge.query_max_withdraw_per_tx(), 500i128);

    // Update the cap.
    bridge.set_max_withdraw_per_tx(&1000i128, &None);
    assert_eq!(bridge.query_max_withdraw_per_tx(), 1000i128);

    // Zero disables the cap.
    bridge.set_max_withdraw_per_tx(&0i128, &None);
    assert_eq!(bridge.query_max_withdraw_per_tx(), 0i128);
}

// accept_admin tests

#[test]
fn test_accept_admin_transfers_control() {
    let env = Network::default();
    let (admin, _user, fee_collector) = create_test_users(&env);
    let (bridge_id, _) = register_all_contracts_mocked(&env);
    let bridge = create_bridge_client(&env, &bridge_id);

    bridge.initialize(&admin, &fee_collector, &50u32, &None);
    let new_admin = generate(&env);
    bridge.propose_new_admin(&new_admin, &None);

    bridge.accept_admin();

    assert_eq!(bridge.query_admin(), new_admin);
    assert_eq!(bridge.query_pending_admin(), None);
}

#[test]
fn test_accept_admin_emits_event() {
    let env = Network::default();
    let (admin, _user, fee_collector) = create_test_users(&env);
    let (bridge_id, _) = register_all_contracts_mocked(&env);
    let bridge = create_bridge_client(&env, &bridge_id);

    bridge.initialize(&admin, &fee_collector, &50u32, &None);
    let new_admin = generate(&env);
    bridge.propose_new_admin(&new_admin, &None);
    bridge.accept_admin();

    let events = env.all_events();
    let (contract_id, _topics, _data) = &events.get(events.len() - 1).unwrap();
    assert_eq!(contract_id, &bridge_id);
}

// accept_admin is refused like every other admin setter (NotInitialized,
// ContractPaused), and with Unauthorized when there is no pending handoff.
#[test]
fn test_accept_admin_without_pending_proposal_fails() {
    let env = Network::default();
    let (admin, _user, fee_collector) = create_test_users(&env);
    let (bridge_id, _) = register_all_contracts_mocked(&env);
    let bridge = create_bridge_client(&env, &bridge_id);

    bridge.initialize(&admin, &fee_collector, &50u32, &None);

    assert_eq!(
        bridge.try_accept_admin(),
        Err(Ok(BridgeError::Unauthorized))
    );
}

#[test]
fn test_accept_admin_before_initialize_fails() {
    let env = Network::default();
    let (bridge_id, _) = register_all_contracts_mocked(&env);
    let bridge = create_bridge_client(&env, &bridge_id);

    assert_eq!(
        bridge.try_accept_admin(),
        Err(Ok(BridgeError::NotInitialized))
    );
}

#[test]
fn test_accept_admin_while_paused_fails() {
    let env = Network::default();
    let (admin, _user, fee_collector) = create_test_users(&env);
    let (bridge_id, _) = register_all_contracts_mocked(&env);
    let bridge = create_bridge_client(&env, &bridge_id);

    bridge.initialize(&admin, &fee_collector, &50u32, &None);
    let new_admin = generate(&env);
    bridge.propose_new_admin(&new_admin, &None);
    bridge.pause(&None);

    assert_eq!(
        bridge.try_accept_admin(),
        Err(Ok(BridgeError::ContractPaused))
    );
}

// Boundary: the pending slot is cleared on acceptance, so a second accept
// has nothing left to consume and must fail the same way as "never proposed".
#[test]
fn test_accept_admin_cannot_be_reused_after_acceptance() {
    let env = Network::default();
    let (admin, _user, fee_collector) = create_test_users(&env);
    let (bridge_id, _) = register_all_contracts_mocked(&env);
    let bridge = create_bridge_client(&env, &bridge_id);

    bridge.initialize(&admin, &fee_collector, &50u32, &None);
    let new_admin = generate(&env);
    bridge.propose_new_admin(&new_admin, &None);
    bridge.accept_admin();

    assert_eq!(
        bridge.try_accept_admin(),
        Err(Ok(BridgeError::Unauthorized))
    );
}

// extend_timelock_ttl tests

fn setup_extend_timelock(env: &Network) -> (Bridge<'_>, Address, u64) {
    let (admin, user, fee_collector) = create_test_users(env);
    let (bridge_id, token_id) = register_all_contracts_mocked(env);
    let bridge = create_bridge_client(env, &bridge_id);
    init_token(env, &token_id, &admin);

    bridge.initialize(&admin, &fee_collector, &100u32, &None);
    bridge.add_asset(&token_id, &None);
    mint_tokens(env, &token_id, &user, 10_000i128);

    let target = generate(env);
    let release_time = env.ledger().timestamp() + 1_000_000;
    let id = bridge.fund_c_address_timelocked(
        &user,
        &target,
        &token_id,
        &500i128,
        &release_time,
        &0u64,
        &None,
        &None,
    );
    (bridge, bridge_id, id)
}

#[test]
fn test_extend_timelock_ttl_extends_entry() {
    let env = Network::default();
    let (bridge, _bridge_id, id) = setup_extend_timelock(&env);

    bridge.extend_timelock_ttl(&id, &200_000u32);

    let key = DataKey::Timelock(id);
    let ttl = env.ttl(&key);
    assert!(ttl >= 200_000);
}

#[test]
fn test_extend_timelock_ttl_emits_event() {
    let env = Network::default();
    let (bridge, bridge_id, id) = setup_extend_timelock(&env);

    bridge.extend_timelock_ttl(&id, &200_000u32);

    let events = env.all_events();
    let (contract_id, _topics, _data) = &events.get(events.len() - 1).unwrap();
    assert_eq!(contract_id, &bridge_id);
}

// Boundary: a ttl above MAX_ALLOWED_TTL must be silently capped, never stored
// or applied verbatim.
#[test]
fn test_extend_timelock_ttl_caps_at_max_allowed_ttl() {
    let env = Network::default();
    let (bridge, _bridge_id, id) = setup_extend_timelock(&env);

    bridge.extend_timelock_ttl(&id, &(MAX_ALLOWED_TTL * 2));

    let key = DataKey::Timelock(id);
    let ttl = env.ttl(&key);
    assert!(ttl <= MAX_ALLOWED_TTL);
}

#[test]
fn test_extend_timelock_ttl_unknown_id_fails() {
    let env = Network::default();
    let (admin, _user, fee_collector) = create_test_users(&env);
    let (bridge_id, _) = register_all_contracts_mocked(&env);
    let bridge = create_bridge_client(&env, &bridge_id);

    bridge.initialize(&admin, &fee_collector, &50u32, &None);

    assert_eq!(
        bridge.try_extend_timelock_ttl(&999_999u64, &200_000u32),
        Err(Ok(BridgeError::TimelockNotFound))
    );
}

#[test]
fn test_extend_timelock_ttl_before_initialize_fails() {
    let env = Network::default();
    let (bridge_id, _) = register_all_contracts_mocked(&env);
    let bridge = create_bridge_client(&env, &bridge_id);

    assert_eq!(
        bridge.try_extend_timelock_ttl(&1u64, &200_000u32),
        Err(Ok(BridgeError::NotInitialized))
    );
}

// Benchmarks

fn setup_bench() -> (Network, Address, Address, Address, Address) {
    let env = Network::default();
    env.mock_all_auths();
    let bridge_id = register_bridge(&env);
    let token_id = generate(&env);
    let admin = generate(&env);
    let fee_collector = generate(&env);
    env.world.borrow_mut().overdraft = true;
    (env, bridge_id, token_id, admin, fee_collector)
}

fn initialized_setup() -> (Network, Address, Address, Address, Address) {
    let (env, bridge_id, token_id, admin, fee_collector) = setup_bench();
    let bridge = Bridge::new(&env, &bridge_id);
    bridge.initialize(&admin, &fee_collector, &100u32, &None);
    bridge.add_asset(&token_id, &None);
    (env, bridge_id, token_id, admin, fee_collector)
}

fn mint(env: &Network, token_id: &Address, to: &Address, amount: i128) {
    mint_tokens(env, token_id, to, amount);
}

/// Runs `f` and prints what it was.
fn measure(_env: &Network, name: &str, f: impl FnOnce()) {
    f();
    println!("BENCH\t{name}");
}

// initialize

#[test]
fn bench_initialize_cold() {
    let (env, bridge_id, _token_id, admin, fee_collector) = setup_bench();
    let bridge = Bridge::new(&env, &bridge_id);
    measure(&env, "initialize/cold", || {
        bridge.initialize(&admin, &fee_collector, &100u32, &None);
    });
}

#[test]
fn bench_initialize_warm() {
    // "warm" = contract already has storage from a previous initialize attempt;
    // we register a fresh instance but pre-touch the env to warm host internals.
    let (env, bridge_id, _token_id, admin, fee_collector) = setup_bench();
    let bridge = Bridge::new(&env, &bridge_id);
    bridge.initialize(&admin, &fee_collector, &100u32, &None);

    // Register a second bridge instance and measure its initialize (host is warm).
    let bridge2_id = register_bridge(&env);
    let bridge2 = Bridge::new(&env, &bridge2_id);
    let admin2 = generate(&env);
    let fc2 = generate(&env);
    measure(&env, "initialize/warm", || {
        bridge2.initialize(&admin2, &fc2, &100u32, &None);
    });
}

// fund_c_address

fn bench_fund_amount(amount: i128) {
    let (env, bridge_id, token_id, _admin, _fee_collector) = initialized_setup();
    let bridge = Bridge::new(&env, &bridge_id);
    let user = generate(&env);
    let target = generate(&env);
    mint(&env, &token_id, &user, amount * 2);
    measure(&env, &format!("fund_c_address/amount={amount}"), || {
        bridge.fund_c_address(&user, &target, &token_id, &amount, &None, &None);
    });
}

#[test]
fn bench_fund_c_address_small()  { bench_fund_amount(100); }
#[test]
fn bench_fund_c_address_medium() { bench_fund_amount(1_000_000); }
#[test]
fn bench_fund_c_address_large()  { bench_fund_amount(1_000_000_000); }

// batch_fund_c_address

fn bench_batch(size: u32) {
    let (env, bridge_id, token_id, _admin, _fee_collector) = initialized_setup();
    let bridge = Bridge::new(&env, &bridge_id);
    let user = generate(&env);
    let total = 1_000i128 * size as i128;
    mint(&env, &token_id, &user, total * 2);

    let mut targets: Vec<Address> = Vec::new();
    let mut amounts: Vec<i128> = Vec::new();
    for _ in 0..size {
        targets.push(generate(&env));
        amounts.push(1_000i128);
    }

    measure(&env, &format!("batch_fund_c_address/size={size}"), || {
        bridge.batch_fund_c_address(&user, &targets, &amounts, &token_id, &None, &None);
    });
}

#[test]
fn bench_batch_1()  { bench_batch(1); }
#[test]
fn bench_batch_5()  { bench_batch(5); }
#[test]
fn bench_batch_10() { bench_batch(10); }
#[test]
fn bench_batch_50() { bench_batch(50); }

// withdraw_fees

fn bench_withdraw(amount: i128) {
    let (env, bridge_id, token_id, admin, fee_collector) = initialized_setup();
    let bridge = Bridge::new(&env, &bridge_id);

    // Seed fees by running a fund first (outside the measurement window).
    let user = generate(&env);
    mint(&env, &token_id, &user, amount * 100);
    let target = generate(&env);
    bridge.fund_c_address(&user, &target, &token_id, &(amount * 100), &None, &None);

    measure(&env, &format!("withdraw_fees/amount={amount}"), || {
        bridge.withdraw_fees(&token_id, &amount, &None);
    });
    let _ = (admin, fee_collector);
}

#[test]
fn bench_withdraw_fees_small()  { bench_withdraw(10); }
#[test]
fn bench_withdraw_fees_medium() { bench_withdraw(500); }
#[test]
fn bench_withdraw_fees_large()  { bench_withdraw(5_000); }

// view functions

#[test]
fn bench_views() {
    let (env, bridge_id, token_id, _admin, _fee_collector) = initialized_setup();
    let bridge = Bridge::new(&env, &bridge_id);
    let addr = generate(&env);

    let views: &[(&str, &dyn Fn())] = &[
        ("query_fee_bps",          &|| { bridge.query_fee_bps(); }),
        ("query_fee_collector",    &|| { bridge.query_fee_collector(); }),
        ("query_admin",            &|| { bridge.query_admin(); }),
        ("query_is_initialized",   &|| { bridge.query_is_initialized(); }),
        ("query_is_paused",        &|| { bridge.query_is_paused(); }),
        ("query_referral_rate",    &|| { bridge.query_referral_rate(); }),
        ("query_fee_balance",      &|| { bridge.query_fee_balance(&token_id); }),
        ("query_balance",          &|| { bridge.query_balance(&addr, &token_id); }),
        ("query_is_blocked",       &|| { bridge.query_is_blocked(&addr); }),
        ("query_is_allowlisted",   &|| { bridge.query_is_allowlisted(&addr); }),
        ("query_allowlist_mode",   &|| { bridge.query_allowlist_mode(); }),
        ("query_nonce",            &|| { bridge.query_nonce(&addr); }),
        ("query_calculate_fee",    &|| { bridge.query_calculate_fee(&1_000_000i128); }),
        ("query_total_bridged",    &|| { bridge.query_total_bridged(&token_id); }),
        ("query_total_fees_collected", &|| { bridge.query_total_fees_collected(&token_id); }),
    ];

    for (name, f) in views {
        measure(&env, name, f);
    }
}

// admin setters

#[test]
fn bench_admin_setters() {
    let (env, bridge_id, token_id, _admin, _fee_collector) = initialized_setup();
    let bridge = Bridge::new(&env, &bridge_id);
    let new_addr = generate(&env);

    measure(&env, "set_fee_bps",        &|| { bridge.set_fee_bps(&200u32, &None); });
    measure(&env, "set_referral_rate",  &|| { bridge.set_referral_rate(&2000u32, &None); });
    measure(&env, "set_fee_collector",  &|| { bridge.set_fee_collector(&new_addr, &None); });
    measure(&env, "set_admin",          &|| { bridge.set_admin(&new_addr, &None); });
    measure(&env, "add_asset",          &|| { bridge.add_asset(&token_id, &None); });
    measure(&env, "remove_asset",       &|| { bridge.remove_asset(&token_id, &None); });
    measure(&env, "add_to_blocklist",   &|| { bridge.add_to_blocklist(&new_addr, &None); });
    measure(&env, "remove_from_blocklist", &|| { bridge.remove_from_blocklist(&new_addr, &None); });
    measure(&env, "add_to_allowlist",   &|| { bridge.add_to_allowlist(&new_addr, &None); });
    measure(&env, "remove_from_allowlist", &|| { bridge.remove_from_allowlist(&new_addr, &None); });
    measure(&env, "set_allowlist_mode", &|| { bridge.set_allowlist_mode(&true, &None); });
    measure(&env, "pause",              &|| { bridge.pause(&None); });
    measure(&env, "unpause",            &|| { bridge.unpause(&None); });
    measure(&env, "set_max_withdraw_per_tx", &|| { bridge.set_max_withdraw_per_tx(&500i128, &None); });
    measure(&env, "set_source_daily_limit", &|| { bridge.set_source_daily_limit(&new_addr, &token_id, &10_000i128, &None); });
    measure(&env, "set_asset_fee_cap",  &|| { bridge.set_asset_fee_cap(&token_id, &50u32, &None); });
}

// fund_c_address_timelocked / claim_timelocked

#[test]
fn bench_fund_c_address_timelocked() {
    let (env, bridge_id, token_id, _admin, _fee_collector) = initialized_setup();
    let bridge = Bridge::new(&env, &bridge_id);
    let user = generate(&env);
    let target = generate(&env);
    let amount = 10_000i128;
    mint(&env, &token_id, &user, amount * 2);
    let release_time = env.ledger().timestamp() + 365 * 86_400u64; // 1 year from now

    measure(&env, "fund_c_address_timelocked", || {
        bridge.fund_c_address_timelocked(
            &user, &target, &token_id, &amount, &release_time, &0u64, &None, &None,
        );
    });
}

#[test]
fn bench_claim_timelocked() {
    let (env, bridge_id, token_id, _admin, _fee_collector) = initialized_setup();
    let bridge = Bridge::new(&env, &bridge_id);
    let user = generate(&env);
    let target = generate(&env);
    let amount = 10_000i128;
    mint(&env, &token_id, &user, amount * 2);
    let release_time = env.ledger().timestamp() + 86_400u64;
    let id = bridge.fund_c_address_timelocked(
        &user, &target, &token_id, &amount, &release_time, &0u64, &None, &None,
    );

    // Advance past release_time so the claim succeeds.
    advance_ledger_time(&env, release_time + 1);

    measure(&env, "claim_timelocked", || {
        bridge.claim_timelocked(&id);
    });
}

// fund_c_address_crosschain

#[test]
fn bench_fund_c_address_crosschain() {
    let (env, bridge_id, token_id, admin, _fee_collector) = initialized_setup();
    let bridge = Bridge::new(&env, &bridge_id);

    // Register a single relayer and set threshold to 1.
    let relayer_secret: [u8; 32] = [1u8; 32];
    let relayer_signing_key = SigningKey::from_bytes(&relayer_secret);
    let relayer_pubkey = bytes32(&env, relayer_signing_key.verifying_key().as_bytes());
    bridge.add_relayer(&relayer_pubkey);
    bridge.set_relayer_threshold(&1u32);

    // Fund the bridge so it can transfer to target.
    mint(&env, &token_id, &bridge_id, 10_000i128);

    let target = generate(&env);
    let chain_id = 1u32;
    let tx_hash = bytes32(&env, &[2u8; 32]);

    let payload_hash = build_payload_hash(&env, chain_id, &tx_hash, &target, &token_id, 10_000i128);

    // Create a relayer signature off-host (the host `Crypto` interface only verifies).
    let sig = sign_payload(&env, &relayer_signing_key, &payload_hash);

    let sigs = list_of(
        &env,
        [RelayerSig {
            pubkey: relayer_pubkey,
            signature: sig,
        }],
    );

    measure(&env, "fund_c_address_crosschain", || {
        bridge.fund_c_address_crosschain(&chain_id, &tx_hash, &target, &token_id, &10_000i128, &sigs);
    });

    let _ = admin;
}

// commit_fund / reveal_fund

#[test]
fn bench_commit_fund() {
    let (env, bridge_id, token_id, _admin, _fee_collector) = initialized_setup();
    let bridge = Bridge::new(&env, &bridge_id);
    let user = generate(&env);
    let target = generate(&env);

    let amount_hash = commit_reveal_amount_hash(&env, 10_000i128, 1u64);
    let deadline = env.ledger().timestamp() + 86_400;

    measure(&env, "commit_fund", || {
        bridge.commit_fund(&user, &target, &token_id, &amount_hash, &deadline);
    });
}

#[test]
fn bench_reveal_fund() {
    let (env, bridge_id, token_id, _admin, _fee_collector) = initialized_setup();
    let bridge = Bridge::new(&env, &bridge_id);
    let user = generate(&env);
    let target = generate(&env);
    let amount = 10_000i128;
    let nonce = 1u64;

    mint(&env, &token_id, &user, amount * 2);

    let amount_hash = commit_reveal_amount_hash(&env, amount, nonce);
    let deadline = env.ledger().timestamp() + 86_400;

    let id = bridge.commit_fund(&user, &target, &token_id, &amount_hash, &deadline);

    // Advance past the minimum delay.
    advance_ledger_sequence(&env, env.ledger().sequence() + COMMIT_REVEAL_MIN_DELAY_LEDGERS + 1);

    measure(&env, "reveal_fund", || {
        bridge.reveal_fund(&id, &user, &target, &token_id, &amount, &nonce);
    });
}

// fund_c_address_with_swap

#[test]
fn bench_fund_c_address_with_swap() {
    let (env, bridge_id, _token_id, _admin, _fee_collector) = initialized_setup();
    let bridge = Bridge::new(&env, &bridge_id);
    let user = generate(&env);
    let target = generate(&env);

    // Deploy two tokens: source and target.
    let src_token_id = generate(&env);
    let dst_token_id = generate(&env);
    mint(&env, &src_token_id, &user, 10_000i128);
    bridge.add_asset(&dst_token_id, &None);

    // Deploy a minimal swap pool.
    let pool_id = register_pool(&env);
    initialize_pool(&env, &pool_id, &src_token_id, &dst_token_id, 1i128);

    // Fund the swap pool with destination tokens.
    mint(&env, &dst_token_id, &pool_id, 10_000i128);

    bridge.add_swap_pool(&pool_id, &None);

    let swap_route = list_of(&env, [pool_id]);

    measure(&env, "fund_c_address_with_swap", || {
        bridge.fund_c_address_with_swap(
            &user, &target, &src_token_id, &dst_token_id, &10_000i128, &1i128, &swap_route, &None, &None,
        );
    });
}

// execute_meta_fund

#[test]
fn bench_execute_meta_fund() {
    let (env, bridge_id, token_id, _admin, _fee_collector) = initialized_setup();
    let bridge = Bridge::new(&env, &bridge_id);

    let source = generate(&env);
    let target = generate(&env);
    let amount = 10_000i128;

    // Fund the bridge so it can transfer to target.
    mint(&env, &token_id, &bridge_id, amount);

    // Generate a keypair and register it as the meta signer for source.
    let secret: [u8; 32] = [7u8; 32];
    let signing_key = SigningKey::from_bytes(&secret);
    let pubkey = bytes32(&env, signing_key.verifying_key().as_bytes());
    bridge.register_meta_signer(&source, &pubkey);

    let nonce = 1u64;
    let deadline = env.ledger().timestamp() + 86_400;
    let payload_hash =
        build_meta_fund_payload_hash(&env, &source, &target, &token_id, amount, nonce, deadline);

    let signature = sign_payload(&env, &signing_key, &payload_hash);

    let params = MetaFundParams {
        source: source.clone(),
        target: target.clone(),
        asset: token_id.clone(),
        amount,
        nonce,
        deadline,
    };

    measure(&env, "execute_meta_fund", || {
        bridge.execute_meta_fund(&params, &pubkey, &signature);
    });
}

// Tiered fee lookups

#[test]
fn bench_tiered_fee_lookup() {
    let (env, bridge_id, token_id, admin, fee_collector) = initialized_setup();
    let bridge = Bridge::new(&env, &bridge_id);
    let user = generate(&env);

    // Configure fee tiers.
    let tiers = list_of(
        &env,
        [
            FeeTier { min_volume: 0, max_volume: 1_000i128, fee_bps: 10u32 },
            FeeTier { min_volume: 1_001i128, max_volume: 10_000i128, fee_bps: 25u32 },
            FeeTier { min_volume: 10_001i128, max_volume: 1_000_000i128, fee_bps: 50u32 },
        ],
    );
    bridge.set_fee_tiers(&tiers);
    mint(&env, &token_id, &user, 1_000_000i128 * 2);

    // Fund once to build volume so the tiered lookup activates.
    bridge.fund_c_address(&user, &generate(&env), &token_id, &10_000i128, &None, &None);

    measure(&env, "fund_c_address/tiered_fee", || {
        bridge.fund_c_address(&user, &generate(&env), &token_id, &10_000i128, &None, &None);
    });

    let _ = (admin, fee_collector);
}
