//! The parts of the library one by one, and its laws on concrete values.
use onboarding_bridge::actions::{Action, Event};
use onboarding_bridge::books::settle_loyalty;
use onboarding_bridge::bytes::{push_be, push_i128, Bytes32, Signature};
use onboarding_bridge::errors::BridgeError;
use onboarding_bridge::fees::{calculate_fee, compute_charge};
use onboarding_bridge::hashing::{
    build_commitment_preimage, build_crosschain_message, build_crosschain_preimage,
    build_meta_fund_message, commitment_hash, compute_crosschain_hash, compute_crosschain_nonce,
    compute_meta_fund_hash, hash_address, hash_bytes,
};
use onboarding_bridge::host::{key_address, map_key};
use onboarding_bridge::safe_math::{safe_add, safe_div, safe_mul, safe_sub};
use onboarding_bridge::state::OnboardingBridge;
use onboarding_bridge::table::Table;
use onboarding_bridge::types::{
    Address, AddressKind, AssetCounters, BridgeConfig, BridgeConfigData, DataKey, FeeTier, Ledger,
    MetaFundParams, RelayerSig, Stored,
    COMMIT_REVEAL_MIN_DELAY_LEDGERS, MAX_ALLOWED_TTL, MAX_FEE_TIERS, MIN_ALLOWED_TTL,
    SECONDS_PER_DAY, UPGRADE_TIMELOCK_LEDGERS,
};

fn hash(n: u8) -> Bytes32 {
    Bytes32::from_array([n; 32])
}

fn account(n: u8) -> Address {
    Address { kind: AddressKind::Account, id: hash(n) }
}

fn contract(n: u8) -> Address {
    Address { kind: AddressKind::Contract, id: hash(n) }
}

fn hex(b: &Bytes32) -> String {
    b.to_vec().iter().map(|x| format!("{x:02x}")).collect()
}

fn admin() -> Address {
    account(1)
}

fn collector() -> Address {
    account(2)
}

fn source() -> Address {
    account(3)
}

fn target() -> Address {
    contract(4)
}

fn token() -> Address {
    contract(5)
}

fn this_bridge() -> Address {
    contract(200)
}

/// A bridge that has not been initialized.
fn blank(env: &soroban_sdk::Env) -> OnboardingBridge {
    let ledger = Ledger { timestamp: 1_000, sequence: 100, contract: this_bridge() };
    OnboardingBridge::new(env, ledger)
}

/// A bridge with a fee of one percent and one asset.
fn ready(env: &soroban_sdk::Env) -> OnboardingBridge {
    let mut b = blank(env);
    assert_eq!(b.initialize(admin(), collector(), 100, None), Ok(()));
    assert_eq!(b.add_asset(token(), None), Ok(()));
    b.actions.clear();
    b
}

fn fund(b: &mut OnboardingBridge, amount: i128) -> Result<(), BridgeError> {
    b.fund_c_address(source(), target(), token(), amount, None, None)
}

fn transfers(b: &OnboardingBridge) -> Vec<(Address, Address, i128)> {
    let mut out = Vec::new();
    for action in b.actions.iter() {
        if let Action::Transfer { from, to, amount, .. } = action {
            out.push((*from, *to, *amount));
        }
    }
    out
}

fn signature() -> Signature {
    Signature { r: hash(11), s: hash(12) }
}

// Arithmetic

#[test]
fn checked_sums_and_differences() {
    assert_eq!(safe_add(2, 3), Ok(5));
    assert_eq!(safe_add(i128::MAX, 1), Err(BridgeError::Overflow));
    assert_eq!(safe_add(i128::MIN, -1), Err(BridgeError::Overflow));
    assert_eq!(safe_sub(2, 3), Ok(-1));
    assert_eq!(safe_sub(i128::MIN, 1), Err(BridgeError::Overflow));
    assert_eq!(safe_sub(i128::MAX, -1), Err(BridgeError::Overflow));
}

#[test]
fn checked_products_and_quotients() {
    assert_eq!(safe_mul(-4, 5), Ok(-20));
    assert_eq!(safe_mul(i128::MAX, 2), Err(BridgeError::Overflow));
    assert_eq!(safe_mul(i128::MIN, -1), Err(BridgeError::Overflow));
    assert_eq!(safe_div(7, 2), Ok(3));
    assert_eq!(safe_div(-7, 2), Ok(-3));
    assert_eq!(safe_div(7, -2), Ok(-3));
    assert_eq!(safe_div(1, 0), Err(BridgeError::Overflow));
    assert_eq!(safe_div(i128::MIN, -1), Err(BridgeError::Overflow));
}

#[test]
fn fees_are_rounded_down() {
    assert_eq!(calculate_fee(10_000, 100), Ok(100));
    assert_eq!(calculate_fee(1_000, 100), Ok(10));
    assert_eq!(calculate_fee(99, 100), Ok(0));
    assert_eq!(calculate_fee(199, 100), Ok(1));
    assert_eq!(calculate_fee(12_345, 250), Ok(308));
    assert_eq!(calculate_fee(-1, 100), Ok(-1));
    assert_eq!(calculate_fee(-100, 100), Ok(-1));
    assert_eq!(calculate_fee(-199, 100), Ok(-2));
    assert_eq!(calculate_fee(-199, 0), Ok(0));
    assert_eq!(calculate_fee(i128::MIN, 1), Ok(i128::MIN / 10_000 - 1));
    assert_eq!(calculate_fee(i128::MAX, 1), Ok(i128::MAX / 10_000));
    assert_eq!(calculate_fee(i128::MAX, 2), Err(BridgeError::Overflow));
}

#[test]
fn a_charge_is_the_fee_and_the_rest() {
    let charge = compute_charge(12_345, 250).unwrap();
    assert_eq!((charge.fee_bps, charge.fee, charge.net), (250, 308, 12_037));
    assert_eq!(charge.fee + charge.net, 12_345);
}

// Bytes

#[test]
fn integers_are_written_most_significant_byte_first() {
    let mut out = Vec::new();
    push_be(&mut out, 0x0102, 4);
    assert_eq!(out, vec![0, 0, 1, 2]);
    push_i128(&mut out, -2);
    assert_eq!(out.len(), 20);
    assert_eq!(out[4..19], [0xffu8; 15]);
    assert_eq!(out[19], 0xfe);
}

#[test]
fn bytes_come_back_as_they_went_in() {
    let mut bytes = [0u8; 32];
    for i in 0..32 {
        bytes[i] = (i * 7 + 1) as u8;
    }
    let packed = Bytes32::from_array(bytes);
    assert_eq!(packed.to_vec(), bytes.to_vec());
    assert_ne!(packed, hash(0));
    let mut out = vec![9u8];
    packed.push_to(&mut out);
    assert_eq!(out.len(), 33);
    assert_eq!(out[1..], bytes);
}

#[test]
fn addresses_come_back_from_their_keys() {
    for a in [account(1), contract(1), account(255), contract(0)] {
        assert_eq!(key_address(map_key(a)), a);
    }
    assert_ne!(map_key(account(1)), map_key(contract(1)));
}

#[test]
fn a_table_keeps_the_last_value_of_each_key() {
    let mut t: Table<Address, u32> = Table::new();
    assert_eq!(t.get(account(1)), None);
    t.set(account(1), 10);
    t.set(account(2), 20);
    t.set(account(1), 11);
    assert_eq!(t.get(account(1)), Some(11));
    assert_eq!(t.get(account(2)), Some(20));
    assert!(t.has(account(2)));
    t.remove(account(1));
    assert!(!t.has(account(1)));
    assert_eq!(t.get(account(2)), Some(20));
}

// Hashes

#[test]
fn digests_are_those_of_sha256() {
    let env = soroban_sdk::Env::default();
    assert_eq!(
        hex(&hash_bytes(&env, &b"abc".to_vec())),
        "ba7816bf8f01cfea414140de5dae2223b00361a396177a9cb410ff61f20015ad"
    );
}

#[test]
fn addresses_are_hashed_by_their_text() {
    let env = soroban_sdk::Env::default();
    // GAAAAAAAAAAAAAAAAAAAAAAAAAAAAAAAAAAAAAAAAAAAAAAAAAAAAWHF
    assert_eq!(
        hex(&hash_address(&env, account(0)).unwrap()),
        "f56f6f2c6cf1b9388e3495dfab96f0c55ec5d217f481b2ae45d11b46145c44ef"
    );
    // CADQOBYHA4DQOBYHA4DQOBYHA4DQOBYHA4DQOBYHA4DQOBYHA4DQP5KR
    assert_eq!(
        hex(&hash_address(&env, contract(7)).unwrap()),
        "a898d4a641797f0ef7c6d205e7790090b224425d156ae1f83b5ee4367da22985"
    );
}

#[test]
fn commitments_hash_the_amount_and_the_nonce() {
    let env = soroban_sdk::Env::default();
    let preimage = build_commitment_preimage(500, 1);
    assert_eq!(preimage.len(), 24);
    assert_eq!(preimage[14..16], [1, 0xf4]);
    assert_eq!(preimage[23], 1);
    assert_eq!(
        hex(&commitment_hash(&env, 500, 1)),
        "183ea562f7ebfa32957854b75b6022be6cc3e3e16b8b47865798455235d32c3c"
    );
    assert_eq!(
        hex(&commitment_hash(&env, -1, 2)),
        "a04e839d0e9a9316efd1d4ae8943fdae503928bf2da8ff16eaa39541de92cfc5"
    );
}

#[test]
fn events_of_other_chains_are_hashed_whole() {
    let env = soroban_sdk::Env::default();
    let preimage = build_crosschain_preimage(1, hash(9));
    assert_eq!(preimage.len(), 36);
    assert_eq!(preimage[..4], [0, 0, 0, 1]);
    let nonce = compute_crosschain_nonce(&env, 1, hash(9));
    assert_eq!(
        hex(&nonce),
        "59d9aa602961857507a648d5fb438fb94c816b4cd1bdbfee782049ba4b148020"
    );
    let message = build_crosschain_message(1, hash(9), hash(1), hash(2), 1_000, nonce);
    assert_eq!(message.len(), 148);
    assert_eq!(message[36..68], [1u8; 32]);
    assert_eq!(message[68..100], [2u8; 32]);
    assert_eq!(message[114..116], [0x03, 0xe8]);
    assert_eq!(message[116..148], nonce.to_vec()[..]);
    assert_eq!(
        hex(&compute_crosschain_hash(&env, 1, hash(9), account(0), contract(7), 1_000).unwrap()),
        "5166c15f7ebd36129bf282dd1f18cf1e704a75da42d7740855e7f5cc0578643b"
    );
}

#[test]
fn signed_transfers_are_hashed_whole() {
    let env = soroban_sdk::Env::default();
    let message = build_meta_fund_message(hash(1), hash(2), hash(3), 1_000, 3, 99);
    assert_eq!(message.len(), 137);
    assert_eq!(message[..9], *b"meta_fund");
    assert_eq!(message[9..41], [1u8; 32]);
    assert_eq!(message[41..73], [2u8; 32]);
    assert_eq!(message[73..105], [3u8; 32]);
    let params = MetaFundParams {
        source: account(0),
        target: account(0),
        asset: contract(7),
        amount: 1_000,
        nonce: 3,
        deadline: 99,
    };
    assert_eq!(
        hex(&compute_meta_fund_hash(&env, params).unwrap()),
        "3a280f338434f67ed3f6006d81d0d864416452f937c5b034bc6b5d12b54660d5"
    );
}

// Errors

#[test]
fn codes_are_fixed() {
    assert_eq!(BridgeError::NotInitialized.code(), 1);
    assert_eq!(BridgeError::Overflow.code(), 29);
    assert_eq!(BridgeError::MetaTxInvalidSignature.code(), 37);
    assert_eq!(BridgeError::MetaTxPubkeySourceMismatch.code(), 49);
}

#[test]
fn nothing_works_before_initialize() {
    let env = soroban_sdk::Env::default();
    let mut b = blank(&env);
    assert!(b.well_formed());
    assert!(!b.query_is_initialized());
    assert_eq!(fund(&mut b, 100), Err(BridgeError::NotInitialized));
    assert_eq!(b.query_fee_bps(), Err(BridgeError::NotInitialized));
    assert_eq!(b.query_fee_balance(5), Err(BridgeError::NotInitialized));
    assert!(b.actions.is_empty());
}

#[test]
fn a_refused_call_changes_nothing() {
    let env = soroban_sdk::Env::default();
    let mut b = ready(&env);
    assert_eq!(fund(&mut b, 0), Err(BridgeError::InvalidAmount));
    assert_eq!(b.set_fee_bps(1_001, Some(0)), Err(BridgeError::FeeTooHigh));
    assert_eq!(b.query_fee_bps(), Ok(100));
    assert_eq!(b.query_nonce(admin()), 0);
    assert_eq!(b.query_accrued_fees(token()), Ok(0));
    assert!(b.actions.is_empty());
}

#[test]
fn too_large_amounts_overflow() {
    let env = soroban_sdk::Env::default();
    let mut b = ready(&env);
    assert_eq!(fund(&mut b, i128::MAX), Err(BridgeError::Overflow));
    assert_eq!(b.query_calculate_fee(i128::MAX), Err(BridgeError::Overflow));
    assert_eq!(b.set_fee_bps(0, None), Ok(()));
    assert_eq!(fund(&mut b, i128::MAX), Ok(()));
    // The total no longer has room for one more unit.
    assert_eq!(fund(&mut b, 1), Err(BridgeError::Overflow));
    assert_eq!(b.query_total_bridged(token()), Ok(i128::MAX));
}

#[test]
fn authorization_entries_are_used_once_within_their_window() {
    let env = soroban_sdk::Env::default();
    let mut b = ready(&env);
    assert_eq!(b.query_auth_nonce(source()), 0);
    assert_eq!(b.verify_auth_entry(source(), 4, 50, 99), Err(BridgeError::AuthNonceExpired));
    assert_eq!(b.verify_auth_entry(source(), 4, 101, 200), Err(BridgeError::AuthNonceExpired));
    assert_eq!(b.verify_auth_entry(source(), 4, 50, 200), Ok(()));
    assert!(b.query_auth_nonce_used(source(), 4));
    assert!(!b.query_auth_nonce_used(source(), 5));
    // The lowest number that has not been used is due.
    assert_eq!(b.query_auth_nonce(source()), 0);
    assert_eq!(b.verify_auth_entry(source(), 4, 50, 200), Err(BridgeError::AuthNonceAlreadyUsed));
    assert_eq!(b.verify_auth_entry(source(), 2, 50, 200), Ok(()));
    assert_eq!(b.query_auth_nonce(source()), 0);
    assert_eq!(b.verify_auth_entry(source(), 0, 50, 200), Ok(()));
    assert_eq!(b.query_auth_nonce(source()), 1);
    assert_eq!(b.verify_auth_entry(source(), 1, 50, 200), Ok(()));
    assert_eq!(b.query_auth_nonce(source()), 3);
    assert_eq!(b.verify_auth_entry(source(), 3, 50, 200), Ok(()));
    assert_eq!(b.query_auth_nonce(source()), 5);
    assert!(b.query_auth_nonce_used(source(), 4));
    assert!(!b.query_auth_nonce_used(target(), 4));
}

#[test]
fn lifetimes_have_bounds() {
    let env = soroban_sdk::Env::default();
    let mut b = ready(&env);
    assert_eq!(b.set_max_instance_ttl(MIN_ALLOWED_TTL - 1), Err(BridgeError::InvalidTtl));
    assert_eq!(b.set_max_instance_ttl(MIN_ALLOWED_TTL), Ok(()));
    assert_eq!(b.set_max_persistent_ttl(MIN_ALLOWED_TTL - 1), Err(BridgeError::InvalidTtl));
    // What is too long is cut.
    assert_eq!(b.set_max_persistent_ttl(MAX_ALLOWED_TTL + 1), Ok(()));
    let (instance, persistent, _, _) = b.query_ttl_config().unwrap();
    assert_eq!((instance, persistent), (MIN_ALLOWED_TTL, MAX_ALLOWED_TTL));
    b.actions.clear();
    assert_eq!(b.extend_instance_ttl(u32::MAX), Ok(()));
    assert!(b.actions.contains(&Action::ExtendInstanceTtl {
        threshold: MAX_ALLOWED_TTL / 4,
        extend_to: MAX_ALLOWED_TTL,
    }));
    // Any other call keeps the instance alive for the set maximum.
    b.actions.clear();
    assert_eq!(fund(&mut b, 100), Ok(()));
    assert!(b.actions.contains(&Action::ExtendInstanceTtl {
        threshold: MIN_ALLOWED_TTL / 4,
        extend_to: MIN_ALLOWED_TTL,
    }));
}

#[test]
fn unknown_entries_cannot_be_extended() {
    let env = soroban_sdk::Env::default();
    let mut b = ready(&env);
    assert_eq!(b.extend_timelock_ttl(7, 10), Err(BridgeError::TimelockNotFound));
    assert_eq!(b.extend_commitment_ttl(7, 10), Err(BridgeError::CommitmentNotFound));
    assert_eq!(b.extend_relayer_ttl(hash(7), 10), Err(BridgeError::NotRelayer));
    assert_eq!(b.add_relayer(hash(7)), Ok(()));
    b.actions.clear();
    assert_eq!(b.extend_relayer_ttl(hash(7), MAX_ALLOWED_TTL), Ok(()));
    let extended = b.actions.iter().any(|a| match a {
        Action::ExtendTtl { key, .. } => *key == DataKey::Relayer(hash(7)),
        _ => false,
    });
    assert!(extended);
}

#[test]
fn no_loyalty_token_at_first() {
    let env = soroban_sdk::Env::default();
    let mut b = ready(&env);
    assert_eq!(b.query_loyalty_token(), Err(BridgeError::LoyaltyTokenNotSet));
    assert_eq!(b.set_loyalty_token(contract(8), -1), Err(BridgeError::InvalidAmount));
    assert_eq!(b.set_loyalty_token(contract(8), 3), Ok(()));
    assert_eq!(b.query_loyalty_token(), Ok((contract(8), 3)));
}

#[test]
fn the_number_of_tiers_is_bounded() {
    let env = soroban_sdk::Env::default();
    let mut b = ready(&env);
    let tier = FeeTier { min_volume: 0, max_volume: 10, fee_bps: 5 };
    let most = vec![tier; MAX_FEE_TIERS as usize];
    let mut more = most.clone();
    more.push(tier);
    assert_eq!(b.set_fee_tiers(more), Err(BridgeError::TooManyFeeTiers));
    assert_eq!(b.set_fee_tiers(most.clone()), Ok(()));
    assert_eq!(b.query_fee_tiers(), Ok(most));
    let steep = FeeTier { min_volume: 0, max_volume: 10, fee_bps: 1_001 };
    assert_eq!(b.set_fee_tiers(vec![tier, steep]), Err(BridgeError::FeeTooHigh));
}

#[test]
fn the_threshold_is_at_most_the_relayers() {
    let env = soroban_sdk::Env::default();
    let mut b = ready(&env);
    assert_eq!(b.set_relayer_threshold(1), Err(BridgeError::ThresholdExceedsRelayers));
    assert_eq!(b.add_relayer(hash(7)), Ok(()));
    assert_eq!(b.add_relayer(hash(8)), Ok(()));
    assert_eq!(b.set_relayer_threshold(2), Ok(()));
    assert_eq!(b.query_relayer_threshold(), Ok(2));
    assert_eq!(b.remove_relayer(hash(8)), Err(BridgeError::BelowThreshold));
    assert_eq!(b.query_is_relayer(hash(8)), Ok(true));
}

#[test]
fn a_message_without_addresses_is_refused() {
    let env = soroban_sdk::Env::default();
    let mut b = ready(&env);
    assert_eq!(b.register_meta_signer(source(), hash(20)), Ok(()));
    let params = MetaFundParams {
        source: source(),
        target: target(),
        asset: token(),
        amount: 1_000,
        nonce: 1,
        deadline: 2_000,
    };
    let bad = Err(BridgeError::InvalidAddress);
    assert_eq!(
        b.execute_signed_fund(params, hash(20), signature(), bad),
        Err(BridgeError::InvalidAddress)
    );
    assert_eq!(b.add_relayer(hash(60)), Ok(()));
    let sigs = vec![RelayerSig { pubkey: hash(60), signature: signature() }];
    assert_eq!(
        b.fund_attested(1, hash(9), target(), token(), 1_000, &sigs, hash(10), bad),
        Err(BridgeError::InvalidAddress)
    );
}

// Laws

#[test]
fn the_quoted_fee_is_charged() {
    let env = soroban_sdk::Env::default();
    let mut b = ready(&env);
    let quoted = b.query_effective_fee(source(), token(), 1_000);
    assert_eq!(quoted, Ok((100, 10, 990)));
    assert_eq!(fund(&mut b, 1_000), Ok(()));
    assert_eq!(
        transfers(&b),
        vec![(source(), this_bridge(), 1_000), (this_bridge(), target(), 990)]
    );
    assert_eq!(b.query_accrued_fees(token()), Ok(10));
    assert_eq!(b.query_total_fees_collected(token()), Ok(10));
    assert_eq!(b.query_total_bridged(token()), Ok(990));
}

#[test]
fn a_cap_lowers_the_rate_and_never_raises_it() {
    let env = soroban_sdk::Env::default();
    let mut b = ready(&env);
    assert_eq!(b.set_asset_fee_cap(token(), 40, None), Ok(()));
    assert_eq!(b.query_effective_fee(source(), token(), 10_000), Ok((40, 40, 9_960)));
    assert_eq!(b.set_asset_fee_cap(token(), 900, None), Ok(()));
    assert_eq!(b.query_effective_fee(source(), token(), 10_000), Ok((100, 100, 9_900)));
}

#[test]
fn the_first_tier_that_covers_a_volume_decides() {
    let env = soroban_sdk::Env::default();
    let mut b = ready(&env);
    let tiers = vec![
        FeeTier { min_volume: 0, max_volume: 999, fee_bps: 80 },
        FeeTier { min_volume: 500, max_volume: 5_000, fee_bps: 30 },
    ];
    assert_eq!(b.set_fee_tiers(tiers.clone()), Ok(()));
    assert_eq!(b.query_current_tier(source()), Ok(tiers[0]));
    assert_eq!(fund(&mut b, 1_000), Ok(()));
    assert_eq!(b.query_accrued_fees(token()), Ok(8));
    assert_eq!(b.query_current_tier(source()), Ok(tiers[1]));
    assert_eq!(fund(&mut b, 9_000), Ok(()));
    assert_eq!(b.query_accrued_fees(token()), Ok(35));
    // Beyond all tiers the rate of the bridge holds.
    let beyond = FeeTier { min_volume: 0, max_volume: i128::MAX, fee_bps: 100 };
    assert_eq!(b.query_current_tier(source()), Ok(beyond));
}

#[test]
fn a_nonce_is_accepted_once() {
    let env = soroban_sdk::Env::default();
    let mut b = ready(&env);
    let call = |b: &mut OnboardingBridge, n: u64| {
        b.fund_c_address(source(), target(), token(), 100, Some(n), None)
    };
    assert_eq!(call(&mut b, 1), Err(BridgeError::DuplicateNonce));
    assert_eq!(call(&mut b, 0), Ok(()));
    assert_eq!(b.query_nonce(source()), 1);
    assert_eq!(call(&mut b, 0), Err(BridgeError::DuplicateNonce));
    assert_eq!(fund(&mut b, 100), Ok(()));
    assert_eq!(b.query_nonce(source()), 1);
    assert_eq!(call(&mut b, 1), Ok(()));
}

#[test]
fn a_daily_limit_starts_anew_each_day() {
    let env = soroban_sdk::Env::default();
    let mut b = ready(&env);
    assert_eq!(b.set_source_daily_limit(source(), token(), 1_000, None), Ok(()));
    assert_eq!(fund(&mut b, 600), Ok(()));
    assert_eq!(fund(&mut b, 401), Err(BridgeError::DailyLimitExceeded));
    assert_eq!(fund(&mut b, 400), Ok(()));
    assert_eq!(fund(&mut b, 1), Err(BridgeError::DailyLimitExceeded));
    b.ledger.timestamp = SECONDS_PER_DAY - 1;
    assert_eq!(fund(&mut b, 1), Err(BridgeError::DailyLimitExceeded));
    b.ledger.timestamp = SECONDS_PER_DAY;
    assert_eq!(fund(&mut b, 1_000), Ok(()));
}

#[test]
fn a_batch_gives_each_target_its_share_and_refunds_the_rest() {
    let env = soroban_sdk::Env::default();
    let mut b = ready(&env);
    let blocked = contract(9);
    assert_eq!(b.add_to_blocklist(blocked, None), Ok(()));
    b.actions.clear();
    let targets = vec![target(), blocked, contract(6)];
    let amounts = vec![1_000, 500, 250];
    assert_eq!(b.batch_fund_c_address(source(), &targets, &amounts, token(), None, None), Ok(()));
    assert_eq!(
        transfers(&b),
        vec![
            (source(), this_bridge(), 1_750),
            (this_bridge(), target(), 990),
            (this_bridge(), contract(6), 248),
            (this_bridge(), source(), 500),
        ]
    );
    assert_eq!(b.query_accrued_fees(token()), Ok(12));
    assert_eq!(b.query_total_bridged(token()), Ok(1_238));
}

#[test]
fn an_empty_batch_does_nothing() {
    let env = soroban_sdk::Env::default();
    let mut b = ready(&env);
    let none: Vec<Address> = Vec::new();
    assert_eq!(b.batch_fund_c_address(source(), &none, &Vec::new(), token(), None, None), Ok(()));
    assert!(transfers(&b).is_empty());
    assert_eq!(b.query_total_bridged(token()), Ok(0));
}

#[test]
fn a_referrer_gets_a_share_of_the_fee() {
    let env = soroban_sdk::Env::default();
    let mut b = ready(&env);
    assert_eq!(b.set_referral_rate(2_500, None), Ok(()));
    b.actions.clear();
    let referrer = account(30);
    assert_eq!(
        b.fund_c_address_with_referral(source(), target(), token(), 1_250, Some(referrer)),
        Ok(())
    );
    // A fee of 12, of which a quarter is 3.
    assert!(transfers(&b).contains(&(this_bridge(), referrer, 3)));
    assert!(transfers(&b).contains(&(this_bridge(), target(), 1_238)));
    assert_eq!(b.query_accrued_fees(token()), Ok(9));
}

#[test]
fn fees_are_withdrawn_within_the_limits() {
    let env = soroban_sdk::Env::default();
    let mut b = ready(&env);
    assert_eq!(fund(&mut b, 10_000), Ok(()));
    assert_eq!(b.set_max_withdraw_per_tx(60, None), Ok(()));
    b.actions.clear();
    assert_eq!(b.withdraw_fees(token(), 61, None), Err(BridgeError::WithdrawExceedsLimit));
    assert_eq!(b.withdraw_fees(token(), 60, None), Ok(()));
    assert_eq!(b.withdraw_fees(token(), 60, None), Err(BridgeError::InsufficientReclaimable));
    assert_eq!(transfers(&b), vec![(this_bridge(), collector(), 60)]);
    assert_eq!(b.query_accrued_fees(token()), Ok(40));
    assert_eq!(b.query_total_fees_collected(token()), Ok(100));
}

#[test]
fn reclaiming_leaves_what_is_owed() {
    let env = soroban_sdk::Env::default();
    let mut b = ready(&env);
    assert_eq!(fund(&mut b, 10_000), Ok(()));
    let to = account(40);
    assert_eq!(
        b.reclaim_tokens(token(), 51, to, None, 150),
        Err(BridgeError::InsufficientReclaimable)
    );
    assert_eq!(b.reclaim_tokens(token(), 50, to, None, 150), Ok(()));
    assert_eq!(b.query_accrued_fees(token()), Ok(100));
}

#[test]
fn locked_funds_are_claimed_once_and_not_early() {
    let env = soroban_sdk::Env::default();
    let mut b = ready(&env);
    let id = b
        .fund_c_address_timelocked(source(), target(), token(), 1_000, 5_000, 2_000, None, None)
        .unwrap();
    // The fee is taken when the funds are claimed.
    assert_eq!(b.query_timelocked(id).unwrap().amount, 1_000);
    assert_eq!(b.query_accrued_fees(token()), Ok(0));
    assert_eq!(b.claim_timelocked(id), Err(BridgeError::TimelockNotMatured));
    b.ledger.timestamp = 4_999;
    assert_eq!(b.claim_timelocked(id), Err(BridgeError::TimelockNotMatured));
    b.ledger.timestamp = 5_000;
    b.actions.clear();
    assert_eq!(b.claim_timelocked(id), Ok(()));
    assert_eq!(transfers(&b), vec![(this_bridge(), target(), 990)]);
    assert_eq!(b.query_accrued_fees(token()), Ok(10));
    assert_eq!(b.claim_timelocked(id), Err(BridgeError::Unauthorized));
    assert_eq!(b.claim_timelocked(id + 1), Err(BridgeError::TimelockNotFound));
}

#[test]
fn what_is_locked_is_not_reclaimed() {
    let env = soroban_sdk::Env::default();
    let mut b = ready(&env);
    assert_eq!(
        b.fund_c_address_timelocked(source(), target(), token(), 1_000, 5_000, 2_000, None, None),
        Ok(0)
    );
    let to = account(40);
    assert_eq!(
        b.reclaim_tokens(token(), 1, to, None, 1_000),
        Err(BridgeError::InsufficientReclaimable)
    );
    assert_eq!(b.reclaim_tokens(token(), 5, to, None, 1_005), Ok(()));
}

#[test]
fn a_commitment_is_revealed_once_and_as_committed() {
    let env = soroban_sdk::Env::default();
    let mut b = ready(&env);
    let sealed = commitment_hash(&env, 1_000, 77);
    let id = b.commit_fund(source(), target(), token(), sealed, 2_000).unwrap();
    assert_eq!(b.query_commitment(id).unwrap().amount_hash, sealed);
    assert_eq!(b.query_commitment(id + 1), Err(BridgeError::CommitmentNotFound));
    assert_eq!(
        b.reveal_fund(&env, id, source(), target(), token(), 1_000, 77),
        Err(BridgeError::CommitmentNotMatured)
    );
    b.ledger.sequence += COMMIT_REVEAL_MIN_DELAY_LEDGERS;
    assert_eq!(
        b.reveal_fund(&env, id, source(), target(), token(), 1_001, 77),
        Err(BridgeError::CommitmentHashMismatch)
    );
    assert_eq!(
        b.reveal_fund(&env, id, source(), target(), token(), 1_000, 78),
        Err(BridgeError::CommitmentHashMismatch)
    );
    assert_eq!(b.reveal_fund(&env, id, source(), target(), token(), 1_000, 77), Ok(()));
    assert_eq!(
        b.reveal_fund(&env, id, source(), target(), token(), 1_000, 77),
        Err(BridgeError::CommitmentAlreadyRevealed)
    );
    assert_eq!(
        b.reveal_fund(&env, id + 1, source(), target(), token(), 1_000, 77),
        Err(BridgeError::CommitmentNotFound)
    );
}

#[test]
fn a_late_reveal_is_refused() {
    let env = soroban_sdk::Env::default();
    let mut b = ready(&env);
    let sealed = commitment_hash(&env, 1_000, 77);
    let id = b.commit_fund(source(), target(), token(), sealed, 2_000).unwrap();
    b.ledger.sequence += COMMIT_REVEAL_MIN_DELAY_LEDGERS;
    for late in [2_001, 2_000] {
        b.ledger.timestamp = late;
        assert_eq!(
            b.reveal_with_hash(id, source(), target(), token(), 1_000, sealed),
            Err(BridgeError::CommitmentExpired)
        );
    }
    b.ledger.timestamp = 1_999;
    assert_eq!(b.reveal_with_hash(id, source(), target(), token(), 1_000, sealed), Ok(()));
}

#[test]
fn a_swap_pays_out_what_came_back_less_the_fee() {
    let env = soroban_sdk::Env::default();
    let mut b = ready(&env);
    let pool = contract(50);
    let route = vec![pool];
    let other = contract(51);
    assert_eq!(b.add_asset(other, None), Ok(()));
    assert_eq!(
        b.fund_c_address_with_swap(
            source(), target(), token(), other, 1_000, 900, &route, None, None
        ),
        Err(BridgeError::PoolNotWhitelisted)
    );
    assert_eq!(b.add_swap_pool(pool, None), Ok(()));
    assert_eq!(b.query_is_pool_whitelisted(pool), Ok(true));
    b.actions.clear();
    let pending = b
        .fund_c_address_with_swap(
            source(), target(), token(), other, 1_000, 900, &route, None, None,
        )
        .unwrap();
    assert_eq!(fund(&mut b, 100), Err(BridgeError::Reentrant));
    assert!(b.actions.contains(&Action::InvokeSwap {
        pool,
        target_asset: other,
        min_amount_out: 900,
        to: this_bridge(),
    }));
    b.actions.clear();
    assert_eq!(b.complete_swap(pending, 2_000, 30, 2_030), Ok(()));
    assert_eq!(transfers(&b), vec![(this_bridge(), target(), 1_980)]);
    assert_eq!(b.query_accrued_fees(other), Ok(20));
    assert_eq!(fund(&mut b, 100), Ok(()));
}

#[test]
fn a_pool_off_the_list_is_refused() {
    let env = soroban_sdk::Env::default();
    let mut b = ready(&env);
    assert_eq!(b.add_swap_pool(contract(50), None), Ok(()));
    assert_eq!(b.remove_swap_pool(contract(50), None), Ok(()));
    assert_eq!(b.query_is_pool_whitelisted(contract(50)), Ok(false));
    assert_eq!(
        b.fund_c_address_with_swap(
            source(), target(), token(), token(), 10, 1, &vec![contract(50)], None, None
        ),
        Err(BridgeError::PoolNotWhitelisted)
    );
}

#[test]
fn signed_transfers_need_the_registered_key_and_a_fresh_nonce() {
    let env = soroban_sdk::Env::default();
    let mut b = ready(&env);
    let params = MetaFundParams {
        source: source(),
        target: target(),
        asset: token(),
        amount: 1_000,
        nonce: 8,
        deadline: 1_000,
    };
    assert_eq!(b.query_meta_signer(source()), None);
    assert_eq!(
        b.execute_meta_fund(&env, params, hash(20), signature()),
        Err(BridgeError::MetaTxPubkeySourceMismatch)
    );
    assert_eq!(b.register_meta_signer(source(), hash(20)), Ok(()));
    assert_eq!(b.query_meta_signer(source()), Some(hash(20)));
    b.actions.clear();
    assert_eq!(b.execute_meta_fund(&env, params, hash(20), signature()), Ok(()));
    assert!(b.query_meta_tx_nonce_used(source(), 8));
    assert!(b.actions.contains(&Action::VerifySignature {
        pubkey: hash(20),
        message: compute_meta_fund_hash(&env, params).unwrap(),
        signature: signature(),
    }));
    assert_eq!(
        b.execute_meta_fund(&env, params, hash(20), signature()),
        Err(BridgeError::MetaTxNonceAlreadyUsed)
    );
    let late = MetaFundParams { nonce: 9, deadline: 999, ..params };
    assert_eq!(
        b.execute_meta_fund(&env, late, hash(20), signature()),
        Err(BridgeError::MetaTxExpired)
    );
}

#[test]
fn events_of_other_chains_are_credited_once_by_enough_relayers() {
    let env = soroban_sdk::Env::default();
    let mut b = ready(&env);
    for n in [60, 61, 62] {
        assert_eq!(b.add_relayer(hash(n)), Ok(()));
    }
    assert_eq!(b.set_relayer_threshold(2), Ok(()));
    let by = |n: u8| RelayerSig { pubkey: hash(n), signature: signature() };
    let mut credit = |sigs: Vec<RelayerSig>| {
        b.fund_c_address_crosschain(&env, 1, hash(9), target(), token(), 1_000, &sigs)
    };
    assert_eq!(credit(vec![by(60)]), Err(BridgeError::BelowThreshold));
    assert_eq!(credit(vec![by(60), by(60)]), Err(BridgeError::DuplicateRelayerSignature));
    assert_eq!(credit(vec![by(60), by(63)]), Err(BridgeError::NotRelayer));
    assert_eq!(credit(vec![by(60), by(62)]), Ok(()));
    assert_eq!(credit(vec![by(60), by(61)]), Err(BridgeError::ReplayedNonce));
    let message =
        compute_crosschain_hash(&env, 1, hash(9), target(), token(), 1_000).unwrap();
    assert!(b.actions.contains(&Action::VerifySignature {
        pubkey: hash(62),
        message,
        signature: signature(),
    }));
    assert!(transfers(&b).contains(&(this_bridge(), target(), 990)));
}

#[test]
fn an_upgrade_waits_for_its_ledger() {
    let env = soroban_sdk::Env::default();
    let mut b = ready(&env);
    assert_eq!(b.execute_upgrade(hash(70), None), Err(BridgeError::UpgradeNotScheduled));
    assert_eq!(b.schedule_upgrade(hash(70), None), Ok(100 + UPGRADE_TIMELOCK_LEDGERS));
    // One at a time.
    assert_eq!(b.schedule_upgrade(hash(71), None), Err(BridgeError::Unauthorized));
    assert_eq!(b.query_pending_upgrade().unwrap().new_wasm_hash, hash(70));
    assert_eq!(b.execute_upgrade(hash(71), None), Err(BridgeError::UpgradeHashMismatch));
    assert_eq!(b.execute_upgrade(hash(70), None), Err(BridgeError::UpgradeTimelockActive));
    b.ledger.sequence = 100 + UPGRADE_TIMELOCK_LEDGERS;
    b.actions.clear();
    assert_eq!(b.execute_upgrade(hash(70), None), Ok(()));
    assert!(b.actions.contains(&Action::UpdateWasm { hash: hash(70) }));
    assert_eq!(b.query_pending_upgrade(), None);
    assert_eq!(b.execute_upgrade(hash(70), None), Err(BridgeError::UpgradeNotScheduled));
}

#[test]
fn scheduling_near_the_last_ledger_saturates() {
    let env = soroban_sdk::Env::default();
    let mut b = ready(&env);
    b.ledger.sequence = u32::MAX - 5;
    assert_eq!(b.schedule_upgrade(hash(70), None), Ok(u32::MAX));
}

#[test]
fn roles_change_hands_in_two_steps() {
    let env = soroban_sdk::Env::default();
    let mut b = ready(&env);
    assert_eq!(b.accept_admin(), Err(BridgeError::Unauthorized));
    assert_eq!(b.propose_new_admin(account(80), None), Ok(()));
    assert_eq!(b.query_admin(), Ok(admin()));
    b.actions.clear();
    assert_eq!(b.accept_admin(), Ok(()));
    assert_eq!(b.actions[0], Action::RequireAuth { address: account(80) });
    assert_eq!(b.query_admin(), Ok(account(80)));
    assert_eq!(b.query_pending_admin(), None);
    assert_eq!(b.propose_new_fee_collector(account(81), None), Ok(()));
    assert_eq!(b.query_pending_fee_collector(), Some(account(81)));
    assert_eq!(b.accept_fee_collector(), Ok(()));
    assert_eq!(b.query_fee_collector(), Ok(account(81)));
}

#[test]
fn a_call_asks_for_authorization_first() {
    let env = soroban_sdk::Env::default();
    let mut b = ready(&env);
    assert_eq!(fund(&mut b, 1_000), Ok(()));
    assert_eq!(b.actions[0], Action::RequireAuth { address: source() });
    b.actions.clear();
    assert_eq!(b.set_fee_bps(50, None), Ok(()));
    assert_eq!(b.actions[0], Action::RequireAuth { address: admin() });
}

#[test]
fn a_pause_stops_calls_and_keeps_the_books() {
    let env = soroban_sdk::Env::default();
    let mut b = ready(&env);
    assert_eq!(fund(&mut b, 1_000), Ok(()));
    assert_eq!(b.pause(None), Ok(()));
    assert_eq!(fund(&mut b, 1_000), Err(BridgeError::ContractPaused));
    assert_eq!(b.set_fee_bps(1, None), Err(BridgeError::ContractPaused));
    assert_eq!(b.query_total_bridged(token()), Ok(990));
    assert_eq!(b.unpause(None), Ok(()));
    assert_eq!(fund(&mut b, 1_000), Ok(()));
}

#[test]
fn a_migration_is_final() {
    let env = soroban_sdk::Env::default();
    let mut b = ready(&env);
    assert_eq!(b.emergency_migrate(contract(90), true), Ok(()));
    assert!(b.actions.iter().any(|a| matches!(
        a,
        Action::Publish { event: Event::EmergencyMigrated { .. } }
    )));
    assert_eq!(fund(&mut b, 1_000), Err(BridgeError::ContractDeactivated));
    assert_eq!(b.unpause(None), Err(BridgeError::ContractDeactivated));
    assert_eq!(
        b.initialize(admin(), collector(), 1, None),
        Err(BridgeError::AlreadyInitialized)
    );
}

#[test]
fn pages_of_assets_follow_each_other() {
    let env = soroban_sdk::Env::default();
    let mut b = ready(&env);
    for n in [30, 20, 10] {
        assert_eq!(b.add_asset(contract(n), None), Ok(()));
    }
    assert_eq!(b.add_asset(contract(20), None), Ok(()));
    let all = b.query_whitelisted_assets(0, 100).unwrap();
    assert_eq!(all, vec![token(), contract(10), contract(20), contract(30)]);
    let mut pages = b.query_whitelisted_assets(0, 3).unwrap();
    assert_eq!(pages.len(), 3);
    pages.extend(b.query_whitelisted_assets(3, 3).unwrap());
    assert_eq!(pages, all);
    assert!(b.query_whitelisted_assets(4, 3).unwrap().is_empty());
    assert_eq!(b.remove_asset(contract(20), None), Ok(()));
    assert_eq!(b.query_is_asset_whitelisted(contract(20)), Ok(false));
    assert_eq!(b.query_whitelisted_assets(0, 100).unwrap().len(), 3);
}

#[test]
fn assets_are_listed_by_kind_and_then_by_id() {
    let env = soroban_sdk::Env::default();
    let mut b = blank(&env);
    assert_eq!(b.initialize(admin(), collector(), 100, None), Ok(()));
    let with = |i: usize, v: u8| {
        let mut id = [0u8; 32];
        id[i] = v;
        Bytes32::from_array(id)
    };
    let ids = [hash(0), with(31, 1), with(20, 1), with(16, 200), with(15, 1), with(0, 1), hash(255)];
    let mut all = Vec::new();
    for kind in [AddressKind::Account, AddressKind::Contract] {
        for id in ids {
            all.push(Address { kind, id });
        }
    }
    for asset in all.iter().rev() {
        assert_eq!(b.add_asset(*asset, None), Ok(()));
    }
    assert_eq!(b.query_whitelisted_assets(0, 100), Ok(all));
}

#[test]
fn delisting_keeps_the_totals() {
    let env = soroban_sdk::Env::default();
    let mut b = ready(&env);
    assert_eq!(fund(&mut b, 1_000), Ok(()));
    assert_eq!(b.remove_asset(token(), None), Ok(()));
    assert_eq!(fund(&mut b, 1_000), Err(BridgeError::AssetNotWhitelisted));
    assert_eq!(b.query_total_bridged(token()), Ok(990));
    assert_eq!(b.withdraw_fees(token(), 10, None), Ok(()));
}

#[test]
fn balances_are_listed_by_asset() {
    let env = soroban_sdk::Env::default();
    let assets = vec![contract(3), account(4), contract(3)];
    let held = OnboardingBridge::query_all_balances(&env, &assets, &vec![10, 20, 30]).unwrap();
    assert_eq!(held.len(), 2);
    assert_eq!(held.get(map_key(account(4))), Some(20));
    assert_eq!(held.get(map_key(contract(3))), Some(30));
    assert_eq!(held.get(map_key(contract(4))), None);
}

#[test]
fn rewards_are_paid_from_the_reserve_only() {
    let paid = settle_loyalty(this_bridge(), contract(8), source(), 5, 5);
    assert_eq!(
        paid,
        Action::Transfer { asset: contract(8), from: this_bridge(), to: source(), amount: 5 }
    );
    let skipped = settle_loyalty(this_bridge(), contract(8), source(), 5, 4);
    assert!(matches!(
        skipped,
        Action::Publish { event: Event::LoyaltyMintSkipped { .. } }
    ));
}

#[test]
fn only_admitted_targets_receive() {
    let env = soroban_sdk::Env::default();
    let mut b = ready(&env);
    assert_eq!(b.set_allowlist_mode(true, None), Ok(()));
    assert!(b.query_allowlist_mode());
    assert_eq!(fund(&mut b, 100), Err(BridgeError::AddressNotAllowlisted));
    assert_eq!(b.add_to_allowlist(target(), None), Ok(()));
    assert!(b.query_is_allowlisted(target()));
    assert_eq!(fund(&mut b, 100), Ok(()));
    assert_eq!(b.add_to_blocklist(target(), None), Ok(()));
    assert_eq!(fund(&mut b, 100), Err(BridgeError::AddressBlocked));
    assert_eq!(b.remove_from_blocklist(target(), None), Ok(()));
    assert_eq!(b.remove_from_allowlist(target(), None), Ok(()));
    assert_eq!(fund(&mut b, 100), Err(BridgeError::AddressNotAllowlisted));
}

#[test]
fn settings_stand_until_they_are_set_again() {
    let env = soroban_sdk::Env::default();
    let mut b = ready(&env);
    assert_eq!(b.set_minimum_amount(7, None), Ok(()));
    assert_eq!(b.set_referral_rate(300, None), Ok(()));
    assert_eq!(b.set_asset_fee_cap(token(), 60, None), Ok(()));
    assert_eq!(b.set_source_daily_limit(source(), token(), 5_000, None), Ok(()));
    assert_eq!(fund(&mut b, 1_000), Ok(()));
    assert_eq!(b.set_fee_bps(200, None), Ok(()));
    assert_eq!(b.set_max_withdraw_per_tx(4, None), Ok(()));
    assert_eq!(b.set_minimum_amount(8, None), Ok(()));
    assert_eq!(b.query_minimum_amount(), Ok(8));
    assert_eq!(b.query_referral_rate(), Ok(300));
    assert_eq!(b.query_asset_fee_cap(token()), Ok(60));
    assert_eq!(b.query_asset_fee_cap(contract(6)), Ok(1_000));
    assert_eq!(b.query_source_daily_limit(source(), token()), Ok(5_000));
    assert_eq!(b.query_source_daily_limit(target(), token()), Ok(0));
    assert_eq!(b.query_fee_bps(), Ok(200));
    assert_eq!(b.query_max_withdraw_per_tx(), Ok(4));
}

#[test]
fn a_migration_publishes_the_state() {
    let env = soroban_sdk::Env::default();
    let mut b = ready(&env);
    assert_eq!(fund(&mut b, 1_000), Ok(()));
    assert_eq!(b.add_swap_pool(contract(50), None), Ok(()));
    let tier = FeeTier { min_volume: 0, max_volume: 10, fee_bps: 5 };
    assert_eq!(b.set_fee_tiers(vec![tier]), Ok(()));
    assert_eq!(b.propose_new_admin(account(80), None), Ok(()));
    assert_eq!(b.set_asset_fee_cap(token(), 70, None), Ok(()));
    assert_eq!(
        b.fund_c_address_timelocked(source(), target(), token(), 500, 5_000, 0, None, None),
        Ok(0)
    );
    assert_eq!(b.commit_fund(source(), target(), token(), hash(33), 2_000), Ok(0));
    assert_eq!(b.add_to_blocklist(contract(9), None), Ok(()));
    assert_eq!(b.register_meta_signer(source(), hash(20)), Ok(()));
    assert_eq!(b.verify_auth_entry(source(), 4, 50, 200), Ok(()));
    assert_eq!(b.add_relayer(hash(60)), Ok(()));
    assert_eq!(b.add_asset(contract(10), None), Ok(()));
    assert_eq!(b.remove_asset(token(), None), Ok(()));
    let timelock = b.query_timelocked(0).unwrap();
    let commitment = b.query_commitment(0).unwrap();
    let mut expected: usize = 0;
    b.actions.clear();
    assert_eq!(b.emergency_migrate(contract(90), true), Ok(()));
    let mut events = Vec::new();
    for action in b.actions.iter() {
        if let Action::Publish { event } = action {
            events.push(*event);
        }
    }
    assert_eq!(events[0], Event::EmergencyMigrated { admin: admin(), new_contract: contract(90) });
    let mut published = |key: DataKey, value: Stored| {
        let count = events.iter().filter(|e| **e == Event::MigratedEntry { key, value }).count();
        assert_eq!(count, 1);
        expected += 1;
    };
    published(DataKey::Initialized, Stored::Flag(true));
    published(DataKey::Deactivated, Stored::Flag(true));
    published(DataKey::Admin, Stored::Party(admin()));
    published(DataKey::FeeCollector, Stored::Party(collector()));
    published(DataKey::PendingAdmin, Stored::Party(account(80)));
    published(DataKey::FeeBps, Stored::Rate(100));
    published(DataKey::Paused, Stored::Flag(true));
    let config = BridgeConfig { fee_bps: 100, paused: true, allowlist_mode: false };
    published(DataKey::Config, Stored::Config(config));
    let roles = BridgeConfigData { admin: admin(), fee_collector: collector(), fee_bps: 100 };
    published(DataKey::BridgeConfig, Stored::Roles(roles));
    published(DataKey::TimelockId, Stored::Number(1));
    published(DataKey::CommitmentId, Stored::Number(1));
    published(DataKey::Blocked(contract(9)), Stored::Flag(true));
    let counters = AssetCounters {
        accrued_fees: 10,
        total_bridged: 990,
        total_fees_collected: 10,
        locked_timelock: 500,
    };
    published(DataKey::AssetStats(token()), Stored::Counters(counters));
    published(DataKey::AccruedFees(token()), Stored::Amount(10));
    published(DataKey::TotalBridged(token()), Stored::Amount(990));
    published(DataKey::TotalFeesCollected(token()), Stored::Amount(10));
    published(DataKey::AssetFeeCap(token()), Stored::Rate(70));
    published(DataKey::SourceBridgedVolume(source()), Stored::Amount(1_000));
    published(DataKey::UserDeposit(source(), token()), Stored::Amount(1_000));
    published(DataKey::MetaSigner(source()), Stored::Hash(hash(20)));
    published(DataKey::AuthNonce(source()), Stored::Number(5));
    published(DataKey::UsedAuthNonce(source(), 4), Stored::Flag(true));
    published(DataKey::Relayer(hash(60)), Stored::Flag(true));
    published(DataKey::RelayerCount, Stored::Rate(1));
    published(DataKey::Timelock(0), Stored::Timelock(timelock));
    published(DataKey::Commitment(0), Stored::Commitment(commitment));
    assert!(events.contains(&Event::MigratedPool { pool: contract(50) }));
    assert!(events.contains(&Event::MigratedAsset { asset: contract(10) }));
    assert!(events.contains(&Event::MigratedTier { tier }));
    // The totals of an asset that is no longer listed are published, the asset is not.
    assert!(!events.contains(&Event::MigratedAsset { asset: token() }));
    assert_eq!(events.len(), expected + 4);
}

#[test]
fn claims_are_charged_at_the_rate_of_their_time() {
    let env = soroban_sdk::Env::default();
    let mut b = ready(&env);
    let id = b
        .fund_c_address_timelocked(source(), target(), token(), 1_000, 5_000, 0, None, None)
        .unwrap();
    let tier = FeeTier { min_volume: 0, max_volume: i128::MAX, fee_bps: 10 };
    assert_eq!(b.set_fee_tiers(vec![tier]), Ok(()));
    assert_eq!(b.set_fee_bps(300, None), Ok(()));
    assert_eq!(b.set_asset_fee_cap(token(), 200, None), Ok(()));
    b.ledger.timestamp = 5_000;
    b.actions.clear();
    assert_eq!(b.claim_timelocked(id), Ok(()));
    assert_eq!(transfers(&b), vec![(this_bridge(), target(), 980)]);
}

#[test]
fn a_reveal_needs_an_admitted_target_and_asset() {
    let env = soroban_sdk::Env::default();
    let mut b = ready(&env);
    let sealed = commitment_hash(&env, 1_000, 77);
    let id = b.commit_fund(source(), target(), token(), sealed, 2_000).unwrap();
    b.ledger.sequence += COMMIT_REVEAL_MIN_DELAY_LEDGERS;
    assert_eq!(b.remove_asset(token(), None), Ok(()));
    let reveal = |b: &mut OnboardingBridge| {
        b.reveal_fund(&env, id, source(), target(), token(), 1_000, 77)
    };
    b.actions.clear();
    assert_eq!(reveal(&mut b), Err(BridgeError::AssetNotWhitelisted));
    assert_eq!(b.add_asset(token(), None), Ok(()));
    assert_eq!(b.add_to_blocklist(target(), None), Ok(()));
    assert_eq!(reveal(&mut b), Err(BridgeError::AddressBlocked));
    assert!(!b.query_commitment(id).unwrap().revealed);
    assert!(transfers(&b).is_empty());
    assert_eq!(b.remove_from_blocklist(target(), None), Ok(()));
    assert_eq!(reveal(&mut b), Ok(()));
}

#[test]
fn a_swap_is_held_against_what_was_received() {
    let env = soroban_sdk::Env::default();
    let pool = contract(50);
    let outcome = |reported: i128, before: i128, after: i128| {
        let mut b = ready(&env);
        assert_eq!(b.add_swap_pool(pool, None), Ok(()));
        let pending = b
            .fund_c_address_with_swap(
                source(), target(), contract(51), token(), 1_000, 900, &vec![pool], None, None,
            )
            .unwrap();
        b.actions.clear();
        let result = b.complete_swap(pending, reported, before, after);
        assert_eq!(result.is_ok(), transfers(&b).len() == 1);
        result
    };
    assert_eq!(outcome(900, 100, 1_000), Ok(()));
    assert_eq!(outcome(1_000, 100, 999), Err(BridgeError::SlippageExceeded));
    assert_eq!(outcome(899, 100, 1_000), Err(BridgeError::SlippageExceeded));
    assert_eq!(outcome(0, 100, 1_000), Err(BridgeError::SwapFailed));
    assert_eq!(outcome(1_000, i128::MAX, i128::MIN), Err(BridgeError::SlippageExceeded));
    assert_eq!(outcome(1_000, i128::MIN, i128::MAX), Ok(()));
}

#[test]
fn all_ways_of_funding_count_toward_the_daily_limit() {
    let env = soroban_sdk::Env::default();
    let mut b = ready(&env);
    assert_eq!(b.set_source_daily_limit(source(), token(), 1_000, None), Ok(()));
    assert_eq!(b.register_meta_signer(source(), hash(20)), Ok(()));
    assert_eq!(fund(&mut b, 100), Ok(()));
    assert_eq!(
        b.fund_c_address_with_referral(source(), target(), token(), 200, None),
        Ok(())
    );
    let (targets, amounts) = (vec![target(), contract(6)], vec![150, 150]);
    assert_eq!(
        b.batch_fund_c_address(source(), &targets, &amounts, token(), None, None),
        Ok(())
    );
    let params = MetaFundParams {
        source: source(),
        target: target(),
        asset: token(),
        amount: 401,
        nonce: 1,
        deadline: 2_000,
    };
    assert_eq!(
        b.execute_meta_fund(&env, params, hash(20), signature()),
        Err(BridgeError::DailyLimitExceeded)
    );
    let params = MetaFundParams { amount: 400, ..params };
    assert_eq!(b.execute_meta_fund(&env, params, hash(20), signature()), Ok(()));
    assert_eq!(fund(&mut b, 1), Err(BridgeError::DailyLimitExceeded));
    // Another source is not concerned.
    assert_eq!(
        b.fund_c_address(account(77), target(), token(), 5_000, None, None),
        Ok(())
    );
}

#[test]
fn a_removed_relayer_is_gone_and_no_other() {
    let env = soroban_sdk::Env::default();
    let mut b = ready(&env);
    for n in [60, 61, 62] {
        assert_eq!(b.add_relayer(hash(n)), Ok(()));
    }
    assert_eq!(b.remove_relayer(hash(63)), Ok(()));
    assert_eq!(b.instance.relayer_count, Some(3));
    assert_eq!(b.remove_relayer(hash(61)), Ok(()));
    assert_eq!(b.instance.relayer_count, Some(2));
    assert_eq!(b.query_is_relayer(hash(61)), Ok(false));
    assert_eq!(b.query_is_relayer(hash(60)), Ok(true));
    assert_eq!(b.query_is_relayer(hash(62)), Ok(true));
}

#[test]
fn a_cancelled_upgrade_makes_room_for_another() {
    let env = soroban_sdk::Env::default();
    let mut b = ready(&env);
    assert_eq!(b.schedule_upgrade(hash(70), None), Ok(100 + UPGRADE_TIMELOCK_LEDGERS));
    b.ledger.sequence = 100 + UPGRADE_TIMELOCK_LEDGERS;
    assert_eq!(b.schedule_upgrade(hash(71), None), Err(BridgeError::Unauthorized));
    assert_eq!(b.cancel_upgrade(None), Ok(()));
    assert_eq!(b.schedule_upgrade(hash(71), None), Ok(100 + 2 * UPGRADE_TIMELOCK_LEDGERS));
    assert_eq!(b.query_pending_upgrade().unwrap().new_wasm_hash, hash(71));
}
