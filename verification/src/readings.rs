//! What stands in the books, read entry by entry.
//!
//! The laws on what calls accept and what they do are stated over these readings.
use vstd::prelude::*;

use crate::actions::{Action, Event};
use crate::books::loyalty_settlement;
use crate::bytes::Bytes32;
use crate::errors::BridgeError;
use crate::fees::{charge_at, fee_fits, fee_on, find_tier_is_first, Charge};
use crate::host::{address_of, key_of};
use crate::lists::{map_order, page};
use crate::safe_math::{checked, magnitude, quotient};
use crate::state::{
    answer, empty_state, first, lookup, option_or, refuse_if, value_or, verdict, BridgeState,
    Instance,
};
use crate::treasury::balances_by_asset;
use crate::ttl::at_most;
use crate::types::{
    Address, AssetCounters, BridgeConfig, FeeTier, Ledger, SourceAsset, SourceAssetDay,
    SourceNonce, COMMIT_REVEAL_MIN_DELAY_LEDGERS, CRITICAL_ENTRY_TTL_THRESHOLD, FEE_DENOMINATOR,
    MAX_ALLOWED_TTL, MAX_BATCH_SIZE, MAX_FEE_BPS, MAX_FEE_TIERS, MAX_REFERRAL_BPS, MAX_STRKEY_LEN,
    MIN_ALLOWED_TTL, SECONDS_PER_DAY, UPGRADE_TIMELOCK_LEDGERS,
};

verus! {

/// Whether a mark stands under a key.
pub open spec fn is_set<K>(m: Map<K, bool>, k: K) -> bool {
    m.contains_key(k) && m[k]
}

/// The amount under a key, or zero.
pub open spec fn amount_at<K>(m: Map<K, i128>, k: K) -> int {
    if m.contains_key(k) {
        m[k] as int
    } else {
        0
    }
}

/// Whether a number is one of `i128`.
pub open spec fn in_range(x: int) -> bool {
    -0x8000_0000_0000_0000_0000_0000_0000_0000 <= x
        <= 0x7fff_ffff_ffff_ffff_ffff_ffff_ffff_ffff
}

/// Whether the bridge has been paused.
pub open spec fn is_paused(s: BridgeState) -> bool {
    s.instance.config matches Some(c) && c.paused
}

/// Whether only allowlisted addresses may receive funds.
pub open spec fn is_restricted(s: BridgeState) -> bool {
    s.instance.config matches Some(c) && c.allowlist_mode
}

/// The global rate.
pub open spec fn global_rate(s: BridgeState) -> int {
    match s.instance.config {
        Some(c) => c.fee_bps as int,
        None => 0,
    }
}

/// Whether the bridge is set up, has not been left, and no call is in progress.
pub open spec fn is_active(s: BridgeState) -> bool {
    !s.instance.entered && s.instance.initialized && !s.instance.deactivated
}

/// Why a bridge that is not active refuses a call.
pub open spec fn inactive_reason(s: BridgeState) -> BridgeError {
    if s.instance.entered {
        BridgeError::Reentrant
    } else if !s.instance.initialized {
        BridgeError::NotInitialized
    } else {
        BridgeError::ContractDeactivated
    }
}

/// Whether the bridge takes calls that a pause disables.
pub open spec fn is_open(s: BridgeState) -> bool {
    is_active(s) && !is_paused(s)
}

/// Why a bridge that is not open refuses a call.
pub open spec fn closed_reason(s: BridgeState) -> BridgeError {
    if is_active(s) {
        BridgeError::ContractPaused
    } else {
        inactive_reason(s)
    }
}

/// Whether an address may receive funds.
pub open spec fn may_receive(s: BridgeState, a: Address) -> bool {
    !is_set(s.blocked, a) && (is_restricted(s) ==> is_set(s.allowlisted, a))
}

/// Why an address may not receive funds.
pub open spec fn denial(s: BridgeState, a: Address) -> BridgeError {
    if is_set(s.blocked, a) {
        BridgeError::AddressBlocked
    } else {
        BridgeError::AddressNotAllowlisted
    }
}

/// Whether an asset is on the whitelist.
pub open spec fn lists_asset(s: BridgeState, asset: Address) -> bool {
    is_set(s.asset_whitelist, key_of(asset))
}

/// Whether a pool is on the whitelist.
pub open spec fn lists_pool(s: BridgeState, pool: Address) -> bool {
    is_set(s.pool_whitelist, key_of(pool))
}

/// Whether a deadline, if there is one, has not passed.
pub open spec fn in_time(s: BridgeState, deadline: Option<u64>) -> bool {
    deadline matches Some(d) ==> s.ledger.timestamp <= d
}

/// The nonce that a caller has to give next.
pub open spec fn due_nonce(s: BridgeState, caller: Address) -> int {
    if s.nonce.contains_key(caller) {
        s.nonce[caller] as int
    } else {
        0
    }
}

/// Whether a nonce, if one is given, is the one that is due.
pub open spec fn nonce_is_due(s: BridgeState, caller: Address, nonce: Option<u64>) -> bool {
    nonce matches Some(n) ==> n == due_nonce(s, caller)
}

/// The nonces after one has been used: the next number is due.
pub open spec fn nonces_after(s: BridgeState, caller: Address, nonce: Option<u64>) -> Map<
    Address,
    u64,
> {
    match nonce {
        Some(n) => s.nonce.insert(caller, (n + 1) as u64),
        None => s.nonce,
    }
}

/// The lowest amount that may be transferred, as far as it is set.
pub open spec fn lowest_amount(s: BridgeState) -> int {
    match s.instance.minimum_amount {
        Some(least) => least as int,
        None => 0,
    }
}

/// Whether an amount is positive and not below the minimum.
pub open spec fn is_enough(s: BridgeState, amount: int) -> bool {
    amount > 0 && amount >= lowest_amount(s)
}

/// The most that a source may move of an asset in a day. Zero is no limit.
pub open spec fn limit_on(s: BridgeState, source: Address, asset: Address) -> int {
    amount_at(s.source_daily_limit, SourceAsset { source, asset })
}

/// The entry of what a source has moved of an asset on the day of the ledger.
pub open spec fn today(s: BridgeState, source: Address, asset: Address) -> SourceAssetDay {
    SourceAssetDay { source, asset, day: (s.ledger.timestamp / 86_400) as u64 }
}

/// Whether a source may move another amount of an asset today.
pub open spec fn within_limit(
    s: BridgeState,
    source: Address,
    asset: Address,
    amount: int,
) -> bool {
    let limit = limit_on(s, source, asset);
    limit != 0 ==> amount_at(s.daily_usage, today(s, source, asset)) + amount <= limit
}

/// Why a source may not move another amount of an asset today.
pub open spec fn limit_reason(
    s: BridgeState,
    source: Address,
    asset: Address,
    amount: int,
) -> BridgeError {
    if in_range(amount_at(s.daily_usage, today(s, source, asset)) + amount) {
        BridgeError::DailyLimitExceeded
    } else {
        BridgeError::Overflow
    }
}

/// What has been moved by day, after another amount: it counts where there is a
/// limit.
pub open spec fn usage_after(
    s: BridgeState,
    source: Address,
    asset: Address,
    amount: int,
) -> Map<SourceAssetDay, i128> {
    if limit_on(s, source, asset) == 0 {
        s.daily_usage
    } else {
        let key = today(s, source, asset);
        s.daily_usage.insert(key, (amount_at(s.daily_usage, key) + amount) as i128)
    }
}

/// What a source has bridged so far.
pub open spec fn bridged_by(s: BridgeState, source: Address) -> int {
    amount_at(s.source_bridged_volume, source)
}

/// What a source has deposited of an asset so far.
pub open spec fn deposited_by(s: BridgeState, source: Address, asset: Address) -> int {
    amount_at(s.user_deposit, SourceAsset { source, asset })
}

/// The totals of an asset.
pub open spec fn totals_of(s: BridgeState, asset: Address) -> AssetCounters {
    if s.asset_stats.contains_key(asset) {
        s.asset_stats[asset]
    } else {
        AssetCounters {
            accrued_fees: 0,
            total_bridged: 0,
            total_fees_collected: 0,
            locked_timelock: 0,
        }
    }
}

/// The request to keep the instance entries alive: for as long as is set, or the
/// longest time to live, once they have less than a quarter of that left.
pub open spec fn alive_request(s: BridgeState) -> Action {
    let longest = match s.instance.max_instance_ttl {
        Some(ttl) => ttl,
        None => 3_110_400,
    };
    Action::ExtendInstanceTtl { threshold: (longest / 4) as u32, extend_to: longest }
}

/// The reward of a funding call: one, of the set amount of the set token, where a
/// token and a positive amount are set, and otherwise none.
pub open spec fn reward_of(s: BridgeState, recipient: Address) -> Seq<Action> {
    match (s.instance.loyalty_token, s.instance.loyalty_amount_per_fund) {
        (Some(token), Some(amount)) => if amount > 0 {
            seq![Action::RewardLoyalty { token, recipient, amount }]
        } else {
            Seq::empty()
        },
        _ => Seq::empty(),
    }
}

/// Whether a tier is the first that covers a volume.
pub open spec fn first_cover(tiers: Seq<FeeTier>, volume: int, i: int) -> bool {
    &&& 0 <= i < tiers.len()
    &&& tiers[i].min_volume <= volume <= tiers[i].max_volume
    &&& forall|j: int|
        0 <= j < i ==> !((#[trigger] tiers[j]).min_volume <= volume <= tiers[j].max_volume)
}

/// Whether a rate is the one of a source before any cap: that of the first tier that
/// covers what it has bridged, or the global one where no tier does.
pub open spec fn is_base_rate(s: BridgeState, source: Address, rate: int) -> bool {
    match s.fee_tiers {
        Some(tiers) => {
            ||| exists|i: int| #[trigger]
                first_cover(tiers, bridged_by(s, source), i) && rate == tiers[i].fee_bps
            ||| rate == global_rate(s) && forall|i: int| !#[trigger]
                first_cover(tiers, bridged_by(s, source), i)
        },
        None => rate == global_rate(s),
    }
}

/// The cap on the rate of an asset: what is set, or a tenth.
pub open spec fn cap_on(s: BridgeState, asset: Address) -> int {
    if s.asset_fee_cap.contains_key(asset) {
        s.asset_fee_cap[asset] as int
    } else {
        1_000
    }
}

/// The lower of two rates.
pub open spec fn lower(a: int, b: int) -> int {
    if a <= b {
        a
    } else {
        b
    }
}

/// Whether a rate is the one that a source pays for an asset.
pub open spec fn is_rate(s: BridgeState, source: Address, asset: Address, rate: int) -> bool {
    exists|base: int| #[trigger]
        is_base_rate(s, source, base) && rate == lower(base, cap_on(s, asset))
}

/// Whether a fee is that share of an amount, rounded down.
pub open spec fn is_share(amount: int, rate: int, fee: int) -> bool {
    10_000 * fee <= amount * rate < 10_000 * (fee + 1)
}

/// A source pays one rate for an asset: that of the first tier that covers its
/// volume, or the global one, up to the cap of the asset. A delivery without a
/// source on this chain pays the global one up to the cap.
pub proof fn a_source_pays_its_rate(s: BridgeState, source: Address, asset: Address, rate: int)
    ensures
        is_rate(s, source, asset, s.effective_bps(source, asset) as int),
        is_rate(s, source, asset, rate) ==> rate == s.effective_bps(source, asset),
        s.capped_bps(asset, s.config().fee_bps) == lower(global_rate(s), cap_on(s, asset)),
        s.tier_of(source) matches Some(tier) ==> tier.min_volume <= bridged_by(s, source)
            <= tier.max_volume,
{
    let volume = bridged_by(s, source);
    let base = s.tiered_bps(source, s.config().fee_bps) as int;
    if let Some(tiers) = s.fee_tiers {
        find_tier_is_first(tiers, s.volume_of(source));
        match s.tier_of(source) {
            Some(tier) => {
                let i = choose|i: int|
                    0 <= i < tiers.len() && #[trigger] tiers[i] == tier && tier.covers(
                        s.volume_of(source),
                    ) && forall|j: int|
                        0 <= j < i ==> !(#[trigger] tiers[j]).covers(s.volume_of(source));
                assert forall|j: int| 0 <= j < i implies !((#[trigger] tiers[j]).min_volume
                    <= volume <= tiers[j].max_volume) by {
                    assert(!tiers[j].covers(s.volume_of(source)));
                }
                assert(first_cover(tiers, volume, i));
                assert forall|k: int| #[trigger] first_cover(tiers, volume, k) implies k == i by {
                    if k < i {
                        assert(!(tiers[k].min_volume <= volume <= tiers[k].max_volume));
                    } else if i < k {
                        assert(!(tiers[i].min_volume <= volume <= tiers[i].max_volume));
                    }
                }
            },
            None => {
                assert forall|i: int| !#[trigger] first_cover(tiers, volume, i) by {
                    if 0 <= i < tiers.len() {
                        assert(!tiers[i].covers(s.volume_of(source)));
                    }
                }
            },
        }
    }
    assert(is_base_rate(s, source, base));
    assert(forall|other: int| #[trigger] is_base_rate(s, source, other) ==> other == base);
}

/// The fee on an amount is the share that the rate makes of it, rounded down, and
/// nothing else: there is no other such number.
pub proof fn a_fee_is_a_share(amount: int, rate: int, fee: int)
    ensures
        is_share(amount, rate, fee) <==> fee == fee_on(amount, rate),
{
}

/// An amount of which the fee is a number of `i128` is split into the fee and the
/// rest.
pub proof fn a_charge_splits_the_amount(amount: i128, rate: u32)
    requires
        amount >= 0,
        rate <= 10_000,
    ensures
        charge_at(amount, rate) is Ok <==> in_range(amount * rate),
        charge_at(amount, rate) matches Err(e) ==> e == BridgeError::Overflow,
        charge_at(amount, rate) matches Ok(c) ==> {
            &&& is_share(amount as int, rate as int, c.fee as int)
            &&& c.fee + c.net == amount
            &&& 0 <= c.fee <= amount
            &&& c.fee_bps == rate
        },
{
    assert(0 <= amount * rate <= amount * 10_000) by (nonlinear_arith)
        requires
            amount >= 0,
            0 <= rate <= 10_000,
    ;
}

/// What a source is quoted is the charge at its rate, for any amount: the share that
/// the rate makes and the rest, where both are numbers of `i128`. Without a source the
/// global rate counts, up to the cap.
pub proof fn a_quote_is_the_charge(
    s: BridgeState,
    source: Address,
    asset: Address,
    amount: i128,
    rate: u32,
)
    ensures
        s.charge(source, asset, amount) == charge_at(amount, s.effective_bps(source, asset)),
        s.flat_charge(asset, amount) == charge_at(
            amount,
            lower(global_rate(s), cap_on(s, asset)) as u32,
        ),
        ({
            let fee = (amount * rate) / 10_000;
            let fits = in_range(amount * rate) && in_range(amount - fee);
            &&& !fits ==> charge_at(amount, rate) == Err::<Charge, _>(BridgeError::Overflow)
            &&& fits ==> charge_at(amount, rate) == Ok::<_, BridgeError>(
                Charge { fee_bps: rate, fee: fee as i128, net: (amount - fee) as i128 },
            )
        }),
{
    a_source_pays_its_rate(s, source, asset, 0);
}

/// The tier of a source is the first that covers what it has bridged; where none
/// does it has none.
pub proof fn a_source_has_the_first_tier(s: BridgeState, source: Address, i: int)
    ensures
        s.fee_tiers is None ==> s.tier_of(source) is None,
        s.fee_tiers matches Some(tiers) ==> {
            &&& first_cover(tiers, bridged_by(s, source), i) ==> s.tier_of(source) == Some(
                tiers[i],
            )
            &&& s.tier_of(source) is None ==> !first_cover(tiers, bridged_by(s, source), i)
            &&& s.tier_of(source) matches Some(tier) ==> tiers.contains(tier) && tier.min_volume
                <= bridged_by(s, source) <= tier.max_volume
        },
{
    if let Some(tiers) = s.fee_tiers {
        let volume = s.volume_of(source);
        find_tier_is_first(tiers, volume);
        if let Some(tier) = s.tier_of(source) {
            let k = choose|k: int|
                0 <= k < tiers.len() && #[trigger] tiers[k] == tier && tier.covers(volume)
                    && forall|j: int| 0 <= j < k ==> !(#[trigger] tiers[j]).covers(volume);
            assert(tiers.contains(tiers[k]));
            if first_cover(tiers, bridged_by(s, source), i) {
                if i < k {
                    assert(!tiers[i].covers(volume));
                } else if k < i {
                    assert(!(tiers[k].min_volume <= volume <= tiers[k].max_volume));
                }
            }
        } else if 0 <= i < tiers.len() {
            assert(!tiers[i].covers(volume));
        }
    }
}

/// A call that is refused returns the reason, and one that is not returns what it
/// has to return; of two reasons the first counts.
pub proof fn reasons_are_returned<T>(e: BridgeError, other: Option<BridgeError>, value: T)
    ensures
        verdict(None) == Ok::<(), BridgeError>(()),
        verdict(Some(e)) == Err::<(), BridgeError>(e),
        answer(None, value) == Ok::<T, BridgeError>(value),
        answer(Some(e), value) == Err::<T, BridgeError>(e),
        first(Some(e), other) == Some(e),
        first(None, other) == other,
        refuse_if(true, e) == Some(e),
        refuse_if(false, e) is None,
{
}

/// What the queries answer is what stands in the books.
pub proof fn queries_read_the_books(
    s: BridgeState,
    a: Address,
    asset: Address,
    number: u64,
    hash: Bytes32,
)
    ensures
        s.config().fee_bps == global_rate(s),
        s.config().paused == is_paused(s),
        s.config().allowlist_mode == is_restricted(s),
        s.instance.admin matches Some(admin) ==> s.admin() == admin,
        s.instance.fee_collector matches Some(collector) ==> s.fee_collector() == collector,
        s.minimum_amount() == lowest_amount(s),
        s.is_blocked(a) == is_set(s.blocked, a),
        s.is_allowlisted(a) == is_set(s.allowlisted, a),
        s.asset_is_listed(a) == lists_asset(s, a),
        s.pool_is_listed(a) == lists_pool(s, a),
        s.nonce_of(a) == due_nonce(s, a),
        s.counters_of(asset) == totals_of(s, asset),
        s.volume_of(a) == bridged_by(s, a),
        s.deposit_of(a, asset) == deposited_by(s, a, asset),
        s.daily_limit_of(a, asset) == limit_on(s, a, asset),
        s.used_today(a, asset) == amount_at(s.daily_usage, today(s, a, asset)),
        s.fee_cap_of(asset) == cap_on(s, asset),
        s.is_relayer(hash) == is_set(s.relayer, hash),
        s.crosschain_done(hash) == is_set(s.cross_chain_nonce, hash),
        s.auth_nonce_used(a, number) == is_set(
            s.used_auth_nonce,
            SourceNonce { source: a, nonce: number },
        ),
        s.meta_nonce_used(a, number) == is_set(
            s.meta_tx_nonce,
            SourceNonce { source: a, nonce: number },
        ),
        s.query_error() == (if s.instance.initialized {
            None
        } else {
            Some(BridgeError::NotInitialized)
        }),
        s.default_tier() == (FeeTier {
            min_volume: 0,
            max_volume: 0x7fff_ffff_ffff_ffff_ffff_ffff_ffff_ffff,
            fee_bps: s.config().fee_bps,
        }),
        s.auth_nonce_of(a) == (if s.auth_nonce.contains_key(a) {
            s.auth_nonce[a]
        } else {
            0
        }),
{
}

/// What stands in an entry of the instance is what counts, and where nothing stands
/// there it is nothing, the longest time, one signature, or the first id.
pub proof fn entries_of_the_instance_count(s: BridgeState)
    ensures
        s.referral_rate() == (match s.instance.referral_rate {
            Some(rate) => rate,
            None => 0,
        }),
        s.max_withdraw_per_tx() == (match s.instance.max_withdraw_per_tx {
            Some(amount) => amount,
            None => 0,
        }),
        s.max_instance_ttl() == (match s.instance.max_instance_ttl {
            Some(ttl) => ttl,
            None => 3_110_400,
        }),
        s.max_persistent_ttl() == (match s.instance.max_persistent_ttl {
            Some(ttl) => ttl,
            None => 3_110_400,
        }),
        s.relayer_count() == (match s.instance.relayer_count {
            Some(count) => count,
            None => 0,
        }),
        s.relayer_threshold() == (match s.instance.relayer_threshold {
            Some(threshold) => threshold,
            None => 1,
        }),
        s.next_timelock() == (match s.instance.timelock_id {
            Some(id) => id,
            None => 0,
        }),
        s.next_commitment() == (match s.instance.commitment_id {
            Some(id) => id,
            None => 0,
        }),
        s.wasm_hash() == (match s.instance.current_wasm_hash {
            Some(hash) => hash,
            None => Bytes32 { hi: 0, lo: 0 },
        }),
        s.upgrade_ledger() == lower(s.ledger.sequence + 17_280, 0xffff_ffff),
{
}

/// The limits of the rules: a tenth and the whole for rates, a hundred entries to a
/// batch, fifty tiers, the longest and the shortest time to live, a day for upgrades
/// and for limits, and five ledgers between a commitment and its reveal. The last
/// nonce cannot be used.
pub proof fn the_rules_have_these_limits(
    ttl: u32,
    other: u32,
    s: BridgeState,
    caller: Address,
    nonce: Option<u64>,
)
    ensures
        MAX_FEE_BPS == 1_000,
        MAX_REFERRAL_BPS == 10_000,
        FEE_DENOMINATOR == 10_000,
        MAX_BATCH_SIZE == 100,
        MAX_FEE_TIERS == 50,
        MAX_ALLOWED_TTL == 3_110_400,
        MIN_ALLOWED_TTL == 120_960,
        CRITICAL_ENTRY_TTL_THRESHOLD == 100_000,
        UPGRADE_TIMELOCK_LEDGERS == 17_280,
        COMMIT_REVEAL_MIN_DELAY_LEDGERS == 5,
        SECONDS_PER_DAY == 86_400,
        MAX_STRKEY_LEN == 64,
        at_most(ttl, other) == lower(ttl as int, other as int),
        s.nonce_fits(caller, nonce) <==> (nonce matches Some(n) ==> n < 0xffff_ffff_ffff_ffff),
{
}

/// What holds of the books of every bridge: a bridge that has been set up has an
/// admin and a fee collector, one that has been left has been set up, and no rate
/// is above its limit.
pub proof fn books_in_order(s: BridgeState)
    ensures
        s.wf() <==> {
            &&& s.instance.initialized ==> s.instance.admin is Some
                && s.instance.fee_collector is Some
            &&& s.instance.deactivated ==> s.instance.initialized
            &&& global_rate(s) <= 1_000
            &&& s.instance.referral_rate matches Some(rate) ==> rate <= 10_000
            &&& s.fee_tiers matches Some(tiers) ==> forall|i: int|
                0 <= i < tiers.len() ==> (#[trigger] tiers[i]).fee_bps <= 1_000
        },
{
}

/// A table or an entry that may be absent is read as it stands.
pub proof fn absent_entries_have_defaults<K, V>(m: Map<K, V>, k: K, v: V, default: V)
    ensures
        m.contains_key(k) ==> lookup(m, k) == Some(m[k]) && value_or(m, k, default) == m[k],
        !m.contains_key(k) ==> lookup(m, k) is None && value_or(m, k, default) == default,
        option_or(Some(v), default) == v,
        option_or(None::<V>, default) == default,
{
}

/// Arithmetic gives the number, where it is one of `i128`, and an overflow
/// otherwise. A quotient is rounded toward zero: what remains is smaller than the
/// divisor and on the side of the dividend.
pub proof fn arithmetic_is_exact(x: int, a: int, b: int)
    ensures
        checked(x) matches Ok(y) ==> y == x,
        checked(x) matches Err(e) ==> e == BridgeError::Overflow,
        checked(x) is Ok <==> in_range(x),
        fee_fits(a, b) <==> in_range(a * b),
        b != 0 ==> {
            let rest = a - quotient(a, b) * b;
            &&& a >= 0 ==> rest >= 0
            &&& a <= 0 ==> rest <= 0
            &&& b > 0 ==> -b < rest < b
            &&& b < 0 ==> b < rest < -b
        },
{
    if b != 0 {
        let m = magnitude(a);
        let n = magnitude(b);
        let q = m / n;
        assert(0 <= m - q * n < n) by (nonlinear_arith)
            requires
                m >= 0,
                n > 0,
                q == m / n,
        ;
        assert((-q) * b == -(q * b) && q * (-b) == -(q * b)) by (nonlinear_arith);
    }
}

/// An address has one key, by which accounts come before contracts, and those of a
/// kind by their bytes.
pub proof fn addresses_have_keys(a: Address, b: Address)
    ensures
        key_of(a) == key_of(b) <==> a == b,
        key_of(a).0 == 0 <==> a.kind is Account,
        key_of(a).0 <= 1,
        key_of(a).1 == a.id.hi,
        key_of(a).2 == a.id.lo,
        address_of(key_of(a)) == a,
        map_order()(key_of(a), key_of(b)) <==> {
            ||| a.kind is Account && b.kind is Contract
            ||| a.kind == b.kind && a.id.hi < b.id.hi
            ||| a.kind == b.kind && a.id.hi == b.id.hi && a.id.lo < b.id.lo
        },
{
}

/// A page of a list holds, from the offset on, as many entries as are asked for, but
/// at most a hundred, as far as the list goes.
pub proof fn a_page_is_a_piece<T>(list: Seq<T>, offset: u32, limit: u32, i: int)
    ensures
        ({
            let found = page(list, offset, limit);
            let size = lower(limit as int, 100);
            &&& offset >= list.len() ==> found.len() == 0
            &&& offset < list.len() ==> found.len() == lower(size, list.len() - offset)
            &&& 0 <= i < found.len() ==> found[i] == list[offset + i]
        }),
{
}

/// Whether an asset occurs last at a position among the first `n`.
pub open spec fn occurs_last(assets: Seq<Address>, n: nat, a: Address, i: int) -> bool {
    &&& 0 <= i < n
    &&& assets[i] == a
    &&& forall|j: int| i < j < n ==> #[trigger] assets[j] != a
}

/// The balances of assets, taken together, hold the balance of every asset that was
/// asked for, the last one where it was asked for twice, and no other.
pub proof fn balances_are_those_of_the_assets(
    assets: Seq<Address>,
    balances: Seq<i128>,
    n: nat,
    a: Address,
    i: int,
)
    requires
        n <= assets.len(),
    ensures
        ({
            let m = balances_by_asset(assets, balances, n);
            &&& m.contains_key(key_of(a)) <==> assets.take(n as int).contains(a)
            &&& occurs_last(assets, n, a, i) ==> m[key_of(a)] == balances[i]
        }),
    decreases n,
{
    let upto = assets.take(n as int);
    if n > 0 {
        let m = (n - 1) as nat;
        let before = assets.take(m as int);
        balances_are_those_of_the_assets(assets, balances, m, a, i);
        addresses_have_keys(a, assets[m as int]);
        assert(upto =~= before.push(assets[m as int]));
        assert(upto.contains(a) <==> before.contains(a) || assets[m as int] == a) by {
            if before.contains(a) {
                let k = choose|k: int| 0 <= k < before.len() && before[k] == a;
                assert(upto[k] == a);
            }
            if assets[m as int] == a {
                assert(upto[m as int] == a);
            }
        }
    }
}

/// A reward is paid by the bridge to its recipient where the reserve covers it, and
/// otherwise only reported.
pub proof fn a_reward_is_paid_or_reported(
    contract: Address,
    token: Address,
    recipient: Address,
    amount: i128,
    reserve: i128,
)
    ensures
        amount <= reserve ==> loyalty_settlement(contract, token, recipient, amount, reserve)
            == (Action::Transfer { asset: token, from: contract, to: recipient, amount }),
        reserve < amount ==> loyalty_settlement(contract, token, recipient, amount, reserve)
            == (Action::Publish {
            event: Event::LoyaltyMintSkipped { recipient, amount, reserve },
        }),
{
}

/// The mark of a call in progress is all that entering and leaving change.
pub proof fn entering_changes_the_mark(s: BridgeState, entered: bool)
    ensures
        s.with_entered(entered) == (BridgeState {
            instance: Instance { entered, ..s.instance },
            ..s
        }),
{
}

/// On a new bridge nothing is set: no fee, no limit, no list has an entry, one
/// relayer would have to sign, and entries live for the longest time.
pub proof fn a_new_bridge_has_nothing_set(
    ledger: Ledger,
    a: Address,
    asset: Address,
    number: u64,
    hash: Bytes32,
)
    ensures
        ({
            let s = empty_state(ledger);
            &&& !s.instance.initialized
            &&& !s.instance.deactivated
            &&& !s.instance.entered
            &&& s.ledger == ledger
            &&& s.actions.len() == 0
            &&& s.config() == (BridgeConfig { fee_bps: 0, paused: false, allowlist_mode: false })
            &&& s.referral_rate() == 0
            &&& s.minimum_amount() == 0
            &&& s.max_withdraw_per_tx() == 0
            &&& s.max_instance_ttl() == 3_110_400
            &&& s.max_persistent_ttl() == 3_110_400
            &&& s.relayer_count() == 0
            &&& s.relayer_threshold() == 1
            &&& s.next_timelock() == 0
            &&& s.next_commitment() == 0
            &&& s.wasm_hash() == (Bytes32 { hi: 0, lo: 0 })
            &&& s.instance.pending_admin is None
            &&& s.instance.pending_fee_collector is None
            &&& s.instance.pending_upgrade is None
            &&& s.instance.loyalty_token is None
            &&& s.fee_tiers is None
            &&& !s.asset_is_listed(a)
            &&& !s.pool_is_listed(a)
            &&& !s.is_blocked(a)
            &&& !s.is_allowlisted(a)
            &&& s.nonce_of(a) == 0
            &&& s.volume_of(a) == 0
            &&& s.deposit_of(a, asset) == 0
            &&& s.daily_limit_of(a, asset) == 0
            &&& s.used_today(a, asset) == 0
            &&& s.fee_cap_of(asset) == 1_000
            &&& s.counters_of(asset).accrued_fees == 0
            &&& s.counters_of(asset).total_bridged == 0
            &&& s.counters_of(asset).total_fees_collected == 0
            &&& s.counters_of(asset).locked_timelock == 0
            &&& !s.is_relayer(hash)
            &&& !s.crosschain_done(hash)
            &&& !s.auth_nonce_used(a, number)
            &&& s.auth_nonce_of(a) == 0
            &&& !s.meta_nonce_used(a, number)
            &&& !s.meta_signer.contains_key(a)
            &&& !s.timelock.contains_key(number)
            &&& !s.commitment.contains_key(number)
        }),
{
}

} // verus!
