//! What the calls do that change settings, roles, lists and code, keep entries
//! alive, or move what the bridge holds.
use vstd::prelude::*;

use crate::actions::{Action, Event};
use crate::bytes::Bytes32;
use crate::deliveries::totals_grow;
use crate::export::export;
use crate::host::key_of;
use crate::lifecycle::{initialize_effect, migrate_effect, pause_effect, unpause_effect};
use crate::lists::{
    allowlist_effect, allowlist_mode_effect, asset_list_effect, blocklist_effect, pool_list_effect,
};
use crate::meta_tx::register_effect;
use crate::nonces::auth_entry_effect;
use crate::readings::{
    alive_request, global_rate, in_range, is_set, nonces_after, today, totals_of,
};
use crate::relayers::{add_relayer_effect, remove_relayer_effect, threshold_effect};
use crate::roles::{
    accept_admin_effect, accept_fee_collector_effect, propose_admin_effect,
    propose_fee_collector_effect, set_admin_effect, set_fee_collector_effect,
};
use crate::settings::{
    daily_limit_effect, fee_cap_effect, fee_tiers_effect, loyalty_effect, max_withdraw_effect,
    minimum_amount_effect, referral_rate_effect, set_fee_bps_effect,
};
use crate::state::{BridgeState, Instance};
use crate::treasury::{reclaim_effect, withdraw_effect};
use crate::ttl::{
    extend_entry_effect, extend_instance_effect, extend_persistent_effect, extend_source_effect,
    persistent_ttl, set_max_instance_effect, set_max_persistent_effect,
};
use crate::types::{
    Address, BridgeConfig, BridgeConfigData, DataKey, FeeTier, PendingUpgrade, SourceAsset,
    SourceNonce,
};
use crate::upgrade::{
    cancel_upgrade_effect, execute_upgrade_effect, schedule_effect, upgrade_effect,
};

verus! {

/// The settings, all off where none are stored.
pub open spec fn settings_of(s: BridgeState) -> BridgeConfig {
    match s.instance.config {
        Some(c) => c,
        None => BridgeConfig { fee_bps: 0, paused: false, allowlist_mode: false },
    }
}

/// The roles and the global rate, as they are cached, or as they are.
pub open spec fn cached(s: BridgeState) -> BridgeConfigData {
    match s.instance.bridge_config {
        Some(c) => c,
        None => BridgeConfigData {
            admin: s.instance.admin->0,
            fee_collector: s.instance.fee_collector->0,
            fee_bps: global_rate(s) as u32,
        },
    }
}

/// What is asked for by a call that needs an address to authorize it.
pub open spec fn asked(s: BridgeState, who: Address) -> Seq<Action> {
    s.actions + seq![Action::RequireAuth { address: who }, alive_request(s)]
}

/// What an event adds to what is asked for.
pub open spec fn published(actions: Seq<Action>, event: Event) -> Seq<Action> {
    actions + seq![Action::Publish { event }]
}

/// Setting a rate asks the admin, uses up the nonce, stores the rate and nothing
/// else, and publishes what was there before.
pub proof fn what_setting_a_rate_does(
    s: BridgeState,
    asset: Address,
    bps: u32,
    nonce: Option<u64>,
)
    ensures
        ({
            let admin = s.instance.admin->0;
            let nonces = nonces_after(s, admin, nonce);
            &&& set_fee_bps_effect(s, bps, nonce) == (BridgeState {
                instance: Instance {
                    config: Some(BridgeConfig { fee_bps: bps, ..settings_of(s) }),
                    fee_bps: Some(bps),
                    bridge_config: Some(BridgeConfigData { fee_bps: bps, ..cached(s) }),
                    ..s.instance
                },
                nonce: nonces,
                actions: published(
                    asked(s, admin),
                    Event::FeeBpsChanged {
                        old_fee_bps: global_rate(s) as u32,
                        new_fee_bps: bps,
                        admin,
                    },
                ),
                ..s
            })
            &&& referral_rate_effect(s, bps, nonce) == (BridgeState {
                instance: Instance { referral_rate: Some(bps), ..s.instance },
                nonce: nonces,
                actions: published(asked(s, admin), Event::ReferralRateChanged { bps }),
                ..s
            })
            &&& fee_cap_effect(s, asset, bps, nonce) == (BridgeState {
                asset_fee_cap: s.asset_fee_cap.insert(asset, bps),
                nonce: nonces,
                actions: asked(s, admin),
                ..s
            })
        }),
{
}

/// Setting the tiers or the reward asks the admin, stores what is given and nothing
/// else, and publishes it.
pub proof fn what_setting_tiers_and_rewards_does(
    s: BridgeState,
    tiers: Seq<FeeTier>,
    token: Address,
    amount: i128,
)
    ensures
        ({
            let admin = s.instance.admin->0;
            &&& fee_tiers_effect(s, tiers) == (BridgeState {
                fee_tiers: Some(tiers),
                actions: published(
                    asked(s, admin),
                    Event::FeeTiersSet { admin, count: tiers.len() as u32 },
                ),
                ..s
            })
            &&& loyalty_effect(s, token, amount) == (BridgeState {
                instance: Instance {
                    loyalty_token: Some(token),
                    loyalty_amount_per_fund: Some(amount),
                    ..s.instance
                },
                actions: published(
                    asked(s, admin),
                    Event::LoyaltyTokenSet { admin, token, amount_per_fund: amount },
                ),
                ..s
            })
        }),
{
}

/// Setting a limit asks the admin, uses up the nonce, and stores the limit and
/// nothing else.
pub proof fn what_setting_a_limit_does(
    s: BridgeState,
    source: Address,
    asset: Address,
    amount: i128,
    nonce: Option<u64>,
)
    ensures
        ({
            let admin = s.instance.admin->0;
            let called = BridgeState {
                nonce: nonces_after(s, admin, nonce),
                actions: asked(s, admin),
                ..s
            };
            &&& daily_limit_effect(s, source, asset, amount, nonce) == (BridgeState {
                source_daily_limit: s.source_daily_limit.insert(
                    SourceAsset { source, asset },
                    amount,
                ),
                ..called
            })
            &&& minimum_amount_effect(s, amount, nonce) == (BridgeState {
                instance: Instance { minimum_amount: Some(amount), ..s.instance },
                ..called
            })
            &&& max_withdraw_effect(s, amount, nonce) == (BridgeState {
                instance: Instance { max_withdraw_per_tx: Some(amount), ..s.instance },
                ..called
            })
        }),
{
}

/// A change of a list asks the admin, uses up the nonce, and puts the address on the
/// list or takes it off, and changes no other list and no other entry.
pub proof fn what_changing_a_list_does(
    s: BridgeState,
    a: Address,
    on: bool,
    nonce: Option<u64>,
    other: Address,
)
    ensures
        ({
            let admin = s.instance.admin->0;
            let called = BridgeState {
                nonce: nonces_after(s, admin, nonce),
                actions: asked(s, admin),
                ..s
            };
            let b = blocklist_effect(s, a, on, nonce);
            let w = allowlist_effect(s, a, on, nonce);
            let l = asset_list_effect(s, a, on, nonce);
            let p = pool_list_effect(s, a, on, nonce);
            &&& b == (BridgeState { blocked: b.blocked, ..called })
            &&& w == (BridgeState { allowlisted: w.allowlisted, ..called })
            &&& l == (BridgeState { asset_whitelist: l.asset_whitelist, ..called })
            &&& p == (BridgeState { pool_whitelist: p.pool_whitelist, ..called })
            &&& is_set(b.blocked, a) == on
            &&& is_set(w.allowlisted, a) == on
            &&& is_set(l.asset_whitelist, key_of(a)) == on
            &&& is_set(p.pool_whitelist, key_of(a)) == on
            &&& b.blocked.contains_key(a) == on
            &&& w.allowlisted.contains_key(a) == on
            &&& l.asset_whitelist.contains_key(key_of(a)) == on
            &&& p.pool_whitelist.contains_key(key_of(a)) == on
            &&& b.blocked.remove(a) == s.blocked.remove(a)
            &&& w.allowlisted.remove(a) == s.allowlisted.remove(a)
            &&& l.asset_whitelist.remove(key_of(a)) == s.asset_whitelist.remove(key_of(a))
            &&& p.pool_whitelist.remove(key_of(a)) == s.pool_whitelist.remove(key_of(a))
            &&& allowlist_mode_effect(s, on, nonce) == (BridgeState {
                instance: Instance {
                    config: Some(BridgeConfig { allowlist_mode: on, ..settings_of(s) }),
                    allowlist_mode: Some(on),
                    ..s.instance
                },
                ..called
            })
        }),
{
}

/// A role is handed over at once by its admin, or is proposed by the admin and taken
/// by the one who was proposed, who is asked; with that the proposal is gone.
pub proof fn what_handing_over_a_role_does(s: BridgeState, to: Address, nonce: Option<u64>)
    ensures
        ({
            let admin = s.instance.admin->0;
            let collector = s.instance.fee_collector->0;
            let called = BridgeState {
                nonce: nonces_after(s, admin, nonce),
                actions: asked(s, admin),
                ..s
            };
            let next = s.instance.pending_admin->0;
            let heir = s.instance.pending_fee_collector->0;
            &&& set_admin_effect(s, to, nonce) == (BridgeState {
                instance: Instance {
                    admin: Some(to),
                    bridge_config: Some(BridgeConfigData { admin: to, ..cached(s) }),
                    ..s.instance
                },
                actions: published(
                    called.actions,
                    Event::AdminChanged { old_admin: admin, new_admin: to },
                ),
                ..called
            })
            &&& set_fee_collector_effect(s, to, nonce) == (BridgeState {
                instance: Instance {
                    fee_collector: Some(to),
                    bridge_config: Some(BridgeConfigData { fee_collector: to, ..cached(s) }),
                    ..s.instance
                },
                actions: published(
                    called.actions,
                    Event::FeeCollectorChanged {
                        old_collector: collector,
                        new_collector: to,
                        admin,
                    },
                ),
                ..called
            })
            &&& propose_admin_effect(s, to, nonce) == (BridgeState {
                instance: Instance { pending_admin: Some(to), ..s.instance },
                ..called
            })
            &&& propose_fee_collector_effect(s, to, nonce) == (BridgeState {
                instance: Instance { pending_fee_collector: Some(to), ..s.instance },
                ..called
            })
            &&& accept_admin_effect(s) == (BridgeState {
                instance: Instance {
                    admin: Some(next),
                    bridge_config: Some(BridgeConfigData { admin: next, ..cached(s) }),
                    pending_admin: None,
                    ..s.instance
                },
                actions: published(
                    asked(s, next),
                    Event::AdminTransferred { old_admin: admin, new_admin: next },
                ),
                ..s
            })
            &&& accept_fee_collector_effect(s) == (BridgeState {
                instance: Instance {
                    fee_collector: Some(heir),
                    bridge_config: Some(BridgeConfigData { fee_collector: heir, ..cached(s) }),
                    pending_fee_collector: None,
                    ..s.instance
                },
                actions: published(
                    asked(s, heir),
                    Event::FeeCollectorTransferred {
                        old_collector: collector,
                        new_collector: heir,
                    },
                ),
                ..s
            })
        }),
{
}

/// A change among the relayers asks the admin. A new key is marked and counted, a
/// key that goes is no longer there nor counted, and a key that is there already, or
/// is not there anyway, changes nothing.
pub proof fn what_changing_relayers_does(s: BridgeState, pubkey: Bytes32, threshold: u32)
    ensures
        ({
            let called = BridgeState { actions: asked(s, s.instance.admin->0), ..s };
            let count: int = match s.instance.relayer_count {
                Some(count) => count as int,
                None => 0,
            };
            let more = add_relayer_effect(s, pubkey);
            let less = remove_relayer_effect(s, pubkey);
            &&& is_set(s.relayer, pubkey) ==> more == called
            &&& !is_set(s.relayer, pubkey) ==> more == (BridgeState {
                instance: Instance { relayer_count: Some((count + 1) as u32), ..s.instance },
                relayer: s.relayer.insert(pubkey, true),
                ..called
            })
            &&& !is_set(s.relayer, pubkey) ==> less == called
            &&& is_set(s.relayer, pubkey) ==> less == (BridgeState {
                instance: Instance {
                    relayer_count: Some(
                        (if count > 0 {
                            count - 1
                        } else {
                            0
                        }) as u32,
                    ),
                    ..s.instance
                },
                relayer: s.relayer.remove(pubkey),
                ..called
            })
            &&& threshold_effect(s, threshold) == (BridgeState {
                instance: Instance { relayer_threshold: Some(threshold), ..s.instance },
                ..called
            })
        }),
{
}

/// An upgrade at once replaces the code by the given one. A scheduled one waits for
/// a day's ledgers, and then replaces the code by the scheduled one; a cancelled one
/// is forgotten. All ask the admin and publish the hash.
pub proof fn what_an_upgrade_does(s: BridgeState, hash: Bytes32, nonce: Option<u64>)
    ensures
        ({
            let admin = s.instance.admin->0;
            let called = BridgeState {
                nonce: nonces_after(s, admin, nonce),
                actions: asked(s, admin),
                ..s
            };
            let old_hash = match s.instance.current_wasm_hash {
                Some(old_hash) => old_hash,
                None => Bytes32 { hi: 0, lo: 0 },
            };
            let replaced = asked(s, admin) + seq![
                Action::UpdateWasm { hash },
                Action::Publish {
                    event: Event::ContractUpgraded { old_hash, new_hash: hash, admin },
                },
            ];
            let after = if s.ledger.sequence + 17_280 <= 0xffff_ffff {
                (s.ledger.sequence + 17_280) as u32
            } else {
                0xffff_ffff
            };
            &&& upgrade_effect(s, hash, nonce) == (BridgeState {
                instance: Instance { current_wasm_hash: Some(hash), ..s.instance },
                actions: replaced,
                ..called
            })
            &&& schedule_effect(s, hash, nonce) == (BridgeState {
                instance: Instance {
                    pending_upgrade: Some(
                        PendingUpgrade { new_wasm_hash: hash, executable_after_ledger: after },
                    ),
                    ..s.instance
                },
                actions: published(
                    called.actions,
                    Event::UpgradeScheduled {
                        new_hash: hash,
                        executable_after_ledger: after,
                        admin,
                    },
                ),
                ..called
            })
            &&& execute_upgrade_effect(s, hash, nonce) == (BridgeState {
                instance: Instance {
                    current_wasm_hash: Some(hash),
                    pending_upgrade: None,
                    ..s.instance
                },
                actions: replaced,
                ..called
            })
            &&& s.instance.pending_upgrade matches Some(pending) ==> cancel_upgrade_effect(s, nonce)
                == (BridgeState {
                instance: Instance { pending_upgrade: None, ..s.instance },
                actions: published(
                    called.actions,
                    Event::UpgradeCancelled { cancelled_hash: pending.new_wasm_hash, admin },
                ),
                ..called
            })
        }),
{
}

/// The lower of two times to live.
pub open spec fn shorter(a: u32, b: u32) -> u32 {
    if a <= b {
        a
    } else {
        b
    }
}

/// The request to keep an entry alive, once it has less than a quarter of the time
/// left, or none where there is no entry.
pub open spec fn kept_alive(there: bool, key: DataKey, ttl: u32) -> Seq<Action> {
    if there {
        seq![Action::ExtendTtl { key, threshold: (ttl / 4) as u32, extend_to: ttl }]
    } else {
        Seq::empty()
    }
}

/// Keeping the instance entries or one other entry alive asks the admin and changes
/// no entry. It is done for as long as is asked, up to the longest time to live.
pub proof fn what_keeping_alive_does(s: BridgeState, ttl: u32, key: DataKey, event: Event)
    ensures
        ({
            let admin = s.instance.admin->0;
            let auth = s.actions + seq![Action::RequireAuth { address: admin }];
            let time = shorter(ttl, 3_110_400);
            &&& extend_instance_effect(s, ttl) == (BridgeState {
                actions: auth + seq![
                    Action::ExtendInstanceTtl { threshold: (time / 4) as u32, extend_to: time },
                    Action::Publish { event: Event::InstanceTtlExtended { admin, ttl: time } },
                ],
                ..s
            })
            &&& extend_entry_effect(s, key, ttl, event) == (BridgeState {
                actions: published(auth + kept_alive(true, key, time), event),
                ..s
            })
        }),
{
}

/// A request for an entry, where there is one, comes after those before it.
proof fn a_request_is_added(s: BridgeState, there: bool, key: DataKey, ttl: u32)
    ensures
        s.extend_if(there, key, ttl) == (BridgeState {
            actions: s.actions + kept_alive(there, key, ttl),
            ..s
        }),
{
}

/// Keeping the entries of an asset alive asks the admin and changes no entry. It is
/// done for those entries that are there, for as long as is asked, but for no more
/// than the maximum that is set, nor than the longest time to live.
pub proof fn what_keeping_an_asset_alive_does(s: BridgeState, asset: Address, ttl: u32)
    ensures
        ({
            let admin = s.instance.admin->0;
            let limit = match s.instance.max_persistent_ttl {
                Some(limit) => limit,
                None => 3_110_400,
            };
            let time = shorter(shorter(ttl, 3_110_400), limit);
            extend_persistent_effect(s, asset, ttl) == (BridgeState {
                actions: published(
                    s.actions + seq![Action::RequireAuth { address: admin }] + kept_alive(
                        s.accrued_fees.contains_key(asset),
                        DataKey::AccruedFees(asset),
                        time,
                    ) + kept_alive(
                        s.total_bridged.contains_key(asset),
                        DataKey::TotalBridged(asset),
                        time,
                    ) + kept_alive(
                        s.total_fees_collected.contains_key(asset),
                        DataKey::TotalFeesCollected(asset),
                        time,
                    ) + kept_alive(
                        s.asset_stats.contains_key(asset),
                        DataKey::AssetStats(asset),
                        time,
                    ) + kept_alive(
                        s.asset_fee_cap.contains_key(asset),
                        DataKey::AssetFeeCap(asset),
                        time,
                    ),
                    Event::PersistentTtlExtended { admin, asset, ttl: time },
                ),
                ..s
            })
        }),
{
    let time = persistent_ttl(s, ttl);
    let a = s.require_auth(s.admin());
    assert(a.actions =~= s.actions + seq![Action::RequireAuth { address: s.admin() }]);
    let there = s.accrued_fees.contains_key(asset);
    a_request_is_added(a, there, DataKey::AccruedFees(asset), time);
    let b = a.extend_if(there, DataKey::AccruedFees(asset), time);
    let there = s.total_bridged.contains_key(asset);
    a_request_is_added(b, there, DataKey::TotalBridged(asset), time);
    let c = b.extend_if(there, DataKey::TotalBridged(asset), time);
    let there = s.total_fees_collected.contains_key(asset);
    a_request_is_added(c, there, DataKey::TotalFeesCollected(asset), time);
    let d = c.extend_if(there, DataKey::TotalFeesCollected(asset), time);
    let there = s.asset_stats.contains_key(asset);
    a_request_is_added(d, there, DataKey::AssetStats(asset), time);
    let e = d.extend_if(there, DataKey::AssetStats(asset), time);
    let there = s.asset_fee_cap.contains_key(asset);
    a_request_is_added(e, there, DataKey::AssetFeeCap(asset), time);
    let f = e.extend_if(there, DataKey::AssetFeeCap(asset), time);
    let event = Event::PersistentTtlExtended { admin: s.admin(), asset, ttl: time };
    assert(f.actions.push(Action::Publish { event }) =~= published(f.actions, event));
}

/// Keeping the entries of a source alive asks the admin and changes no entry. It is
/// done for those entries that are there, for as long as is asked, but for no more
/// than the longest time to live.
pub proof fn what_keeping_a_source_alive_does(
    s: BridgeState,
    source: Address,
    asset: Address,
    ttl: u32,
)
    ensures
        ({
            let admin = s.instance.admin->0;
            let time = shorter(ttl, 3_110_400);
            let pair = SourceAsset { source, asset };
            let day = today(s, source, asset);
            extend_source_effect(s, source, asset, ttl) == (BridgeState {
                actions: published(
                    s.actions + seq![Action::RequireAuth { address: admin }] + kept_alive(
                        s.source_daily_limit.contains_key(pair),
                        DataKey::SourceDailyLimit(source, asset),
                        time,
                    ) + kept_alive(
                        s.daily_usage.contains_key(day),
                        DataKey::DailyUsage(source, asset, day.day),
                        time,
                    ) + kept_alive(
                        s.user_deposit.contains_key(pair),
                        DataKey::UserDeposit(source, asset),
                        time,
                    ) + kept_alive(
                        s.source_bridged_volume.contains_key(source),
                        DataKey::SourceBridgedVolume(source),
                        time,
                    ) + kept_alive(s.nonce.contains_key(source), DataKey::Nonce(source), time)
                        + kept_alive(
                        s.auth_nonce.contains_key(source),
                        DataKey::AuthNonce(source),
                        time,
                    ),
                    Event::SourcePersistentTtlExtended { admin, source, asset, ttl: time },
                ),
                ..s
            })
        }),
{
    let time = shorter(ttl, 3_110_400);
    let pair = SourceAsset { source, asset };
    let day = today(s, source, asset);
    let a = s.require_auth(s.admin());
    assert(a.actions =~= s.actions + seq![Action::RequireAuth { address: s.admin() }]);
    let there = s.source_daily_limit.contains_key(pair);
    a_request_is_added(a, there, DataKey::SourceDailyLimit(source, asset), time);
    let b = a.extend_if(there, DataKey::SourceDailyLimit(source, asset), time);
    let there = s.daily_usage.contains_key(day);
    a_request_is_added(b, there, DataKey::DailyUsage(source, asset, day.day), time);
    let c = b.extend_if(there, DataKey::DailyUsage(source, asset, day.day), time);
    let there = s.user_deposit.contains_key(pair);
    a_request_is_added(c, there, DataKey::UserDeposit(source, asset), time);
    let d = c.extend_if(there, DataKey::UserDeposit(source, asset), time);
    let there = s.source_bridged_volume.contains_key(source);
    a_request_is_added(d, there, DataKey::SourceBridgedVolume(source), time);
    let e = d.extend_if(there, DataKey::SourceBridgedVolume(source), time);
    let there = s.nonce.contains_key(source);
    a_request_is_added(e, there, DataKey::Nonce(source), time);
    let f = e.extend_if(there, DataKey::Nonce(source), time);
    let there = s.auth_nonce.contains_key(source);
    a_request_is_added(f, there, DataKey::AuthNonce(source), time);
    let g = f.extend_if(there, DataKey::AuthNonce(source), time);
    let event = Event::SourcePersistentTtlExtended { admin: s.admin(), source, asset, ttl: time };
    assert(g.actions.push(Action::Publish { event }) =~= published(g.actions, event));
}

/// Setting a maximum time to live asks the admin, and stores what is given, but no
/// more than the longest time to live. That of the instance entries is used at once.
pub proof fn what_setting_a_maximum_does(s: BridgeState, ttl: u32)
    ensures
        ({
            let admin = s.instance.admin->0;
            let time = shorter(ttl, 3_110_400);
            &&& set_max_instance_effect(s, ttl) == (BridgeState {
                instance: Instance { max_instance_ttl: Some(time), ..s.instance },
                actions: s.actions + seq![
                    Action::RequireAuth { address: admin },
                    Action::ExtendInstanceTtl { threshold: (time / 4) as u32, extend_to: time },
                ],
                ..s
            })
            &&& set_max_persistent_effect(s, ttl) == (BridgeState {
                instance: Instance { max_persistent_ttl: Some(time), ..s.instance },
                actions: asked(s, admin),
                ..s
            })
        }),
{
}

/// A withdrawal asks the fee collector, uses up its nonce, sends it the amount and
/// takes the amount off the accrued fees of the asset.
pub proof fn what_a_withdrawal_does(
    s: BridgeState,
    asset: Address,
    amount: i128,
    nonce: Option<u64>,
)
    requires
        amount > 0,
        in_range(totals_of(s, asset).accrued_fees - amount),
    ensures
        ({
            let t = withdraw_effect(s, asset, amount, nonce);
            let collector = s.instance.fee_collector->0;
            &&& totals_grow(
                s,
                t,
                asset,
                -amount,
                0,
                0,
                totals_of(s, asset).locked_timelock as int,
            )
            &&& t == (BridgeState {
                asset_stats: t.asset_stats,
                accrued_fees: t.accrued_fees,
                total_bridged: t.total_bridged,
                total_fees_collected: t.total_fees_collected,
                nonce: nonces_after(s, collector, nonce),
                actions: asked(s, collector) + seq![
                    Action::Transfer { asset, from: s.ledger.contract, to: collector, amount },
                    Action::Publish {
                        event: Event::FeesWithdrawn { fee_collector: collector, amount, asset },
                    },
                ],
                ..s
            })
        }),
{
}

/// A reclaim asks the admin, uses up its nonce, and sends the amount to where it is
/// to go. No total changes.
pub proof fn what_a_reclaim_does(
    s: BridgeState,
    asset: Address,
    amount: i128,
    destination: Address,
    nonce: Option<u64>,
)
    requires
        amount > 0,
    ensures
        ({
            let admin = s.instance.admin->0;
            reclaim_effect(s, asset, amount, destination, nonce) == (BridgeState {
                nonce: nonces_after(s, admin, nonce),
                actions: asked(s, admin) + seq![
                    Action::Transfer { asset, from: s.ledger.contract, to: destination, amount },
                    Action::Publish {
                        event: Event::TokensReclaimed { admin, asset, amount, destination },
                    },
                ],
                ..s
            })
        }),
{
}

/// An authorization entry asks the source and uses up its number; the next number is
/// above all that were used. A registration asks the source and binds the key to it.
pub proof fn what_binding_a_source_does(
    s: BridgeState,
    source: Address,
    number: u64,
    pubkey: Bytes32,
)
    ensures
        ({
            let next = if s.auth_nonce.contains_key(source) {
                s.auth_nonce[source]
            } else {
                0
            };
            &&& auth_entry_effect(s, source, number) == (BridgeState {
                used_auth_nonce: s.used_auth_nonce.insert(
                    SourceNonce { source, nonce: number },
                    true,
                ),
                auth_nonce: if number < next {
                    s.auth_nonce
                } else {
                    s.auth_nonce.insert(source, (number + 1) as u64)
                },
                actions: published(asked(s, source), Event::AuthUsed { source, nonce: number }),
                ..s
            })
            &&& register_effect(s, source, pubkey) == (BridgeState {
                meta_signer: s.meta_signer.insert(source, pubkey),
                actions: published(
                    asked(s, source),
                    Event::MetaSignerRegistered { source, pubkey },
                ),
                ..s
            })
        }),
{
}

/// Setting the bridge up asks the new admin, uses up its nonce, and stores the roles
/// and the rate. It is neither paused nor restricted by that.
pub proof fn what_setting_up_does(
    s: BridgeState,
    admin: Address,
    fee_collector: Address,
    fee_bps: u32,
    nonce: Option<u64>,
)
    ensures
        initialize_effect(s, admin, fee_collector, fee_bps, nonce) == (BridgeState {
            instance: Instance {
                initialized: true,
                admin: Some(admin),
                fee_collector: Some(fee_collector),
                fee_bps: Some(fee_bps),
                config: Some(BridgeConfig { fee_bps, ..settings_of(s) }),
                bridge_config: Some(BridgeConfigData { admin, fee_collector, fee_bps }),
                ..s.instance
            },
            nonce: nonces_after(s, admin, nonce),
            actions: published(
                asked(s, admin),
                Event::Initialized { admin, fee_collector, fee_bps },
            ),
            ..s
        }),
{
}

/// A pause and its end ask the admin, use up its nonce, and change nothing but that.
pub proof fn what_pausing_does(s: BridgeState, nonce: Option<u64>)
    ensures
        ({
            let admin = s.instance.admin->0;
            let nonces = nonces_after(s, admin, nonce);
            &&& pause_effect(s, nonce) == (BridgeState {
                instance: Instance {
                    config: Some(BridgeConfig { paused: true, ..settings_of(s) }),
                    paused: Some(true),
                    ..s.instance
                },
                nonce: nonces,
                actions: published(asked(s, admin), Event::ContractPaused { admin }),
                ..s
            })
            &&& unpause_effect(s, nonce) == (BridgeState {
                instance: Instance {
                    config: Some(BridgeConfig { paused: false, ..settings_of(s) }),
                    paused: Some(false),
                    ..s.instance
                },
                nonce: nonces,
                actions: published(asked(s, admin), Event::ContractUnpaused { admin }),
                ..s
            })
        }),
{
}

/// Leaving the bridge asks the admin, pauses it and marks it as left for good, and
/// publishes where to. Where the entries are to be taken along, what is stored then
/// is published after that.
pub proof fn what_leaving_does(s: BridgeState, new_contract: Address, migrate_data: bool)
    ensures
        ({
            let admin = s.instance.admin->0;
            let t = migrate_effect(s, new_contract, migrate_data);
            let gone = BridgeState {
                instance: Instance {
                    config: Some(BridgeConfig { paused: true, ..settings_of(s) }),
                    paused: Some(true),
                    deactivated: true,
                    ..s.instance
                },
                actions: published(
                    asked(s, admin),
                    Event::EmergencyMigrated { admin, new_contract },
                ),
                ..s
            };
            &&& !migrate_data ==> t == gone
            &&& migrate_data ==> t == (BridgeState {
                actions: gone.actions + export(gone),
                ..gone
            })
        }),
{
    let gone = migrate_effect(s, new_contract, false);
    assert(gone.actions =~= published(
        asked(s, s.admin()),
        Event::EmergencyMigrated { admin: s.admin(), new_contract },
    ));
}

} // verus!
