//! Who has to authorize what, and what a pause or a migration stops.
use vstd::prelude::*;

use crate::actions::{Action, Event};
use crate::batch::{
    batch_booked, batch_entries_effect, batch_tally, payout_transfers, sum, Tally,
};
use crate::books::credited;
use crate::bytes::{Bytes32, Signature};
use crate::calls::{
    history, next_ledger, refusal, step, succeeds, Call, DeferredCall, FundingCall, HoldingCall,
    LifecycleCall, LimitCall, ListCall, RateCall, RelayerCall, RoleCall, SwapCall, UpgradeCall,
    UpkeepCall,
};
use crate::commit_reveal::reveal_effect;
use crate::crosschain::{crosschain_effect, verifications};
use crate::errors::BridgeError;
use crate::export::export;
use crate::funding::{fund_effect, referral_effect, referral_share};
use crate::invariants::{
    every_history_is_sound, extend_persistent_keeps, extend_source_keeps, histories_only_grow,
    same_books,
};
use crate::lifecycle::migrate_effect;
use crate::meta_tx::meta_fund_effect;
use crate::roles::{
    accept_admin_effect, accept_admin_error, accept_fee_collector_effect,
    accept_fee_collector_error, propose_admin_effect, propose_fee_collector_effect,
};
use crate::state::{BridgeState, Instance};
use crate::ttl::{at_most, extend_persistent_effect, extend_source_effect, persistent_ttl};
use crate::types::{
    Address, CommitmentEntry, DataKey, Ledger, MetaFundParams, RelayerSig, SourceAsset,
    SourceNonce, MAX_ALLOWED_TTL,
};

verus! {

/// Whether a call is one that a pause disables.
pub open spec fn stopped_by_pause(call: Call) -> bool {
    match call {
        Call::Lifecycle(_) => false,
        Call::Upgrade(_) => false,
        Call::Upkeep(c) => c is SetMaxInstance || c is SetMaxPersistent,
        Call::Swap(c) => c is Begin,
        _ => true,
    }
}

/// Whether a call is one that a migration disables.
pub open spec fn stopped_by_migration(call: Call) -> bool {
    match call {
        Call::Lifecycle(c) => !(c is Initialize),
        Call::Upkeep(c) => c is SetMaxInstance || c is SetMaxPersistent,
        Call::Swap(c) => c is Begin,
        _ => true,
    }
}

/// Whether a call is refused while another one is in progress.
pub open spec fn stopped_by_a_call(call: Call) -> bool {
    match call {
        Call::Holding(c) => !(c is RegisterMetaSigner),
        Call::Swap(c) => c is Begin,
        _ => true,
    }
}

/// Whether a call needs a bridge that has been set up.
pub open spec fn needs_setup(call: Call) -> bool {
    match call {
        Call::Lifecycle(c) => !(c is Initialize),
        Call::Swap(c) => c is Begin,
        _ => true,
    }
}

/// Whether a bridge is set up and no call is in progress.
pub open spec fn ready(s: BridgeState) -> bool {
    s.instance.initialized && !s.instance.entered
}

/// What stops calls:
/// while a call is in progress, others are refused as re-entrant;
/// before the bridge is set up, all but the setting up are refused;
/// after a migration, all but the upkeep of what is stored is refused for good;
/// during a pause, what moves funds or changes settings is refused.
pub proof fn calls_are_stopped(s: BridgeState, call: Call)
    ensures
        s.instance.entered && stopped_by_a_call(call) ==> refusal(s, call) == Some(
            BridgeError::Reentrant,
        ),
        !s.instance.entered && !s.instance.initialized && needs_setup(call) ==> refusal(s, call)
            == Some(BridgeError::NotInitialized),
        ready(s) && s.instance.deactivated && stopped_by_migration(call) ==> refusal(s, call)
            == Some(BridgeError::ContractDeactivated),
        ready(s) && !s.instance.deactivated && s.config().paused && stopped_by_pause(call)
            ==> refusal(s, call) == Some(BridgeError::ContractPaused),
{
    match call {
        Call::Lifecycle(c) => {
            reveal(LifecycleCall::refusal);
        },
        Call::Funding(c) => {
            reveal(FundingCall::refusal);
        },
        Call::Deferred(c) => {
            reveal(DeferredCall::refusal);
        },
        Call::Swap(c) => {
            reveal(SwapCall::refusal);
        },
        Call::Holding(c) => {
            reveal(HoldingCall::refusal);
        },
        Call::Role(c) => {
            reveal(RoleCall::refusal);
        },
        Call::Rate(c) => {
            reveal(RateCall::refusal);
        },
        Call::Limit(c) => {
            reveal(LimitCall::refusal);
        },
        Call::List(c) => {
            reveal(ListCall::refusal);
        },
        Call::Relayer(c) => {
            reveal(RelayerCall::refusal);
        },
        Call::Upgrade(c) => {
            reveal(UpgradeCall::refusal);
        },
        Call::Upkeep(c) => {
            reveal(UpkeepCall::refusal);
        },
    }
}

/// A call that is refused changes nothing. A swap that fails in its second half
/// is over, and leaves nothing behind either.
pub proof fn refused_calls_change_nothing(s: BridgeState, call: Call)
    ensures
        refusal(s, call) is Some && !(call matches Call::Swap(SwapCall::Complete { .. })) ==> step(
            s,
            call,
        ) == s,
        refusal(s, call) is Some ==> step(s, call) == s || step(s, call) == s.with_entered(false),
{
}

/// While the bridge is paused, the calls that a pause disables change nothing.
pub proof fn a_pause_changes_nothing(s: BridgeState, call: Call)
    requires
        ready(s),
        s.config().paused,
        stopped_by_pause(call),
    ensures
        refusal(s, call) is Some,
        step(s, call) == s,
{
    calls_are_stopped(s, call);
    if s.instance.deactivated {
        assert(stopped_by_migration(call));
    }
}

/// A migration is final: from then on, in every history and every ledger, all calls
/// but those that keep entries alive are refused, as deactivated where no call is
/// in progress, and change nothing.
pub proof fn a_migration_is_final(
    start: Ledger,
    calls: Seq<(Ledger, Call)>,
    n: nat,
    ledger: Ledger,
    call: Call,
)
    requires
        n <= calls.len(),
        history(start, calls.take(n as int)).instance.deactivated,
    ensures
        ({
            let s = next_ledger(history(start, calls), ledger);
            &&& s.instance.deactivated
            &&& stopped_by_migration(call) ==> refusal(s, call) is Some && step(s, call) == s
            &&& stopped_by_migration(call) && !s.instance.entered ==> refusal(s, call) == Some(
                BridgeError::ContractDeactivated,
            )
            &&& call matches Call::Lifecycle(LifecycleCall::Initialize { .. }) ==> refusal(
                s,
                call,
            ) is Some && step(s, call) == s
        }),
{
    histories_only_grow(start, calls, n);
    every_history_is_sound(start, calls);
    let s = next_ledger(history(start, calls), ledger);
    calls_are_stopped(s, call);
    if let Call::Lifecycle(c) = call {
        reveal(LifecycleCall::refusal);
    }
    if let Call::Holding(c) = call {
        reveal(HoldingCall::refusal);
    }
}

/// The bridge is set up once: from then on, in every history, setting it up again
/// is refused, and changes neither the admin nor anything else.
pub proof fn setup_happens_once(
    start: Ledger,
    calls: Seq<(Ledger, Call)>,
    n: nat,
    admin: Address,
    fee_collector: Address,
    fee_bps: u32,
    nonce: Option<u64>,
)
    requires
        n <= calls.len(),
        history(start, calls.take(n as int)).instance.initialized,
    ensures
        ({
            let s = history(start, calls);
            let again = Call::Lifecycle(
                LifecycleCall::Initialize { admin, fee_collector, fee_bps, nonce },
            );
            &&& s.instance.initialized
            &&& refusal(s, again) is Some
            &&& !s.instance.entered ==> refusal(s, again) == Some(BridgeError::AlreadyInitialized)
            &&& step(s, again) == s
        }),
{
    histories_only_grow(start, calls, n);
    reveal(LifecycleCall::refusal);
}

/// Who has to authorize a call. Where there is nobody, signatures are verified
/// instead, or the call goes on with one that has been authorized.
pub open spec fn authorizer(s: BridgeState, call: Call) -> Option<Address> {
    match call {
        Call::Lifecycle(LifecycleCall::Initialize { admin, .. }) => Some(admin),
        Call::Funding(FundingCall::Fund { source, .. }) => Some(source),
        Call::Funding(FundingCall::FundWithReferral { source, .. }) => Some(source),
        Call::Funding(FundingCall::BatchFund { source, targets, .. }) => if targets.len() > 0 {
            Some(source)
        } else {
            None
        },
        Call::Funding(FundingCall::Reveal { source, .. }) => Some(source),
        Call::Funding(FundingCall::MetaFund { .. }) => None,
        Call::Deferred(DeferredCall::Lock { source, .. }) => Some(source),
        Call::Deferred(DeferredCall::Claim { id }) => Some(s.timelock[id].target),
        Call::Deferred(DeferredCall::Commit { source, .. }) => Some(source),
        Call::Deferred(DeferredCall::CrossChain { .. }) => None,
        Call::Swap(SwapCall::Begin { pending, .. }) => Some(pending.source),
        Call::Swap(SwapCall::Complete { .. }) => None,
        Call::Holding(HoldingCall::RegisterMetaSigner { source, .. }) => Some(source),
        Call::Holding(HoldingCall::VerifyAuthEntry { source, .. }) => Some(source),
        Call::Holding(HoldingCall::WithdrawFees { .. }) => Some(s.fee_collector()),
        Call::Role(RoleCall::AcceptAdmin) => s.instance.pending_admin,
        Call::Role(RoleCall::AcceptFeeCollector) => s.instance.pending_fee_collector,
        _ => Some(s.admin()),
    }
}

/// Whether the action at position `i` among those that were asked for is this one.
#[verifier::opaque]
pub open spec fn asked_at(t: BridgeState, i: int, action: Action) -> bool {
    0 <= i < t.actions.len() && t.actions[i] == action
}

/// Whether the first thing that was asked for since `s` is an authorization.
pub open spec fn asks_first(s: BridgeState, t: BridgeState, address: Address) -> bool {
    asked_at(t, s.actions.len() as int, Action::RequireAuth { address })
}

/// The request to keep the instance entries alive for as long as is set.
pub open spec fn alive(s: BridgeState) -> Action {
    Action::ExtendInstanceTtl {
        threshold: (s.max_instance_ttl() / 4) as u32,
        extend_to: s.max_instance_ttl(),
    }
}

/// Whether it has been asked since `s` that the instance entries be kept alive.
pub open spec fn stays_alive(s: BridgeState, t: BridgeState) -> bool {
    exists|i: int| i >= s.actions.len() && #[trigger] asked_at(t, i, alive(t))
}

/// What is asked for later does not come first.
proof fn later_is_not_first(s: BridgeState, t: BridgeState, address: Address, action: Action)
    requires
        asks_first(s, t, address),
    ensures
        asks_first(s, t.act(action), address),
{
    reveal(asked_at);
}

proof fn extending_is_not_first(
    s: BridgeState,
    t: BridgeState,
    address: Address,
    exists: bool,
    key: DataKey,
    ttl: u32,
)
    requires
        asks_first(s, t, address),
    ensures
        asks_first(s, t.extend_if(exists, key, ttl), address),
{
    reveal(asked_at);
}

proof fn extend_persistent_asks_first(s: BridgeState, asset: Address, ttl: u32)
    ensures
        asks_first(s, extend_persistent_effect(s, asset, ttl), s.admin()),
{
    let admin = s.admin();
    let actual = persistent_ttl(s, ttl);
    let t0 = s.require_auth(admin);
    assert(asks_first(s, t0, admin)) by {
        reveal(asked_at);
    }
    let e1 = s.accrued_fees.contains_key(asset);
    extending_is_not_first(s, t0, admin, e1, DataKey::AccruedFees(asset), actual);
    let t1 = t0.extend_if(e1, DataKey::AccruedFees(asset), actual);
    let e2 = s.total_bridged.contains_key(asset);
    extending_is_not_first(s, t1, admin, e2, DataKey::TotalBridged(asset), actual);
    let t2 = t1.extend_if(e2, DataKey::TotalBridged(asset), actual);
    let e3 = s.total_fees_collected.contains_key(asset);
    extending_is_not_first(s, t2, admin, e3, DataKey::TotalFeesCollected(asset), actual);
    let t3 = t2.extend_if(e3, DataKey::TotalFeesCollected(asset), actual);
    let e4 = s.asset_stats.contains_key(asset);
    extending_is_not_first(s, t3, admin, e4, DataKey::AssetStats(asset), actual);
    let t4 = t3.extend_if(e4, DataKey::AssetStats(asset), actual);
    let e5 = s.asset_fee_cap.contains_key(asset);
    extending_is_not_first(s, t4, admin, e5, DataKey::AssetFeeCap(asset), actual);
    let t5 = t4.extend_if(e5, DataKey::AssetFeeCap(asset), actual);
    let event = Event::PersistentTtlExtended { admin, asset, ttl: actual };
    later_is_not_first(s, t5, admin, Action::Publish { event });
}

proof fn extend_source_asks_first(s: BridgeState, source: Address, asset: Address, ttl: u32)
    ensures
        asks_first(s, extend_source_effect(s, source, asset, ttl), s.admin()),
{
    let admin = s.admin();
    let actual = at_most(ttl, MAX_ALLOWED_TTL);
    let pair = SourceAsset { source, asset };
    let usage = s.usage_key(source, asset);
    let t0 = s.require_auth(admin);
    assert(asks_first(s, t0, admin)) by {
        reveal(asked_at);
    }
    let e1 = s.source_daily_limit.contains_key(pair);
    let k1 = DataKey::SourceDailyLimit(source, asset);
    extending_is_not_first(s, t0, admin, e1, k1, actual);
    let t1 = t0.extend_if(e1, k1, actual);
    let e2 = s.daily_usage.contains_key(usage);
    let k2 = DataKey::DailyUsage(source, asset, usage.day);
    extending_is_not_first(s, t1, admin, e2, k2, actual);
    let t2 = t1.extend_if(e2, k2, actual);
    let e3 = s.user_deposit.contains_key(pair);
    let k3 = DataKey::UserDeposit(source, asset);
    extending_is_not_first(s, t2, admin, e3, k3, actual);
    let t3 = t2.extend_if(e3, k3, actual);
    let e4 = s.source_bridged_volume.contains_key(source);
    let k4 = DataKey::SourceBridgedVolume(source);
    extending_is_not_first(s, t3, admin, e4, k4, actual);
    let t4 = t3.extend_if(e4, k4, actual);
    let e5 = s.nonce.contains_key(source);
    let k5 = DataKey::Nonce(source);
    extending_is_not_first(s, t4, admin, e5, k5, actual);
    let t5 = t4.extend_if(e5, k5, actual);
    let e6 = s.auth_nonce.contains_key(source);
    let k6 = DataKey::AuthNonce(source);
    extending_is_not_first(s, t5, admin, e6, k6, actual);
    let t6 = t5.extend_if(e6, k6, actual);
    let event = Event::SourcePersistentTtlExtended { admin, source, asset, ttl: actual };
    later_is_not_first(s, t6, admin, Action::Publish { event });
}

/// Asking for more takes back nothing that has been asked for.
proof fn more_keep_what_was_asked(t: BridgeState, more: Seq<Action>, i: int, action: Action)
    requires
        asked_at(t, i, action),
    ensures
        asked_at(t.act_all(more), i, action),
{
    reveal(asked_at);
}

proof fn lifecycle_asks_first(s: BridgeState, c: LifecycleCall)
    requires
        c.succeeds(s),
    ensures
        asks_first(s, c.effect(s), authorizer(s, Call::Lifecycle(c))->0),
{
    reveal(LifecycleCall::effect);
    match c {
        LifecycleCall::EmergencyMigrate { new_contract, migrate_data } => {
            let left = s.admin_call(None).with_paused(true);
            let gone = left.with_instance(
                Instance { deactivated: true, ..left.instance },
            ).publish(Event::EmergencyMigrated { admin: s.admin(), new_contract });
            assert(asks_first(s, gone, s.admin())) by {
                reveal(asked_at);
            }
            more_keep_what_was_asked(
                gone,
                export(gone),
                s.actions.len() as int,
                Action::RequireAuth { address: s.admin() },
            );
        },
        _ => {
            reveal(asked_at);
        },
    }
}

proof fn upkeep_asks_first(s: BridgeState, c: UpkeepCall)
    ensures
        asks_first(s, c.effect(s), s.admin()),
{
    match c {
        UpkeepCall::ExtendPersistent { asset, ttl } => {
            extend_persistent_asks_first(s, asset, ttl);
            reveal(UpkeepCall::effect);
        },
        UpkeepCall::ExtendSource { source, asset, ttl } => {
            extend_source_asks_first(s, source, asset, ttl);
            reveal(UpkeepCall::effect);
        },
        _ => {
            reveal(UpkeepCall::effect);
            reveal(asked_at);
        },
    }
}

/// What has been asked for stays asked for in the further steps of a call.
proof fn steps_keep(
    t: BridgeState,
    i: int,
    x: Action,
    j: int,
    y: Action,
    a: Address,
    asset: Address,
    amount: i128,
    event: Event,
    more: Seq<Action>,
)
    requires
        asked_at(t, i, x),
        asked_at(t, j, y),
    ensures
        asked_at(t.keep_alive(), i, x),
        asked_at(t.keep_alive(), j, y),
        asked_at(t.pull(asset, a, amount), i, x),
        asked_at(t.pull(asset, a, amount), j, y),
        asked_at(t.pay_out(asset, a, amount), i, x),
        asked_at(t.pay_out(asset, a, amount), j, y),
        asked_at(t.reward(a), i, x),
        asked_at(t.reward(a), j, y),
        asked_at(t.publish(event), i, x),
        asked_at(t.publish(event), j, y),
        asked_at(t.act_all(more), i, x),
        asked_at(t.act_all(more), j, y),
        asked_at(t.keep_alive(), t.actions.len() as int, alive(t)),
{
    reveal(asked_at);
}

/// Asking for authorization before anything else.
proof fn asking_first(s: BridgeState, t: BridgeState, address: Address)
    requires
        t.actions == s.actions,
    ensures
        asks_first(s, t.require_auth(address), address),
        t.require_auth(address).actions.len() == s.actions.len() + 1,
{
    reveal(asked_at);
}

proof fn fund_asks_first(
    s: BridgeState,
    source: Address,
    target: Address,
    asset: Address,
    amount: i128,
    nonce: Option<u64>,
)
    ensures
        asks_first(s, fund_effect(s, source, target, asset, amount, nonce), source),
        stays_alive(s, fund_effect(s, source, target, asset, amount, nonce)),
{
    let i = s.actions.len() as int;
    let auth = Action::RequireAuth { address: source };
    let ka = alive(s);
    let c = s.charge(source, asset, amount)->Ok_0;
    let event = Event::CAddressFunded { asset, source, target, amount, fee: c.fee };
    let none = Seq::<Action>::empty();
    let s0 = s.book(source, asset, amount, c.fee, c).count_usage(source, asset, amount).consume(
        source,
        nonce,
    );
    asking_first(s, s0, source);
    let s1 = s0.require_auth(source);
    steps_keep(s1, i, auth, i, auth, source, asset, amount, event, none);
    let s2 = s1.keep_alive();
    let k = s1.actions.len() as int;
    steps_keep(s2, i, auth, k, ka, source, asset, amount, event, none);
    let s3 = s2.pull(asset, source, amount);
    steps_keep(s3, i, auth, k, ka, target, asset, c.net, event, none);
    let s4 = s3.pay_out(asset, target, c.net);
    steps_keep(s4, i, auth, k, ka, source, asset, amount, event, none);
    let s5 = s4.reward(source);
    steps_keep(s5, i, auth, k, ka, source, asset, amount, event, none);
    let done = fund_effect(s, source, target, asset, amount, nonce);
    assert(asked_at(done, k, alive(done)));
}

proof fn referral_asks_first(
    s: BridgeState,
    source: Address,
    target: Address,
    asset: Address,
    amount: i128,
    referrer: Option<Address>,
)
    ensures
        asks_first(s, referral_effect(s, source, target, asset, amount, referrer), source),
        stays_alive(s, referral_effect(s, source, target, asset, amount, referrer)),
{
    let i = s.actions.len() as int;
    let auth = Action::RequireAuth { address: source };
    let ka = alive(s);
    let c = s.charge(source, asset, amount)->Ok_0;
    let share = referral_share(s, c.fee, referrer);
    let event = Event::CAddressFunded { asset, source, target, amount, fee: c.fee };
    let none = Seq::<Action>::empty();
    let s0 = s.book(source, asset, amount, (c.fee - share) as i128, c).count_usage(
        source,
        asset,
        amount,
    );
    asking_first(s, s0, source);
    let s1 = s0.require_auth(source);
    steps_keep(s1, i, auth, i, auth, source, asset, amount, event, none);
    let s2 = s1.keep_alive();
    let k = s1.actions.len() as int;
    steps_keep(s2, i, auth, k, ka, source, asset, amount, event, none);
    let s3 = s2.pull(asset, source, amount);
    steps_keep(s3, i, auth, k, ka, target, asset, c.net, event, none);
    let s4 = s3.pay_out(asset, target, c.net);
    let s5 = match referrer {
        Some(to) => if share > 0 {
            s4.pay_out(asset, to, share).publish(
                Event::ReferralPaid { source, referrer: to, amount: share, asset },
            )
        } else {
            s4
        },
        None => s4,
    };
    if let Some(to) = referrer {
        let paid = Event::ReferralPaid { source, referrer: to, amount: share, asset };
        steps_keep(s4, i, auth, k, ka, to, asset, share, paid, none);
        steps_keep(s4.pay_out(asset, to, share), i, auth, k, ka, to, asset, share, paid, none);
    }
    steps_keep(s5, i, auth, k, ka, source, asset, amount, event, none);
    steps_keep(s5.reward(source), i, auth, k, ka, source, asset, amount, event, none);
    let after = referral_effect(s, source, target, asset, amount, referrer);
    assert(asked_at(after, k, alive(after)));
}

proof fn batch_asks_first(
    s: BridgeState,
    source: Address,
    asset: Address,
    nonce: Option<u64>,
    total: i128,
    t: Tally,
)
    ensures
        asks_first(s, batch_entries_effect(s, source, asset, nonce, total, t), source),
        stays_alive(s, batch_entries_effect(s, source, asset, nonce, total, t)),
{
    let i = s.actions.len() as int;
    let auth = Action::RequireAuth { address: source };
    let ka = alive(s);
    let done = Event::BatchCompleted {
        source,
        num_success: t.num_success as u32,
        num_failures: t.num_failures as u32,
    };
    let transfers = payout_transfers(asset, s.ledger.contract, t.payouts);
    let s0 = batch_booked(s, source, asset, s.effective_bps(source, asset), t).count_usage(
        source,
        asset,
        total,
    ).consume(source, nonce);
    asking_first(s, s0, source);
    let s1 = s0.require_auth(source);
    steps_keep(s1, i, auth, i, auth, source, asset, total, done, t.events);
    let s2 = s1.keep_alive();
    let k = s1.actions.len() as int;
    steps_keep(s2, i, auth, k, ka, source, asset, total, done, t.events);
    let s3 = s2.pull(asset, source, total);
    steps_keep(s3, i, auth, k, ka, source, asset, total, done, t.events);
    let s4 = s3.act_all(t.events);
    steps_keep(s4, i, auth, k, ka, source, asset, total, done, transfers);
    let s5 = s4.act_all(transfers);
    steps_keep(s5, i, auth, k, ka, source, asset, t.refund as i128, done, transfers);
    let s6 = s5.pay_out(asset, source, t.refund as i128);
    steps_keep(s6, i, auth, k, ka, source, asset, total, done, transfers);
    let s7 = if t.num_success > 0 {
        s6.reward(source)
    } else {
        s6
    };
    steps_keep(s7, i, auth, k, ka, source, asset, total, done, transfers);
    let after = batch_entries_effect(s, source, asset, nonce, total, t);
    assert(asked_at(after, k, alive(after)));
}

proof fn reveal_asks_first(
    s: BridgeState,
    id: u64,
    source: Address,
    target: Address,
    asset: Address,
    amount: i128,
)
    ensures
        asks_first(s, reveal_effect(s, id, source, target, asset, amount), source),
        stays_alive(s, reveal_effect(s, id, source, target, asset, amount)),
{
    let i = s.actions.len() as int;
    let auth = Action::RequireAuth { address: source };
    let ka = alive(s);
    let c = s.charge(source, asset, amount)->Ok_0;
    let event = Event::CommitRevealFunded {
        asset,
        source,
        target,
        commitment_id: id,
        amount,
        fee: c.fee,
    };
    let none = Seq::<Action>::empty();
    let s0 = BridgeState {
        commitment: s.commitment.insert(
            id,
            CommitmentEntry { revealed: true, ..s.commitment[id] },
        ),
        ..s
    }.with_volume(source, (s.volume_of(source) + amount) as i128).with_counters(
        asset,
        credited(s.counters_of(asset), c.fee as int, c.net as int, c.fee as int)->Ok_0,
    );
    asking_first(s, s0, source);
    let s1 = s0.require_auth(source);
    steps_keep(s1, i, auth, i, auth, source, asset, amount, event, none);
    let s2 = s1.pull(asset, source, amount);
    steps_keep(s2, i, auth, i, auth, target, asset, c.net, event, none);
    let s3 = s2.pay_out(asset, target, c.net);
    steps_keep(s3, i, auth, i, auth, source, asset, amount, event, none);
    let s4 = s3.keep_alive();
    let k = s3.actions.len() as int;
    steps_keep(s4, i, auth, k, ka, source, asset, amount, event, none);
    let s5 = s4.reward(source);
    steps_keep(s5, i, auth, k, ka, source, asset, amount, event, none);
    let after = reveal_effect(s, id, source, target, asset, amount);
    assert(asked_at(after, k, alive(after)));
}

proof fn funding_asks_first(s: BridgeState, c: FundingCall)
    requires
        authorizer(s, Call::Funding(c)) is Some,
    ensures
        asks_first(s, c.effect(s), authorizer(s, Call::Funding(c))->0),
{
    match c {
        FundingCall::Fund { source, target, asset, amount, nonce, .. } => {
            fund_asks_first(s, source, target, asset, amount, nonce);
            reveal(FundingCall::effect);
        },
        FundingCall::FundWithReferral { source, target, asset, amount, referrer } => {
            referral_asks_first(s, source, target, asset, amount, referrer);
            reveal(FundingCall::effect);
        },
        FundingCall::BatchFund { source, targets, amounts, asset, nonce, .. } => {
            batch_asks_first(
                s,
                source,
                asset,
                nonce,
                sum(amounts) as i128,
                batch_tally(s, source, targets, amounts, asset),
            );
            reveal(FundingCall::effect);
        },
        FundingCall::Reveal { id, source, target, asset, amount, .. } => {
            reveal_asks_first(s, id, source, target, asset, amount);
            reveal(FundingCall::effect);
        },
        FundingCall::MetaFund { .. } => {},
    }
}

proof fn role_asks_first(s: BridgeState, c: RoleCall)
    requires
        c.succeeds(s),
        authorizer(s, Call::Role(c)) is Some,
    ensures
        asks_first(s, c.effect(s), authorizer(s, Call::Role(c))->0),
{
    reveal(RoleCall::effect);
    reveal(asked_at);
}

proof fn rate_asks_first(s: BridgeState, c: RateCall)
    requires
        c.succeeds(s),
        authorizer(s, Call::Rate(c)) is Some,
    ensures
        asks_first(s, c.effect(s), authorizer(s, Call::Rate(c))->0),
{
    reveal(RateCall::effect);
    reveal(asked_at);
}

proof fn limit_asks_first(s: BridgeState, c: LimitCall)
    requires
        c.succeeds(s),
        authorizer(s, Call::Limit(c)) is Some,
    ensures
        asks_first(s, c.effect(s), authorizer(s, Call::Limit(c))->0),
{
    reveal(LimitCall::effect);
    reveal(asked_at);
}

proof fn list_asks_first(s: BridgeState, c: ListCall)
    requires
        c.succeeds(s),
        authorizer(s, Call::List(c)) is Some,
    ensures
        asks_first(s, c.effect(s), authorizer(s, Call::List(c))->0),
{
    reveal(ListCall::effect);
    reveal(asked_at);
}

proof fn relayer_asks_first(s: BridgeState, c: RelayerCall)
    requires
        c.succeeds(s),
        authorizer(s, Call::Relayer(c)) is Some,
    ensures
        asks_first(s, c.effect(s), authorizer(s, Call::Relayer(c))->0),
{
    reveal(RelayerCall::effect);
    reveal(asked_at);
}

proof fn upgrade_asks_first(s: BridgeState, c: UpgradeCall)
    requires
        c.succeeds(s),
        authorizer(s, Call::Upgrade(c)) is Some,
    ensures
        asks_first(s, c.effect(s), authorizer(s, Call::Upgrade(c))->0),
{
    reveal(UpgradeCall::effect);
    reveal(asked_at);
}

proof fn swap_asks_first(s: BridgeState, c: SwapCall)
    requires
        c.succeeds(s),
        authorizer(s, Call::Swap(c)) is Some,
    ensures
        asks_first(s, c.effect(s), authorizer(s, Call::Swap(c))->0),
{
    reveal(SwapCall::effect);
    reveal(asked_at);
}

proof fn holding_asks_first(s: BridgeState, c: HoldingCall)
    requires
        c.succeeds(s),
        authorizer(s, Call::Holding(c)) is Some,
    ensures
        asks_first(s, c.effect(s), authorizer(s, Call::Holding(c))->0),
{
    reveal(HoldingCall::effect);
    reveal(asked_at);
}

proof fn deferred_asks_first(s: BridgeState, c: DeferredCall)
    requires
        c.succeeds(s),
        authorizer(s, Call::Deferred(c)) is Some,
    ensures
        asks_first(s, c.effect(s), authorizer(s, Call::Deferred(c))->0),
{
    reveal(DeferredCall::effect);
    reveal(asked_at);
}

/// The first thing that a call asks of the host is that whoever has to authorize
/// it has done so. Nothing is done before, and without it nothing stays done.
pub proof fn calls_ask_for_authorization_first(s: BridgeState, call: Call)
    requires
        succeeds(s, call),
    ensures
        authorizer(s, call) matches Some(a) ==> asks_first(s, step(s, call), a),
{
    if authorizer(s, call) is Some {
        match call {
            Call::Lifecycle(c) => lifecycle_asks_first(s, c),
            Call::Funding(c) => funding_asks_first(s, c),
            Call::Deferred(c) => deferred_asks_first(s, c),
            Call::Swap(c) => swap_asks_first(s, c),
            Call::Holding(c) => holding_asks_first(s, c),
            Call::Role(c) => role_asks_first(s, c),
            Call::Rate(c) => rate_asks_first(s, c),
            Call::Limit(c) => limit_asks_first(s, c),
            Call::List(c) => list_asks_first(s, c),
            Call::Relayer(c) => relayer_asks_first(s, c),
            Call::Upgrade(c) => upgrade_asks_first(s, c),
            Call::Upkeep(c) => upkeep_asks_first(s, c),
        }
    }
}

/// Whether a call is one that asks for the instance entries to be kept alive: not
/// a batch without entries, the second half of a swap, or a call that only keeps
/// entries alive.
pub open spec fn keeps_instance(call: Call) -> bool {
    match call {
        Call::Funding(FundingCall::BatchFund { targets, .. }) => targets.len() > 0,
        Call::Swap(c) => c is Begin,
        Call::Upkeep(c) => c is SetMaxInstance || c is SetMaxPersistent,
        _ => true,
    }
}

proof fn meta_fund_stays_alive(
    s: BridgeState,
    p: MetaFundParams,
    pubkey: Bytes32,
    signature: Signature,
    payload: Bytes32,
)
    ensures
        stays_alive(s, meta_fund_effect(s, p, pubkey, signature, payload)),
{
    let c = s.charge(p.source, p.asset, p.amount)->Ok_0;
    let ka = alive(s);
    let event = Event::MetaFundExecuted {
        asset: p.asset,
        source: p.source,
        target: p.target,
        amount: p.amount,
        fee: c.fee,
        nonce: p.nonce,
    };
    let none = Seq::<Action>::empty();
    let booked = s.book(p.source, p.asset, p.amount, c.fee, c).count_usage(
        p.source,
        p.asset,
        p.amount,
    );
    let s0 = BridgeState {
        meta_tx_nonce: booked.meta_tx_nonce.insert(
            SourceNonce { source: p.source, nonce: p.nonce },
            true,
        ),
        ..booked
    };
    let s3 = s0.act(Action::VerifySignature { pubkey, message: payload, signature }).pull(
        p.asset,
        p.source,
        p.amount,
    ).pay_out(p.asset, p.target, c.net);
    let k = s3.actions.len() as int;
    let s4 = s3.keep_alive();
    assert(asked_at(s4, k, ka)) by {
        reveal(asked_at);
    }
    steps_keep(s4, k, ka, k, ka, p.source, p.asset, p.amount, event, none);
    let s5 = s4.reward(p.source);
    steps_keep(s5, k, ka, k, ka, p.source, p.asset, p.amount, event, none);
    let after = meta_fund_effect(s, p, pubkey, signature, payload);
    assert(asked_at(after, k, alive(after)));
}

proof fn crosschain_stays_alive(
    s: BridgeState,
    chain_id: u32,
    tx_hash: Bytes32,
    target: Address,
    asset: Address,
    amount: i128,
    sigs: Seq<RelayerSig>,
    nonce: Bytes32,
    payload: Bytes32,
)
    ensures
        stays_alive(
            s,
            crosschain_effect(
                s,
                chain_id,
                tx_hash,
                target,
                asset,
                amount,
                sigs,
                nonce,
                payload,
            ),
        ),
{
    let c = s.flat_charge(asset, amount)->Ok_0;
    let ka = alive(s);
    let event = Event::CrossChainFunded { target, chain_id, tx_hash, amount, fee: c.fee, asset };
    let none = Seq::<Action>::empty();
    let s2 = BridgeState {
        cross_chain_nonce: s.cross_chain_nonce.insert(nonce, true),
        ..s
    }.with_counters(
        asset,
        credited(s.counters_of(asset), c.fee as int, c.net as int, c.fee as int)->Ok_0,
    ).act_all(verifications(sigs, payload)).pay_out(asset, target, c.net);
    let k = s2.actions.len() as int;
    let s3 = s2.keep_alive();
    assert(asked_at(s3, k, ka)) by {
        reveal(asked_at);
    }
    steps_keep(s3, k, ka, k, ka, target, asset, amount, event, none);
    let s4 = s3.reward(target);
    steps_keep(s4, k, ka, k, ka, target, asset, amount, event, none);
    let after = crosschain_effect(
        s,
        chain_id,
        tx_hash,
        target,
        asset,
        amount,
        sigs,
        nonce,
        payload,
    );
    assert(asked_at(after, k, alive(after)));
}

proof fn funding_stays_alive(s: BridgeState, c: FundingCall)
    requires
        keeps_instance(Call::Funding(c)),
    ensures
        stays_alive(s, c.effect(s)),
{
    match c {
        FundingCall::Fund { source, target, asset, amount, nonce, .. } => {
            fund_asks_first(s, source, target, asset, amount, nonce);
            reveal(FundingCall::effect);
        },
        FundingCall::FundWithReferral { source, target, asset, amount, referrer } => {
            referral_asks_first(s, source, target, asset, amount, referrer);
            reveal(FundingCall::effect);
        },
        FundingCall::BatchFund { source, targets, amounts, asset, nonce, .. } => {
            batch_asks_first(
                s,
                source,
                asset,
                nonce,
                sum(amounts) as i128,
                batch_tally(s, source, targets, amounts, asset),
            );
            reveal(FundingCall::effect);
        },
        FundingCall::Reveal { id, source, target, asset, amount, .. } => {
            reveal_asks_first(s, id, source, target, asset, amount);
            reveal(FundingCall::effect);
        },
        FundingCall::MetaFund { params, pubkey, signature, payload } => {
            meta_fund_stays_alive(s, params, pubkey, signature, payload->Ok_0);
            reveal(FundingCall::effect);
        },
    }
}

proof fn deferred_stays_alive(s: BridgeState, c: DeferredCall)
    ensures
        stays_alive(s, c.effect(s)),
{
    match c {
        DeferredCall::CrossChain {
            chain_id,
            tx_hash,
            target,
            asset,
            amount,
            sigs,
            nonce,
            payload,
        } => {
            crosschain_stays_alive(
                s,
                chain_id,
                tx_hash,
                target,
                asset,
                amount,
                sigs,
                nonce,
                payload->Ok_0,
            );
            reveal(DeferredCall::effect);
        },
        _ => {
            reveal(DeferredCall::effect);
            reveal(asked_at);
            assert(asked_at(c.effect(s), s.actions.len() as int + 1, alive(c.effect(s))));
        },
    }
}

proof fn lifecycle_stays_alive(s: BridgeState, c: LifecycleCall)
    ensures
        stays_alive(s, c.effect(s)),
{
    let k = s.actions.len() as int + 1;
    match c {
        LifecycleCall::EmergencyMigrate { new_contract, migrate_data } => {
            let left = s.admin_call(None).with_paused(true);
            let gone = left.with_instance(
                Instance { deactivated: true, ..left.instance },
            ).publish(Event::EmergencyMigrated { admin: s.admin(), new_contract });
            assert(asked_at(gone, k, alive(gone))) by {
                reveal(asked_at);
            }
            more_keep_what_was_asked(gone, export(gone), k, alive(gone));
            reveal(LifecycleCall::effect);
            assert(asked_at(c.effect(s), k, alive(c.effect(s))));
        },
        _ => {
            reveal(LifecycleCall::effect);
            reveal(asked_at);
            assert(asked_at(c.effect(s), k, alive(c.effect(s))));
        },
    }
}

proof fn role_stays_alive(s: BridgeState, c: RoleCall)
    ensures
        stays_alive(s, c.effect(s)),
{
    reveal(RoleCall::effect);
    reveal(asked_at);
    assert(asked_at(c.effect(s), s.actions.len() as int + 1, alive(c.effect(s))));
}

proof fn rate_stays_alive(s: BridgeState, c: RateCall)
    ensures
        stays_alive(s, c.effect(s)),
{
    reveal(RateCall::effect);
    reveal(asked_at);
    assert(asked_at(c.effect(s), s.actions.len() as int + 1, alive(c.effect(s))));
}

proof fn limit_stays_alive(s: BridgeState, c: LimitCall)
    ensures
        stays_alive(s, c.effect(s)),
{
    reveal(LimitCall::effect);
    reveal(asked_at);
    assert(asked_at(c.effect(s), s.actions.len() as int + 1, alive(c.effect(s))));
}

proof fn list_stays_alive(s: BridgeState, c: ListCall)
    ensures
        stays_alive(s, c.effect(s)),
{
    reveal(ListCall::effect);
    reveal(asked_at);
    assert(asked_at(c.effect(s), s.actions.len() as int + 1, alive(c.effect(s))));
}

proof fn relayer_stays_alive(s: BridgeState, c: RelayerCall)
    ensures
        stays_alive(s, c.effect(s)),
{
    reveal(RelayerCall::effect);
    reveal(asked_at);
    assert(asked_at(c.effect(s), s.actions.len() as int + 1, alive(c.effect(s))));
}

proof fn upgrade_stays_alive(s: BridgeState, c: UpgradeCall)
    ensures
        stays_alive(s, c.effect(s)),
{
    reveal(UpgradeCall::effect);
    reveal(asked_at);
    assert(asked_at(c.effect(s), s.actions.len() as int + 1, alive(c.effect(s))));
}

proof fn swap_stays_alive(s: BridgeState, c: SwapCall)
    requires
        keeps_instance(Call::Swap(c)),
    ensures
        stays_alive(s, c.effect(s)),
{
    reveal(SwapCall::effect);
    reveal(asked_at);
    assert(asked_at(c.effect(s), s.actions.len() as int + 1, alive(c.effect(s))));
}

proof fn holding_stays_alive(s: BridgeState, c: HoldingCall)
    ensures
        stays_alive(s, c.effect(s)),
{
    reveal(HoldingCall::effect);
    reveal(asked_at);
    assert(asked_at(c.effect(s), s.actions.len() as int + 1, alive(c.effect(s))));
}

proof fn upkeep_stays_alive(s: BridgeState, c: UpkeepCall)
    requires
        keeps_instance(Call::Upkeep(c)),
    ensures
        stays_alive(s, c.effect(s)),
{
    reveal(UpkeepCall::effect);
    reveal(asked_at);
    assert(asked_at(c.effect(s), s.actions.len() as int + 1, alive(c.effect(s))));
}

/// Every call that changes the books asks for the instance entries to be kept
/// alive, a swap in its first half. So they do not expire as long as the bridge is
/// used.
pub proof fn calls_keep_the_instance_alive(s: BridgeState, call: Call)
    requires
        succeeds(s, call),
        keeps_instance(call),
    ensures
        stays_alive(s, step(s, call)),
{
    match call {
        Call::Lifecycle(c) => lifecycle_stays_alive(s, c),
        Call::Funding(c) => funding_stays_alive(s, c),
        Call::Deferred(c) => deferred_stays_alive(s, c),
        Call::Swap(c) => swap_stays_alive(s, c),
        Call::Holding(c) => holding_stays_alive(s, c),
        Call::Role(c) => role_stays_alive(s, c),
        Call::Rate(c) => rate_stays_alive(s, c),
        Call::Limit(c) => limit_stays_alive(s, c),
        Call::List(c) => list_stays_alive(s, c),
        Call::Relayer(c) => relayer_stays_alive(s, c),
        Call::Upgrade(c) => upgrade_stays_alive(s, c),
        Call::Upkeep(c) => upkeep_stays_alive(s, c),
    }
}

/// Whether a call is one by which the role of admin is handed on.
pub open spec fn hands_on_admin(call: Call) -> bool {
    call matches Call::Role(c) && (c is SetAdmin || c is AcceptAdmin)
}

/// Whether a call is one by which the role of fee collector is handed on.
pub open spec fn hands_on_fee_collector(call: Call) -> bool {
    call matches Call::Role(c) && (c is SetFeeCollector || c is AcceptFeeCollector)
}

/// Whether the roles are the same.
pub open spec fn same_roles(s: BridgeState, t: BridgeState) -> bool {
    s.instance.admin == t.instance.admin && s.instance.fee_collector == t.instance.fee_collector
}

proof fn migration_keeps_roles(s: BridgeState, new_contract: Address, migrate_data: bool)
    ensures
        same_roles(s, migrate_effect(s, new_contract, migrate_data)),
{
}

proof fn lifecycle_keeps_roles(s: BridgeState, c: LifecycleCall)
    requires
        s.instance.initialized,
        c.succeeds(s),
    ensures
        same_roles(s, c.effect(s)),
{
    reveal(LifecycleCall::refusal);
    if let LifecycleCall::EmergencyMigrate { new_contract, migrate_data } = c {
        migration_keeps_roles(s, new_contract, migrate_data);
    }
    reveal(LifecycleCall::effect);
}

proof fn upkeep_keeps_roles(s: BridgeState, c: UpkeepCall)
    ensures
        same_roles(s, c.effect(s)),
{
    match c {
        UpkeepCall::ExtendPersistent { asset, ttl } => {
            extend_persistent_keeps(s, asset, ttl);
            reveal(same_books);
            reveal(UpkeepCall::effect);
        },
        UpkeepCall::ExtendSource { source, asset, ttl } => {
            extend_source_keeps(s, source, asset, ttl);
            reveal(same_books);
            reveal(UpkeepCall::effect);
        },
        _ => {
            reveal(UpkeepCall::effect);
        },
    }
}

proof fn funding_keeps_roles(s: BridgeState, c: FundingCall)
    ensures
        same_roles(s, c.effect(s)),
{
    reveal(FundingCall::effect);
}

proof fn deferred_keeps_roles(s: BridgeState, c: DeferredCall)
    ensures
        same_roles(s, c.effect(s)),
{
    reveal(DeferredCall::effect);
}

proof fn swap_keeps_roles(s: BridgeState, c: SwapCall)
    ensures
        same_roles(s, c.effect(s)),
{
    reveal(SwapCall::effect);
}

proof fn holding_keeps_roles(s: BridgeState, c: HoldingCall)
    ensures
        same_roles(s, c.effect(s)),
{
    reveal(HoldingCall::effect);
}

proof fn rate_keeps_roles(s: BridgeState, c: RateCall)
    ensures
        same_roles(s, c.effect(s)),
{
    reveal(RateCall::effect);
}

proof fn limit_keeps_roles(s: BridgeState, c: LimitCall)
    ensures
        same_roles(s, c.effect(s)),
{
    reveal(LimitCall::effect);
}

proof fn list_keeps_roles(s: BridgeState, c: ListCall)
    ensures
        same_roles(s, c.effect(s)),
{
    reveal(ListCall::effect);
}

proof fn relayer_keeps_roles(s: BridgeState, c: RelayerCall)
    ensures
        same_roles(s, c.effect(s)),
{
    reveal(RelayerCall::effect);
}

proof fn upgrade_keeps_roles(s: BridgeState, c: UpgradeCall)
    ensures
        same_roles(s, c.effect(s)),
{
    reveal(UpgradeCall::effect);
}

/// Of an initialized bridge, the admin changes only where the admin appoints
/// another, or where the one that the admin has proposed accepts; and likewise
/// the fee collector.
pub proof fn roles_change_by_their_calls_only(s: BridgeState, call: Call)
    requires
        s.instance.initialized,
    ensures
        !hands_on_admin(call) ==> step(s, call).instance.admin == s.instance.admin,
        !hands_on_fee_collector(call) ==> step(s, call).instance.fee_collector
            == s.instance.fee_collector,
{
    if succeeds(s, call) {
        match call {
            Call::Lifecycle(c) => lifecycle_keeps_roles(s, c),
            Call::Funding(c) => funding_keeps_roles(s, c),
            Call::Deferred(c) => deferred_keeps_roles(s, c),
            Call::Swap(c) => swap_keeps_roles(s, c),
            Call::Holding(c) => holding_keeps_roles(s, c),
            Call::Role(c) => {
                reveal(RoleCall::effect);
            },
            Call::Rate(c) => rate_keeps_roles(s, c),
            Call::Limit(c) => limit_keeps_roles(s, c),
            Call::List(c) => list_keeps_roles(s, c),
            Call::Relayer(c) => relayer_keeps_roles(s, c),
            Call::Upgrade(c) => upgrade_keeps_roles(s, c),
            Call::Upkeep(c) => upkeep_keeps_roles(s, c),
        }
    }
}

/// The admin hands its role on in two steps: it proposes, and the proposed one
/// accepts. After that there is nothing left to accept.
pub proof fn admin_handoff(s: BridgeState, new_admin: Address, nonce: Option<u64>)
    requires
        s.wf(),
        s.admin_error(nonce) is None,
    ensures
        ({
            let proposed = propose_admin_effect(s, new_admin, nonce);
            let accepted = accept_admin_effect(proposed);
            &&& proposed.admin() == s.admin()
            &&& accept_admin_error(proposed) is None
            &&& accepted.admin() == new_admin
            &&& accepted.bridge_config().admin == new_admin
            &&& asks_first(proposed, accepted, new_admin)
            &&& accept_admin_error(accepted) == Some(BridgeError::Unauthorized)
        }),
{
    reveal(asked_at);
}

/// The role of fee collector is handed on in the same two steps.
pub proof fn fee_collector_handoff(s: BridgeState, new_collector: Address, nonce: Option<u64>)
    requires
        s.wf(),
        s.admin_error(nonce) is None,
    ensures
        ({
            let proposed = propose_fee_collector_effect(s, new_collector, nonce);
            let accepted = accept_fee_collector_effect(proposed);
            &&& proposed.fee_collector() == s.fee_collector()
            &&& accept_fee_collector_error(proposed) is None
            &&& accepted.fee_collector() == new_collector
            &&& accepted.bridge_config().fee_collector == new_collector
            &&& asks_first(proposed, accepted, new_collector)
            &&& accept_fee_collector_error(accepted) == Some(BridgeError::Unauthorized)
        }),
{
    reveal(asked_at);
}

} // verus!
