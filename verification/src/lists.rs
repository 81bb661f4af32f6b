//! Who may receive funds, and which assets and pools may be used.
use vstd::prelude::*;
use vstd::set_lib::lemma_len_subset;

use crate::errors::BridgeError;
use crate::host::{
    address_of, flags, flags_get, flags_keys, flags_remove, flags_set, key_address, key_before,
    key_of, map_key,
};
use crate::order::{ascending, listing_is, listing_lists, listing_of, lists, strict};
use crate::state::{answer, verdict, BridgeState, Instance, OnboardingBridge};
use crate::types::{Address, BridgeConfig, MAX_BATCH_SIZE};

verus! {

/// The order in which a map of the host keeps its keys.
pub open spec fn map_order() -> spec_fn((u32, u128, u128), (u32, u128, u128)) -> bool {
    |a: (u32, u128, u128), b: (u32, u128, u128)| key_before(a, b)
}

/// The keys of a map of flags under which an address is listed.
pub open spec fn listed(m: Map<(u32, u128, u128), bool>) -> Set<(u32, u128, u128)> {
    Set::new(
        |k: (u32, u128, u128)| m.contains_key(k) && m[k] && key_of(address_of(k)) == k,
    )
}

/// The keys of a map of flags under which an address is listed, in ascending order.
pub open spec fn listing(m: Map<(u32, u128, u128), bool>) -> Seq<(u32, u128, u128)> {
    listing_of(map_order(), listed(m))
}

/// The order of a map of the host is an order.
pub proof fn map_order_is_strict()
    ensures
        strict(map_order()),
{
    let before = map_order();
    assert forall|a: (u32, u128, u128), b: (u32, u128, u128)|
        a == b || #[trigger] before(a, b) || before(b, a) by {
        assert(a == b <==> a.0 == b.0 && a.1 == b.1 && a.2 == b.2);
    }
}

/// The listing of a finite map holds the keys of the listed addresses.
pub proof fn listing_holds(m: Map<(u32, u128, u128), bool>)
    requires
        m.dom().finite(),
    ensures
        lists(map_order(), listed(m), listing(m)),
{
    map_order_is_strict();
    assert(listed(m).subset_of(m.dom()));
    lemma_len_subset(listed(m), m.dom());
    listing_lists(map_order(), listed(m));
}

/// The keys of the listed addresses, in ascending order.
pub(crate) fn listed_keys(m: &soroban_sdk::Map<(u32, u128, u128), bool>) -> (found: Vec<
    (u32, u128, u128),
>)
    ensures
        found@ == listing(flags(*m)),
        lists(map_order(), listed(flags(*m)), found@),
{
    let keys: Vec<(u32, u128, u128)> = flags_keys(m);
    let ghost before = map_order();
    let ghost members = listed(flags(*m));
    let mut found: Vec<(u32, u128, u128)> = Vec::new();
    let mut i: usize = 0;
    while i < keys.len()
        invariant
            i <= keys@.len(),
            before == map_order(),
            members == listed(flags(*m)),
            forall|x: int, y: int|
                0 <= x < y < keys@.len() ==> key_before(#[trigger] keys@[x], #[trigger] keys@[y]),
            ascending(before, found@),
            forall|q: int, j: int|
                0 <= q < found@.len() && i <= j < keys@.len() ==> key_before(
                    #[trigger] found@[q],
                    #[trigger] keys@[j],
                ),
            forall|q: int| 0 <= q < found@.len() ==> members.contains(#[trigger] found@[q]),
            forall|j: int|
                0 <= j < i && members.contains(#[trigger] keys@[j]) ==> found@.contains(keys@[j]),
        decreases keys@.len() - i,
    {
        let k: (u32, u128, u128) = keys[i];
        let on: bool = match flags_get(m, k) {
            Some(on) => on,
            None => false,
        };
        let ghost earlier = found@;
        if on && k.0 <= 1 {
            found.push(k);
            assert(members.contains(k));
            assert(found@[earlier.len() as int] == k);
        }
        assert forall|x: (u32, u128, u128)| earlier.contains(x) implies #[trigger] found@.contains(
            x,
        ) by {
            let q = choose|q: int| 0 <= q < earlier.len() && earlier[q] == x;
            assert(found@[q] == x);
        }
        i = i + 1;
    }
    proof {
        assert forall|k: (u32, u128, u128)| #[trigger] found@.contains(k) <==> members.contains(
            k,
        ) by {
            if members.contains(k) {
                assert(keys@.contains(k));
                let j = choose|j: int| 0 <= j < keys@.len() && keys@[j] == k;
                assert(found@.contains(keys@[j]));
            }
        }
        map_order_is_strict();
        listing_is(before, members, found@);
    }
    found
}

/// The smaller of two numbers.
pub open spec fn smaller(a: int, b: int) -> int {
    if a <= b {
        a
    } else {
        b
    }
}

/// A page of a list: what follows the first `offset` entries, up to `limit` of
/// them and never more than the maximum.
pub open spec fn page<T>(list: Seq<T>, offset: u32, limit: u32) -> Seq<T> {
    let start = smaller(offset as int, list.len() as int);
    let end = smaller(
        offset + smaller(limit as int, MAX_BATCH_SIZE as int),
        list.len() as int,
    );
    list.subrange(start, end)
}

/// The first `count` pages of a list, one after the other, with `size` entries to a
/// page.
pub open spec fn pages<T>(list: Seq<T>, size: u32, count: nat) -> Seq<T>
    decreases count,
{
    if count == 0 {
        Seq::empty()
    } else {
        pages(list, size, (count - 1) as nat) + page(list, ((count - 1) * size) as u32, size)
    }
}

/// The addresses that stand under a list of keys.
pub open spec fn addresses(keys: Seq<(u32, u128, u128)>) -> Seq<Address> {
    Seq::new(keys.len(), |i: int| address_of(keys[i]))
}

/// The books after an address has been blocked or unblocked.
pub open spec fn blocklist_effect(
    s: BridgeState,
    address: Address,
    blocked: bool,
    nonce: Option<u64>,
) -> BridgeState {
    let called = s.admin_call(nonce);
    BridgeState {
        blocked: if blocked {
            s.blocked.insert(address, true)
        } else {
            s.blocked.remove(address)
        },
        ..called
    }
}

/// The books after an address has been put on the allowlist or taken off.
pub open spec fn allowlist_effect(
    s: BridgeState,
    address: Address,
    allowed: bool,
    nonce: Option<u64>,
) -> BridgeState {
    let called = s.admin_call(nonce);
    BridgeState {
        allowlisted: if allowed {
            s.allowlisted.insert(address, true)
        } else {
            s.allowlisted.remove(address)
        },
        ..called
    }
}

/// The books after `set_allowlist_mode`.
pub open spec fn allowlist_mode_effect(
    s: BridgeState,
    enabled: bool,
    nonce: Option<u64>,
) -> BridgeState {
    let called = s.admin_call(nonce);
    called.with_instance(
        Instance {
            config: Some(BridgeConfig { allowlist_mode: enabled, ..s.config() }),
            allowlist_mode: Some(enabled),
            ..s.instance
        },
    )
}

/// The books after an asset has been whitelisted or taken off the whitelist.
pub open spec fn asset_list_effect(
    s: BridgeState,
    asset: Address,
    listed: bool,
    nonce: Option<u64>,
) -> BridgeState {
    let called = s.admin_call(nonce);
    BridgeState {
        asset_whitelist: if listed {
            s.asset_whitelist.insert(key_of(asset), true)
        } else {
            s.asset_whitelist.remove(key_of(asset))
        },
        ..called
    }
}

/// The books after a pool has been whitelisted or taken off the whitelist.
pub open spec fn pool_list_effect(
    s: BridgeState,
    pool: Address,
    listed: bool,
    nonce: Option<u64>,
) -> BridgeState {
    let called = s.admin_call(nonce);
    BridgeState {
        pool_whitelist: if listed {
            s.pool_whitelist.insert(key_of(pool), true)
        } else {
            s.pool_whitelist.remove(key_of(pool))
        },
        ..called
    }
}

impl OnboardingBridge {
    /// Blocks an address: it cannot be funded from now on.
    pub fn add_to_blocklist(&mut self, address: Address, nonce: Option<u64>) -> (r: Result<
        (),
        BridgeError,
    >)
        requires
            old(self)@.wf(),
            old(self)@.admin_error(nonce) is None ==> old(self)@.nonce_fits(
                old(self)@.admin(),
                nonce,
            ),
        ensures
            r == verdict(old(self)@.admin_error(nonce)),
            final(self)@ == (if r is Ok {
                blocklist_effect(old(self)@, address, true, nonce)
            } else {
                old(self)@
            }),
            final(self)@.wf(),
    {
        self.check_admin_call(nonce)?;
        self.admin_call(nonce);
        self.blocked.set(address, true);
        Ok(())
    }

    /// Unblocks an address.
    pub fn remove_from_blocklist(&mut self, address: Address, nonce: Option<u64>) -> (r: Result<
        (),
        BridgeError,
    >)
        requires
            old(self)@.wf(),
            old(self)@.admin_error(nonce) is None ==> old(self)@.nonce_fits(
                old(self)@.admin(),
                nonce,
            ),
        ensures
            r == verdict(old(self)@.admin_error(nonce)),
            final(self)@ == (if r is Ok {
                blocklist_effect(old(self)@, address, false, nonce)
            } else {
                old(self)@
            }),
            final(self)@.wf(),
    {
        self.check_admin_call(nonce)?;
        self.admin_call(nonce);
        self.blocked.remove(address);
        Ok(())
    }

    /// Puts an address on the allowlist, which counts in allowlist mode.
    pub fn add_to_allowlist(&mut self, address: Address, nonce: Option<u64>) -> (r: Result<
        (),
        BridgeError,
    >)
        requires
            old(self)@.wf(),
            old(self)@.admin_error(nonce) is None ==> old(self)@.nonce_fits(
                old(self)@.admin(),
                nonce,
            ),
        ensures
            r == verdict(old(self)@.admin_error(nonce)),
            final(self)@ == (if r is Ok {
                allowlist_effect(old(self)@, address, true, nonce)
            } else {
                old(self)@
            }),
            final(self)@.wf(),
    {
        self.check_admin_call(nonce)?;
        self.admin_call(nonce);
        self.allowlisted.set(address, true);
        Ok(())
    }

    /// Takes an address off the allowlist.
    pub fn remove_from_allowlist(&mut self, address: Address, nonce: Option<u64>) -> (r: Result<
        (),
        BridgeError,
    >)
        requires
            old(self)@.wf(),
            old(self)@.admin_error(nonce) is None ==> old(self)@.nonce_fits(
                old(self)@.admin(),
                nonce,
            ),
        ensures
            r == verdict(old(self)@.admin_error(nonce)),
            final(self)@ == (if r is Ok {
                allowlist_effect(old(self)@, address, false, nonce)
            } else {
                old(self)@
            }),
            final(self)@.wf(),
    {
        self.check_admin_call(nonce)?;
        self.admin_call(nonce);
        self.allowlisted.remove(address);
        Ok(())
    }

    /// Turns allowlist mode on or off. In this mode only allowlisted addresses can
    /// be funded.
    pub fn set_allowlist_mode(&mut self, enabled: bool, nonce: Option<u64>) -> (r: Result<
        (),
        BridgeError,
    >)
        requires
            old(self)@.wf(),
            old(self)@.admin_error(nonce) is None ==> old(self)@.nonce_fits(
                old(self)@.admin(),
                nonce,
            ),
        ensures
            r == verdict(old(self)@.admin_error(nonce)),
            final(self)@ == (if r is Ok {
                allowlist_mode_effect(old(self)@, enabled, nonce)
            } else {
                old(self)@
            }),
            final(self)@.wf(),
    {
        self.check_admin_call(nonce)?;
        self.admin_call(nonce);
        let config: BridgeConfig = self.read_config();
        self.instance.config = Some(BridgeConfig { allowlist_mode: enabled, ..config });
        self.instance.allowlist_mode = Some(enabled);
        Ok(())
    }

    /// Whether an address is blocked.
    pub fn query_is_blocked(&self, address: Address) -> (r: bool)
        ensures
            r == self@.is_blocked(address),
    {
        self.read_blocked(address)
    }

    /// Whether an address is on the allowlist.
    pub fn query_is_allowlisted(&self, address: Address) -> (r: bool)
        ensures
            r == self@.is_allowlisted(address),
    {
        self.read_allowlisted(address)
    }

    /// Whether allowlist mode is on.
    pub fn query_allowlist_mode(&self) -> (r: bool)
        ensures
            r == self@.config().allowlist_mode,
    {
        self.read_config().allowlist_mode
    }

    /// Whitelists an asset. Doing so twice changes nothing more.
    pub fn add_asset(&mut self, asset: Address, nonce: Option<u64>) -> (r: Result<(), BridgeError>)
        requires
            old(self)@.wf(),
            old(self)@.admin_error(nonce) is None ==> old(self)@.nonce_fits(
                old(self)@.admin(),
                nonce,
            ),
        ensures
            r == verdict(old(self)@.admin_error(nonce)),
            final(self)@ == (if r is Ok {
                asset_list_effect(old(self)@, asset, true, nonce)
            } else {
                old(self)@
            }),
            final(self)@.wf(),
    {
        self.check_admin_call(nonce)?;
        self.admin_call(nonce);
        flags_set(&mut self.asset_whitelist, map_key(asset), true);
        Ok(())
    }

    /// Takes an asset off the whitelist. Its totals are kept.
    pub fn remove_asset(&mut self, asset: Address, nonce: Option<u64>) -> (r: Result<
        (),
        BridgeError,
    >)
        requires
            old(self)@.wf(),
            old(self)@.admin_error(nonce) is None ==> old(self)@.nonce_fits(
                old(self)@.admin(),
                nonce,
            ),
        ensures
            r == verdict(old(self)@.admin_error(nonce)),
            final(self)@ == (if r is Ok {
                asset_list_effect(old(self)@, asset, false, nonce)
            } else {
                old(self)@
            }),
            final(self)@.wf(),
    {
        self.check_admin_call(nonce)?;
        self.admin_call(nonce);
        flags_remove(&mut self.asset_whitelist, map_key(asset));
        Ok(())
    }

    /// Whether an asset is whitelisted.
    pub fn query_is_asset_whitelisted(&self, asset: Address) -> (r: Result<bool, BridgeError>)
        ensures
            r == answer(self@.query_error(), self@.asset_is_listed(asset)),
    {
        self.check_initialized()?;
        Ok(self.read_asset_listed(asset))
    }

    /// A page of the whitelisted assets, in the order of the addresses.
    pub fn query_whitelisted_assets(&self, offset: u32, limit: u32) -> (r: Result<
        Vec<Address>,
        BridgeError,
    >)
        ensures
            r is Err <==> self@.query_error() is Some,
            r matches Err(e) ==> self@.query_error() == Some(e),
            r matches Ok(found) ==> found@ == page(
                addresses(listing(self@.asset_whitelist)),
                offset,
                limit,
            ),
            lists(
                map_order(),
                listed(self@.asset_whitelist),
                listing(self@.asset_whitelist),
            ),
    {
        let keys: Vec<(u32, u128, u128)> = listed_keys(&self.asset_whitelist);
        self.check_initialized()?;
        let most: u32 = if limit <= MAX_BATCH_SIZE {
            limit
        } else {
            MAX_BATCH_SIZE
        };
        let mut found: Vec<Address> = Vec::new();
        let mut i: usize = offset as usize;
        let ghost all = addresses(keys@);
        let ghost start = smaller(offset as int, keys@.len() as int);
        assert(found@ =~= all.subrange(start, start));
        while i < keys.len() && found.len() < most as usize
            invariant
                all == addresses(keys@),
                start == smaller(offset as int, keys@.len() as int),
                found@.len() <= most,
                i == offset + found@.len(),
                start + found@.len() <= keys@.len(),
                found@ == all.subrange(start, start + found@.len()),
                i > keys@.len() ==> found@.len() == 0,
            decreases keys@.len() - i,
        {
            found.push(key_address(keys[i]));
            i = i + 1;
            assert(found@ =~= all.subrange(start, start + found@.len()));
        }
        assert(found@ =~= page(all, offset, limit));
        Ok(found)
    }

    /// Whitelists a pool. Doing so twice changes nothing more.
    pub fn add_swap_pool(&mut self, pool: Address, nonce: Option<u64>) -> (r: Result<
        (),
        BridgeError,
    >)
        requires
            old(self)@.wf(),
            old(self)@.admin_error(nonce) is None ==> old(self)@.nonce_fits(
                old(self)@.admin(),
                nonce,
            ),
        ensures
            r == verdict(old(self)@.admin_error(nonce)),
            final(self)@ == (if r is Ok {
                pool_list_effect(old(self)@, pool, true, nonce)
            } else {
                old(self)@
            }),
            final(self)@.wf(),
    {
        self.check_admin_call(nonce)?;
        self.admin_call(nonce);
        flags_set(&mut self.pool_whitelist, map_key(pool), true);
        Ok(())
    }

    /// Takes a pool off the whitelist.
    pub fn remove_swap_pool(&mut self, pool: Address, nonce: Option<u64>) -> (r: Result<
        (),
        BridgeError,
    >)
        requires
            old(self)@.wf(),
            old(self)@.admin_error(nonce) is None ==> old(self)@.nonce_fits(
                old(self)@.admin(),
                nonce,
            ),
        ensures
            r == verdict(old(self)@.admin_error(nonce)),
            final(self)@ == (if r is Ok {
                pool_list_effect(old(self)@, pool, false, nonce)
            } else {
                old(self)@
            }),
            final(self)@.wf(),
    {
        self.check_admin_call(nonce)?;
        self.admin_call(nonce);
        flags_remove(&mut self.pool_whitelist, map_key(pool));
        Ok(())
    }

    /// Whether a pool is whitelisted.
    pub fn query_is_pool_whitelisted(&self, pool: Address) -> (r: Result<bool, BridgeError>)
        ensures
            r == answer(self@.query_error(), self@.pool_is_listed(pool)),
    {
        self.check_initialized()?;
        Ok(self.read_pool_listed(pool))
    }
}

} // verus!
