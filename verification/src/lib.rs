//! A bridge that funds contract addresses with tokens and keeps a fee.
//!
//! The bridge is a state machine. An operation decides from the books alone
//! whether it is refused, changes the books, and asks the host for what has to
//! happen outside of them: authorization, signatures, transfers, swaps, times to
//! live, events. For each operation a pair of functions says what it does:
//! `.._error` why it is refused, `.._effect` what the books are after it.
//!
//! - `types`, `errors`, `bytes`, `order`, `table`, `safe_math`: values and tools.
//! - `state`, `actions`, `books`: the books, and what is asked of the host.
//! - `host`, `hashing`: what comes from the Soroban SDK, and the hashes made of it.
//! - `fees`, `funding`, `batch`, `swap`, `timelock`, `commit_reveal`, `meta_tx`,
//!   `crosschain`: moving tokens.
//! - `lifecycle`, `export`, `roles`, `settings`, `lists`, `relayers`, `nonces`,
//!   `treasury`, `upgrade`, `ttl`: running the bridge.
//! - `calls`: any operation as a value, and histories of them.
//! - `readings`: what stands in the books, and what the queries say of it.
//! - `acceptance`, `deliveries`, `batches`, `changes`, `messages`, `essentials`: which
//!   calls are accepted, what each of them does, and what is signed for it.
//! - `invariants`, `flows`, `authority`, `replay`, `standing`, `limits`, `promises`:
//!   what holds of all operations and histories.
#[allow(unused_imports)]
use vstd::prelude::*;

pub mod acceptance;
pub mod actions;
pub mod authority;
pub mod batch;
pub mod batches;
pub mod books;
pub mod bytes;
pub mod calls;
pub mod changes;
pub mod commit_reveal;
pub mod crosschain;
pub mod deliveries;
pub mod errors;
pub mod essentials;
pub mod export;
pub mod fees;
pub mod flows;
pub mod funding;
pub mod hashing;
pub mod host;
pub mod invariants;
pub mod lifecycle;
pub mod limits;
pub mod lists;
pub mod messages;
pub mod meta_tx;
pub mod nonces;
pub mod order;
pub mod promises;
pub mod readings;
pub mod relayers;
pub mod replay;
pub mod roles;
pub mod safe_math;
pub mod settings;
pub mod standing;
pub mod state;
pub mod swap;
pub mod table;
pub mod timelock;
pub mod treasury;
pub mod ttl;
pub mod types;
pub mod upgrade;

verus! {

} // verus!
