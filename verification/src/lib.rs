//! A trustless two-party escrow.
//!
//! A maker deposits one asset into a vault and names the amount of another
//! asset that fulfils the offer. Any taker may settle it in one step: pay the
//! maker, receive the vault. Or the maker cancels and takes the deposit back.
//! Nobody holds a key to the vault: its authority is an address derived from the
//! offer's own data, and only the seeds that re-derive it sign for it.
//!
//! - [`identity`], [`account`], [`instruction`]: the plain values everything
//!   else speaks of.
//! - [`authority`]: deriving an address from seeds, and presenting the seeds
//!   again.
//! - [`take`]: the accounts of a take, its preconditions and its three
//!   instructions. [`claim`]: the same pattern, for staking rewards.
//! - [`table`], [`ledger`]: wallets, holding accounts and records, with the
//!   primitives that move balances and close accounts.
//! - [`exchange`]: making, taking and refunding an offer against the ledger,
//!   each all or nothing.
//! - [`laws`]: what holds of every exchange.

pub mod account;
pub mod authority;
pub mod claim;
pub mod error;
pub mod exchange;
pub mod identity;
pub mod instruction;
pub mod laws;
pub mod ledger;
pub mod table;
pub mod take;
