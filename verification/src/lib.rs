//! A multi-signature wallet: a fixed set of owners proposes transfers, approves
//! them one owner at a time, and certifies a transfer once enough owners have
//! approved it. The wallet decides whether a transfer is authorized; it moves
//! nothing itself.
//!
//! - `records`: what is kept: the configuration, the transaction records, and
//!   the keys they are filed under.
//! - `rules`: the decisions of each call, on values that the caller has at hand.
//! - `model`: the whole of the wallet's state as a mathematical value, and
//!   each call as a step from one state to the next.
//! - `laws`: what holds of every state that calls can reach.
//! - `wallet`: `MultiSigWallet`, which keeps the state in memory and makes the
//!   steps of `model`.
//! - `address`: what is taken on trust of `soroban_sdk::Address`.
//! - `error`: the reasons for which a call is refused.

pub mod address;
pub mod error;
pub mod laws;
pub mod model;
pub mod records;
pub mod rules;
pub mod wallet;
