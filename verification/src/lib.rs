//! A single-seller, multi-buyer fixed-ratio exchange offer.
//!
//! One seller deposits a willingness to trade `sell_token` for `buy_token` at
//! a fixed integer price ratio; any number of buyers may each fill part of the
//! offer until the seller withdraws the remaining funds or changes the terms.
//!
//! The manager itself only decides: it validates requests, computes trade
//! amounts and answers with the balance transfers that the host environment
//! must perform. Durable storage, authorization checks and the actual token
//! movements are collaborators of the surrounding runtime.

pub mod arith;
pub mod laws;
pub mod manager;
pub mod types;
