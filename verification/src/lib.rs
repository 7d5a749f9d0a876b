//! Price conversion and block watching for Monero (XMR) and P2Pool.
//!
//! The library holds the decisions of two small tools: turning a price reply
//! into a quote, and watching a pool for a new block. Whatever reaches the
//! network, the clock or the desktop is left to the caller, which is told
//! what to do and reports what happened.

pub mod block;
pub mod decimal;
pub mod detector;
pub mod failure;
pub mod notification;
pub mod price;
pub mod watcher;
