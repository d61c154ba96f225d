//! Vanity-suffixed program identifiers, an hourly rotating signing key bound to
//! them, and deterministic hash-to-curve signatures over swap orders.

pub mod address;
pub mod client;
pub mod error;
pub mod keys;
pub mod search;
pub mod signing;
