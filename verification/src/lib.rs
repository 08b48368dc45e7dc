//! Decisions and accounting of an end-to-end run of the coretime revenue flow.
//!
//! A run drives a relay chain and its coretime parachain through the life of on-demand coretime
//! revenue: tokens are teleported, a region is bought and pooled, an on-demand order is placed,
//! the revenue is claimed, and on the way the total issuance of both chains is compared with what
//! all this should have left. Talking to the chains is left to the program around this crate; what
//! to do next, and what to make of each reply, is decided here.

pub mod accounts;
pub mod chain;
pub mod events;
pub mod issuance;
pub mod network;
pub mod scenario;
pub mod transaction;
