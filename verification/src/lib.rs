//! A cycle-accurate model of a multi-cycle SHA-256 compression core.
//!
//! The core folds one 16-word block into the initial hash value, one round
//! per clock edge. [`kernel`] is the transition of a single edge; the module
//! `trace` states what the core has computed any number of edges after a
//! start.

pub mod machine;
pub mod padding;
pub mod schedule;
pub mod tables;
pub mod trace;
pub mod words;

pub use machine::{kernel, Sha256Core, Sha256Input, Sha256Output, Sha256State};
pub use padding::pad_message_to_block;
pub use trace::run_block;
