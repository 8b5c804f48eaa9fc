//! Betting engine for "provably fair" dice games.
//!
//! The crate covers the commit-reveal verification and simulation engine,
//! the bounded rolling history with its fixed-width feature encoding, the
//! bet-sizing strategies, the site adapters that normalise the wire formats
//! of the supported gambling sites, and the orchestrator state machine.
//! Network I/O and JSON handling live outside the library; the library works
//! on plain values and is verified.

pub mod config;
pub mod dataset;
pub mod fair;
pub mod hashing;
pub mod history;
pub mod orchestrator;
pub mod parse;
pub mod random;
pub mod sites;
pub mod strategies;
pub mod util;
