//! Verified models of the values that a thin binding layer to the native
//! desktop frameworks marshals: window-enumeration options and the records an
//! enumeration reports, pasteboard state, and the photo-library fetch and
//! request objects together with the results they deliver.
//!
//! The native frameworks themselves stay outside this crate. Each module
//! models the framework's state as plain values, states exactly what every
//! operation returns over that state, and proves it. The raw foreign calls,
//! which no verifier can see into, live with the embedding program.

pub mod cg;
pub mod ns;
pub mod ph;
