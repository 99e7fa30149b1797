//! Staged orchestrator for building a C cross-compilation toolchain.
//!
//! The crate resolves a (build, host, target) architecture triple into a
//! canonical identity, computes the on-disk layout for one toolchain build,
//! keeps a persisted record of which bootstrap stages have completed, and
//! drives the five stages (binutils, a first compiler pass, kernel headers,
//! the C library, the final compiler pass) in their fixed dependency order.
//! All filesystem work and external build invocations are performed by the
//! caller, which runs the [`sequencer::Sequencer`] state machine by carrying
//! out each requested action and reporting the outcome back as an event.

pub mod app;
pub mod config;
pub mod errors;
pub mod layout;
pub mod sequencer;
pub mod stage;
pub mod state;
pub mod triple;
