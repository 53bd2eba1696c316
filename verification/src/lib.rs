//! Core of a user-management tool that drives two independent account
//! stores: an LDAP directory and a Slurm cluster reached over SSH.
//!
//! The library holds the logic worth checking: the credential/config
//! resolver, the cross-backend operation orchestrator with its
//! partial-failure aggregation, and the single-in-flight task slot that an
//! interactive caller polls. Rendering, argument parsing and the wire
//! protocols stay outside; they hand the library plain values.

pub mod cli;
pub mod listing;
pub mod orchestrate;
pub mod resolve;
pub mod selector;
pub mod task_slot;
pub mod text;
