//! Core logic of a desktop companion that supervises a long-running agent
//! process (the "bambooclaw" daemon) and fetches its binary over the network.
//!
//! Everything here is pure decision and accounting logic with verified
//! contracts: which process to spawn or terminate, how a download's progress
//! counter evolves, what an emergency flush must and must not touch. The
//! surrounding I/O — spawning processes, scanning the OS process table,
//! HTTP transfers, filesystem resets — lives outside the library and feeds
//! plain values (snapshots, chunk sizes, per-step results) into these
//! functions.

pub mod platform;
pub mod process;
pub mod command;
pub mod config;
pub mod download;
pub mod flush;
pub mod supervisor;
