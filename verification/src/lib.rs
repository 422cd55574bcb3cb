//! Core logic of a media re-posting service: a deduplicating post store,
//! an ingestion policy keyed on perceptual image fingerprints, an
//! interval-driven publish scheduler with single/batch selection, and a
//! staging-queue drain discipline with a single-slot wake signal.
//!
//! Everything that decides or computes lives here and is verified; the
//! surrounding process (transports, timers, argument parsing) supplies
//! plain values and performs the remote calls.
//!
//! The store is an in-memory model with transactional contracts. Nothing
//! in this crate writes it to disk: a process that needs its state to
//! survive a restart must persist the store itself.

pub mod config;
pub mod models;
pub mod database;
pub mod hashing;
pub mod encoding;
pub mod ids;
pub mod ingest;
pub mod scheduler;
pub mod uploader;
pub mod submit;
