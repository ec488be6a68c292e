//! Verified core of an artifact acquisition engine for a game launcher.
//!
//! The library resolves declared artifacts (asset objects, library jars,
//! Java runtime packages) to local paths and expected digests, decides when
//! a local copy is valid, drives fetch/verify/promote flows as explicit
//! state machines, dispatches archives to the right extraction format, and
//! aggregates per-item completion into an ordered progress stream.
//!
//! All I/O (filesystem, network) is performed by an unverified driver that
//! follows the actions these state machines request and feeds the observed
//! outcomes back as events.

pub mod assets;
pub mod batch;
pub mod error;
pub mod extract;
pub mod hash;
pub mod installers;
pub mod instances;
pub mod libraries;
pub mod rules;
pub mod runtime;
pub mod store;
pub mod strutil;
