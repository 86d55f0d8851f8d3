//! Core engine of a multi-repository dashboard: discovers Git repositories
//! under a root directory, classifies working-tree and index changes,
//! computes branch divergence, reads bounded commit history, and manages
//! the stash lifecycle. All reachable logic is verified; calls into the
//! version-control backend stand behind trusted wrappers.

pub mod error;
pub mod domain;
pub mod backend;
pub mod classify;
pub mod text;
pub mod repo;
pub mod stash;
pub mod logging;
pub mod credentials;
