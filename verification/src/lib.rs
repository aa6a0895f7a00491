//! The decision core of a package-documentation build orchestrator: resolving
//! a package's manifest fragment into a build plan, classifying and
//! bookkeeping one sandboxed build attempt, and the supervisory state machine
//! of the queue worker. Every function here carries a contract; the sandbox,
//! the persistence engine and the filesystem stay outside.

pub mod builder;
pub mod manifest;
pub mod metadata;
pub mod queue;
pub mod version;
