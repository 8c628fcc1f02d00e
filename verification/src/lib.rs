//! Bulk funding pipeline for ephemeral ledger accounts.
//!
//! The library derives a covering set of account identities, organizes fund
//! distribution into size-bounded waves under a fan-out limit of four
//! destinations per transaction, verifies settlement through balance checks
//! with an abort threshold, keeps a replay-protection reference fresh through
//! a background poller, and finally sweeps balances back to a collector.
//!
//! Every decision the pipeline takes is a verified function here; the
//! surrounding process performs the ledger calls and hands their results back.

pub mod batch;
pub mod defund;
pub mod derivation;
pub mod funding;
pub mod poller;
pub mod scheduler;
pub mod verification;
pub mod wave;
