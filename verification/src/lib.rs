//! Credential lifecycle and monthly batch-generation engine for a
//! music-streaming playlist service.
//!
//! The library keeps per-user access/refresh token pairs valid, derives the
//! deterministic playlist name and description for a batch run from the
//! invocation date, and orchestrates the per-user generation workflow,
//! tolerating and reporting per-user failures without aborting the batch.

pub mod batch;
pub mod clock;
pub mod config;
pub mod date;
pub mod manager;
pub mod naming;
pub mod profile;
pub mod store;
