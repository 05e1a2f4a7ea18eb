//! Certificate-expiry monitoring core.
//!
//! The library validates the validity windows of DER-encoded certificate
//! chains against a minimum-remaining-days policy, converts per-domain
//! outcomes into status records, and aggregates a batch of status records
//! into a single pass/fail report.

pub mod cert;
pub mod error;
pub mod report;
