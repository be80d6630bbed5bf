//! The provider contract: what providers declare, how sessions behave, a
//! programmable provider for tests, and the suite that providers must pass.

pub mod error;
pub mod lockfile;
pub mod lockfile_laws;
pub mod manifest;
pub mod spi;
pub mod names;
pub mod fake;
pub mod fake_laws;
pub mod conformance;
pub mod conformance_laws;
pub mod form_laws;
pub mod judge_laws;
pub mod attestation_laws;
pub mod word_laws;
pub mod world_laws;
pub mod report_laws;
pub mod entry_laws;
