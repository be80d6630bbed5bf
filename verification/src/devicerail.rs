//! The provider that drives devices through a DeviceRail daemon: error
//! classification, transcription of daemon values, budgets, log scans, the
//! capability lockfile, and the decisions of a session.
//!
//! Talking to the daemon is left to the caller. Each operation of a session is
//! split into the decision before a request and the decision on its reply.

pub mod adoption_laws;
pub mod budget;
pub mod calendar;
pub mod convert;
pub mod decision_laws;
pub mod drift;
pub mod endpoint;
pub mod error_laws;
pub mod error_map;
pub mod lock;
pub mod lock_laws;
pub mod manifest;
pub mod opening_laws;
pub mod provider;
pub mod scan;
pub mod session;
pub mod session_laws;
pub mod timestamp_laws;
pub mod wire;
