//! Pointlock: the verified core of a capability-bound UI automation runner.

pub mod devicerail;
pub mod human;
pub mod ids;
pub mod ir;
pub mod json;
pub mod keyed;
pub mod kit;
pub mod order;
pub mod sets;
pub mod text;
pub mod text_laws;
pub mod told;
pub mod wire;
