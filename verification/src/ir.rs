//! The flow language: identifiers, vocabulary, steps, flows, hashes, run
//! paths and records.

pub mod assertion;
pub mod canonical;
pub mod canonical_laws;
pub mod digest_laws;
pub mod expr;
pub mod flow;
pub mod handler;
pub mod flow_form_laws;
pub mod part_form_laws;
pub mod run_form_laws;
pub mod log_form_laws;
pub mod grammar_laws;
pub mod hash;
pub mod hash_laws;
pub mod primitives;
pub mod record;
pub mod run_log;
pub mod run_path;
pub mod run_path_laws;
pub mod runtime;
pub mod schema_gen;
pub mod schema_laws;
pub mod selector;
pub mod source_map;
pub mod step;
pub mod vocab;
pub mod word_laws;
