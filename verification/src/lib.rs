//! Sessions and their spans, kept in memory first and persisted on a
//! best-effort basis.

pub mod api;
pub mod clock;
pub mod contract;
pub mod estimate;
pub mod generate;
pub mod ident;
pub mod json;
pub mod laws;
pub mod registry;
pub mod service;
pub mod span;
pub mod stats;
pub mod store;
pub mod text;

pub use api::{
    wasm_clear_session, wasm_commit_contract, wasm_get_session_stats, wasm_get_spans,
    wasm_get_version, wasm_health_check, wasm_init_session, wasm_process_prompt,
};
