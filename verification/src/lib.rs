//! A Nix substituter proxy's core: the narinfo and nar file model, the
//! substituter availability state machine, and the selection of the best
//! substituter among parallel queries.
pub mod text;
pub mod domain;
pub mod application;
pub mod api;
pub mod cli;
pub mod actor;
pub mod cache_kv;
