//! Core of a declaration-rewriting attribute: a function declaration together
//! with a small key/value configuration is turned into either an exported,
//! linkage-specified definition or an imported, bodyless foreign declaration.
//!
//! The pipeline is pure: validate the requested calling convention against a
//! fixed registry, parse the configuration, infer whether the declaration is
//! exported or imported, and synthesize the rewritten declaration.

pub mod abi;
pub mod config;
pub mod decl;
pub mod error;
pub mod mode;
pub mod synth;
