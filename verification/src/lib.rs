//! Configuration loading and config-defined `@` macros for a terminal code
//! review tool, with every rule stated as a contract and proved by Verus.

pub mod text;
pub mod toml_doc;
pub mod config;
pub mod paths;
pub mod app;
