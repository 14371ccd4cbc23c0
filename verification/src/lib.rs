//! One set of verbs for every Linux package manager: which backend to drive,
//! how each verb translates into that backend's own commands, and the settings
//! and decisions around running them.

pub mod backend;
pub mod commands;
pub mod config;
pub mod exec;
pub mod install_hint;
pub mod text;
