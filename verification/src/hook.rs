//! The `but hook` subcommands: GitButler's workspace guards, hook status
//! diagnostics, and hook installation and removal.

pub mod types;
pub mod status;
pub mod guard;
pub mod install;
pub mod uninstall;
