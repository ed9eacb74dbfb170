//! The decision logic of GitButler's `but hook` commands and commit API:
//! workspace guards, hook status diagnostics, hook installation reports, and
//! the transport types and oplog decisions of commit operations.

use vstd::prelude::*;

pub mod commit;
pub mod hook;
pub mod repo;
pub mod text;
