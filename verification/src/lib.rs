//! Naming and filling of date-ordered SQL migration files.
//!
//! A migration file is called `YYYYMMDDNN - <description>.sql`: the day it was
//! made, a two-digit sequence index within that day, and a phrase that says
//! what the migration does. This crate decides the next free index from the
//! files that exist, composes the name, and renders the starting content of
//! the file. Reading the directory tree and the clock, and writing the file,
//! are left to the caller.

pub mod args;
pub mod date;
pub mod digits;
pub mod error;
pub mod laws;
pub mod migration;
pub mod operation;
pub mod render;
pub mod root;
pub mod scan;
pub mod text;
