//! A single-user runtime-version manager's core: it owns the layout of an
//! install root, validates commands against the set of installed versions,
//! and plans the add / switch / remove operations so that the thin shell
//! around it only performs filesystem and network actions that were decided
//! here.

pub mod coordinator;
pub mod errors;
pub mod model;
pub mod names;
pub mod plan;
pub mod strutil;
