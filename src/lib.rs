//! Self-update of the binaries installed on a node: a check phase that stages newer
//! releases, and an activation phase that installs what was staged.
pub mod activator;
pub mod checker;
pub mod config;
pub mod laws;
pub mod migration;
pub mod pass;
pub mod stager;
pub mod state;
pub mod text;
