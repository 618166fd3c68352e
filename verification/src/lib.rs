//! Look up variables of a vim-flavoured editor's scripting environment by
//! driving the editor in a non-interactive mode and decoding what it prints.
//!
//! The crate builds the exact command line a given editor variant expects,
//! classifies the spawned process's exit status and captured streams, and
//! decodes the captured text as JSON, applying the editor's "integer zero
//! means the variable is absent" convention.  Locating a startup
//! configuration file and choosing between the two editor variants are
//! covered as well.  Spawning the editor itself is left to the caller, who
//! hands the exit code and the captured streams back to this crate.

pub mod cmd;
pub mod decode;
pub mod error;
pub mod scope;
pub mod search;
pub mod text;
pub mod utils;
pub mod var;

pub use cmd::Cmd;
pub use error::VarError;
pub use scope::Scope;
pub use var::VimVar;
