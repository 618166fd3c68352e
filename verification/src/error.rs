use vstd::prelude::*;

use crate::cmd::Cmd;

verus! {

/// Everything that can go wrong during one lookup.  Each failure is an
/// ordinary recoverable result handed back to the caller; nothing here is
/// fatal, retried, or silently suppressed.
#[derive(Clone, Debug, PartialEq, Eq)]
pub enum VarError {
    /// No supported editor binary could be started from the search path.
    NotFound,
    /// The vim-like variant was asked for without the startup configuration
    /// path it requires.
    InvalidInput,
    /// The spawned editor exited with an unexpected status.  Carries the
    /// numeric exit code (-1 when the process ended without one) and the
    /// trimmed captured error stream.
    ProcessFailure { code: i32, output: String },
    /// The editor exited successfully but its selected output stream held
    /// nothing but whitespace.
    EmptyResult { editor: Cmd },
    /// The captured text failed to parse as a JSON value; carries the
    /// offending text.
    MalformedOutput { text: String },
    /// The decoded value could not be converted into the shape the caller
    /// asked for.
    Conversion { detail: String },
}

} // verus!
