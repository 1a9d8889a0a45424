//! A marker for whether diagnostic output was requested.  Writing the output
//! is the surrounding binary's business; the resolution logic itself only
//! carries the flag along.

use vstd::prelude::*;

verus! {

/// Whether verbose diagnostics were requested.
pub struct Logger {
    pub verbose: bool,
}

impl Logger {
    /// A logger with the given verbosity.
    pub fn new(verbose: bool) -> (r: Logger)
        ensures
            r.verbose == verbose,
    {
        Logger { verbose }
    }
}

} // verus!
