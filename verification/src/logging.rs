use vstd::prelude::*;

verus! {

/// A logger that writes the messages to standard output.
pub struct StdoutLogger {}

impl StdoutLogger {
    pub fn new() -> (logger: StdoutLogger)
        ensures
            logger == (StdoutLogger {}),
    {
        StdoutLogger {}
    }
}

/// A logger that discards the messages.
pub struct NullLogger {}

impl NullLogger {
    pub fn new() -> (logger: NullLogger)
        ensures
            logger == (NullLogger {}),
    {
        NullLogger {}
    }
}

} // verus!
