use vstd::prelude::*;

verus! {

/// How severe a line is, from the least severe to the most.
#[derive(Clone, Copy, PartialEq, Eq, PartialOrd, Ord, Hash, Debug, Structural)]
pub enum Severity {
    /// Very low priority, often extremely verbose.
    Trace,
    /// Lower priority information.
    Debug,
    /// Useful information.
    Info,
    /// Hazardous situations.
    Warn,
    /// Very serious errors.
    Error,
}

} // verus!
