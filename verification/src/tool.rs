//! What running an external tool once came to, as plain values.

use vstd::prelude::*;

verus! {

/// The outcome of one invocation of an external tool whose standard output is
/// decoded into a `T`.
#[derive(Debug)]
pub enum ToolOutcome<T> {
    /// The process could not be started; the text says why.
    NotStarted(String),
    /// The process ran to its end. `success` tells whether it reported success
    /// on exit, `decoded` is its standard output, decoded, or the text of the
    /// decoding error.
    Exited { success: bool, decoded: Result<T, String> },
}

} // verus!
