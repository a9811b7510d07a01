//! The error taxonomy of the scenario harness.

use vstd::prelude::*;

verus! {

/// Everything that can go wrong while building or driving a scenario.
///
/// Construction-time problems (an unknown trusted-peer alias, a second
/// delegation clause for one wallet) abort the build immediately; runtime
/// problems are handed back to the caller as typed values and never
/// swallowed.
#[derive(Debug, Clone, PartialEq, Eq)]
pub enum ScenarioError {
    /// A node alias was referenced but never registered.
    NodeNotFound(String),
    /// A wallet alias was used before it was initialised.
    WalletNotFound(String),
    /// A scenario assertion did not hold; the message names the subject.
    AssertionFailed(String),
    /// A node's REST surface was unreachable or answered with a shape the
    /// parser does not accept.
    RestError(String),
    /// A temporary fixture or process stream could not be used.
    Io(String),
    /// Binary block data did not decode.
    BlockFormatError(String),
    /// A wallet cannot cover a requested value plus its fee.
    NotEnoughFunds(String),
}

} // verus!
