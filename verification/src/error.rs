use vstd::prelude::*;

verus! {

/// Every failure the aggregator can surface. Each kind maps one-to-one to
/// total rejection of the request: there are no recoverable errors.
#[derive(Clone, Copy, Debug, PartialEq, Eq, Structural)]
pub enum AppError {
    /// The request bytes were malformed or carried an unknown tag.
    InvalidInstruction,
    /// A checked arithmetic step in the pricing engine or router failed.
    Overflow,
    /// A requested asset does not belong to the pool it was looked up in.
    CannotFindReserves,
    /// The two pools of a route do not share a bridging asset.
    UnmatchedPrimaryMints,
}

} // verus!
