//! Error kinds reported by the library.
use vstd::prelude::*;

verus! {

/// Coarse error taxonomy: every operation reports one of these, none is
/// retried internally.
#[derive(Debug, Clone, Copy, PartialEq, Eq, Structural)]
pub enum ApiError {
    /// Malformed or contradictory parameters, an unsupported endpoint, a
    /// wrong parameter-set variant, or a transport-level failure.
    InvalidInput,
    /// A data-fetching operation was invoked on a disconnected client.
    NotConnected,
    /// A response body failed CSV structural decoding.
    InvalidData,
}

} // verus!
