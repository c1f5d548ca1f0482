//! The end of one request/response exchange over the configured socket.

use vstd::prelude::*;
use crate::error::PlatformError;

verus! {

/// The result of one exchange: `reply` is the datagram that arrived before
/// the deadline, or `None` when the deadline passed first. The reply is
/// handed on byte for byte; a missed deadline is a `Timeout`.
pub fn exchange_result(reply: Option<Vec<u8>>) -> (r: Result<Vec<u8>, PlatformError>)
    ensures
        reply matches Some(bytes) ==> r == Ok::<Vec<u8>, PlatformError>(bytes),
        reply is None ==> r == Err::<Vec<u8>, PlatformError>(PlatformError::Timeout),
{
    match reply {
        Some(bytes) => Ok(bytes),
        None => Err(PlatformError::Timeout),
    }
}

} // verus!
