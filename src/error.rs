//! The kinds of failure that the client reports.
use vstd::prelude::*;

verus! {

/// Why a call to the daemon failed.
#[derive(Clone, Copy, Debug, PartialEq, Eq, Structural)]
pub enum ClientError {
    /// The socket could not be reached, or broke during the exchange.
    Connection,
    /// The response was malformed, or the request could not be built.
    Protocol,
    /// The daemon answered with a status outside the 2xx range.
    HttpStatus(u16),
    /// The body was not valid UTF-8, or not JSON of the expected shape.
    Decode,
    /// The API version could not be established while connecting.
    VersionNegotiation,
}

} // verus!
