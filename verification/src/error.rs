//! The two ways in which a request to the driver can be turned down.

use vstd::prelude::*;

verus! {

/// Why the driver did not carry out a request.
#[derive(Clone, Copy, Debug, PartialEq, Eq, Structural)]
pub enum Error {
    /// A frame is still being streamed, or the transfer hardware is still
    /// active. Nothing was changed; the caller may try again later.
    Busy,
    /// The transfer queue already holds as many records as it has room for.
    Overflow,
}

} // verus!
