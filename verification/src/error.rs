//! The error of this library.

use vstd::prelude::*;

verus! {

/// Why a header value was refused.
#[derive(Clone, Copy, Debug, PartialEq, Eq, Structural)]
pub enum Error {
    /// The value of the header is malformed.
    Header,
}

} // verus!
