//! Errors of the domain-crossing conversions.

use vstd::prelude::*;

verus! {

/// Why a whole-unit or constant conversion failed.  Any of these aborts the
/// conversion; no partial result is ever produced.
#[derive(Debug, Copy, Clone, PartialEq, Eq, Structural)]
pub enum ConvError {
    /// A name's bytes are not valid text where the destination
    /// representation requires text.
    NotUtf8,
    /// A keyset element or dict key has a shape that is not allowed in key
    /// position.
    InvalidArrayKey,
}

} // verus!
