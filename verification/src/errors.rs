//! The error kinds of the tuple reflection contract.
//!
//! Every failure is local, deterministic in the inputs, and returned to the
//! immediate caller; no operation panics and none drops a failure silently.

use vstd::prelude::*;

verus! {

/// The failure kinds that the contract operations signal.
#[derive(Clone, Copy, PartialEq, Eq, Structural, Debug)]
pub enum TupleError {
    /// An element access named a position at or beyond the arity.
    IndexOutOfRange,
    /// A position lookup named a type absent from the element types.
    TypeNotFound,
    /// An erased handle was required to carry a type other than its tag.
    ///
    /// The erasure layer itself reports a failed downcast by an absent
    /// result; this kind names the same condition where an operation reports
    /// it as an error value.
    DowncastFailed,
    /// Reassembly from erased handles was handed the wrong handle count, or
    /// some handle whose tag differs from the type at its position.
    DeconstructionFailed,
    /// A tuple was requested with an arity outside the supported range.
    UnsupportedArity,
}

} // verus!
