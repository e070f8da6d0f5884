use vstd::prelude::*;

use crate::cast::CPrimitive;

verus! {

/// The failures that the engine reports to its caller.
#[derive(Debug, Clone, Copy, PartialEq, Eq, Structural)]
pub enum FfiError {
    /// A value's kind is not one that the conversion accepts.
    TypeMismatch,
    /// A string did not hold a number of the expected form.
    ParseError,
    /// An offset was asked for an index outside the type.
    IndexError,
    /// A call lacked the argument at this position.
    ArityError { index: usize },
    /// A memory handle's window is too small for the access.
    BoundaryError,
    /// The source type has no cast to the target type.
    CastFailed { from: CPrimitive, into: CPrimitive },
    /// An owner has no value under the asked role.
    AssociationMissing,
}

} // verus!
