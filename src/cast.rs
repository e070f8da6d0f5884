use vstd::prelude::*;

use crate::error::FfiError;

verus! {

/// The scalar C types of the catalog.
#[derive(Debug, Clone, Copy, PartialEq, Eq, Structural)]
pub enum CPrimitive {
    Void,
    Char,
    Int,
    Long,
    LongLong,
    Float,
    Double,
}

/// The targets that a value of type `from` can be cast to, in the order in
/// which they are tried. Of this catalog only `int` has cast targets.
pub open spec fn cast_candidates_spec(from: CPrimitive) -> Seq<CPrimitive> {
    match from {
        CPrimitive::Int => seq![
            CPrimitive::Float,
            CPrimitive::Double,
            CPrimitive::Char,
            CPrimitive::Long,
            CPrimitive::Int,
            CPrimitive::LongLong,
        ],
        _ => Seq::empty(),
    }
}

/// The outcome of a cast from `from` to `into`: the target itself when it
/// stands in the source's candidate list, else `CastFailed` naming both.
pub open spec fn cast_spec(from: CPrimitive, into: CPrimitive) -> Result<CPrimitive, FfiError> {
    if cast_candidates_spec(from).contains(into) {
        Ok(into)
    } else {
        Err(FfiError::CastFailed { from, into })
    }
}

pub fn cast_candidates(from: CPrimitive) -> (r: Vec<CPrimitive>)
    ensures
        r@ == cast_candidates_spec(from),
{
    match from {
        CPrimitive::Int => {
            let r = vec![
                CPrimitive::Float,
                CPrimitive::Double,
                CPrimitive::Char,
                CPrimitive::Long,
                CPrimitive::Int,
                CPrimitive::LongLong,
            ];
            assert(r@ == cast_candidates_spec(from));
            r
        },
        _ => Vec::new(),
    }
}

/// Picks the cast target for a value of type `from` asked to become `into`:
/// the candidates are tried in order and the first one that is `into` wins.
/// A target that is not a candidate fails, whatever the numbers involved.
pub fn cast(from: CPrimitive, into: CPrimitive) -> (r: Result<CPrimitive, FfiError>)
    ensures
        r == cast_spec(from, into),
{
    let candidates = cast_candidates(from);
    let mut i: usize = 0;
    while i < candidates.len()
        invariant
            candidates@ == cast_candidates_spec(from),
            0 <= i <= candidates@.len(),
            forall|j: int| 0 <= j < i ==> candidates@[j] != into,
        decreases candidates@.len() - i,
    {
        if candidates[i] == into {
            assert(candidates@.contains(into));
            return Ok(candidates[i]);
        }
        i = i + 1;
    }
    assert(!candidates@.contains(into));
    Err(FfiError::CastFailed { from, into })
}

} // verus!
