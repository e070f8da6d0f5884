use lune_std_ffi::{cast, cast_candidates, CPrimitive, FfiError};

const CATALOG: [CPrimitive; 7] = [
    CPrimitive::Void,
    CPrimitive::Char,
    CPrimitive::Int,
    CPrimitive::Long,
    CPrimitive::LongLong,
    CPrimitive::Float,
    CPrimitive::Double,
];

#[test]
fn int_candidates_in_order() {
    assert_eq!(
        cast_candidates(CPrimitive::Int),
        vec![
            CPrimitive::Float,
            CPrimitive::Double,
            CPrimitive::Char,
            CPrimitive::Long,
            CPrimitive::Int,
            CPrimitive::LongLong,
        ]
    );
}

#[test]
fn cast_succeeds_exactly_on_candidates() {
    for from in CATALOG {
        let candidates = cast_candidates(from);
        for into in CATALOG {
            let r = cast(from, into);
            if candidates.contains(&into) {
                assert_eq!(r, Ok(into));
            } else {
                assert_eq!(r, Err(FfiError::CastFailed { from, into }));
            }
        }
    }
}

#[test]
fn int_to_void_fails() {
    assert_eq!(
        cast(CPrimitive::Int, CPrimitive::Void),
        Err(FfiError::CastFailed { from: CPrimitive::Int, into: CPrimitive::Void })
    );
    assert_eq!(cast(CPrimitive::Int, CPrimitive::Double), Ok(CPrimitive::Double));
    assert_eq!(
        cast(CPrimitive::Char, CPrimitive::Int),
        Err(FfiError::CastFailed { from: CPrimitive::Char, into: CPrimitive::Int })
    );
}
