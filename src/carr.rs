use vstd::prelude::*;

use crate::error::FfiError;
use crate::text::{append, append_decimal, decimal_text};

verus! {

/// A fixed-length array type: `length` contiguous elements of
/// `field_size` bytes each, with no padding between them.
pub struct CArr {
    length: usize,
    field_size: usize,
    size: usize,
}

impl CArr {
    #[verifier::type_invariant]
    spec fn shape_holds(&self) -> bool {
        self.size as int == self.field_size as int * self.length as int
    }

    /// The array's shape is consistent: its size is the element size times the length.
    pub open spec fn wf(&self) -> bool {
        self.spec_size() == self.spec_field_size() * self.spec_length()
    }

    pub closed spec fn spec_length(&self) -> nat {
        self.length as nat
    }

    pub closed spec fn spec_field_size(&self) -> nat {
        self.field_size as nat
    }

    pub closed spec fn spec_size(&self) -> nat {
        self.size as nat
    }

    /// The byte offset of element `index`, or `IndexError` outside `0 <= index < length`.
    pub open spec fn offset_spec(&self, index: int) -> Result<usize, FfiError> {
        if 0 <= index < self.spec_length() {
            Ok((index * self.spec_field_size()) as usize)
        } else {
            Err(FfiError::IndexError)
        }
    }

    /// Builds the array type of `length` elements whose ABI size is `field_size`.
    pub fn new(field_size: usize, length: usize) -> (r: CArr)
        requires
            field_size as int * length as int <= usize::MAX,
        ensures
            r.spec_field_size() == field_size,
            r.spec_length() == length,
            r.spec_size() == field_size as int * length as int,
            r.wf(),
    {
        CArr { length, field_size, size: field_size * length }
    }

    /// The byte offset of element `index`: `index * field_size` for
    /// `0 <= index < length`, else `IndexError`.
    pub fn offset(&self, index: isize) -> (r: Result<usize, FfiError>)
        ensures
            r == self.offset_spec(index as int),
    {
        proof {
            use_type_invariant(self);
        }
        if index >= 0 && (index as usize) < self.length {
            proof {
                let f = self.field_size as int;
                let k = index as int;
                assert(f * k <= f * self.length as int && f * k == k * f) by (nonlinear_arith)
                    requires 0 <= k < self.length, f >= 0;
            }
            Ok(self.field_size * (index as usize))
        } else {
            Err(FfiError::IndexError)
        }
    }

    /// The array's rendering for diagnostics, ` <inner> ; <length> `, where
    /// `inner` is the element type's rendering.
    pub fn stringify(&self, inner: &str) -> (r: String)
        ensures
            r@ == seq![' '] + inner@ + seq![' ', ';', ' '] + decimal_text(self.spec_length()) + seq![' '],
    {
        let mut r = String::new();
        append(&mut r, " ");
        append(&mut r, inner);
        append(&mut r, " ; ");
        append_decimal(&mut r, self.length);
        append(&mut r, " ");
        proof {
            reveal_strlit(" ");
            reveal_strlit(" ; ");
        }
        assert(r@ =~= seq![' '] + inner@ + seq![' ', ';', ' '] + decimal_text(self.spec_length()) + seq![' ']);
        r
    }

    pub fn length(&self) -> (r: usize)
        ensures
            r == self.spec_length(),
    {
        self.length
    }

    pub fn field_size(&self) -> (r: usize)
        ensures
            r == self.spec_field_size(),
    {
        self.field_size
    }

    pub fn size(&self) -> (r: usize)
        ensures
            r == self.spec_size(),
    {
        self.size
    }
}

/// Every element of a well-formed array lies inside it at `i * field_size`,
/// consecutive elements follow each other with no gap, and no index at or past
/// the length has an offset.
pub proof fn lemma_array_offsets(a: CArr)
    requires
        a.wf(),
    ensures
        forall|i: int|
            0 <= i < a.spec_length() ==> {
                &&& #[trigger] a.offset_spec(i) == Ok::<usize, FfiError>((i * a.spec_field_size()) as usize)
                &&& i * a.spec_field_size() + a.spec_field_size() <= a.spec_size()
                &&& i + 1 < a.spec_length() ==> a.offset_spec(i + 1) == Ok::<usize, FfiError>(
                    (i * a.spec_field_size() + a.spec_field_size()) as usize,
                )
            },
        forall|i: int| i >= a.spec_length() ==> #[trigger] a.offset_spec(i) == Err::<usize, FfiError>(FfiError::IndexError),
{
    assert forall|i: int| 0 <= i < a.spec_length() implies #[trigger] a.offset_spec(i) == Ok::<usize, FfiError>((i * a.spec_field_size()) as usize)
        && i * a.spec_field_size() + a.spec_field_size() <= a.spec_size()
        && (i + 1) * a.spec_field_size() == i * a.spec_field_size() + a.spec_field_size() by {
        let s = a.spec_field_size() as int;
        let n = a.spec_length() as int;
        assert(i * s + s <= s * n && (i + 1) * s == i * s + s) by (nonlinear_arith)
            requires 0 <= i < n, s >= 0;
    }
}

} // verus!
