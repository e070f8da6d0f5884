use vstd::prelude::*;

use crate::text::append;

verus! {

/// A pointer type. Its size is that of an address whatever it points to;
/// the pointee is kept in the association table for reflection only.
pub struct CPtr {}

impl CPtr {
    pub fn new() -> CPtr {
        CPtr {  }
    }

    /// The size of a pointer in bytes.
    pub fn size(&self) -> (r: usize)
        ensures
            r == core::mem::size_of::<usize>(),
    {
        core::mem::size_of::<usize>()
    }

    /// The pointer's rendering for diagnostics, ` <name(inner)> `, from the
    /// pointee's type name and its own rendering.
    pub fn stringify(inner_name: &str, inner: &str) -> (r: String)
        ensures
            r@ == seq![' ', '<'] + inner_name@ + seq!['('] + inner@ + seq![')', '>', ' '],
    {
        let mut r = String::new();
        append(&mut r, " <");
        append(&mut r, inner_name);
        append(&mut r, "(");
        append(&mut r, inner);
        append(&mut r, ")> ");
        proof {
            reveal_strlit(" <");
            reveal_strlit("(");
            reveal_strlit(")> ");
        }
        assert(r@ =~= seq![' ', '<'] + inner_name@ + seq!['('] + inner@ + seq![')', '>', ' ']);
        r
    }
}

} // verus!
