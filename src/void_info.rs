use vstd::prelude::*;

verus! {

/// The `void` type: no size and no sign.
pub struct CVoidInfo {}

impl CVoidInfo {
    pub fn new() -> CVoidInfo {
        CVoidInfo {  }
    }

    pub fn get_signedness(&self) -> (r: bool)
        ensures
            !r,
    {
        false
    }

    pub fn get_size(&self) -> (r: usize)
        ensures
            r == 0,
    {
        0
    }
}

} // verus!
