use vstd::prelude::*;

use crate::error::FfiError;
use crate::text::{append, append_decimal, decimal_text};

verus! {

/// A layout is sound when there is one offset per member, offsets never
/// decrease, and each member ends within the total size.
pub open spec fn layout_is_sound(sizes: Seq<usize>, offsets: Seq<usize>, size: usize) -> bool {
    &&& offsets.len() == sizes.len()
    &&& forall|i: int| 0 < i < offsets.len() ==> #[trigger] offsets[i] >= offsets[i - 1]
    &&& forall|i: int| 0 <= i < offsets.len() ==> #[trigger] offsets[i] + sizes[i] <= size
}

/// The member names of a struct, each followed by `, `.
pub open spec fn member_list_text(names: Seq<Seq<char>>) -> Seq<char>
    decreases names.len(),
{
    if names.len() == 0 {
        Seq::empty()
    } else {
        member_list_text(names.drop_last()) + names.last() + seq![',', ' ']
    }
}

/// A struct type: the sizes of its members in order, the byte offset of
/// each member as the platform ABI places it, and the total size with any
/// trailing padding.
pub struct CStruct {
    sizes: Vec<usize>,
    offsets: Vec<usize>,
    size: usize,
}

impl CStruct {
    pub closed spec fn spec_sizes(&self) -> Seq<usize> {
        self.sizes@
    }

    pub closed spec fn spec_offsets(&self) -> Seq<usize> {
        self.offsets@
    }

    pub closed spec fn spec_size(&self) -> usize {
        self.size
    }

    pub open spec fn wf(&self) -> bool {
        layout_is_sound(self.spec_sizes(), self.spec_offsets(), self.spec_size())
    }

    /// The offset of member `index`, or `IndexError` past the last member.
    pub open spec fn offset_spec(&self, index: int) -> Result<usize, FfiError> {
        if 0 <= index < self.spec_offsets().len() {
            Ok(self.spec_offsets()[index])
        } else {
            Err(FfiError::IndexError)
        }
    }

    /// Builds the struct type from its member sizes and the layout that the
    /// ABI computed for them; `None` when that layout is not sound.
    pub fn new(sizes: Vec<usize>, offsets: Vec<usize>, size: usize) -> (r: Option<CStruct>)
        ensures
            r is Some <==> layout_is_sound(sizes@, offsets@, size),
            r matches Some(s) ==> {
                &&& s.spec_sizes() == sizes@
                &&& s.spec_offsets() == offsets@
                &&& s.spec_size() == size
                &&& s.wf()
            },
    {
        if offsets.len() != sizes.len() {
            return None;
        }
        let n = offsets.len();
        let mut i: usize = 0;
        while i < n
            invariant
                n == offsets@.len() == sizes@.len(),
                0 <= i <= n,
                forall|j: int| 0 < j < i ==> #[trigger] offsets@[j] >= offsets@[j - 1],
                forall|j: int| 0 <= j < i ==> #[trigger] offsets@[j] + sizes@[j] <= size,
            decreases n - i,
        {
            if i > 0 && offsets[i] < offsets[i - 1] {
                assert(!(offsets@[i as int] >= offsets@[i - 1]));
                return None;
            }
            if sizes[i] > size || offsets[i] > size - sizes[i] {
                assert(!(offsets@[i as int] + sizes@[i as int] <= size));
                return None;
            }
            i = i + 1;
        }
        Some(CStruct { sizes, offsets, size })
    }

    /// The struct's rendering for diagnostics: ` a, b, size = n ` from its
    /// member type names, or `unnamed` when the member list is not at hand.
    pub fn stringify(&self, member_names: Option<&Vec<String>>) -> (r: String)
        ensures
            r@ == (match member_names {
                Some(names) => seq![' '] + member_list_text(names@.map_values(|n: String| n@)) + seq![
                    's',
                    'i',
                    'z',
                    'e',
                    ' ',
                    '=',
                    ' ',
                ] + decimal_text(self.spec_size() as nat) + seq![' '],
                None => seq!['u', 'n', 'n', 'a', 'm', 'e', 'd'],
            }),
    {
        match member_names {
            None => {
                let r = String::from_str("unnamed");
                proof {
                    reveal_strlit("unnamed");
                }
                r
            },
            Some(names) => {
                let mut r = String::new();
                append(&mut r, " ");
                proof {
                    reveal_strlit(" ");
                    reveal_strlit(", ");
                    reveal_strlit("size = ");
                }
                let ghost start = r@;
                let mut i: usize = 0;
                while i < names.len()
                    invariant
                        0 <= i <= names@.len(),
                        start == seq![' '],
                        r@ == start + member_list_text(names@.subrange(0, i as int).map_values(|n: String| n@)),
                    decreases names@.len() - i,
                {
                    let ghost before = r@;
                    append(&mut r, names[i].as_str());
                    append(&mut r, ", ");
                    proof {
                        reveal_strlit(", ");
                        let prev = names@.subrange(0, i as int).map_values(|n: String| n@);
                        let next = names@.subrange(0, i + 1).map_values(|n: String| n@);
                        assert(next.drop_last() =~= prev);
                        assert(next.last() == names@[i as int]@);
                        assert(member_list_text(next) == member_list_text(prev) + names@[i as int]@ + seq![',', ' ']);
                        assert(r@ =~= before + names@[i as int]@ + seq![',', ' ']);
                        assert(r@ =~= start + member_list_text(next));
                    }
                    i = i + 1;
                }
                assert(names@.subrange(0, i as int) =~= names@);
                append(&mut r, "size = ");
                append_decimal(&mut r, self.size);
                append(&mut r, " ");
                assert(r@ =~= seq![' '] + member_list_text(names@.map_values(|n: String| n@)) + seq![
                    's',
                    'i',
                    'z',
                    'e',
                    ' ',
                    '=',
                    ' ',
                ] + decimal_text(self.spec_size() as nat) + seq![' ']);
                r
            },
        }
    }

    /// The number of members.
    pub fn len(&self) -> (r: usize)
        ensures
            r == self.spec_offsets().len(),
    {
        self.offsets.len()
    }

    /// The total size in bytes, trailing padding included.
    pub fn size(&self) -> (r: usize)
        ensures
            r == self.spec_size(),
    {
        self.size
    }

    /// The byte offset of member `index`; `IndexError` when there is no such member.
    pub fn offset(&self, index: usize) -> (r: Result<usize, FfiError>)
        ensures
            r == self.offset_spec(index as int),
    {
        if index < self.offsets.len() {
            Ok(self.offsets[index])
        } else {
            Err(FfiError::IndexError)
        }
    }
}

/// In a well-formed struct type every member lies within the total size and
/// member offsets never decrease with the index.
pub proof fn lemma_struct_members_fit(s: CStruct)
    requires
        s.wf(),
    ensures
        forall|i: int|
            #![trigger s.offset_spec(i)]
            0 <= i < s.spec_offsets().len() ==> s.offset_spec(i) is Ok && s.offset_spec(i)->Ok_0
                + s.spec_sizes()[i] <= s.spec_size(),
        forall|i: int, j: int|
            0 <= i <= j < s.spec_offsets().len() ==> #[trigger] s.spec_offsets()[i] <= #[trigger] s.spec_offsets()[j],
{
    assert forall|i: int, j: int|
        0 <= i <= j < s.spec_offsets().len() implies #[trigger] s.spec_offsets()[i] <= #[trigger] s.spec_offsets()[j] by {
        lemma_offsets_ordered(s.spec_sizes(), s.spec_offsets(), s.spec_size(), i, j);
    }
}

proof fn lemma_offsets_ordered(sizes: Seq<usize>, offsets: Seq<usize>, size: usize, i: int, j: int)
    requires
        layout_is_sound(sizes, offsets, size),
        0 <= i <= j < offsets.len(),
    ensures
        offsets[i] <= offsets[j],
    decreases j - i,
{
    if i < j {
        lemma_offsets_ordered(sizes, offsets, size, i, j - 1);
        assert(offsets[j] >= offsets[j - 1]);
    }
}

} // verus!
