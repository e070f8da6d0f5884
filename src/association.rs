use std::collections::HashMap;

use vstd::prelude::*;

use crate::error::FfiError;

verus! {

broadcast use vstd::std_specs::hash::group_hash_axioms;

/// The role under which an owner holds an associated value.
#[derive(Debug, Clone, Copy, PartialEq, Eq, Structural)]
pub enum Role {
    /// The element type of an array type.
    ArrayInner,
    /// The pointee type of a pointer type.
    PointerInner,
    /// The member list that a struct type was built from.
    StructInner,
}

/// A side table from (owner, role) to an associated value, all named by
/// handle ids. Each owner and role hold at most one value.
pub struct AssociationTable {
    array_inner: HashMap<u64, u64>,
    pointer_inner: HashMap<u64, u64>,
    struct_inner: HashMap<u64, u64>,
}

impl AssociationTable {
    closed spec fn role_map(&self, role: Role) -> Map<u64, u64> {
        match role {
            Role::ArrayInner => self.array_inner@,
            Role::PointerInner => self.pointer_inner@,
            Role::StructInner => self.struct_inner@,
        }
    }

    /// The value associated with `owner` under `role`, if any.
    pub closed spec fn lookup_spec(&self, owner: u64, role: Role) -> Option<u64> {
        if self.role_map(role).contains_key(owner) {
            Some(self.role_map(role)[owner])
        } else {
            None
        }
    }

    /// An empty table.
    pub fn new() -> (r: AssociationTable)
        ensures
            forall|o: u64, role: Role| #[trigger] r.lookup_spec(o, role) is None,
    {
        AssociationTable { array_inner: HashMap::new(), pointer_inner: HashMap::new(), struct_inner: HashMap::new() }
    }

    /// Records that `owner` holds `value` under `role`, replacing what it held
    /// there before; every other entry is left as it was.
    pub fn associate(&mut self, owner: u64, role: Role, value: u64)
        ensures
            final(self).lookup_spec(owner, role) == Some(value),
            forall|o: u64, q: Role|
                !(o == owner && q == role) ==> #[trigger] final(self).lookup_spec(o, q) == old(self).lookup_spec(o, q),
    {
        match role {
            Role::ArrayInner => {
                self.array_inner.insert(owner, value);
            },
            Role::PointerInner => {
                self.pointer_inner.insert(owner, value);
            },
            Role::StructInner => {
                self.struct_inner.insert(owner, value);
            },
        }
    }

    /// The value that `owner` holds under `role`; `AssociationMissing` when
    /// there is none.
    pub fn lookup(&self, owner: u64, role: Role) -> (r: Result<u64, FfiError>)
        ensures
            r == (match self.lookup_spec(owner, role) {
                Some(v) => Ok::<u64, FfiError>(v),
                None => Err(FfiError::AssociationMissing),
            }),
    {
        let found = match role {
            Role::ArrayInner => self.array_inner.get(&owner),
            Role::PointerInner => self.pointer_inner.get(&owner),
            Role::StructInner => self.struct_inner.get(&owner),
        };
        match found {
            Some(v) => Ok(*v),
            None => Err(FfiError::AssociationMissing),
        }
    }
}

} // verus!
