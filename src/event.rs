use vstd::prelude::*;
use crate::abi::{same_bytes_vec, CodeHash};
use crate::ids::{AccountId, NameHash};

verus! {

/// A record of one change to the registry, written to the event log.
#[derive(Clone, Debug)]
pub enum Event {
    /// `from` claimed `name`.
    Register { name: NameHash, from: AccountId },
    /// `from` pointed `name` at `new_address`; `old_address` is the stored
    /// address before, `None` where none had been stored.
    SetAddress {
        name: NameHash,
        from: AccountId,
        old_address: Option<AccountId>,
        new_address: AccountId,
    },
    /// `from` handed `name` to `new_owner`; `old_owner` is the stored owner
    /// before, `None` where none had been stored.
    Transfer {
        name: NameHash,
        from: AccountId,
        old_owner: Option<AccountId>,
        new_owner: AccountId,
    },
    /// `from` stored `abi` for `name` and for `code_hash`.
    RegisterAbi { from: AccountId, name: NameHash, code_hash: CodeHash, abi: Vec<u8> },
}

impl Event {
    /// Two events are the same kind and carry the same values.
    pub open spec fn same_as(&self, other: &Event) -> bool {
        match (*self, *other) {
            (
                Event::RegisterAbi { from: f1, name: n1, code_hash: c1, abi: a1 },
                Event::RegisterAbi { from: f2, name: n2, code_hash: c2, abi: a2 },
            ) => f1 == f2 && n1 == n2 && c1 == c2 && a1@ == a2@,
            (Event::RegisterAbi { .. }, _) => false,
            (_, Event::RegisterAbi { .. }) => false,
            _ => *self == *other,
        }
    }

    /// The event is an ABI registration with exactly these values.
    pub open spec fn is_abi_registration(
        &self,
        from: AccountId,
        name: NameHash,
        code_hash: CodeHash,
        abi: Seq<u8>,
    ) -> bool {
        match *self {
            Event::RegisterAbi { from: f, name: n, code_hash: c, abi: a } => f == from && n == name
                && c == code_hash && a@ == abi,
            _ => false,
        }
    }
}

fn same_opt(a: &Option<AccountId>, b: &Option<AccountId>) -> (r: bool)
    ensures
        r == (*a == *b),
{
    match (a, b) {
        (Some(x), Some(y)) => x == y,
        (None, None) => true,
        _ => false,
    }
}

impl PartialEq for Event {
    fn eq(&self, other: &Event) -> (r: bool)
        ensures
            r == self.same_as(other),
    {
        match (self, other) {
            (Event::Register { name: n1, from: f1 }, Event::Register { name: n2, from: f2 }) => {
                n1 == n2 && f1 == f2
            },
            (
                Event::SetAddress { name: n1, from: f1, old_address: o1, new_address: a1 },
                Event::SetAddress { name: n2, from: f2, old_address: o2, new_address: a2 },
            ) => n1 == n2 && f1 == f2 && same_opt(o1, o2) && a1 == a2,
            (
                Event::Transfer { name: n1, from: f1, old_owner: o1, new_owner: w1 },
                Event::Transfer { name: n2, from: f2, old_owner: o2, new_owner: w2 },
            ) => n1 == n2 && f1 == f2 && same_opt(o1, o2) && w1 == w2,
            (
                Event::RegisterAbi { from: f1, name: n1, code_hash: c1, abi: a1 },
                Event::RegisterAbi { from: f2, name: n2, code_hash: c2, abi: a2 },
            ) => f1 == f2 && n1 == n2 && c1 == c2 && same_bytes_vec(a1, a2),
            _ => false,
        }
    }
}

impl vstd::std_specs::cmp::PartialEqSpecImpl for Event {
    open spec fn obeys_eq_spec() -> bool {
        true
    }

    open spec fn eq_spec(&self, other: &Event) -> bool {
        self.same_as(other)
    }
}

} // verus!
