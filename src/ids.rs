use vstd::prelude::*;

verus! {

/// Width in bytes of a name and of an account identity.
pub const ID_LEN: usize = 32;

/// A registered name, given as the 32-byte hash of its text.
#[derive(Clone, Copy, Debug, Eq)]
pub struct NameHash {
    pub bytes: [u8; 32],
}

/// An account identity: the 32 bytes that name an account.
#[derive(Clone, Copy, Debug, Eq)]
pub struct AccountId {
    pub bytes: [u8; 32],
}

/// Whether two 32-byte arrays hold the same bytes.
fn same_bytes(a: &[u8; 32], b: &[u8; 32]) -> (r: bool)
    ensures
        r == (*a == *b),
{
    let mut i: usize = 0;
    while i < ID_LEN
        invariant
            0 <= i <= ID_LEN,
            forall|j: int| 0 <= j < i ==> a[j] == b[j],
        decreases ID_LEN - i,
    {
        if a[i] != b[i] {
            return false;
        }
        i = i + 1;
    }
    proof {
        assert(*a =~= *b);
    }
    true
}

impl NameHash {
    /// The name whose 32 bytes are `bytes`.
    pub fn new(bytes: [u8; 32]) -> (r: NameHash)
        ensures
            r.bytes == bytes,
    {
        NameHash { bytes }
    }
}

impl AccountId {
    /// The account whose 32 bytes are `bytes`.
    pub fn new(bytes: [u8; 32]) -> (r: AccountId)
        ensures
            r.bytes == bytes,
    {
        AccountId { bytes }
    }

    /// The all-zero identity, which no real account holds.
    pub fn zero() -> (r: AccountId)
        ensures
            r.is_zero(),
    {
        AccountId { bytes: [0u8; 32] }
    }

    /// Every byte of the identity is zero.
    pub open spec fn is_zero(self) -> bool {
        forall|i: int| 0 <= i < 32 ==> self.bytes[i] == 0
    }
}

impl PartialEq for NameHash {
    fn eq(&self, other: &NameHash) -> (r: bool)
        ensures
            r == (*self == *other),
    {
        same_bytes(&self.bytes, &other.bytes)
    }
}

impl vstd::std_specs::cmp::PartialEqSpecImpl for NameHash {
    open spec fn obeys_eq_spec() -> bool {
        true
    }

    open spec fn eq_spec(&self, other: &NameHash) -> bool {
        *self == *other
    }
}

impl PartialEq for AccountId {
    fn eq(&self, other: &AccountId) -> (r: bool)
        ensures
            r == (*self == *other),
    {
        same_bytes(&self.bytes, &other.bytes)
    }
}

impl vstd::std_specs::cmp::PartialEqSpecImpl for AccountId {
    open spec fn obeys_eq_spec() -> bool {
        true
    }

    open spec fn eq_spec(&self, other: &AccountId) -> bool {
        *self == *other
    }
}

} // verus!
