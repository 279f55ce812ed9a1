use vstd::prelude::*;
use crate::abi::CodeHash;
use crate::ids::{AccountId, NameHash};
use crate::registry::PnsState;

verus! {

impl PnsState {
    /// Every name that has an address also has an owner.
    pub open spec fn addresses_owned(self) -> bool {
        forall|n: NameHash| #[trigger]
            self.addresses.contains_key(n) ==> self.owners.contains_key(n)
    }
}

/// Once a name has been claimed, a further claim of it, by the same caller or
/// by another, is refused and leaves owners and addresses as they were.
pub proof fn lemma_second_register_rejected(
    s: PnsState,
    name: NameHash,
    first: AccountId,
    second: AccountId,
)
    requires
        !s.is_registered(name),
    ensures
        s.after_register(name, first).is_registered(name),
        s.after_register(name, first).owner_of(name) == first,
        s.after_register(name, first).after_register(name, second) == s.after_register(
            name,
            first,
        ),
{
}

/// On a name owned by `owner`, a caller other than the owner cannot set the
/// address and leaves the state unchanged, while the owner can, and the name
/// then resolves to the new address.
pub proof fn lemma_only_owner_sets_address(
    s: PnsState,
    name: NameHash,
    owner: AccountId,
    other: AccountId,
    addr: AccountId,
)
    requires
        s.is_registered(name),
        s.owners[name] == owner,
        other != owner,
    ensures
        !s.may_change(name, other),
        s.after_set_address(name, addr, other) == s,
        s.may_change(name, owner),
        s.after_set_address(name, addr, owner).address_of(name) == addr,
        s.after_set_address(name, addr, owner).owners == s.owners,
{
}

/// After `from` has successfully transferred a name to a different account
/// `to`, only `to` may set its address or transfer it again.
pub proof fn lemma_transfer_moves_control(
    s: PnsState,
    name: NameHash,
    from: AccountId,
    to: AccountId,
)
    requires
        s.may_change(name, from),
        from != to,
    ensures
        !s.after_transfer(name, to, from).may_change(name, from),
        s.after_transfer(name, to, from).may_change(name, to),
{
}

/// A fresh registry has no registered name, and every name resolves to the
/// default identity.
pub proof fn lemma_fresh_reads_default(s: PnsState, name: NameHash)
    requires
        s.owners == Map::<NameHash, AccountId>::empty(),
        s.addresses == Map::<NameHash, AccountId>::empty(),
    ensures
        s.addresses_owned(),
        !s.is_registered(name),
        s.address_of(name) == s.default_address,
{
}

/// Every operation whose caller is not the default identity keeps each
/// addressed name owned.
pub proof fn lemma_addresses_owned_kept(
    s: PnsState,
    name: NameHash,
    value: AccountId,
    code_hash: CodeHash,
    abi: Seq<u8>,
    caller: AccountId,
)
    requires
        s.addresses_owned(),
        caller != s.default_address,
    ensures
        s.after_register(name, caller).addresses_owned(),
        s.after_set_address(name, value, caller).addresses_owned(),
        s.after_transfer(name, value, caller).addresses_owned(),
        s.after_register_abi(name, code_hash, abi, caller).addresses_owned(),
{
}

/// Where every addressed name is owned, a name that was never registered
/// reads as unregistered and resolves to the default identity.
pub proof fn lemma_unregistered_reads_default(s: PnsState, name: NameHash)
    requires
        s.addresses_owned(),
        !s.is_registered(name),
    ensures
        s.address_of(name) == s.default_address,
{
}

} // verus!
