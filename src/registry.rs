use vstd::prelude::*;
use crate::abi::{copy_bytes, AbiRecord, AbiState, AbiStore, CodeHash};
use crate::event::Event;
use crate::ids::{AccountId, NameHash};
use crate::table::{lookup, NameTable};

verus! {

/// The registry as a mathematical value: who owns each name, where each name
/// points, the identity that stands in for a missing entry, and the ABIs
/// registered.
pub struct PnsState {
    pub owners: Map<NameHash, AccountId>,
    pub addresses: Map<NameHash, AccountId>,
    pub default_address: AccountId,
    pub abis: AbiState,
}

impl PnsState {
    /// A name is registered once it has an owner entry.
    pub open spec fn is_registered(self, name: NameHash) -> bool {
        self.owners.contains_key(name)
    }

    /// The owner of `name`, or the default identity where it has none.
    pub open spec fn owner_of(self, name: NameHash) -> AccountId {
        if self.owners.contains_key(name) {
            self.owners[name]
        } else {
            self.default_address
        }
    }

    /// Where `name` points, or the default identity where no address is stored.
    pub open spec fn address_of(self, name: NameHash) -> AccountId {
        if self.addresses.contains_key(name) {
            self.addresses[name]
        } else {
            self.default_address
        }
    }

    /// `caller` may change the address or the owner of `name`.
    pub open spec fn may_change(self, name: NameHash, caller: AccountId) -> bool {
        self.owner_of(name) == caller
    }

    /// The state after `caller` asks to claim `name`: the first claim wins.
    pub open spec fn after_register(self, name: NameHash, caller: AccountId) -> PnsState {
        if self.is_registered(name) {
            self
        } else {
            PnsState { owners: self.owners.insert(name, caller), ..self }
        }
    }

    /// The state after `caller` asks to point `name` at `addr`.
    pub open spec fn after_set_address(
        self,
        name: NameHash,
        addr: AccountId,
        caller: AccountId,
    ) -> PnsState {
        if self.may_change(name, caller) {
            PnsState { addresses: self.addresses.insert(name, addr), ..self }
        } else {
            self
        }
    }

    /// The state after `caller` asks to hand `name` to `to`.
    pub open spec fn after_transfer(self, name: NameHash, to: AccountId, caller: AccountId) -> PnsState {
        if self.may_change(name, caller) {
            PnsState { owners: self.owners.insert(name, to), ..self }
        } else {
            self
        }
    }

    /// The state after `caller` asks to store `abi` for `name` and
    /// `code_hash`: refused where the name is registered.
    pub open spec fn after_register_abi(
        self,
        name: NameHash,
        code_hash: CodeHash,
        abi: Seq<u8>,
        caller: AccountId,
    ) -> PnsState {
        if self.is_registered(name) {
            self
        } else {
            PnsState { abis: self.abis.with_abi(caller, name, code_hash, abi), ..self }
        }
    }
}

/// A name registry. Names map to an owner and an address; the first caller
/// to register a name owns it, and only its owner may change its address or
/// transfer it. Every change appends one [`Event`] to a log that the registry
/// writes and never reads.
///
/// Missing entries read as the default identity (all zeros): a name without
/// an address resolves to it, and a name without an owner counts as owned by
/// it.
pub struct SimplePns {
    name_to_address: NameTable,
    name_to_owner: NameTable,
    default_address: AccountId,
    abis: AbiStore,
}

impl View for SimplePns {
    type V = PnsState;

    closed spec fn view(&self) -> PnsState {
        PnsState {
            owners: self.name_to_owner@,
            addresses: self.name_to_address@,
            default_address: self.default_address,
            abis: self.abis@,
        }
    }
}

impl SimplePns {
    /// Both tables are well formed.
    pub closed spec fn wf(&self) -> bool {
        self.name_to_address.wf() && self.name_to_owner.wf()
    }

    /// An empty registry whose default identity is all zeros.
    pub fn new() -> (r: SimplePns)
        ensures
            r.wf(),
            r@.owners == Map::<NameHash, AccountId>::empty(),
            r@.addresses == Map::<NameHash, AccountId>::empty(),
            r@.default_address.is_zero(),
            r@.abis == AbiState::empty(),
    {
        SimplePns {
            name_to_address: NameTable::new(),
            name_to_owner: NameTable::new(),
            default_address: AccountId::zero(),
            abis: AbiStore::new(),
        }
    }

    /// The identity returned for names without an address.
    pub fn default_address(&self) -> (r: AccountId)
        ensures
            r == self@.default_address,
    {
        self.default_address
    }

    /// Claims `name` for `caller`. Returns `false`, and changes nothing, where
    /// the name already has an owner; otherwise records `caller` as its owner,
    /// logs a `Register` event and returns `true`.
    pub fn register(&mut self, caller: AccountId, name: NameHash, events: &mut Vec<Event>) -> (r:
        bool)
        requires
            old(self).wf(),
        ensures
            final(self).wf(),
            r == !old(self)@.is_registered(name),
            final(self)@ == old(self)@.after_register(name, caller),
            final(events)@ == if r {
                old(events)@.push((Event::Register { name, from: caller }))
            } else {
                old(events)@
            },
    {
        if self.name_exists(&name) {
            return false;
        }
        self.name_to_owner.insert(name, caller);
        events.push(Event::Register { name, from: caller });
        true
    }

    /// Points `name` at `new_address` on behalf of `caller`. Succeeds only
    /// where `caller` is the name's owner (the default identity for a name
    /// without one); on success logs a `SetAddress` event with the address
    /// stored before, and returns `true`. Otherwise changes nothing.
    pub fn set_address(
        &mut self,
        caller: AccountId,
        name: NameHash,
        new_address: AccountId,
        events: &mut Vec<Event>,
    ) -> (r: bool)
        requires
            old(self).wf(),
        ensures
            final(self).wf(),
            r == old(self)@.may_change(name, caller),
            final(self)@ == old(self)@.after_set_address(name, new_address, caller),
            final(events)@ == if r {
                old(events)@.push(
                    (Event::SetAddress {
                        name,
                        from: caller,
                        old_address: lookup(old(self)@.addresses, name),
                        new_address,
                    }),
                )
            } else {
                old(events)@
            },
    {
        let owner = self.owner(&name);
        if caller != owner {
            return false;
        }
        let old_address = self.name_to_address.insert(name, new_address);
        events.push(Event::SetAddress { name, from: caller, old_address, new_address });
        true
    }

    /// Hands `name` to `to` on behalf of `caller`. Succeeds only where
    /// `caller` is the name's current owner (the default identity for a name
    /// without one); on success logs a `Transfer` event with the owner stored
    /// before, and returns `true`. Otherwise changes nothing.
    pub fn transfer(
        &mut self,
        caller: AccountId,
        name: NameHash,
        to: AccountId,
        events: &mut Vec<Event>,
    ) -> (r: bool)
        requires
            old(self).wf(),
        ensures
            final(self).wf(),
            r == old(self)@.may_change(name, caller),
            final(self)@ == old(self)@.after_transfer(name, to, caller),
            final(events)@ == if r {
                old(events)@.push(
                    (Event::Transfer {
                        name,
                        from: caller,
                        old_owner: lookup(old(self)@.owners, name),
                        new_owner: to,
                    }),
                )
            } else {
                old(events)@
            },
    {
        let owner = self.owner(&name);
        if caller != owner {
            return false;
        }
        let old_owner = self.name_to_owner.insert(name, to);
        events.push(Event::Transfer { name, from: caller, old_owner, new_owner: to });
        true
    }

    /// The address `name` points at, or the default identity where none is
    /// stored.
    pub fn get_address(&self, name: NameHash) -> (r: AccountId)
        requires
            self.wf(),
        ensures
            r == self@.address_of(name),
    {
        match self.name_to_address.get(&name) {
            Some(a) => a,
            None => self.default_address,
        }
    }

    /// Stores `abi` under `name` and under `code_hash`, and appends
    /// `code_hash` to the list of `caller`. Returns `false`, and changes
    /// nothing, where `name` is registered; otherwise logs a `RegisterAbi`
    /// event and returns `true`.
    pub fn register_abi(
        &mut self,
        caller: AccountId,
        name: NameHash,
        code_hash: CodeHash,
        abi: Vec<u8>,
        events: &mut Vec<Event>,
    ) -> (r: bool)
        requires
            old(self).wf(),
        ensures
            final(self).wf(),
            r == !old(self)@.is_registered(name),
            final(self)@ == old(self)@.after_register_abi(name, code_hash, abi@, caller),
            r ==> final(events)@.len() == old(events)@.len() + 1,
            r ==> final(events)@.drop_last() == old(events)@,
            r ==> final(events)@.last().is_abi_registration(caller, name, code_hash, abi@),
            !r ==> final(events)@ == old(events)@,
    {
        if self.name_exists(&name) {
            return false;
        }
        let logged = copy_bytes(&abi);
        self.abis.add(AbiRecord { from: caller, name, code_hash, abi });
        events.push(Event::RegisterAbi { from: caller, name, code_hash, abi: logged });
        proof {
            assert(events@.drop_last() =~= old(events)@);
        }
        true
    }

    /// The ABI stored under `name`, empty where there is none.
    pub fn get_abi_by_name(&self, name: NameHash) -> (r: Vec<u8>)
        ensures
            r@ == self@.abis.abi_of_name(name),
    {
        self.abis.abi_by_name(&name)
    }

    /// The ABI stored under `code_hash`, empty where there is none.
    pub fn get_abi_by_code_hash(&self, code_hash: CodeHash) -> (r: Vec<u8>)
        ensures
            r@ == self@.abis.abi_of_code_hash(code_hash),
    {
        self.abis.abi_by_code_hash(&code_hash)
    }

    /// The code hashes that `account` registered ABIs for, oldest first;
    /// empty where there are none.
    pub fn get_code_hash_list_by_account(&self, account: AccountId) -> (r: Vec<CodeHash>)
        ensures
            r@ == self@.abis.code_hashes_of(account),
    {
        self.abis.code_hashes_by_account(&account)
    }

    /// Whether `name` has been registered.
    pub fn is_name_exist(&self, name: NameHash) -> (r: bool)
        requires
            self.wf(),
        ensures
            r == self@.is_registered(name),
    {
        self.name_exists(&name)
    }

    fn name_exists(&self, name: &NameHash) -> (r: bool)
        requires
            self.wf(),
        ensures
            r == self@.is_registered(*name),
    {
        self.name_to_owner.contains_key(name)
    }

    /// The owner of `name`, or the default identity where it has none.
    fn owner(&self, name: &NameHash) -> (r: AccountId)
        requires
            self.wf(),
        ensures
            r == self@.owner_of(*name),
    {
        match self.name_to_owner.get(name) {
            Some(o) => o,
            None => self.default_address,
        }
    }
}

} // verus!
