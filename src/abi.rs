use vstd::prelude::*;
use crate::ids::{AccountId, NameHash};

verus! {

/// The hash of a contract's code, in the same 32-byte form as a name.
pub type CodeHash = NameHash;

/// One ABI registration: who made it, for which name and code hash, and the
/// ABI bytes.
pub struct AbiRecord {
    pub from: AccountId,
    pub name: NameHash,
    pub code_hash: CodeHash,
    pub abi: Vec<u8>,
}

/// The ABI registry as a mathematical value: ABI bytes by name and by code
/// hash, and the code hashes each account registered, oldest first.
pub struct AbiState {
    pub by_name: Map<NameHash, Seq<u8>>,
    pub by_code_hash: Map<CodeHash, Seq<u8>>,
    pub code_hashes: Map<AccountId, Seq<CodeHash>>,
}

impl AbiState {
    /// No ABI registered.
    pub open spec fn empty() -> AbiState {
        AbiState { by_name: Map::empty(), by_code_hash: Map::empty(), code_hashes: Map::empty() }
    }

    /// The ABI stored under `name`, empty where there is none.
    pub open spec fn abi_of_name(self, name: NameHash) -> Seq<u8> {
        if self.by_name.contains_key(name) {
            self.by_name[name]
        } else {
            Seq::empty()
        }
    }

    /// The ABI stored under `code_hash`, empty where there is none.
    pub open spec fn abi_of_code_hash(self, code_hash: CodeHash) -> Seq<u8> {
        if self.by_code_hash.contains_key(code_hash) {
            self.by_code_hash[code_hash]
        } else {
            Seq::empty()
        }
    }

    /// The code hashes that `account` registered, empty where there are none.
    pub open spec fn code_hashes_of(self, account: AccountId) -> Seq<CodeHash> {
        if self.code_hashes.contains_key(account) {
            self.code_hashes[account]
        } else {
            Seq::empty()
        }
    }

    /// The state after `from` stores `abi` for `name` and `code_hash`.
    pub open spec fn with_abi(
        self,
        from: AccountId,
        name: NameHash,
        code_hash: CodeHash,
        abi: Seq<u8>,
    ) -> AbiState {
        AbiState {
            by_name: self.by_name.insert(name, abi),
            by_code_hash: self.by_code_hash.insert(code_hash, abi),
            code_hashes: self.code_hashes.insert(from, self.code_hashes_of(from).push(code_hash)),
        }
    }
}

/// The state that a list of registrations, applied in order, leaves.
pub open spec fn abi_state_of(records: Seq<AbiRecord>) -> AbiState
    decreases records.len(),
{
    if records.len() == 0 {
        AbiState::empty()
    } else {
        let r = records.last();
        abi_state_of(records.drop_last()).with_abi(r.from, r.name, r.code_hash, r.abi@)
    }
}

proof fn lemma_prefix_step(records: Seq<AbiRecord>, i: int)
    requires
        0 <= i < records.len(),
    ensures
        abi_state_of(records.take(i + 1)) == abi_state_of(records.take(i)).with_abi(
            records[i].from,
            records[i].name,
            records[i].code_hash,
            records[i].abi@,
        ),
{
    assert(records.take(i + 1).drop_last() =~= records.take(i));
}

/// A copy of `v`.
pub(crate) fn copy_bytes(v: &Vec<u8>) -> (r: Vec<u8>)
    ensures
        r@ == v@,
{
    let mut out: Vec<u8> = Vec::new();
    let mut i: usize = 0;
    while i < v.len()
        invariant
            0 <= i <= v@.len(),
            out@ == v@.take(i as int),
        decreases v@.len() - i,
    {
        out.push(v[i]);
        i = i + 1;
        proof {
            assert(out@ =~= v@.take(i as int));
        }
    }
    proof {
        assert(v@.take(v@.len() as int) =~= v@);
    }
    out
}

/// Whether two byte vectors hold the same bytes.
pub(crate) fn same_bytes_vec(a: &Vec<u8>, b: &Vec<u8>) -> (r: bool)
    ensures
        r == (a@ == b@),
{
    if a.len() != b.len() {
        return false;
    }
    let mut i: usize = 0;
    while i < a.len()
        invariant
            a@.len() == b@.len(),
            0 <= i <= a@.len(),
            forall|j: int| 0 <= j < i ==> a@[j] == b@[j],
        decreases a@.len() - i,
    {
        if a[i] != b[i] {
            return false;
        }
        i = i + 1;
    }
    proof {
        assert(a@ =~= b@);
    }
    true
}

/// ABI registrations, kept in the order they were made.
pub struct AbiStore {
    records: Vec<AbiRecord>,
}

impl View for AbiStore {
    type V = AbiState;

    closed spec fn view(&self) -> AbiState {
        abi_state_of(self.records@)
    }
}

impl AbiStore {
    /// A store with no registration.
    pub fn new() -> (r: AbiStore)
        ensures
            r@ == AbiState::empty(),
    {
        AbiStore { records: Vec::new() }
    }

    /// Records that `record.from` stored `record.abi` for its name and code hash.
    pub fn add(&mut self, record: AbiRecord)
        ensures
            final(self)@ == old(self)@.with_abi(
                record.from,
                record.name,
                record.code_hash,
                record.abi@,
            ),
    {
        let ghost before = self.records@;
        self.records.push(record);
        proof {
            assert(self.records@.drop_last() =~= before);
        }
    }

    /// Position of the latest registration for `name`, if any.
    fn latest_by_name(&self, name: &NameHash) -> (r: Option<usize>)
        ensures
            match r {
                Some(j) => j < self.records@.len() && self@.by_name.contains_key(*name)
                    && self@.by_name[*name] == self.records@[j as int].abi@,
                None => !self@.by_name.contains_key(*name),
            },
    {
        let ghost recs = self.records@;
        let mut found: Option<usize> = None;
        let mut i: usize = 0;
        while i < self.records.len()
            invariant
                recs == self.records@,
                0 <= i <= recs.len(),
                match found {
                    Some(j) => j < i && abi_state_of(recs.take(i as int)).by_name.contains_key(*name)
                        && abi_state_of(recs.take(i as int)).by_name[*name] == recs[j as int].abi@,
                    None => !abi_state_of(recs.take(i as int)).by_name.contains_key(*name),
                },
            decreases recs.len() - i,
        {
            proof {
                lemma_prefix_step(recs, i as int);
            }
            if self.records[i].name == *name {
                found = Some(i);
            }
            i = i + 1;
        }
        proof {
            assert(recs.take(recs.len() as int) =~= recs);
        }
        found
    }

    /// Position of the latest registration for `code_hash`, if any.
    fn latest_by_code_hash(&self, code_hash: &CodeHash) -> (r: Option<usize>)
        ensures
            match r {
                Some(j) => j < self.records@.len() && self@.by_code_hash.contains_key(*code_hash)
                    && self@.by_code_hash[*code_hash] == self.records@[j as int].abi@,
                None => !self@.by_code_hash.contains_key(*code_hash),
            },
    {
        let ghost recs = self.records@;
        let mut found: Option<usize> = None;
        let mut i: usize = 0;
        while i < self.records.len()
            invariant
                recs == self.records@,
                0 <= i <= recs.len(),
                match found {
                    Some(j) => j < i && abi_state_of(recs.take(i as int)).by_code_hash.contains_key(
                        *code_hash,
                    ) && abi_state_of(recs.take(i as int)).by_code_hash[*code_hash]
                        == recs[j as int].abi@,
                    None => !abi_state_of(recs.take(i as int)).by_code_hash.contains_key(
                        *code_hash,
                    ),
                },
            decreases recs.len() - i,
        {
            proof {
                lemma_prefix_step(recs, i as int);
            }
            if self.records[i].code_hash == *code_hash {
                found = Some(i);
            }
            i = i + 1;
        }
        proof {
            assert(recs.take(recs.len() as int) =~= recs);
        }
        found
    }

    /// The ABI stored under `name`, empty where there is none.
    pub fn abi_by_name(&self, name: &NameHash) -> (r: Vec<u8>)
        ensures
            r@ == self@.abi_of_name(*name),
    {
        match self.latest_by_name(name) {
            Some(j) => copy_bytes(&self.records[j].abi),
            None => Vec::new(),
        }
    }

    /// The ABI stored under `code_hash`, empty where there is none.
    pub fn abi_by_code_hash(&self, code_hash: &CodeHash) -> (r: Vec<u8>)
        ensures
            r@ == self@.abi_of_code_hash(*code_hash),
    {
        match self.latest_by_code_hash(code_hash) {
            Some(j) => copy_bytes(&self.records[j].abi),
            None => Vec::new(),
        }
    }

    /// The code hashes that `account` registered, oldest first.
    pub fn code_hashes_by_account(&self, account: &AccountId) -> (r: Vec<CodeHash>)
        ensures
            r@ == self@.code_hashes_of(*account),
    {
        let ghost recs = self.records@;
        let mut out: Vec<CodeHash> = Vec::new();
        let mut i: usize = 0;
        while i < self.records.len()
            invariant
                recs == self.records@,
                0 <= i <= recs.len(),
                out@ == abi_state_of(recs.take(i as int)).code_hashes_of(*account),
            decreases recs.len() - i,
        {
            proof {
                lemma_prefix_step(recs, i as int);
            }
            if self.records[i].from == *account {
                out.push(self.records[i].code_hash);
            }
            i = i + 1;
        }
        proof {
            assert(recs.take(recs.len() as int) =~= recs);
        }
        out
    }
}

} // verus!
