use vstd::prelude::*;
use crate::ids::{Address, IdentityKey};

verus! {

/// Errors of the factory component.
#[derive(Clone, Copy, PartialEq, Eq, Structural, Debug)]
pub enum FactoryError {
    /// An account instance already exists for this identity key; the
    /// registry never overwrites an entry.
    AlreadyProvisioned,
}

/// The instance address mapped to `k` in the entry table `s`, if any.
pub open spec fn lookup_in(s: Seq<(IdentityKey, Address)>, k: Seq<u8>) -> Option<Address>
    decreases s.len(),
{
    if s.len() == 0 {
        None
    } else if s.last().0@ == k {
        Some(s.last().1)
    } else {
        lookup_in(s.drop_last(), k)
    }
}

/// No two entries of `s` share an identity key.
pub open spec fn unique_keys(s: Seq<(IdentityKey, Address)>) -> bool {
    forall|p: int, q: int| 0 <= p < q < s.len() ==> s[p].0@ != s[q].0@
}

/// No two entries of `s` share an instance address.
pub open spec fn unique_addresses(s: Seq<(IdentityKey, Address)>) -> bool {
    forall|p: int, q: int| 0 <= p < q < s.len() ==> s[p].1 != s[q].1
}

/// The registry: a bijective identity-key-to-instance-address table that
/// owns provisioning. Entries are created once by a successful
/// [`FactoryContract::deploy_account`] and never updated or removed; each
/// instance address is assigned in deployment order, so the table never maps
/// two keys to one instance.
pub struct FactoryContract {
    entries: Vec<(IdentityKey, Address)>,
}

impl FactoryContract {
    /// Every key appears at most once, every address appears at most once,
    /// and the entry at position `i` holds the address assigned to the
    /// `i`-th deployment.
    pub closed spec fn wf(&self) -> bool {
        unique_keys(self.entries@) && unique_addresses(self.entries@) && (forall|i: int|
            0 <= i < self.entries@.len() ==> self.entries@[i].1 == (Address { id: i as u64 }))
    }

    /// The instance address provisioned for key `k`, if any.
    pub closed spec fn spec_lookup(&self, k: Seq<u8>) -> Option<Address> {
        lookup_in(self.entries@, k)
    }

    /// How many instances this factory has deployed.
    pub closed spec fn spec_instance_count(&self) -> nat {
        self.entries@.len()
    }

    /// What a completed `deploy_account` call did: a fresh key gets the next
    /// deterministic instance address and exactly one new mapping entry; a
    /// key that is already mapped is refused and the registry is exactly as
    /// it was.
    pub open spec fn deploy_outcome(
        pre: FactoryContract,
        post: FactoryContract,
        uid: Seq<u8>,
        r: Result<Address, FactoryError>,
    ) -> bool {
        match r {
            Ok(a) => pre.spec_lookup(uid) is None && a == (Address {
                id: pre.spec_instance_count() as u64,
            }) && post.spec_instance_count() == pre.spec_instance_count() + 1 && post.spec_lookup(
                uid,
            ) == Some(a) && (forall|k: Seq<u8>|
                k != uid ==> post.spec_lookup(k) == pre.spec_lookup(k)),
            Err(FactoryError::AlreadyProvisioned) => pre.spec_lookup(uid) is Some && post == pre,
        }
    }

    /// A fresh registry: no key is provisioned.
    pub fn new() -> (r: FactoryContract)
        ensures
            r.wf(),
            r.spec_instance_count() == 0,
            forall|k: Seq<u8>| r.spec_lookup(k) is None,
    {
        FactoryContract { entries: Vec::new() }
    }

    /// How many instances this factory has deployed; a pure read.
    pub fn instance_count(&self) -> (r: usize)
        ensures
            r == self.spec_instance_count(),
    {
        self.entries.len()
    }

    /// Provisions an account instance for `telegram_uid`: refuses a key that
    /// is already mapped, otherwise assigns the next deterministic instance
    /// address, records the mapping, and returns the address.
    ///
    /// `signature` is the caller's 64-byte ownership blob for the key. This
    /// scheme deliberately does not verify it: provisioning is
    /// unauthenticated, any caller may provision for any identity, and the
    /// blob is only required to have the ledger's signature shape.
    pub fn deploy_account(&mut self, telegram_uid: IdentityKey, signature: Vec<u8>) -> (r: Result<
        Address,
        FactoryError,
    >)
        requires
            old(self).wf(),
            signature@.len() == 64,
        ensures
            final(self).wf(),
            FactoryContract::deploy_outcome(*old(self), *final(self), telegram_uid@, r),
    {
        let existing = self.get_account(&telegram_uid);
        if existing.is_some() {
            return Err(FactoryError::AlreadyProvisioned);
        }
        let ghost s0 = self.entries@;
        proof {
            lemma_lookup_none_absent(s0, telegram_uid@);
        }
        let id: u64 = self.entries.len() as u64;
        let address = Address { id };
        self.entries.push((telegram_uid, address));
        proof {
            assert forall|k: Seq<u8>|
                self.spec_lookup(k) == (if k == telegram_uid@ {
                    Some(address)
                } else {
                    lookup_in(s0, k)
                }) by {
                lemma_lookup_push(s0, telegram_uid, address, k);
            }
        }
        Ok(address)
    }

    /// Looks up the instance address provisioned for `telegram_uid`; returns
    /// an explicit "not found" for an unprovisioned key, never an error (a
    /// pure read; querying an unprovisioned identity is a normal outcome).
    pub fn get_account(&self, telegram_uid: &IdentityKey) -> (r: Option<Address>)
        requires
            self.wf(),
        ensures
            r == self.spec_lookup(telegram_uid@),
    {
        let n = self.entries.len();
        let mut i: usize = 0;
        while i < n
            invariant
                i <= n,
                n == self.entries@.len(),
                self.wf(),
                forall|j: int| 0 <= j < i ==> self.entries@[j].0@ != telegram_uid@,
            decreases n - i,
        {
            if self.entries[i].0.matches(telegram_uid) {
                proof {
                    lemma_lookup_at_entry(self.entries@, i as int, telegram_uid@);
                }
                return Some(self.entries[i].1);
            }
            i += 1;
        }
        proof {
            lemma_lookup_none_absent(self.entries@, telegram_uid@);
        }
        None
    }
}

/// If key `k` sits at entry `i` of a duplicate-free table, lookup returns
/// that entry's address.
proof fn lemma_lookup_at_entry(s: Seq<(IdentityKey, Address)>, i: int, k: Seq<u8>)
    requires
        unique_keys(s),
        0 <= i < s.len(),
        s[i].0@ == k,
    ensures
        lookup_in(s, k) == Some(s[i].1),
    decreases s.len(),
{
    if i == s.len() - 1 {
        assert(s.last().0@ == k);
    } else {
        assert(s.last().0@ != k);
        lemma_lookup_at_entry(s.drop_last(), i, k);
    }
}

/// A key with no entry looks up to "not found", and the other way around.
proof fn lemma_lookup_none_absent(s: Seq<(IdentityKey, Address)>, k: Seq<u8>)
    ensures
        lookup_in(s, k) is None <==> (forall|j: int| 0 <= j < s.len() ==> s[j].0@ != k),
    decreases s.len(),
{
    if s.len() > 0 {
        lemma_lookup_none_absent(s.drop_last(), k);
        assert(forall|j: int| 0 <= j < s.len() - 1 ==> s.drop_last()[j] == s[j]);
        assert(s.last() == s[s.len() - 1]);
    }
}

/// Appending an entry for an unmapped key maps exactly that key.
proof fn lemma_lookup_push(
    s: Seq<(IdentityKey, Address)>,
    key: IdentityKey,
    a: Address,
    k: Seq<u8>,
)
    ensures
        lookup_in(s.push((key, a)), k) == if k == key@ {
            Some(a)
        } else {
            lookup_in(s, k)
        },
{
    assert(s.push((key, a)).drop_last() =~= s);
    assert(s.push((key, a)).last() == (key, a));
}

/// A successful lookup comes from some table entry.
proof fn lemma_lookup_finds_entry(s: Seq<(IdentityKey, Address)>, k: Seq<u8>, a: Address)
    requires
        lookup_in(s, k) == Some(a),
    ensures
        exists|i: int| 0 <= i < s.len() && s[i].0@ == k && s[i].1 == a,
    decreases s.len(),
{
    if s.last().0@ == k {
        assert(s[s.len() - 1].0@ == k && s[s.len() - 1].1 == a);
    } else {
        lemma_lookup_finds_entry(s.drop_last(), k, a);
        let i = choose|i: int|
            0 <= i < s.drop_last().len() && s.drop_last()[i].0@ == k && s.drop_last()[i].1 == a;
        assert(s[i].0@ == k && s[i].1 == a);
    }
}

/// The registry is bijective: no two identity keys are ever mapped to the
/// same instance address.
pub proof fn lemma_registry_injective(f: FactoryContract, k1: Seq<u8>, k2: Seq<u8>, a: Address)
    requires
        f.wf(),
        f.spec_lookup(k1) == Some(a),
        f.spec_lookup(k2) == Some(a),
    ensures
        k1 == k2,
{
    lemma_lookup_finds_entry(f.entries@, k1, a);
    lemma_lookup_finds_entry(f.entries@, k2, a);
    let i1 = choose|i: int| 0 <= i < f.entries@.len() && f.entries@[i].0@ == k1 && f.entries@[i].1 == a;
    let i2 = choose|i: int| 0 <= i < f.entries@.len() && f.entries@[i].0@ == k2 && f.entries@[i].1 == a;
    assert(i1 == i2);
}

/// Provisioning is idempotent in effect: after the first successful
/// provisioning of a key, every subsequent attempt for that key fails with
/// `AlreadyProvisioned`, leaves the registry exactly as it was, and lookup
/// keeps returning the original address unchanged.
pub proof fn lemma_provision_idempotent(
    f0: FactoryContract,
    f1: FactoryContract,
    f2: FactoryContract,
    uid: Seq<u8>,
    a: Address,
    r2: Result<Address, FactoryError>,
)
    requires
        FactoryContract::deploy_outcome(f0, f1, uid, Ok(a)),
        FactoryContract::deploy_outcome(f1, f2, uid, r2),
    ensures
        r2 matches Err(FactoryError::AlreadyProvisioned),
        f2 == f1,
        f2.spec_lookup(uid) == Some(a),
{
    match r2 {
        Ok(_) => {
            assert(false);
        },
        Err(FactoryError::AlreadyProvisioned) => {},
    }
}

/// A mapping, once written, never changes: provisioning any other key leaves
/// an existing key's lookup result untouched.
pub proof fn lemma_lookup_stable(
    f0: FactoryContract,
    f1: FactoryContract,
    uid: Seq<u8>,
    other: Seq<u8>,
    a: Address,
    r: Result<Address, FactoryError>,
)
    requires
        f0.spec_lookup(uid) == Some(a),
        FactoryContract::deploy_outcome(f0, f1, other, r),
    ensures
        f1.spec_lookup(uid) == Some(a),
{
}

/// A key that was never provisioned keeps looking up to "not found":
/// a fresh registry maps no key, and provisioning one key maps no other.
pub proof fn lemma_unprovisioned_stays_not_found(
    f0: FactoryContract,
    f1: FactoryContract,
    uid: Seq<u8>,
    other: Seq<u8>,
    r: Result<Address, FactoryError>,
)
    requires
        f0.spec_lookup(uid) is None,
        other != uid,
        FactoryContract::deploy_outcome(f0, f1, other, r),
    ensures
        f1.spec_lookup(uid) is None,
{
}

} // verus!
