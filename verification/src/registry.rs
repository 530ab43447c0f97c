//! In-memory registry of signed payment profiles, keyed by identifier hash.
//!
//! Profiles are stored under the hash of their canonical alias; entries kept
//! under the plain canonical alias (older registries) are still honoured on
//! lookup. Reading and writing the registry file is the caller's part.

use vstd::prelude::*;
use crate::errors::SatsPathError;
use crate::privacy::{canonical, canonical_identifier, identifier_hash, identifier_hash_spec, lemma_canonical_idempotent};
use crate::profile::SignedPaymentProfile;
use crate::text::str_eq;

verus! {

/// A stored profile and the key it is stored under.
#[derive(Debug, Clone)]
pub struct RegistryEntry {
    pub key: String,
    pub profile: SignedPaymentProfile,
}

/// Registry of signed payment profiles.
pub struct Registry {
    entries: Vec<RegistryEntry>,
}

/// No two entries share a key.
pub open spec fn keys_distinct(s: Seq<RegistryEntry>) -> bool {
    forall|i: int, j: int|
        0 <= i < s.len() && 0 <= j < s.len() && i != j ==> #[trigger] s[i].key@ != #[trigger] s[j].key@
}

/// The map from keys to profiles that a list of entries with distinct keys
/// holds.
pub open spec fn entries_map(s: Seq<RegistryEntry>) -> Map<Seq<char>, SignedPaymentProfile> {
    Map::new(
        |k: Seq<char>| exists|i: int| 0 <= i < s.len() && #[trigger] s[i].key@ == k,
        |k: Seq<char>| s[choose|i: int| 0 <= i < s.len() && #[trigger] s[i].key@ == k].profile,
    )
}

/// The key a profile with this alias is stored under.
pub open spec fn storage_key(alias: Seq<char>) -> Seq<char> {
    identifier_hash_spec(canonical(alias))
}

/// What `resolve_alias` finds for an alias: the entry under the hash of its
/// canonical form, else the one under the canonical form itself.
pub open spec fn resolve_spec(m: Map<Seq<char>, SignedPaymentProfile>, alias: Seq<char>) -> Option<
    SignedPaymentProfile,
> {
    let c = canonical(alias);
    let k = identifier_hash_spec(c);
    if m.contains_key(k) {
        Some(m[k])
    } else if m.contains_key(c) {
        Some(m[c])
    } else {
        None
    }
}

/// Whether an alias is taken in the map.
pub open spec fn registered_spec(m: Map<Seq<char>, SignedPaymentProfile>, alias: Seq<char>) -> bool {
    resolve_spec(m, alias) is Some
}

impl Registry {
    #[verifier::type_invariant]
    spec fn inv(self) -> bool {
        keys_distinct(self.entries@)
    }

    /// The registry's contents: key to profile.
    pub closed spec fn view(&self) -> Map<Seq<char>, SignedPaymentProfile> {
        entries_map(self.entries@)
    }

    /// An empty registry.
    pub fn new() -> (r: Registry)
        ensures
            r.view() == Map::<Seq<char>, SignedPaymentProfile>::empty(),
    {
        let r = Registry { entries: Vec::new() };
        assert(r.view() =~= Map::<Seq<char>, SignedPaymentProfile>::empty());
        r
    }

    /// The stored entries, one per key, in storage order.
    pub fn entries(&self) -> (r: &Vec<RegistryEntry>)
        ensures
            keys_distinct(r@),
            entries_map(r@) == self.view(),
    {
        proof {
            use_type_invariant(self);
        }
        &self.entries
    }

    fn find(&self, key: &str) -> (r: Option<usize>)
        ensures
            match r {
                Some(i) => i < self.entries@.len() && self.entries@[i as int].key@ == key@,
                None => forall|i: int| 0 <= i < self.entries@.len() ==> #[trigger] self.entries@[i].key@ != key@,
            },
    {
        let mut i: usize = 0;
        while i < self.entries.len()
            invariant
                i <= self.entries@.len(),
                forall|j: int| 0 <= j < i ==> #[trigger] self.entries@[j].key@ != key@,
            decreases self.entries.len() - i,
        {
            if str_eq(self.entries[i].key.as_str(), key) {
                return Some(i);
            }
            i = i + 1;
        }
        None
    }

    /// The profile stored under `key`.
    pub fn get(&self, key: &str) -> (r: Option<&SignedPaymentProfile>)
        ensures
            match r {
                Some(p) => self.view().contains_key(key@) && *p == self.view()[key@],
                None => !self.view().contains_key(key@),
            },
    {
        proof {
            use_type_invariant(self);
        }
        match self.find(key) {
            Some(i) => {
                proof {
                    let s = self.entries@;
                    assert(s[i as int].key@ == key@);
                    let j = choose|j: int| 0 <= j < s.len() && #[trigger] s[j].key@ == key@;
                    assert(i == j);
                }
                Some(&self.entries[i].profile)
            },
            None => None,
        }
    }

    /// Whether a profile is stored under `key`.
    pub fn contains_key(&self, key: &str) -> (r: bool)
        ensures
            r == self.view().contains_key(key@),
    {
        self.find(key).is_some()
    }

    /// Stores `profile` under `key`, replacing what was there.
    pub fn insert(&mut self, key: String, profile: SignedPaymentProfile)
        ensures
            final(self).view() == old(self).view().insert(key@, profile),
    {
        proof {
            use_type_invariant(&*self);
        }
        let ghost old_entries = self.entries@;
        let ghost k = key@;
        let found = self.find(key.as_str());
        let mut entries: Vec<RegistryEntry> = Vec::new();
        std::mem::swap(&mut entries, &mut self.entries);
        match found {
            Some(i) => {
                let entry = RegistryEntry { key, profile };
                let ghost e = entry;
                entries.set(i, entry);
                proof {
                    let s = entries@;
                    assert(s == old_entries.update(i as int, e));
                    assert forall|a: int, b: int|
                        0 <= a < s.len() && 0 <= b < s.len() && a != b implies #[trigger] s[a].key@
                        != #[trigger] s[b].key@ by {
                        if a != i && b != i {
                            assert(old_entries[a].key@ != old_entries[b].key@);
                        } else if a == i {
                            assert(old_entries[b].key@ != old_entries[i as int].key@);
                        } else {
                            assert(old_entries[a].key@ != old_entries[i as int].key@);
                        }
                    }
                    assert(entries_map(s) =~= entries_map(old_entries).insert(k, e.profile)) by {
                        assert forall|q: Seq<char>| #[trigger] entries_map(s).contains_key(q)
                            <==> entries_map(old_entries).insert(k, e.profile).contains_key(q) by {
                            if q == k {
                                assert(s[i as int].key@ == q);
                            } else if entries_map(old_entries).contains_key(q) {
                                let j = choose|j: int| 0 <= j < old_entries.len() && #[trigger] old_entries[j].key@ == q;
                                assert(s[j].key@ == q);
                            } else if entries_map(s).contains_key(q) {
                                let j = choose|j: int| 0 <= j < s.len() && #[trigger] s[j].key@ == q;
                                assert(old_entries[j].key@ == q);
                            }
                        }
                        assert forall|q: Seq<char>| #[trigger] entries_map(s).contains_key(q)
                            implies entries_map(s)[q] == entries_map(old_entries).insert(k, e.profile)[q] by {
                            let j = choose|j: int| 0 <= j < s.len() && #[trigger] s[j].key@ == q;
                            if q == k {
                                assert(s[i as int].key@ == q);
                                assert(j == i);
                            } else {
                                assert(old_entries[j].key@ == q);
                                let j2 = choose|j2: int| 0 <= j2 < old_entries.len() && #[trigger] old_entries[j2].key@ == q;
                                assert(j2 == j);
                            }
                        }
                    }
                }
            },
            None => {
                let entry = RegistryEntry { key, profile };
                let ghost e = entry;
                entries.push(entry);
                proof {
                    let s = entries@;
                    let n = old_entries.len() as int;
                    assert(s == old_entries.push(e));
                    assert forall|a: int, b: int|
                        0 <= a < s.len() && 0 <= b < s.len() && a != b implies #[trigger] s[a].key@
                        != #[trigger] s[b].key@ by {
                        if a != n && b != n {
                            assert(old_entries[a].key@ != old_entries[b].key@);
                        } else if a == n {
                            assert(old_entries[b].key@ != k);
                        } else {
                            assert(old_entries[a].key@ != k);
                        }
                    }
                    assert(entries_map(s) =~= entries_map(old_entries).insert(k, e.profile)) by {
                        assert forall|q: Seq<char>| #[trigger] entries_map(s).contains_key(q)
                            <==> entries_map(old_entries).insert(k, e.profile).contains_key(q) by {
                            if q == k {
                                assert(s[n].key@ == q);
                            } else if entries_map(old_entries).contains_key(q) {
                                let j = choose|j: int| 0 <= j < old_entries.len() && #[trigger] old_entries[j].key@ == q;
                                assert(s[j].key@ == q);
                            } else if entries_map(s).contains_key(q) {
                                let j = choose|j: int| 0 <= j < s.len() && #[trigger] s[j].key@ == q;
                                assert(old_entries[j].key@ == q);
                            }
                        }
                        assert forall|q: Seq<char>| #[trigger] entries_map(s).contains_key(q)
                            implies entries_map(s)[q] == entries_map(old_entries).insert(k, e.profile)[q] by {
                            let j = choose|j: int| 0 <= j < s.len() && #[trigger] s[j].key@ == q;
                            if q == k {
                                assert(s[n].key@ == q);
                                assert(j == n);
                            } else {
                                assert(old_entries[j].key@ == q);
                                let j2 = choose|j2: int| 0 <= j2 < old_entries.len() && #[trigger] old_entries[j2].key@ == q;
                                assert(j2 == j);
                            }
                        }
                    }
                }
            },
        }
        self.entries = entries;
    }

    /// Registers a signed profile under the hash of its canonical alias. Fails
    /// if the alias is already taken.
    pub fn register_profile(&mut self, signed: SignedPaymentProfile) -> (r: Result<(), SatsPathError>)
        ensures
            r is Ok <==> !registered_spec(old(self).view(), signed.profile.alias@),
            r is Ok ==> final(self).view() == old(self).view().insert(
                storage_key(signed.profile.alias@),
                signed,
            ),
            r matches Err(e) ==> e matches SatsPathError::AliasAlreadyRegistered(a) && a@ == canonical(
                signed.profile.alias@,
            ) && final(self).view() == old(self).view(),
    {
        let alias = canonical_identifier(signed.profile.alias.as_str());
        let key = identifier_hash(alias.as_str());
        proof {
            lemma_canonical_idempotent(signed.profile.alias@);
        }
        if self.contains_key(key.as_str()) || self.contains_key(alias.as_str()) {
            return Err(SatsPathError::AliasAlreadyRegistered(alias));
        }
        self.insert(key, signed);
        Ok(())
    }

    /// Overwrites the profile of an alias, refusing a profile older than the
    /// one it replaces.
    pub fn update_profile(&mut self, signed: SignedPaymentProfile) -> (r: Result<(), SatsPathError>)
        ensures
            r is Ok <==> (resolve_spec(old(self).view(), signed.profile.alias@) matches Some(e)
                ==> signed.profile.updated_at >= e.profile.updated_at),
            r is Ok ==> final(self).view() == old(self).view().insert(
                storage_key(signed.profile.alias@),
                signed,
            ),
            r matches Err(e) ==> e is RegistryError && final(self).view() == old(self).view(),
    {
        let alias = canonical_identifier(signed.profile.alias.as_str());
        let key = identifier_hash(alias.as_str());
        proof {
            lemma_canonical_idempotent(signed.profile.alias@);
        }
        let existing = match self.get(key.as_str()) {
            Some(p) => Some(p),
            None => self.get(alias.as_str()),
        };
        if let Some(existing) = existing {
            if signed.profile.updated_at < existing.profile.updated_at {
                return Err(
                    SatsPathError::RegistryError(
                        "Update rejected: incoming profile is older than existing profile".to_string(),
                    ),
                );
            }
        }
        self.insert(key, signed);
        Ok(())
    }

    /// The signed profile of an alias.
    pub fn resolve_alias(&self, alias: &str) -> (r: Result<&SignedPaymentProfile, SatsPathError>)
        ensures
            match resolve_spec(self.view(), alias@) {
                Some(p) => r matches Ok(q) && *q == p,
                None => r matches Err(SatsPathError::AliasNotFound(a)) && a@ == canonical(alias@),
            },
    {
        let c = canonical_identifier(alias);
        let key = identifier_hash(c.as_str());
        proof {
            lemma_canonical_idempotent(alias@);
        }
        match self.get(key.as_str()) {
            Some(p) => Ok(p),
            None => match self.get(c.as_str()) {
                Some(p) => Ok(p),
                None => Err(SatsPathError::AliasNotFound(c)),
            },
        }
    }

    /// Whether an alias is registered.
    pub fn is_registered(&self, alias: &str) -> (r: bool)
        ensures
            r == registered_spec(self.view(), alias@),
    {
        let c = canonical_identifier(alias);
        let key = identifier_hash(c.as_str());
        proof {
            lemma_canonical_idempotent(alias@);
        }
        self.contains_key(key.as_str()) || self.contains_key(c.as_str())
    }

    /// The aliases of all registered profiles: one per stored entry, listed
    /// with the distinct keys `ks` they are stored under.
    pub fn all_aliases(&self) -> (r: Vec<&str>)
        ensures
            exists|ks: Seq<Seq<char>>| #[trigger] aliases_listed(self.view(), ks, r@),
    {
        proof {
            use_type_invariant(self);
        }
        let mut r: Vec<&str> = Vec::new();
        let mut i: usize = 0;
        while i < self.entries.len()
            invariant
                i <= self.entries@.len(),
                keys_distinct(self.entries@),
                r@.len() == i,
                forall|j: int| 0 <= j < i ==> #[trigger] r@[j]@ == self.entries@[j].profile.profile.alias@,
            decreases self.entries.len() - i,
        {
            r.push(self.entries[i].profile.profile.alias.as_str());
            i = i + 1;
        }
        proof {
            let s = self.entries@;
            let ks = s.map_values(|e: RegistryEntry| e.key@);
            let m = self.view();
            assert forall|a: int| 0 <= a < r@.len() implies m.contains_key(#[trigger] ks[a]) && m[ks[a]].profile.alias@
                == r@[a]@ by {
                assert(s[a].key@ == ks[a]);
                let j = choose|j: int| 0 <= j < s.len() && #[trigger] s[j].key@ == ks[a];
                assert(j == a);
            }
            assert forall|k: Seq<char>| #[trigger] m.contains_key(k) implies exists|a: int| 0 <= a < ks.len() && ks[a] == k by {
                let j = choose|j: int| 0 <= j < s.len() && #[trigger] s[j].key@ == k;
                assert(ks[j] == k);
            }
            assert forall|a: int, b: int| 0 <= a < ks.len() && 0 <= b < ks.len() && a != b implies #[trigger] ks[a] != #[trigger] ks[b] by {
                assert(s[a].key@ != s[b].key@);
            }
            assert(aliases_listed(m, ks, r@));
        }
        r
    }
}

/// `aliases` lists the alias of the profile under each key of `ks`, and `ks`
/// names every key of the registry once.
pub open spec fn aliases_listed(
    m: Map<Seq<char>, SignedPaymentProfile>,
    ks: Seq<Seq<char>>,
    aliases: Seq<&str>,
) -> bool {
    &&& ks.len() == aliases.len()
    &&& forall|a: int| 0 <= a < ks.len() ==> m.contains_key(#[trigger] ks[a]) && m[ks[a]].profile.alias@ == aliases[a]@
    &&& forall|k: Seq<char>| #[trigger] m.contains_key(k) ==> exists|a: int| 0 <= a < ks.len() && ks[a] == k
    &&& forall|a: int, b: int| 0 <= a < ks.len() && 0 <= b < ks.len() && a != b ==> #[trigger] ks[a] != #[trigger] ks[b]
}

/// After a profile is registered, its alias, and every alias with the same
/// canonical form, resolves to that profile.
pub proof fn registered_profile_resolves(
    before: Map<Seq<char>, SignedPaymentProfile>,
    signed: SignedPaymentProfile,
    alias: Seq<char>,
)
    requires
        canonical(alias) == canonical(signed.profile.alias@),
    ensures
        resolve_spec(before.insert(storage_key(signed.profile.alias@), signed), alias) == Some(signed),
{
    lemma_canonical_idempotent(alias);
}

/// An alias stays taken once registered: a second registration for the same
/// canonical alias is refused.
pub proof fn registration_is_exclusive(
    before: Map<Seq<char>, SignedPaymentProfile>,
    first: SignedPaymentProfile,
    second: SignedPaymentProfile,
)
    requires
        canonical(first.profile.alias@) == canonical(second.profile.alias@),
    ensures
        registered_spec(before.insert(storage_key(first.profile.alias@), first), second.profile.alias@),
{
    registered_profile_resolves(before, first, second.profile.alias@);
}

/// An update never replaces a profile with an older one: after an accepted
/// update, the alias resolves to a profile at least as recent as before.
pub proof fn update_never_goes_back(
    before: Map<Seq<char>, SignedPaymentProfile>,
    signed: SignedPaymentProfile,
)
    requires
        resolve_spec(before, signed.profile.alias@) matches Some(e) ==> signed.profile.updated_at
            >= e.profile.updated_at,
    ensures
        resolve_spec(before.insert(storage_key(signed.profile.alias@), signed), signed.profile.alias@)
            == Some(signed),
        resolve_spec(before, signed.profile.alias@) matches Some(e) ==> resolve_spec(
            before.insert(storage_key(signed.profile.alias@), signed),
            signed.profile.alias@,
        )->0.profile.updated_at >= e.profile.updated_at,
{
    registered_profile_resolves(before, signed, signed.profile.alias@);
}

} // verus!
