//! The credential store: records and the operations the worker runs.
//!
//! `Store` is the in-memory model of the persisted table: an ordered list of
//! records plus the next identifier the store will assign. Identifiers are
//! store-assigned, unique and at least one; a client-supplied identifier on
//! a draft is a sentinel and is ignored on insertion. Persistence of this
//! state to disk is the caller's concern, outside this crate's contracts.

use vstd::prelude::*;

verus! {

/// One credential entry: an identifier assigned by the store, a username, a
/// URL, a passphrase and free-form notes.
#[derive(Debug)]
pub struct PassEntry {
    pub id: i64,
    pub username: String,
    pub url: String,
    pub passphrase: String,
    pub notes: String,
}

impl Clone for PassEntry {
    fn clone(&self) -> (r: Self)
        ensures
            r == *self,
    {
        PassEntry {
            id: self.id,
            username: self.username.clone(),
            url: self.url.clone(),
            passphrase: self.passphrase.clone(),
            notes: self.notes.clone(),
        }
    }
}

impl PartialEq for PassEntry {
    fn eq(&self, other: &Self) -> (r: bool) {
        self.id == other.id && self.username == other.username && self.url == other.url
            && self.passphrase == other.passphrase && self.notes == other.notes
    }
}

impl vstd::std_specs::cmp::PartialEqSpecImpl for PassEntry {
    open spec fn obeys_eq_spec() -> bool {
        true
    }

    open spec fn eq_spec(&self, other: &Self) -> bool {
        &&& self.id == other.id
        &&& self.username@ == other.username@
        &&& self.url@ == other.url@
        &&& self.passphrase@ == other.passphrase@
        &&& self.notes@ == other.notes@
    }
}

/// How a store operation can fail.
#[derive(Debug, Clone, Copy, PartialEq, Eq, Structural)]
pub enum StoreError {
    /// No record carries the requested identifier.
    NotFound,
    /// The store has run out of fresh identifiers.
    StorageFull,
}

/// Whether a persisted record is valid: a positive store-assigned
/// identifier and non-empty username and passphrase.
pub open spec fn entry_valid(e: PassEntry) -> bool {
    &&& 1 <= e.id
    &&& e.username@.len() > 0
    &&& e.passphrase@.len() > 0
}

/// Whether no two records of `s` share an identifier.
pub open spec fn ids_unique(s: Seq<PassEntry>) -> bool {
    forall|i: int, j: int| 0 <= i < j < s.len() ==> s[i].id != s[j].id
}

/// Whether some record of `s` carries the identifier `id`.
pub open spec fn has_id(s: Seq<PassEntry>, id: i64) -> bool {
    exists|i: int| 0 <= i < s.len() && s[i].id == id
}

/// The in-memory model of the credential table: the live records in their
/// natural retrieval order, and the next identifier to assign.
pub struct Store {
    pub entries: Vec<PassEntry>,
    pub next_id: i64,
}

impl Store {
    /// The store invariant: every persisted record is valid, identifiers
    /// are unique and all below the next one to be assigned.
    pub open spec fn wf(self) -> bool {
        &&& 1 <= self.next_id
        &&& forall|i: int|
            0 <= i < self.entries@.len() ==> entry_valid(#[trigger] self.entries@[i])
        &&& forall|i: int|
            0 <= i < self.entries@.len() ==> (#[trigger] self.entries@[i]).id < self.next_id
        &&& ids_unique(self.entries@)
    }

    /// An empty store, as freshly created storage presents itself.
    pub fn new() -> (s: Store)
        ensures
            s.wf(),
            s.entries@ == Seq::<PassEntry>::empty(),
            s.next_id == 1,
    {
        Store { entries: Vec::new(), next_id: 1 }
    }

    /// Returns all live records, in their natural retrieval order.
    pub fn list_all(&self) -> (r: Vec<PassEntry>)
        ensures
            r@ == self.entries@,
    {
        let r = self.entries.clone();
        proof {
            assert forall|i: int| 0 <= i < r@.len() implies r@[i] == self.entries@[i] by {
                assert(vstd::pervasive::cloned::<PassEntry>(self.entries[i], r[i]));
            }
            assert(r@ =~= self.entries@);
        }
        r
    }

    /// Looks one record up by identifier: the record when it is present,
    /// and no record — never an error — when it is absent.
    pub fn get_by_id(&self, entry_id: i64) -> (r: Option<PassEntry>)
        ensures
            match r {
                Some(e) => e.id == entry_id && self.entries@.contains(e),
                None => !has_id(self.entries@, entry_id),
            },
            r is Some <==> has_id(self.entries@, entry_id),
    {
        let n = self.entries.len();
        let mut i: usize = 0;
        while i < n
            invariant
                i <= n,
                n == self.entries@.len(),
                forall|j: int| 0 <= j < i ==> (#[trigger] self.entries@[j]).id != entry_id,
            decreases n - i,
        {
            if self.entries[i].id == entry_id {
                let found = self.entries[i].clone();
                proof {
                    assert(self.entries@.contains(found)) by {
                        assert(self.entries@[i as int] == found);
                    }
                }
                return Some(found);
            }
            i = i + 1;
        }
        None
    }

    /// Inserts a draft record: the store assigns the next identifier (the
    /// draft's own is a sentinel and is ignored) and appends the record,
    /// leaving every previously listed record untouched. Fails only when
    /// the identifiers are exhausted.
    pub fn insert(&mut self, entry: PassEntry) -> (r: Result<PassEntry, StoreError>)
        requires
            old(self).wf(),
            entry.username@.len() > 0,
            entry.passphrase@.len() > 0,
        ensures
            final(self).wf(),
            match r {
                Ok(new_entry) => {
                    &&& old(self).next_id < i64::MAX
                    &&& new_entry.id == old(self).next_id
                    &&& new_entry.username@ == entry.username@
                    &&& new_entry.url@ == entry.url@
                    &&& new_entry.passphrase@ == entry.passphrase@
                    &&& new_entry.notes@ == entry.notes@
                    &&& final(self).entries@ == old(self).entries@.push(new_entry)
                    &&& final(self).next_id == old(self).next_id + 1
                },
                Err(e) => {
                    &&& e == StoreError::StorageFull
                    &&& old(self).next_id == i64::MAX
                    &&& *final(self) == *old(self)
                },
            },
            r is Ok <==> old(self).next_id < i64::MAX,
    {
        if self.next_id == i64::MAX {
            return Err(StoreError::StorageFull);
        }
        let new_entry = PassEntry {
            id: self.next_id,
            username: entry.username,
            url: entry.url,
            passphrase: entry.passphrase,
            notes: entry.notes,
        };
        let stored = new_entry.clone();
        self.entries.push(stored);
        self.next_id = self.next_id + 1;
        proof {
            assert(final(self).entries@ =~= old(self).entries@.push(new_entry));
        }
        Ok(new_entry)
    }

    /// Deletes the record with the given identifier, leaving the others in
    /// order; reports `NotFound` — and changes nothing — when no record
    /// carries it. Either way, no surviving record carries the identifier.
    pub fn delete_by_id(&mut self, entry_id: i64) -> (r: Result<(), StoreError>)
        requires
            old(self).wf(),
        ensures
            final(self).wf(),
            final(self).next_id == old(self).next_id,
            forall|j: int|
                0 <= j < final(self).entries@.len()
                    ==> (#[trigger] final(self).entries@[j]).id != entry_id,
            r is Ok <==> has_id(old(self).entries@, entry_id),
            (r is Ok ==> exists|i: int|
                0 <= i < old(self).entries@.len() && old(self).entries@[i].id == entry_id
                    && final(self).entries@ == old(self).entries@.remove(i)),
            (r is Err ==> *final(self) == *old(self) && r->Err_0 == StoreError::NotFound),
    {
        let n = self.entries.len();
        let mut i: usize = 0;
        while i < n
            invariant
                i <= n,
                n == self.entries@.len(),
                *self == *old(self),
                old(self).wf(),
                forall|j: int| 0 <= j < i ==> (#[trigger] self.entries@[j]).id != entry_id,
            decreases n - i,
        {
            if self.entries[i].id == entry_id {
                self.entries.remove(i);
                proof {
                    let old_seq = old(self).entries@;
                    let new_seq = self.entries@;
                    assert(new_seq == old_seq.remove(i as int));
                    assert forall|j: int| 0 <= j < new_seq.len() implies (#[trigger] new_seq[j]).id
                        != entry_id by {
                        if j < i {
                            assert(new_seq[j] == old_seq[j]);
                        } else {
                            assert(new_seq[j] == old_seq[j + 1]);
                        }
                    }
                    assert(has_id(old_seq, entry_id)) by {
                        assert(old_seq[i as int].id == entry_id);
                    }
                }
                return Ok(());
            }
            i = i + 1;
        }
        Err(StoreError::NotFound)
    }
}

/// How initializing the storage relates what was there before to what is
/// there after: existing contents are kept untouched, and absent storage
/// comes up empty. This is the idempotence of schema creation: initializing
/// already-initialized storage neither errs nor alters it.
pub open spec fn store_initialized(existing: Option<Store>, r: Store) -> bool {
    match existing {
        Some(s) => r == s,
        None => r.entries@ == Seq::<PassEntry>::empty() && r.next_id == 1,
    }
}

/// Initializes the storage: keeps an existing store as it is and creates an
/// empty one otherwise.
pub fn init_store(existing: Option<Store>) -> (r: Store)
    requires
        existing matches Some(s) ==> s.wf(),
    ensures
        r.wf(),
        store_initialized(existing, r),
{
    match existing {
        Some(s) => s,
        None => Store::new(),
    }
}

/// Initializing twice is the same as initializing once: the second
/// initialization returns the first store unchanged.
pub proof fn lemma_init_store_idempotent(existing: Option<Store>, once: Store, twice: Store)
    requires
        store_initialized(existing, once),
        store_initialized(Some(once), twice),
    ensures
        twice == once,
{
}

} // verus!
