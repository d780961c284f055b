//! The ciphertext store: key-value persistence mapping an opaque account
//! key to an at-rest encrypted balance, one record per key.
//!
//! The store offers three accessors with deliberately asymmetric semantics:
//! `insert_ciphertext` upserts unconditionally, `update_ciphertext` touches
//! only keys that already have a record and is a silent no-op otherwise, and
//! `get_ciphertext` fails with `NotFound` on an absent key. Transfer and
//! withdraw go through the update-only path, so they never implicitly
//! create an account.

use vstd::prelude::*;

use crate::LedgerError;
use crate::engine::StoredCiphertext;

verus! {

/// One row of the store: an account key and the at-rest encrypted balance.
pub struct LedgerRecord {
    pub key: Vec<u8>,
    pub blob: StoredCiphertext,
}

/// First match for `k` among the records of `rows` at index `i` or later.
pub open spec fn lookup_from(rows: Seq<LedgerRecord>, k: Seq<u8>, i: int) -> Option<
    StoredCiphertext,
>
    decreases rows.len() - i,
{
    if i < 0 || i >= rows.len() {
        None
    } else if rows[i].key@ == k {
        Some(rows[i].blob)
    } else {
        lookup_from(rows, k, i + 1)
    }
}

/// The record stored under `k`, if any.
pub open spec fn lookup(rows: Seq<LedgerRecord>, k: Seq<u8>) -> Option<StoredCiphertext> {
    lookup_from(rows, k, 0)
}

proof fn lemma_lookup_from_at(rows: Seq<LedgerRecord>, k: Seq<u8>, i: int, t: int)
    requires
        0 <= i <= t < rows.len(),
        rows[t].key@ == k,
        forall|j: int| i <= j < t ==> rows[j].key@ != k,
    ensures
        lookup_from(rows, k, i) == Some(rows[t].blob),
    decreases t - i,
{
    if i < t {
        lemma_lookup_from_at(rows, k, i + 1, t);
    }
}

proof fn lemma_lookup_from_none(rows: Seq<LedgerRecord>, k: Seq<u8>, i: int)
    requires
        forall|j: int| i <= j < rows.len() ==> rows[j].key@ != k,
    ensures
        lookup_from(rows, k, i) is None,
    decreases rows.len() - i,
{
    if 0 <= i < rows.len() {
        lemma_lookup_from_none(rows, k, i + 1);
    }
}

proof fn lemma_lookup_from_update(
    rows: Seq<LedgerRecord>,
    t: int,
    rec: LedgerRecord,
    k2: Seq<u8>,
    i: int,
)
    requires
        0 <= t < rows.len(),
        rows[t].key@ == rec.key@,
        forall|j: int| 0 <= j < rows.len() && j != t ==> rows[j].key@ != rec.key@,
        0 <= i,
    ensures
        lookup_from(rows.update(t, rec), k2, i) == if k2 == rec.key@ && i <= t {
            Some(rec.blob)
        } else {
            lookup_from(rows, k2, i)
        },
    decreases rows.len() - i,
{
    if i < rows.len() {
        lemma_lookup_from_update(rows, t, rec, k2, i + 1);
    }
}

proof fn lemma_lookup_from_push(rows: Seq<LedgerRecord>, rec: LedgerRecord, k2: Seq<u8>, i: int)
    requires
        0 <= i,
    ensures
        lookup_from(rows.push(rec), k2, i) == if lookup_from(rows, k2, i) is Some {
            lookup_from(rows, k2, i)
        } else if k2 == rec.key@ && i <= rows.len() {
            Some(rec.blob)
        } else {
            None
        },
    decreases rows.len() - i,
{
    if i < rows.len() {
        lemma_lookup_from_push(rows, rec, k2, i + 1);
    } else {
        assert(lookup_from(rows, k2, i) is None);
        if i == rows.len() && k2 != rec.key@ {
            assert(lookup_from(rows.push(rec), k2, i + 1) is None);
        }
    }
}

/// Compares two byte strings for equality.
pub fn bytes_equal(a: &Vec<u8>, b: &Vec<u8>) -> (r: bool)
    ensures
        r <==> a@ == b@,
{
    if a.len() != b.len() {
        return false;
    }
    let mut i: usize = 0;
    while i < a.len()
        invariant
            a@.len() == b@.len(),
            i <= a@.len(),
            forall|j: int| 0 <= j < i ==> a@[j] == b@[j],
        decreases a@.len() - i,
    {
        if a[i] != b[i] {
            return false;
        }
        i = i + 1;
    }
    proof {
        assert(a@ =~= b@);
    }
    true
}

/// The ciphertext store. Each accessor is an independent unit of work; no
/// ordering or transactional guarantee spans several calls.
pub struct CiphertextStore {
    rows: Vec<LedgerRecord>,
}

impl CiphertextStore {
    /// At most one record per account key.
    pub closed spec fn wf(&self) -> bool {
        forall|i: int, j: int|
            0 <= i < j < self.rows@.len() ==> self.rows@[i].key@ != self.rows@[j].key@
    }

    /// The records of the store, as a map from key bytes to the at-rest
    /// balance stored under them.
    pub closed spec fn contents(&self) -> Map<Seq<u8>, StoredCiphertext> {
        Map::new(
            |k: Seq<u8>| lookup(self.rows@, k) is Some,
            |k: Seq<u8>| lookup(self.rows@, k)->Some_0,
        )
    }

    /// An empty store.
    pub fn new() -> (r: CiphertextStore)
        ensures
            r.wf(),
            r.contents() == Map::<Seq<u8>, StoredCiphertext>::empty(),
    {
        let r = CiphertextStore { rows: Vec::new() };
        proof {
            assert(r.contents() =~= Map::<Seq<u8>, StoredCiphertext>::empty());
        }
        r
    }

    /// The index of the record for `key`, if one exists.
    fn find(&self, key: &Vec<u8>) -> (r: Option<usize>)
        ensures
            match r {
                Some(i) => i < self.rows@.len() && self.rows@[i as int].key@ == key@ && (forall|
                    j: int,
                |
                    0 <= j < i ==> self.rows@[j].key@ != key@),
                None => forall|j: int| 0 <= j < self.rows@.len() ==> self.rows@[j].key@ != key@,
            },
    {
        let mut i: usize = 0;
        while i < self.rows.len()
            invariant
                i <= self.rows@.len(),
                forall|j: int| 0 <= j < i ==> self.rows@[j].key@ != key@,
            decreases self.rows@.len() - i,
        {
            if bytes_equal(&self.rows[i].key, key) {
                return Some(i);
            }
            i = i + 1;
        }
        None
    }

    /// Fetches the at-rest balance stored under `key`, failing with
    /// `NotFound` if no record exists.
    pub fn get_ciphertext(&self, key: &Vec<u8>) -> (r: Result<&StoredCiphertext, LedgerError>)
        ensures
            r matches Ok(b) ==> self.contents().contains_key(key@) && *b == self.contents()[key@],
            r matches Err(e) ==> e == LedgerError::NotFound && !self.contents().contains_key(key@),
    {
        match self.find(key) {
            Some(i) => {
                proof {
                    lemma_lookup_from_at(self.rows@, key@, 0, i as int);
                }
                Ok(&self.rows[i].blob)
            },
            None => {
                proof {
                    lemma_lookup_from_none(self.rows@, key@, 0);
                }
                Err(LedgerError::NotFound)
            },
        }
    }

    /// Inserts a record for `key`, or replaces the existing one
    /// unconditionally.
    pub fn insert_ciphertext(&mut self, key: Vec<u8>, blob: StoredCiphertext)
        requires
            old(self).wf(),
        ensures
            final(self).wf(),
            final(self).contents() == old(self).contents().insert(key@, blob),
    {
        let ghost old_rows = self.rows@;
        let rec = LedgerRecord { key, blob };
        let ghost grec = rec;
        match self.find(&rec.key) {
            Some(i) => {
                self.rows[i] = rec;
                proof {
                    assert(self.rows@ =~= old_rows.update(i as int, grec));
                    assert forall|k2: Seq<u8>| #[trigger] lookup(self.rows@, k2) == (if k2
                        == grec.key@ {
                        Some(grec.blob)
                    } else {
                        lookup(old_rows, k2)
                    }) by {
                        lemma_lookup_from_update(old_rows, i as int, grec, k2, 0);
                    }
                    assert(self.contents() =~= old(self).contents().insert(grec.key@, grec.blob));
                }
            },
            None => {
                self.rows.push(rec);
                proof {
                    assert forall|k2: Seq<u8>| #[trigger] lookup(self.rows@, k2) == (if k2
                        == grec.key@ {
                        Some(grec.blob)
                    } else {
                        lookup(old_rows, k2)
                    }) by {
                        lemma_lookup_from_push(old_rows, grec, k2, 0);
                        if k2 == grec.key@ {
                            lemma_lookup_from_none(old_rows, k2, 0);
                        }
                    }
                    assert(self.contents() =~= old(self).contents().insert(grec.key@, grec.blob));
                }
            },
        }
    }

    /// Replaces the record for `key` where one exists; where none does, the
    /// store is left unchanged and no record is created, silently.
    pub fn update_ciphertext(&mut self, key: &Vec<u8>, blob: StoredCiphertext)
        requires
            old(self).wf(),
        ensures
            final(self).wf(),
            old(self).contents().contains_key(key@) ==> final(self).contents() == old(
                self,
            ).contents().insert(key@, blob),
            !old(self).contents().contains_key(key@) ==> *final(self) == *old(self),
    {
        let ghost old_rows = self.rows@;
        let ghost gblob = blob;
        match self.find(key) {
            Some(i) => {
                proof {
                    lemma_lookup_from_at(old_rows, key@, 0, i as int);
                }
                self.rows[i].blob = blob;
                proof {
                    let grec = LedgerRecord { key: old_rows[i as int].key, blob: gblob };
                    assert(self.rows@ =~= old_rows.update(i as int, grec));
                    assert forall|k2: Seq<u8>| #[trigger] lookup(self.rows@, k2) == (if k2 == key@ {
                        Some(gblob)
                    } else {
                        lookup(old_rows, k2)
                    }) by {
                        lemma_lookup_from_update(old_rows, i as int, grec, k2, 0);
                    }
                    assert(self.contents() =~= old(self).contents().insert(key@, gblob));
                }
            },
            None => {
                proof {
                    lemma_lookup_from_none(old_rows, key@, 0);
                }
            },
        }
    }
}

} // verus!
