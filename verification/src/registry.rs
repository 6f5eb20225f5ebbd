//! The window registry: the mapping from window identity to window
//! record, plus the single current-focus identity. The focus pointer
//! always names a key present in the mapping.

use vstd::prelude::*;
use crate::record::WindowRecord;

verus! {

/// Failure of a registry lookup. An absent identity indicates
/// desynchronization between the registry and the platform layer, since
/// identities are only handed out by the platform.
#[derive(Clone, Copy, Debug, PartialEq, Eq, Structural)]
pub enum RegistryError {
    NotFound,
}

/// Whether some record in the sequence carries this identity.
pub open spec fn seq_contains(s: Seq<WindowRecord>, id: u64) -> bool {
    exists|i: int| 0 <= i < s.len() && s[i].id == id
}

/// The index of the record carrying this identity, when present.
pub open spec fn seq_index_of(s: Seq<WindowRecord>, id: u64) -> int {
    choose|i: int| 0 <= i < s.len() && s[i].id == id
}

/// No two records in the sequence share an identity.
pub open spec fn seq_ids_unique(s: Seq<WindowRecord>) -> bool {
    forall|i: int, j: int| 0 <= i < j < s.len() ==> s[i].id != s[j].id
}

/// The mathematical model of a registry: the sequence of window records
/// and the current-focus identity.
pub ghost struct RegistryModel {
    pub records: Seq<WindowRecord>,
    pub current: u64,
}

impl RegistryModel {
    pub open spec fn contains(self, id: u64) -> bool {
        seq_contains(self.records, id)
    }

    pub open spec fn index_of(self, id: u64) -> int {
        seq_index_of(self.records, id)
    }

    /// The record stored under this identity, when present.
    pub open spec fn record_of(self, id: u64) -> WindowRecord {
        self.records[self.index_of(id)]
    }

    pub open spec fn ids_unique(self) -> bool {
        seq_ids_unique(self.records)
    }

    /// The registry's invariant: at least one window exists, identities
    /// are unique, the focus pointer names a present key, and every
    /// record satisfies its own invariant.
    pub open spec fn wf(self) -> bool {
        &&& self.records.len() >= 1
        &&& self.ids_unique()
        &&& self.contains(self.current)
        &&& forall|i: int| 0 <= i < self.records.len() ==> self.records[i].wf()
    }
}

/// The windows the application is managing, keyed by window identity,
/// with the identity of the current (focused) window.
#[derive(Debug)]
pub struct Registry {
    pub records: Vec<WindowRecord>,
    pub current: u64,
}

impl View for Registry {
    type V = RegistryModel;

    open spec fn view(&self) -> RegistryModel {
        RegistryModel { records: self.records@, current: self.current }
    }
}

impl Registry {
    /// Creates the registry for the first opened window, which becomes
    /// current.
    pub fn with_first_window(record: WindowRecord) -> (r: Registry)
        requires
            record.wf(),
        ensures
            r@.records.len() == 1,
            r@.records[0] == record,
            r@.current == record.id,
            r@.wf(),
    {
        let mut records: Vec<WindowRecord> = Vec::new();
        let current = record.id;
        records.push(record);
        let r = Registry { records, current };
        proof {
            assert(r@.records[0].id == r@.current);
        }
        r
    }

    /// The number of open windows.
    pub fn len(&self) -> (n: usize)
        ensures
            n == self@.records.len(),
    {
        self.records.len()
    }

    pub fn contains(&self, id: u64) -> (b: bool)
        ensures
            b == self@.contains(id),
    {
        let mut k: usize = 0;
        while k < self.records.len()
            invariant
                k <= self.records@.len(),
                forall|j: int| 0 <= j < k ==> self.records@[j].id != id,
            decreases self.records@.len() - k,
        {
            if self.records[k].id == id {
                return true;
            }
            k = k + 1;
        }
        false
    }

    /// The index holding a present identity.
    fn index_of(&self, id: u64) -> (i: usize)
        requires
            self@.ids_unique(),
            self@.contains(id),
        ensures
            i < self@.records.len(),
            self@.records[i as int].id == id,
            i == self@.index_of(id),
    {
        let mut k: usize = 0;
        while k < self.records.len()
            invariant
                k <= self.records@.len(),
                self@.ids_unique(),
                self@.contains(id),
                forall|j: int| 0 <= j < k ==> self.records@[j].id != id,
            decreases self.records@.len() - k,
        {
            if self.records[k].id == id {
                proof {
                    lemma_unique_index(self@.records, k as int, self@.index_of(id));
                }
                return k;
            }
            k = k + 1;
        }
        proof {
            let w = seq_index_of(self.records@, id);
            assert(self.records@[w].id != id);
        }
        unreached()
    }

    /// Looks an identity up, failing with `NotFound` when it is absent.
    pub fn get(&self, id: u64) -> (r: Result<WindowRecord, RegistryError>)
        requires
            self@.ids_unique(),
        ensures
            match r {
                Ok(rec) => self@.contains(id) && rec == self@.record_of(id),
                Err(e) => !self@.contains(id) && e == RegistryError::NotFound,
            },
    {
        if self.contains(id) {
            let i = self.index_of(id);
            Ok(self.records[i])
        } else {
            Err(RegistryError::NotFound)
        }
    }

    /// Moves the focus pointer to a present identity.
    pub fn set_current(&mut self, id: u64)
        requires
            old(self)@.wf(),
            old(self)@.contains(id),
        ensures
            final(self)@ == (RegistryModel { current: id, ..old(self)@ }),
            final(self)@.wf(),
    {
        self.current = id;
    }

    /// The record of the current window, the fallback target for events
    /// that carry no identity.
    pub fn current_record(&self) -> (rec: WindowRecord)
        requires
            self@.wf(),
        ensures
            rec == self@.record_of(self@.current),
            rec.id == self@.current,
    {
        let i = self.index_of(self.current);
        self.records[i]
    }

    /// Adds the record of a freshly opened window under a fresh
    /// identity. The focus pointer is unchanged.
    pub fn insert(&mut self, record: WindowRecord)
        requires
            old(self)@.wf(),
            record.wf(),
            !old(self)@.contains(record.id),
        ensures
            final(self)@.records == old(self)@.records.push(record),
            final(self)@.current == old(self)@.current,
            final(self)@.wf(),
    {
        self.records.push(record);
        proof {
            let n = self.records@.len() as int;
            assert forall|i: int, j: int|
                0 <= i < j < n implies self.records@[i].id != self.records@[j].id by {
                if j < n - 1 {
                    assert(old(self).records@[i].id != old(self).records@[j].id);
                } else {
                    if self.records@[i].id == record.id {
                        assert(old(self).records@[i].id == record.id);
                    }
                }
            }
            let w = seq_index_of(old(self).records@, old(self).current);
            assert(self.records@[w].id == self.current);
        }
    }

    /// Replaces the record stored under its identity. The focus pointer
    /// is unchanged.
    pub fn update_record(&mut self, rec: WindowRecord)
        requires
            old(self)@.wf(),
            rec.wf(),
            old(self)@.contains(rec.id),
        ensures
            final(self)@.records == old(self)@.records.update(old(self)@.index_of(rec.id), rec),
            final(self)@.current == old(self)@.current,
            final(self)@.wf(),
    {
        let i = self.index_of(rec.id);
        self.records.set(i, rec);
        proof {
            let n = self.records@.len() as int;
            assert forall|p: int, q: int|
                0 <= p < q < n implies self.records@[p].id != self.records@[q].id by {
                assert(old(self).records@[p].id != old(self).records@[q].id);
            }
            let w = seq_index_of(old(self).records@, old(self).current);
            assert(self.records@[w].id == self.current);
            assert forall|k: int| 0 <= k < n implies self.records@[k].wf() by {
                if k != i as int {
                    assert(old(self).records@[k].wf());
                }
            }
        }
    }
}

/// Two indices holding the same identity are the same index, when
/// identities are unique.
pub proof fn lemma_unique_index(s: Seq<WindowRecord>, i: int, j: int)
    requires
        seq_ids_unique(s),
        0 <= i < s.len(),
        0 <= j < s.len(),
        s[i].id == s[j].id,
    ensures
        i == j,
{
    if i < j {
        assert(s[i].id != s[j].id);
    } else if j < i {
        assert(s[j].id != s[i].id);
    }
}

/// After the focus pointer is set to an identity present in the
/// registry, the current record is the record stored under exactly that
/// identity.
pub proof fn lemma_current_after_set_current(m: RegistryModel, id: u64)
    requires
        m.wf(),
        m.contains(id),
    ensures
        (RegistryModel { current: id, ..m }).wf(),
        (RegistryModel { current: id, ..m }).record_of((RegistryModel { current: id, ..m }).current)
            == m.record_of(id),
        m.record_of(id).id == id,
{
    let m2 = RegistryModel { current: id, ..m };
    assert(m2.records == m.records);
    let w = seq_index_of(m.records, id);
    assert(m.records[w].id == id);
}

} // verus!
