//! An association list with unique keys, the storage behind the keyed
//! material store.
use vstd::prelude::*;

use crate::tx::TxId;

verus! {

/// A value that can be copied with its view kept.
pub trait Duplicate: View + Sized {
    fn duplicate(&self) -> (r: Self)
        ensures
            r@ == self@;
}

/// The key of a stored record: an operator, a transaction and an index within
/// it (an input index, or zero where the record is per transaction).
#[derive(Clone, Copy, Debug)]
pub struct RecordKey {
    pub operator: u32,
    pub txid: TxId,
    pub index: u32,
}

impl View for RecordKey {
    type V = (u32, Seq<u8>, u32);

    open spec fn view(&self) -> (u32, Seq<u8>, u32) {
        (self.operator, self.txid@, self.index)
    }
}

impl RecordKey {
    pub fn same_as(&self, other: &RecordKey) -> (r: bool)
        ensures
            r == (self@ == other@),
    {
        self.operator == other.operator && self.index == other.index && self.txid.same_as(&other.txid)
    }
}

/// Records stored under unique keys. A `Vec` with that invariant stands in
/// for std's maps: vstd's `HashMap` specification holds only for key types
/// that obey its key model (`obeys_key_model`), which vstd grants to
/// primitive integers and `bool` alone, and a key holding a 32-byte
/// identifier could only be admitted by an assumption.
#[derive(Debug)]
pub struct Registry<V> {
    entries: Vec<(RecordKey, V)>,
}

pub open spec fn entries_map<V: View>(s: Seq<(RecordKey, V)>) -> Map<(u32, Seq<u8>, u32), V::V>
    decreases s.len(),
{
    if s.len() == 0 {
        Map::empty()
    } else {
        entries_map(s.drop_last()).insert(s.last().0@, s.last().1@)
    }
}

pub open spec fn keys_unique<V>(s: Seq<(RecordKey, V)>) -> bool {
    forall|i: int, j: int| 0 <= i < j < s.len() ==> (#[trigger] s[i]).0@ != (#[trigger] s[j]).0@
}

proof fn lemma_absent<V: View>(s: Seq<(RecordKey, V)>, k: (u32, Seq<u8>, u32))
    requires
        forall|i: int| 0 <= i < s.len() ==> (#[trigger] s[i]).0@ != k,
    ensures
        !entries_map(s).contains_key(k),
    decreases s.len(),
{
    if s.len() > 0 {
        let t = s.drop_last();
        assert forall|i: int| 0 <= i < t.len() implies (#[trigger] t[i]).0@ != k by {
            assert(t[i] == s[i]);
        }
        lemma_absent(t, k);
    }
}

proof fn lemma_present<V: View>(s: Seq<(RecordKey, V)>, i: int)
    requires
        keys_unique(s),
        0 <= i < s.len(),
    ensures
        entries_map(s).contains_key(s[i].0@),
        entries_map(s)[s[i].0@] == s[i].1@,
    decreases s.len(),
{
    let t = s.drop_last();
    if i < s.len() - 1 {
        assert(keys_unique(t)) by {
            assert forall|a: int, b: int| 0 <= a < b < t.len() implies (#[trigger] t[a]).0@ != (#[trigger] t[b]).0@ by {
                assert(t[a] == s[a] && t[b] == s[b]);
            }
        }
        assert(t[i] == s[i]);
        lemma_present(t, i);
        assert(s[i].0@ != s[s.len() - 1].0@);
    }
}

impl<V: Duplicate> View for Registry<V> {
    type V = Map<(u32, Seq<u8>, u32), V::V>;

    closed spec fn view(&self) -> Self::V {
        entries_map(self.entries@)
    }
}

/// Why a record could not be stored or read.
#[derive(Clone, Copy, Debug, PartialEq, Eq, Structural)]
pub enum StoreError {
    /// A record is already stored under the key; it is kept as it was.
    AlreadyExists,
    /// No record is stored under the key.
    NotFound,
}

impl<V: Duplicate> Registry<V> {
    pub closed spec fn wf(&self) -> bool {
        keys_unique(self.entries@)
    }

    pub fn new() -> (r: Self)
        ensures
            r.wf(),
            r@ == Map::<(u32, Seq<u8>, u32), V::V>::empty(),
    {
        Registry { entries: Vec::new() }
    }

    fn find(&self, k: &RecordKey) -> (r: Option<usize>)
        requires
            self.wf(),
        ensures
            r matches Some(i) ==> i < self.entries@.len() && self.entries@[i as int].0@ == k@,
            r is None ==> !self@.contains_key(k@),
    {
        let mut i: usize = 0;
        while i < self.entries.len()
            invariant
                i <= self.entries@.len(),
                forall|j: int| 0 <= j < i ==> (#[trigger] self.entries@[j]).0@ != k@,
            decreases self.entries@.len() - i,
        {
            if self.entries[i].0.same_as(k) {
                return Some(i);
            }
            i = i + 1;
        }
        proof {
            lemma_absent(self.entries@, k@);
        }
        None
    }

    /// A copy of the record under `k`.
    pub fn get(&self, k: &RecordKey) -> (r: Result<V, StoreError>)
        requires
            self.wf(),
        ensures
            self@.contains_key(k@) ==> (r matches Ok(v) && v@ == self@[k@]),
            !self@.contains_key(k@) ==> r matches Err(StoreError::NotFound),
    {
        match self.find(k) {
            Some(i) => {
                proof {
                    lemma_present(self.entries@, i as int);
                }
                Ok(self.entries[i].1.duplicate())
            },
            None => Err(StoreError::NotFound),
        }
    }

    /// Stores `v` under `k` unless a record is there already.
    pub fn insert_new(&mut self, k: RecordKey, v: V) -> (r: Result<(), StoreError>)
        requires
            old(self).wf(),
        ensures
            final(self).wf(),
            old(self)@.contains_key(k@) ==> (r matches Err(StoreError::AlreadyExists) && final(self)@ == old(self)@),
            !old(self)@.contains_key(k@) ==> r is Ok && final(self)@ == old(self)@.insert(k@, v@),
    {
        match self.find(&k) {
            Some(i) => {
                proof {
                    lemma_present(self.entries@, i as int);
                }
                Err(StoreError::AlreadyExists)
            },
            None => {
                proof {
                    assert forall|j: int| 0 <= j < self.entries@.len() implies (#[trigger] self.entries@[j]).0@ != k@ by {
                        if self.entries@[j].0@ == k@ {
                            lemma_present(self.entries@, j);
                        }
                    }
                }
                let ghost s = self.entries@;
                self.entries.push((k, v));
                proof {
                    assert(self.entries@.drop_last() =~= s);
                }
                Ok(())
            },
        }
    }
}

} // verus!
