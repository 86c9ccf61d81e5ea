//! Association tables keyed by field elements.
//!
//! A table is a list of records read from the newest end: the record written
//! last for a key is the one that counts. Its meaning is a finite map.

use vstd::prelude::*;
use crate::felt::Felt;

verus! {

/// One record of a table keyed by a single field element.
#[derive(Clone, Debug, PartialEq, Eq)]
pub struct Record<V> {
    pub key: Felt,
    pub value: V,
}

/// The map that a list of records denotes: later records override earlier ones.
pub open spec fn records_map<V>(s: Seq<Record<V>>) -> Map<Felt, V>
    decreases s.len(),
{
    if s.len() == 0 {
        Map::empty()
    } else {
        records_map(s.drop_last()).insert(s.last().key, s.last().value)
    }
}

/// Records behind position `i` that do not carry `key` do not change what
/// the list says about `key`.
pub proof fn lemma_records_skip_tail<V>(s: Seq<Record<V>>, key: Felt, i: int)
    requires
        0 <= i <= s.len(),
        forall|j: int| i <= j < s.len() ==> s[j].key != key,
    ensures
        records_map(s).contains_key(key) <==> records_map(s.take(i)).contains_key(key),
        records_map(s).contains_key(key) ==> records_map(s)[key] == records_map(s.take(i))[key],
    decreases s.len() - i,
{
    if i == s.len() {
        assert(s.take(i) =~= s);
    } else {
        let front = s.drop_last();
        assert(front.take(i) =~= s.take(i));
        lemma_records_skip_tail(front, key, i);
    }
}

/// A table from field elements to values.
#[derive(Clone, Debug, PartialEq, Eq)]
pub struct FeltTable<V> {
    pub records: Vec<Record<V>>,
}

impl<V> View for FeltTable<V> {
    type V = Map<Felt, V>;

    open spec fn view(&self) -> Map<Felt, V> {
        records_map(self.records@)
    }
}

impl<V> FeltTable<V> {
    /// The empty table.
    pub fn new() -> (t: Self)
        ensures
            t@ == Map::<Felt, V>::empty(),
    {
        FeltTable { records: Vec::new() }
    }

    /// The value recorded for `key`, if there is one.
    pub fn get(&self, key: &Felt) -> (r: Option<&V>)
        ensures
            r.is_some() <==> self@.contains_key(*key),
            r.is_some() ==> *r.unwrap() == self@[*key],
    {
        let mut i: usize = self.records.len();
        while i > 0
            invariant
                i <= self.records.len(),
                forall|j: int| i <= j < self.records.len() ==> self.records@[j].key != *key,
            decreases i,
        {
            i = i - 1;
            if self.records[i].key == *key {
                proof {
                    lemma_records_skip_tail(self.records@, *key, i + 1);
                    assert(self.records@.take(i + 1).drop_last() =~= self.records@.take(i as int));
                }
                return Some(&self.records[i].value);
            }
        }
        proof {
            lemma_records_skip_tail(self.records@, *key, 0);
        }
        None
    }

    /// Records `value` for `key`, overriding what was recorded before.
    pub fn set(&mut self, key: Felt, value: V)
        ensures
            final(self)@ == old(self)@.insert(key, value),
    {
        self.records.push(Record { key, value });
        proof {
            assert(self.records@.drop_last() =~= old(self).records@);
        }
    }
}

/// The pair that names a storage cell.
#[derive(Clone, Copy, Debug, PartialEq, Eq, Structural, Hash)]
pub struct CellKey {
    pub address: Felt,
    pub key: Felt,
}

/// One storage write: a cell and the value written to it.
#[derive(Clone, Copy, Debug, PartialEq, Eq, Structural, Hash)]
pub struct CellWrite {
    pub address: Felt,
    pub key: Felt,
    pub value: Felt,
}

impl CellWrite {
    /// The cell that the write goes to.
    pub open spec fn cell(self) -> CellKey {
        CellKey { address: self.address, key: self.key }
    }
}

/// The map that a list of writes denotes: later writes override earlier ones.
pub open spec fn writes_map(s: Seq<CellWrite>) -> Map<CellKey, Felt>
    decreases s.len(),
{
    if s.len() == 0 {
        Map::empty()
    } else {
        writes_map(s.drop_last()).insert(s.last().cell(), s.last().value)
    }
}

/// Writes behind position `i` that go to other cells do not change what the
/// list says about `cell`.
pub proof fn lemma_writes_skip_tail(s: Seq<CellWrite>, cell: CellKey, i: int)
    requires
        0 <= i <= s.len(),
        forall|j: int| i <= j < s.len() ==> s[j].cell() != cell,
    ensures
        writes_map(s).contains_key(cell) <==> writes_map(s.take(i)).contains_key(cell),
        writes_map(s).contains_key(cell) ==> writes_map(s)[cell] == writes_map(s.take(i))[cell],
    decreases s.len() - i,
{
    if i == s.len() {
        assert(s.take(i) =~= s);
    } else {
        let front = s.drop_last();
        assert(front.take(i) =~= s.take(i));
        lemma_writes_skip_tail(front, cell, i);
    }
}

/// A table from storage cells to values.
#[derive(Clone, Debug, PartialEq, Eq)]
pub struct StorageTable {
    pub writes: Vec<CellWrite>,
}

impl View for StorageTable {
    type V = Map<CellKey, Felt>;

    open spec fn view(&self) -> Map<CellKey, Felt> {
        writes_map(self.writes@)
    }
}

impl StorageTable {
    /// The empty table.
    pub fn new() -> (t: Self)
        ensures
            t@ == Map::<CellKey, Felt>::empty(),
    {
        StorageTable { writes: Vec::new() }
    }

    /// The value recorded for the cell `(address, key)`, if there is one.
    pub fn get(&self, address: &Felt, key: &Felt) -> (r: Option<Felt>)
        ensures
            r == (if self@.contains_key(CellKey { address: *address, key: *key }) {
                Some(self@[CellKey { address: *address, key: *key }])
            } else {
                None
            }),
    {
        let ghost cell = CellKey { address: *address, key: *key };
        let mut i: usize = self.writes.len();
        while i > 0
            invariant
                i <= self.writes.len(),
                cell == (CellKey { address: *address, key: *key }),
                forall|j: int| i <= j < self.writes.len() ==> self.writes@[j].cell() != cell,
            decreases i,
        {
            i = i - 1;
            if self.writes[i].address == *address && self.writes[i].key == *key {
                proof {
                    lemma_writes_skip_tail(self.writes@, cell, i + 1);
                    assert(self.writes@.take(i + 1).drop_last() =~= self.writes@.take(i as int));
                }
                return Some(self.writes[i].value);
            }
        }
        proof {
            lemma_writes_skip_tail(self.writes@, cell, 0);
        }
        None
    }

    /// Records `value` for the cell `(address, key)`, overriding what was
    /// recorded before.
    pub fn set(&mut self, address: Felt, key: Felt, value: Felt)
        ensures
            final(self)@ == old(self)@.insert(CellKey { address, key }, value),
    {
        self.writes.push(CellWrite { address, key, value });
        proof {
            assert(self.writes@.drop_last() =~= old(self).writes@);
        }
    }
}

} // verus!
