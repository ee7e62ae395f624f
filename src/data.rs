use vstd::prelude::*;
use vstd::rwlock::{RwLock, RwLockPredicate};

use crate::table::{entries_map, Table};

verus! {

/// The value of one field on one record.
#[derive(Debug, PartialEq, Eq)]
pub enum FieldValue {
    String(String),
    Number(i32),
}

impl FieldValue {
    /// A copy of the value.
    pub fn copy(&self) -> (r: Self)
        ensures
            r == *self,
    {
        match self {
            FieldValue::String(s) => FieldValue::String(s.clone()),
            FieldValue::Number(n) => FieldValue::Number(*n),
        }
    }
}

/// One record: its name, the kind it is tagged with, and its field values.
pub struct Animal {
    pub name: String,
    pub kind: String,
    pub fields: Table<FieldValue>,
}

impl Animal {
    /// Field names are unique.
    pub open spec fn wf(&self) -> bool {
        self.fields.wf()
    }

    /// A record with no field values yet.
    pub fn new(name: String, kind: String) -> (r: Self)
        ensures
            r.wf(),
            r.name == name,
            r.kind == kind,
            r.fields@ == Map::<Seq<char>, FieldValue>::empty(),
    {
        Animal { name, kind, fields: Table::new() }
    }

    /// Sets the field `name` to `value`.
    pub fn set_field(&mut self, name: String, value: FieldValue)
        requires
            old(self).wf(),
        ensures
            final(self).wf(),
            final(self).name == old(self).name,
            final(self).kind == old(self).kind,
            final(self).fields@ == old(self).fields@.insert(name@, value),
    {
        self.fields.insert(name, value);
    }

    /// A field-for-field copy.
    pub fn copy(&self) -> (r: Self)
        ensures
            r.name == self.name,
            r.kind == self.kind,
            r.fields.entries@ == self.fields.entries@,
            r.fields@ == self.fields@,
            r.wf() == self.wf(),
    {
        let mut entries: Vec<(String, FieldValue)> = Vec::new();
        let n = self.fields.entries.len();
        let mut i: usize = 0;
        while i < n
            invariant
                n == self.fields.entries@.len(),
                i <= n,
                entries@ == self.fields.entries@.subrange(0, i as int),
            decreases n - i,
        {
            let key = self.fields.entries[i].0.clone();
            let value = self.fields.entries[i].1.copy();
            entries.push((key, value));
            i = i + 1;
            assert(entries@ =~= self.fields.entries@.subrange(0, i as int));
        }
        assert(entries@ =~= self.fields.entries@);
        Animal { name: self.name.clone(), kind: self.kind.clone(), fields: Table { entries } }
    }
}

/// A record seen through the shared interface.
pub struct AnimalLike<'a> {
    pub data: &'a Animal,
}

/// The invariant of the record store: every record it holds is well formed,
/// and the records it was created with stay first, in their order, since
/// records are only ever appended.
pub struct StoreInvariant {
    pub initial: Seq<Animal>,
}

impl RwLockPredicate<Vec<Animal>> for StoreInvariant {
    open spec fn inv(self, v: Vec<Animal>) -> bool {
        &&& all_well_formed(v@)
        &&& self.initial.len() <= v@.len()
        &&& forall|j: int| 0 <= j < self.initial.len() ==> #[trigger] v@[j] == self.initial[j]
    }
}

/// `a` is a copy of `b`: the same name, kind and field entries.
pub open spec fn same_record(a: Animal, b: Animal) -> bool {
    &&& a.name == b.name
    &&& a.kind == b.kind
    &&& a.fields.entries@ == b.fields.entries@
}

/// Every record of `s` is well formed.
pub open spec fn all_well_formed(s: Seq<Animal>) -> bool {
    forall|i: int| 0 <= i < s.len() ==> (#[trigger] s[i]).wf()
}

/// The record store: a growable sequence of records behind a
/// reader-writer lock, shared by concurrent readers.
pub struct Database {
    pub animals: RwLock<Vec<Animal>, StoreInvariant>,
}

impl Database {
    /// The records the store was created with.
    pub open spec fn initial(&self) -> Seq<Animal> {
        self.animals.pred().initial
    }

    /// A store holding `records`, in their order.
    pub fn new(records: Vec<Animal>) -> (r: Self)
        requires
            all_well_formed(records@),
        ensures
            r.initial() == records@,
    {
        let ghost initial = records@;
        Database { animals: RwLock::new(records, Ghost(StoreInvariant { initial })) }
    }

    /// Appends a record under the exclusive lock. The record is complete
    /// before the lock is taken, so no reader sees it half built.
    pub fn append(&self, record: Animal)
        requires
            record.wf(),
    {
        let (mut records, handle) = self.animals.acquire_write();
        records.push(record);
        handle.release_write(records);
    }

    /// A snapshot of the records in insertion order, copied under the shared
    /// lock; the lock is released before the snapshot is handed out, so
    /// later appends do not change it. It starts with copies of the records
    /// the store was created with, followed by those appended since.
    pub fn list_records(&self) -> (r: Vec<Animal>)
        ensures
            all_well_formed(r@),
            self.initial().len() <= r@.len(),
            forall|j: int|
                0 <= j < self.initial().len() ==> same_record(#[trigger] r@[j], self.initial()[j]),
    {
        let handle = self.animals.acquire_read();
        let records = handle.borrow();
        let n = records.len();
        let mut snapshot: Vec<Animal> = Vec::new();
        let mut i: usize = 0;
        while i < n
            invariant
                n == records@.len(),
                i <= n,
                self.animals.inv(*records),
                snapshot@.len() == i,
                forall|j: int|
                    0 <= j < i ==> {
                        &&& (#[trigger] snapshot@[j]).name == records@[j].name
                        &&& snapshot@[j].kind == records@[j].kind
                        &&& snapshot@[j].fields.entries@ == records@[j].fields.entries@
                    },
                all_well_formed(snapshot@),
            decreases n - i,
        {
            let record = records[i].copy();
            snapshot.push(record);
            i = i + 1;
        }
        handle.release_read();
        snapshot
    }
}

} // verus!
