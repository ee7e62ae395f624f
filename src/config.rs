use vstd::prelude::*;

use crate::table::{entries_map, lemma_entry_in_map, Table};

verus! {

/// The declared shape of one named field of a kind.
#[derive(Clone, Copy, Debug, PartialEq, Eq, Structural)]
pub enum FieldType {
    String,
    Number,
}

/// The field schema of one kind: the kind's name and its named, typed fields.
pub struct AnimalConfig {
    pub kind: String,
    pub fields: Table<FieldType>,
}

/// What a configuration says: each kind mapped to its declared fields.
pub type ConfigView = Map<Seq<char>, Map<Seq<char>, FieldType>>;

impl AnimalConfig {
    /// Field names are unique.
    pub open spec fn wf(&self) -> bool {
        self.fields.wf()
    }

    /// A kind with no declared fields yet.
    pub fn new(kind: String) -> (r: Self)
        ensures
            r.wf(),
            r.kind == kind,
            r.fields@ == Map::<Seq<char>, FieldType>::empty(),
    {
        AnimalConfig { kind, fields: Table::new() }
    }

    /// Declares the field `name` with type `field_type`, replacing an earlier
    /// declaration of the same name.
    pub fn add_field(&mut self, name: String, field_type: FieldType)
        requires
            old(self).wf(),
        ensures
            final(self).wf(),
            final(self).kind == old(self).kind,
            final(self).fields@ == old(self).fields@.insert(name@, field_type),
    {
        self.fields.insert(name, field_type);
    }

    /// A field-for-field copy.
    pub fn copy(&self) -> (r: Self)
        ensures
            r.kind == self.kind,
            r.fields.entries@ == self.fields.entries@,
    {
        AnimalConfig { kind: self.kind.clone(), fields: self.fields.copy() }
    }
}

/// A configuration snapshot: every configured kind keyed by its name.
pub struct QueryConfig {
    pub animals: Table<AnimalConfig>,
}

impl QueryConfig {
    /// Kinds are unique, each kind's schema is well formed, and each is keyed
    /// by its own kind name.
    pub open spec fn wf(&self) -> bool {
        &&& self.animals.wf()
        &&& forall|i: int|
            0 <= i < self.animals.entries@.len() ==> {
                &&& (#[trigger] self.animals.entries@[i]).1.wf()
                &&& self.animals.entries@[i].1.kind@ == self.animals.entries@[i].0@
            }
    }

    /// The kinds and their declared fields.
    pub open spec fn view(&self) -> ConfigView {
        Map::new(
            |k: Seq<char>| self.animals@.contains_key(k),
            |k: Seq<char>| self.animals@[k].fields@,
        )
    }

    /// A configuration without kinds.
    pub fn new() -> (r: Self)
        ensures
            r.wf(),
            r@ == ConfigView::empty(),
    {
        let r = QueryConfig { animals: Table::new() };
        assert(r@ =~= ConfigView::empty());
        r
    }

    /// Adds the kind `config.kind`, replacing an earlier schema of that kind.
    pub fn add(&mut self, config: AnimalConfig)
        requires
            old(self).wf(),
            config.wf(),
        ensures
            final(self).wf(),
            final(self)@ == old(self)@.insert(config.kind@, config.fields@),
    {
        let ghost kind = config.kind@;
        let ghost fields = config.fields@;
        let key = config.kind.clone();
        self.animals.insert(key, config);
        assert(self@ =~= old(self)@.insert(kind, fields));
    }

    /// The schema of `kind`, if it is configured.
    pub fn get(&self, kind: &String) -> (r: Option<&AnimalConfig>)
        requires
            self.wf(),
        ensures
            match r {
                Some(c) => {
                    &&& self@.contains_key(kind@)
                    &&& c.wf()
                    &&& c.kind@ == kind@
                    &&& c.fields@ == self@[kind@]
                },
                None => !self@.contains_key(kind@),
            },
    {
        match self.animals.find(kind) {
            Some(i) => {
                proof {
                    lemma_entry_in_map(self.animals.entries@, i as int);
                }
                Some(&self.animals.entries[i].1)
            },
            None => None,
        }
    }

    /// A kind-for-kind copy.
    pub fn copy(&self) -> (r: Self)
        requires
            self.wf(),
        ensures
            r.wf(),
            r@ == self@,
            r.animals.entries@.len() == self.animals.entries@.len(),
            forall|i: int|
                0 <= i < r.animals.entries@.len() ==> {
                    &&& (#[trigger] r.animals.entries@[i]).0 == self.animals.entries@[i].0
                    &&& r.animals.entries@[i].1.kind == self.animals.entries@[i].1.kind
                    &&& r.animals.entries@[i].1.fields.entries@
                        == self.animals.entries@[i].1.fields.entries@
                },
    {
        let mut entries: Vec<(String, AnimalConfig)> = Vec::new();
        let n = self.animals.entries.len();
        let mut i: usize = 0;
        while i < n
            invariant
                self.wf(),
                n == self.animals.entries@.len(),
                i <= n,
                entries@.len() == i,
                forall|j: int|
                    0 <= j < i ==> {
                        &&& (#[trigger] entries@[j]).0 == self.animals.entries@[j].0
                        &&& entries@[j].1.kind == self.animals.entries@[j].1.kind
                        &&& entries@[j].1.fields.entries@
                            == self.animals.entries@[j].1.fields.entries@
                    },
            decreases n - i,
        {
            let key = self.animals.entries[i].0.clone();
            let value = self.animals.entries[i].1.copy();
            entries.push((key, value));
            i = i + 1;
        }
        let r = QueryConfig { animals: Table { entries } };
        let ghost s = self.animals.entries@;
        let ghost t = r.animals.entries@;
        assert forall|a: int, b: int|
            #![trigger t[a], t[b]]
            0 <= a < t.len() && 0 <= b < t.len() && t[a].0@ == t[b].0@ implies a == b by {
            assert(s[a].0@ == s[b].0@);
        }
        assert forall|k: Seq<char>| #[trigger] r@.contains_key(k) == self@.contains_key(k) by {
            if r@.contains_key(k) {
                let j = choose|j: int| 0 <= j < t.len() && #[trigger] t[j].0@ == k;
                assert(s[j].0@ == k);
            }
            if self@.contains_key(k) {
                let j = choose|j: int| 0 <= j < s.len() && #[trigger] s[j].0@ == k;
                assert(t[j].0@ == k);
            }
        }
        assert forall|k: Seq<char>| #[trigger] r@.contains_key(k) implies r@[k] == self@[k] by {
            let j = choose|j: int| 0 <= j < t.len() && #[trigger] t[j].0@ == k;
            lemma_entry_in_map(t, j);
            lemma_entry_in_map(s, j);
            assert(t[j].1.fields@ == s[j].1.fields@);
        }
        assert(r@ =~= self@);
        r
    }
}

/// The source of the configuration: the kinds that records may carry.
pub struct ConfigProvider;

impl ConfigProvider {
    /// The standard catalogue: `Cat` with a text `fur`, `Dog` with a text
    /// `breed`, `Elephant` with a numeric `age`.
    pub fn generate() -> (r: QueryConfig)
        ensures
            r.wf(),
            r@ == standard_config(),
    {
        let mut cat_config = AnimalConfig::new(String::from_str("Cat"));
        cat_config.add_field(String::from_str("fur"), FieldType::String);

        let mut dog_config = AnimalConfig::new(String::from_str("Dog"));
        dog_config.add_field(String::from_str("breed"), FieldType::String);

        let mut elephant_config = AnimalConfig::new(String::from_str("Elephant"));
        elephant_config.add_field(String::from_str("age"), FieldType::Number);

        let mut config = QueryConfig::new();
        config.add(cat_config);
        config.add(dog_config);
        config.add(elephant_config);
        proof {
            assert(config@ =~= standard_config());
        }
        config
    }
}

/// The standard catalogue as a mapping.
pub open spec fn standard_config() -> ConfigView {
    map![
        "Cat"@ => map!["fur"@ => FieldType::String],
        "Dog"@ => map!["breed"@ => FieldType::String],
        "Elephant"@ => map!["age"@ => FieldType::Number],
    ]
}

} // verus!
