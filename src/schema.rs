use vstd::prelude::*;

use crate::config::{AnimalConfig, ConfigView, FieldType, QueryConfig};
use crate::table::{entries_map, keys_unique, lemma_entry_in_map, lemma_prefix_step, Table};

verus! {

/// The scalar kinds that fields expose: text or a 32-bit integer.
#[derive(Clone, Copy, Debug, PartialEq, Eq, Structural)]
pub enum ScalarKind {
    Text,
    Int32,
}

/// The scalar kind that a declared field type is exposed as.
pub open spec fn scalar_of(t: FieldType) -> ScalarKind {
    match t {
        FieldType::String => ScalarKind::Text,
        FieldType::Number => ScalarKind::Int32,
    }
}

/// The scalar kind that a declared field type is exposed as.
pub fn scalar_kind(t: FieldType) -> (r: ScalarKind)
    ensures
        r == scalar_of(t),
{
    match t {
        FieldType::String => ScalarKind::Text,
        FieldType::Number => ScalarKind::Int32,
    }
}

/// The field that every kind shares.
pub open spec fn name_field() -> Seq<char> {
    "name"@
}

/// The name of the shared interface.
pub open spec fn interface_name() -> Seq<char> {
    "Animal"@
}

/// The name of the query root type.
pub open spec fn query_name() -> Seq<char> {
    "Query"@
}

/// The query root's one field: the list of all records.
pub open spec fn list_field() -> Seq<char> {
    "animals"@
}

/// The name of the shared field, as a string.
pub fn name_field_string() -> (r: String)
    ensures
        r@ == name_field(),
{
    String::from_str("name")
}

/// The interface's fields: the shared ones.
pub open spec fn interface_fields() -> Map<Seq<char>, ScalarKind> {
    map![name_field() => ScalarKind::Text]
}

/// The fields of a concrete type: the shared field, and every declared field
/// with its scalar kind. A declared field that reuses the shared field's name
/// is shadowed by it.
pub open spec fn object_fields(f: Map<Seq<char>, FieldType>) -> Map<Seq<char>, ScalarKind> {
    Map::new(
        |n: Seq<char>| n == name_field() || f.contains_key(n),
        |n: Seq<char>|
            if n == name_field() {
                ScalarKind::Text
            } else {
                scalar_of(f[n])
            },
    )
}

/// The shape of a concrete object type: its name, fields and interfaces.
pub struct TypeShape {
    pub name: Seq<char>,
    pub fields: Map<Seq<char>, ScalarKind>,
    pub interfaces: Seq<Seq<char>>,
}

/// The shape of the concrete type generated for the kind `kind` with the
/// declared fields `f`.
pub open spec fn kind_type_shape(kind: Seq<char>, f: Map<Seq<char>, FieldType>) -> TypeShape {
    TypeShape { name: kind, fields: object_fields(f), interfaces: seq![interface_name()] }
}

/// A concrete object type: one per configured kind.
pub struct ObjectType {
    pub name: String,
    pub fields: Table<ScalarKind>,
    pub interfaces: Vec<String>,
}

impl View for ObjectType {
    type V = TypeShape;

    open spec fn view(&self) -> TypeShape {
        TypeShape {
            name: self.name@,
            fields: self.fields@,
            interfaces: self.interfaces@.map_values(|s: String| s@),
        }
    }
}

/// The context of one concrete type: its kind's schema, and the
/// configuration snapshot it belongs to.
pub struct AnimalLikeConfig<'a> {
    pub current: &'a AnimalConfig,
    pub config: &'a QueryConfig,
}

impl<'a> AnimalLikeConfig<'a> {
    /// The type's name: its kind.
    pub fn name(&self) -> (r: String)
        ensures
            r@ == self.current.kind@,
    {
        self.current.kind.clone()
    }

    /// Builds the concrete type of this kind: named after the kind, with the
    /// shared field and the kind's declared fields, implementing the
    /// interface.
    pub fn meta(&self) -> (r: ObjectType)
        requires
            self.current.wf(),
        ensures
            r.fields.wf(),
            r@ == kind_type_shape(self.current.kind@, self.current.fields@),
    {
        let shared = name_field_string();
        let mut fields: Table<ScalarKind> = Table::new();
        fields.insert(name_field_string(), ScalarKind::Text);
        let entries = &self.current.fields.entries;
        let n = entries.len();
        let mut i: usize = 0;
        proof {
            assert(entries@.subrange(0, 0) =~= Seq::<(String, FieldType)>::empty());
            assert(entries_map(entries@.subrange(0, 0)) =~= Map::<
                Seq<char>,
                FieldType,
            >::empty());
            assert(fields@ =~= object_fields(entries_map(entries@.subrange(0, 0))));
        }
        while i < n
            invariant
                n == entries@.len(),
                i <= n,
                keys_unique(entries@),
                shared@ == name_field(),
                fields.wf(),
                fields@ == object_fields(entries_map(entries@.subrange(0, i as int))),
            decreases n - i,
        {
            proof {
                lemma_prefix_step(entries@, i as int);
            }
            let ghost before = entries_map(entries@.subrange(0, i as int));
            if !(entries[i].0 == shared) {
                fields.insert(entries[i].0.clone(), scalar_kind(entries[i].1));
            }
            i = i + 1;
            assert(fields@ =~= object_fields(before.insert(entries@[i - 1].0@, entries@[i - 1].1)));
        }
        assert(entries@.subrange(0, n as int) =~= entries@);
        let mut interfaces: Vec<String> = Vec::new();
        interfaces.push(String::from_str("Animal"));
        let r = ObjectType { name: self.current.kind.clone(), fields, interfaces };
        assert(r@.interfaces =~= seq![interface_name()]);
        r
    }
}

/// No two shapes share a name.
pub open spec fn names_unique(s: Seq<TypeShape>) -> bool {
    forall|i: int, j: int|
        #![trigger s[i], s[j]]
        0 <= i < s.len() && 0 <= j < s.len() && s[i].name == s[j].name ==> i == j
}

/// Some shape is named `k`.
pub open spec fn has_type(s: Seq<TypeShape>, k: Seq<char>) -> bool {
    exists|i: int| 0 <= i < s.len() && #[trigger] s[i].name == k
}

/// The position of a shape named `k`.
pub open spec fn type_index(s: Seq<TypeShape>, k: Seq<char>) -> int {
    choose|i: int| 0 <= i < s.len() && #[trigger] s[i].name == k
}

/// Registering the kind `kind` with fields `f` in a registry holding `s`:
/// the registry afterwards, and the handle of the kind's type. A kind already
/// registered keeps its type; a new one gets a new type at the end.
pub open spec fn register(s: Seq<TypeShape>, kind: Seq<char>, f: Map<Seq<char>, FieldType>) -> (
    Seq<TypeShape>,
    int,
) {
    if has_type(s, kind) {
        (s, type_index(s, kind))
    } else {
        (s.push(kind_type_shape(kind, f)), s.len() as int)
    }
}

/// The per-build memo of concrete types, keyed by kind: each kind is built
/// and registered at most once.
pub struct FieldRegistry {
    pub types: Vec<ObjectType>,
}

impl FieldRegistry {
    /// The shapes of the registered types, in registration order.
    pub open spec fn shapes(&self) -> Seq<TypeShape> {
        self.types@.map_values(|t: ObjectType| t@)
    }

    /// Type names are unique and each type's fields are well formed.
    pub open spec fn wf(&self) -> bool {
        &&& names_unique(self.shapes())
        &&& forall|i: int| 0 <= i < self.types@.len() ==> (#[trigger] self.types@[i]).fields.wf()
    }

    /// An empty registry.
    pub fn new() -> (r: Self)
        ensures
            r.wf(),
            r.shapes() == Seq::<TypeShape>::empty(),
    {
        let r = FieldRegistry { types: Vec::new() };
        assert(r.shapes() =~= Seq::<TypeShape>::empty());
        r
    }

    /// The handle of the kind's type, building and registering the type only
    /// if the kind has none yet.
    pub fn get_or_register(&mut self, info: &AnimalLikeConfig) -> (h: usize)
        requires
            old(self).wf(),
            info.current.wf(),
        ensures
            final(self).wf(),
            (final(self).shapes(), h as int) == register(
                old(self).shapes(),
                info.current.kind@,
                info.current.fields@,
            ),
    {
        let ghost s = self.shapes();
        let n = self.types.len();
        let mut i: usize = 0;
        while i < n
            invariant
                n == self.types@.len(),
                s == self.shapes(),
                s == old(self).shapes(),
                self.wf(),
                i <= n,
                forall|j: int| 0 <= j < i ==> #[trigger] s[j].name != info.current.kind@,
            decreases n - i,
        {
            if self.types[i].name == info.current.kind {
                proof {
                    assert(s[i as int].name == info.current.kind@);
                    let j = type_index(s, info.current.kind@);
                    assert(s[j].name == info.current.kind@);
                }
                return i;
            }
            i = i + 1;
        }
        let t = info.meta();
        self.types.push(t);
        proof {
            assert(self.shapes() =~= s.push(kind_type_shape(info.current.kind@, info.current.fields@)));
            let t2 = self.shapes();
            assert forall|a: int, b: int|
                #![trigger t2[a], t2[b]]
                0 <= a < t2.len() && 0 <= b < t2.len() && t2[a].name == t2[b].name implies a
                == b by {
                if a < n && b < n {
                    assert(s[a] == t2[a] && s[b] == t2[b]);
                }
            }
        }
        n
    }
}

/// The shape of the shared interface.
pub struct InterfaceShape {
    pub name: Seq<char>,
    pub fields: Map<Seq<char>, ScalarKind>,
    pub implementers: Set<Seq<char>>,
}

/// The shared interface: its fields and the names of its implementers.
pub struct InterfaceType {
    pub name: String,
    pub fields: Table<ScalarKind>,
    pub implementers: Vec<String>,
}

impl View for InterfaceType {
    type V = InterfaceShape;

    open spec fn view(&self) -> InterfaceShape {
        InterfaceShape {
            name: self.name@,
            fields: self.fields@,
            implementers: Set::new(
                |n: Seq<char>|
                    exists|i: int|
                        0 <= i < self.implementers@.len() && #[trigger] self.implementers@[i]@
                            == n,
            ),
        }
    }
}

/// Concrete types by name.
pub open spec fn shapes_map(s: Seq<TypeShape>) -> Map<Seq<char>, TypeShape> {
    Map::new(|n: Seq<char>| has_type(s, n), |n: Seq<char>| s[type_index(s, n)])
}

/// The shape of a generated schema.
pub struct SchemaShape {
    pub query: Seq<char>,
    pub list_field: Seq<char>,
    pub interface: InterfaceShape,
    pub types: Map<Seq<char>, TypeShape>,
}

/// The shape of the schema generated from the configuration `c`: a query
/// root listing records of the shared interface, implemented by exactly one
/// concrete type per configured kind.
pub open spec fn schema_shape_of(c: ConfigView) -> SchemaShape {
    SchemaShape {
        query: query_name(),
        list_field: list_field(),
        interface: InterfaceShape {
            name: interface_name(),
            fields: interface_fields(),
            implementers: c.dom(),
        },
        types: Map::new(|k: Seq<char>| c.contains_key(k), |k: Seq<char>| kind_type_shape(k, c[k])),
    }
}

/// One generated schema: the query root, the shared interface, the concrete
/// types, and the configuration snapshot they were built from.
pub struct Schema {
    pub query_name: String,
    pub list_field: String,
    pub interface: InterfaceType,
    pub types: Vec<ObjectType>,
    pub context: QueryConfig,
}

impl Schema {
    /// The shapes of the concrete types, in the order they were registered.
    pub open spec fn type_shapes(&self) -> Seq<TypeShape> {
        self.types@.map_values(|t: ObjectType| t@)
    }

    /// The schema's shape.
    pub open spec fn shape(&self) -> SchemaShape {
        SchemaShape {
            query: self.query_name@,
            list_field: self.list_field@,
            interface: self.interface@,
            types: shapes_map(self.type_shapes()),
        }
    }
}

/// Builds schemas from a configuration.
pub struct SchemaGenerator {
    pub animals: QueryConfig,
}

impl SchemaGenerator {
    /// A generator with an empty configuration.
    pub fn new() -> (r: Self)
        ensures
            r.animals.wf(),
            r.animals@ == ConfigView::empty(),
    {
        SchemaGenerator { animals: QueryConfig::new() }
    }

    /// Sets the configuration that schemas are built from.
    pub fn with_config(&mut self, config: QueryConfig) -> (r: &mut Self)
        ensures
            r.animals == config,
            *final(self) == *final(r),
    {
        self.animals = config;
        self
    }

    /// Builds one schema from a copy of the configuration, with a fresh
    /// registry, so that no state is shared between builds.
    pub fn generate(&self) -> (r: Schema)
        requires
            self.animals.wf(),
        ensures
            r.context.wf(),
            r.context@ == self.animals@,
            names_unique(r.type_shapes()),
            r.shape() == schema_shape_of(self.animals@),
    {
        let context = self.animals.copy();
        let ghost entries = context.animals.entries@;
        let mut registry = FieldRegistry::new();
        let mut implementers: Vec<String> = Vec::new();
        let n = context.animals.entries.len();
        let mut i: usize = 0;
        while i < n
            invariant
                context.wf(),
                entries == context.animals.entries@,
                n == entries.len(),
                i <= n,
                registry.wf(),
                registry.shapes().len() == i,
                forall|j: int|
                    0 <= j < i ==> #[trigger] registry.shapes()[j] == kind_type_shape(
                        entries[j].0@,
                        entries[j].1.fields@,
                    ),
                implementers@.len() == i,
                forall|j: int| 0 <= j < i ==> #[trigger] implementers@[j]@ == entries[j].0@,
            decreases n - i,
        {
            let info = AnimalLikeConfig {
                current: &context.animals.entries[i].1,
                config: &context,
            };
            proof {
                let s = registry.shapes();
                if has_type(s, entries[i as int].0@) {
                    let j = choose|j: int| 0 <= j < s.len() && #[trigger] s[j].name == entries[i as int].0@;
                    assert(entries[j].0@ == entries[i as int].0@);
                }
            }
            let _ = registry.get_or_register(&info);
            implementers.push(context.animals.entries[i].0.clone());
            i = i + 1;
        }
        let mut interface_fields_table: Table<ScalarKind> = Table::new();
        interface_fields_table.insert(name_field_string(), ScalarKind::Text);
        let interface = InterfaceType {
            name: String::from_str("Animal"),
            fields: interface_fields_table,
            implementers,
        };
        let ghost c = self.animals@;
        let ghost shapes = registry.shapes();
        proof {
            assert(interface@.fields =~= interface_fields());
            assert forall|k: Seq<char>| #[trigger] interface@.implementers.contains(k) == c.contains_key(k) by {
                if c.contains_key(k) {
                    let j = choose|j: int| 0 <= j < entries.len() && #[trigger] entries[j].0@ == k;
                    assert(interface.implementers@[j]@ == k);
                }
                if interface@.implementers.contains(k) {
                    let j = choose|j: int|
                        0 <= j < interface.implementers@.len() && #[trigger] interface.implementers@[j]@ == k;
                    assert(entries[j].0@ == k);
                }
            }
            assert(interface@.implementers =~= c.dom());
            let want = schema_shape_of(c).types;
            assert forall|k: Seq<char>| #[trigger] shapes_map(shapes).contains_key(k) == want.contains_key(k) by {
                if c.contains_key(k) {
                    let j = choose|j: int| 0 <= j < entries.len() && #[trigger] entries[j].0@ == k;
                    assert(shapes[j].name == k);
                }
                if has_type(shapes, k) {
                    let j = choose|j: int| 0 <= j < shapes.len() && #[trigger] shapes[j].name == k;
                    assert(entries[j].0@ == k);
                }
            }
            assert forall|k: Seq<char>| #[trigger] shapes_map(shapes).contains_key(k) implies shapes_map(shapes)[k] == want[k] by {
                let j = type_index(shapes, k);
                assert(shapes[j].name == k);
                lemma_entry_in_map(entries, j);
            }
            assert(shapes_map(shapes) =~= want);
        }
        Schema {
            query_name: String::from_str("Query"),
            list_field: String::from_str("animals"),
            interface,
            types: registry.types,
            context,
        }
    }
}

} // verus!
