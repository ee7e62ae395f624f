use vstd::prelude::*;

use crate::config::{ConfigView, FieldType, QueryConfig};
use crate::data::{Animal, FieldValue};
use crate::resolve::{
    dispatch, listing_outcome, record_outcome, value_matches, ResolveError,
};
use crate::schema::{
    interface_name, kind_type_shape, name_field, names_unique, object_fields, register, scalar_of,
    schema_shape_of, shapes_map, Schema, ScalarKind, TypeShape,
};

verus! {

/// A schema generated from a configuration holds, for every configured kind,
/// exactly one concrete type named after the kind; that type implements the
/// shared interface, and its fields are the shared field together with the
/// kind's declared fields, each with the scalar kind of its declared type.
pub proof fn lemma_schema_covers_every_kind(schema: Schema, config: QueryConfig, k: Seq<char>)
    requires
        config.wf(),
        names_unique(schema.type_shapes()),
        schema.shape() == schema_shape_of(config@),
        config@.contains_key(k),
    ensures
        exists|i: int|
            0 <= i < schema.type_shapes().len() && #[trigger] schema.type_shapes()[i]
                == kind_type_shape(k, config@[k]),
        forall|i: int, j: int|
            0 <= i < schema.type_shapes().len() && 0 <= j < schema.type_shapes().len()
                && #[trigger] schema.type_shapes()[i].name == k
                && #[trigger] schema.type_shapes()[j].name == k ==> i == j,
        kind_type_shape(k, config@[k]).interfaces == seq![interface_name()],
        kind_type_shape(k, config@[k]).fields.contains_key(name_field()),
        kind_type_shape(k, config@[k]).fields[name_field()] == ScalarKind::Text,
        forall|f: Seq<char>|
            #![trigger config@[k].contains_key(f)]
            f != name_field() ==> (kind_type_shape(k, config@[k]).fields.contains_key(f)
                <==> config@[k].contains_key(f)),
        forall|f: Seq<char>|
            f != name_field() && #[trigger] config@[k].contains_key(f) ==> kind_type_shape(
                k,
                config@[k],
            ).fields[f] == scalar_of(config@[k][f]),
        schema.shape().interface.implementers.contains(k),
{
    let s = schema.type_shapes();
    assert(shapes_map(s).contains_key(k));
    let i = choose|i: int| 0 <= i < s.len() && #[trigger] s[i].name == k;
    let j = crate::schema::type_index(s, k);
    assert(s[j].name == k);
    assert(schema.shape().types == shapes_map(s));
    assert(schema_shape_of(config@).types[k] == kind_type_shape(k, config@[k]));
    assert(shapes_map(s)[k] == s[j]);
    assert(s[j] == kind_type_shape(k, config@[k]));
}

/// Registering a kind a second time in one build hands back the handle of
/// the first registration and leaves the registry as it was: the kind keeps
/// one type, whatever fields the second request names.
pub proof fn lemma_register_idempotent(
    s: Seq<TypeShape>,
    kind: Seq<char>,
    first: Map<Seq<char>, FieldType>,
    second: Map<Seq<char>, FieldType>,
)
    requires
        names_unique(s),
    ensures
        names_unique(register(s, kind, first).0),
        register(register(s, kind, first).0, kind, second).0 == register(s, kind, first).0,
        register(register(s, kind, first).0, kind, second).1 == register(s, kind, first).1,
        register(s, kind, first).0[register(s, kind, first).1].name == kind,
        forall|i: int|
            0 <= i < register(s, kind, first).0.len() && #[trigger] register(
                s,
                kind,
                first,
            ).0[i].name == kind ==> i == register(s, kind, first).1,
{
    let (s1, h1) = register(s, kind, first);
    if crate::schema::has_type(s, kind) {
        let i = choose|i: int| 0 <= i < s.len() && #[trigger] s[i].name == kind;
        assert(s[h1].name == kind);
    } else {
        assert(s1[s.len() as int].name == kind);
        assert forall|a: int, b: int|
            #![trigger s1[a], s1[b]]
            0 <= a < s1.len() && 0 <= b < s1.len() && s1[a].name == s1[b].name implies a == b by {
            if a < s.len() && b < s.len() {
                assert(s[a] == s1[a] && s[b] == s1[b]);
            } else if a < s.len() {
                assert(s[a].name == kind);
            } else if b < s.len() {
                assert(s[b].name == kind);
            }
        }
        assert(crate::schema::has_type(s1, kind));
        let j = crate::schema::type_index(s1, kind);
        assert(s1[j].name == kind);
    }
}

/// A record whose kind is configured dispatches to the concrete type of that
/// kind, and its shared field reads as the record's name whatever the kind.
pub proof fn lemma_dispatch_by_kind(config: ConfigView, a: Animal)
    requires
        config.contains_key(a.kind@),
    ensures
        dispatch(config, a.kind@) == Ok::<Map<Seq<char>, FieldType>, ResolveError>(
            config[a.kind@],
        ),
        schema_shape_of(config).types[a.kind@] == kind_type_shape(a.kind@, config[a.kind@]),
        schema_shape_of(config).types[a.kind@].name == a.kind@,
        record_outcome(config, a, name_field()) == Ok::<Option<FieldValue>, ResolveError>(
            Some(FieldValue::String(a.name)),
        ),
{
}

/// A declared field (other than the shared one) of a dispatched record reads
/// as the stored value when the record holds it with the declared type's tag,
/// and as an explicit absence when the record does not hold it.
pub proof fn lemma_declared_field_resolution(config: ConfigView, a: Animal, f: Seq<char>)
    requires
        config.contains_key(a.kind@),
        config[a.kind@].contains_key(f),
        f != name_field(),
    ensures
        a.fields@.contains_key(f) && value_matches(a.fields@[f], config[a.kind@][f])
            ==> record_outcome(config, a, f) == Ok::<Option<FieldValue>, ResolveError>(
            Some(a.fields@[f]),
        ),
        !a.fields@.contains_key(f) ==> record_outcome(config, a, f) == Ok::<
            Option<FieldValue>,
            ResolveError,
        >(None),
        record_outcome(config, a, f) is Ok || record_outcome(config, a, f) == Err::<
            Option<FieldValue>,
            ResolveError,
        >(ResolveError::TypeMismatch),
        record_outcome(config, a, f) matches Ok(Some(v)) ==> value_matches(v, config[a.kind@][f]),
{
}

/// In a listing, a record whose kind is not configured fails with the
/// unknown-kind error, and the outcome of every other record is its own: it
/// stays the same whatever record stands in the failing one's place.
pub proof fn lemma_unknown_kind_is_isolated(
    config: ConfigView,
    records: Seq<Animal>,
    i: int,
    other: Animal,
    f: Seq<char>,
)
    requires
        0 <= i < records.len(),
        !config.contains_key(records[i].kind@),
    ensures
        listing_outcome(config, records, f)[i] == Err::<Option<FieldValue>, ResolveError>(
            ResolveError::UnknownKind,
        ),
        listing_outcome(config, records, f).len() == records.len(),
        forall|j: int|
            0 <= j < records.len() && j != i ==> #[trigger] listing_outcome(config, records, f)[j]
                == listing_outcome(config, records.update(i, other), f)[j],
        forall|j: int|
            0 <= j < records.len() ==> #[trigger] listing_outcome(config, records, f)[j]
                == record_outcome(config, records[j], f),
{
}

/// Schemas built from equal configurations have the same shape: the same
/// type names, field sets and scalar kinds.
pub proof fn lemma_build_depends_on_config_only(first: QueryConfig, second: QueryConfig)
    requires
        first@ == second@,
    ensures
        schema_shape_of(first@) == schema_shape_of(second@),
{
}

} // verus!
