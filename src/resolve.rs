use vstd::prelude::*;

use crate::config::{ConfigView, FieldType, QueryConfig};
use crate::data::{all_well_formed, same_record, Animal, AnimalLike, Database, FieldValue};
use crate::schema::{list_field, name_field, name_field_string, AnimalLikeConfig};

verus! {

/// Why a field of a record could not be resolved.
#[derive(Clone, Copy, Debug, PartialEq, Eq, Structural)]
pub enum ResolveError {
    /// The record's kind is not configured.
    UnknownKind,
    /// The field is not declared on the record's concrete type.
    UnknownField,
    /// The stored value's tag differs from the field's declared type.
    TypeMismatch,
}

/// Dispatching a record tagged `kind`: the declared fields of its concrete
/// type, or an error when the kind is not configured.
pub open spec fn dispatch(c: ConfigView, kind: Seq<char>) -> Result<
    Map<Seq<char>, FieldType>,
    ResolveError,
> {
    if c.contains_key(kind) {
        Ok(c[kind])
    } else {
        Err(ResolveError::UnknownKind)
    }
}

/// The value's tag is the one that the declared type asks for.
pub open spec fn value_matches(v: FieldValue, t: FieldType) -> bool {
    match v {
        FieldValue::String(_) => t == FieldType::String,
        FieldValue::Number(_) => t == FieldType::Number,
    }
}

/// Reading the field `f` of the record `a` through a concrete type that
/// declares the fields `declared`: the shared field reads the record's name;
/// an undeclared field is an error; a declared field absent from the record
/// reads as no value; a present one reads as its value when its tag matches.
pub open spec fn field_outcome(declared: Map<Seq<char>, FieldType>, a: Animal, f: Seq<char>) -> Result<
    Option<FieldValue>,
    ResolveError,
> {
    if f == name_field() {
        Ok(Some(FieldValue::String(a.name)))
    } else if !declared.contains_key(f) {
        Err(ResolveError::UnknownField)
    } else if !a.fields@.contains_key(f) {
        Ok(None)
    } else if value_matches(a.fields@[f], declared[f]) {
        Ok(Some(a.fields@[f]))
    } else {
        Err(ResolveError::TypeMismatch)
    }
}

/// Dispatching the record `a` by its kind under `c`, then reading `f`.
pub open spec fn record_outcome(c: ConfigView, a: Animal, f: Seq<char>) -> Result<
    Option<FieldValue>,
    ResolveError,
> {
    match dispatch(c, a.kind@) {
        Ok(declared) => field_outcome(declared, a, f),
        Err(e) => Err(e),
    }
}

/// Reading `f` on each record of a listing, each record on its own.
pub open spec fn listing_outcome(c: ConfigView, records: Seq<Animal>, f: Seq<char>) -> Seq<
    Result<Option<FieldValue>, ResolveError>,
> {
    records.map_values(|a: Animal| record_outcome(c, a, f))
}

impl Animal {
    /// The name of the concrete type this record dispatches to: its kind.
    pub fn concrete_type_name(&self) -> (r: String)
        ensures
            r@ == self.kind@,
    {
        self.kind.clone()
    }

    /// Reads a field through the shared interface, which declares only the
    /// shared field.
    pub fn resolve_field(&self, field_name: &String) -> (r: Result<FieldValue, ResolveError>)
        ensures
            r == if field_name@ == name_field() {
                Ok::<FieldValue, ResolveError>(FieldValue::String(self.name))
            } else {
                Err(ResolveError::UnknownField)
            },
    {
        if *field_name == name_field_string() {
            Ok(FieldValue::String(self.name.clone()))
        } else {
            Err(ResolveError::UnknownField)
        }
    }

    /// Dispatches the record to its concrete type by its kind tag.
    pub fn resolve_into_type<'a>(&self, info: &'a QueryConfig) -> (r: Result<
        AnimalLikeConfig<'a>,
        ResolveError,
    >)
        requires
            info.wf(),
        ensures
            match r {
                Ok(t) => {
                    &&& dispatch(info@, self.kind@) == Ok::<
                        Map<Seq<char>, FieldType>,
                        ResolveError,
                    >(t.current.fields@)
                    &&& t.current.kind@ == self.kind@
                    &&& t.current.wf()
                    &&& t.config == info
                },
                Err(e) => dispatch(info@, self.kind@) == Err::<
                    Map<Seq<char>, FieldType>,
                    ResolveError,
                >(e),
            },
    {
        match info.get(&self.kind) {
            Some(current) => Ok(AnimalLikeConfig { current, config: info }),
            None => Err(ResolveError::UnknownKind),
        }
    }
}

impl<'a> AnimalLike<'a> {
    /// Reads a field of the record through its concrete type.
    pub fn resolve_field(&self, info: &AnimalLikeConfig, field_name: &String) -> (r: Result<
        Option<FieldValue>,
        ResolveError,
    >)
        requires
            info.current.wf(),
            self.data.wf(),
        ensures
            r == field_outcome(info.current.fields@, *self.data, field_name@),
    {
        if *field_name == name_field_string() {
            return Ok(Some(FieldValue::String(self.data.name.clone())));
        }
        match info.current.fields.get(field_name) {
            None => Err(ResolveError::UnknownField),
            Some(declared) => match self.data.fields.get(field_name) {
                None => Ok(None),
                Some(value) => {
                    let matches = match value {
                        FieldValue::String(_) => *declared == FieldType::String,
                        FieldValue::Number(_) => *declared == FieldType::Number,
                    };
                    if matches {
                        Ok(Some(value.copy()))
                    } else {
                        Err(ResolveError::TypeMismatch)
                    }
                },
            },
        }
    }
}

/// Dispatches the record `a` under `config` and reads `field_name`.
pub fn resolve_record(config: &QueryConfig, a: &Animal, field_name: &String) -> (r: Result<
    Option<FieldValue>,
    ResolveError,
>)
    requires
        config.wf(),
        a.wf(),
    ensures
        r == record_outcome(config@, *a, field_name@),
{
    match a.resolve_into_type(config) {
        Ok(info) => AnimalLike { data: a }.resolve_field(&info, field_name),
        Err(e) => Err(e),
    }
}

/// The single entry point of queries.
pub struct QueryRoot;

impl QueryRoot {
    /// Resolves a root field: the list field gives a snapshot of the
    /// store's records; any other field gives nothing.
    pub fn resolve_field(&self, database: &Database, field_name: &String) -> (r: Option<
        Vec<Animal>,
    >)
        ensures
            r is Some <==> field_name@ == list_field(),
            r matches Some(v) ==> {
                &&& all_well_formed(v@)
                &&& database.initial().len() <= v@.len()
                &&& forall|j: int|
                    0 <= j < database.initial().len() ==> same_record(
                        #[trigger] v@[j],
                        database.initial()[j],
                    )
            },
    {
        if *field_name == String::from_str("animals") {
            Some(database.list_records())
        } else {
            None
        }
    }

    /// Reads `field_name` on every record of a listing. Each record is
    /// dispatched and resolved on its own, so a failure stays with the record
    /// that caused it.
    pub fn resolve_listing(config: &QueryConfig, records: &Vec<Animal>, field_name: &String) -> (r:
        Vec<Result<Option<FieldValue>, ResolveError>>)
        requires
            config.wf(),
            all_well_formed(records@),
        ensures
            r@ == listing_outcome(config@, records@, field_name@),
    {
        let mut out: Vec<Result<Option<FieldValue>, ResolveError>> = Vec::new();
        let n = records.len();
        let mut i: usize = 0;
        while i < n
            invariant
                config.wf(),
                all_well_formed(records@),
                n == records@.len(),
                i <= n,
                out@ == listing_outcome(config@, records@.subrange(0, i as int), field_name@),
            decreases n - i,
        {
            let outcome = resolve_record(config, &records[i], field_name);
            out.push(outcome);
            i = i + 1;
            assert(out@ =~= listing_outcome(
                config@,
                records@.subrange(0, i as int),
                field_name@,
            ));
        }
        assert(records@.subrange(0, n as int) =~= records@);
        out
    }
}

} // verus!
