//! A schema generator that turns a runtime catalogue of record kinds into
//! concrete object types sharing one interface, and resolves typed field
//! reads on dynamically shaped records against it.

mod config;
mod data;
mod fixtures;
mod laws;
mod resolve;
mod schema;
mod table;

pub use config::{
    standard_config, AnimalConfig, ConfigProvider, ConfigView, FieldType, QueryConfig,
};
pub use data::{
    all_well_formed, same_record, Animal, AnimalLike, Database, FieldValue, StoreInvariant,
};
pub use fixtures::{
    cat, decimal, digit_char, dog, elephant, fixture_kind, fixture_name, generate_animals,
    is_fixture, text_value,
};
pub use laws::{
    lemma_build_depends_on_config_only, lemma_declared_field_resolution, lemma_dispatch_by_kind,
    lemma_register_idempotent, lemma_schema_covers_every_kind, lemma_unknown_kind_is_isolated,
};
pub use resolve::{
    dispatch, field_outcome, listing_outcome, record_outcome, resolve_record, value_matches,
    QueryRoot, ResolveError,
};
pub use schema::{
    interface_fields, interface_name, kind_type_shape, list_field, name_field, name_field_string,
    names_unique, object_fields, query_name, register, scalar_kind, scalar_of, schema_shape_of,
    shapes_map, AnimalLikeConfig, FieldRegistry, InterfaceShape, InterfaceType, ObjectType,
    ScalarKind, Schema, SchemaGenerator, SchemaShape, TypeShape,
};
pub use table::Table;
