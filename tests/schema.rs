use animal_schema::{
    cat, dog, elephant, generate_animals, Animal, AnimalConfig, AnimalLike, AnimalLikeConfig,
    ConfigProvider, Database, FieldRegistry, FieldType, FieldValue, ObjectType, QueryConfig,
    QueryRoot, ResolveError, ScalarKind, Schema, SchemaGenerator, Table,
};

fn s(text: &str) -> String {
    text.to_string()
}

fn record(name: &str, kind: &str, fields: Vec<(&str, FieldValue)>) -> Animal {
    let mut a = Animal::new(s(name), s(kind));
    for (field, value) in fields {
        a.set_field(s(field), value);
    }
    a
}

fn example_records() -> Vec<Animal> {
    vec![
        record("Whiskers", "Cat", vec![("fur", FieldValue::String(s("long")))]),
        record("Rex", "Dog", vec![("breed", FieldValue::String(s("Retriever")))]),
        record("Dumbo", "Elephant", vec![("age", FieldValue::Number(5))]),
    ]
}

fn build(config: QueryConfig) -> Schema {
    let mut generator = SchemaGenerator::new();
    generator.with_config(config);
    generator.generate()
}

fn find_type<'a>(schema: &'a Schema, name: &str) -> Vec<&'a ObjectType> {
    schema.types.iter().filter(|t| t.name == name).collect()
}

fn field_kind(t: &ObjectType, field: &str) -> Option<ScalarKind> {
    t.fields.get(&s(field)).copied()
}

fn read(config: &QueryConfig, a: &Animal, field: &str) -> Result<Option<FieldValue>, ResolveError> {
    animal_schema::resolve_record(config, a, &s(field))
}

#[test]
fn example_scenario_resolves_each_record() {
    let config = ConfigProvider::generate();
    let database = Database::new(example_records());
    let listed = QueryRoot.resolve_field(&database, &s("animals")).unwrap();
    assert_eq!(listed.len(), 3);
    let names: Vec<_> = listed
        .iter()
        .map(|a| read(&config, a, "name").unwrap().unwrap())
        .collect();
    assert_eq!(
        names,
        vec![
            FieldValue::String(s("Whiskers")),
            FieldValue::String(s("Rex")),
            FieldValue::String(s("Dumbo")),
        ]
    );
    assert_eq!(read(&config, &listed[0], "fur"), Ok(Some(FieldValue::String(s("long")))));
    assert_eq!(read(&config, &listed[1], "breed"), Ok(Some(FieldValue::String(s("Retriever")))));
    assert_eq!(read(&config, &listed[2], "age"), Ok(Some(FieldValue::Number(5))));
    assert_eq!(read(&config, &listed[1], "fur"), Err(ResolveError::UnknownField));
}

#[test]
fn standard_config_has_three_kinds() {
    let config = ConfigProvider::generate();
    assert_eq!(config.animals.len(), 3);
    let elephant = config.get(&s("Elephant")).unwrap();
    assert_eq!(elephant.fields.get(&s("age")), Some(&FieldType::Number));
    let cat = config.get(&s("Cat")).unwrap();
    assert_eq!(cat.fields.get(&s("fur")), Some(&FieldType::String));
    assert!(config.get(&s("Horse")).is_none());
}

#[test]
fn schema_has_one_type_per_kind() {
    let schema = build(ConfigProvider::generate());
    assert_eq!(schema.types.len(), 3);
    for kind in ["Cat", "Dog", "Elephant"] {
        let found = find_type(&schema, kind);
        assert_eq!(found.len(), 1);
        assert_eq!(found[0].interfaces, vec![s("Animal")]);
        assert_eq!(field_kind(found[0], "name"), Some(ScalarKind::Text));
        assert_eq!(found[0].fields.len(), 2);
    }
    assert_eq!(field_kind(find_type(&schema, "Cat")[0], "fur"), Some(ScalarKind::Text));
    assert_eq!(field_kind(find_type(&schema, "Dog")[0], "breed"), Some(ScalarKind::Text));
    assert_eq!(field_kind(find_type(&schema, "Elephant")[0], "age"), Some(ScalarKind::Int32));
    assert_eq!(field_kind(find_type(&schema, "Dog")[0], "fur"), None);
    assert_eq!(schema.interface.name, "Animal");
    assert_eq!(schema.interface.implementers.len(), 3);
    assert_eq!(schema.interface.fields.get(&s("name")), Some(&ScalarKind::Text));
    assert_eq!(schema.query_name, "Query");
    assert_eq!(schema.list_field, "animals");
    assert_eq!(schema.context.animals.len(), 3);
}

#[test]
fn empty_config_gives_no_concrete_types() {
    let schema = build(QueryConfig::new());
    assert!(schema.types.is_empty());
    assert!(schema.interface.implementers.is_empty());
    let a = record("Ghost", "Cat", vec![]);
    assert_eq!(read(&schema.context, &a, "name"), Err(ResolveError::UnknownKind));
}

#[test]
fn shared_field_name_is_shadowed() {
    let mut kind = AnimalConfig::new(s("Owl"));
    kind.add_field(s("name"), FieldType::Number);
    kind.add_field(s("wingspan"), FieldType::Number);
    let mut config = QueryConfig::new();
    config.add(kind);
    let schema = build(config);
    let owl = find_type(&schema, "Owl")[0];
    assert_eq!(owl.fields.len(), 2);
    assert_eq!(field_kind(owl, "name"), Some(ScalarKind::Text));
    let a = record("Hedwig", "Owl", vec![("name", FieldValue::Number(3))]);
    assert_eq!(read(&schema.context, &a, "name"), Ok(Some(FieldValue::String(s("Hedwig")))));
}

#[test]
fn registering_a_kind_twice_gives_one_type() {
    let config = ConfigProvider::generate();
    let dog_config = config.get(&s("Dog")).unwrap();
    let cat_config = config.get(&s("Cat")).unwrap();
    let mut registry = FieldRegistry::new();
    let first = registry.get_or_register(&AnimalLikeConfig { current: dog_config, config: &config });
    let other = registry.get_or_register(&AnimalLikeConfig { current: cat_config, config: &config });
    let second = registry.get_or_register(&AnimalLikeConfig { current: dog_config, config: &config });
    assert_eq!(first, 0);
    assert_eq!(other, 1);
    assert_eq!(second, first);
    assert_eq!(registry.types.len(), 2);
    assert_eq!(registry.types[0].name, "Dog");
}

#[test]
fn dispatch_follows_the_kind_tag() {
    let config = ConfigProvider::generate();
    // Same shape as a cat, but tagged as a dog.
    let a = record("Impostor", "Dog", vec![("fur", FieldValue::String(s("short")))]);
    let info = a.resolve_into_type(&config).ok().unwrap();
    assert_eq!(info.name(), "Dog");
    assert_eq!(a.concrete_type_name(), "Dog");
    let node = AnimalLike { data: &a };
    assert_eq!(node.resolve_field(&info, &s("fur")), Err(ResolveError::UnknownField));
    assert_eq!(node.resolve_field(&info, &s("breed")), Ok(None));
    assert_eq!(node.resolve_field(&info, &s("name")), Ok(Some(FieldValue::String(s("Impostor")))));
}

#[test]
fn interface_reads_only_the_shared_field() {
    let a = record("Rex", "Dog", vec![("breed", FieldValue::String(s("Retriever")))]);
    assert_eq!(a.resolve_field(&s("name")), Ok(FieldValue::String(s("Rex"))));
    assert_eq!(a.resolve_field(&s("breed")), Err(ResolveError::UnknownField));
}

#[test]
fn missing_field_reads_as_absent() {
    let config = ConfigProvider::generate();
    let a = record("Tom", "Cat", vec![]);
    assert_eq!(read(&config, &a, "fur"), Ok(None));
}

#[test]
fn mismatched_value_is_a_typed_error() {
    let config = ConfigProvider::generate();
    let a = record("Jumbo", "Elephant", vec![("age", FieldValue::String(s("old")))]);
    assert_eq!(read(&config, &a, "age"), Err(ResolveError::TypeMismatch));
}

#[test]
fn unknown_kind_fails_only_its_own_record() {
    let config = ConfigProvider::generate();
    let mut records = example_records();
    records.insert(1, record("Nemo", "Fish", vec![]));
    let outcomes = QueryRoot::resolve_listing(&config, &records, &s("name"));
    assert_eq!(outcomes.len(), 4);
    assert_eq!(outcomes[0], Ok(Some(FieldValue::String(s("Whiskers")))));
    assert_eq!(outcomes[1], Err(ResolveError::UnknownKind));
    assert_eq!(outcomes[2], Ok(Some(FieldValue::String(s("Rex")))));
    assert_eq!(outcomes[3], Ok(Some(FieldValue::String(s("Dumbo")))));
    let a = &records[1];
    assert!(matches!(a.resolve_into_type(&config), Err(ResolveError::UnknownKind)));
}

#[test]
fn snapshot_is_not_changed_by_later_appends() {
    let database = Database::new(example_records());
    let snapshot = database.list_records();
    database.append(record("Garfield", "Cat", vec![("fur", FieldValue::String(s("short")))]));
    assert_eq!(snapshot.len(), 3);
    let after = database.list_records();
    assert_eq!(after.len(), 4);
    assert_eq!(after[3].name, "Garfield");
    assert_eq!(after[0].name, "Whiskers");
}

#[test]
fn root_lists_only_through_its_field() {
    let database = Database::new(example_records());
    assert!(QueryRoot.resolve_field(&database, &s("animals")).is_some());
    assert!(QueryRoot.resolve_field(&database, &s("plants")).is_none());
}

#[test]
fn building_twice_gives_equal_shapes() {
    let first = build(ConfigProvider::generate());
    let second = build(ConfigProvider::generate());
    assert_eq!(first.types.len(), second.types.len());
    for (a, b) in first.types.iter().zip(second.types.iter()) {
        assert_eq!(a.name, b.name);
        assert_eq!(a.interfaces, b.interfaces);
        assert_eq!(a.fields.entries, b.fields.entries);
    }
    assert_eq!(first.interface.implementers, second.interface.implementers);
}

#[test]
fn fixtures_are_named_by_kind_and_index() {
    let d = dog(3, &s("Dog"));
    assert_eq!(d.name, "Dog 3");
    assert_eq!(d.fields.get(&s("breed")), Some(&FieldValue::String(s("Retriever"))));
    let c = cat(12, &s("Cat"));
    assert_eq!(c.name, "Cat 12");
    assert_eq!(c.fields.get(&s("fur")), Some(&FieldValue::String(s("long"))));
    let e = elephant(105, &s("Elephant"));
    assert_eq!(e.name, "Elephant 105");
    assert_eq!(e.fields.get(&s("age")), Some(&FieldValue::Number(105)));
}

#[test]
fn generate_animals_splits_the_amount_between_kinds() {
    let kinds = vec![s("Cat"), s("Dog"), s("Elephant")];
    let animals = generate_animals(&kinds, 10);
    assert_eq!(animals.len(), 9);
    assert_eq!(animals[0].name, "Cat 0");
    assert_eq!(animals[3].name, "Dog 0");
    assert_eq!(animals[8].name, "Elephant 2");
    assert_eq!(animals[8].fields.get(&s("age")), Some(&FieldValue::Number(2)));
    let config = ConfigProvider::generate();
    for a in &animals {
        assert!(read(&config, a, "name").is_ok());
    }
    assert!(generate_animals(&kinds, 2).is_empty());
}

#[test]
fn table_insert_replaces_and_keeps_order() {
    let mut t: Table<u8> = Table::new();
    t.insert(s("b"), 1);
    t.insert(s("a"), 2);
    t.insert(s("b"), 3);
    assert_eq!(t.len(), 2);
    assert_eq!(t.get(&s("b")), Some(&3));
    assert_eq!(t.entries[0].0, "b");
    assert_eq!(t.find(&s("a")), Some(1));
    assert_eq!(t.find(&s("c")), None);
}
