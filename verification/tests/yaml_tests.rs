use archr_core::io::yaml::{
    check_schema, model_to_yaml, parse_yaml, schema_error_message, SchemaError, YamlElement, YamlModel,
    YamlRelationship,
};
use archr_core::model::{ElementKind, Model, RelationKind, ViewpointDefinition, ViewpointKind};
use archr_core::report::{schema_exit_code, schema_failure_message, schema_report};
use serde_yaml::{Mapping, Value};

// ---------------------------------------------------------------------------
// YAML text <-> document, as the command line reads and writes it
// ---------------------------------------------------------------------------

fn text(v: &Value) -> String {
    match v {
        Value::String(s) => s.clone(),
        Value::Null => String::new(),
        other => serde_yaml::to_string(other).unwrap().trim_end().to_string(),
    }
}

fn field(m: &Value, key: &str) -> String {
    m.get(key).map(text).unwrap_or_default()
}

fn list(m: &Value, key: &str) -> Vec<Value> {
    match m.get(key) {
        Some(Value::Sequence(s)) => s.clone(),
        _ => Vec::new(),
    }
}

fn doc(yaml: &str) -> YamlModel {
    let root: Value = serde_yaml::from_str(yaml).expect("well-formed YAML");
    let model = root.get("model").expect("a model key").clone();
    YamlModel {
        name: field(&model, "name"),
        elements: list(&model, "elements")
            .iter()
            .map(|e| YamlElement { id: field(e, "id"), name: field(e, "name"), kind: field(e, "kind") })
            .collect(),
        relationships: list(&model, "relationships")
            .iter()
            .map(|r| YamlRelationship {
                id: field(r, "id"),
                source: field(r, "source"),
                target: field(r, "target"),
                kind: field(r, "kind"),
            })
            .collect(),
        viewpoints: list(&model, "viewpoints")
            .iter()
            .map(|v| ViewpointDefinition {
                id: field(v, "id"),
                name: field(v, "name"),
                kind: ViewpointKind::from_viewpoint_name(&field(v, "kind")).expect("a viewpoint kind"),
                elements: list(v, "elements").iter().map(text).collect(),
                relationships: list(v, "relationships").iter().map(text).collect(),
            })
            .collect(),
    }
}

fn entry(pairs: Vec<(&str, Value)>) -> Value {
    let mut m = Mapping::new();
    for (k, v) in pairs {
        m.insert(Value::String(k.to_string()), v);
    }
    Value::Mapping(m)
}

fn s(v: &str) -> Value {
    Value::String(v.to_string())
}

fn yaml_text(d: &YamlModel) -> String {
    let elements = d
        .elements
        .iter()
        .map(|e| entry(vec![("id", s(&e.id)), ("name", s(&e.name)), ("kind", s(&e.kind))]))
        .collect();
    let relationships = d
        .relationships
        .iter()
        .map(|r| entry(vec![("id", s(&r.id)), ("source", s(&r.source)), ("target", s(&r.target)), ("kind", s(&r.kind))]))
        .collect();
    let viewpoints = d
        .viewpoints
        .iter()
        .map(|v| {
            entry(vec![
                ("id", s(&v.id)),
                ("name", s(&v.name)),
                ("kind", s(v.kind.as_viewpoint_name())),
                ("elements", Value::Sequence(v.elements.iter().map(|x| s(x)).collect())),
                ("relationships", Value::Sequence(v.relationships.iter().map(|x| s(x)).collect())),
            ])
        })
        .collect();
    let inner = entry(vec![
        ("name", s(&d.name)),
        ("elements", Value::Sequence(elements)),
        ("relationships", Value::Sequence(relationships)),
        ("viewpoints", Value::Sequence(viewpoints)),
    ]);
    serde_yaml::to_string(&entry(vec![("model", inner)])).unwrap()
}

fn parse(yaml: &str) -> Result<Model, Vec<SchemaError>> {
    parse_yaml(doc(yaml))
}

fn to_text(model: &Model) -> String {
    yaml_text(&model_to_yaml(model))
}

// ---------------------------------------------------------------------------
// Parsing and serializing
// ---------------------------------------------------------------------------

#[test]
fn test_parse_valid_yaml() {
    let yaml = r#"
model:
  name: Test
  elements:
    - id: e1
      name: Actor
      kind: BusinessActor
    - id: e2
      name: App
      kind: ApplicationComponent
  relationships:
    - id: r1
      source: e1
      target: e2
      kind: Serving
"#;

    let model = parse(yaml).unwrap();
    assert_eq!(model.name, "Test");
    assert_eq!(model.element_count(), 2);
    assert_eq!(model.relation_count(), 1);
    let rel = model.iter_relations().next().unwrap();
    assert_eq!(rel.kind, RelationKind::Serving);
}

#[test]
fn test_unknown_kind() {
    let yaml = r#"
model:
  name: Test
  elements:
    - id: e1
      name: Foo
      kind: FooBar
"#;

    let result = parse(yaml);
    assert!(result.is_err());
    let errors = result.unwrap_err();
    assert!(errors.contains(&SchemaError::UnknownKind), "expected UnknownKind in {:?}", errors)
}

#[test]
fn test_undefined_id() {
    let yaml = r#"
model:
  name: Test
  elements:
    - id: e1
      name: Actor
      kind: BusinessActor
  relationships:
    - id: r1
      source: e1
      target: nonexistent
      kind: Serving
"#;

    let result = parse(yaml);
    assert!(result.is_err());
    let errors = result.unwrap_err();
    assert!(errors.contains(&SchemaError::UndefinedId), "expected UndefinedId in {:?}", errors)
}

#[test]
fn test_duplicate_id() {
    let yaml = r#"
model:
  name: Test
  elements:
    - id: e1
      name: Actor
      kind: BusinessActor
    - id: e1
      name: Another
      kind: BusinessRole
"#;

    let result = parse(yaml);
    assert!(result.is_err());
    let errors = result.unwrap_err();
    assert!(errors.contains(&SchemaError::DuplicateId), "expected DuplicateId in {:?}", errors)
}

#[test]
fn test_invalid_id() {
    let yaml = r#"
model:
  name: Test
  elements:
    - id: "my id"
      name: Actor
      kind: BusinessActor
"#;

    let result = parse(yaml);
    assert!(result.is_err());
    let errors = result.unwrap_err();
    assert!(errors.contains(&SchemaError::InvalidId), "expected InvalidId in {:?}", errors)
}

#[test]
fn test_round_trip() {
    let original = r#"
model:
  name: Test
  elements:
    - id: e1
      name: Actor
      kind: BusinessActor
    - id: e2
      name: App
      kind: ApplicationComponent
  relationships:
    - id: r1
      source: e1
      target: e2
      kind: Serving
"#;

    let model = parse(original).unwrap();
    let serialized = to_text(&model);
    let reparsed = parse(&serialized).unwrap();

    assert_eq!(model.name, reparsed.name);
    assert_eq!(model.element_count(), reparsed.element_count());
    assert_eq!(model.relation_count(), reparsed.relation_count());

    let elem_ids: Vec<&str> = reparsed.iter_elements().map(|e| e.original_id.as_str()).collect();
    assert_eq!(elem_ids, vec!["e1", "e2"]);
    let rel = reparsed.iter_relations().next().unwrap();
    assert_eq!(rel.original_id, "r1");
    assert_eq!(model.element(reparsed.iter_relations().next().unwrap().source).original_id, "e1");
}

#[test]
fn test_empty_yaml() {
    let yaml = r#"
model:
  name: Empty
"#;

    let model = parse(yaml).unwrap();
    assert_eq!(model.name, "Empty");
    assert_eq!(model.element_count(), 0);
    assert_eq!(model.relation_count(), 0);
}

#[test]
fn test_self_loop() {
    let yaml = r#"
model:
  name: Test
  elements:
    - id: e1
      name: Self
      kind: BusinessActor
  relationships:
    - id: r1
      source: e1
      target: e1
      kind: Association
"#;

    let model = parse(yaml).unwrap();
    assert_eq!(model.element_count(), 1);
    assert_eq!(model.relation_count(), 1);
    let rel = model.iter_relations().next().unwrap();
    assert_eq!(rel.kind, RelationKind::Association);
}

#[test]
fn test_viewpoint_round_trip() {
    let original = r#"
model:
  name: Test
  elements:
    - id: e1
      name: Actor
      kind: BusinessActor
    - id: e2
      name: App
      kind: ApplicationComponent
  relationships:
    - id: r1
      source: e1
      target: e2
      kind: Serving
  viewpoints:
    - id: vp1
      name: Business view
      kind: business
      elements: [e1]
      relationships: [r1]
"#;

    let model = parse(original).unwrap();
    let serialized = to_text(&model);
    let reparsed = parse(&serialized).unwrap();

    assert_eq!(reparsed.viewpoints().len(), 1, "viewpoints must survive YAML round trip");
    let vp = &reparsed.viewpoints()[0];
    assert_eq!(vp.id, "vp1");
    assert_eq!(vp.name, "Business view");
    assert_eq!(vp.kind, ViewpointKind::Business);
    assert_eq!(vp.elements, vec!["e1"]);
    assert_eq!(vp.relationships, vec!["r1"]);
}

#[test]
fn test_relationship_id_preservation() {
    let mut model = Model::new("Test Model");
    let actor_id = model.add_element("Customer", ElementKind::BusinessActor);
    let app_id = model.add_element("CRM", ElementKind::ApplicationComponent);
    let goal_id = model.add_element("Sales Goal", ElementKind::Goal);

    let _serving_rel = model.link(actor_id, app_id, RelationKind::Serving);
    let _realization_rel = model.link(app_id, goal_id, RelationKind::Realization);

    let yaml_output = to_text(&model);

    assert!(yaml_output.contains("Serving"), "Should contain relationship type");
    assert!(yaml_output.contains("target:"), "Should contain target field");

    let parsed_model = parse(&yaml_output).expect("YAML should parse successfully");

    let elem_ids: Vec<&str> = parsed_model.iter_elements().map(|e| e.original_id.as_str()).collect();
    assert_eq!(elem_ids, vec!["e_0", "e_1", "e_2"]);

    let rel_ids: Vec<&str> = parsed_model.iter_relations().map(|r| r.original_id.as_str()).collect();
    assert_eq!(rel_ids, vec!["r_0", "r_1"]);

    let rel_kinds: Vec<RelationKind> = parsed_model.iter_relations().map(|r| r.kind).collect();
    assert!(rel_kinds.contains(&RelationKind::Serving), "Should have Serving relationship");
    assert!(rel_kinds.contains(&RelationKind::Realization), "Should have Realization relationship");
}

#[test]
fn test_model_with_relationships_to_yaml_no_panic() {
    let mut model = Model::new("Test Model");
    let actor_id = model.add_element("Actor", ElementKind::BusinessActor);
    let app_id = model.add_element("App", ElementKind::ApplicationComponent);
    model.link(actor_id, app_id, RelationKind::Serving);

    let yaml_output = to_text(&model);
    assert!(!yaml_output.is_empty(), "YAML output should not be empty");

    assert!(yaml_output.contains("Serving"), "Should contain Serving relationship type");
}

#[test]
fn test_empty_model_handles_no_relationships() {
    let model = Model::new("Empty Model");

    let yaml_output = to_text(&model);
    assert!(yaml_output.contains("name: Empty Model"));

    let parsed = parse(&yaml_output).expect("YAML should parse successfully");
    assert_eq!(parsed.element_count(), 0, "Should have 0 elements");
    assert_eq!(parsed.relation_count(), 0, "Should have 0 relationships");
}

// ---------------------------------------------------------------------------
// Further cases
// ---------------------------------------------------------------------------

fn element(id: &str, name: &str, kind: &str) -> YamlElement {
    YamlElement { id: id.to_string(), name: name.to_string(), kind: kind.to_string() }
}

fn relationship(id: &str, source: &str, target: &str, kind: &str) -> YamlRelationship {
    YamlRelationship { id: id.to_string(), source: source.to_string(), target: target.to_string(), kind: kind.to_string() }
}

#[test]
fn every_error_is_reported_in_order() {
    let d = YamlModel {
        name: "Bad".to_string(),
        elements: vec![
            element("", "Empty", "BusinessActor"),
            element("a", "A", "Nope"),
            element("a", "A again", "Goal"),
            element("b c", "Spaced", "Goal"),
        ],
        relationships: vec![relationship("r 1", "a", "zz", "Serving"), relationship("r2", "yy", "a", "Bogus")],
        viewpoints: vec![ViewpointDefinition {
            id: "vp".to_string(),
            name: "V".to_string(),
            kind: ViewpointKind::Business,
            elements: vec!["a".to_string(), "a".to_string(), "".to_string(), "q".to_string()],
            relationships: vec!["r2".to_string(), "r9".to_string()],
        }],
    };
    let expected = vec![
        SchemaError::InvalidId,
        SchemaError::UnknownKind,
        SchemaError::DuplicateId,
        SchemaError::InvalidId,
        SchemaError::InvalidId,
        SchemaError::UndefinedId,
        SchemaError::UndefinedId,
        SchemaError::UnknownKind,
        SchemaError::DuplicateId,
        SchemaError::InvalidId,
        SchemaError::UndefinedId,
        SchemaError::UndefinedId,
    ];
    assert_eq!(check_schema(&d), expected);
    assert_eq!(parse_yaml(d).unwrap_err(), expected);
}

#[test]
fn a_valid_document_builds_the_model() {
    let d = YamlModel {
        name: "M".to_string(),
        elements: vec![element("x", "X", "Node"), element("y", "Y", "Device")],
        relationships: vec![relationship("r", "y", "x", "Composition")],
        viewpoints: vec![],
    };
    assert!(check_schema(&d).is_empty());
    let m = parse_yaml(d).unwrap();
    let r = m.iter_relations().next().unwrap();
    assert_eq!(m.element(r.source).original_id, "y");
    assert_eq!(m.element(r.target).original_id, "x");
    assert_eq!(r.kind, RelationKind::Composition);
    assert_eq!(m.element(r.target).kind, ElementKind::Node);
}

#[test]
fn serializing_writes_kind_names_and_endpoint_ids() {
    let mut m = Model::new("S");
    let a = m.add_element_with_id("a1", "A", ElementKind::Capability);
    let b = m.add_element_with_id("b1", "B", ElementKind::Resource);
    m.link_with_id("l1", b, a, RelationKind::Assignment);
    let d = model_to_yaml(&m);
    assert_eq!(d.name, "S");
    assert_eq!(d.elements[0].kind, "Capability");
    assert_eq!(d.elements[1].id, "b1");
    assert_eq!(d.relationships[0].source, "b1");
    assert_eq!(d.relationships[0].target, "a1");
    assert_eq!(d.relationships[0].kind, "Assignment");
    assert_eq!(d.relationships[0].id, "l1");
}

#[test]
fn error_messages() {
    assert_eq!(schema_error_message(&SchemaError::DuplicateId), "DuplicateId");
    assert_eq!(schema_error_message(&SchemaError::MalformedYaml("bad indent".to_string())), "bad indent");
    assert_eq!(
        schema_failure_message(&[SchemaError::InvalidId, SchemaError::UndefinedId]),
        "schema validation failed: InvalidId; UndefinedId"
    );
    assert_eq!(schema_failure_message(&[]), "schema validation failed: ");
}

#[test]
fn report_lists_schema_errors() {
    let r = schema_report(&[SchemaError::UnknownKind, SchemaError::InvalidId]);
    assert_eq!(r.len(), 2);
    assert_eq!(r[0].code, "UnknownKind");
    assert_eq!(r[0].message, "Schema validation error: UnknownKind");
    assert_eq!(r[1].code, "InvalidId");
}

#[test]
fn report_keeps_only_malformed_yaml() {
    let r = schema_report(&[
        SchemaError::InvalidId,
        SchemaError::MalformedYaml("mapping values are not allowed".to_string()),
        SchemaError::UndefinedId,
    ]);
    assert_eq!(r.len(), 1);
    assert_eq!(r[0].code, "MalformedYaml");
    assert_eq!(r[0].message, "YAML parsing error: mapping values are not allowed");
}

#[test]
fn parse_then_serialize_gives_the_document_back() {
    let d = YamlModel {
        name: "Doc".to_string(),
        elements: vec![element("x", "X", "Node"), element("y", "Y", "Device"), element("z", "Z", "Goal")],
        relationships: vec![relationship("r", "y", "x", "Composition"), relationship("s", "z", "z", "Influence")],
        viewpoints: vec![ViewpointDefinition {
            id: "v".to_string(),
            name: "V".to_string(),
            kind: ViewpointKind::Implementation,
            elements: vec!["z".to_string(), "x".to_string()],
            relationships: vec!["s".to_string()],
        }],
    };
    let before = yaml_text(&d);
    let out = model_to_yaml(&parse_yaml(d).unwrap());
    assert_eq!(yaml_text(&out), before);
}

#[test]
fn serialize_then_parse_gives_the_model_back() {
    let mut m = Model::new("Built");
    let a = m.add_element("A", ElementKind::Product);
    let b = m.add_element_with_id("bee", "B", ElementKind::Contract);
    m.link(b, a, RelationKind::Aggregation);
    m.link_with_id("self", a, a, RelationKind::Association);
    m.set_viewpoints(vec![ViewpointDefinition {
        id: "vp".to_string(),
        name: "All".to_string(),
        kind: ViewpointKind::Unspecified,
        elements: vec!["e_0".to_string()],
        relationships: vec!["r_0".to_string(), "self".to_string()],
    }]);
    let back = parse_yaml(model_to_yaml(&m)).unwrap();
    assert_eq!(back.name, m.name);
    let pairs = back.iter_elements().zip(m.iter_elements());
    for (x, y) in pairs {
        assert_eq!((x.id, &x.original_id, &x.name, x.kind), (y.id, &y.original_id, &y.name, y.kind));
    }
    assert_eq!(back.element_count(), m.element_count());
    for (x, y) in back.iter_relations().zip(m.iter_relations()) {
        assert_eq!((x.id, &x.original_id, x.source, x.target, x.kind), (y.id, &y.original_id, y.source, y.target, y.kind));
    }
    assert_eq!(back.relation_count(), 2);
    assert_eq!(back.viewpoints()[0].relationships, vec!["r_0".to_string(), "self".to_string()]);
    assert_eq!(back.viewpoints()[0].kind, ViewpointKind::Unspecified);
}

#[test]
fn element_kinds_are_read_in_any_case_and_written_canonically() {
    let d = YamlModel {
        name: "Case".to_string(),
        elements: vec![element("a", "A", "businessACTOR")],
        relationships: vec![],
        viewpoints: vec![],
    };
    let m = parse_yaml(d).unwrap();
    assert_eq!(m.iter_elements().next().unwrap().kind, ElementKind::BusinessActor);
    assert_eq!(model_to_yaml(&m).elements[0].kind, "BusinessActor");
}

#[test]
fn exit_code_for_schema_failures() {
    assert_eq!(schema_exit_code(&[SchemaError::UnknownKind]), 1);
    assert_eq!(schema_exit_code(&[SchemaError::UnknownKind, SchemaError::MalformedYaml("x".to_string())]), 2);
}
