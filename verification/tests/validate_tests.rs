use archr_core::model::ElementLayer;
use archr_core::model::{ElementKind, Model, RelationKind};
use archr_core::validate::{validate_model, validate_relationship};

fn create_model() -> Model {
    Model::new("Test Model")
}

#[test]
fn test_valid_serving() {
    let mut model = create_model();
    let actor = model.add_element("BusinessActor", ElementKind::BusinessActor);
    let component = model.add_element("ApplicationComponent", ElementKind::ApplicationComponent);
    model.link(component, actor, RelationKind::Serving);
    let result = validate_model(&model);
    assert!(result.success);
}

#[test]
fn test_invalid_realization_crosslayer() {
    let mut model = create_model();
    let actor = model.add_element("BusinessActor", ElementKind::BusinessActor);
    let node = model.add_element("Node", ElementKind::Node);
    model.link(actor, node, RelationKind::Realization);
    let result = validate_model(&model);
    assert!(!result.success);
    assert_eq!(result.errors.len(), 1);
    assert_eq!(result.errors[0].code, "INVALID_RELATIONSHIP");
    assert_eq!(
        result.errors[0].element_source,
        "BusinessActor"
    );
}

#[test]
fn test_association_any_layer() {
    let mut model = create_model();
    let stakeholder = model.add_element("Stakeholder", ElementKind::Stakeholder);
    let node = model.add_element("Node", ElementKind::Node);
    model.link(stakeholder, node, RelationKind::Association);
    let result = validate_model(&model);
    assert!(result.success);
}

#[test]
fn test_specialization_within_layer() {
    let mut model = create_model();
    let actor = model.add_element("BusinessActor", ElementKind::BusinessActor);
    let role = model.add_element("BusinessRole", ElementKind::BusinessRole);
    model.link(actor, role, RelationKind::Specialization);
    let result = validate_model(&model);
    assert!(result.success);
}

#[test]
fn test_specialization_cross_layer_fails() {
    let mut model = create_model();
    let stakeholder = model.add_element("Stakeholder", ElementKind::Stakeholder);
    let node = model.add_element("Node", ElementKind::Node);
    model.link(stakeholder, node, RelationKind::Specialization);
    let result = validate_model(&model);
    assert!(!result.success);
    assert_eq!(result.errors.len(), 1);
    assert_eq!(result.errors[0].code, "INVALID_RELATIONSHIP");
}

#[test]
fn test_validate_model_clean() {
    let mut model = create_model();
    let actor = model.add_element("BusinessActor", ElementKind::BusinessActor);
    let component = model.add_element("ApplicationComponent", ElementKind::ApplicationComponent);
    model.link(component, actor, RelationKind::Serving);
    let result = validate_model(&model);
    assert!(result.success);
    assert!(result.errors.is_empty());
}

#[test]
fn test_validate_model_with_errors() {
    let mut model = create_model();
    let actor = model.add_element("BusinessActor", ElementKind::BusinessActor);
    let node = model.add_element("Node", ElementKind::Node);
    model.link(actor, node, RelationKind::Realization);
    let result = validate_model(&model);
    assert!(!result.success);
    assert!(!result.errors.is_empty());
}
// --- Regression tests for Serving block fixes (issue #4) ---
// Allowed descending directions (README rule "Tech→App→Business→Strategy"):
//   Physical→Technology, Technology→Application, Technology→Business,
//   Application→Business, Application→Strategy, Business→Strategy.




#[test]
fn test_serving_valid_tech_app() {
    let mut model = create_model();
    let node = model.add_element("Node", ElementKind::Node);
    let component = model.add_element("ApplicationComponent", ElementKind::ApplicationComponent);
    model.link(node, component, RelationKind::Serving);
    let result = validate_model(&model);
    assert!(result.success, "Technology→Application Serving should be valid");
}

#[test]
fn test_serving_valid_tech_business() {
    let mut model = create_model();
    let node = model.add_element("Node", ElementKind::Node);
    let actor = model.add_element("BusinessActor", ElementKind::BusinessActor);
    model.link(node, actor, RelationKind::Serving);
    let result = validate_model(&model);
    assert!(result.success, "Technology→Business Serving should be valid");
}

#[test]
fn test_serving_valid_app_business() {
    let mut model = create_model();
    let component = model.add_element("ApplicationComponent", ElementKind::ApplicationComponent);
    let actor = model.add_element("BusinessActor", ElementKind::BusinessActor);
    model.link(component, actor, RelationKind::Serving);
    let result = validate_model(&model);
    assert!(result.success, "Application→Business Serving should be valid");
}

#[test]
fn test_serving_valid_app_strategy() {
    let mut model = create_model();
    let process = model.add_element("BusinessProcess", ElementKind::BusinessProcess);
    let value_stream = model.add_element("ValueStream", ElementKind::ValueStream);
    model.link(process, value_stream, RelationKind::Serving);
    let result = validate_model(&model);
    assert!(result.success, "Application→Strategy Serving should be valid");
}

#[test]
fn test_serving_valid_business_strategy() {
    let mut model = create_model();
    let actor = model.add_element("BusinessActor", ElementKind::BusinessActor);
    let value_stream = model.add_element("ValueStream", ElementKind::ValueStream);
    model.link(actor, value_stream, RelationKind::Serving);
    let result = validate_model(&model);
    assert!(result.success, "Business→Strategy Serving should be valid");
}

#[test]
fn test_serving_invalid_business_app() {
    let mut model = create_model();
    let actor = model.add_element("BusinessActor", ElementKind::BusinessActor);
    let component = model.add_element("ApplicationComponent", ElementKind::ApplicationComponent);
    model.link(actor, component, RelationKind::Serving);
    let result = validate_model(&model);
    assert!(!result.success, "Business→Application Serving should be invalid");
    assert_eq!(result.errors.len(), 1);
    assert_eq!(result.errors[0].code, "INVALID_RELATIONSHIP");
}

#[test]
fn test_serving_invalid_app_tech() {
    let mut model = create_model();
    let component = model.add_element("ApplicationComponent", ElementKind::ApplicationComponent);
    let node = model.add_element("Node", ElementKind::Node);
    model.link(component, node, RelationKind::Serving);
    let result = validate_model(&model);
    assert!(!result.success, "Application→Technology Serving should be invalid");
    assert_eq!(result.errors.len(), 1);
    assert_eq!(result.errors[0].code, "INVALID_RELATIONSHIP");
}


#[test]
fn test_serving_invalid_same_layer_tech() {
    let mut model = create_model();
    let node1 = model.add_element("Node", ElementKind::Node);
    let node2 = model.add_element("Node", ElementKind::Node);
    model.link(node1, node2, RelationKind::Serving);
    let result = validate_model(&model);
    assert!(!result.success, "Technology→Technology Serving should be invalid");
    assert_eq!(result.errors.len(), 1);
    assert_eq!(result.errors[0].code, "INVALID_RELATIONSHIP");
}

#[test]
fn test_serving_invalid_same_layer_business() {
    let mut model = create_model();
    let actor = model.add_element("BusinessActor", ElementKind::BusinessActor);
    let role = model.add_element("BusinessRole", ElementKind::BusinessRole);
    model.link(actor, role, RelationKind::Serving);
    let result = validate_model(&model);
    assert!(!result.success, "Business→Business Serving should be invalid");
    assert_eq!(result.errors.len(), 1);
    assert_eq!(result.errors[0].code, "INVALID_RELATIONSHIP");
}

// ---------------------------------------------------------------------------
// Further cases
// ---------------------------------------------------------------------------

#[test]
fn error_reports_the_relationship() {
    let mut model = create_model();
    let ok_a = model.add_element("A", ElementKind::ApplicationComponent);
    let ok_b = model.add_element("B", ElementKind::BusinessActor);
    let bad_a = model.add_element("C", ElementKind::Goal);
    let bad_b = model.add_element("D", ElementKind::Node);
    model.link(ok_a, ok_b, RelationKind::Serving);
    model.link(bad_a, bad_b, RelationKind::Composition);
    model.link(ok_b, ok_a, RelationKind::Serving);
    let result = validate_model(&model);
    assert!(!result.success);
    assert_eq!(result.errors.len(), 2);
    assert_eq!(result.errors[0].message, "Goal cannot Composition Node");
    assert_eq!(result.errors[0].element_source, "Goal");
    assert_eq!(
        result.errors[0].suggestion,
        "Change relation type or ensure source/target are compatible"
    );
    assert_eq!(result.errors[1].message, "BusinessActor cannot Serving ApplicationComponent");
}

#[test]
fn empty_model_is_valid() {
    let result = validate_model(&create_model());
    assert!(result.success);
    assert!(result.errors.is_empty());
}

#[test]
fn single_relationship_checks() {
    assert!(validate_relationship(ElementKind::Goal, ElementKind::Node, RelationKind::Influence).is_ok());
    assert!(validate_relationship(ElementKind::Goal, ElementKind::Node, RelationKind::Association).is_ok());
    assert!(validate_relationship(ElementKind::Goal, ElementKind::Node, RelationKind::Realization).is_err());
    assert!(validate_relationship(ElementKind::WorkPackage, ElementKind::Node, RelationKind::Realization).is_ok());
    assert!(validate_relationship(ElementKind::Equipment, ElementKind::Node, RelationKind::Serving).is_ok());
    assert!(validate_relationship(ElementKind::DataObject, ElementKind::Node, RelationKind::Access).is_ok());
    assert!(validate_relationship(ElementKind::Node, ElementKind::Node, RelationKind::Access).is_err());
    assert!(validate_relationship(ElementKind::Goal, ElementKind::Goal, RelationKind::Flow).is_ok());
    let err = validate_relationship(ElementKind::Node, ElementKind::Goal, RelationKind::Triggering).unwrap_err();
    assert_eq!(err.code, "INVALID_RELATIONSHIP");
    assert_eq!(err.message, "Node cannot Triggering Goal");
}

#[test]
fn same_layer_rule_holds_for_every_pair_of_layers() {
    let layers = [
        ElementLayer::Strategy,
        ElementLayer::Business,
        ElementLayer::Application,
        ElementLayer::Technology,
        ElementLayer::Physical,
        ElementLayer::Motivation,
        ElementLayer::Implementation,
        ElementLayer::Other,
    ];
    for s in layers {
        for t in layers {
            let a = s.elements()[0];
            let b = t.elements()[0];
            for k in [RelationKind::Composition, RelationKind::Flow, RelationKind::Specialization] {
                assert_eq!(validate_relationship(a, b, k).is_ok(), s == t);
            }
            assert!(validate_relationship(a, b, RelationKind::Association).is_ok());
            assert!(validate_relationship(a, b, RelationKind::Influence).is_ok());
            if s == t {
                assert!(validate_relationship(a, b, RelationKind::Serving).is_err());
                assert!(validate_relationship(a, b, RelationKind::Realization).is_ok());
            }
        }
    }
}
