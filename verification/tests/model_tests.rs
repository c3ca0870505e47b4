use archr_core::io::yaml_viewpoint::allowed_elements_for_viewpoint;
use archr_core::model::{ViewpointDefinition, ViewpointKind};
use archr_core::model::{ElementId, ElementKind, ElementLayer, Model, RelationId, RelationKind, Viewpoint};
use std::str::FromStr;

#[test]
fn add_element_returns_incrementing_id() {
    let mut m = Model::new("test");
    let id0 = m.add_element("a", ElementKind::BusinessActor);
    let id1 = m.add_element("b", ElementKind::Node);
    assert_eq!(id0, ElementId(0));
    assert_eq!(id1, ElementId(1));
}

#[test]
fn element_returns_correct_element() {
    let mut m = Model::new("test");
    let id = m.add_element("my_actor", ElementKind::BusinessActor);
    let e = m.element(id);
    assert_eq!(e.name, "my_actor");
    assert_eq!(e.kind, ElementKind::BusinessActor);
    assert_eq!(e.id, id);
}

#[test]
fn link_returns_incrementing_id() {
    let mut m = Model::new("test");
    let a = m.add_element("a", ElementKind::BusinessActor);
    let b = m.add_element("b", ElementKind::ApplicationComponent);
    let r0 = m.link(a, b, RelationKind::Serving);
    let r1 = m.link(b, a, RelationKind::Association);
    assert_eq!(r0, RelationId(0));
    assert_eq!(r1, RelationId(1));
}

#[test]
fn index_trait_works() {
    let mut m = Model::new("test");
    let id = m.add_element("x", ElementKind::Node);
    assert_eq!(m[id].name, "x");
}

#[test]
fn element_kind_layer_mapping() {
    assert_eq!(ElementKind::Stakeholder.layer(), ElementLayer::Motivation);
    assert_eq!(ElementKind::Resource.layer(), ElementLayer::Strategy);
    assert_eq!(ElementKind::BusinessActor.layer(), ElementLayer::Business);
    assert_eq!(ElementKind::ApplicationComponent.layer(), ElementLayer::Application);
    assert_eq!(ElementKind::Node.layer(), ElementLayer::Technology);
    assert_eq!(ElementKind::Equipment.layer(), ElementLayer::Physical);
    assert_eq!(ElementKind::WorkPackage.layer(), ElementLayer::Implementation);
    assert_eq!(ElementKind::Grouping.layer(), ElementLayer::Other);
}

#[test]
fn element_kind_variant_count() {
    assert_eq!(ElementKind::VARIANT_COUNT, 62);
}

#[test]
fn relation_kind_variant_count() {
    assert_eq!(RelationKind::VARIANT_COUNT, 11);
}

#[test]
fn element_kind_from_name_round_trip() {
    let kinds = [
        ElementKind::BusinessActor,
        ElementKind::ApplicationComponent,
        ElementKind::Node,
        ElementKind::ValueStream,
        ElementKind::CourseOfAction,
        ElementKind::CommunicationNetwork,
        ElementKind::DistributionNetwork,
        ElementKind::AndJunction,
        ElementKind::OrJunction,
        ElementKind::DataObject,
        ElementKind::Constraint,
    ];
    for kind in kinds {
        assert_eq!(
            ElementKind::from_name(kind.kind_name()),
            Some(kind),
            "round-trip failed for {}",
            kind.kind_name()
        );
    }
}

#[test]
fn relation_kind_from_name_round_trip() {
    for kind in [
        RelationKind::Composition,
        RelationKind::Serving,
        RelationKind::Access,
        RelationKind::Triggering,
        RelationKind::Flow,
        RelationKind::Specialization,
    ] {
        assert_eq!(RelationKind::from_name(kind.kind_name()), Some(kind),);
    }
}

#[test]
fn element_kind_display_matches_type_name() {
    let kind = ElementKind::BusinessActor;
    assert_eq!(kind.kind_name().to_string(), "BusinessActor");
    assert_eq!(kind.kind_name(), "BusinessActor");
}

#[test]
fn unknown_kind_returns_none() {
    assert!(ElementKind::from_name("FooBar").is_none());
    assert!(RelationKind::from_name("InvalidRelation").is_none());
}

#[test]
fn from_str_errors_on_unknown() {
    let err = ElementKind::from_str("Nonexistent");
    assert!(err.is_err());
    let err = RelationKind::from_str("Bogus");
    assert!(err.is_err());
}

#[test]
fn from_yaml_viewpoint_name() {
    let test_cases = vec![
        ("Motivation", Some(Viewpoint::Motivation)),
        ("Strategy", Some(Viewpoint::Strategy)),
        ("Business", Some(Viewpoint::Business)),
        ("Application", Some(Viewpoint::Application)),
        ("Technology", Some(Viewpoint::Technology)),
        ("Physical", Some(Viewpoint::Physical)),
        ("Implementation", Some(Viewpoint::Implementation)),
        ("Other", Some(Viewpoint::Other)),
        ("EnterpriseStructure", Some(Viewpoint::EnterpriseStructure)),
        ("ValueStream", Some(Viewpoint::ValueStream)),
        ("Organization", Some(Viewpoint::Organization)),
        ("BusinessProcessCooperation", Some(Viewpoint::BusinessProcessCooperation)),
        ("Product", Some(Viewpoint::Product)),
        ("ApplicationCooperation", Some(Viewpoint::ApplicationCooperation)),
        ("ApplicationUsage", Some(Viewpoint::ApplicationUsage)),
        ("Invalid", None),
    ];

    for (name, expected) in test_cases {
        let result = Viewpoint::from_yaml_viewpoint_name(name);
        assert_eq!(
            result, expected,
            "from_yaml_viewpoint_name(\"{}\") returned {:?}, expected {:?}",
            name, result, expected
        );
    }
}

#[test]
fn to_yaml_viewpoint_name() {
    let test_cases = vec![
        (Viewpoint::Motivation, "Motivation"),
        (Viewpoint::Strategy, "Strategy"),
        (Viewpoint::Business, "Business"),
        (Viewpoint::Application, "Application"),
        (Viewpoint::Technology, "Technology"),
        (Viewpoint::Physical, "Physical"),
        (Viewpoint::Implementation, "Implementation"),
        (Viewpoint::Other, "Other"),
        (Viewpoint::EnterpriseStructure, "EnterpriseStructure"),
        (Viewpoint::ValueStream, "ValueStream"),
        (Viewpoint::Organization, "Organization"),
        (Viewpoint::BusinessProcessCooperation, "BusinessProcessCooperation"),
        (Viewpoint::Product, "Product"),
        (Viewpoint::ApplicationCooperation, "ApplicationCooperation"),
        (Viewpoint::ApplicationUsage, "ApplicationUsage"),
        (Viewpoint::NONE, "Layered"),
    ];

    for (viewpoint, expected) in test_cases {
        let result = viewpoint.to_yaml_viewpoint_name();
        assert_eq!(
            result, expected,
            "to_yaml_viewpoint_name({:?}) returned \"{}\", expected \"{}\"",
            viewpoint, result, expected
        );
    }
}

#[test]
fn roundtrip_yaml_viewpoint() {
    let viewpoints = vec![
        Viewpoint::Motivation,
        Viewpoint::Strategy,
        Viewpoint::Business,
        Viewpoint::EnterpriseStructure,
        Viewpoint::NONE,
    ];

    for viewpoint in viewpoints {
        let yaml_name = viewpoint.to_yaml_viewpoint_name();
        let parsed = Viewpoint::from_yaml_viewpoint_name(yaml_name);
        assert_eq!(
            parsed,
            Some(viewpoint),
            "Roundtrip failed for {:?}: \"{}\" -> {:?}",
            viewpoint,
            yaml_name,
            parsed
        );
    }
}

// ---------------------------------------------------------------------------
// Further cases
// ---------------------------------------------------------------------------

#[test]
fn synthesized_ids_follow_arena_index() {
    let mut m = Model::new("ids");
    for i in 0..12 {
        m.add_element("x", ElementKind::Goal);
        assert_eq!(m.element(ElementId(i)).original_id, format!("e_{}", i));
    }
    let r = m.link(ElementId(10), ElementId(11), RelationKind::Influence);
    assert_eq!(m.relation(r).original_id, "r_0");
    assert_eq!(m[r].source, ElementId(10));
    assert_eq!(m.element_count(), 12);
    assert_eq!(m.relation_count(), 1);
}

#[test]
fn explicit_ids_are_kept() {
    let mut m = Model::new("ids");
    let a = m.add_element_with_id("actor-7", "Actor", ElementKind::BusinessActor);
    let b = m.add_element_with_id("crm-9", "CRM", ElementKind::ApplicationComponent);
    let r = m.link_with_id("rel-3", a, b, RelationKind::Serving);
    assert_eq!(m[a].original_id, "actor-7");
    assert_eq!(m[b].original_id, "crm-9");
    assert_eq!(m[r].original_id, "rel-3");
    assert_eq!(m.model_name(), "ids");
    let names: Vec<&str> = m.iter_elements().map(|e| e.name.as_str()).collect();
    assert_eq!(names, vec!["Actor", "CRM"]);
}

#[test]
fn parse_name_reports_unknown_names() {
    assert_eq!(ElementKind::parse_name("Nonexistent"), Err("unknown element kind: Nonexistent".to_string()));
    assert_eq!(RelationKind::parse_name("Bogus"), Err("unknown relation kind: Bogus".to_string()));
    assert_eq!(ElementKind::from_str("Goal"), Ok(ElementKind::Goal));
    assert_eq!(RelationKind::from_str("Flow"), Ok(RelationKind::Flow));
    assert_eq!(ElementKind::from_name("goal"), Some(ElementKind::Goal));
    assert_eq!(ElementKind::from_name("Goals"), None);
}

#[test]
fn layers_list_their_kinds() {
    assert_eq!(
        ElementLayer::Strategy.elements(),
        vec![ElementKind::Resource, ElementKind::Capability, ElementKind::ValueStream, ElementKind::CourseOfAction]
    );
    let mut total = 0;
    for layer in [
        ElementLayer::Strategy,
        ElementLayer::Business,
        ElementLayer::Application,
        ElementLayer::Technology,
        ElementLayer::Physical,
        ElementLayer::Motivation,
        ElementLayer::Implementation,
        ElementLayer::Other,
    ] {
        for k in layer.elements() {
            assert_eq!(k.layer(), layer);
            total += 1;
        }
    }
    assert_eq!(total, 62);
}

#[test]
fn viewpoint_xml_names() {
    assert_eq!(Viewpoint::Implementation.to_xml_viewpoint_name(), "Implementation and Deployment");
    assert_eq!(Viewpoint::NONE.to_xml_viewpoint_name(), "Layered");
    assert_eq!(Viewpoint::from_xml_viewpoint_name("Implementation"), None);
    assert_eq!(Viewpoint::Business.layer_filter(), Some(ElementLayer::Business));
    assert_eq!(Viewpoint::Product.layer_filter(), None);
}

#[test]
fn set_viewpoints_replaces_definitions() {
    let mut m = Model::new("v");
    assert!(m.viewpoints().is_empty());
    m.set_viewpoints(vec![ViewpointDefinition {
        id: "vp".into(),
        name: "V".into(),
        kind: ViewpointKind::Motivation,
        elements: vec![],
        relationships: vec![],
    }]);
    assert_eq!(m.viewpoints().len(), 1);
    assert_eq!(m.viewpoints()[0].kind.as_viewpoint_name(), "motivation");
    assert_eq!(ViewpointKind::from_viewpoint_name("compliance"), Some(ViewpointKind::Compliance));
    assert_eq!(ViewpointKind::from_viewpoint_name("Compliance"), None);
}

#[test]
fn viewpoint_element_sets() {
    assert_eq!(
        allowed_elements_for_viewpoint("Strategy"),
        Some(vec![ElementKind::Resource, ElementKind::Capability, ElementKind::ValueStream, ElementKind::CourseOfAction])
    );
    let business = allowed_elements_for_viewpoint("Business").unwrap();
    assert!(business.contains(&ElementKind::Product));
    assert_eq!(business.len(), ElementLayer::Business.elements().len());
    for k in ElementLayer::Business.elements() {
        assert!(business.contains(&k));
    }
    assert_eq!(allowed_elements_for_viewpoint("Physical").unwrap().len(), 17);
    assert_eq!(allowed_elements_for_viewpoint("Implementation").unwrap()[9], ElementKind::Artifact);
    assert_eq!(allowed_elements_for_viewpoint("Layered"), None);
    assert_eq!(allowed_elements_for_viewpoint("business"), None);
}

#[test]
fn element_id_decimal() {
    assert_eq!(ElementId(0).to_decimal(), "0");
    assert_eq!(ElementId(40213).to_decimal(), "40213");
}

#[test]
fn element_type_names_ignore_ascii_case() {
    assert_eq!(ElementKind::from_name("businessactor"), Some(ElementKind::BusinessActor));
    assert_eq!(ElementKind::from_name("BUSINESSACTOR"), Some(ElementKind::BusinessActor));
    assert_eq!(ElementKind::from_name("valueStream"), Some(ElementKind::ValueStream));
    assert_eq!(ElementKind::from_name("ANDJUNCTION"), Some(ElementKind::AndJunction));
    assert_eq!(ElementKind::from_name("business actor"), None);
    assert_eq!(ElementKind::from_str("nODE"), Ok(ElementKind::Node));
    assert_eq!(RelationKind::from_name("serving"), None);
}

#[test]
fn duplicate_copies_the_model() {
    let mut m = Model::new("orig");
    let a = m.add_element("A", ElementKind::Goal);
    let b = m.add_element_with_id("b-1", "B", ElementKind::Node);
    m.link(a, b, RelationKind::Influence);
    let mut c = m.duplicate();
    assert_eq!(c.name, "orig");
    assert_eq!(c.element(b).original_id, "b-1");
    assert_eq!(c.relation(RelationId(0)).target, b);
    let d = c.add_element("D", ElementKind::Gap);
    assert_eq!(d, ElementId(2));
    assert_eq!(m.element_count(), 2);
}
