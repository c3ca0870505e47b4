use archr_core::io::yaml::{model_to_yaml, parse_yaml};
use archr_core::io::xml::{xml_to_model, XmlChild, XmlConnection, XmlElement, XmlError, XmlFolder, XmlModel};
use archr_core::io::xml_write::{folder_for_layer, model_to_xml, model_to_xml_with_ids, Bounds, DiagramLayout, XmlIds};
use archr_core::model::{ElementId, ElementKind, ElementLayer, Model, RelationKind, ViewpointDefinition, ViewpointKind};
use archr_core::text::xml_escape;
use quick_xml::events::{BytesStart, Event};
use quick_xml::Reader;
use std::collections::{HashMap, HashSet};

// ---------------------------------------------------------------------------
// XML text -> document, and positions -> layout, as the command line does
// ---------------------------------------------------------------------------

fn unescape(s: &str) -> String {
    s.replace("&lt;", "<")
        .replace("&gt;", ">")
        .replace("&quot;", "\"")
        .replace("&apos;", "'")
        .replace("&amp;", "&")
}

fn attrs(e: &BytesStart) -> HashMap<String, String> {
    let mut out = HashMap::new();
    for a in e.attributes() {
        let a = a.expect("a well-formed attribute");
        let key: &str = a.key.as_ref();
        out.insert(key.to_string(), unescape(&a.value));
    }
    out
}

fn tag(e: &BytesStart) -> String {
    let name = e.name();
    let s: &str = name.as_ref();
    s.to_string()
}

fn element_of(a: &HashMap<String, String>) -> XmlElement {
    XmlElement {
        xsi_type: a.get("xsi:type").cloned().unwrap_or_default(),
        name: a.get("name").cloned().unwrap_or_default(),
        id: a.get("id").cloned().unwrap_or_default(),
        source: a.get("source").cloned(),
        target: a.get("target").cloned(),
        viewpoint: a.get("viewpoint").cloned(),
        children: Vec::new(),
    }
}

fn read_child(r: &mut Reader<&[u8]>, a: &HashMap<String, String>) -> XmlChild {
    let mut child = XmlChild { archimate_element: a.get("archimateElement").cloned(), connections: Vec::new(), children: Vec::new() };
    loop {
        match r.read_event().expect("well-formed XML") {
            Event::Start(e) if tag(&e) == "child" => {
                let ca = attrs(&e);
                child.children.push(read_child(r, &ca));
            }
            Event::Empty(e) if tag(&e) == "child" => {
                let ca = attrs(&e);
                child.children.push(XmlChild { archimate_element: ca.get("archimateElement").cloned(), connections: Vec::new(), children: Vec::new() });
            }
            Event::Empty(e) if tag(&e) == "sourceConnection" => {
                let ca = attrs(&e);
                child.connections.push(XmlConnection { archimate_relationship: ca.get("archimateRelationship").cloned() });
            }
            Event::End(e) if e.name().as_ref() == "child" => return child,
            Event::Eof => panic!("unexpected end of document"),
            _ => {}
        }
    }
}

fn read_diagram(r: &mut Reader<&[u8]>, element: &mut XmlElement) {
    loop {
        match r.read_event().expect("well-formed XML") {
            Event::Start(e) if tag(&e) == "child" => {
                let ca = attrs(&e);
                element.children.push(read_child(r, &ca));
            }
            Event::End(e) if e.name().as_ref() == "element" => return,
            Event::Eof => panic!("unexpected end of document"),
            _ => {}
        }
    }
}

fn read_folder(r: &mut Reader<&[u8]>) -> XmlFolder {
    let mut folder = XmlFolder { elements: Vec::new(), subfolders: Vec::new() };
    loop {
        match r.read_event().expect("well-formed XML") {
            Event::Start(e) if tag(&e) == "folder" => folder.subfolders.push(read_folder(r)),
            Event::Empty(e) if tag(&e) == "element" => folder.elements.push(element_of(&attrs(&e))),
            Event::Start(e) if tag(&e) == "element" => {
                let mut element = element_of(&attrs(&e));
                read_diagram(r, &mut element);
                folder.elements.push(element);
            }
            Event::End(e) if e.name().as_ref() == "folder" => return folder,
            Event::Eof => panic!("unexpected end of document"),
            _ => {}
        }
    }
}

fn read_document(xml: &str) -> XmlModel {
    let mut r = Reader::from_str(xml);
    let mut doc = XmlModel { name: String::new(), folders: Vec::new() };
    loop {
        match r.read_event().expect("well-formed XML") {
            Event::Start(e) if tag(&e) == "archimate:model" => {
                doc.name = attrs(&e).get("name").cloned().unwrap_or_default();
            }
            Event::Start(e) if tag(&e) == "folder" => doc.folders.push(read_folder(&mut r)),
            Event::Eof => return doc,
            _ => {}
        }
    }
}

fn parse(xml: &str) -> Result<Model, XmlError> {
    xml_to_model(&read_document(xml))
}

type Positions = HashMap<ElementId, (f64, f64, f64, f64)>;

fn layout(model: &Model, positions: &Positions) -> DiagramLayout {
    let mut order: Vec<ElementId> = model.iter_elements().map(|e| e.id).collect();
    let at = |id: &ElementId| positions.get(id).copied().unwrap_or((0.0, 0.0, 0.0, 0.0));
    order.sort_by(|a, b| {
        let (xa, ya, _, _) = at(a);
        let (xb, yb, _, _) = at(b);
        ya.partial_cmp(&yb).unwrap().then(xa.partial_cmp(&xb).unwrap())
    });
    let bounds = model
        .iter_elements()
        .map(|e| {
            positions.get(&e.id).map(|&(x, y, w, h)| Bounds {
                x: format!("{}", x),
                y: format!("{}", y),
                width: format!("{}", w),
                height: format!("{}", h),
            })
        })
        .collect();
    DiagramLayout { order, bounds }
}

fn to_xml(model: &Model, positions: &Positions) -> Result<String, XmlError> {
    model_to_xml(model, &layout(model, positions))
}

// ---------------------------------------------------------------------------
// Writing and reading Archi XML
// ---------------------------------------------------------------------------

#[test]
fn test_model_to_xml_basic() {
    let mut model = Model::new("Test Model");
    let actor_id = model.add_element("Actor 1", ElementKind::BusinessActor);
    let role_id = model.add_element("Role 1", ElementKind::BusinessRole);
    let _id = model.link(actor_id, role_id, RelationKind::Serving);

    let positions: Positions = vec![(actor_id, (0.0, 0.0, 120.0, 55.0)), (role_id, (120.0, 0.0, 120.0, 55.0))]
        .into_iter()
        .collect();

    let xml = to_xml(&model, &positions).unwrap();

    assert!(xml.contains("xmlns:archimate=\"http://www.archimatetool.com/archimate\""));
    assert!(xml.contains("<archimate:model"));
    assert!(xml.contains("xsi:type=\"archimate:BusinessActor\""));
    assert!(xml.contains("xsi:type=\"archimate:BusinessRole\""));
    assert!(xml.contains("xsi:type=\"archimate:ServingRelationship\""));
    assert!(xml.contains("name=\"Actor 1\""));
    assert!(xml.contains("name=\"Role 1\""));
    assert!(xml.contains("type=\"business\""));
    assert!(xml.contains("type=\"relations\""));
    assert!(xml.contains("type=\"diagrams\""));
}

#[test]
fn test_model_to_xml_empty_model_no_panic() {
    let model = Model::new("empty");
    let positions: Positions = HashMap::new();

    let xml = to_xml(&model, &positions).expect("empty model should serialize");

    assert!(xml.contains("<archimate:model"));
    assert!(xml.contains("name=\"empty\""));
    assert!(xml.ends_with("</archimate:model>\n"));
    assert!(!xml.contains("<folder"));
}

#[test]
fn test_ids_unique() {
    let mut model = Model::new("ID Test");
    let id1 = model.add_element("A", ElementKind::BusinessActor);
    let id2 = model.add_element("B", ElementKind::BusinessRole);
    model.link(id1, id2, RelationKind::Serving);

    let positions: Positions = vec![(id1, (0.0, 0.0, 120.0, 55.0)), (id2, (120.0, 0.0, 120.0, 55.0))]
        .into_iter()
        .collect();

    let xml = to_xml(&model, &positions).unwrap();

    let ids: Vec<&str> = xml.split("id=\"").skip(1).map(|s| s.split('"').next().unwrap()).collect();

    let unique: HashSet<&str> = ids.iter().copied().collect();
    assert_eq!(ids.len(), unique.len(), "all IDs should be unique");
}

#[test]
fn test_model_to_xml_emits_child_per_element() {
    let mut model = Model::new("Multi Element");
    let a = model.add_element("Customer", ElementKind::BusinessActor);
    let b = model.add_element("CRM", ElementKind::ApplicationComponent);
    let c = model.add_element("DB", ElementKind::Artifact);
    model.link(a, b, RelationKind::Serving);
    model.link(b, c, RelationKind::Serving);

    let positions: Positions = vec![
        (a, (0.0, 0.0, 120.0, 55.0)),
        (b, (0.0, 120.0, 120.0, 55.0)),
        (c, (0.0, 240.0, 120.0, 55.0)),
    ]
    .into_iter()
    .collect();

    let xml = to_xml(&model, &positions).unwrap();

    let child_count = xml.matches("xsi:type=\"archimate:DiagramObject\"").count();
    assert_eq!(child_count, 3, "one DiagramObject per element");

    assert!(xml.contains("x=\"0\" y=\"120\""));
    assert!(xml.contains("x=\"0\" y=\"240\""));

    let conn_count = xml.matches("xsi:type=\"archimate:Connection\"").count();
    assert_eq!(conn_count, 2, "one Connection per relationship");
    assert_eq!(xml.matches("<sourceConnection").count(), 2, "connections nested inside source child");
}

#[test]
fn test_folder_layer_assignment() {
    let mut model = Model::new("Layers");
    model.add_element("Actor", ElementKind::BusinessActor);
    model.add_element("CRM", ElementKind::ApplicationComponent);
    model.add_element("Node1", ElementKind::Node);
    model.add_element("Goal1", ElementKind::Goal);

    let positions = HashMap::new();
    let xml = to_xml(&model, &positions).unwrap();

    assert!(xml.contains("type=\"business\""));
    assert!(xml.contains("type=\"application\""));
    assert!(xml.contains("type=\"technology\""));
    assert!(xml.contains("type=\"motivation\""));
}

#[test]
fn test_round_trip_native_format() {
    let mut model = Model::new("Round Trip");
    let a = model.add_element("Actor", ElementKind::BusinessActor);
    let b = model.add_element("CRM", ElementKind::ApplicationComponent);
    let c = model.add_element("Goal", ElementKind::Goal);
    model.link(a, b, RelationKind::Serving);
    model.link(b, c, RelationKind::Realization);

    let positions = HashMap::new();
    let xml = to_xml(&model, &positions).unwrap();
    let parsed = parse(&xml).unwrap();

    assert_eq!(parsed.name, "Round Trip");
    assert_eq!(parsed.element_count(), 3);
    assert_eq!(parsed.relation_count(), 2);

    let parsed_kinds: HashMap<&str, ElementKind> = parsed.iter_elements().map(|e| (e.name.as_str(), e.kind)).collect();
    assert_eq!(parsed_kinds.get("Actor"), Some(&ElementKind::BusinessActor));
    assert_eq!(parsed_kinds.get("CRM"), Some(&ElementKind::ApplicationComponent));
    assert_eq!(parsed_kinds.get("Goal"), Some(&ElementKind::Goal));

    let rel_kinds: Vec<RelationKind> = parsed.iter_relations().map(|r| r.kind).collect();
    assert!(rel_kinds.contains(&RelationKind::Serving));
    assert!(rel_kinds.contains(&RelationKind::Realization));
}

#[test]
fn test_xml_original_id_round_trip() {
    let mut model = Model::new("Ids");
    let a = model.add_element_with_id("actor-7", "Actor", ElementKind::BusinessActor);
    let b = model.add_element_with_id("crm-9", "CRM", ElementKind::ApplicationComponent);
    model.link_with_id("rel-3", a, b, RelationKind::Serving);

    let positions = HashMap::new();
    let xml = to_xml(&model, &positions).unwrap();
    assert!(xml.contains("id=\"actor-7\""));
    assert!(xml.contains("id=\"rel-3\""));

    let parsed = parse(&xml).unwrap();
    let ids: Vec<&str> = parsed.iter_elements().map(|e| e.original_id.as_str()).collect();
    assert_eq!(ids, vec!["actor-7", "crm-9"]);
    assert_eq!(parsed.iter_relations().next().unwrap().original_id, "rel-3");
}

#[test]
fn test_xml_viewpoint_round_trip() {
    let mut model = Model::new("Views");
    let a = model.add_element_with_id("e1", "Actor", ElementKind::BusinessActor);
    let b = model.add_element_with_id("e2", "CRM", ElementKind::ApplicationComponent);
    model.link_with_id("r1", a, b, RelationKind::Serving);
    model.set_viewpoints(vec![ViewpointDefinition {
        id: "vp1".into(),
        name: "Coarse".into(),
        kind: ViewpointKind::Business,
        elements: vec!["e1".into(), "e2".into()],
        relationships: vec!["r1".into()],
    }]);

    let positions = HashMap::new();
    let xml = to_xml(&model, &positions).unwrap();
    assert!(xml.contains("viewpoint=\"business\""));

    let parsed = parse(&xml).unwrap();
    assert_eq!(parsed.viewpoints().len(), 1);
    let vp = &parsed.viewpoints()[0];
    assert_eq!(vp.kind, ViewpointKind::Business);
    assert_eq!(vp.elements, vec!["e1".to_string(), "e2".to_string()]);
    assert_eq!(vp.relationships, vec!["r1".to_string()]);
}

#[test]
fn test_anonymous_default_view_is_not_a_viewpoint() {
    let mut model = Model::new("No Views");
    model.add_element_with_id("x1", "Solo", ElementKind::Goal);

    let positions = HashMap::new();
    let xml = to_xml(&model, &positions).unwrap();
    assert!(!xml.contains("viewpoint=\""));

    let parsed = parse(&xml).unwrap();
    assert!(parsed.viewpoints().is_empty());
}

#[test]
fn test_viewpoints_survive_xml_to_yaml() {

    let mut model = Model::new("VP Model");
    let a = model.add_element_with_id("e1", "Customer", ElementKind::BusinessActor);
    let b = model.add_element_with_id("e2", "CRM", ElementKind::ApplicationComponent);
    model.link_with_id("r1", a, b, RelationKind::Serving);
    model.set_viewpoints(vec![ViewpointDefinition {
        id: "vp1".into(),
        name: "Coarse".into(),
        kind: ViewpointKind::Business,
        elements: vec!["e1".into(), "e2".into()],
        relationships: vec!["r1".into()],
    }]);

    let xml = to_xml(&model, &HashMap::new()).unwrap();
    let parsed = parse(&xml).unwrap();
    let yaml_out = model_to_yaml(&parsed);
    let reparsed = parse_yaml(yaml_out).unwrap();

    assert_eq!(reparsed.viewpoints().len(), 1);
    let vp = &reparsed.viewpoints()[0];
    assert_eq!(vp.id, "vp1");
    assert_eq!(vp.name, "Coarse");
    assert_eq!(vp.kind, ViewpointKind::Business);
    assert_eq!(vp.elements, vec!["e1".to_string(), "e2".to_string()]);
    assert_eq!(vp.relationships, vec!["r1".to_string()]);
}

// ---------------------------------------------------------------------------
// Further cases
// ---------------------------------------------------------------------------

fn fixed_ids(model: &Model) -> XmlIds {
    let diagrams = if model.viewpoints().is_empty() { 1 } else { model.viewpoints().len() };
    XmlIds {
        model: "M".to_string(),
        folders: (0..9).map(|i| format!("F{}", i)).collect(),
        default_diagram: "D".to_string(),
        children: (0..model.element_count()).map(|i| format!("c{}", i)).collect(),
        connections: (0..diagrams)
            .map(|d| (0..model.relation_count()).map(|i| format!("k{}_{}", d, i)).collect())
            .collect(),
    }
}

#[test]
fn exact_document_with_fixed_ids() {
    let mut model = Model::new("A&B");
    let a = model.add_element_with_id("a", "<Actor>", ElementKind::BusinessActor);
    let n = model.add_element_with_id("n", "Box", ElementKind::Node);
    model.link_with_id("r", n, a, RelationKind::Serving);
    let positions: Positions = vec![(a, (0.0, 120.0, 120.0, 55.0))].into_iter().collect();
    let xml = model_to_xml_with_ids(&model, &layout(&model, &positions), &fixed_ids(&model));
    let expected = [
        "<?xml version=\"1.0\" encoding=\"UTF-8\" standalone=\"yes\"?>\n",
        "<archimate:model xmlns:xsi=\"http://www.w3.org/2001/XMLSchema-instance\" xmlns:archimate=\"http://www.archimatetool.com/archimate\" name=\"A&amp;B\" id=\"M\" version=\"5.0.0\">\n",
        "  <folder name=\"Business\" id=\"F1\" type=\"business\">\n",
        "    <element xsi:type=\"archimate:BusinessActor\" name=\"&lt;Actor&gt;\" id=\"a\"/>\n",
        "  </folder>\n",
        "  <folder name=\"Technology &amp; Physical\" id=\"F3\" type=\"technology\">\n",
        "    <element xsi:type=\"archimate:Node\" name=\"Box\" id=\"n\"/>\n",
        "  </folder>\n",
        "  <folder name=\"Relations\" id=\"F7\" type=\"relations\">\n",
        "    <element xsi:type=\"archimate:ServingRelationship\" source=\"n\" target=\"a\" id=\"r\"/>\n",
        "  </folder>\n",
        "  <folder name=\"Views\" id=\"F8\" type=\"diagrams\">\n",
        "    <element xsi:type=\"archimate:ArchimateDiagramModel\" name=\"Default View\" id=\"D\">\n",
        "      <child xsi:type=\"archimate:DiagramObject\" id=\"c1\" archimateElement=\"n\">\n",
        "        <bounds x=\"0\" y=\"0\" width=\"120\" height=\"55\"/>\n",
        "        <sourceConnection xsi:type=\"archimate:Connection\" id=\"k0_0\" source=\"c1\" target=\"c0\" archimateRelationship=\"r\"/>\n",
        "      </child>\n",
        "      <child xsi:type=\"archimate:DiagramObject\" id=\"c0\" targetConnections=\"k0_0\" archimateElement=\"a\">\n",
        "        <bounds x=\"0\" y=\"120\" width=\"120\" height=\"55\"/>\n",
        "      </child>\n",
        "    </element>\n",
        "  </folder>\n",
        "</archimate:model>\n",
    ]
    .concat();
    assert_eq!(xml, expected);
}

#[test]
fn viewpoint_diagram_draws_only_its_elements() {
    let mut model = Model::new("Scoped");
    let a = model.add_element_with_id("a", "A", ElementKind::BusinessActor);
    let b = model.add_element_with_id("b", "B", ElementKind::BusinessRole);
    let c = model.add_element_with_id("c", "C", ElementKind::Goal);
    model.link_with_id("ab", a, b, RelationKind::Assignment);
    model.link_with_id("bc", b, c, RelationKind::Association);
    model.set_viewpoints(vec![ViewpointDefinition {
        id: "v".into(),
        name: "Two".into(),
        kind: ViewpointKind::Motivation,
        elements: vec!["a".into(), "b".into(), "zz".into()],
        relationships: vec!["ab".into()],
    }]);
    let xml = to_xml(&model, &HashMap::new()).unwrap();
    assert_eq!(xml.matches("archimate:DiagramObject").count(), 2);
    assert_eq!(xml.matches("<sourceConnection").count(), 1);
    assert!(xml.contains("viewpoint=\"motivation\" id=\"v\""));
    let parsed = parse(&xml).unwrap();
    let vp = &parsed.viewpoints()[0];
    assert_eq!(vp.elements, vec!["a".to_string(), "b".to_string()]);
    assert_eq!(vp.relationships, vec!["ab".to_string()]);
    assert_eq!(vp.kind, ViewpointKind::Motivation);
}

#[test]
fn unknown_endpoint_is_a_parse_error() {
    let doc = XmlModel {
        name: "Broken".to_string(),
        folders: vec![XmlFolder {
            elements: vec![
                XmlElement {
                    xsi_type: "archimate:Goal".to_string(),
                    name: "G".to_string(),
                    id: "g".to_string(),
                    source: None,
                    target: None,
                    viewpoint: None,
                    children: vec![],
                },
                XmlElement {
                    xsi_type: "archimate:InfluenceRelationship".to_string(),
                    name: String::new(),
                    id: "i".to_string(),
                    source: Some("g".to_string()),
                    target: Some("missing".to_string()),
                    viewpoint: None,
                    children: vec![],
                },
            ],
            subfolders: vec![],
        }],
    };
    match xml_to_model(&doc) {
        Err(XmlError::Parse(msg)) => assert_eq!(msg, "Unknown target element: Some(\"missing\")"),
        other => panic!("expected a parse error, got {:?}", other),
    }
}

#[test]
fn unknown_relation_kind_is_a_parse_error_and_unknown_types_are_skipped() {
    let doc = read_document(&[
        "<archimate:model name=\"N\">",
        "<folder name=\"x\" type=\"other\">",
        "<element xsi:type=\"archimate:Note\" id=\"q\"/>",
        "<folder name=\"y\"><element xsi:type=\"archimate:Location\" name=\"L\" id=\"l\"/></folder>",
        "</folder>",
        "</archimate:model>",
    ]
    .concat());
    let m = xml_to_model(&doc).unwrap();
    assert_eq!(m.element_count(), 1);
    assert_eq!(m.iter_elements().next().unwrap().kind, ElementKind::Location);

    let bad = read_document(&[
        "<archimate:model name=\"N\">",
        "<folder name=\"r\" type=\"relations\">",
        "<element xsi:type=\"archimate:FooRelationship\" source=\"a\" target=\"b\" id=\"r\"/>",
        "</folder>",
        "</archimate:model>",
    ]
    .concat());
    match xml_to_model(&bad) {
        Err(XmlError::Parse(msg)) => assert_eq!(msg, "Unknown relation kind: Foo"),
        other => panic!("expected a parse error, got {:?}", other),
    }
}

#[test]
fn folders_and_escaping() {
    assert_eq!(folder_for_layer(ElementLayer::Physical), ("Technology &amp; Physical", "technology"));
    assert_eq!(folder_for_layer(ElementLayer::Implementation), ("Implementation &amp; Migration", "implementation_migration"));
    assert_eq!(folder_for_layer(ElementLayer::Strategy), ("Strategy", "strategy"));
    assert_eq!(xml_escape("a<b>&\"c'"), "a&lt;b&gt;&amp;&quot;c&apos;");
    assert_eq!(xml_escape("plain"), "plain");
}

#[test]
fn random_ids_differ_between_runs() {
    let mut model = Model::new("R");
    model.add_element("A", ElementKind::Goal);
    let one = to_xml(&model, &HashMap::new()).unwrap();
    let two = to_xml(&model, &HashMap::new()).unwrap();
    assert_ne!(one, two);
    let id = one.split("<archimate:model").nth(1).unwrap().split(" id=\"").nth(1).unwrap().split('"').next().unwrap();
    assert_eq!(id.len(), 36);
    for (i, c) in id.chars().enumerate() {
        if i == 8 || i == 13 || i == 18 || i == 23 {
            assert_eq!(c, '-');
        } else {
            assert!(c.is_ascii_digit() || ('a'..='f').contains(&c));
        }
    }
}
