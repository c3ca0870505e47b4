use archr_core::io::xml_write::model_to_xml;
use archr_core::layout::{calculate_layout, diagram_layout, generate_xml, COMPONENT_OFFSET, ROW_HEIGHT};
use archr_core::model::{ElementId, ElementKind, Model, RelationKind};

fn create_linear_chain() -> Model {
    let mut model = Model::new("test");
    let a = model.add_element("A", ElementKind::BusinessActor);
    let b = model.add_element("B", ElementKind::BusinessActor);
    let c = model.add_element("C", ElementKind::BusinessActor);
    model.link(a, b, RelationKind::Serving);
    model.link(b, c, RelationKind::Serving);
    model
}

fn create_cyclic() -> Model {
    let mut model = Model::new("test");
    let a = model.add_element("A", ElementKind::BusinessActor);
    let b = model.add_element("B", ElementKind::BusinessActor);
    model.link(a, b, RelationKind::Serving);
    model.link(b, a, RelationKind::Serving);
    model
}

fn create_disconnected() -> Model {
    let mut model = Model::new("test");
    let a = model.add_element("A", ElementKind::BusinessActor);
    let b = model.add_element("B", ElementKind::BusinessActor);
    let c = model.add_element("C", ElementKind::BusinessActor);
    let d = model.add_element("D", ElementKind::BusinessActor);
    model.link(a, b, RelationKind::Serving);
    model.link(c, d, RelationKind::Serving);
    model
}

#[test]
fn linear_chain_descends() {
    let positions = calculate_layout(&create_linear_chain());
    assert_eq!(positions, vec![(0, 0), (0, 120), (0, 240)]);
}

#[test]
fn cycle_terminates() {
    let positions = calculate_layout(&create_cyclic());
    assert_eq!(positions, vec![(0, 0), (0, 0)]);
}

#[test]
fn disconnected_components_get_their_own_columns() {
    let positions = calculate_layout(&create_disconnected());
    assert_eq!(positions, vec![(0, 0), (0, 120), (600, 0), (600, 120)]);
    assert_eq!(COMPONENT_OFFSET, 600);
    assert_eq!(ROW_HEIGHT, 120);
}

#[test]
fn isolated_element_at_origin() {
    let mut model = Model::new("test");
    model.add_element("A", ElementKind::BusinessActor);
    assert_eq!(calculate_layout(&model), vec![(0, 0)]);
}

#[test]
fn empty_model_has_no_positions() {
    assert!(calculate_layout(&Model::new("test")).is_empty());
}

#[test]
fn longest_chain_decides_the_row() {
    // a -> b -> c and a -> c: c sits below b.
    let mut model = Model::new("t");
    let a = model.add_element("A", ElementKind::Goal);
    let b = model.add_element("B", ElementKind::Goal);
    let c = model.add_element("C", ElementKind::Goal);
    let d = model.add_element("D", ElementKind::Goal);
    model.link(a, c, RelationKind::Influence);
    model.link(a, b, RelationKind::Influence);
    model.link(b, c, RelationKind::Influence);
    model.link(d, b, RelationKind::Association);
    let positions = calculate_layout(&model);
    assert_eq!(positions, vec![(0, 0), (0, 120), (0, 240), (0, 0)]);
}

#[test]
fn below_a_cycle_one_row_under_settled_predecessors() {
    // a -> b <-> c, c -> d; a is settled at row 0, the rest lie below a cycle.
    let mut model = Model::new("t");
    let a = model.add_element("A", ElementKind::Node);
    let b = model.add_element("B", ElementKind::Node);
    let c = model.add_element("C", ElementKind::Node);
    let d = model.add_element("D", ElementKind::Node);
    let e = model.add_element("E", ElementKind::Node);
    model.link(a, b, RelationKind::Flow);
    model.link(b, c, RelationKind::Flow);
    model.link(c, b, RelationKind::Flow);
    model.link(c, d, RelationKind::Flow);
    model.link(e, e, RelationKind::Flow);
    let positions = calculate_layout(&model);
    assert_eq!(positions, vec![(0, 0), (0, 120), (0, 0), (0, 0), (600, 0)]);
}

#[test]
fn diagram_layout_orders_rows_then_columns() {
    let layout = diagram_layout(&[(600, 0), (0, 120), (0, 0), (600, 0)]);
    assert_eq!(layout.order, vec![ElementId(2), ElementId(0), ElementId(3), ElementId(1)]);
    let b = layout.bounds[1].as_ref().unwrap();
    assert_eq!((b.x.as_str(), b.y.as_str(), b.width.as_str(), b.height.as_str()), ("0", "120", "120", "55"));
    let b = layout.bounds[0].as_ref().unwrap();
    assert_eq!(b.x, "600");
}

#[test]
fn generated_diagram_uses_the_grid() {
    let model = create_disconnected();
    let layout = diagram_layout(&calculate_layout(&model));
    let xml = model_to_xml(&model, &layout).unwrap();
    assert!(xml.contains("<bounds x=\"600\" y=\"120\" width=\"120\" height=\"55\"/>"));
    let first = xml.find("archimateElement=\"e_0\"").unwrap();
    let third = xml.find("archimateElement=\"e_2\"").unwrap();
    let second = xml.find("archimateElement=\"e_1\"").unwrap();
    assert!(first < third && third < second);
}

#[test]
fn generate_draws_every_element_once() {
    let model = create_linear_chain();
    let xml = generate_xml(&model).unwrap();
    assert_eq!(xml.matches("xsi:type=\"archimate:DiagramObject\"").count(), 3);
    assert!(xml.contains("<bounds x=\"0\" y=\"240\" width=\"120\" height=\"55\"/>"));
    assert_eq!(xml.matches("<sourceConnection").count(), 2);
}
