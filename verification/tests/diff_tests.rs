use archr_core::diff::{DiffReport, ModelDiffAnalyzer};
use archr_core::model::{ElementKind, Model, RelationKind};

fn sample_model() -> Model {
    let mut m = Model::new("existing");
    let a = m.add_element("Actor", ElementKind::BusinessActor);
    let b = m.add_element("Service", ElementKind::BusinessService);
    m.link(a, b, RelationKind::Serving);
    m
}

#[test]
fn test_identical_models_empty_diff() {
    let existing = sample_model();
    let analyzer = ModelDiffAnalyzer::from_existing(&existing);

    // Same model again.
    let new = sample_model();
    let report = analyzer.analyze_update(&new).unwrap();

    assert!(report.added.is_empty());
    assert!(report.removed.is_empty());
    assert!(report.modified.is_empty());
}

#[test]
fn test_added_element() {
    let existing = sample_model();
    let analyzer = ModelDiffAnalyzer::from_existing(&existing);

    let mut new = sample_model();
    new.add_element("Database", ElementKind::DataObject);

    let report = analyzer.analyze_update(&new).unwrap();
    assert_eq!(report.added, vec!["Database"]);
    assert!(report.removed.is_empty());
}

#[test]
fn test_removed_element() {
    let existing = sample_model();
    let analyzer = ModelDiffAnalyzer::from_existing(&existing);

    // New model with only "Actor", missing "Service".
    let mut new = Model::new("new");
    new.add_element("Actor", ElementKind::BusinessActor);

    let report = analyzer.analyze_update(&new).unwrap();
    assert!(report.added.is_empty());
    assert_eq!(report.removed, vec!["Service"]);
}

#[test]
fn test_modified_element_kind_change() {
    let existing = sample_model();
    let analyzer = ModelDiffAnalyzer::from_existing(&existing);

    // Same name but different kind.
    let mut new = Model::new("new");
    new.add_element("Actor", ElementKind::BusinessRole);
    new.add_element("Service", ElementKind::BusinessService);

    let report = analyzer.analyze_update(&new).unwrap();
    assert_eq!(report.modified, vec!["Actor"]);
}

#[test]
fn test_added_and_removed_simultaneously() {
    let existing = sample_model();
    let analyzer = ModelDiffAnalyzer::from_existing(&existing);

    let mut new = Model::new("new");
    new.add_element("Actor", ElementKind::BusinessActor);
    new.add_element("Node", ElementKind::Node);

    let report = analyzer.analyze_update(&new).unwrap();
    assert_eq!(report.added, vec!["Node"]);
    assert_eq!(report.removed, vec!["Service"]);
}

#[test]
fn test_empty_models() {
    let existing = Model::new("empty");
    let analyzer = ModelDiffAnalyzer::from_existing(&existing);

    let new = Model::new("also_empty");
    let report = analyzer.analyze_update(&new).unwrap();

    assert!(report.added.is_empty());
    assert!(report.removed.is_empty());
    assert!(report.modified.is_empty());
}

// ---------------------------------------------------------------------------
// Further cases
// ---------------------------------------------------------------------------

#[test]
fn lists_are_sorted_and_free_of_repeats() {
    let mut old = Model::new("old");
    old.add_element("zeta", ElementKind::Goal);
    old.add_element("alpha", ElementKind::Goal);
    old.add_element("Mid", ElementKind::Goal);
    old.add_element("kept", ElementKind::Node);
    let analyzer = ModelDiffAnalyzer::from_existing(&old);

    let mut new = Model::new("new");
    new.add_element("kept", ElementKind::Device);
    new.add_element("b", ElementKind::Goal);
    new.add_element("B", ElementKind::Goal);
    new.add_element("b", ElementKind::Goal);
    new.add_element("a", ElementKind::Goal);

    let report = analyzer.analyze_update(&new).unwrap();
    assert_eq!(report.added, vec!["B", "a", "b"]);
    assert_eq!(report.removed, vec!["Mid", "alpha", "zeta"]);
    assert_eq!(report.modified, vec!["kept"]);
}

#[test]
fn later_element_of_a_name_decides_its_kind() {
    let mut old = Model::new("old");
    old.add_element("x", ElementKind::Goal);
    old.add_element("x", ElementKind::Node);
    let analyzer = ModelDiffAnalyzer::from_existing(&old);

    let mut same = Model::new("same");
    same.add_element("x", ElementKind::Node);
    let report = analyzer.analyze_update(&same).unwrap();
    assert!(report.modified.is_empty());

    let mut other = Model::new("other");
    other.add_element("x", ElementKind::Goal);
    let report = analyzer.analyze_update(&other).unwrap();
    assert_eq!(report.modified, vec!["x"]);
}

#[test]
fn reversed_comparison_swaps_added_and_removed() {
    let a = sample_model();
    let mut b = Model::new("b");
    b.add_element("Actor", ElementKind::BusinessRole);
    b.add_element("Extra", ElementKind::Node);
    let forward = ModelDiffAnalyzer::from_existing(&a).analyze_update(&b).unwrap();
    let backward = ModelDiffAnalyzer::from_existing(&b).analyze_update(&a).unwrap();
    assert_eq!(forward.added, backward.removed);
    assert_eq!(forward.removed, backward.added);
    assert_eq!(forward.modified, backward.modified);
    assert_eq!(forward.added, vec!["Extra"]);
    assert_eq!(forward.removed, vec!["Service"]);
    assert_eq!(forward.modified, vec!["Actor"]);
}

#[test]
fn default_report_is_empty() {
    let r = DiffReport::default();
    assert!(r.added.is_empty() && r.removed.is_empty() && r.modified.is_empty());
}

#[test]
fn report_ignores_everything_but_names_and_kinds() {
    let mut a = Model::new("a");
    let x = a.add_element("X", ElementKind::Goal);
    let y = a.add_element("Y", ElementKind::Node);
    a.link(x, y, RelationKind::Influence);
    let mut b = Model::new("other");
    b.add_element("Y", ElementKind::Goal);
    b.add_element_with_id("id", "X", ElementKind::Goal);
    b.add_element("Y", ElementKind::Node);
    let mut n = Model::new("n");
    n.add_element("Y", ElementKind::Device);
    n.add_element("Z", ElementKind::Goal);
    let r1 = ModelDiffAnalyzer::from_existing(&a).analyze_update(&n).unwrap();
    let r2 = ModelDiffAnalyzer::from_existing(&b).analyze_update(&n).unwrap();
    assert_eq!((r1.added.clone(), r1.removed.clone(), r1.modified.clone()), (r2.added, r2.removed, r2.modified));
    assert_eq!(r1.added, vec!["Z"]);
    assert_eq!(r1.removed, vec!["X"]);
    assert_eq!(r1.modified, vec!["Y"]);
}
