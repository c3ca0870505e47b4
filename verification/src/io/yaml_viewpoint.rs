//! Viewpoint helpers for YAML I/O: the element types each viewpoint allows,
//! following Archi's viewpoint definitions.
use vstd::prelude::*;
use crate::model::{ElementKind, ElementLayer};
use crate::text::str_eq;

verus! {

/// The element types a viewpoint allows, by viewpoint name; `None` for names
/// it does not know (including "Layered", which allows everything).
pub open spec fn spec_allowed_elements(name: Seq<char>) -> Option<Seq<ElementKind>> {
    if name == "Motivation"@ {
        Some(seq![ElementKind::Stakeholder, ElementKind::Driver, ElementKind::Assessment, ElementKind::Goal, ElementKind::Outcome, ElementKind::Principle, ElementKind::Requirement, ElementKind::Constraint, ElementKind::Meaning, ElementKind::Value])
    } else if name == "Strategy"@ {
        Some(seq![ElementKind::Resource, ElementKind::Capability, ElementKind::ValueStream, ElementKind::CourseOfAction])
    } else if name == "Business"@ {
        Some(seq![ElementKind::BusinessActor, ElementKind::BusinessCollaboration, ElementKind::BusinessInterface, ElementKind::BusinessRole, ElementKind::BusinessProcess, ElementKind::BusinessFunction, ElementKind::BusinessInteraction, ElementKind::BusinessEvent, ElementKind::BusinessService, ElementKind::BusinessObject, ElementKind::Contract, ElementKind::Representation, ElementKind::Product])
    } else if name == "Application"@ {
        Some(seq![ElementKind::ApplicationComponent, ElementKind::ApplicationCollaboration, ElementKind::ApplicationInterface, ElementKind::ApplicationFunction, ElementKind::ApplicationProcess, ElementKind::ApplicationInteraction, ElementKind::ApplicationEvent, ElementKind::ApplicationService, ElementKind::DataObject])
    } else if name == "Technology"@ {
        Some(seq![ElementKind::Node, ElementKind::Device, ElementKind::SystemSoftware, ElementKind::TechnologyCollaboration, ElementKind::TechnologyInterface, ElementKind::Path, ElementKind::CommunicationNetwork, ElementKind::Artifact, ElementKind::TechnologyFunction, ElementKind::TechnologyProcess, ElementKind::TechnologyInteraction, ElementKind::TechnologyEvent, ElementKind::TechnologyService])
    } else if name == "Physical"@ {
        Some(seq![ElementKind::Node, ElementKind::Device, ElementKind::SystemSoftware, ElementKind::TechnologyCollaboration, ElementKind::TechnologyInterface, ElementKind::Path, ElementKind::CommunicationNetwork, ElementKind::Artifact, ElementKind::TechnologyFunction, ElementKind::TechnologyProcess, ElementKind::TechnologyInteraction, ElementKind::TechnologyEvent, ElementKind::TechnologyService, ElementKind::Equipment, ElementKind::Facility, ElementKind::Material, ElementKind::DistributionNetwork])
    } else if name == "Implementation"@ {
        Some(seq![ElementKind::ApplicationComponent, ElementKind::ApplicationCollaboration, ElementKind::ApplicationInterface, ElementKind::ApplicationFunction, ElementKind::ApplicationProcess, ElementKind::ApplicationInteraction, ElementKind::ApplicationEvent, ElementKind::ApplicationService, ElementKind::DataObject, ElementKind::Artifact, ElementKind::Path, ElementKind::SystemSoftware, ElementKind::TechnologyFunction, ElementKind::TechnologyInteraction, ElementKind::TechnologyInterface, ElementKind::TechnologyProcess, ElementKind::TechnologyService])
    } else if name == "Other"@ {
        Some(seq![ElementKind::Grouping, ElementKind::Location, ElementKind::AndJunction, ElementKind::OrJunction])
    } else {
        None
    }
}

/// Returns the element types allowed by a viewpoint, or `None` for names that
/// are not known (including "Layered", which allows all).
pub fn allowed_elements_for_viewpoint(viewpoint_name: &str) -> (res: Option<Vec<ElementKind>>)
    ensures
        match spec_allowed_elements(viewpoint_name@) {
            Some(kinds) => res matches Some(v) && v@ == kinds,
            None => res is None,
        },
{
    let mut v: Vec<ElementKind> = Vec::new();
    if str_eq(viewpoint_name, "Motivation") {
        v.push(ElementKind::Stakeholder);
        v.push(ElementKind::Driver);
        v.push(ElementKind::Assessment);
        v.push(ElementKind::Goal);
        v.push(ElementKind::Outcome);
        v.push(ElementKind::Principle);
        v.push(ElementKind::Requirement);
        v.push(ElementKind::Constraint);
        v.push(ElementKind::Meaning);
        v.push(ElementKind::Value);
    } else if str_eq(viewpoint_name, "Strategy") {
        v.push(ElementKind::Resource);
        v.push(ElementKind::Capability);
        v.push(ElementKind::ValueStream);
        v.push(ElementKind::CourseOfAction);
    } else if str_eq(viewpoint_name, "Business") {
        v.push(ElementKind::BusinessActor);
        v.push(ElementKind::BusinessCollaboration);
        v.push(ElementKind::BusinessInterface);
        v.push(ElementKind::BusinessRole);
        v.push(ElementKind::BusinessProcess);
        v.push(ElementKind::BusinessFunction);
        v.push(ElementKind::BusinessInteraction);
        v.push(ElementKind::BusinessEvent);
        v.push(ElementKind::BusinessService);
        v.push(ElementKind::BusinessObject);
        v.push(ElementKind::Contract);
        v.push(ElementKind::Representation);
        v.push(ElementKind::Product);
    } else if str_eq(viewpoint_name, "Application") {
        v.push(ElementKind::ApplicationComponent);
        v.push(ElementKind::ApplicationCollaboration);
        v.push(ElementKind::ApplicationInterface);
        v.push(ElementKind::ApplicationFunction);
        v.push(ElementKind::ApplicationProcess);
        v.push(ElementKind::ApplicationInteraction);
        v.push(ElementKind::ApplicationEvent);
        v.push(ElementKind::ApplicationService);
        v.push(ElementKind::DataObject);
    } else if str_eq(viewpoint_name, "Technology") {
        v.push(ElementKind::Node);
        v.push(ElementKind::Device);
        v.push(ElementKind::SystemSoftware);
        v.push(ElementKind::TechnologyCollaboration);
        v.push(ElementKind::TechnologyInterface);
        v.push(ElementKind::Path);
        v.push(ElementKind::CommunicationNetwork);
        v.push(ElementKind::Artifact);
        v.push(ElementKind::TechnologyFunction);
        v.push(ElementKind::TechnologyProcess);
        v.push(ElementKind::TechnologyInteraction);
        v.push(ElementKind::TechnologyEvent);
        v.push(ElementKind::TechnologyService);
    } else if str_eq(viewpoint_name, "Physical") {
        v.push(ElementKind::Node);
        v.push(ElementKind::Device);
        v.push(ElementKind::SystemSoftware);
        v.push(ElementKind::TechnologyCollaboration);
        v.push(ElementKind::TechnologyInterface);
        v.push(ElementKind::Path);
        v.push(ElementKind::CommunicationNetwork);
        v.push(ElementKind::Artifact);
        v.push(ElementKind::TechnologyFunction);
        v.push(ElementKind::TechnologyProcess);
        v.push(ElementKind::TechnologyInteraction);
        v.push(ElementKind::TechnologyEvent);
        v.push(ElementKind::TechnologyService);
        v.push(ElementKind::Equipment);
        v.push(ElementKind::Facility);
        v.push(ElementKind::Material);
        v.push(ElementKind::DistributionNetwork);
    } else if str_eq(viewpoint_name, "Implementation") {
        v.push(ElementKind::ApplicationComponent);
        v.push(ElementKind::ApplicationCollaboration);
        v.push(ElementKind::ApplicationInterface);
        v.push(ElementKind::ApplicationFunction);
        v.push(ElementKind::ApplicationProcess);
        v.push(ElementKind::ApplicationInteraction);
        v.push(ElementKind::ApplicationEvent);
        v.push(ElementKind::ApplicationService);
        v.push(ElementKind::DataObject);
        v.push(ElementKind::Artifact);
        v.push(ElementKind::Path);
        v.push(ElementKind::SystemSoftware);
        v.push(ElementKind::TechnologyFunction);
        v.push(ElementKind::TechnologyInteraction);
        v.push(ElementKind::TechnologyInterface);
        v.push(ElementKind::TechnologyProcess);
        v.push(ElementKind::TechnologyService);
    } else if str_eq(viewpoint_name, "Other") {
        v.push(ElementKind::Grouping);
        v.push(ElementKind::Location);
        v.push(ElementKind::AndJunction);
        v.push(ElementKind::OrJunction);
    } else {
        return None;
    }
    Some(v)
}

/// The layer a layer viewpoint shows, by viewpoint name.
pub open spec fn viewpoint_layer(name: Seq<char>) -> Option<ElementLayer> {
    if name == "Motivation"@ {
        Some(ElementLayer::Motivation)
    } else if name == "Strategy"@ {
        Some(ElementLayer::Strategy)
    } else if name == "Business"@ {
        Some(ElementLayer::Business)
    } else if name == "Application"@ {
        Some(ElementLayer::Application)
    } else if name == "Technology"@ {
        Some(ElementLayer::Technology)
    } else if name == "Other"@ {
        Some(ElementLayer::Other)
    } else {
        None
    }
}

/// A layer viewpoint allows exactly the element types of its layer, each once.
pub proof fn lemma_layer_viewpoints_show_their_layer(name: Seq<char>)
    requires
        viewpoint_layer(name) is Some,
    ensures
        spec_allowed_elements(name) matches Some(v) && {
            let layer = viewpoint_layer(name)->0;
            &&& v.len() == layer.spec_elements().len()
            &&& v.no_duplicates()
            &&& forall|i: int| 0 <= i < v.len() ==> (#[trigger] v[i]).spec_layer() == layer
            &&& forall|j: int| 0 <= j < layer.spec_elements().len() ==> v.contains(#[trigger] layer.spec_elements()[j])
        },
{
    reveal_strlit("Motivation");
    reveal_strlit("Strategy");
    reveal_strlit("Business");
    reveal_strlit("Application");
    reveal_strlit("Technology");
    reveal_strlit("Physical");
    reveal_strlit("Implementation");
    reveal_strlit("Other");
    assert("Motivation"@.len() == 10 && "Motivation"@[0] == 'M' && "Motivation"@[1] == 'o');
    assert("Strategy"@.len() == 8 && "Strategy"@[0] == 'S' && "Strategy"@[1] == 't');
    assert("Business"@.len() == 8 && "Business"@[0] == 'B' && "Business"@[1] == 'u');
    assert("Application"@.len() == 11 && "Application"@[0] == 'A' && "Application"@[1] == 'p');
    assert("Technology"@.len() == 10 && "Technology"@[0] == 'T' && "Technology"@[1] == 'e');
    assert("Physical"@.len() == 8 && "Physical"@[0] == 'P' && "Physical"@[1] == 'h');
    assert("Implementation"@.len() == 14 && "Implementation"@[0] == 'I' && "Implementation"@[1] == 'm');
    assert("Other"@.len() == 5 && "Other"@[0] == 'O' && "Other"@[1] == 't');
    if name == "Motivation"@ {
        let v = spec_allowed_elements(name)->0;
        let l = ElementLayer::Motivation.spec_elements();
        assert forall|i: int| 0 <= i < v.len() implies (#[trigger] v[i]).spec_layer() == ElementLayer::Motivation by {
            assert(i == 0 || i == 1 || i == 2 || i == 3 || i == 4 || i == 5 || i == 6 || i == 7 || i == 8 || i == 9);
        }
        assert forall|j: int| 0 <= j < l.len() implies v.contains(#[trigger] l[j]) by {
            if j == 0 { assert(v[0] == l[j]); 
            } else if j == 1 { assert(v[1] == l[j]); 
            } else if j == 2 { assert(v[2] == l[j]); 
            } else if j == 3 { assert(v[3] == l[j]); 
            } else if j == 4 { assert(v[4] == l[j]); 
            } else if j == 5 { assert(v[5] == l[j]); 
            } else if j == 6 { assert(v[6] == l[j]); 
            } else if j == 7 { assert(v[7] == l[j]); 
            } else if j == 8 { assert(v[8] == l[j]); 
            } else if j == 9 { assert(v[9] == l[j]); 
            }
        }
        assert forall|a: int, b: int| 0 <= a < v.len() && 0 <= b < v.len() && a != b implies v[a] != v[b] by {
            assert(a == 0 || a == 1 || a == 2 || a == 3 || a == 4 || a == 5 || a == 6 || a == 7 || a == 8 || a == 9);
            assert(b == 0 || b == 1 || b == 2 || b == 3 || b == 4 || b == 5 || b == 6 || b == 7 || b == 8 || b == 9);
        }
    } else if name == "Strategy"@ {
        let v = spec_allowed_elements(name)->0;
        let l = ElementLayer::Strategy.spec_elements();
        assert forall|i: int| 0 <= i < v.len() implies (#[trigger] v[i]).spec_layer() == ElementLayer::Strategy by {
            assert(i == 0 || i == 1 || i == 2 || i == 3);
        }
        assert forall|j: int| 0 <= j < l.len() implies v.contains(#[trigger] l[j]) by {
            if j == 0 { assert(v[0] == l[j]); 
            } else if j == 1 { assert(v[1] == l[j]); 
            } else if j == 2 { assert(v[2] == l[j]); 
            } else if j == 3 { assert(v[3] == l[j]); 
            }
        }
        assert forall|a: int, b: int| 0 <= a < v.len() && 0 <= b < v.len() && a != b implies v[a] != v[b] by {
            assert(a == 0 || a == 1 || a == 2 || a == 3);
            assert(b == 0 || b == 1 || b == 2 || b == 3);
        }
    } else if name == "Business"@ {
        let v = spec_allowed_elements(name)->0;
        let l = ElementLayer::Business.spec_elements();
        assert forall|i: int| 0 <= i < v.len() implies (#[trigger] v[i]).spec_layer() == ElementLayer::Business by {
            assert(i == 0 || i == 1 || i == 2 || i == 3 || i == 4 || i == 5 || i == 6 || i == 7 || i == 8 || i == 9 || i == 10 || i == 11 || i == 12);
        }
        assert forall|j: int| 0 <= j < l.len() implies v.contains(#[trigger] l[j]) by {
            if j == 0 { assert(v[0] == l[j]); 
            } else if j == 1 { assert(v[3] == l[j]); 
            } else if j == 2 { assert(v[1] == l[j]); 
            } else if j == 3 { assert(v[2] == l[j]); 
            } else if j == 4 { assert(v[4] == l[j]); 
            } else if j == 5 { assert(v[5] == l[j]); 
            } else if j == 6 { assert(v[6] == l[j]); 
            } else if j == 7 { assert(v[7] == l[j]); 
            } else if j == 8 { assert(v[8] == l[j]); 
            } else if j == 9 { assert(v[9] == l[j]); 
            } else if j == 10 { assert(v[10] == l[j]); 
            } else if j == 11 { assert(v[11] == l[j]); 
            } else if j == 12 { assert(v[12] == l[j]); 
            }
        }
        assert forall|a: int, b: int| 0 <= a < v.len() && 0 <= b < v.len() && a != b implies v[a] != v[b] by {
            assert(a == 0 || a == 1 || a == 2 || a == 3 || a == 4 || a == 5 || a == 6 || a == 7 || a == 8 || a == 9 || a == 10 || a == 11 || a == 12);
            assert(b == 0 || b == 1 || b == 2 || b == 3 || b == 4 || b == 5 || b == 6 || b == 7 || b == 8 || b == 9 || b == 10 || b == 11 || b == 12);
        }
    } else if name == "Application"@ {
        let v = spec_allowed_elements(name)->0;
        let l = ElementLayer::Application.spec_elements();
        assert forall|i: int| 0 <= i < v.len() implies (#[trigger] v[i]).spec_layer() == ElementLayer::Application by {
            assert(i == 0 || i == 1 || i == 2 || i == 3 || i == 4 || i == 5 || i == 6 || i == 7 || i == 8);
        }
        assert forall|j: int| 0 <= j < l.len() implies v.contains(#[trigger] l[j]) by {
            if j == 0 { assert(v[0] == l[j]); 
            } else if j == 1 { assert(v[1] == l[j]); 
            } else if j == 2 { assert(v[2] == l[j]); 
            } else if j == 3 { assert(v[3] == l[j]); 
            } else if j == 4 { assert(v[5] == l[j]); 
            } else if j == 5 { assert(v[4] == l[j]); 
            } else if j == 6 { assert(v[6] == l[j]); 
            } else if j == 7 { assert(v[7] == l[j]); 
            } else if j == 8 { assert(v[8] == l[j]); 
            }
        }
        assert forall|a: int, b: int| 0 <= a < v.len() && 0 <= b < v.len() && a != b implies v[a] != v[b] by {
            assert(a == 0 || a == 1 || a == 2 || a == 3 || a == 4 || a == 5 || a == 6 || a == 7 || a == 8);
            assert(b == 0 || b == 1 || b == 2 || b == 3 || b == 4 || b == 5 || b == 6 || b == 7 || b == 8);
        }
    } else if name == "Technology"@ {
        let v = spec_allowed_elements(name)->0;
        let l = ElementLayer::Technology.spec_elements();
        assert forall|i: int| 0 <= i < v.len() implies (#[trigger] v[i]).spec_layer() == ElementLayer::Technology by {
            assert(i == 0 || i == 1 || i == 2 || i == 3 || i == 4 || i == 5 || i == 6 || i == 7 || i == 8 || i == 9 || i == 10 || i == 11 || i == 12);
        }
        assert forall|j: int| 0 <= j < l.len() implies v.contains(#[trigger] l[j]) by {
            if j == 0 { assert(v[0] == l[j]); 
            } else if j == 1 { assert(v[1] == l[j]); 
            } else if j == 2 { assert(v[2] == l[j]); 
            } else if j == 3 { assert(v[3] == l[j]); 
            } else if j == 4 { assert(v[4] == l[j]); 
            } else if j == 5 { assert(v[5] == l[j]); 
            } else if j == 6 { assert(v[6] == l[j]); 
            } else if j == 7 { assert(v[8] == l[j]); 
            } else if j == 8 { assert(v[9] == l[j]); 
            } else if j == 9 { assert(v[10] == l[j]); 
            } else if j == 10 { assert(v[11] == l[j]); 
            } else if j == 11 { assert(v[12] == l[j]); 
            } else if j == 12 { assert(v[7] == l[j]); 
            }
        }
        assert forall|a: int, b: int| 0 <= a < v.len() && 0 <= b < v.len() && a != b implies v[a] != v[b] by {
            assert(a == 0 || a == 1 || a == 2 || a == 3 || a == 4 || a == 5 || a == 6 || a == 7 || a == 8 || a == 9 || a == 10 || a == 11 || a == 12);
            assert(b == 0 || b == 1 || b == 2 || b == 3 || b == 4 || b == 5 || b == 6 || b == 7 || b == 8 || b == 9 || b == 10 || b == 11 || b == 12);
        }
    } else if name == "Other"@ {
        let v = spec_allowed_elements(name)->0;
        let l = ElementLayer::Other.spec_elements();
        assert forall|i: int| 0 <= i < v.len() implies (#[trigger] v[i]).spec_layer() == ElementLayer::Other by {
            assert(i == 0 || i == 1 || i == 2 || i == 3);
        }
        assert forall|j: int| 0 <= j < l.len() implies v.contains(#[trigger] l[j]) by {
            if j == 0 { assert(v[1] == l[j]); 
            } else if j == 1 { assert(v[0] == l[j]); 
            } else if j == 2 { assert(v[2] == l[j]); 
            } else if j == 3 { assert(v[3] == l[j]); 
            }
        }
        assert forall|a: int, b: int| 0 <= a < v.len() && 0 <= b < v.len() && a != b implies v[a] != v[b] by {
            assert(a == 0 || a == 1 || a == 2 || a == 3);
            assert(b == 0 || b == 1 || b == 2 || b == 3);
        }
    }
}

/// The Implementation viewpoint allows, each once, the element types of the
/// application layer and, of the technology layer, Artifact, Path,
/// SystemSoftware, TechnologyFunction, TechnologyInteraction,
/// TechnologyInterface, TechnologyProcess and TechnologyService.
pub proof fn lemma_implementation_viewpoint_kinds(k: ElementKind)
    ensures
        spec_allowed_elements("Implementation"@) matches Some(v) && {
            &&& v.len() == 17
            &&& v.no_duplicates()
            &&& v.contains(k) <==> (k.spec_layer() == ElementLayer::Application || k == ElementKind::Artifact || k == ElementKind::Path || k == ElementKind::SystemSoftware || k == ElementKind::TechnologyFunction || k == ElementKind::TechnologyInteraction || k == ElementKind::TechnologyInterface || k == ElementKind::TechnologyProcess || k == ElementKind::TechnologyService)
        },
{
    reveal_strlit("Motivation");
    reveal_strlit("Strategy");
    reveal_strlit("Business");
    reveal_strlit("Application");
    reveal_strlit("Technology");
    reveal_strlit("Physical");
    reveal_strlit("Implementation");
    reveal_strlit("Other");
    assert("Motivation"@.len() == 10 && "Motivation"@[0] == 'M' && "Motivation"@[1] == 'o');
    assert("Strategy"@.len() == 8 && "Strategy"@[0] == 'S' && "Strategy"@[1] == 't');
    assert("Business"@.len() == 8 && "Business"@[0] == 'B' && "Business"@[1] == 'u');
    assert("Application"@.len() == 11 && "Application"@[0] == 'A' && "Application"@[1] == 'p');
    assert("Technology"@.len() == 10 && "Technology"@[0] == 'T' && "Technology"@[1] == 'e');
    assert("Physical"@.len() == 8 && "Physical"@[0] == 'P' && "Physical"@[1] == 'h');
    assert("Implementation"@.len() == 14 && "Implementation"@[0] == 'I' && "Implementation"@[1] == 'm');
    assert("Other"@.len() == 5 && "Other"@[0] == 'O' && "Other"@[1] == 't');
    let v = spec_allowed_elements("Implementation"@)->0;
    assert(v.len() == 17);
    assert forall|i: int| 0 <= i < v.len() implies (#[trigger] v[i]).spec_layer() == ElementLayer::Application || v[i] == ElementKind::Artifact || v[i] == ElementKind::Path || v[i] == ElementKind::SystemSoftware || v[i] == ElementKind::TechnologyFunction || v[i] == ElementKind::TechnologyInteraction || v[i] == ElementKind::TechnologyInterface || v[i] == ElementKind::TechnologyProcess || v[i] == ElementKind::TechnologyService by {
        assert(i == 0 || i == 1 || i == 2 || i == 3 || i == 4 || i == 5 || i == 6 || i == 7 || i == 8 || i == 9 || i == 10 || i == 11 || i == 12 || i == 13 || i == 14 || i == 15 || i == 16);
    }
    if v.contains(k) {
        let i = choose|i: int| 0 <= i < v.len() && v[i] == k;
        assert(v[i].spec_layer() == ElementLayer::Application || v[i] == ElementKind::Artifact || v[i] == ElementKind::Path || v[i] == ElementKind::SystemSoftware || v[i] == ElementKind::TechnologyFunction || v[i] == ElementKind::TechnologyInteraction || v[i] == ElementKind::TechnologyInterface || v[i] == ElementKind::TechnologyProcess || v[i] == ElementKind::TechnologyService);
    }
    match k {
        ElementKind::ApplicationComponent => assert(v[0] == k),
        ElementKind::ApplicationCollaboration => assert(v[1] == k),
        ElementKind::ApplicationInterface => assert(v[2] == k),
        ElementKind::ApplicationFunction => assert(v[3] == k),
        ElementKind::ApplicationProcess => assert(v[4] == k),
        ElementKind::ApplicationInteraction => assert(v[5] == k),
        ElementKind::ApplicationEvent => assert(v[6] == k),
        ElementKind::ApplicationService => assert(v[7] == k),
        ElementKind::DataObject => assert(v[8] == k),
        ElementKind::SystemSoftware => assert(v[11] == k),
        ElementKind::TechnologyInterface => assert(v[14] == k),
        ElementKind::Path => assert(v[10] == k),
        ElementKind::Artifact => assert(v[9] == k),
        ElementKind::TechnologyFunction => assert(v[12] == k),
        ElementKind::TechnologyProcess => assert(v[15] == k),
        ElementKind::TechnologyInteraction => assert(v[13] == k),
        ElementKind::TechnologyService => assert(v[16] == k),
        _ => {},
    }
    assert forall|a: int, b: int| 0 <= a < v.len() && 0 <= b < v.len() && a != b implies v[a] != v[b] by {
        assert(a == 0 || a == 1 || a == 2 || a == 3 || a == 4 || a == 5 || a == 6 || a == 7 || a == 8 || a == 9 || a == 10 || a == 11 || a == 12 || a == 13 || a == 14 || a == 15 || a == 16);
        assert(b == 0 || b == 1 || b == 2 || b == 3 || b == 4 || b == 5 || b == 6 || b == 7 || b == 8 || b == 9 || b == 10 || b == 11 || b == 12 || b == 13 || b == 14 || b == 15 || b == 16);
    }
}

/// The Physical viewpoint allows, each once, the element types of the
/// technology layer and of the physical layer.
pub proof fn lemma_physical_viewpoint_kinds(k: ElementKind)
    ensures
        spec_allowed_elements("Physical"@) matches Some(v) && {
            &&& v.len() == 17
            &&& v.no_duplicates()
            &&& v.contains(k) <==> (k.spec_layer() == ElementLayer::Technology || k.spec_layer() == ElementLayer::Physical)
        },
{
    reveal_strlit("Motivation");
    reveal_strlit("Strategy");
    reveal_strlit("Business");
    reveal_strlit("Application");
    reveal_strlit("Technology");
    reveal_strlit("Physical");
    reveal_strlit("Implementation");
    reveal_strlit("Other");
    assert("Motivation"@.len() == 10 && "Motivation"@[0] == 'M' && "Motivation"@[1] == 'o');
    assert("Strategy"@.len() == 8 && "Strategy"@[0] == 'S' && "Strategy"@[1] == 't');
    assert("Business"@.len() == 8 && "Business"@[0] == 'B' && "Business"@[1] == 'u');
    assert("Application"@.len() == 11 && "Application"@[0] == 'A' && "Application"@[1] == 'p');
    assert("Technology"@.len() == 10 && "Technology"@[0] == 'T' && "Technology"@[1] == 'e');
    assert("Physical"@.len() == 8 && "Physical"@[0] == 'P' && "Physical"@[1] == 'h');
    assert("Implementation"@.len() == 14 && "Implementation"@[0] == 'I' && "Implementation"@[1] == 'm');
    assert("Other"@.len() == 5 && "Other"@[0] == 'O' && "Other"@[1] == 't');
    let v = spec_allowed_elements("Physical"@)->0;
    assert(v.len() == 17);
    assert forall|i: int| 0 <= i < v.len() implies (#[trigger] v[i]).spec_layer() == ElementLayer::Technology || v[i].spec_layer() == ElementLayer::Physical by {
        assert(i == 0 || i == 1 || i == 2 || i == 3 || i == 4 || i == 5 || i == 6 || i == 7 || i == 8 || i == 9 || i == 10 || i == 11 || i == 12 || i == 13 || i == 14 || i == 15 || i == 16);
    }
    if v.contains(k) {
        let i = choose|i: int| 0 <= i < v.len() && v[i] == k;
        assert(v[i].spec_layer() == ElementLayer::Technology || v[i].spec_layer() == ElementLayer::Physical);
    }
    match k {
        ElementKind::Node => assert(v[0] == k),
        ElementKind::Device => assert(v[1] == k),
        ElementKind::SystemSoftware => assert(v[2] == k),
        ElementKind::TechnologyCollaboration => assert(v[3] == k),
        ElementKind::TechnologyInterface => assert(v[4] == k),
        ElementKind::Path => assert(v[5] == k),
        ElementKind::CommunicationNetwork => assert(v[6] == k),
        ElementKind::Artifact => assert(v[7] == k),
        ElementKind::TechnologyFunction => assert(v[8] == k),
        ElementKind::TechnologyProcess => assert(v[9] == k),
        ElementKind::TechnologyInteraction => assert(v[10] == k),
        ElementKind::TechnologyEvent => assert(v[11] == k),
        ElementKind::TechnologyService => assert(v[12] == k),
        ElementKind::Equipment => assert(v[13] == k),
        ElementKind::Facility => assert(v[14] == k),
        ElementKind::Material => assert(v[15] == k),
        ElementKind::DistributionNetwork => assert(v[16] == k),
        _ => {},
    }
    assert forall|a: int, b: int| 0 <= a < v.len() && 0 <= b < v.len() && a != b implies v[a] != v[b] by {
        assert(a == 0 || a == 1 || a == 2 || a == 3 || a == 4 || a == 5 || a == 6 || a == 7 || a == 8 || a == 9 || a == 10 || a == 11 || a == 12 || a == 13 || a == 14 || a == 15 || a == 16);
        assert(b == 0 || b == 1 || b == 2 || b == 3 || b == 4 || b == 5 || b == 6 || b == 7 || b == 8 || b == 9 || b == 10 || b == 11 || b == 12 || b == 13 || b == 14 || b == 15 || b == 16);
    }
}

} // verus!
