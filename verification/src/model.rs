//! Arena-based graph model for ArchiMate 3.2.
//!
//! Elements and relationships live in vectors and are addressed by typed
//! indices (`ElementId`, `RelationId`).
use vstd::prelude::*;
use vstd::string::StringExecFns;
use vstd::std_specs::iter::IteratorSpec;
use crate::text::{ascii_lower, decimal, push_decimal, str_eq, to_ascii_lower};

verus! {

/// ArchiMate 3.2 metamodel layers.
#[derive(Debug, Clone, Copy, PartialEq, Eq, Hash, Structural)]
pub enum ElementLayer {
    Strategy,
    Business,
    Application,
    Technology,
    Physical,
    Motivation,
    Implementation,
    Other,
}

/// All ArchiMate 3.2 element types, organized by layer.
///
/// Variant names match the Open Exchange `xsi:type` attribute exactly.
#[derive(Debug, Clone, Copy, PartialEq, Eq, Hash, Structural)]
pub enum ElementKind {
    Stakeholder,
    Driver,
    Assessment,
    Goal,
    Outcome,
    Principle,
    Requirement,
    Constraint,
    Meaning,
    Value,
    Resource,
    Capability,
    ValueStream,
    CourseOfAction,
    BusinessActor,
    BusinessRole,
    BusinessCollaboration,
    BusinessInterface,
    BusinessProcess,
    BusinessFunction,
    BusinessInteraction,
    BusinessEvent,
    BusinessService,
    BusinessObject,
    Contract,
    Representation,
    Product,
    ApplicationComponent,
    ApplicationCollaboration,
    ApplicationInterface,
    ApplicationFunction,
    ApplicationProcess,
    ApplicationInteraction,
    ApplicationEvent,
    ApplicationService,
    DataObject,
    Node,
    Device,
    SystemSoftware,
    TechnologyCollaboration,
    TechnologyInterface,
    Path,
    CommunicationNetwork,
    Artifact,
    TechnologyFunction,
    TechnologyProcess,
    TechnologyInteraction,
    TechnologyEvent,
    TechnologyService,
    Equipment,
    Facility,
    Material,
    DistributionNetwork,
    WorkPackage,
    Deliverable,
    ImplementationEvent,
    Plateau,
    Gap,
    Grouping,
    Location,
    AndJunction,
    OrJunction,
}

impl ElementKind {
    /// Total number of element kind variants.
    pub const VARIANT_COUNT: usize = 62;

    /// The metamodel layer of an element type.
    pub open spec fn spec_layer(self) -> ElementLayer {
        match self {
            ElementKind::Stakeholder => ElementLayer::Motivation,
            ElementKind::Driver => ElementLayer::Motivation,
            ElementKind::Assessment => ElementLayer::Motivation,
            ElementKind::Goal => ElementLayer::Motivation,
            ElementKind::Outcome => ElementLayer::Motivation,
            ElementKind::Principle => ElementLayer::Motivation,
            ElementKind::Requirement => ElementLayer::Motivation,
            ElementKind::Constraint => ElementLayer::Motivation,
            ElementKind::Meaning => ElementLayer::Motivation,
            ElementKind::Value => ElementLayer::Motivation,
            ElementKind::Resource => ElementLayer::Strategy,
            ElementKind::Capability => ElementLayer::Strategy,
            ElementKind::ValueStream => ElementLayer::Strategy,
            ElementKind::CourseOfAction => ElementLayer::Strategy,
            ElementKind::BusinessActor => ElementLayer::Business,
            ElementKind::BusinessRole => ElementLayer::Business,
            ElementKind::BusinessCollaboration => ElementLayer::Business,
            ElementKind::BusinessInterface => ElementLayer::Business,
            ElementKind::BusinessProcess => ElementLayer::Business,
            ElementKind::BusinessFunction => ElementLayer::Business,
            ElementKind::BusinessInteraction => ElementLayer::Business,
            ElementKind::BusinessEvent => ElementLayer::Business,
            ElementKind::BusinessService => ElementLayer::Business,
            ElementKind::BusinessObject => ElementLayer::Business,
            ElementKind::Contract => ElementLayer::Business,
            ElementKind::Representation => ElementLayer::Business,
            ElementKind::Product => ElementLayer::Business,
            ElementKind::ApplicationComponent => ElementLayer::Application,
            ElementKind::ApplicationCollaboration => ElementLayer::Application,
            ElementKind::ApplicationInterface => ElementLayer::Application,
            ElementKind::ApplicationFunction => ElementLayer::Application,
            ElementKind::ApplicationProcess => ElementLayer::Application,
            ElementKind::ApplicationInteraction => ElementLayer::Application,
            ElementKind::ApplicationEvent => ElementLayer::Application,
            ElementKind::ApplicationService => ElementLayer::Application,
            ElementKind::DataObject => ElementLayer::Application,
            ElementKind::Node => ElementLayer::Technology,
            ElementKind::Device => ElementLayer::Technology,
            ElementKind::SystemSoftware => ElementLayer::Technology,
            ElementKind::TechnologyCollaboration => ElementLayer::Technology,
            ElementKind::TechnologyInterface => ElementLayer::Technology,
            ElementKind::Path => ElementLayer::Technology,
            ElementKind::CommunicationNetwork => ElementLayer::Technology,
            ElementKind::Artifact => ElementLayer::Technology,
            ElementKind::TechnologyFunction => ElementLayer::Technology,
            ElementKind::TechnologyProcess => ElementLayer::Technology,
            ElementKind::TechnologyInteraction => ElementLayer::Technology,
            ElementKind::TechnologyEvent => ElementLayer::Technology,
            ElementKind::TechnologyService => ElementLayer::Technology,
            ElementKind::Equipment => ElementLayer::Physical,
            ElementKind::Facility => ElementLayer::Physical,
            ElementKind::Material => ElementLayer::Physical,
            ElementKind::DistributionNetwork => ElementLayer::Physical,
            ElementKind::WorkPackage => ElementLayer::Implementation,
            ElementKind::Deliverable => ElementLayer::Implementation,
            ElementKind::ImplementationEvent => ElementLayer::Implementation,
            ElementKind::Plateau => ElementLayer::Implementation,
            ElementKind::Gap => ElementLayer::Implementation,
            ElementKind::Grouping => ElementLayer::Other,
            ElementKind::Location => ElementLayer::Other,
            ElementKind::AndJunction => ElementLayer::Other,
            ElementKind::OrJunction => ElementLayer::Other,
        }
    }

    /// Returns the metamodel layer for this element type.
    pub fn layer(self) -> (res: ElementLayer)
        ensures
            res == self.spec_layer(),
    {
        match self {
            ElementKind::Stakeholder => ElementLayer::Motivation,
            ElementKind::Driver => ElementLayer::Motivation,
            ElementKind::Assessment => ElementLayer::Motivation,
            ElementKind::Goal => ElementLayer::Motivation,
            ElementKind::Outcome => ElementLayer::Motivation,
            ElementKind::Principle => ElementLayer::Motivation,
            ElementKind::Requirement => ElementLayer::Motivation,
            ElementKind::Constraint => ElementLayer::Motivation,
            ElementKind::Meaning => ElementLayer::Motivation,
            ElementKind::Value => ElementLayer::Motivation,
            ElementKind::Resource => ElementLayer::Strategy,
            ElementKind::Capability => ElementLayer::Strategy,
            ElementKind::ValueStream => ElementLayer::Strategy,
            ElementKind::CourseOfAction => ElementLayer::Strategy,
            ElementKind::BusinessActor => ElementLayer::Business,
            ElementKind::BusinessRole => ElementLayer::Business,
            ElementKind::BusinessCollaboration => ElementLayer::Business,
            ElementKind::BusinessInterface => ElementLayer::Business,
            ElementKind::BusinessProcess => ElementLayer::Business,
            ElementKind::BusinessFunction => ElementLayer::Business,
            ElementKind::BusinessInteraction => ElementLayer::Business,
            ElementKind::BusinessEvent => ElementLayer::Business,
            ElementKind::BusinessService => ElementLayer::Business,
            ElementKind::BusinessObject => ElementLayer::Business,
            ElementKind::Contract => ElementLayer::Business,
            ElementKind::Representation => ElementLayer::Business,
            ElementKind::Product => ElementLayer::Business,
            ElementKind::ApplicationComponent => ElementLayer::Application,
            ElementKind::ApplicationCollaboration => ElementLayer::Application,
            ElementKind::ApplicationInterface => ElementLayer::Application,
            ElementKind::ApplicationFunction => ElementLayer::Application,
            ElementKind::ApplicationProcess => ElementLayer::Application,
            ElementKind::ApplicationInteraction => ElementLayer::Application,
            ElementKind::ApplicationEvent => ElementLayer::Application,
            ElementKind::ApplicationService => ElementLayer::Application,
            ElementKind::DataObject => ElementLayer::Application,
            ElementKind::Node => ElementLayer::Technology,
            ElementKind::Device => ElementLayer::Technology,
            ElementKind::SystemSoftware => ElementLayer::Technology,
            ElementKind::TechnologyCollaboration => ElementLayer::Technology,
            ElementKind::TechnologyInterface => ElementLayer::Technology,
            ElementKind::Path => ElementLayer::Technology,
            ElementKind::CommunicationNetwork => ElementLayer::Technology,
            ElementKind::Artifact => ElementLayer::Technology,
            ElementKind::TechnologyFunction => ElementLayer::Technology,
            ElementKind::TechnologyProcess => ElementLayer::Technology,
            ElementKind::TechnologyInteraction => ElementLayer::Technology,
            ElementKind::TechnologyEvent => ElementLayer::Technology,
            ElementKind::TechnologyService => ElementLayer::Technology,
            ElementKind::Equipment => ElementLayer::Physical,
            ElementKind::Facility => ElementLayer::Physical,
            ElementKind::Material => ElementLayer::Physical,
            ElementKind::DistributionNetwork => ElementLayer::Physical,
            ElementKind::WorkPackage => ElementLayer::Implementation,
            ElementKind::Deliverable => ElementLayer::Implementation,
            ElementKind::ImplementationEvent => ElementLayer::Implementation,
            ElementKind::Plateau => ElementLayer::Implementation,
            ElementKind::Gap => ElementLayer::Implementation,
            ElementKind::Grouping => ElementLayer::Other,
            ElementKind::Location => ElementLayer::Other,
            ElementKind::AndJunction => ElementLayer::Other,
            ElementKind::OrJunction => ElementLayer::Other,
        }
    }

    /// The canonical Open Exchange type name of this element type (the variant name).
    pub open spec fn spec_kind_name(self) -> Seq<char> {
        match self {
            ElementKind::Stakeholder => "Stakeholder"@,
            ElementKind::Driver => "Driver"@,
            ElementKind::Assessment => "Assessment"@,
            ElementKind::Goal => "Goal"@,
            ElementKind::Outcome => "Outcome"@,
            ElementKind::Principle => "Principle"@,
            ElementKind::Requirement => "Requirement"@,
            ElementKind::Constraint => "Constraint"@,
            ElementKind::Meaning => "Meaning"@,
            ElementKind::Value => "Value"@,
            ElementKind::Resource => "Resource"@,
            ElementKind::Capability => "Capability"@,
            ElementKind::ValueStream => "ValueStream"@,
            ElementKind::CourseOfAction => "CourseOfAction"@,
            ElementKind::BusinessActor => "BusinessActor"@,
            ElementKind::BusinessRole => "BusinessRole"@,
            ElementKind::BusinessCollaboration => "BusinessCollaboration"@,
            ElementKind::BusinessInterface => "BusinessInterface"@,
            ElementKind::BusinessProcess => "BusinessProcess"@,
            ElementKind::BusinessFunction => "BusinessFunction"@,
            ElementKind::BusinessInteraction => "BusinessInteraction"@,
            ElementKind::BusinessEvent => "BusinessEvent"@,
            ElementKind::BusinessService => "BusinessService"@,
            ElementKind::BusinessObject => "BusinessObject"@,
            ElementKind::Contract => "Contract"@,
            ElementKind::Representation => "Representation"@,
            ElementKind::Product => "Product"@,
            ElementKind::ApplicationComponent => "ApplicationComponent"@,
            ElementKind::ApplicationCollaboration => "ApplicationCollaboration"@,
            ElementKind::ApplicationInterface => "ApplicationInterface"@,
            ElementKind::ApplicationFunction => "ApplicationFunction"@,
            ElementKind::ApplicationProcess => "ApplicationProcess"@,
            ElementKind::ApplicationInteraction => "ApplicationInteraction"@,
            ElementKind::ApplicationEvent => "ApplicationEvent"@,
            ElementKind::ApplicationService => "ApplicationService"@,
            ElementKind::DataObject => "DataObject"@,
            ElementKind::Node => "Node"@,
            ElementKind::Device => "Device"@,
            ElementKind::SystemSoftware => "SystemSoftware"@,
            ElementKind::TechnologyCollaboration => "TechnologyCollaboration"@,
            ElementKind::TechnologyInterface => "TechnologyInterface"@,
            ElementKind::Path => "Path"@,
            ElementKind::CommunicationNetwork => "CommunicationNetwork"@,
            ElementKind::Artifact => "Artifact"@,
            ElementKind::TechnologyFunction => "TechnologyFunction"@,
            ElementKind::TechnologyProcess => "TechnologyProcess"@,
            ElementKind::TechnologyInteraction => "TechnologyInteraction"@,
            ElementKind::TechnologyEvent => "TechnologyEvent"@,
            ElementKind::TechnologyService => "TechnologyService"@,
            ElementKind::Equipment => "Equipment"@,
            ElementKind::Facility => "Facility"@,
            ElementKind::Material => "Material"@,
            ElementKind::DistributionNetwork => "DistributionNetwork"@,
            ElementKind::WorkPackage => "WorkPackage"@,
            ElementKind::Deliverable => "Deliverable"@,
            ElementKind::ImplementationEvent => "ImplementationEvent"@,
            ElementKind::Plateau => "Plateau"@,
            ElementKind::Gap => "Gap"@,
            ElementKind::Grouping => "Grouping"@,
            ElementKind::Location => "Location"@,
            ElementKind::AndJunction => "AndJunction"@,
            ElementKind::OrJunction => "OrJunction"@,
        }
    }

    /// The canonical type name in lower case.
    pub open spec fn spec_lower_name(self) -> Seq<char> {
        match self {
            ElementKind::Stakeholder => "stakeholder"@,
            ElementKind::Driver => "driver"@,
            ElementKind::Assessment => "assessment"@,
            ElementKind::Goal => "goal"@,
            ElementKind::Outcome => "outcome"@,
            ElementKind::Principle => "principle"@,
            ElementKind::Requirement => "requirement"@,
            ElementKind::Constraint => "constraint"@,
            ElementKind::Meaning => "meaning"@,
            ElementKind::Value => "value"@,
            ElementKind::Resource => "resource"@,
            ElementKind::Capability => "capability"@,
            ElementKind::ValueStream => "valuestream"@,
            ElementKind::CourseOfAction => "courseofaction"@,
            ElementKind::BusinessActor => "businessactor"@,
            ElementKind::BusinessRole => "businessrole"@,
            ElementKind::BusinessCollaboration => "businesscollaboration"@,
            ElementKind::BusinessInterface => "businessinterface"@,
            ElementKind::BusinessProcess => "businessprocess"@,
            ElementKind::BusinessFunction => "businessfunction"@,
            ElementKind::BusinessInteraction => "businessinteraction"@,
            ElementKind::BusinessEvent => "businessevent"@,
            ElementKind::BusinessService => "businessservice"@,
            ElementKind::BusinessObject => "businessobject"@,
            ElementKind::Contract => "contract"@,
            ElementKind::Representation => "representation"@,
            ElementKind::Product => "product"@,
            ElementKind::ApplicationComponent => "applicationcomponent"@,
            ElementKind::ApplicationCollaboration => "applicationcollaboration"@,
            ElementKind::ApplicationInterface => "applicationinterface"@,
            ElementKind::ApplicationFunction => "applicationfunction"@,
            ElementKind::ApplicationProcess => "applicationprocess"@,
            ElementKind::ApplicationInteraction => "applicationinteraction"@,
            ElementKind::ApplicationEvent => "applicationevent"@,
            ElementKind::ApplicationService => "applicationservice"@,
            ElementKind::DataObject => "dataobject"@,
            ElementKind::Node => "node"@,
            ElementKind::Device => "device"@,
            ElementKind::SystemSoftware => "systemsoftware"@,
            ElementKind::TechnologyCollaboration => "technologycollaboration"@,
            ElementKind::TechnologyInterface => "technologyinterface"@,
            ElementKind::Path => "path"@,
            ElementKind::CommunicationNetwork => "communicationnetwork"@,
            ElementKind::Artifact => "artifact"@,
            ElementKind::TechnologyFunction => "technologyfunction"@,
            ElementKind::TechnologyProcess => "technologyprocess"@,
            ElementKind::TechnologyInteraction => "technologyinteraction"@,
            ElementKind::TechnologyEvent => "technologyevent"@,
            ElementKind::TechnologyService => "technologyservice"@,
            ElementKind::Equipment => "equipment"@,
            ElementKind::Facility => "facility"@,
            ElementKind::Material => "material"@,
            ElementKind::DistributionNetwork => "distributionnetwork"@,
            ElementKind::WorkPackage => "workpackage"@,
            ElementKind::Deliverable => "deliverable"@,
            ElementKind::ImplementationEvent => "implementationevent"@,
            ElementKind::Plateau => "plateau"@,
            ElementKind::Gap => "gap"@,
            ElementKind::Grouping => "grouping"@,
            ElementKind::Location => "location"@,
            ElementKind::AndJunction => "andjunction"@,
            ElementKind::OrJunction => "orjunction"@,
        }
    }

    /// Parses a type name, ignoring ASCII case; `None` for any other text.
    pub open spec fn spec_from_name(s: Seq<char>) -> Option<ElementKind> {
        if ascii_lower(s) == "stakeholder"@ {
            Some(ElementKind::Stakeholder)
        } else if ascii_lower(s) == "driver"@ {
            Some(ElementKind::Driver)
        } else if ascii_lower(s) == "assessment"@ {
            Some(ElementKind::Assessment)
        } else if ascii_lower(s) == "goal"@ {
            Some(ElementKind::Goal)
        } else if ascii_lower(s) == "outcome"@ {
            Some(ElementKind::Outcome)
        } else if ascii_lower(s) == "principle"@ {
            Some(ElementKind::Principle)
        } else if ascii_lower(s) == "requirement"@ {
            Some(ElementKind::Requirement)
        } else if ascii_lower(s) == "constraint"@ {
            Some(ElementKind::Constraint)
        } else if ascii_lower(s) == "meaning"@ {
            Some(ElementKind::Meaning)
        } else if ascii_lower(s) == "value"@ {
            Some(ElementKind::Value)
        } else if ascii_lower(s) == "resource"@ {
            Some(ElementKind::Resource)
        } else if ascii_lower(s) == "capability"@ {
            Some(ElementKind::Capability)
        } else if ascii_lower(s) == "valuestream"@ {
            Some(ElementKind::ValueStream)
        } else if ascii_lower(s) == "courseofaction"@ {
            Some(ElementKind::CourseOfAction)
        } else if ascii_lower(s) == "businessactor"@ {
            Some(ElementKind::BusinessActor)
        } else if ascii_lower(s) == "businessrole"@ {
            Some(ElementKind::BusinessRole)
        } else if ascii_lower(s) == "businesscollaboration"@ {
            Some(ElementKind::BusinessCollaboration)
        } else if ascii_lower(s) == "businessinterface"@ {
            Some(ElementKind::BusinessInterface)
        } else if ascii_lower(s) == "businessprocess"@ {
            Some(ElementKind::BusinessProcess)
        } else if ascii_lower(s) == "businessfunction"@ {
            Some(ElementKind::BusinessFunction)
        } else if ascii_lower(s) == "businessinteraction"@ {
            Some(ElementKind::BusinessInteraction)
        } else if ascii_lower(s) == "businessevent"@ {
            Some(ElementKind::BusinessEvent)
        } else if ascii_lower(s) == "businessservice"@ {
            Some(ElementKind::BusinessService)
        } else if ascii_lower(s) == "businessobject"@ {
            Some(ElementKind::BusinessObject)
        } else if ascii_lower(s) == "contract"@ {
            Some(ElementKind::Contract)
        } else if ascii_lower(s) == "representation"@ {
            Some(ElementKind::Representation)
        } else if ascii_lower(s) == "product"@ {
            Some(ElementKind::Product)
        } else if ascii_lower(s) == "applicationcomponent"@ {
            Some(ElementKind::ApplicationComponent)
        } else if ascii_lower(s) == "applicationcollaboration"@ {
            Some(ElementKind::ApplicationCollaboration)
        } else if ascii_lower(s) == "applicationinterface"@ {
            Some(ElementKind::ApplicationInterface)
        } else if ascii_lower(s) == "applicationfunction"@ {
            Some(ElementKind::ApplicationFunction)
        } else if ascii_lower(s) == "applicationprocess"@ {
            Some(ElementKind::ApplicationProcess)
        } else if ascii_lower(s) == "applicationinteraction"@ {
            Some(ElementKind::ApplicationInteraction)
        } else if ascii_lower(s) == "applicationevent"@ {
            Some(ElementKind::ApplicationEvent)
        } else if ascii_lower(s) == "applicationservice"@ {
            Some(ElementKind::ApplicationService)
        } else if ascii_lower(s) == "dataobject"@ {
            Some(ElementKind::DataObject)
        } else if ascii_lower(s) == "node"@ {
            Some(ElementKind::Node)
        } else if ascii_lower(s) == "device"@ {
            Some(ElementKind::Device)
        } else if ascii_lower(s) == "systemsoftware"@ {
            Some(ElementKind::SystemSoftware)
        } else if ascii_lower(s) == "technologycollaboration"@ {
            Some(ElementKind::TechnologyCollaboration)
        } else if ascii_lower(s) == "technologyinterface"@ {
            Some(ElementKind::TechnologyInterface)
        } else if ascii_lower(s) == "path"@ {
            Some(ElementKind::Path)
        } else if ascii_lower(s) == "communicationnetwork"@ {
            Some(ElementKind::CommunicationNetwork)
        } else if ascii_lower(s) == "artifact"@ {
            Some(ElementKind::Artifact)
        } else if ascii_lower(s) == "technologyfunction"@ {
            Some(ElementKind::TechnologyFunction)
        } else if ascii_lower(s) == "technologyprocess"@ {
            Some(ElementKind::TechnologyProcess)
        } else if ascii_lower(s) == "technologyinteraction"@ {
            Some(ElementKind::TechnologyInteraction)
        } else if ascii_lower(s) == "technologyevent"@ {
            Some(ElementKind::TechnologyEvent)
        } else if ascii_lower(s) == "technologyservice"@ {
            Some(ElementKind::TechnologyService)
        } else if ascii_lower(s) == "equipment"@ {
            Some(ElementKind::Equipment)
        } else if ascii_lower(s) == "facility"@ {
            Some(ElementKind::Facility)
        } else if ascii_lower(s) == "material"@ {
            Some(ElementKind::Material)
        } else if ascii_lower(s) == "distributionnetwork"@ {
            Some(ElementKind::DistributionNetwork)
        } else if ascii_lower(s) == "workpackage"@ {
            Some(ElementKind::WorkPackage)
        } else if ascii_lower(s) == "deliverable"@ {
            Some(ElementKind::Deliverable)
        } else if ascii_lower(s) == "implementationevent"@ {
            Some(ElementKind::ImplementationEvent)
        } else if ascii_lower(s) == "plateau"@ {
            Some(ElementKind::Plateau)
        } else if ascii_lower(s) == "gap"@ {
            Some(ElementKind::Gap)
        } else if ascii_lower(s) == "grouping"@ {
            Some(ElementKind::Grouping)
        } else if ascii_lower(s) == "location"@ {
            Some(ElementKind::Location)
        } else if ascii_lower(s) == "andjunction"@ {
            Some(ElementKind::AndJunction)
        } else if ascii_lower(s) == "orjunction"@ {
            Some(ElementKind::OrJunction)
        } else {
            None
        }
    }

    /// Parses a type name, ignoring ASCII case (e.g. `"BusinessActor"`, `"businessactor"`), into an `ElementKind`.
    pub fn from_name(s: &str) -> (res: Option<ElementKind>)
        ensures
            res == ElementKind::spec_from_name(s@),
    {
        let low = to_ascii_lower(s);
        let t = low.as_str();
        if str_eq(t, "stakeholder") {
            return Some(ElementKind::Stakeholder);
        }
        if str_eq(t, "driver") {
            return Some(ElementKind::Driver);
        }
        if str_eq(t, "assessment") {
            return Some(ElementKind::Assessment);
        }
        if str_eq(t, "goal") {
            return Some(ElementKind::Goal);
        }
        if str_eq(t, "outcome") {
            return Some(ElementKind::Outcome);
        }
        if str_eq(t, "principle") {
            return Some(ElementKind::Principle);
        }
        if str_eq(t, "requirement") {
            return Some(ElementKind::Requirement);
        }
        if str_eq(t, "constraint") {
            return Some(ElementKind::Constraint);
        }
        if str_eq(t, "meaning") {
            return Some(ElementKind::Meaning);
        }
        if str_eq(t, "value") {
            return Some(ElementKind::Value);
        }
        if str_eq(t, "resource") {
            return Some(ElementKind::Resource);
        }
        if str_eq(t, "capability") {
            return Some(ElementKind::Capability);
        }
        if str_eq(t, "valuestream") {
            return Some(ElementKind::ValueStream);
        }
        if str_eq(t, "courseofaction") {
            return Some(ElementKind::CourseOfAction);
        }
        if str_eq(t, "businessactor") {
            return Some(ElementKind::BusinessActor);
        }
        if str_eq(t, "businessrole") {
            return Some(ElementKind::BusinessRole);
        }
        if str_eq(t, "businesscollaboration") {
            return Some(ElementKind::BusinessCollaboration);
        }
        if str_eq(t, "businessinterface") {
            return Some(ElementKind::BusinessInterface);
        }
        if str_eq(t, "businessprocess") {
            return Some(ElementKind::BusinessProcess);
        }
        if str_eq(t, "businessfunction") {
            return Some(ElementKind::BusinessFunction);
        }
        if str_eq(t, "businessinteraction") {
            return Some(ElementKind::BusinessInteraction);
        }
        if str_eq(t, "businessevent") {
            return Some(ElementKind::BusinessEvent);
        }
        if str_eq(t, "businessservice") {
            return Some(ElementKind::BusinessService);
        }
        if str_eq(t, "businessobject") {
            return Some(ElementKind::BusinessObject);
        }
        if str_eq(t, "contract") {
            return Some(ElementKind::Contract);
        }
        if str_eq(t, "representation") {
            return Some(ElementKind::Representation);
        }
        if str_eq(t, "product") {
            return Some(ElementKind::Product);
        }
        if str_eq(t, "applicationcomponent") {
            return Some(ElementKind::ApplicationComponent);
        }
        if str_eq(t, "applicationcollaboration") {
            return Some(ElementKind::ApplicationCollaboration);
        }
        if str_eq(t, "applicationinterface") {
            return Some(ElementKind::ApplicationInterface);
        }
        if str_eq(t, "applicationfunction") {
            return Some(ElementKind::ApplicationFunction);
        }
        if str_eq(t, "applicationprocess") {
            return Some(ElementKind::ApplicationProcess);
        }
        if str_eq(t, "applicationinteraction") {
            return Some(ElementKind::ApplicationInteraction);
        }
        if str_eq(t, "applicationevent") {
            return Some(ElementKind::ApplicationEvent);
        }
        if str_eq(t, "applicationservice") {
            return Some(ElementKind::ApplicationService);
        }
        if str_eq(t, "dataobject") {
            return Some(ElementKind::DataObject);
        }
        if str_eq(t, "node") {
            return Some(ElementKind::Node);
        }
        if str_eq(t, "device") {
            return Some(ElementKind::Device);
        }
        if str_eq(t, "systemsoftware") {
            return Some(ElementKind::SystemSoftware);
        }
        if str_eq(t, "technologycollaboration") {
            return Some(ElementKind::TechnologyCollaboration);
        }
        if str_eq(t, "technologyinterface") {
            return Some(ElementKind::TechnologyInterface);
        }
        if str_eq(t, "path") {
            return Some(ElementKind::Path);
        }
        if str_eq(t, "communicationnetwork") {
            return Some(ElementKind::CommunicationNetwork);
        }
        if str_eq(t, "artifact") {
            return Some(ElementKind::Artifact);
        }
        if str_eq(t, "technologyfunction") {
            return Some(ElementKind::TechnologyFunction);
        }
        if str_eq(t, "technologyprocess") {
            return Some(ElementKind::TechnologyProcess);
        }
        if str_eq(t, "technologyinteraction") {
            return Some(ElementKind::TechnologyInteraction);
        }
        if str_eq(t, "technologyevent") {
            return Some(ElementKind::TechnologyEvent);
        }
        if str_eq(t, "technologyservice") {
            return Some(ElementKind::TechnologyService);
        }
        if str_eq(t, "equipment") {
            return Some(ElementKind::Equipment);
        }
        if str_eq(t, "facility") {
            return Some(ElementKind::Facility);
        }
        if str_eq(t, "material") {
            return Some(ElementKind::Material);
        }
        if str_eq(t, "distributionnetwork") {
            return Some(ElementKind::DistributionNetwork);
        }
        if str_eq(t, "workpackage") {
            return Some(ElementKind::WorkPackage);
        }
        if str_eq(t, "deliverable") {
            return Some(ElementKind::Deliverable);
        }
        if str_eq(t, "implementationevent") {
            return Some(ElementKind::ImplementationEvent);
        }
        if str_eq(t, "plateau") {
            return Some(ElementKind::Plateau);
        }
        if str_eq(t, "gap") {
            return Some(ElementKind::Gap);
        }
        if str_eq(t, "grouping") {
            return Some(ElementKind::Grouping);
        }
        if str_eq(t, "location") {
            return Some(ElementKind::Location);
        }
        if str_eq(t, "andjunction") {
            return Some(ElementKind::AndJunction);
        }
        if str_eq(t, "orjunction") {
            return Some(ElementKind::OrJunction);
        }
        None
    }

    /// The canonical Open Exchange type name of this element type (the variant name).
    pub fn kind_name(self) -> (res: &'static str)
        ensures
            res@ == self.spec_kind_name(),
    {
        match self {
            ElementKind::Stakeholder => "Stakeholder",
            ElementKind::Driver => "Driver",
            ElementKind::Assessment => "Assessment",
            ElementKind::Goal => "Goal",
            ElementKind::Outcome => "Outcome",
            ElementKind::Principle => "Principle",
            ElementKind::Requirement => "Requirement",
            ElementKind::Constraint => "Constraint",
            ElementKind::Meaning => "Meaning",
            ElementKind::Value => "Value",
            ElementKind::Resource => "Resource",
            ElementKind::Capability => "Capability",
            ElementKind::ValueStream => "ValueStream",
            ElementKind::CourseOfAction => "CourseOfAction",
            ElementKind::BusinessActor => "BusinessActor",
            ElementKind::BusinessRole => "BusinessRole",
            ElementKind::BusinessCollaboration => "BusinessCollaboration",
            ElementKind::BusinessInterface => "BusinessInterface",
            ElementKind::BusinessProcess => "BusinessProcess",
            ElementKind::BusinessFunction => "BusinessFunction",
            ElementKind::BusinessInteraction => "BusinessInteraction",
            ElementKind::BusinessEvent => "BusinessEvent",
            ElementKind::BusinessService => "BusinessService",
            ElementKind::BusinessObject => "BusinessObject",
            ElementKind::Contract => "Contract",
            ElementKind::Representation => "Representation",
            ElementKind::Product => "Product",
            ElementKind::ApplicationComponent => "ApplicationComponent",
            ElementKind::ApplicationCollaboration => "ApplicationCollaboration",
            ElementKind::ApplicationInterface => "ApplicationInterface",
            ElementKind::ApplicationFunction => "ApplicationFunction",
            ElementKind::ApplicationProcess => "ApplicationProcess",
            ElementKind::ApplicationInteraction => "ApplicationInteraction",
            ElementKind::ApplicationEvent => "ApplicationEvent",
            ElementKind::ApplicationService => "ApplicationService",
            ElementKind::DataObject => "DataObject",
            ElementKind::Node => "Node",
            ElementKind::Device => "Device",
            ElementKind::SystemSoftware => "SystemSoftware",
            ElementKind::TechnologyCollaboration => "TechnologyCollaboration",
            ElementKind::TechnologyInterface => "TechnologyInterface",
            ElementKind::Path => "Path",
            ElementKind::CommunicationNetwork => "CommunicationNetwork",
            ElementKind::Artifact => "Artifact",
            ElementKind::TechnologyFunction => "TechnologyFunction",
            ElementKind::TechnologyProcess => "TechnologyProcess",
            ElementKind::TechnologyInteraction => "TechnologyInteraction",
            ElementKind::TechnologyEvent => "TechnologyEvent",
            ElementKind::TechnologyService => "TechnologyService",
            ElementKind::Equipment => "Equipment",
            ElementKind::Facility => "Facility",
            ElementKind::Material => "Material",
            ElementKind::DistributionNetwork => "DistributionNetwork",
            ElementKind::WorkPackage => "WorkPackage",
            ElementKind::Deliverable => "Deliverable",
            ElementKind::ImplementationEvent => "ImplementationEvent",
            ElementKind::Plateau => "Plateau",
            ElementKind::Gap => "Gap",
            ElementKind::Grouping => "Grouping",
            ElementKind::Location => "Location",
            ElementKind::AndJunction => "AndJunction",
            ElementKind::OrJunction => "OrJunction",
        }
    }

    /// A name parses to a type only when it is that type's name up to ASCII case.
    pub proof fn lemma_parsed_name_is_canonical(s: Seq<char>, k: ElementKind)
        requires
            ElementKind::spec_from_name(s) == Some(k),
        ensures
            ascii_lower(s) == k.spec_lower_name(),
    {
    }

    /// The canonical name of a type, put in lower case.
    pub proof fn lemma_lower_name(v: ElementKind)
        ensures
            ascii_lower(v.spec_kind_name()) == v.spec_lower_name(),
    {
        match v {
            ElementKind::Stakeholder => {
                reveal_strlit("Stakeholder");
                reveal_strlit("stakeholder");
                assert(ascii_lower("Stakeholder"@) =~= "stakeholder"@);
            },
            ElementKind::Driver => {
                reveal_strlit("Driver");
                reveal_strlit("driver");
                assert(ascii_lower("Driver"@) =~= "driver"@);
            },
            ElementKind::Assessment => {
                reveal_strlit("Assessment");
                reveal_strlit("assessment");
                assert(ascii_lower("Assessment"@) =~= "assessment"@);
            },
            ElementKind::Goal => {
                reveal_strlit("Goal");
                reveal_strlit("goal");
                assert(ascii_lower("Goal"@) =~= "goal"@);
            },
            ElementKind::Outcome => {
                reveal_strlit("Outcome");
                reveal_strlit("outcome");
                assert(ascii_lower("Outcome"@) =~= "outcome"@);
            },
            ElementKind::Principle => {
                reveal_strlit("Principle");
                reveal_strlit("principle");
                assert(ascii_lower("Principle"@) =~= "principle"@);
            },
            ElementKind::Requirement => {
                reveal_strlit("Requirement");
                reveal_strlit("requirement");
                assert(ascii_lower("Requirement"@) =~= "requirement"@);
            },
            ElementKind::Constraint => {
                reveal_strlit("Constraint");
                reveal_strlit("constraint");
                assert(ascii_lower("Constraint"@) =~= "constraint"@);
            },
            ElementKind::Meaning => {
                reveal_strlit("Meaning");
                reveal_strlit("meaning");
                assert(ascii_lower("Meaning"@) =~= "meaning"@);
            },
            ElementKind::Value => {
                reveal_strlit("Value");
                reveal_strlit("value");
                assert(ascii_lower("Value"@) =~= "value"@);
            },
            ElementKind::Resource => {
                reveal_strlit("Resource");
                reveal_strlit("resource");
                assert(ascii_lower("Resource"@) =~= "resource"@);
            },
            ElementKind::Capability => {
                reveal_strlit("Capability");
                reveal_strlit("capability");
                assert(ascii_lower("Capability"@) =~= "capability"@);
            },
            ElementKind::ValueStream => {
                reveal_strlit("ValueStream");
                reveal_strlit("valuestream");
                assert(ascii_lower("ValueStream"@) =~= "valuestream"@);
            },
            ElementKind::CourseOfAction => {
                reveal_strlit("CourseOfAction");
                reveal_strlit("courseofaction");
                assert(ascii_lower("CourseOfAction"@) =~= "courseofaction"@);
            },
            ElementKind::BusinessActor => {
                reveal_strlit("BusinessActor");
                reveal_strlit("businessactor");
                assert(ascii_lower("BusinessActor"@) =~= "businessactor"@);
            },
            ElementKind::BusinessRole => {
                reveal_strlit("BusinessRole");
                reveal_strlit("businessrole");
                assert(ascii_lower("BusinessRole"@) =~= "businessrole"@);
            },
            ElementKind::BusinessCollaboration => {
                reveal_strlit("BusinessCollaboration");
                reveal_strlit("businesscollaboration");
                assert(ascii_lower("BusinessCollaboration"@) =~= "businesscollaboration"@);
            },
            ElementKind::BusinessInterface => {
                reveal_strlit("BusinessInterface");
                reveal_strlit("businessinterface");
                assert(ascii_lower("BusinessInterface"@) =~= "businessinterface"@);
            },
            ElementKind::BusinessProcess => {
                reveal_strlit("BusinessProcess");
                reveal_strlit("businessprocess");
                assert(ascii_lower("BusinessProcess"@) =~= "businessprocess"@);
            },
            ElementKind::BusinessFunction => {
                reveal_strlit("BusinessFunction");
                reveal_strlit("businessfunction");
                assert(ascii_lower("BusinessFunction"@) =~= "businessfunction"@);
            },
            ElementKind::BusinessInteraction => {
                reveal_strlit("BusinessInteraction");
                reveal_strlit("businessinteraction");
                assert(ascii_lower("BusinessInteraction"@) =~= "businessinteraction"@);
            },
            ElementKind::BusinessEvent => {
                reveal_strlit("BusinessEvent");
                reveal_strlit("businessevent");
                assert(ascii_lower("BusinessEvent"@) =~= "businessevent"@);
            },
            ElementKind::BusinessService => {
                reveal_strlit("BusinessService");
                reveal_strlit("businessservice");
                assert(ascii_lower("BusinessService"@) =~= "businessservice"@);
            },
            ElementKind::BusinessObject => {
                reveal_strlit("BusinessObject");
                reveal_strlit("businessobject");
                assert(ascii_lower("BusinessObject"@) =~= "businessobject"@);
            },
            ElementKind::Contract => {
                reveal_strlit("Contract");
                reveal_strlit("contract");
                assert(ascii_lower("Contract"@) =~= "contract"@);
            },
            ElementKind::Representation => {
                reveal_strlit("Representation");
                reveal_strlit("representation");
                assert(ascii_lower("Representation"@) =~= "representation"@);
            },
            ElementKind::Product => {
                reveal_strlit("Product");
                reveal_strlit("product");
                assert(ascii_lower("Product"@) =~= "product"@);
            },
            ElementKind::ApplicationComponent => {
                reveal_strlit("ApplicationComponent");
                reveal_strlit("applicationcomponent");
                assert(ascii_lower("ApplicationComponent"@) =~= "applicationcomponent"@);
            },
            ElementKind::ApplicationCollaboration => {
                reveal_strlit("ApplicationCollaboration");
                reveal_strlit("applicationcollaboration");
                assert(ascii_lower("ApplicationCollaboration"@) =~= "applicationcollaboration"@);
            },
            ElementKind::ApplicationInterface => {
                reveal_strlit("ApplicationInterface");
                reveal_strlit("applicationinterface");
                assert(ascii_lower("ApplicationInterface"@) =~= "applicationinterface"@);
            },
            ElementKind::ApplicationFunction => {
                reveal_strlit("ApplicationFunction");
                reveal_strlit("applicationfunction");
                assert(ascii_lower("ApplicationFunction"@) =~= "applicationfunction"@);
            },
            ElementKind::ApplicationProcess => {
                reveal_strlit("ApplicationProcess");
                reveal_strlit("applicationprocess");
                assert(ascii_lower("ApplicationProcess"@) =~= "applicationprocess"@);
            },
            ElementKind::ApplicationInteraction => {
                reveal_strlit("ApplicationInteraction");
                reveal_strlit("applicationinteraction");
                assert(ascii_lower("ApplicationInteraction"@) =~= "applicationinteraction"@);
            },
            ElementKind::ApplicationEvent => {
                reveal_strlit("ApplicationEvent");
                reveal_strlit("applicationevent");
                assert(ascii_lower("ApplicationEvent"@) =~= "applicationevent"@);
            },
            ElementKind::ApplicationService => {
                reveal_strlit("ApplicationService");
                reveal_strlit("applicationservice");
                assert(ascii_lower("ApplicationService"@) =~= "applicationservice"@);
            },
            ElementKind::DataObject => {
                reveal_strlit("DataObject");
                reveal_strlit("dataobject");
                assert(ascii_lower("DataObject"@) =~= "dataobject"@);
            },
            ElementKind::Node => {
                reveal_strlit("Node");
                reveal_strlit("node");
                assert(ascii_lower("Node"@) =~= "node"@);
            },
            ElementKind::Device => {
                reveal_strlit("Device");
                reveal_strlit("device");
                assert(ascii_lower("Device"@) =~= "device"@);
            },
            ElementKind::SystemSoftware => {
                reveal_strlit("SystemSoftware");
                reveal_strlit("systemsoftware");
                assert(ascii_lower("SystemSoftware"@) =~= "systemsoftware"@);
            },
            ElementKind::TechnologyCollaboration => {
                reveal_strlit("TechnologyCollaboration");
                reveal_strlit("technologycollaboration");
                assert(ascii_lower("TechnologyCollaboration"@) =~= "technologycollaboration"@);
            },
            ElementKind::TechnologyInterface => {
                reveal_strlit("TechnologyInterface");
                reveal_strlit("technologyinterface");
                assert(ascii_lower("TechnologyInterface"@) =~= "technologyinterface"@);
            },
            ElementKind::Path => {
                reveal_strlit("Path");
                reveal_strlit("path");
                assert(ascii_lower("Path"@) =~= "path"@);
            },
            ElementKind::CommunicationNetwork => {
                reveal_strlit("CommunicationNetwork");
                reveal_strlit("communicationnetwork");
                assert(ascii_lower("CommunicationNetwork"@) =~= "communicationnetwork"@);
            },
            ElementKind::Artifact => {
                reveal_strlit("Artifact");
                reveal_strlit("artifact");
                assert(ascii_lower("Artifact"@) =~= "artifact"@);
            },
            ElementKind::TechnologyFunction => {
                reveal_strlit("TechnologyFunction");
                reveal_strlit("technologyfunction");
                assert(ascii_lower("TechnologyFunction"@) =~= "technologyfunction"@);
            },
            ElementKind::TechnologyProcess => {
                reveal_strlit("TechnologyProcess");
                reveal_strlit("technologyprocess");
                assert(ascii_lower("TechnologyProcess"@) =~= "technologyprocess"@);
            },
            ElementKind::TechnologyInteraction => {
                reveal_strlit("TechnologyInteraction");
                reveal_strlit("technologyinteraction");
                assert(ascii_lower("TechnologyInteraction"@) =~= "technologyinteraction"@);
            },
            ElementKind::TechnologyEvent => {
                reveal_strlit("TechnologyEvent");
                reveal_strlit("technologyevent");
                assert(ascii_lower("TechnologyEvent"@) =~= "technologyevent"@);
            },
            ElementKind::TechnologyService => {
                reveal_strlit("TechnologyService");
                reveal_strlit("technologyservice");
                assert(ascii_lower("TechnologyService"@) =~= "technologyservice"@);
            },
            ElementKind::Equipment => {
                reveal_strlit("Equipment");
                reveal_strlit("equipment");
                assert(ascii_lower("Equipment"@) =~= "equipment"@);
            },
            ElementKind::Facility => {
                reveal_strlit("Facility");
                reveal_strlit("facility");
                assert(ascii_lower("Facility"@) =~= "facility"@);
            },
            ElementKind::Material => {
                reveal_strlit("Material");
                reveal_strlit("material");
                assert(ascii_lower("Material"@) =~= "material"@);
            },
            ElementKind::DistributionNetwork => {
                reveal_strlit("DistributionNetwork");
                reveal_strlit("distributionnetwork");
                assert(ascii_lower("DistributionNetwork"@) =~= "distributionnetwork"@);
            },
            ElementKind::WorkPackage => {
                reveal_strlit("WorkPackage");
                reveal_strlit("workpackage");
                assert(ascii_lower("WorkPackage"@) =~= "workpackage"@);
            },
            ElementKind::Deliverable => {
                reveal_strlit("Deliverable");
                reveal_strlit("deliverable");
                assert(ascii_lower("Deliverable"@) =~= "deliverable"@);
            },
            ElementKind::ImplementationEvent => {
                reveal_strlit("ImplementationEvent");
                reveal_strlit("implementationevent");
                assert(ascii_lower("ImplementationEvent"@) =~= "implementationevent"@);
            },
            ElementKind::Plateau => {
                reveal_strlit("Plateau");
                reveal_strlit("plateau");
                assert(ascii_lower("Plateau"@) =~= "plateau"@);
            },
            ElementKind::Gap => {
                reveal_strlit("Gap");
                reveal_strlit("gap");
                assert(ascii_lower("Gap"@) =~= "gap"@);
            },
            ElementKind::Grouping => {
                reveal_strlit("Grouping");
                reveal_strlit("grouping");
                assert(ascii_lower("Grouping"@) =~= "grouping"@);
            },
            ElementKind::Location => {
                reveal_strlit("Location");
                reveal_strlit("location");
                assert(ascii_lower("Location"@) =~= "location"@);
            },
            ElementKind::AndJunction => {
                reveal_strlit("AndJunction");
                reveal_strlit("andjunction");
                assert(ascii_lower("AndJunction"@) =~= "andjunction"@);
            },
            ElementKind::OrJunction => {
                reveal_strlit("OrJunction");
                reveal_strlit("orjunction");
                assert(ascii_lower("OrJunction"@) =~= "orjunction"@);
            },
        }
    }

    /// Parsing the canonical name of any element type gives that type back.
    pub proof fn lemma_name_round_trip(v: ElementKind)
        ensures
            ElementKind::spec_from_name(v.spec_kind_name()) == Some(v),
    {
        ElementKind::lemma_lower_name(v);
        reveal_strlit("stakeholder");
        assert("stakeholder"@.len() == 11 && "stakeholder"@[0] == 's' && "stakeholder"@[1] == 't' && "stakeholder"@[10] == 'r');
        reveal_strlit("driver");
        assert("driver"@.len() == 6 && "driver"@[0] == 'd' && "driver"@[1] == 'r' && "driver"@[5] == 'r');
        reveal_strlit("assessment");
        assert("assessment"@.len() == 10 && "assessment"@[0] == 'a' && "assessment"@[1] == 's' && "assessment"@[9] == 't');
        reveal_strlit("goal");
        assert("goal"@.len() == 4 && "goal"@[0] == 'g' && "goal"@[1] == 'o' && "goal"@[3] == 'l');
        reveal_strlit("outcome");
        assert("outcome"@.len() == 7 && "outcome"@[0] == 'o' && "outcome"@[1] == 'u' && "outcome"@[6] == 'e');
        reveal_strlit("principle");
        assert("principle"@.len() == 9 && "principle"@[0] == 'p' && "principle"@[1] == 'r' && "principle"@[8] == 'e');
        reveal_strlit("requirement");
        assert("requirement"@.len() == 11 && "requirement"@[0] == 'r' && "requirement"@[1] == 'e' && "requirement"@[10] == 't');
        reveal_strlit("constraint");
        assert("constraint"@.len() == 10 && "constraint"@[0] == 'c' && "constraint"@[1] == 'o' && "constraint"@[9] == 't');
        reveal_strlit("meaning");
        assert("meaning"@.len() == 7 && "meaning"@[0] == 'm' && "meaning"@[1] == 'e' && "meaning"@[6] == 'g');
        reveal_strlit("value");
        assert("value"@.len() == 5 && "value"@[0] == 'v' && "value"@[1] == 'a' && "value"@[4] == 'e');
        reveal_strlit("resource");
        assert("resource"@.len() == 8 && "resource"@[0] == 'r' && "resource"@[1] == 'e' && "resource"@[7] == 'e');
        reveal_strlit("capability");
        assert("capability"@.len() == 10 && "capability"@[0] == 'c' && "capability"@[1] == 'a' && "capability"@[9] == 'y');
        reveal_strlit("valuestream");
        assert("valuestream"@.len() == 11 && "valuestream"@[0] == 'v' && "valuestream"@[1] == 'a' && "valuestream"@[10] == 'm');
        reveal_strlit("courseofaction");
        assert("courseofaction"@.len() == 14 && "courseofaction"@[0] == 'c' && "courseofaction"@[1] == 'o' && "courseofaction"@[13] == 'n');
        reveal_strlit("businessactor");
        assert("businessactor"@.len() == 13 && "businessactor"@[0] == 'b' && "businessactor"@[1] == 'u' && "businessactor"@[12] == 'r');
        reveal_strlit("businessrole");
        assert("businessrole"@.len() == 12 && "businessrole"@[0] == 'b' && "businessrole"@[1] == 'u' && "businessrole"@[11] == 'e');
        reveal_strlit("businesscollaboration");
        assert("businesscollaboration"@.len() == 21 && "businesscollaboration"@[0] == 'b' && "businesscollaboration"@[1] == 'u' && "businesscollaboration"@[20] == 'n');
        reveal_strlit("businessinterface");
        assert("businessinterface"@.len() == 17 && "businessinterface"@[0] == 'b' && "businessinterface"@[1] == 'u' && "businessinterface"@[16] == 'e');
        reveal_strlit("businessprocess");
        assert("businessprocess"@.len() == 15 && "businessprocess"@[0] == 'b' && "businessprocess"@[1] == 'u' && "businessprocess"@[14] == 's');
        reveal_strlit("businessfunction");
        assert("businessfunction"@.len() == 16 && "businessfunction"@[0] == 'b' && "businessfunction"@[1] == 'u' && "businessfunction"@[15] == 'n');
        reveal_strlit("businessinteraction");
        assert("businessinteraction"@.len() == 19 && "businessinteraction"@[0] == 'b' && "businessinteraction"@[1] == 'u' && "businessinteraction"@[18] == 'n');
        reveal_strlit("businessevent");
        assert("businessevent"@.len() == 13 && "businessevent"@[0] == 'b' && "businessevent"@[1] == 'u' && "businessevent"@[12] == 't');
        reveal_strlit("businessservice");
        assert("businessservice"@.len() == 15 && "businessservice"@[0] == 'b' && "businessservice"@[1] == 'u' && "businessservice"@[14] == 'e');
        reveal_strlit("businessobject");
        assert("businessobject"@.len() == 14 && "businessobject"@[0] == 'b' && "businessobject"@[1] == 'u' && "businessobject"@[13] == 't');
        reveal_strlit("contract");
        assert("contract"@.len() == 8 && "contract"@[0] == 'c' && "contract"@[1] == 'o' && "contract"@[7] == 't');
        reveal_strlit("representation");
        assert("representation"@.len() == 14 && "representation"@[0] == 'r' && "representation"@[1] == 'e' && "representation"@[13] == 'n');
        reveal_strlit("product");
        assert("product"@.len() == 7 && "product"@[0] == 'p' && "product"@[1] == 'r' && "product"@[6] == 't');
        reveal_strlit("applicationcomponent");
        assert("applicationcomponent"@.len() == 20 && "applicationcomponent"@[0] == 'a' && "applicationcomponent"@[1] == 'p' && "applicationcomponent"@[19] == 't');
        reveal_strlit("applicationcollaboration");
        assert("applicationcollaboration"@.len() == 24 && "applicationcollaboration"@[0] == 'a' && "applicationcollaboration"@[1] == 'p' && "applicationcollaboration"@[23] == 'n');
        reveal_strlit("applicationinterface");
        assert("applicationinterface"@.len() == 20 && "applicationinterface"@[0] == 'a' && "applicationinterface"@[1] == 'p' && "applicationinterface"@[19] == 'e');
        reveal_strlit("applicationfunction");
        assert("applicationfunction"@.len() == 19 && "applicationfunction"@[0] == 'a' && "applicationfunction"@[1] == 'p' && "applicationfunction"@[18] == 'n');
        reveal_strlit("applicationprocess");
        assert("applicationprocess"@.len() == 18 && "applicationprocess"@[0] == 'a' && "applicationprocess"@[1] == 'p' && "applicationprocess"@[17] == 's');
        reveal_strlit("applicationinteraction");
        assert("applicationinteraction"@.len() == 22 && "applicationinteraction"@[0] == 'a' && "applicationinteraction"@[1] == 'p' && "applicationinteraction"@[21] == 'n');
        reveal_strlit("applicationevent");
        assert("applicationevent"@.len() == 16 && "applicationevent"@[0] == 'a' && "applicationevent"@[1] == 'p' && "applicationevent"@[15] == 't');
        reveal_strlit("applicationservice");
        assert("applicationservice"@.len() == 18 && "applicationservice"@[0] == 'a' && "applicationservice"@[1] == 'p' && "applicationservice"@[17] == 'e');
        reveal_strlit("dataobject");
        assert("dataobject"@.len() == 10 && "dataobject"@[0] == 'd' && "dataobject"@[1] == 'a' && "dataobject"@[9] == 't');
        reveal_strlit("node");
        assert("node"@.len() == 4 && "node"@[0] == 'n' && "node"@[1] == 'o' && "node"@[3] == 'e');
        reveal_strlit("device");
        assert("device"@.len() == 6 && "device"@[0] == 'd' && "device"@[1] == 'e' && "device"@[5] == 'e');
        reveal_strlit("systemsoftware");
        assert("systemsoftware"@.len() == 14 && "systemsoftware"@[0] == 's' && "systemsoftware"@[1] == 'y' && "systemsoftware"@[13] == 'e');
        reveal_strlit("technologycollaboration");
        assert("technologycollaboration"@.len() == 23 && "technologycollaboration"@[0] == 't' && "technologycollaboration"@[1] == 'e' && "technologycollaboration"@[22] == 'n');
        reveal_strlit("technologyinterface");
        assert("technologyinterface"@.len() == 19 && "technologyinterface"@[0] == 't' && "technologyinterface"@[1] == 'e' && "technologyinterface"@[18] == 'e');
        reveal_strlit("path");
        assert("path"@.len() == 4 && "path"@[0] == 'p' && "path"@[1] == 'a' && "path"@[3] == 'h');
        reveal_strlit("communicationnetwork");
        assert("communicationnetwork"@.len() == 20 && "communicationnetwork"@[0] == 'c' && "communicationnetwork"@[1] == 'o' && "communicationnetwork"@[19] == 'k');
        reveal_strlit("artifact");
        assert("artifact"@.len() == 8 && "artifact"@[0] == 'a' && "artifact"@[1] == 'r' && "artifact"@[7] == 't');
        reveal_strlit("technologyfunction");
        assert("technologyfunction"@.len() == 18 && "technologyfunction"@[0] == 't' && "technologyfunction"@[1] == 'e' && "technologyfunction"@[17] == 'n');
        reveal_strlit("technologyprocess");
        assert("technologyprocess"@.len() == 17 && "technologyprocess"@[0] == 't' && "technologyprocess"@[1] == 'e' && "technologyprocess"@[16] == 's');
        reveal_strlit("technologyinteraction");
        assert("technologyinteraction"@.len() == 21 && "technologyinteraction"@[0] == 't' && "technologyinteraction"@[1] == 'e' && "technologyinteraction"@[20] == 'n');
        reveal_strlit("technologyevent");
        assert("technologyevent"@.len() == 15 && "technologyevent"@[0] == 't' && "technologyevent"@[1] == 'e' && "technologyevent"@[14] == 't');
        reveal_strlit("technologyservice");
        assert("technologyservice"@.len() == 17 && "technologyservice"@[0] == 't' && "technologyservice"@[1] == 'e' && "technologyservice"@[16] == 'e');
        reveal_strlit("equipment");
        assert("equipment"@.len() == 9 && "equipment"@[0] == 'e' && "equipment"@[1] == 'q' && "equipment"@[8] == 't');
        reveal_strlit("facility");
        assert("facility"@.len() == 8 && "facility"@[0] == 'f' && "facility"@[1] == 'a' && "facility"@[7] == 'y');
        reveal_strlit("material");
        assert("material"@.len() == 8 && "material"@[0] == 'm' && "material"@[1] == 'a' && "material"@[7] == 'l');
        reveal_strlit("distributionnetwork");
        assert("distributionnetwork"@.len() == 19 && "distributionnetwork"@[0] == 'd' && "distributionnetwork"@[1] == 'i' && "distributionnetwork"@[18] == 'k');
        reveal_strlit("workpackage");
        assert("workpackage"@.len() == 11 && "workpackage"@[0] == 'w' && "workpackage"@[1] == 'o' && "workpackage"@[10] == 'e');
        reveal_strlit("deliverable");
        assert("deliverable"@.len() == 11 && "deliverable"@[0] == 'd' && "deliverable"@[1] == 'e' && "deliverable"@[10] == 'e');
        reveal_strlit("implementationevent");
        assert("implementationevent"@.len() == 19 && "implementationevent"@[0] == 'i' && "implementationevent"@[1] == 'm' && "implementationevent"@[18] == 't');
        reveal_strlit("plateau");
        assert("plateau"@.len() == 7 && "plateau"@[0] == 'p' && "plateau"@[1] == 'l' && "plateau"@[6] == 'u');
        reveal_strlit("gap");
        assert("gap"@.len() == 3 && "gap"@[0] == 'g' && "gap"@[1] == 'a' && "gap"@[2] == 'p');
        reveal_strlit("grouping");
        assert("grouping"@.len() == 8 && "grouping"@[0] == 'g' && "grouping"@[1] == 'r' && "grouping"@[7] == 'g');
        reveal_strlit("location");
        assert("location"@.len() == 8 && "location"@[0] == 'l' && "location"@[1] == 'o' && "location"@[7] == 'n');
        reveal_strlit("andjunction");
        assert("andjunction"@.len() == 11 && "andjunction"@[0] == 'a' && "andjunction"@[1] == 'n' && "andjunction"@[10] == 'n');
        reveal_strlit("orjunction");
        assert("orjunction"@.len() == 10 && "orjunction"@[0] == 'o' && "orjunction"@[1] == 'r' && "orjunction"@[9] == 'n');
    }

    /// Parses an element type name, with an error message for unknown names.
    pub fn parse_name(s: &str) -> (res: Result<ElementKind, String>)
        ensures
            match ElementKind::spec_from_name(s@) {
                Some(k) => res == Ok::<ElementKind, String>(k),
                None => res matches Err(msg) && msg@ == "unknown element kind: "@ + s@,
            },
    {
        match ElementKind::from_name(s) {
            Some(k) => Ok(k),
            None => {
                let mut msg = "unknown element kind: ".to_owned();
                msg.append(s);
                Err(msg)
            },
        }
    }

}

impl ElementKind {
    /// The layer of every element type, as the ArchiMate 3.2 taxonomy fixes it:
    /// for each layer, the element types that belong to it.
    pub proof fn lemma_layer_taxonomy(k: ElementKind)
        ensures
            k.spec_layer() == ElementLayer::Motivation <==> (k == ElementKind::Stakeholder || k == ElementKind::Driver || k == ElementKind::Assessment || k == ElementKind::Goal || k == ElementKind::Outcome || k == ElementKind::Principle || k == ElementKind::Requirement || k == ElementKind::Constraint || k == ElementKind::Meaning || k == ElementKind::Value),
            k.spec_layer() == ElementLayer::Strategy <==> (k == ElementKind::Resource || k == ElementKind::Capability || k == ElementKind::ValueStream || k == ElementKind::CourseOfAction),
            k.spec_layer() == ElementLayer::Business <==> (k == ElementKind::BusinessActor || k == ElementKind::BusinessRole || k == ElementKind::BusinessCollaboration || k == ElementKind::BusinessInterface || k == ElementKind::BusinessProcess || k == ElementKind::BusinessFunction || k == ElementKind::BusinessInteraction || k == ElementKind::BusinessEvent || k == ElementKind::BusinessService || k == ElementKind::BusinessObject || k == ElementKind::Contract || k == ElementKind::Representation || k == ElementKind::Product),
            k.spec_layer() == ElementLayer::Application <==> (k == ElementKind::ApplicationComponent || k == ElementKind::ApplicationCollaboration || k == ElementKind::ApplicationInterface || k == ElementKind::ApplicationFunction || k == ElementKind::ApplicationProcess || k == ElementKind::ApplicationInteraction || k == ElementKind::ApplicationEvent || k == ElementKind::ApplicationService || k == ElementKind::DataObject),
            k.spec_layer() == ElementLayer::Technology <==> (k == ElementKind::Node || k == ElementKind::Device || k == ElementKind::SystemSoftware || k == ElementKind::TechnologyCollaboration || k == ElementKind::TechnologyInterface || k == ElementKind::Path || k == ElementKind::CommunicationNetwork || k == ElementKind::Artifact || k == ElementKind::TechnologyFunction || k == ElementKind::TechnologyProcess || k == ElementKind::TechnologyInteraction || k == ElementKind::TechnologyEvent || k == ElementKind::TechnologyService),
            k.spec_layer() == ElementLayer::Physical <==> (k == ElementKind::Equipment || k == ElementKind::Facility || k == ElementKind::Material || k == ElementKind::DistributionNetwork),
            k.spec_layer() == ElementLayer::Implementation <==> (k == ElementKind::WorkPackage || k == ElementKind::Deliverable || k == ElementKind::ImplementationEvent || k == ElementKind::Plateau || k == ElementKind::Gap),
            k.spec_layer() == ElementLayer::Other <==> (k == ElementKind::Grouping || k == ElementKind::Location || k == ElementKind::AndJunction || k == ElementKind::OrJunction),
    {
    }
}

impl ElementLayer {
    /// The element types of a layer, in canonical order.
    pub open spec fn spec_elements(self) -> Seq<ElementKind> {
        match self {
            ElementLayer::Strategy => seq![ElementKind::Resource, ElementKind::Capability, ElementKind::ValueStream, ElementKind::CourseOfAction],
            ElementLayer::Business => seq![ElementKind::BusinessActor, ElementKind::BusinessRole, ElementKind::BusinessCollaboration, ElementKind::BusinessInterface, ElementKind::BusinessProcess, ElementKind::BusinessFunction, ElementKind::BusinessInteraction, ElementKind::BusinessEvent, ElementKind::BusinessService, ElementKind::BusinessObject, ElementKind::Contract, ElementKind::Representation, ElementKind::Product],
            ElementLayer::Application => seq![ElementKind::ApplicationComponent, ElementKind::ApplicationCollaboration, ElementKind::ApplicationInterface, ElementKind::ApplicationFunction, ElementKind::ApplicationInteraction, ElementKind::ApplicationProcess, ElementKind::ApplicationEvent, ElementKind::ApplicationService, ElementKind::DataObject],
            ElementLayer::Technology => seq![ElementKind::Node, ElementKind::Device, ElementKind::SystemSoftware, ElementKind::TechnologyCollaboration, ElementKind::TechnologyInterface, ElementKind::Path, ElementKind::CommunicationNetwork, ElementKind::TechnologyFunction, ElementKind::TechnologyProcess, ElementKind::TechnologyInteraction, ElementKind::TechnologyEvent, ElementKind::TechnologyService, ElementKind::Artifact],
            ElementLayer::Physical => seq![ElementKind::Equipment, ElementKind::Facility, ElementKind::DistributionNetwork, ElementKind::Material],
            ElementLayer::Motivation => seq![ElementKind::Stakeholder, ElementKind::Driver, ElementKind::Assessment, ElementKind::Goal, ElementKind::Outcome, ElementKind::Principle, ElementKind::Requirement, ElementKind::Constraint, ElementKind::Meaning, ElementKind::Value],
            ElementLayer::Implementation => seq![ElementKind::WorkPackage, ElementKind::Deliverable, ElementKind::ImplementationEvent, ElementKind::Plateau, ElementKind::Gap],
            ElementLayer::Other => seq![ElementKind::Location, ElementKind::Grouping, ElementKind::AndJunction, ElementKind::OrJunction],
        }
    }

    /// Returns all `ElementKind`s belonging to this layer, in canonical order.
    pub fn elements(self) -> (res: Vec<ElementKind>)
        ensures
            res@ == self.spec_elements(),
    {
        let mut v: Vec<ElementKind> = Vec::new();
        match self {
            ElementLayer::Strategy => {
                v.push(ElementKind::Resource);
                v.push(ElementKind::Capability);
                v.push(ElementKind::ValueStream);
                v.push(ElementKind::CourseOfAction);
            },
            ElementLayer::Business => {
                v.push(ElementKind::BusinessActor);
                v.push(ElementKind::BusinessRole);
                v.push(ElementKind::BusinessCollaboration);
                v.push(ElementKind::BusinessInterface);
                v.push(ElementKind::BusinessProcess);
                v.push(ElementKind::BusinessFunction);
                v.push(ElementKind::BusinessInteraction);
                v.push(ElementKind::BusinessEvent);
                v.push(ElementKind::BusinessService);
                v.push(ElementKind::BusinessObject);
                v.push(ElementKind::Contract);
                v.push(ElementKind::Representation);
                v.push(ElementKind::Product);
            },
            ElementLayer::Application => {
                v.push(ElementKind::ApplicationComponent);
                v.push(ElementKind::ApplicationCollaboration);
                v.push(ElementKind::ApplicationInterface);
                v.push(ElementKind::ApplicationFunction);
                v.push(ElementKind::ApplicationInteraction);
                v.push(ElementKind::ApplicationProcess);
                v.push(ElementKind::ApplicationEvent);
                v.push(ElementKind::ApplicationService);
                v.push(ElementKind::DataObject);
            },
            ElementLayer::Technology => {
                v.push(ElementKind::Node);
                v.push(ElementKind::Device);
                v.push(ElementKind::SystemSoftware);
                v.push(ElementKind::TechnologyCollaboration);
                v.push(ElementKind::TechnologyInterface);
                v.push(ElementKind::Path);
                v.push(ElementKind::CommunicationNetwork);
                v.push(ElementKind::TechnologyFunction);
                v.push(ElementKind::TechnologyProcess);
                v.push(ElementKind::TechnologyInteraction);
                v.push(ElementKind::TechnologyEvent);
                v.push(ElementKind::TechnologyService);
                v.push(ElementKind::Artifact);
            },
            ElementLayer::Physical => {
                v.push(ElementKind::Equipment);
                v.push(ElementKind::Facility);
                v.push(ElementKind::DistributionNetwork);
                v.push(ElementKind::Material);
            },
            ElementLayer::Motivation => {
                v.push(ElementKind::Stakeholder);
                v.push(ElementKind::Driver);
                v.push(ElementKind::Assessment);
                v.push(ElementKind::Goal);
                v.push(ElementKind::Outcome);
                v.push(ElementKind::Principle);
                v.push(ElementKind::Requirement);
                v.push(ElementKind::Constraint);
                v.push(ElementKind::Meaning);
                v.push(ElementKind::Value);
            },
            ElementLayer::Implementation => {
                v.push(ElementKind::WorkPackage);
                v.push(ElementKind::Deliverable);
                v.push(ElementKind::ImplementationEvent);
                v.push(ElementKind::Plateau);
                v.push(ElementKind::Gap);
            },
            ElementLayer::Other => {
                v.push(ElementKind::Location);
                v.push(ElementKind::Grouping);
                v.push(ElementKind::AndJunction);
                v.push(ElementKind::OrJunction);
            },
        }
        v
    }

    /// Every element type is listed by its own layer.
    pub proof fn lemma_kind_in_own_layer(k: ElementKind)
        ensures
            k.spec_layer().spec_elements().contains(k),
    {
        match k {
            ElementKind::Stakeholder => assert(ElementLayer::Motivation.spec_elements()[0] == k),
            ElementKind::Driver => assert(ElementLayer::Motivation.spec_elements()[1] == k),
            ElementKind::Assessment => assert(ElementLayer::Motivation.spec_elements()[2] == k),
            ElementKind::Goal => assert(ElementLayer::Motivation.spec_elements()[3] == k),
            ElementKind::Outcome => assert(ElementLayer::Motivation.spec_elements()[4] == k),
            ElementKind::Principle => assert(ElementLayer::Motivation.spec_elements()[5] == k),
            ElementKind::Requirement => assert(ElementLayer::Motivation.spec_elements()[6] == k),
            ElementKind::Constraint => assert(ElementLayer::Motivation.spec_elements()[7] == k),
            ElementKind::Meaning => assert(ElementLayer::Motivation.spec_elements()[8] == k),
            ElementKind::Value => assert(ElementLayer::Motivation.spec_elements()[9] == k),
            ElementKind::Resource => assert(ElementLayer::Strategy.spec_elements()[0] == k),
            ElementKind::Capability => assert(ElementLayer::Strategy.spec_elements()[1] == k),
            ElementKind::ValueStream => assert(ElementLayer::Strategy.spec_elements()[2] == k),
            ElementKind::CourseOfAction => assert(ElementLayer::Strategy.spec_elements()[3] == k),
            ElementKind::BusinessActor => assert(ElementLayer::Business.spec_elements()[0] == k),
            ElementKind::BusinessRole => assert(ElementLayer::Business.spec_elements()[1] == k),
            ElementKind::BusinessCollaboration => assert(ElementLayer::Business.spec_elements()[2] == k),
            ElementKind::BusinessInterface => assert(ElementLayer::Business.spec_elements()[3] == k),
            ElementKind::BusinessProcess => assert(ElementLayer::Business.spec_elements()[4] == k),
            ElementKind::BusinessFunction => assert(ElementLayer::Business.spec_elements()[5] == k),
            ElementKind::BusinessInteraction => assert(ElementLayer::Business.spec_elements()[6] == k),
            ElementKind::BusinessEvent => assert(ElementLayer::Business.spec_elements()[7] == k),
            ElementKind::BusinessService => assert(ElementLayer::Business.spec_elements()[8] == k),
            ElementKind::BusinessObject => assert(ElementLayer::Business.spec_elements()[9] == k),
            ElementKind::Contract => assert(ElementLayer::Business.spec_elements()[10] == k),
            ElementKind::Representation => assert(ElementLayer::Business.spec_elements()[11] == k),
            ElementKind::Product => assert(ElementLayer::Business.spec_elements()[12] == k),
            ElementKind::ApplicationComponent => assert(ElementLayer::Application.spec_elements()[0] == k),
            ElementKind::ApplicationCollaboration => assert(ElementLayer::Application.spec_elements()[1] == k),
            ElementKind::ApplicationInterface => assert(ElementLayer::Application.spec_elements()[2] == k),
            ElementKind::ApplicationFunction => assert(ElementLayer::Application.spec_elements()[3] == k),
            ElementKind::ApplicationProcess => assert(ElementLayer::Application.spec_elements()[5] == k),
            ElementKind::ApplicationInteraction => assert(ElementLayer::Application.spec_elements()[4] == k),
            ElementKind::ApplicationEvent => assert(ElementLayer::Application.spec_elements()[6] == k),
            ElementKind::ApplicationService => assert(ElementLayer::Application.spec_elements()[7] == k),
            ElementKind::DataObject => assert(ElementLayer::Application.spec_elements()[8] == k),
            ElementKind::Node => assert(ElementLayer::Technology.spec_elements()[0] == k),
            ElementKind::Device => assert(ElementLayer::Technology.spec_elements()[1] == k),
            ElementKind::SystemSoftware => assert(ElementLayer::Technology.spec_elements()[2] == k),
            ElementKind::TechnologyCollaboration => assert(ElementLayer::Technology.spec_elements()[3] == k),
            ElementKind::TechnologyInterface => assert(ElementLayer::Technology.spec_elements()[4] == k),
            ElementKind::Path => assert(ElementLayer::Technology.spec_elements()[5] == k),
            ElementKind::CommunicationNetwork => assert(ElementLayer::Technology.spec_elements()[6] == k),
            ElementKind::Artifact => assert(ElementLayer::Technology.spec_elements()[12] == k),
            ElementKind::TechnologyFunction => assert(ElementLayer::Technology.spec_elements()[7] == k),
            ElementKind::TechnologyProcess => assert(ElementLayer::Technology.spec_elements()[8] == k),
            ElementKind::TechnologyInteraction => assert(ElementLayer::Technology.spec_elements()[9] == k),
            ElementKind::TechnologyEvent => assert(ElementLayer::Technology.spec_elements()[10] == k),
            ElementKind::TechnologyService => assert(ElementLayer::Technology.spec_elements()[11] == k),
            ElementKind::Equipment => assert(ElementLayer::Physical.spec_elements()[0] == k),
            ElementKind::Facility => assert(ElementLayer::Physical.spec_elements()[1] == k),
            ElementKind::Material => assert(ElementLayer::Physical.spec_elements()[3] == k),
            ElementKind::DistributionNetwork => assert(ElementLayer::Physical.spec_elements()[2] == k),
            ElementKind::WorkPackage => assert(ElementLayer::Implementation.spec_elements()[0] == k),
            ElementKind::Deliverable => assert(ElementLayer::Implementation.spec_elements()[1] == k),
            ElementKind::ImplementationEvent => assert(ElementLayer::Implementation.spec_elements()[2] == k),
            ElementKind::Plateau => assert(ElementLayer::Implementation.spec_elements()[3] == k),
            ElementKind::Gap => assert(ElementLayer::Implementation.spec_elements()[4] == k),
            ElementKind::Grouping => assert(ElementLayer::Other.spec_elements()[1] == k),
            ElementKind::Location => assert(ElementLayer::Other.spec_elements()[0] == k),
            ElementKind::AndJunction => assert(ElementLayer::Other.spec_elements()[2] == k),
            ElementKind::OrJunction => assert(ElementLayer::Other.spec_elements()[3] == k),
        }
    }

    /// Every element type listed by a layer belongs to that layer.
    pub proof fn lemma_layer_lists_own_kinds(l: ElementLayer, i: int)
        requires
            0 <= i < l.spec_elements().len(),
        ensures
            l.spec_elements()[i].spec_layer() == l,
    {
        match l {
            ElementLayer::Strategy => assert(i == 0 || i == 1 || i == 2 || i == 3),
            ElementLayer::Business => assert(i == 0 || i == 1 || i == 2 || i == 3 || i == 4 || i == 5 || i == 6 || i == 7 || i == 8 || i == 9 || i == 10 || i == 11 || i == 12),
            ElementLayer::Application => assert(i == 0 || i == 1 || i == 2 || i == 3 || i == 4 || i == 5 || i == 6 || i == 7 || i == 8),
            ElementLayer::Technology => assert(i == 0 || i == 1 || i == 2 || i == 3 || i == 4 || i == 5 || i == 6 || i == 7 || i == 8 || i == 9 || i == 10 || i == 11 || i == 12),
            ElementLayer::Physical => assert(i == 0 || i == 1 || i == 2 || i == 3),
            ElementLayer::Motivation => assert(i == 0 || i == 1 || i == 2 || i == 3 || i == 4 || i == 5 || i == 6 || i == 7 || i == 8 || i == 9),
            ElementLayer::Implementation => assert(i == 0 || i == 1 || i == 2 || i == 3 || i == 4),
            ElementLayer::Other => assert(i == 0 || i == 1 || i == 2 || i == 3),
        }
    }
}

/// All ArchiMate 3.2 relationship types.
#[derive(Debug, Clone, Copy, PartialEq, Eq, Hash, Structural)]
pub enum RelationKind {
    Composition,
    Aggregation,
    Assignment,
    Realization,
    Serving,
    Access,
    Influence,
    Association,
    Triggering,
    Flow,
    Specialization,
}

impl RelationKind {
    /// Total number of relation kind variants.
    pub const VARIANT_COUNT: usize = 11;

    /// The canonical type name of this relationship type (the variant name).
    pub open spec fn spec_kind_name(self) -> Seq<char> {
        match self {
            RelationKind::Composition => "Composition"@,
            RelationKind::Aggregation => "Aggregation"@,
            RelationKind::Assignment => "Assignment"@,
            RelationKind::Realization => "Realization"@,
            RelationKind::Serving => "Serving"@,
            RelationKind::Access => "Access"@,
            RelationKind::Influence => "Influence"@,
            RelationKind::Association => "Association"@,
            RelationKind::Triggering => "Triggering"@,
            RelationKind::Flow => "Flow"@,
            RelationKind::Specialization => "Specialization"@,
        }
    }

    /// Parses a name in the form produced by `kind_name`; `None` for any other text.
    pub open spec fn spec_from_name(s: Seq<char>) -> Option<RelationKind> {
        if s == "Composition"@ {
            Some(RelationKind::Composition)
        } else if s == "Aggregation"@ {
            Some(RelationKind::Aggregation)
        } else if s == "Assignment"@ {
            Some(RelationKind::Assignment)
        } else if s == "Realization"@ {
            Some(RelationKind::Realization)
        } else if s == "Serving"@ {
            Some(RelationKind::Serving)
        } else if s == "Access"@ {
            Some(RelationKind::Access)
        } else if s == "Influence"@ {
            Some(RelationKind::Influence)
        } else if s == "Association"@ {
            Some(RelationKind::Association)
        } else if s == "Triggering"@ {
            Some(RelationKind::Triggering)
        } else if s == "Flow"@ {
            Some(RelationKind::Flow)
        } else if s == "Specialization"@ {
            Some(RelationKind::Specialization)
        } else {
            None
        }
    }

    /// Parses an exact relationship type name (e.g. `"Serving"`) into a `RelationKind`.
    pub fn from_name(s: &str) -> (res: Option<RelationKind>)
        ensures
            res == RelationKind::spec_from_name(s@),
    {
        if str_eq(s, "Composition") {
            return Some(RelationKind::Composition);
        }
        if str_eq(s, "Aggregation") {
            return Some(RelationKind::Aggregation);
        }
        if str_eq(s, "Assignment") {
            return Some(RelationKind::Assignment);
        }
        if str_eq(s, "Realization") {
            return Some(RelationKind::Realization);
        }
        if str_eq(s, "Serving") {
            return Some(RelationKind::Serving);
        }
        if str_eq(s, "Access") {
            return Some(RelationKind::Access);
        }
        if str_eq(s, "Influence") {
            return Some(RelationKind::Influence);
        }
        if str_eq(s, "Association") {
            return Some(RelationKind::Association);
        }
        if str_eq(s, "Triggering") {
            return Some(RelationKind::Triggering);
        }
        if str_eq(s, "Flow") {
            return Some(RelationKind::Flow);
        }
        if str_eq(s, "Specialization") {
            return Some(RelationKind::Specialization);
        }
        None
    }

    /// The canonical type name of this relationship type (the variant name).
    pub fn kind_name(self) -> (res: &'static str)
        ensures
            res@ == self.spec_kind_name(),
    {
        match self {
            RelationKind::Composition => "Composition",
            RelationKind::Aggregation => "Aggregation",
            RelationKind::Assignment => "Assignment",
            RelationKind::Realization => "Realization",
            RelationKind::Serving => "Serving",
            RelationKind::Access => "Access",
            RelationKind::Influence => "Influence",
            RelationKind::Association => "Association",
            RelationKind::Triggering => "Triggering",
            RelationKind::Flow => "Flow",
            RelationKind::Specialization => "Specialization",
        }
    }

    /// A name parses to a type only when it is that type's canonical name.
    pub proof fn lemma_parsed_name_is_canonical(s: Seq<char>, k: RelationKind)
        requires
            RelationKind::spec_from_name(s) == Some(k),
        ensures
            s == k.spec_kind_name(),
    {
    }

    /// Parsing the canonical name of any relationship type gives that type back.
    pub proof fn lemma_name_round_trip(v: RelationKind)
        ensures
            RelationKind::spec_from_name(v.spec_kind_name()) == Some(v),
    {
        reveal_strlit("Composition");
        assert("Composition"@.len() == 11 && "Composition"@[0] == 'C' && "Composition"@[1] == 'o' && "Composition"@[10] == 'n');
        reveal_strlit("Aggregation");
        assert("Aggregation"@.len() == 11 && "Aggregation"@[0] == 'A' && "Aggregation"@[1] == 'g' && "Aggregation"@[10] == 'n');
        reveal_strlit("Assignment");
        assert("Assignment"@.len() == 10 && "Assignment"@[0] == 'A' && "Assignment"@[1] == 's' && "Assignment"@[9] == 't');
        reveal_strlit("Realization");
        assert("Realization"@.len() == 11 && "Realization"@[0] == 'R' && "Realization"@[1] == 'e' && "Realization"@[10] == 'n');
        reveal_strlit("Serving");
        assert("Serving"@.len() == 7 && "Serving"@[0] == 'S' && "Serving"@[1] == 'e' && "Serving"@[6] == 'g');
        reveal_strlit("Access");
        assert("Access"@.len() == 6 && "Access"@[0] == 'A' && "Access"@[1] == 'c' && "Access"@[5] == 's');
        reveal_strlit("Influence");
        assert("Influence"@.len() == 9 && "Influence"@[0] == 'I' && "Influence"@[1] == 'n' && "Influence"@[8] == 'e');
        reveal_strlit("Association");
        assert("Association"@.len() == 11 && "Association"@[0] == 'A' && "Association"@[1] == 's' && "Association"@[10] == 'n');
        reveal_strlit("Triggering");
        assert("Triggering"@.len() == 10 && "Triggering"@[0] == 'T' && "Triggering"@[1] == 'r' && "Triggering"@[9] == 'g');
        reveal_strlit("Flow");
        assert("Flow"@.len() == 4 && "Flow"@[0] == 'F' && "Flow"@[1] == 'l' && "Flow"@[3] == 'w');
        reveal_strlit("Specialization");
        assert("Specialization"@.len() == 14 && "Specialization"@[0] == 'S' && "Specialization"@[1] == 'p' && "Specialization"@[13] == 'n');
    }

    /// Parses a relationship type name, with an error message for unknown names.
    pub fn parse_name(s: &str) -> (res: Result<RelationKind, String>)
        ensures
            match RelationKind::spec_from_name(s@) {
                Some(k) => res == Ok::<RelationKind, String>(k),
                None => res matches Err(msg) && msg@ == "unknown relation kind: "@ + s@,
            },
    {
        match RelationKind::from_name(s) {
            Some(k) => Ok(k),
            None => {
                let mut msg = "unknown relation kind: ".to_owned();
                msg.append(s);
                Err(msg)
            },
        }
    }

}

/// The Archi viewpoints that the model understands.
///
/// Layer viewpoints filter on a single metamodel layer; the others combine
/// layers or add extra element types. `NONE` stands for "no viewpoint"
/// (Archi's "Layered"), which allows every element.
#[derive(Debug, Clone, Copy, PartialEq, Eq, Hash, Structural)]
#[allow(non_camel_case_types)]
pub enum Viewpoint {
    Motivation,
    Strategy,
    Business,
    Application,
    Technology,
    Physical,
    Implementation,
    Other,
    EnterpriseStructure,
    ValueStream,
    Organization,
    BusinessProcessCooperation,
    Product,
    ApplicationCooperation,
    ApplicationUsage,
    NONE,
}

impl Viewpoint {
    /// The Archi XML name of this viewpoint (e.g. "Business Process Cooperation").
    pub open spec fn spec_xml_name(self) -> Seq<char> {
        match self {
            Viewpoint::Motivation => "Motivation"@,
            Viewpoint::Strategy => "Strategy"@,
            Viewpoint::Business => "Business"@,
            Viewpoint::Application => "Application"@,
            Viewpoint::Technology => "Technology"@,
            Viewpoint::Physical => "Physical"@,
            Viewpoint::Implementation => "Implementation and Deployment"@,
            Viewpoint::Other => "Other"@,
            Viewpoint::EnterpriseStructure => "Enterprise Structure"@,
            Viewpoint::ValueStream => "Value Stream"@,
            Viewpoint::Organization => "Organization"@,
            Viewpoint::BusinessProcessCooperation => "Business Process Cooperation"@,
            Viewpoint::Product => "Product"@,
            Viewpoint::ApplicationCooperation => "Application Cooperation"@,
            Viewpoint::ApplicationUsage => "Application Usage"@,
            Viewpoint::NONE => "Layered"@,
        }
    }

    /// Parses a name in the form produced by `to_xml_viewpoint_name`; `None` for any other text.
    pub open spec fn spec_from_xml_name(s: Seq<char>) -> Option<Viewpoint> {
        if s == "Motivation"@ {
            Some(Viewpoint::Motivation)
        } else if s == "Strategy"@ {
            Some(Viewpoint::Strategy)
        } else if s == "Business"@ {
            Some(Viewpoint::Business)
        } else if s == "Application"@ {
            Some(Viewpoint::Application)
        } else if s == "Technology"@ {
            Some(Viewpoint::Technology)
        } else if s == "Physical"@ {
            Some(Viewpoint::Physical)
        } else if s == "Implementation and Deployment"@ {
            Some(Viewpoint::Implementation)
        } else if s == "Other"@ {
            Some(Viewpoint::Other)
        } else if s == "Enterprise Structure"@ {
            Some(Viewpoint::EnterpriseStructure)
        } else if s == "Value Stream"@ {
            Some(Viewpoint::ValueStream)
        } else if s == "Organization"@ {
            Some(Viewpoint::Organization)
        } else if s == "Business Process Cooperation"@ {
            Some(Viewpoint::BusinessProcessCooperation)
        } else if s == "Product"@ {
            Some(Viewpoint::Product)
        } else if s == "Application Cooperation"@ {
            Some(Viewpoint::ApplicationCooperation)
        } else if s == "Application Usage"@ {
            Some(Viewpoint::ApplicationUsage)
        } else if s == "Layered"@ {
            Some(Viewpoint::NONE)
        } else {
            None
        }
    }

    /// Parses a viewpoint name in the Archi XML form (e.g. "Business Process Cooperation").
    pub fn from_xml_viewpoint_name(s: &str) -> (res: Option<Viewpoint>)
        ensures
            res == Viewpoint::spec_from_xml_name(s@),
    {
        if str_eq(s, "Motivation") {
            return Some(Viewpoint::Motivation);
        }
        if str_eq(s, "Strategy") {
            return Some(Viewpoint::Strategy);
        }
        if str_eq(s, "Business") {
            return Some(Viewpoint::Business);
        }
        if str_eq(s, "Application") {
            return Some(Viewpoint::Application);
        }
        if str_eq(s, "Technology") {
            return Some(Viewpoint::Technology);
        }
        if str_eq(s, "Physical") {
            return Some(Viewpoint::Physical);
        }
        if str_eq(s, "Implementation and Deployment") {
            return Some(Viewpoint::Implementation);
        }
        if str_eq(s, "Other") {
            return Some(Viewpoint::Other);
        }
        if str_eq(s, "Enterprise Structure") {
            return Some(Viewpoint::EnterpriseStructure);
        }
        if str_eq(s, "Value Stream") {
            return Some(Viewpoint::ValueStream);
        }
        if str_eq(s, "Organization") {
            return Some(Viewpoint::Organization);
        }
        if str_eq(s, "Business Process Cooperation") {
            return Some(Viewpoint::BusinessProcessCooperation);
        }
        if str_eq(s, "Product") {
            return Some(Viewpoint::Product);
        }
        if str_eq(s, "Application Cooperation") {
            return Some(Viewpoint::ApplicationCooperation);
        }
        if str_eq(s, "Application Usage") {
            return Some(Viewpoint::ApplicationUsage);
        }
        if str_eq(s, "Layered") {
            return Some(Viewpoint::NONE);
        }
        None
    }

    /// The Archi XML name of this viewpoint (e.g. "Business Process Cooperation").
    pub fn to_xml_viewpoint_name(self) -> (res: &'static str)
        ensures
            res@ == self.spec_xml_name(),
    {
        match self {
            Viewpoint::Motivation => "Motivation",
            Viewpoint::Strategy => "Strategy",
            Viewpoint::Business => "Business",
            Viewpoint::Application => "Application",
            Viewpoint::Technology => "Technology",
            Viewpoint::Physical => "Physical",
            Viewpoint::Implementation => "Implementation and Deployment",
            Viewpoint::Other => "Other",
            Viewpoint::EnterpriseStructure => "Enterprise Structure",
            Viewpoint::ValueStream => "Value Stream",
            Viewpoint::Organization => "Organization",
            Viewpoint::BusinessProcessCooperation => "Business Process Cooperation",
            Viewpoint::Product => "Product",
            Viewpoint::ApplicationCooperation => "Application Cooperation",
            Viewpoint::ApplicationUsage => "Application Usage",
            Viewpoint::NONE => "Layered",
        }
    }

    /// Parsing the Archi XML name of any viewpoint gives that viewpoint back.
    pub proof fn lemma_xml_name_round_trip(v: Viewpoint)
        ensures
            Viewpoint::spec_from_xml_name(v.spec_xml_name()) == Some(v),
    {
        reveal_strlit("Motivation");
        assert("Motivation"@.len() == 10 && "Motivation"@[0] == 'M' && "Motivation"@[1] == 'o' && "Motivation"@[9] == 'n');
        reveal_strlit("Strategy");
        assert("Strategy"@.len() == 8 && "Strategy"@[0] == 'S' && "Strategy"@[1] == 't' && "Strategy"@[7] == 'y');
        reveal_strlit("Business");
        assert("Business"@.len() == 8 && "Business"@[0] == 'B' && "Business"@[1] == 'u' && "Business"@[7] == 's');
        reveal_strlit("Application");
        assert("Application"@.len() == 11 && "Application"@[0] == 'A' && "Application"@[1] == 'p' && "Application"@[10] == 'n');
        reveal_strlit("Technology");
        assert("Technology"@.len() == 10 && "Technology"@[0] == 'T' && "Technology"@[1] == 'e' && "Technology"@[9] == 'y');
        reveal_strlit("Physical");
        assert("Physical"@.len() == 8 && "Physical"@[0] == 'P' && "Physical"@[1] == 'h' && "Physical"@[7] == 'l');
        reveal_strlit("Implementation and Deployment");
        assert("Implementation and Deployment"@.len() == 29 && "Implementation and Deployment"@[0] == 'I' && "Implementation and Deployment"@[1] == 'm' && "Implementation and Deployment"@[28] == 't');
        reveal_strlit("Other");
        assert("Other"@.len() == 5 && "Other"@[0] == 'O' && "Other"@[1] == 't' && "Other"@[4] == 'r');
        reveal_strlit("Enterprise Structure");
        assert("Enterprise Structure"@.len() == 20 && "Enterprise Structure"@[0] == 'E' && "Enterprise Structure"@[1] == 'n' && "Enterprise Structure"@[19] == 'e');
        reveal_strlit("Value Stream");
        assert("Value Stream"@.len() == 12 && "Value Stream"@[0] == 'V' && "Value Stream"@[1] == 'a' && "Value Stream"@[11] == 'm');
        reveal_strlit("Organization");
        assert("Organization"@.len() == 12 && "Organization"@[0] == 'O' && "Organization"@[1] == 'r' && "Organization"@[11] == 'n');
        reveal_strlit("Business Process Cooperation");
        assert("Business Process Cooperation"@.len() == 28 && "Business Process Cooperation"@[0] == 'B' && "Business Process Cooperation"@[1] == 'u' && "Business Process Cooperation"@[27] == 'n');
        reveal_strlit("Product");
        assert("Product"@.len() == 7 && "Product"@[0] == 'P' && "Product"@[1] == 'r' && "Product"@[6] == 't');
        reveal_strlit("Application Cooperation");
        assert("Application Cooperation"@.len() == 23 && "Application Cooperation"@[0] == 'A' && "Application Cooperation"@[1] == 'p' && "Application Cooperation"@[22] == 'n');
        reveal_strlit("Application Usage");
        assert("Application Usage"@.len() == 17 && "Application Usage"@[0] == 'A' && "Application Usage"@[1] == 'p' && "Application Usage"@[16] == 'e');
        reveal_strlit("Layered");
        assert("Layered"@.len() == 7 && "Layered"@[0] == 'L' && "Layered"@[1] == 'a' && "Layered"@[6] == 'd');
    }

    /// The YAML name of this viewpoint (e.g. "BusinessProcessCooperation").
    pub open spec fn spec_yaml_name(self) -> Seq<char> {
        match self {
            Viewpoint::Motivation => "Motivation"@,
            Viewpoint::Strategy => "Strategy"@,
            Viewpoint::Business => "Business"@,
            Viewpoint::Application => "Application"@,
            Viewpoint::Technology => "Technology"@,
            Viewpoint::Physical => "Physical"@,
            Viewpoint::Implementation => "Implementation"@,
            Viewpoint::Other => "Other"@,
            Viewpoint::EnterpriseStructure => "EnterpriseStructure"@,
            Viewpoint::ValueStream => "ValueStream"@,
            Viewpoint::Organization => "Organization"@,
            Viewpoint::BusinessProcessCooperation => "BusinessProcessCooperation"@,
            Viewpoint::Product => "Product"@,
            Viewpoint::ApplicationCooperation => "ApplicationCooperation"@,
            Viewpoint::ApplicationUsage => "ApplicationUsage"@,
            Viewpoint::NONE => "Layered"@,
        }
    }

    /// Parses a name in the form produced by `to_yaml_viewpoint_name`; `None` for any other text.
    pub open spec fn spec_from_yaml_name(s: Seq<char>) -> Option<Viewpoint> {
        if s == "Motivation"@ {
            Some(Viewpoint::Motivation)
        } else if s == "Strategy"@ {
            Some(Viewpoint::Strategy)
        } else if s == "Business"@ {
            Some(Viewpoint::Business)
        } else if s == "Application"@ {
            Some(Viewpoint::Application)
        } else if s == "Technology"@ {
            Some(Viewpoint::Technology)
        } else if s == "Physical"@ {
            Some(Viewpoint::Physical)
        } else if s == "Implementation"@ {
            Some(Viewpoint::Implementation)
        } else if s == "Other"@ {
            Some(Viewpoint::Other)
        } else if s == "EnterpriseStructure"@ {
            Some(Viewpoint::EnterpriseStructure)
        } else if s == "ValueStream"@ {
            Some(Viewpoint::ValueStream)
        } else if s == "Organization"@ {
            Some(Viewpoint::Organization)
        } else if s == "BusinessProcessCooperation"@ {
            Some(Viewpoint::BusinessProcessCooperation)
        } else if s == "Product"@ {
            Some(Viewpoint::Product)
        } else if s == "ApplicationCooperation"@ {
            Some(Viewpoint::ApplicationCooperation)
        } else if s == "ApplicationUsage"@ {
            Some(Viewpoint::ApplicationUsage)
        } else if s == "Layered"@ {
            Some(Viewpoint::NONE)
        } else {
            None
        }
    }

    /// Parses a viewpoint name in the YAML form (e.g. "Business", "Technology").
    pub fn from_yaml_viewpoint_name(s: &str) -> (res: Option<Viewpoint>)
        ensures
            res == Viewpoint::spec_from_yaml_name(s@),
    {
        if str_eq(s, "Motivation") {
            return Some(Viewpoint::Motivation);
        }
        if str_eq(s, "Strategy") {
            return Some(Viewpoint::Strategy);
        }
        if str_eq(s, "Business") {
            return Some(Viewpoint::Business);
        }
        if str_eq(s, "Application") {
            return Some(Viewpoint::Application);
        }
        if str_eq(s, "Technology") {
            return Some(Viewpoint::Technology);
        }
        if str_eq(s, "Physical") {
            return Some(Viewpoint::Physical);
        }
        if str_eq(s, "Implementation") {
            return Some(Viewpoint::Implementation);
        }
        if str_eq(s, "Other") {
            return Some(Viewpoint::Other);
        }
        if str_eq(s, "EnterpriseStructure") {
            return Some(Viewpoint::EnterpriseStructure);
        }
        if str_eq(s, "ValueStream") {
            return Some(Viewpoint::ValueStream);
        }
        if str_eq(s, "Organization") {
            return Some(Viewpoint::Organization);
        }
        if str_eq(s, "BusinessProcessCooperation") {
            return Some(Viewpoint::BusinessProcessCooperation);
        }
        if str_eq(s, "Product") {
            return Some(Viewpoint::Product);
        }
        if str_eq(s, "ApplicationCooperation") {
            return Some(Viewpoint::ApplicationCooperation);
        }
        if str_eq(s, "ApplicationUsage") {
            return Some(Viewpoint::ApplicationUsage);
        }
        if str_eq(s, "Layered") {
            return Some(Viewpoint::NONE);
        }
        None
    }

    /// The YAML name of this viewpoint (e.g. "BusinessProcessCooperation").
    pub fn to_yaml_viewpoint_name(self) -> (res: &'static str)
        ensures
            res@ == self.spec_yaml_name(),
    {
        match self {
            Viewpoint::Motivation => "Motivation",
            Viewpoint::Strategy => "Strategy",
            Viewpoint::Business => "Business",
            Viewpoint::Application => "Application",
            Viewpoint::Technology => "Technology",
            Viewpoint::Physical => "Physical",
            Viewpoint::Implementation => "Implementation",
            Viewpoint::Other => "Other",
            Viewpoint::EnterpriseStructure => "EnterpriseStructure",
            Viewpoint::ValueStream => "ValueStream",
            Viewpoint::Organization => "Organization",
            Viewpoint::BusinessProcessCooperation => "BusinessProcessCooperation",
            Viewpoint::Product => "Product",
            Viewpoint::ApplicationCooperation => "ApplicationCooperation",
            Viewpoint::ApplicationUsage => "ApplicationUsage",
            Viewpoint::NONE => "Layered",
        }
    }

    /// Parsing the YAML name of any viewpoint gives that viewpoint back.
    pub proof fn lemma_yaml_name_round_trip(v: Viewpoint)
        ensures
            Viewpoint::spec_from_yaml_name(v.spec_yaml_name()) == Some(v),
    {
        reveal_strlit("Motivation");
        assert("Motivation"@.len() == 10 && "Motivation"@[0] == 'M' && "Motivation"@[1] == 'o' && "Motivation"@[9] == 'n');
        reveal_strlit("Strategy");
        assert("Strategy"@.len() == 8 && "Strategy"@[0] == 'S' && "Strategy"@[1] == 't' && "Strategy"@[7] == 'y');
        reveal_strlit("Business");
        assert("Business"@.len() == 8 && "Business"@[0] == 'B' && "Business"@[1] == 'u' && "Business"@[7] == 's');
        reveal_strlit("Application");
        assert("Application"@.len() == 11 && "Application"@[0] == 'A' && "Application"@[1] == 'p' && "Application"@[10] == 'n');
        reveal_strlit("Technology");
        assert("Technology"@.len() == 10 && "Technology"@[0] == 'T' && "Technology"@[1] == 'e' && "Technology"@[9] == 'y');
        reveal_strlit("Physical");
        assert("Physical"@.len() == 8 && "Physical"@[0] == 'P' && "Physical"@[1] == 'h' && "Physical"@[7] == 'l');
        reveal_strlit("Implementation");
        assert("Implementation"@.len() == 14 && "Implementation"@[0] == 'I' && "Implementation"@[1] == 'm' && "Implementation"@[13] == 'n');
        reveal_strlit("Other");
        assert("Other"@.len() == 5 && "Other"@[0] == 'O' && "Other"@[1] == 't' && "Other"@[4] == 'r');
        reveal_strlit("EnterpriseStructure");
        assert("EnterpriseStructure"@.len() == 19 && "EnterpriseStructure"@[0] == 'E' && "EnterpriseStructure"@[1] == 'n' && "EnterpriseStructure"@[18] == 'e');
        reveal_strlit("ValueStream");
        assert("ValueStream"@.len() == 11 && "ValueStream"@[0] == 'V' && "ValueStream"@[1] == 'a' && "ValueStream"@[10] == 'm');
        reveal_strlit("Organization");
        assert("Organization"@.len() == 12 && "Organization"@[0] == 'O' && "Organization"@[1] == 'r' && "Organization"@[11] == 'n');
        reveal_strlit("BusinessProcessCooperation");
        assert("BusinessProcessCooperation"@.len() == 26 && "BusinessProcessCooperation"@[0] == 'B' && "BusinessProcessCooperation"@[1] == 'u' && "BusinessProcessCooperation"@[25] == 'n');
        reveal_strlit("Product");
        assert("Product"@.len() == 7 && "Product"@[0] == 'P' && "Product"@[1] == 'r' && "Product"@[6] == 't');
        reveal_strlit("ApplicationCooperation");
        assert("ApplicationCooperation"@.len() == 22 && "ApplicationCooperation"@[0] == 'A' && "ApplicationCooperation"@[1] == 'p' && "ApplicationCooperation"@[21] == 'n');
        reveal_strlit("ApplicationUsage");
        assert("ApplicationUsage"@.len() == 16 && "ApplicationUsage"@[0] == 'A' && "ApplicationUsage"@[1] == 'p' && "ApplicationUsage"@[15] == 'e');
        reveal_strlit("Layered");
        assert("Layered"@.len() == 7 && "Layered"@[0] == 'L' && "Layered"@[1] == 'a' && "Layered"@[6] == 'd');
    }

    /// The layer a viewpoint filters on, if it is a single-layer viewpoint.
    pub open spec fn spec_layer_filter(self) -> Option<ElementLayer> {
        match self {
            Viewpoint::Motivation => Some(ElementLayer::Motivation),
            Viewpoint::Strategy => Some(ElementLayer::Strategy),
            Viewpoint::Business => Some(ElementLayer::Business),
            Viewpoint::Application => Some(ElementLayer::Application),
            Viewpoint::Technology => Some(ElementLayer::Technology),
            Viewpoint::Physical => Some(ElementLayer::Physical),
            Viewpoint::Implementation => Some(ElementLayer::Implementation),
            Viewpoint::Other => Some(ElementLayer::Other),
            Viewpoint::EnterpriseStructure => None,
            Viewpoint::ValueStream => None,
            Viewpoint::Organization => None,
            Viewpoint::BusinessProcessCooperation => None,
            Viewpoint::Product => None,
            Viewpoint::ApplicationCooperation => None,
            Viewpoint::ApplicationUsage => None,
            Viewpoint::NONE => None,
        }
    }

    /// Returns the core layer filter for this viewpoint, or `None` if the viewpoint
    /// is not layer-based (e.g. `ValueStream` or `EnterpriseStructure`).
    pub fn layer_filter(self) -> (res: Option<ElementLayer>)
        ensures
            res == self.spec_layer_filter(),
    {
        match self {
            Viewpoint::Motivation => Some(ElementLayer::Motivation),
            Viewpoint::Strategy => Some(ElementLayer::Strategy),
            Viewpoint::Business => Some(ElementLayer::Business),
            Viewpoint::Application => Some(ElementLayer::Application),
            Viewpoint::Technology => Some(ElementLayer::Technology),
            Viewpoint::Physical => Some(ElementLayer::Physical),
            Viewpoint::Implementation => Some(ElementLayer::Implementation),
            Viewpoint::Other => Some(ElementLayer::Other),
            Viewpoint::EnterpriseStructure => None,
            Viewpoint::ValueStream => None,
            Viewpoint::Organization => None,
            Viewpoint::BusinessProcessCooperation => None,
            Viewpoint::Product => None,
            Viewpoint::ApplicationCooperation => None,
            Viewpoint::ApplicationUsage => None,
            Viewpoint::NONE => None,
        }
    }
}

/// The kind of a viewpoint definition attached to a model, as written in
/// YAML (`kind: business`) and in the Archi XML `viewpoint` attribute.
#[derive(Debug, Clone, Copy, PartialEq, Eq, Hash, Structural)]
pub enum ViewpointKind {
    Unspecified,
    Business,
    Application,
    Implementation,
    Motivation,
    Compliance,
}

impl ViewpointKind {
    /// The lower-case name of this viewpoint kind (e.g. "business").
    pub open spec fn spec_viewpoint_name(self) -> Seq<char> {
        match self {
            ViewpointKind::Unspecified => "none"@,
            ViewpointKind::Business => "business"@,
            ViewpointKind::Application => "application"@,
            ViewpointKind::Implementation => "implementation"@,
            ViewpointKind::Motivation => "motivation"@,
            ViewpointKind::Compliance => "compliance"@,
        }
    }

    /// Parses a name in the form produced by `as_viewpoint_name`; `None` for any other text.
    pub open spec fn spec_from_viewpoint_name(s: Seq<char>) -> Option<ViewpointKind> {
        if s == "none"@ {
            Some(ViewpointKind::Unspecified)
        } else if s == "business"@ {
            Some(ViewpointKind::Business)
        } else if s == "application"@ {
            Some(ViewpointKind::Application)
        } else if s == "implementation"@ {
            Some(ViewpointKind::Implementation)
        } else if s == "motivation"@ {
            Some(ViewpointKind::Motivation)
        } else if s == "compliance"@ {
            Some(ViewpointKind::Compliance)
        } else {
            None
        }
    }

    /// Parses a lower-case viewpoint kind name (e.g. "business").
    pub fn from_viewpoint_name(s: &str) -> (res: Option<ViewpointKind>)
        ensures
            res == ViewpointKind::spec_from_viewpoint_name(s@),
    {
        if str_eq(s, "none") {
            return Some(ViewpointKind::Unspecified);
        }
        if str_eq(s, "business") {
            return Some(ViewpointKind::Business);
        }
        if str_eq(s, "application") {
            return Some(ViewpointKind::Application);
        }
        if str_eq(s, "implementation") {
            return Some(ViewpointKind::Implementation);
        }
        if str_eq(s, "motivation") {
            return Some(ViewpointKind::Motivation);
        }
        if str_eq(s, "compliance") {
            return Some(ViewpointKind::Compliance);
        }
        None
    }

    /// The lower-case name of this viewpoint kind (e.g. "business").
    pub fn as_viewpoint_name(self) -> (res: &'static str)
        ensures
            res@ == self.spec_viewpoint_name(),
    {
        match self {
            ViewpointKind::Unspecified => "none",
            ViewpointKind::Business => "business",
            ViewpointKind::Application => "application",
            ViewpointKind::Implementation => "implementation",
            ViewpointKind::Motivation => "motivation",
            ViewpointKind::Compliance => "compliance",
        }
    }

    /// Parsing the name of any viewpoint kind gives that kind back.
    pub proof fn lemma_name_round_trip(v: ViewpointKind)
        ensures
            ViewpointKind::spec_from_viewpoint_name(v.spec_viewpoint_name()) == Some(v),
    {
        reveal_strlit("none");
        assert("none"@.len() == 4 && "none"@[0] == 'n' && "none"@[1] == 'o' && "none"@[3] == 'e');
        reveal_strlit("business");
        assert("business"@.len() == 8 && "business"@[0] == 'b' && "business"@[1] == 'u' && "business"@[7] == 's');
        reveal_strlit("application");
        assert("application"@.len() == 11 && "application"@[0] == 'a' && "application"@[1] == 'p' && "application"@[10] == 'n');
        reveal_strlit("implementation");
        assert("implementation"@.len() == 14 && "implementation"@[0] == 'i' && "implementation"@[1] == 'm' && "implementation"@[13] == 'n');
        reveal_strlit("motivation");
        assert("motivation"@.len() == 10 && "motivation"@[0] == 'm' && "motivation"@[1] == 'o' && "motivation"@[9] == 'n');
        reveal_strlit("compliance");
        assert("compliance"@.len() == 10 && "compliance"@[0] == 'c' && "compliance"@[1] == 'o' && "compliance"@[9] == 'e');
    }

}

/// Strongly-typed index into the model's element arena.
#[derive(Debug, Clone, Copy, PartialEq, Eq, Hash, Structural)]
pub struct ElementId(pub usize);

/// Strongly-typed index into the model's relationship arena.
#[derive(Debug, Clone, Copy, PartialEq, Eq, Hash, Structural)]
pub struct RelationId(pub usize);

impl ElementId {
    /// The decimal rendering of the index.
    pub fn to_decimal(&self) -> (res: String)
        ensures
            res@ == decimal(self.0 as nat),
    {
        let mut s = String::new();
        push_decimal(&mut s, self.0 as u128);
        s
    }
}

/// A node in the ArchiMate graph.
#[derive(Debug, Clone)]
pub struct Element {
    /// Position of the element in the arena.
    pub id: ElementId,
    /// The identifier the element carries in YAML and XML documents.
    pub original_id: String,
    pub name: String,
    pub kind: ElementKind,
}

/// A directed edge in the ArchiMate graph.
#[derive(Debug, Clone)]
pub struct Relationship {
    /// Position of the relationship in the arena.
    pub id: RelationId,
    /// The identifier the relationship carries in YAML and XML documents.
    pub original_id: String,
    pub source: ElementId,
    pub target: ElementId,
    pub kind: RelationKind,
}

/// A named view over a subset of the model, referring to elements and
/// relationships by their original identifiers.
#[derive(Debug, Clone)]
pub struct ViewpointDefinition {
    pub id: String,
    pub name: String,
    pub kind: ViewpointKind,
    pub elements: Vec<String>,
    pub relationships: Vec<String>,
}

/// The original identifier synthesized for the element at arena index `n`: `e_<n>`.
pub open spec fn synthesized_element_id(n: nat) -> Seq<char> {
    "e_"@ + decimal(n)
}

/// The original identifier synthesized for the relationship at arena index `n`: `r_<n>`.
pub open spec fn synthesized_relation_id(n: nat) -> Seq<char> {
    "r_"@ + decimal(n)
}

/// Root container for an ArchiMate model.
///
/// Owns all elements and relationships; access is by typed index.
#[derive(Debug, Clone)]
pub struct Model {
    pub name: String,
    elements: Vec<Element>,
    relations: Vec<Relationship>,
    viewpoints: Vec<ViewpointDefinition>,
}

impl Model {
    /// The model's name.
    pub closed spec fn spec_name(&self) -> Seq<char> {
        self.name@
    }

    /// The elements of the model, in arena order.
    pub closed spec fn spec_elements(&self) -> Seq<Element> {
        self.elements@
    }

    /// The relationships of the model, in arena order.
    pub closed spec fn spec_relations(&self) -> Seq<Relationship> {
        self.relations@
    }

    /// The viewpoint definitions attached to the model.
    pub closed spec fn spec_viewpoints(&self) -> Seq<ViewpointDefinition> {
        self.viewpoints@
    }

    /// Every element and relationship sits at the arena index its id names.
    pub open spec fn wf(&self) -> bool {
        &&& forall|i: int| 0 <= i < self.spec_elements().len()
            ==> (#[trigger] self.spec_elements()[i]).id.0 == i
        &&& forall|i: int| 0 <= i < self.spec_relations().len()
            ==> (#[trigger] self.spec_relations()[i]).id.0 == i
    }

    /// Every relationship's endpoints name elements of the model.
    pub open spec fn endpoints_resolve(&self) -> bool {
        forall|i: int| 0 <= i < self.spec_relations().len() ==> {
            &&& (#[trigger] self.spec_relations()[i]).source.0 < self.spec_elements().len()
            &&& self.spec_relations()[i].target.0 < self.spec_elements().len()
        }
    }

    /// Creates a new empty model.
    pub fn new(name: &str) -> (m: Model)
        ensures
            m.wf(),
            m.spec_name() == name@,
            m.spec_elements().len() == 0,
            m.spec_relations().len() == 0,
            m.spec_viewpoints().len() == 0,
    {
        Model {
            name: name.to_owned(),
            elements: Vec::new(),
            relations: Vec::new(),
            viewpoints: Vec::new(),
        }
    }

    /// Adds an element carrying the given original id and returns its typed index.
    pub fn add_element_with_id(&mut self, original_id: &str, name: &str, kind: ElementKind) -> (id: ElementId)
        requires
            old(self).wf(),
        ensures
            final(self).wf(),
            id.0 == old(self).spec_elements().len(),
            final(self).spec_elements().len() == old(self).spec_elements().len() + 1,
            final(self).spec_elements().drop_last() == old(self).spec_elements(),
            final(self).spec_elements().last().id == id,
            final(self).spec_elements().last().original_id@ == original_id@,
            final(self).spec_elements().last().name@ == name@,
            final(self).spec_elements().last().kind == kind,
            final(self).spec_relations() == old(self).spec_relations(),
            final(self).spec_viewpoints() == old(self).spec_viewpoints(),
            final(self).spec_name() == old(self).spec_name(),
    {
        let id = ElementId(self.elements.len());
        self.elements.push(Element { id, original_id: original_id.to_owned(), name: name.to_owned(), kind });
        assert(self.elements@.drop_last() == old(self).elements@);
        id
    }

    /// Adds an element and returns its typed index; its original id is `e_<index>`.
    pub fn add_element(&mut self, name: &str, kind: ElementKind) -> (id: ElementId)
        requires
            old(self).wf(),
        ensures
            final(self).wf(),
            id.0 == old(self).spec_elements().len(),
            final(self).spec_elements().len() == old(self).spec_elements().len() + 1,
            final(self).spec_elements().drop_last() == old(self).spec_elements(),
            final(self).spec_elements().last().id == id,
            final(self).spec_elements().last().original_id@ == synthesized_element_id(id.0 as nat),
            final(self).spec_elements().last().name@ == name@,
            final(self).spec_elements().last().kind == kind,
            final(self).spec_relations() == old(self).spec_relations(),
            final(self).spec_viewpoints() == old(self).spec_viewpoints(),
            final(self).spec_name() == old(self).spec_name(),
    {
        let mut original_id = "e_".to_owned();
        push_decimal(&mut original_id, self.elements.len() as u128);
        let id = ElementId(self.elements.len());
        self.elements.push(Element { id, original_id, name: name.to_owned(), kind });
        assert(self.elements@.drop_last() == old(self).elements@);
        id
    }

    /// Adds a relationship carrying the given original id and returns its typed index.
    pub fn link_with_id(
        &mut self,
        original_id: &str,
        source: ElementId,
        target: ElementId,
        kind: RelationKind,
    ) -> (id: RelationId)
        requires
            old(self).wf(),
        ensures
            final(self).wf(),
            id.0 == old(self).spec_relations().len(),
            final(self).spec_relations().len() == old(self).spec_relations().len() + 1,
            final(self).spec_relations().drop_last() == old(self).spec_relations(),
            final(self).spec_relations().last().id == id,
            final(self).spec_relations().last().original_id@ == original_id@,
            final(self).spec_relations().last().source == source,
            final(self).spec_relations().last().target == target,
            final(self).spec_relations().last().kind == kind,
            final(self).spec_elements() == old(self).spec_elements(),
            final(self).spec_viewpoints() == old(self).spec_viewpoints(),
            final(self).spec_name() == old(self).spec_name(),
    {
        let id = RelationId(self.relations.len());
        self.relations.push(Relationship { id, original_id: original_id.to_owned(), source, target, kind });
        assert(self.relations@.drop_last() == old(self).relations@);
        id
    }

    /// Adds a relationship and returns its typed index; its original id is `r_<index>`.
    pub fn link(&mut self, source: ElementId, target: ElementId, kind: RelationKind) -> (id: RelationId)
        requires
            old(self).wf(),
        ensures
            final(self).wf(),
            id.0 == old(self).spec_relations().len(),
            final(self).spec_relations().len() == old(self).spec_relations().len() + 1,
            final(self).spec_relations().drop_last() == old(self).spec_relations(),
            final(self).spec_relations().last().id == id,
            final(self).spec_relations().last().original_id@ == synthesized_relation_id(id.0 as nat),
            final(self).spec_relations().last().source == source,
            final(self).spec_relations().last().target == target,
            final(self).spec_relations().last().kind == kind,
            final(self).spec_elements() == old(self).spec_elements(),
            final(self).spec_viewpoints() == old(self).spec_viewpoints(),
            final(self).spec_name() == old(self).spec_name(),
    {
        let mut original_id = "r_".to_owned();
        push_decimal(&mut original_id, self.relations.len() as u128);
        let id = RelationId(self.relations.len());
        self.relations.push(Relationship { id, original_id, source, target, kind });
        assert(self.relations@.drop_last() == old(self).relations@);
        id
    }

    /// The model's name.
    pub fn model_name(&self) -> (s: &str)
        ensures
            s@ == self.spec_name(),
    {
        self.name.as_str()
    }

    /// Direct access to an element by typed index.
    pub fn element(&self, id: ElementId) -> (e: &Element)
        requires
            id.0 < self.spec_elements().len(),
        ensures
            *e == self.spec_elements()[id.0 as int],
    {
        &self.elements[id.0]
    }

    /// Direct access to a relationship by typed index.
    pub fn relation(&self, id: RelationId) -> (r: &Relationship)
        requires
            id.0 < self.spec_relations().len(),
        ensures
            *r == self.spec_relations()[id.0 as int],
    {
        &self.relations[id.0]
    }

    /// Number of elements in the model graph (viewpoints are not counted).
    pub fn element_count(&self) -> (n: usize)
        ensures
            n == self.spec_elements().len(),
    {
        self.elements.len()
    }

    /// Number of relationships.
    pub fn relation_count(&self) -> (n: usize)
        ensures
            n == self.spec_relations().len(),
    {
        self.relations.len()
    }

    /// The elements, in arena order.
    pub fn elements_slice(&self) -> (s: &[Element])
        ensures
            s@ == self.spec_elements(),
    {
        self.elements.as_slice()
    }

    /// The relationships, in arena order.
    pub fn relations_slice(&self) -> (s: &[Relationship])
        ensures
            s@ == self.spec_relations(),
    {
        self.relations.as_slice()
    }

    /// Iterator over the elements, in arena order.
    pub fn iter_elements(&self) -> (it: std::slice::Iter<'_, Element>)
        ensures
            it.remaining().unref() == self.spec_elements(),
    {
        self.elements.as_slice().iter()
    }

    /// Iterator over the relationships, in arena order.
    pub fn iter_relations(&self) -> (it: std::slice::Iter<'_, Relationship>)
        ensures
            it.remaining().unref() == self.spec_relations(),
    {
        self.relations.as_slice().iter()
    }

    /// Viewpoint definitions attached to the model.
    pub fn viewpoints(&self) -> (v: &[ViewpointDefinition])
        ensures
            v@ == self.spec_viewpoints(),
    {
        self.viewpoints.as_slice()
    }

    /// Replaces the model's viewpoint definitions.
    pub fn set_viewpoints(&mut self, viewpoints: Vec<ViewpointDefinition>)
        ensures
            final(self).spec_viewpoints() == viewpoints@,
            final(self).spec_elements() == old(self).spec_elements(),
            final(self).spec_relations() == old(self).spec_relations(),
            final(self).spec_name() == old(self).spec_name(),
    {
        self.viewpoints = viewpoints;
    }
}

/// Two viewpoint definitions hold the same values.
pub open spec fn same_viewpoint(a: ViewpointDefinition, b: ViewpointDefinition) -> bool {
    &&& a.id@ == b.id@
    &&& a.name@ == b.name@
    &&& a.kind == b.kind
    &&& a.elements@ == b.elements@
    &&& a.relationships@ == b.relationships@
}

/// A copy of a list of strings.
fn copy_strings(v: &Vec<String>) -> (res: Vec<String>)
    ensures
        res@ == v@,
{
    let mut res: Vec<String> = Vec::new();
    let mut i: usize = 0;
    while i < v.len()
        invariant
            0 <= i <= v@.len(),
            res@ == v@.take(i as int),
        decreases v@.len() - i,
    {
        res.push(v[i].clone());
        assert(res@ =~= v@.take(i + 1));
        i += 1;
    }
    assert(v@.take(v@.len() as int) == v@);
    res
}

/// A copy of a viewpoint definition.
pub fn copy_viewpoint(v: &ViewpointDefinition) -> (res: ViewpointDefinition)
    ensures
        same_viewpoint(res, *v),
{
    ViewpointDefinition {
        id: v.id.clone(),
        name: v.name.clone(),
        kind: v.kind,
        elements: copy_strings(&v.elements),
        relationships: copy_strings(&v.relationships),
    }
}

impl Model {
    /// A copy of the model: the same name, elements, relationships and
    /// viewpoint definitions.
    pub fn duplicate(&self) -> (res: Model)
        ensures
            same_model(res, *self),
            self.wf() ==> res.wf(),
            self.endpoints_resolve() ==> res.endpoints_resolve(),
    {
        let mut elements: Vec<Element> = Vec::new();
        let mut i: usize = 0;
        while i < self.elements.len()
            invariant
                0 <= i <= self.elements@.len(),
                elements@.len() == i,
                forall|k: int| 0 <= k < i ==> {
                    &&& (#[trigger] elements@[k]).id == self.elements@[k].id
                    &&& elements@[k].original_id@ == self.elements@[k].original_id@
                    &&& elements@[k].name@ == self.elements@[k].name@
                    &&& elements@[k].kind == self.elements@[k].kind
                },
            decreases self.elements@.len() - i,
        {
            let e = &self.elements[i];
            elements.push(Element { id: e.id, original_id: e.original_id.clone(), name: e.name.clone(), kind: e.kind });
            i += 1;
        }
        let mut relations: Vec<Relationship> = Vec::new();
        let mut r: usize = 0;
        while r < self.relations.len()
            invariant
                0 <= r <= self.relations@.len(),
                relations@.len() == r,
                forall|k: int| 0 <= k < r ==> {
                    &&& (#[trigger] relations@[k]).id == self.relations@[k].id
                    &&& relations@[k].original_id@ == self.relations@[k].original_id@
                    &&& relations@[k].source == self.relations@[k].source
                    &&& relations@[k].target == self.relations@[k].target
                    &&& relations@[k].kind == self.relations@[k].kind
                },
            decreases self.relations@.len() - r,
        {
            let x = &self.relations[r];
            relations.push(Relationship {
                id: x.id,
                original_id: x.original_id.clone(),
                source: x.source,
                target: x.target,
                kind: x.kind,
            });
            r += 1;
        }
        let mut viewpoints: Vec<ViewpointDefinition> = Vec::new();
        let mut v: usize = 0;
        while v < self.viewpoints.len()
            invariant
                0 <= v <= self.viewpoints@.len(),
                viewpoints@.len() == v,
                forall|k: int| 0 <= k < v ==> same_viewpoint(#[trigger] viewpoints@[k], self.viewpoints@[k]),
            decreases self.viewpoints@.len() - v,
        {
            viewpoints.push(copy_viewpoint(&self.viewpoints[v]));
            v += 1;
        }
        Model { name: self.name.clone(), elements, relations, viewpoints }
    }
}

/// Two models hold the same values: name, elements and relationships in
/// arena order, and viewpoint definitions.
pub open spec fn same_model(a: Model, b: Model) -> bool {
    &&& a.spec_name() == b.spec_name()
    &&& a.spec_elements().len() == b.spec_elements().len()
    &&& forall|i: int| 0 <= i < a.spec_elements().len() ==> {
        &&& (#[trigger] a.spec_elements()[i]).id == b.spec_elements()[i].id
        &&& a.spec_elements()[i].original_id@ == b.spec_elements()[i].original_id@
        &&& a.spec_elements()[i].name@ == b.spec_elements()[i].name@
        &&& a.spec_elements()[i].kind == b.spec_elements()[i].kind
    }
    &&& a.spec_relations().len() == b.spec_relations().len()
    &&& forall|i: int| 0 <= i < a.spec_relations().len() ==> {
        &&& (#[trigger] a.spec_relations()[i]).id == b.spec_relations()[i].id
        &&& a.spec_relations()[i].original_id@ == b.spec_relations()[i].original_id@
        &&& a.spec_relations()[i].source == b.spec_relations()[i].source
        &&& a.spec_relations()[i].target == b.spec_relations()[i].target
        &&& a.spec_relations()[i].kind == b.spec_relations()[i].kind
    }
    &&& a.spec_viewpoints().len() == b.spec_viewpoints().len()
    &&& forall|i: int| 0 <= i < a.spec_viewpoints().len() ==> {
        &&& (#[trigger] a.spec_viewpoints()[i]).id@ == b.spec_viewpoints()[i].id@
        &&& a.spec_viewpoints()[i].name@ == b.spec_viewpoints()[i].name@
        &&& a.spec_viewpoints()[i].kind == b.spec_viewpoints()[i].kind
        &&& a.spec_viewpoints()[i].elements@ == b.spec_viewpoints()[i].elements@
        &&& a.spec_viewpoints()[i].relationships@ == b.spec_viewpoints()[i].relationships@
    }
}

impl std::ops::Index<ElementId> for Model {
    type Output = Element;

    /// The element at the given typed index.
    fn index(&self, id: ElementId) -> (e: &Element)
        ensures
            *e == self.spec_elements()[id.0 as int],
    {
        &self.elements[id.0]
    }
}

impl std::ops::Index<RelationId> for Model {
    type Output = Relationship;

    /// The relationship at the given typed index.
    fn index(&self, id: RelationId) -> (r: &Relationship)
        ensures
            *r == self.spec_relations()[id.0 as int],
    {
        &self.relations[id.0]
    }
}

impl vstd::std_specs::core::IndexSpecImpl<RelationId> for Model {
    /// Indexing is defined for the indices of the model's relationships.
    open spec fn index_req(&self, id: &RelationId) -> bool {
        id.0 < self.spec_relations().len()
    }
}

impl std::str::FromStr for ElementKind {
    type Err = String;

    /// Parses an element type name; see `ElementKind::parse_name`.
    fn from_str(s: &str) -> (res: Result<ElementKind, String>)
        ensures
            match ElementKind::spec_from_name(s@) {
                Some(k) => res == Ok::<ElementKind, String>(k),
                None => res matches Err(msg) && msg@ == "unknown element kind: "@ + s@,
            },
    {
        ElementKind::parse_name(s)
    }
}

impl std::str::FromStr for RelationKind {
    type Err = String;

    /// Parses a relationship type name; see `RelationKind::parse_name`.
    fn from_str(s: &str) -> (res: Result<RelationKind, String>)
        ensures
            match RelationKind::spec_from_name(s@) {
                Some(k) => res == Ok::<RelationKind, String>(k),
                None => res matches Err(msg) && msg@ == "unknown relation kind: "@ + s@,
            },
    {
        RelationKind::parse_name(s)
    }
}

impl vstd::std_specs::core::IndexSpecImpl<ElementId> for Model {
    /// Indexing is defined for the indices of the model's elements.
    open spec fn index_req(&self, id: &ElementId) -> bool {
        id.0 < self.spec_elements().len()
    }
}

} // verus!
