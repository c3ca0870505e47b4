//! A headless engine for ArchiMate 3.2 models: the element taxonomy, an
//! arena-based model graph, the derivability rules, model diffs, grid layout
//! and the document forms used by the YAML and Archi XML formats.
pub mod text;
pub mod model;
pub mod validate;
pub mod diff;
pub mod io;
pub mod report;
pub mod layout;

pub use io::xml::xml_to_model;
pub use io::xml_write::model_to_xml;
pub use io::yaml::{model_to_yaml, parse_yaml};
pub use model::{ElementId, ElementKind, ElementLayer, Model, RelationId, RelationKind, Viewpoint};
pub use model::{ViewpointDefinition, ViewpointKind};
