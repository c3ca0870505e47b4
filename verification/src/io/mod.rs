pub mod yaml_viewpoint;
pub mod yaml;
pub mod xml;
pub mod xml_write;
