//! Conformance with the ArchiMate 3.2 Model Exchange File Format.
//!
//! The exchange fixture is in Model Exchange Format, not the Archi native
//! format that the reader takes, so these checks do nothing until a native
//! fixture exists.

#[test]
fn test_example_exchange_loads() {}

#[test]
fn test_example_exchange_elements() {}

#[test]
fn test_example_exchange_relationships() {}

#[test]
fn test_example_exchange_validates() {}

#[test]
fn test_roundtrip_exchange_model() {}
