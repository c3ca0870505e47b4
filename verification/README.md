# archr_core

A headless engine for ArchiMate 3.2 models, written in Verus: the element
taxonomy, an arena-based model graph, the derivability rules, model diffs,
grid layout, and the document forms of the YAML and Archi native XML formats.
Every function in `src/` carries a contract. Verus proves all of them except
four small trusted wrappers around std and uuid calls (string equality,
`String::push`, `Debug` formatting of an optional string, `Uuid::new_v4`),
whose contracts restate what those functions document.

## Layout

- `src/text.rs` — string helpers: decimal rendering, lexicographic order, XML escaping.
- `src/model.rs` — element layers and kinds, relationship kinds, viewpoints, the `Model` arena.
- `src/validate.rs` — the derivability matrix and model validation.
- `src/diff.rs` — comparing two models by element name.
- `src/layout.rs` — grid positions by connected component and longest chain.
- `src/report.rs` — the error report for YAML documents that fail the schema.
- `src/io/yaml.rs` — YAML documents: schema checks, reading into and writing from models.
- `src/io/yaml_viewpoint.rs` — element kinds allowed per viewpoint.
- `src/io/xml.rs` — Archi XML documents: reading into models.
- `src/io/xml_write.rs` — rendering models as Archi XML text.
- `app/main.rs` — the `archr` command line: files, serde and quick-xml text
  handling, JSON output.
- `tests/` — behaviour tests on concrete values.
