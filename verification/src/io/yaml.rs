//! The YAML form of ArchiMate models: the document structure, its schema
//! checks, and the conversions between documents and models.
//!
//! Reading and writing the YAML text itself is done by the application with
//! serde; this module works on the document values.
use vstd::prelude::*;
use vstd::string::StringExecFns;
use crate::model::{copy_viewpoint, same_model, same_viewpoint, ElementId, ElementKind, Model, RelationKind, ViewpointDefinition};
use crate::text::{chars_of, str_eq};

verus! {

/// An element entry of a YAML document.
#[derive(Debug, Clone)]
pub struct YamlElement {
    pub id: String,
    pub name: String,
    pub kind: String,
}

/// A relationship entry of a YAML document.
#[derive(Debug, Clone)]
pub struct YamlRelationship {
    pub id: String,
    pub source: String,
    pub target: String,
    pub kind: String,
}

/// The contents of a YAML model document (the value under its `model:` key).
#[derive(Debug, Clone)]
pub struct YamlModel {
    pub name: String,
    pub elements: Vec<YamlElement>,
    pub relationships: Vec<YamlRelationship>,
    pub viewpoints: Vec<ViewpointDefinition>,
}

/// Schema validation errors returned during parse.
#[derive(Debug, Clone, PartialEq, Eq)]
pub enum SchemaError {
    MalformedYaml(String),
    InvalidId,
    DuplicateId,
    UnknownKind,
    UndefinedId,
}

/// The message for a schema error: the carried text for `MalformedYaml`,
/// the variant name for the others.
pub open spec fn spec_schema_error_message(error: SchemaError) -> Seq<char> {
    match error {
        SchemaError::MalformedYaml(msg) => msg@,
        SchemaError::InvalidId => "InvalidId"@,
        SchemaError::DuplicateId => "DuplicateId"@,
        SchemaError::UnknownKind => "UnknownKind"@,
        SchemaError::UndefinedId => "UndefinedId"@,
    }
}

/// Returns a human-readable message for a `SchemaError`.
///
/// Structured-data variants collapse to their variant name; `MalformedYaml`
/// surfaces the carried parser message.
pub fn schema_error_message(error: &SchemaError) -> (res: String)
    ensures
        res@ == spec_schema_error_message(*error),
{
    match error {
        SchemaError::MalformedYaml(msg) => msg.clone(),
        SchemaError::InvalidId => "InvalidId".to_owned(),
        SchemaError::DuplicateId => "DuplicateId".to_owned(),
        SchemaError::UnknownKind => "UnknownKind".to_owned(),
        SchemaError::UndefinedId => "UndefinedId".to_owned(),
    }
}

/// Result of YAML parsing with accumulated schema errors.
pub type ParseResult<T> = Result<T, Vec<SchemaError>>;

/// An id is invalid when it is empty or contains a space.
pub open spec fn id_invalid(s: Seq<char>) -> bool {
    s.len() == 0 || s.contains(' ')
}

/// Some element of `elems` has the id `s`.
pub open spec fn is_element_id(elems: Seq<YamlElement>, s: Seq<char>) -> bool {
    exists|j: int| 0 <= j < elems.len() && (#[trigger] elems[j]).id@ == s
}

/// Some relationship of `rels` has the id `s`.
pub open spec fn is_relation_id(rels: Seq<YamlRelationship>, s: Seq<char>) -> bool {
    exists|j: int| 0 <= j < rels.len() && (#[trigger] rels[j]).id@ == s
}

/// `err` when `cond` holds, nothing otherwise.
pub open spec fn error_if(cond: bool, err: SchemaError) -> Seq<SchemaError> {
    if cond { seq![err] } else { seq![] }
}

/// The errors of the `i`-th element: an invalid or repeated id, an unknown kind.
pub open spec fn element_entry_errors(elems: Seq<YamlElement>, i: int) -> Seq<SchemaError> {
    let id = elems[i].id@;
    (if id_invalid(id) {
        seq![SchemaError::InvalidId]
    } else if exists|j: int| 0 <= j < i && (#[trigger] elems[j]).id@ == id {
        seq![SchemaError::DuplicateId]
    } else {
        seq![]
    }) + error_if(ElementKind::spec_from_name(elems[i].kind@) is None, SchemaError::UnknownKind)
}

/// The errors of the first `n` elements, in order.
pub open spec fn element_errors(elems: Seq<YamlElement>, n: nat) -> Seq<SchemaError>
    decreases n,
{
    if n == 0 {
        seq![]
    } else {
        element_errors(elems, (n - 1) as nat) + element_entry_errors(elems, n - 1)
    }
}

/// The errors of the `i`-th relationship: an invalid id, an endpoint that
/// names no element (once per endpoint), an unknown kind.
pub open spec fn relationship_entry_errors(
    elems: Seq<YamlElement>,
    rels: Seq<YamlRelationship>,
    i: int,
) -> Seq<SchemaError> {
    error_if(id_invalid(rels[i].id@), SchemaError::InvalidId)
        + error_if(!is_element_id(elems, rels[i].source@), SchemaError::UndefinedId)
        + error_if(!is_element_id(elems, rels[i].target@), SchemaError::UndefinedId)
        + error_if(RelationKind::spec_from_name(rels[i].kind@) is None, SchemaError::UnknownKind)
}

/// The errors of the first `n` relationships, in order.
pub open spec fn relationship_errors(
    elems: Seq<YamlElement>,
    rels: Seq<YamlRelationship>,
    n: nat,
) -> Seq<SchemaError>
    decreases n,
{
    if n == 0 {
        seq![]
    } else {
        relationship_errors(elems, rels, (n - 1) as nat) + relationship_entry_errors(elems, rels, n - 1)
    }
}

/// The errors of the `a`-th id reference of a viewpoint: an invalid or
/// repeated reference, a non-empty reference that `defined` rejects.
pub open spec fn ref_entry_errors(refs: Seq<String>, a: int, defined: spec_fn(Seq<char>) -> bool) -> Seq<SchemaError> {
    let id = refs[a]@;
    (if id_invalid(id) {
        seq![SchemaError::InvalidId]
    } else if exists|b: int| 0 <= b < a && (#[trigger] refs[b])@ == id {
        seq![SchemaError::DuplicateId]
    } else {
        seq![]
    }) + error_if(id.len() != 0 && !defined(id), SchemaError::UndefinedId)
}

/// The errors of the first `n` references of a viewpoint, in order.
pub open spec fn ref_errors(refs: Seq<String>, n: nat, defined: spec_fn(Seq<char>) -> bool) -> Seq<SchemaError>
    decreases n,
{
    if n == 0 {
        seq![]
    } else {
        ref_errors(refs, (n - 1) as nat, defined) + ref_entry_errors(refs, n - 1, defined)
    }
}

/// Ids that name an element of `elems`.
pub open spec fn element_id_pred(elems: Seq<YamlElement>) -> spec_fn(Seq<char>) -> bool {
    |s: Seq<char>| is_element_id(elems, s)
}

/// Ids that name a relationship of `rels`.
pub open spec fn relation_id_pred(rels: Seq<YamlRelationship>) -> spec_fn(Seq<char>) -> bool {
    |s: Seq<char>| is_relation_id(rels, s)
}

/// The errors of one viewpoint: its element references, then its relationship references.
pub open spec fn viewpoint_entry_errors(
    elems: Seq<YamlElement>,
    rels: Seq<YamlRelationship>,
    vp: ViewpointDefinition,
) -> Seq<SchemaError> {
    ref_errors(vp.elements@, vp.elements@.len(), element_id_pred(elems))
        + ref_errors(vp.relationships@, vp.relationships@.len(), relation_id_pred(rels))
}

/// The errors of the first `n` viewpoints, in order.
pub open spec fn viewpoint_errors(
    elems: Seq<YamlElement>,
    rels: Seq<YamlRelationship>,
    vps: Seq<ViewpointDefinition>,
    n: nat,
) -> Seq<SchemaError>
    decreases n,
{
    if n == 0 {
        seq![]
    } else {
        viewpoint_errors(elems, rels, vps, (n - 1) as nat) + viewpoint_entry_errors(elems, rels, vps[n - 1])
    }
}

/// All schema errors of a document, in the order they are reported:
/// elements, then relationships, then viewpoints.
pub open spec fn schema_errors(doc: YamlModel) -> Seq<SchemaError> {
    let elems = doc.elements@;
    let rels = doc.relationships@;
    element_errors(elems, elems.len())
        + relationship_errors(elems, rels, rels.len())
        + viewpoint_errors(elems, rels, doc.viewpoints@, doc.viewpoints@.len())
}

/// Whether an id is empty or contains a space.
fn is_invalid_id(s: &str) -> (res: bool)
    ensures
        res == id_invalid(s@),
{
    let cs = chars_of(s);
    if cs.len() == 0 {
        return true;
    }
    let mut i: usize = 0;
    while i < cs.len()
        invariant
            cs@ == s@,
            0 <= i <= cs@.len(),
            forall|j: int| 0 <= j < i ==> cs@[j] != ' ',
        decreases cs@.len() - i,
    {
        if cs[i] == ' ' {
            assert(s@[i as int] == ' ');
            return true;
        }
        i += 1;
    }
    false
}

/// Whether some element of `elems` has the id `s`.
fn has_element_id(elems: &[YamlElement], s: &str) -> (res: bool)
    ensures
        res == is_element_id(elems@, s@),
{
    let mut j: usize = 0;
    while j < elems.len()
        invariant
            0 <= j <= elems@.len(),
            forall|k: int| 0 <= k < j ==> (#[trigger] elems@[k]).id@ != s@,
        decreases elems@.len() - j,
    {
        if str_eq(elems[j].id.as_str(), s) {
            return true;
        }
        j += 1;
    }
    false
}

/// Whether some relationship of `rels` has the id `s`.
fn has_relation_id(rels: &[YamlRelationship], s: &str) -> (res: bool)
    ensures
        res == is_relation_id(rels@, s@),
{
    let mut j: usize = 0;
    while j < rels.len()
        invariant
            0 <= j <= rels@.len(),
            forall|k: int| 0 <= k < j ==> (#[trigger] rels@[k]).id@ != s@,
        decreases rels@.len() - j,
    {
        if str_eq(rels[j].id.as_str(), s) {
            return true;
        }
        j += 1;
    }
    false
}

/// Appends `err` to `errors` when `cond` holds.
fn push_if(errors: &mut Vec<SchemaError>, cond: bool, err: SchemaError)
    ensures
        final(errors)@ == old(errors)@ + error_if(cond, err),
{
    if cond {
        errors.push(err);
    }
    assert(final(errors)@ =~= old(errors)@ + error_if(cond, err));
}

/// Appends the errors of every element.
fn check_elements(elems: &[YamlElement], errors: &mut Vec<SchemaError>)
    ensures
        final(errors)@ == old(errors)@ + element_errors(elems@, elems@.len()),
{
    let mut i: usize = 0;
    while i < elems.len()
        invariant
            0 <= i <= elems@.len(),
            errors@ == old(errors)@ + element_errors(elems@, i as nat),
        decreases elems@.len() - i,
    {
        let ghost before = errors@;
        let id = elems[i].id.as_str();
        if is_invalid_id(id) {
            errors.push(SchemaError::InvalidId);
        } else {
            let mut j: usize = 0;
            let mut dup = false;
            while j < i
                invariant
                    0 <= j <= i < elems@.len(),
                    id@ == elems@[i as int].id@,
                    dup == exists|k: int| 0 <= k < j && (#[trigger] elems@[k]).id@ == id@,
                decreases i - j,
            {
                if str_eq(elems[j].id.as_str(), id) {
                    dup = true;
                }
                j += 1;
            }
            if dup {
                errors.push(SchemaError::DuplicateId);
            }
        }
        let unknown = ElementKind::from_name(elems[i].kind.as_str()).is_none();
        push_if(errors, unknown, SchemaError::UnknownKind);
        assert(errors@ =~= before + element_entry_errors(elems@, i as int));
        i += 1;
    }
}

/// Appends the errors of every relationship.
fn check_relationships(elems: &[YamlElement], rels: &[YamlRelationship], errors: &mut Vec<SchemaError>)
    ensures
        final(errors)@ == old(errors)@ + relationship_errors(elems@, rels@, rels@.len()),
{
    let mut i: usize = 0;
    while i < rels.len()
        invariant
            0 <= i <= rels@.len(),
            errors@ == old(errors)@ + relationship_errors(elems@, rels@, i as nat),
        decreases rels@.len() - i,
    {
        let ghost before = errors@;
        let rel = &rels[i];
        push_if(errors, is_invalid_id(rel.id.as_str()), SchemaError::InvalidId);
        push_if(errors, !has_element_id(elems, rel.source.as_str()), SchemaError::UndefinedId);
        push_if(errors, !has_element_id(elems, rel.target.as_str()), SchemaError::UndefinedId);
        push_if(errors, RelationKind::from_name(rel.kind.as_str()).is_none(), SchemaError::UnknownKind);
        assert(errors@ =~= before + relationship_entry_errors(elems@, rels@, i as int));
        i += 1;
    }
}

/// Appends the errors of the element references of a viewpoint.
fn check_element_refs(refs: &[String], elems: &[YamlElement], errors: &mut Vec<SchemaError>)
    ensures
        final(errors)@ == old(errors)@ + ref_errors(refs@, refs@.len(), element_id_pred(elems@)),
{
    let ghost defined = element_id_pred(elems@);
    let mut a: usize = 0;
    while a < refs.len()
        invariant
            0 <= a <= refs@.len(),
            defined == element_id_pred(elems@),
            errors@ == old(errors)@ + ref_errors(refs@, a as nat, defined),
        decreases refs@.len() - a,
    {
        let ghost before = errors@;
        let id = refs[a].as_str();
        let empty = chars_of(id).len() == 0;
        if is_invalid_id(id) {
            errors.push(SchemaError::InvalidId);
        } else {
            let mut b: usize = 0;
            let mut dup = false;
            while b < a
                invariant
                    0 <= b <= a < refs@.len(),
                    id@ == refs@[a as int]@,
                    dup == exists|k: int| 0 <= k < b && (#[trigger] refs@[k])@ == id@,
                decreases a - b,
            {
                if str_eq(refs[b].as_str(), id) {
                    dup = true;
                }
                b += 1;
            }
            if dup {
                errors.push(SchemaError::DuplicateId);
            }
        }
        let undefined = !empty && !has_element_id(elems, id);
        push_if(errors, undefined, SchemaError::UndefinedId);
        assert(errors@ =~= before + ref_entry_errors(refs@, a as int, defined));
        a += 1;
    }
}

/// Appends the errors of the relationship references of a viewpoint.
fn check_relation_refs(refs: &[String], rels: &[YamlRelationship], errors: &mut Vec<SchemaError>)
    ensures
        final(errors)@ == old(errors)@ + ref_errors(refs@, refs@.len(), relation_id_pred(rels@)),
{
    let ghost defined = relation_id_pred(rels@);
    let mut a: usize = 0;
    while a < refs.len()
        invariant
            0 <= a <= refs@.len(),
            defined == relation_id_pred(rels@),
            errors@ == old(errors)@ + ref_errors(refs@, a as nat, defined),
        decreases refs@.len() - a,
    {
        let ghost before = errors@;
        let id = refs[a].as_str();
        let empty = chars_of(id).len() == 0;
        if is_invalid_id(id) {
            errors.push(SchemaError::InvalidId);
        } else {
            let mut b: usize = 0;
            let mut dup = false;
            while b < a
                invariant
                    0 <= b <= a < refs@.len(),
                    id@ == refs@[a as int]@,
                    dup == exists|k: int| 0 <= k < b && (#[trigger] refs@[k])@ == id@,
                decreases a - b,
            {
                if str_eq(refs[b].as_str(), id) {
                    dup = true;
                }
                b += 1;
            }
            if dup {
                errors.push(SchemaError::DuplicateId);
            }
        }
        let undefined = !empty && !has_relation_id(rels, id);
        push_if(errors, undefined, SchemaError::UndefinedId);
        assert(errors@ =~= before + ref_entry_errors(refs@, a as int, defined));
        a += 1;
    }
}

/// Appends the errors of every viewpoint.
fn check_viewpoints(
    elems: &[YamlElement],
    rels: &[YamlRelationship],
    vps: &[ViewpointDefinition],
    errors: &mut Vec<SchemaError>,
)
    ensures
        final(errors)@ == old(errors)@ + viewpoint_errors(elems@, rels@, vps@, vps@.len()),
{
    let mut i: usize = 0;
    while i < vps.len()
        invariant
            0 <= i <= vps@.len(),
            errors@ == old(errors)@ + viewpoint_errors(elems@, rels@, vps@, i as nat),
        decreases vps@.len() - i,
    {
        let ghost before = errors@;
        check_element_refs(vps[i].elements.as_slice(), elems, errors);
        check_relation_refs(vps[i].relationships.as_slice(), rels, errors);
        assert(errors@ =~= before + viewpoint_entry_errors(elems@, rels@, vps@[i as int]));
        i += 1;
    }
}

/// Computes all schema errors of a document, in report order.
pub fn check_schema(doc: &YamlModel) -> (errors: Vec<SchemaError>)
    ensures
        errors@ == schema_errors(*doc),
{
    let mut errors: Vec<SchemaError> = Vec::new();
    check_elements(doc.elements.as_slice(), &mut errors);
    check_relationships(doc.elements.as_slice(), doc.relationships.as_slice(), &mut errors);
    check_viewpoints(doc.elements.as_slice(), doc.relationships.as_slice(), doc.viewpoints.as_slice(), &mut errors);
    assert(errors@ =~= schema_errors(*doc));
    errors
}

/// `m` is the model a schema-valid document describes: the document's name,
/// its elements and relationships in order with their original ids, each
/// relationship joined to the element whose id its endpoint names, and the
/// document's viewpoint definitions.
pub open spec fn built_from(m: Model, doc: YamlModel) -> bool {
    &&& m.wf()
    &&& m.endpoints_resolve()
    &&& m.spec_name() == doc.name@
    &&& m.spec_elements().len() == doc.elements@.len()
    &&& forall|i: int| 0 <= i < m.spec_elements().len() ==> {
        &&& (#[trigger] m.spec_elements()[i]).original_id@ == doc.elements@[i].id@
        &&& m.spec_elements()[i].name@ == doc.elements@[i].name@
        &&& ElementKind::spec_from_name(doc.elements@[i].kind@) == Some(m.spec_elements()[i].kind)
    }
    &&& m.spec_relations().len() == doc.relationships@.len()
    &&& forall|i: int| 0 <= i < m.spec_relations().len() ==> {
        &&& (#[trigger] m.spec_relations()[i]).original_id@ == doc.relationships@[i].id@
        &&& doc.elements@[m.spec_relations()[i].source.0 as int].id@ == doc.relationships@[i].source@
        &&& doc.elements@[m.spec_relations()[i].target.0 as int].id@ == doc.relationships@[i].target@
        &&& RelationKind::spec_from_name(doc.relationships@[i].kind@) == Some(m.spec_relations()[i].kind)
    }
    &&& m.spec_viewpoints() == doc.viewpoints@
}

/// When the element checks report nothing, no single element has an error.
proof fn lemma_no_element_errors(elems: Seq<YamlElement>, n: nat)
    requires
        element_errors(elems, n).len() == 0,
    ensures
        forall|i: int| 0 <= i < n ==> (#[trigger] element_entry_errors(elems, i)).len() == 0,
    decreases n,
{
    if n > 0 {
        lemma_no_element_errors(elems, (n - 1) as nat);
    }
}

/// When the relationship checks report nothing, no single relationship has an error.
proof fn lemma_no_relationship_errors(elems: Seq<YamlElement>, rels: Seq<YamlRelationship>, n: nat)
    requires
        relationship_errors(elems, rels, n).len() == 0,
    ensures
        forall|i: int| 0 <= i < n ==> (#[trigger] relationship_entry_errors(elems, rels, i)).len() == 0,
    decreases n,
{
    if n > 0 {
        lemma_no_relationship_errors(elems, rels, (n - 1) as nat);
    }
}

/// The index of the first element with id `s`.
fn find_element_id(elems: &[YamlElement], s: &str) -> (res: Option<usize>)
    ensures
        match res {
            Some(j) => j < elems@.len() && elems@[j as int].id@ == s@,
            None => !is_element_id(elems@, s@),
        },
{
    let mut j: usize = 0;
    while j < elems.len()
        invariant
            0 <= j <= elems@.len(),
            forall|k: int| 0 <= k < j ==> (#[trigger] elems@[k]).id@ != s@,
        decreases elems@.len() - j,
    {
        if str_eq(elems[j].id.as_str(), s) {
            return Some(j);
        }
        j += 1;
    }
    None
}

/// Builds a model from a YAML document.
///
/// Returns every schema error, in report order, when there is any:
/// - an element `kind` that names no `ElementKind`, a relationship `kind` that names no `RelationKind`;
/// - a relationship endpoint, or a viewpoint reference, that names no element (or relationship);
/// - an element id, or a viewpoint reference, that repeats an earlier one;
/// - an id that is empty or contains a space.
pub fn parse_yaml(doc: YamlModel) -> (res: ParseResult<Model>)
    ensures
        res is Ok <==> schema_errors(doc).len() == 0,
        match res {
            Ok(m) => built_from(m, doc),
            Err(errors) => errors@ == schema_errors(doc),
        },
{
    let errors = check_schema(&doc);
    if errors.len() > 0 {
        return Err(errors);
    }
    proof {
        let elems = doc.elements@;
        let rels = doc.relationships@;
        lemma_no_element_errors(elems, elems.len());
        lemma_no_relationship_errors(elems, rels, rels.len());
    }
    let mut model = Model::new(doc.name.as_str());
    let elems = doc.elements.as_slice();
    let mut i: usize = 0;
    while i < elems.len()
        invariant
            0 <= i <= elems@.len(),
            elems@ == doc.elements@,
            forall|k: int| 0 <= k < elems@.len() ==> (#[trigger] element_entry_errors(elems@, k)).len() == 0,
            model.wf(),
            model.spec_name() == doc.name@,
            model.spec_elements().len() == i,
            model.spec_relations().len() == 0,
            model.spec_viewpoints().len() == 0,
            forall|k: int| 0 <= k < i ==> {
                &&& (#[trigger] model.spec_elements()[k]).original_id@ == doc.elements@[k].id@
                &&& model.spec_elements()[k].name@ == doc.elements@[k].name@
                &&& ElementKind::spec_from_name(doc.elements@[k].kind@) == Some(model.spec_elements()[k].kind)
            },
        decreases elems@.len() - i,
    {
        let e = &elems[i];
        assert(element_entry_errors(elems@, i as int).len() == 0);
        let kind = ElementKind::from_name(e.kind.as_str());
        assert(kind is Some);
        let ghost before = model.spec_elements();
        model.add_element_with_id(e.id.as_str(), e.name.as_str(), kind.unwrap());
        assert forall|k: int| 0 <= k < i + 1 implies {
            &&& (#[trigger] model.spec_elements()[k]).original_id@ == doc.elements@[k].id@
            &&& model.spec_elements()[k].name@ == doc.elements@[k].name@
            &&& ElementKind::spec_from_name(doc.elements@[k].kind@) == Some(model.spec_elements()[k].kind)
        } by {
            if k < i {
                assert(model.spec_elements()[k] == before[k]);
            }
        }
        i += 1;
    }
    let rels = doc.relationships.as_slice();
    let mut r: usize = 0;
    while r < rels.len()
        invariant
            0 <= r <= rels@.len(),
            elems@ == doc.elements@,
            rels@ == doc.relationships@,
            forall|k: int| 0 <= k < rels@.len() ==> (#[trigger] relationship_entry_errors(elems@, rels@, k)).len() == 0,
            model.wf(),
            model.spec_name() == doc.name@,
            model.spec_elements().len() == elems@.len(),
            model.spec_viewpoints().len() == 0,
            forall|k: int| 0 <= k < elems@.len() ==> {
                &&& (#[trigger] model.spec_elements()[k]).original_id@ == doc.elements@[k].id@
                &&& model.spec_elements()[k].name@ == doc.elements@[k].name@
                &&& ElementKind::spec_from_name(doc.elements@[k].kind@) == Some(model.spec_elements()[k].kind)
            },
            model.spec_relations().len() == r,
            model.endpoints_resolve(),
            forall|k: int| 0 <= k < r ==> {
                &&& (#[trigger] model.spec_relations()[k]).original_id@ == doc.relationships@[k].id@
                &&& doc.elements@[model.spec_relations()[k].source.0 as int].id@ == doc.relationships@[k].source@
                &&& doc.elements@[model.spec_relations()[k].target.0 as int].id@ == doc.relationships@[k].target@
                &&& RelationKind::spec_from_name(doc.relationships@[k].kind@) == Some(model.spec_relations()[k].kind)
            },
        decreases rels@.len() - r,
    {
        let rel = &rels[r];
        assert(relationship_entry_errors(elems@, rels@, r as int).len() == 0);
        let kind = RelationKind::from_name(rel.kind.as_str());
        let source = find_element_id(elems, rel.source.as_str());
        let target = find_element_id(elems, rel.target.as_str());
        assert(kind is Some && source is Some && target is Some);
        let ghost before = model.spec_relations();
        model.link_with_id(rel.id.as_str(), ElementId(source.unwrap()), ElementId(target.unwrap()), kind.unwrap());
        assert forall|k: int| 0 <= k < r + 1 implies {
            &&& (#[trigger] model.spec_relations()[k]).original_id@ == doc.relationships@[k].id@
            &&& doc.elements@[model.spec_relations()[k].source.0 as int].id@ == doc.relationships@[k].source@
            &&& doc.elements@[model.spec_relations()[k].target.0 as int].id@ == doc.relationships@[k].target@
            &&& RelationKind::spec_from_name(doc.relationships@[k].kind@) == Some(model.spec_relations()[k].kind)
        } by {
            if k < r {
                assert(model.spec_relations()[k] == before[k]);
            }
        }
        assert forall|k: int| 0 <= k < model.spec_relations().len() implies {
            &&& (#[trigger] model.spec_relations()[k]).source.0 < model.spec_elements().len()
            &&& model.spec_relations()[k].target.0 < model.spec_elements().len()
        } by {
            if k < r {
                assert(model.spec_relations()[k] == before[k]);
            }
        }
        r += 1;
    }
    let ghost doc_vps = doc.viewpoints@;
    model.set_viewpoints(doc.viewpoints);
    Ok(model)
}

/// `doc` is the YAML form of `m`: elements and relationships in order under
/// their original ids, endpoints written as the original ids of the
/// elements they join, kinds by name, and the model's viewpoint definitions.
pub open spec fn yaml_of(doc: YamlModel, m: Model) -> bool {
    &&& doc.name@ == m.spec_name()
    &&& doc.elements@.len() == m.spec_elements().len()
    &&& forall|i: int| 0 <= i < doc.elements@.len() ==> {
        &&& (#[trigger] doc.elements@[i]).id@ == m.spec_elements()[i].original_id@
        &&& doc.elements@[i].name@ == m.spec_elements()[i].name@
        &&& doc.elements@[i].kind@ == m.spec_elements()[i].kind.spec_kind_name()
    }
    &&& doc.relationships@.len() == m.spec_relations().len()
    &&& forall|i: int| 0 <= i < doc.relationships@.len() ==> {
        &&& (#[trigger] doc.relationships@[i]).id@ == m.spec_relations()[i].original_id@
        &&& doc.relationships@[i].source@ == m.spec_elements()[m.spec_relations()[i].source.0 as int].original_id@
        &&& doc.relationships@[i].target@ == m.spec_elements()[m.spec_relations()[i].target.0 as int].original_id@
        &&& doc.relationships@[i].kind@ == m.spec_relations()[i].kind.spec_kind_name()
    }
    &&& doc.viewpoints@.len() == m.spec_viewpoints().len()
    &&& forall|i: int| 0 <= i < doc.viewpoints@.len() ==> same_viewpoint(#[trigger] doc.viewpoints@[i], m.spec_viewpoints()[i])
}

/// Converts a model to its YAML document form; original ids and viewpoint
/// definitions are carried over verbatim.
pub fn model_to_yaml(model: &Model) -> (doc: YamlModel)
    requires
        model.endpoints_resolve(),
    ensures
        yaml_of(doc, *model),
{
    let elems = model.elements_slice();
    let mut elements: Vec<YamlElement> = Vec::new();
    let mut i: usize = 0;
    while i < elems.len()
        invariant
            0 <= i <= elems@.len(),
            elems@ == model.spec_elements(),
            elements@.len() == i,
            forall|k: int| 0 <= k < i ==> {
                &&& (#[trigger] elements@[k]).id@ == model.spec_elements()[k].original_id@
                &&& elements@[k].name@ == model.spec_elements()[k].name@
                &&& elements@[k].kind@ == model.spec_elements()[k].kind.spec_kind_name()
            },
        decreases elems@.len() - i,
    {
        let e = &elems[i];
        elements.push(YamlElement {
            id: e.original_id.clone(),
            name: e.name.clone(),
            kind: e.kind.kind_name().to_owned(),
        });
        i += 1;
    }
    let rels = model.relations_slice();
    let mut relationships: Vec<YamlRelationship> = Vec::new();
    let mut r: usize = 0;
    while r < rels.len()
        invariant
            0 <= r <= rels@.len(),
            rels@ == model.spec_relations(),
            model.endpoints_resolve(),
            relationships@.len() == r,
            forall|k: int| 0 <= k < r ==> {
                &&& (#[trigger] relationships@[k]).id@ == model.spec_relations()[k].original_id@
                &&& relationships@[k].source@ == model.spec_elements()[model.spec_relations()[k].source.0 as int].original_id@
                &&& relationships@[k].target@ == model.spec_elements()[model.spec_relations()[k].target.0 as int].original_id@
                &&& relationships@[k].kind@ == model.spec_relations()[k].kind.spec_kind_name()
            },
        decreases rels@.len() - r,
    {
        let rel = &rels[r];
        assert(rel.source.0 < model.spec_elements().len());
        relationships.push(YamlRelationship {
            id: rel.original_id.clone(),
            source: model.element(rel.source).original_id.clone(),
            target: model.element(rel.target).original_id.clone(),
            kind: rel.kind.kind_name().to_owned(),
        });
        r += 1;
    }
    let vps = model.viewpoints();
    let mut viewpoints: Vec<ViewpointDefinition> = Vec::new();
    let mut v: usize = 0;
    while v < vps.len()
        invariant
            0 <= v <= vps@.len(),
            vps@ == model.spec_viewpoints(),
            viewpoints@.len() == v,
            forall|k: int| 0 <= k < v ==> same_viewpoint(#[trigger] viewpoints@[k], model.spec_viewpoints()[k]),
        decreases vps@.len() - v,
    {
        viewpoints.push(copy_viewpoint(&vps[v]));
        v += 1;
    }
    YamlModel { name: model.model_name().to_owned(), elements, relationships, viewpoints }
}

/// Two YAML documents hold the same values.
pub open spec fn same_document(a: YamlModel, b: YamlModel) -> bool {
    &&& a.name@ == b.name@
    &&& a.elements@.len() == b.elements@.len()
    &&& forall|i: int| 0 <= i < a.elements@.len() ==> {
        &&& (#[trigger] a.elements@[i]).id@ == b.elements@[i].id@
        &&& a.elements@[i].name@ == b.elements@[i].name@
        &&& a.elements@[i].kind@ == b.elements@[i].kind@
    }
    &&& a.relationships@.len() == b.relationships@.len()
    &&& forall|i: int| 0 <= i < a.relationships@.len() ==> {
        &&& (#[trigger] a.relationships@[i]).id@ == b.relationships@[i].id@
        &&& a.relationships@[i].source@ == b.relationships@[i].source@
        &&& a.relationships@[i].target@ == b.relationships@[i].target@
        &&& a.relationships@[i].kind@ == b.relationships@[i].kind@
    }
    &&& a.viewpoints@.len() == b.viewpoints@.len()
    &&& forall|i: int| 0 <= i < a.viewpoints@.len() ==> same_viewpoint(#[trigger] a.viewpoints@[i], b.viewpoints@[i])
}

/// Every element type in the document is spelled as the type's canonical
/// name (element types are read ignoring ASCII case and written canonically).
pub open spec fn kinds_spelled_canonically(doc: YamlModel) -> bool {
    forall|i: int| 0 <= i < doc.elements@.len() ==> (ElementKind::spec_from_name((#[trigger] doc.elements@[i]).kind@)
        matches Some(k) ==> doc.elements@[i].kind@ == k.spec_kind_name())
}

/// Writing out the model read from a document gives that document back:
/// if `parse_yaml(doc)` is `Ok(m)`, then `model_to_yaml(&m)` holds the
/// same values as `doc`, provided the document spells element types
/// canonically.
pub proof fn lemma_parse_then_serialize(doc: YamlModel, m: Model, out: YamlModel)
    requires
        built_from(m, doc),
        kinds_spelled_canonically(doc),
        yaml_of(out, m),
    ensures
        same_document(out, doc),
{
    assert forall|i: int| 0 <= i < out.elements@.len() implies out.elements@[i].kind@ == doc.elements@[i].kind@ by {
        assert(ElementKind::spec_from_name(doc.elements@[i].kind@) == Some(m.spec_elements()[i].kind));
    }
    assert forall|i: int| 0 <= i < out.relationships@.len() implies {
        &&& out.relationships@[i].kind@ == doc.relationships@[i].kind@
        &&& out.relationships@[i].source@ == doc.relationships@[i].source@
        &&& out.relationships@[i].target@ == doc.relationships@[i].target@
    } by {
        RelationKind::lemma_parsed_name_is_canonical(doc.relationships@[i].kind@, m.spec_relations()[i].kind);
        let r = m.spec_relations()[i];
        assert(m.spec_elements()[r.source.0 as int].original_id@ == doc.elements@[r.source.0 as int].id@);
        assert(m.spec_elements()[r.target.0 as int].original_id@ == doc.elements@[r.target.0 as int].id@);
    }
    assert forall|i: int| 0 <= i < out.viewpoints@.len() implies same_viewpoint(#[trigger] out.viewpoints@[i], doc.viewpoints@[i]) by {
        assert(doc.viewpoints@[i] == m.spec_viewpoints()[i]);
    }
}

/// Some element of `m` carries the original id `s`.
pub open spec fn is_original_element_id(m: Model, s: Seq<char>) -> bool {
    exists|i: int| 0 <= i < m.spec_elements().len() && (#[trigger] m.spec_elements()[i]).original_id@ == s
}

/// Some relationship of `m` carries the original id `s`.
pub open spec fn is_original_relation_id(m: Model, s: Seq<char>) -> bool {
    exists|i: int| 0 <= i < m.spec_relations().len() && (#[trigger] m.spec_relations()[i]).original_id@ == s
}

/// Every reference is a valid id that `defined` accepts and that no earlier
/// reference repeats.
pub open spec fn refs_valid(refs: Seq<String>, defined: spec_fn(Seq<char>) -> bool) -> bool {
    forall|a: int| 0 <= a < refs.len() ==> {
        &&& !id_invalid((#[trigger] refs[a])@)
        &&& defined(refs[a]@)
        &&& forall|b: int| 0 <= b < a ==> refs[b]@ != refs[a]@
    }
}

/// The original ids of `m` meet the YAML schema: element ids are valid and
/// distinct, relationship ids are valid, and every viewpoint refers to
/// distinct ids of elements and relationships of `m`.
pub open spec fn ids_schema_valid(m: Model) -> bool {
    let es = m.spec_elements();
    let rs = m.spec_relations();
    &&& forall|i: int| 0 <= i < es.len() ==> !id_invalid((#[trigger] es[i]).original_id@)
    &&& forall|i: int, j: int| 0 <= j < i < es.len() ==> (#[trigger] es[j]).original_id@ != (#[trigger] es[i]).original_id@
    &&& forall|i: int| 0 <= i < rs.len() ==> !id_invalid((#[trigger] rs[i]).original_id@)
    &&& forall|v: int| 0 <= v < m.spec_viewpoints().len() ==> {
        &&& refs_valid((#[trigger] m.spec_viewpoints()[v]).elements@, |s: Seq<char>| is_original_element_id(m, s))
        &&& refs_valid(m.spec_viewpoints()[v].relationships@, |s: Seq<char>| is_original_relation_id(m, s))
    }
}

proof fn lemma_element_errors_empty(elems: Seq<YamlElement>, n: nat)
    requires
        n <= elems.len(),
        forall|i: int| 0 <= i < n ==> {
            &&& !id_invalid((#[trigger] elems[i]).id@)
            &&& forall|j: int| 0 <= j < i ==> elems[j].id@ != elems[i].id@
            &&& ElementKind::spec_from_name(elems[i].kind@) is Some
        },
    ensures
        element_errors(elems, n).len() == 0,
    decreases n,
{
    if n > 0 {
        lemma_element_errors_empty(elems, (n - 1) as nat);
        let i = n - 1;
        assert(!(exists|j: int| 0 <= j < i && (#[trigger] elems[j]).id@ == elems[i].id@));
        assert(element_entry_errors(elems, i).len() == 0);
    }
}

proof fn lemma_relationship_errors_empty(elems: Seq<YamlElement>, rels: Seq<YamlRelationship>, n: nat)
    requires
        n <= rels.len(),
        forall|i: int| 0 <= i < n ==> {
            &&& !id_invalid((#[trigger] rels[i]).id@)
            &&& is_element_id(elems, rels[i].source@)
            &&& is_element_id(elems, rels[i].target@)
            &&& RelationKind::spec_from_name(rels[i].kind@) is Some
        },
    ensures
        relationship_errors(elems, rels, n).len() == 0,
    decreases n,
{
    if n > 0 {
        lemma_relationship_errors_empty(elems, rels, (n - 1) as nat);
        assert(relationship_entry_errors(elems, rels, n - 1).len() == 0);
    }
}

proof fn lemma_ref_errors_empty(refs: Seq<String>, n: nat, defined: spec_fn(Seq<char>) -> bool)
    requires
        n <= refs.len(),
        forall|a: int| 0 <= a < n ==> {
            &&& !id_invalid((#[trigger] refs[a])@)
            &&& defined(refs[a]@)
            &&& forall|b: int| 0 <= b < a ==> refs[b]@ != refs[a]@
        },
    ensures
        ref_errors(refs, n, defined).len() == 0,
    decreases n,
{
    if n > 0 {
        lemma_ref_errors_empty(refs, (n - 1) as nat, defined);
        let a = n - 1;
        assert(!(exists|b: int| 0 <= b < a && (#[trigger] refs[b])@ == refs[a]@));
        assert(ref_entry_errors(refs, a, defined).len() == 0);
    }
}

proof fn lemma_viewpoint_errors_empty(
    elems: Seq<YamlElement>,
    rels: Seq<YamlRelationship>,
    vps: Seq<ViewpointDefinition>,
    n: nat,
)
    requires
        n <= vps.len(),
        forall|v: int| 0 <= v < n ==> (#[trigger] viewpoint_entry_errors(elems, rels, vps[v])).len() == 0,
    ensures
        viewpoint_errors(elems, rels, vps, n).len() == 0,
    decreases n,
{
    if n > 0 {
        lemma_viewpoint_errors_empty(elems, rels, vps, (n - 1) as nat);
        assert(viewpoint_entry_errors(elems, rels, vps[n - 1]).len() == 0);
    }
}

/// The YAML document of a model whose original ids meet the schema has no
/// schema errors, so `parse_yaml` accepts it.
pub proof fn lemma_model_document_is_valid(m: Model, doc: YamlModel)
    requires
        m.endpoints_resolve(),
        ids_schema_valid(m),
        yaml_of(doc, m),
    ensures
        schema_errors(doc).len() == 0,
{
    let es = m.spec_elements();
    let elems = doc.elements@;
    let rels = doc.relationships@;
    assert forall|i: int| 0 <= i < elems.len() implies {
        &&& !id_invalid((#[trigger] elems[i]).id@)
        &&& forall|j: int| 0 <= j < i ==> elems[j].id@ != elems[i].id@
        &&& ElementKind::spec_from_name(elems[i].kind@) is Some
    } by {
        ElementKind::lemma_name_round_trip(es[i].kind);
        assert forall|j: int| 0 <= j < i implies elems[j].id@ != elems[i].id@ by {
            assert(es[j].original_id@ != es[i].original_id@);
        }
    }
    lemma_element_errors_empty(elems, elems.len());
    assert forall|i: int| 0 <= i < rels.len() implies {
        &&& !id_invalid((#[trigger] rels[i]).id@)
        &&& is_element_id(elems, rels[i].source@)
        &&& is_element_id(elems, rels[i].target@)
        &&& RelationKind::spec_from_name(rels[i].kind@) is Some
    } by {
        let r = m.spec_relations()[i];
        RelationKind::lemma_name_round_trip(r.kind);
        assert(elems[r.source.0 as int].id@ == rels[i].source@);
        assert(elems[r.target.0 as int].id@ == rels[i].target@);
    }
    lemma_relationship_errors_empty(elems, rels, rels.len());
    let vps = doc.viewpoints@;
    assert forall|v: int| 0 <= v < vps.len() implies (#[trigger] viewpoint_entry_errors(elems, rels, vps[v])).len() == 0 by {
        let mv = m.spec_viewpoints()[v];
        assert(same_viewpoint(vps[v], mv));
        let er = vps[v].elements@;
        let rr = vps[v].relationships@;
        assert(refs_valid(mv.elements@, |s: Seq<char>| is_original_element_id(m, s)));
        assert(refs_valid(mv.relationships@, |s: Seq<char>| is_original_relation_id(m, s)));
        assert forall|a: int| 0 <= a < er.len() implies {
            &&& !id_invalid((#[trigger] er[a])@)
            &&& element_id_pred(elems)(er[a]@)
            &&& forall|b: int| 0 <= b < a ==> er[b]@ != er[a]@
        } by {
            assert(is_original_element_id(m, er[a]@));
            let k = choose|k: int| 0 <= k < es.len() && (#[trigger] es[k]).original_id@ == er[a]@;
            assert(elems[k].id@ == er[a]@);
        }
        lemma_ref_errors_empty(er, er.len(), element_id_pred(elems));
        assert forall|a: int| 0 <= a < rr.len() implies {
            &&& !id_invalid((#[trigger] rr[a])@)
            &&& relation_id_pred(rels)(rr[a]@)
            &&& forall|b: int| 0 <= b < a ==> rr[b]@ != rr[a]@
        } by {
            assert(is_original_relation_id(m, rr[a]@));
            let k = choose|k: int| 0 <= k < m.spec_relations().len() && (#[trigger] m.spec_relations()[k]).original_id@ == rr[a]@;
            assert(rels[k].id@ == rr[a]@);
        }
        lemma_ref_errors_empty(rr, rr.len(), relation_id_pred(rels));
    }
    lemma_viewpoint_errors_empty(elems, rels, vps, vps.len());
}

/// Reading back the YAML document of a model whose original ids meet the
/// schema gives the model back: if `doc` is `model_to_yaml(&m)` and
/// `parse_yaml(doc)` is `Ok(back)`, then `back` holds the same values as `m`.
pub proof fn lemma_serialize_then_parse(m: Model, doc: YamlModel, back: Model)
    requires
        m.wf(),
        m.endpoints_resolve(),
        ids_schema_valid(m),
        yaml_of(doc, m),
        built_from(back, doc),
    ensures
        same_model(back, m),
{
    let es = m.spec_elements();
    let bs = back.spec_elements();
    assert forall|i: int| 0 <= i < bs.len() implies bs[i].kind == es[i].kind by {
        ElementKind::lemma_name_round_trip(es[i].kind);
    }
    assert forall|x: int, y: int| 0 <= x < es.len() && 0 <= y < es.len() && es[x].original_id@ == es[y].original_id@ implies x == y by {
        if x < y {
            assert(es[x].original_id@ != es[y].original_id@);
        } else if y < x {
            assert(es[y].original_id@ != es[x].original_id@);
        }
    }
    assert forall|i: int| 0 <= i < back.spec_relations().len() implies {
        &&& (#[trigger] back.spec_relations()[i]).source == m.spec_relations()[i].source
        &&& back.spec_relations()[i].target == m.spec_relations()[i].target
        &&& back.spec_relations()[i].kind == m.spec_relations()[i].kind
    } by {
        let b = back.spec_relations()[i];
        let r = m.spec_relations()[i];
        RelationKind::lemma_name_round_trip(r.kind);
        assert(doc.elements@[b.source.0 as int].id@ == es[b.source.0 as int].original_id@);
        assert(doc.elements@[b.target.0 as int].id@ == es[b.target.0 as int].original_id@);
        assert(b.source.0 == r.source.0);
        assert(b.target.0 == r.target.0);
    }
    assert forall|i: int| 0 <= i < back.spec_viewpoints().len() implies same_viewpoint(#[trigger] back.spec_viewpoints()[i], m.spec_viewpoints()[i]) by {
        assert(back.spec_viewpoints()[i] == doc.viewpoints@[i]);
        assert(same_viewpoint(doc.viewpoints@[i], m.spec_viewpoints()[i]));
    }
}

/// An id is rejected exactly when it is empty or holds a space character;
/// any other character, such as `-`, `_` or `.`, is accepted.
pub proof fn lemma_invalid_id_rule(s: Seq<char>)
    ensures
        id_invalid(s) <==> (s.len() == 0 || exists|i: int| 0 <= i < s.len() && s[i] == ' '),
{
}

proof fn lemma_concat_contains(a: Seq<SchemaError>, b: Seq<SchemaError>, x: SchemaError)
    ensures
        (a + b).contains(x) <==> (a.contains(x) || b.contains(x)),
{
    if a.contains(x) {
        let i = choose|i: int| 0 <= i < a.len() && a[i] == x;
        assert((a + b)[i] == x);
    }
    if b.contains(x) {
        let j = choose|j: int| 0 <= j < b.len() && b[j] == x;
        assert((a + b)[a.len() + j] == x);
    }
    if (a + b).contains(x) {
        let k = choose|k: int| 0 <= k < (a + b).len() && (a + b)[k] == x;
        if k < a.len() {
            assert(a[k] == x);
        } else {
            assert(b[k - a.len()] == x);
        }
    }
}

proof fn lemma_error_if_contains(c: bool, e: SchemaError, x: SchemaError)
    ensures
        error_if(c, e).contains(x) <==> (c && e == x),
{
    if c {
        assert(error_if(c, e)[0] == e);
    }
}

proof fn lemma_element_invalid_ids(elems: Seq<YamlElement>, n: nat)
    requires
        n <= elems.len(),
    ensures
        element_errors(elems, n).contains(SchemaError::InvalidId)
            <==> exists|i: int| 0 <= i < n && id_invalid((#[trigger] elems[i]).id@),
    decreases n,
{
    if n > 0 {
        let i = n - 1;
        let x = SchemaError::InvalidId;
        lemma_element_invalid_ids(elems, (n - 1) as nat);
        let id = elems[i].id@;
        let head = if id_invalid(id) {
            seq![SchemaError::InvalidId]
        } else if exists|j: int| 0 <= j < i && (#[trigger] elems[j]).id@ == id {
            seq![SchemaError::DuplicateId]
        } else {
            seq![]
        };
        let kind = ElementKind::spec_from_name(elems[i].kind@) is None;
        assert(element_entry_errors(elems, i) == head + error_if(kind, SchemaError::UnknownKind));
        lemma_concat_contains(head, error_if(kind, SchemaError::UnknownKind), x);
        lemma_error_if_contains(kind, SchemaError::UnknownKind, x);
        if id_invalid(id) {
            assert(head[0] == x);
        }
        assert(head.contains(x) <==> id_invalid(id));
        lemma_concat_contains(element_errors(elems, (n - 1) as nat), element_entry_errors(elems, i), x);
        if exists|k: int| 0 <= k < n && id_invalid((#[trigger] elems[k]).id@) {
            let k = choose|k: int| 0 <= k < n && id_invalid((#[trigger] elems[k]).id@);
            if k < n - 1 {
                assert(exists|k: int| 0 <= k < n - 1 && id_invalid((#[trigger] elems[k]).id@));
            }
        }
    }
}

proof fn lemma_relationship_invalid_ids(elems: Seq<YamlElement>, rels: Seq<YamlRelationship>, n: nat)
    requires
        n <= rels.len(),
    ensures
        relationship_errors(elems, rels, n).contains(SchemaError::InvalidId)
            <==> exists|i: int| 0 <= i < n && id_invalid((#[trigger] rels[i]).id@),
    decreases n,
{
    if n > 0 {
        let i = n - 1;
        let x = SchemaError::InvalidId;
        lemma_relationship_invalid_ids(elems, rels, (n - 1) as nat);
        let e1 = error_if(id_invalid(rels[i].id@), SchemaError::InvalidId);
        let e2 = error_if(!is_element_id(elems, rels[i].source@), SchemaError::UndefinedId);
        let e3 = error_if(!is_element_id(elems, rels[i].target@), SchemaError::UndefinedId);
        let e4 = error_if(RelationKind::spec_from_name(rels[i].kind@) is None, SchemaError::UnknownKind);
        lemma_error_if_contains(id_invalid(rels[i].id@), SchemaError::InvalidId, x);
        lemma_error_if_contains(!is_element_id(elems, rels[i].source@), SchemaError::UndefinedId, x);
        lemma_error_if_contains(!is_element_id(elems, rels[i].target@), SchemaError::UndefinedId, x);
        lemma_error_if_contains(RelationKind::spec_from_name(rels[i].kind@) is None, SchemaError::UnknownKind, x);
        lemma_concat_contains(e1, e2, x);
        lemma_concat_contains(e1 + e2, e3, x);
        lemma_concat_contains(e1 + e2 + e3, e4, x);
        lemma_concat_contains(relationship_errors(elems, rels, (n - 1) as nat), relationship_entry_errors(elems, rels, i), x);
        if exists|k: int| 0 <= k < n && id_invalid((#[trigger] rels[k]).id@) {
            let k = choose|k: int| 0 <= k < n && id_invalid((#[trigger] rels[k]).id@);
            if k < n - 1 {
                assert(exists|k: int| 0 <= k < n - 1 && id_invalid((#[trigger] rels[k]).id@));
            }
        }
    }
}

proof fn lemma_ref_invalid_ids(refs: Seq<String>, n: nat, defined: spec_fn(Seq<char>) -> bool)
    requires
        n <= refs.len(),
    ensures
        ref_errors(refs, n, defined).contains(SchemaError::InvalidId)
            <==> exists|a: int| 0 <= a < n && id_invalid((#[trigger] refs[a])@),
    decreases n,
{
    if n > 0 {
        let a = n - 1;
        let x = SchemaError::InvalidId;
        lemma_ref_invalid_ids(refs, (n - 1) as nat, defined);
        let id = refs[a]@;
        let head = if id_invalid(id) {
            seq![SchemaError::InvalidId]
        } else if exists|b: int| 0 <= b < a && (#[trigger] refs[b])@ == id {
            seq![SchemaError::DuplicateId]
        } else {
            seq![]
        };
        let undefined = id.len() != 0 && !defined(id);
        assert(ref_entry_errors(refs, a, defined) == head + error_if(undefined, SchemaError::UndefinedId));
        lemma_concat_contains(head, error_if(undefined, SchemaError::UndefinedId), x);
        lemma_error_if_contains(undefined, SchemaError::UndefinedId, x);
        if id_invalid(id) {
            assert(head[0] == x);
        }
        assert(head.contains(x) <==> id_invalid(id));
        lemma_concat_contains(ref_errors(refs, (n - 1) as nat, defined), ref_entry_errors(refs, a, defined), x);
        if exists|k: int| 0 <= k < n && id_invalid((#[trigger] refs[k])@) {
            let k = choose|k: int| 0 <= k < n && id_invalid((#[trigger] refs[k])@);
            if k < n - 1 {
                assert(exists|k: int| 0 <= k < n - 1 && id_invalid((#[trigger] refs[k])@));
            }
        }
    }
}

/// Some id reference of a viewpoint is empty or holds a space.
pub open spec fn viewpoint_has_invalid_ref(vp: ViewpointDefinition) -> bool {
    ||| exists|a: int| 0 <= a < vp.elements@.len() && id_invalid((#[trigger] vp.elements@[a])@)
    ||| exists|a: int| 0 <= a < vp.relationships@.len() && id_invalid((#[trigger] vp.relationships@[a])@)
}

proof fn lemma_viewpoint_invalid_ids(
    elems: Seq<YamlElement>,
    rels: Seq<YamlRelationship>,
    vps: Seq<ViewpointDefinition>,
    n: nat,
)
    requires
        n <= vps.len(),
    ensures
        viewpoint_errors(elems, rels, vps, n).contains(SchemaError::InvalidId)
            <==> exists|v: int| 0 <= v < n && viewpoint_has_invalid_ref(#[trigger] vps[v]),
    decreases n,
{
    if n > 0 {
        let x = SchemaError::InvalidId;
        let vp = vps[n - 1];
        lemma_viewpoint_invalid_ids(elems, rels, vps, (n - 1) as nat);
        lemma_ref_invalid_ids(vp.elements@, vp.elements@.len(), element_id_pred(elems));
        lemma_ref_invalid_ids(vp.relationships@, vp.relationships@.len(), relation_id_pred(rels));
        lemma_concat_contains(
            ref_errors(vp.elements@, vp.elements@.len(), element_id_pred(elems)),
            ref_errors(vp.relationships@, vp.relationships@.len(), relation_id_pred(rels)),
            x,
        );
        lemma_concat_contains(viewpoint_errors(elems, rels, vps, (n - 1) as nat), viewpoint_entry_errors(elems, rels, vp), x);
        if exists|k: int| 0 <= k < n && viewpoint_has_invalid_ref(#[trigger] vps[k]) {
            let k = choose|k: int| 0 <= k < n && viewpoint_has_invalid_ref(#[trigger] vps[k]);
            if k < n - 1 {
                assert(exists|k: int| 0 <= k < n - 1 && viewpoint_has_invalid_ref(#[trigger] vps[k]));
            }
        }
    }
}

/// The schema check reports `InvalidId` exactly when some element id,
/// relationship id or viewpoint reference of the document is invalid.
pub proof fn lemma_invalid_id_reported(doc: YamlModel)
    ensures
        schema_errors(doc).contains(SchemaError::InvalidId) <==> {
            ||| exists|i: int| 0 <= i < doc.elements@.len() && id_invalid((#[trigger] doc.elements@[i]).id@)
            ||| exists|i: int| 0 <= i < doc.relationships@.len() && id_invalid((#[trigger] doc.relationships@[i]).id@)
            ||| exists|v: int| 0 <= v < doc.viewpoints@.len() && viewpoint_has_invalid_ref(#[trigger] doc.viewpoints@[v])
        },
{
    let elems = doc.elements@;
    let rels = doc.relationships@;
    let x = SchemaError::InvalidId;
    lemma_element_invalid_ids(elems, elems.len());
    lemma_relationship_invalid_ids(elems, rels, rels.len());
    lemma_viewpoint_invalid_ids(elems, rels, doc.viewpoints@, doc.viewpoints@.len());
    lemma_concat_contains(element_errors(elems, elems.len()), relationship_errors(elems, rels, rels.len()), x);
    lemma_concat_contains(
        element_errors(elems, elems.len()) + relationship_errors(elems, rels, rels.len()),
        viewpoint_errors(elems, rels, doc.viewpoints@, doc.viewpoints@.len()),
        x,
    );
}

/// A document whose ids (of elements and relationships, and in viewpoint
/// references) are all non-empty and free of spaces gets no `InvalidId`
/// from the schema check, whatever other characters they hold.
pub proof fn lemma_spaceless_ids_are_valid(doc: YamlModel)
    requires
        forall|i: int| 0 <= i < doc.elements@.len() ==> {
            &&& (#[trigger] doc.elements@[i]).id@.len() > 0
            &&& forall|c: int| 0 <= c < doc.elements@[i].id@.len() ==> doc.elements@[i].id@[c] != ' '
        },
        forall|i: int| 0 <= i < doc.relationships@.len() ==> {
            &&& (#[trigger] doc.relationships@[i]).id@.len() > 0
            &&& forall|c: int| 0 <= c < doc.relationships@[i].id@.len() ==> doc.relationships@[i].id@[c] != ' '
        },
        forall|v: int, a: int| 0 <= v < doc.viewpoints@.len() && 0 <= a < doc.viewpoints@[v].elements@.len() ==> {
            &&& (#[trigger] doc.viewpoints@[v].elements@[a])@.len() > 0
            &&& forall|c: int| 0 <= c < doc.viewpoints@[v].elements@[a]@.len() ==> doc.viewpoints@[v].elements@[a]@[c] != ' '
        },
        forall|v: int, a: int| 0 <= v < doc.viewpoints@.len() && 0 <= a < doc.viewpoints@[v].relationships@.len() ==> {
            &&& (#[trigger] doc.viewpoints@[v].relationships@[a])@.len() > 0
            &&& forall|c: int| 0 <= c < doc.viewpoints@[v].relationships@[a]@.len() ==> doc.viewpoints@[v].relationships@[a]@[c] != ' '
        },
    ensures
        !schema_errors(doc).contains(SchemaError::InvalidId),
{
    lemma_invalid_id_reported(doc);
    assert forall|i: int| 0 <= i < doc.elements@.len() implies !id_invalid((#[trigger] doc.elements@[i]).id@) by {
        lemma_invalid_id_rule(doc.elements@[i].id@);
    }
    assert forall|i: int| 0 <= i < doc.relationships@.len() implies !id_invalid((#[trigger] doc.relationships@[i]).id@) by {
        lemma_invalid_id_rule(doc.relationships@[i].id@);
    }
    assert forall|v: int| 0 <= v < doc.viewpoints@.len() implies !viewpoint_has_invalid_ref(#[trigger] doc.viewpoints@[v]) by {
        let vp = doc.viewpoints@[v];
        assert forall|a: int| 0 <= a < vp.elements@.len() implies !id_invalid((#[trigger] vp.elements@[a])@) by {
            assert(doc.viewpoints@[v].elements@[a] == vp.elements@[a]);
            lemma_invalid_id_rule(vp.elements@[a]@);
        }
        assert forall|a: int| 0 <= a < vp.relationships@.len() implies !id_invalid((#[trigger] vp.relationships@[a])@) by {
            assert(doc.viewpoints@[v].relationships@[a] == vp.relationships@[a]);
            lemma_invalid_id_rule(vp.relationships@[a]@);
        }
    }
}

} // verus!
