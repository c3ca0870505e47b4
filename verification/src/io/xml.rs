//! The Archi native XML (`.archimate`) form of ArchiMate models.
//!
//! The document structure mirrors the XML: folders holding `<element>`s
//! (elements, relationships and diagram views), diagrams holding nested
//! `<child>` objects with their `<sourceConnection>`s. Turning XML text into a
//! document is done by the application; this module interprets documents
//! and renders models as XML text.
use vstd::prelude::*;
use vstd::string::StringExecFns;
use crate::model::{Element, ElementId, ElementKind, Model, RelationKind, ViewpointDefinition, ViewpointKind};
use crate::text::{ascii_lower, chars_of, has_prefix, has_suffix, str_eq};
use vstd::string::StrSliceExecFns;

verus! {

/// Error type for XML serialization and deserialization.
#[derive(Debug, Clone)]
pub enum XmlError {
    Serialize(String),
    Parse(String),
}

/// The root `<archimate:model>` element.
#[derive(Debug)]
pub struct XmlModel {
    pub name: String,
    pub folders: Vec<XmlFolder>,
}

/// A `<folder>`, which may contain elements directly or via nested subfolders.
#[derive(Debug)]
pub struct XmlFolder {
    pub elements: Vec<XmlElement>,
    pub subfolders: Vec<XmlFolder>,
}

/// An `<element>` inside a folder: a model element, a relationship or a
/// diagram view, told apart by its `xsi:type`.
#[derive(Debug)]
pub struct XmlElement {
    pub xsi_type: String,
    pub name: String,
    pub id: String,
    pub source: Option<String>,
    pub target: Option<String>,
    /// Diagram views only: the Archi viewpoint the diagram is drawn against.
    pub viewpoint: Option<String>,
    /// Diagram views only: the diagram objects placed on the view.
    pub children: Vec<XmlChild>,
}

/// A `<child>` diagram object; containers nest further children.
#[derive(Debug)]
pub struct XmlChild {
    pub archimate_element: Option<String>,
    pub connections: Vec<XmlConnection>,
    pub children: Vec<XmlChild>,
}

/// A `<sourceConnection>` inside a diagram object.
#[derive(Debug, Clone)]
pub struct XmlConnection {
    pub archimate_relationship: Option<String>,
}

/// All `<element>`s of a folder tree, depth first: a folder's own elements,
/// then those of its subfolders in order.
pub open spec fn folder_elements(f: XmlFolder) -> Seq<XmlElement>
    decreases f, 1nat,
{
    f.elements@ + folders_elements(f.subfolders@, f.subfolders@.len())
}

/// All `<element>`s of the first `n` folders of `fs`, in order.
pub open spec fn folders_elements(fs: Seq<XmlFolder>, n: nat) -> Seq<XmlElement>
    decreases fs, n,
{
    if n == 0 || n > fs.len() {
        seq![]
    } else {
        folders_elements(fs, (n - 1) as nat) + folder_elements(fs[n - 1])
    }
}

/// The values a sequence of references points to.
pub open spec fn derefs(s: Seq<&XmlElement>) -> Seq<XmlElement> {
    s.map_values(|e: &XmlElement| *e)
}

/// Appends the `<element>`s of a folder tree, depth first.
fn collect_folder<'a>(f: &'a XmlFolder, acc: &mut Vec<&'a XmlElement>)
    ensures
        derefs(final(acc)@) == derefs(old(acc)@) + folder_elements(*f),
    decreases *f, 1nat,
{
    let mut i: usize = 0;
    while i < f.elements.len()
        invariant
            0 <= i <= f.elements@.len(),
            derefs(acc@) == derefs(old(acc)@) + f.elements@.take(i as int),
        decreases f.elements@.len() - i,
    {
        let ghost before = acc@;
        acc.push(&f.elements[i]);
        assert(derefs(acc@) =~= derefs(before).push(f.elements@[i as int]));
        assert(f.elements@.take(i + 1) =~= f.elements@.take(i as int).push(f.elements@[i as int]));
        i += 1;
    }
    assert(f.elements@.take(f.elements@.len() as int) == f.elements@);
    collect_elements(&f.subfolders, f.subfolders.len(), acc);
    assert(derefs(acc@) =~= derefs(old(acc)@) + folder_elements(*f));
}

/// Appends the `<element>`s of the first `n` folders of `fs`, in order.
fn collect_elements<'a>(fs: &'a Vec<XmlFolder>, n: usize, acc: &mut Vec<&'a XmlElement>)
    requires
        n <= fs@.len(),
    ensures
        derefs(final(acc)@) == derefs(old(acc)@) + folders_elements(fs@, n as nat),
    decreases fs@, n,
{
    if n == 0 {
        assert(derefs(acc@) =~= derefs(old(acc)@) + folders_elements(fs@, n as nat));
        return;
    }
    collect_elements(fs, n - 1, acc);
    collect_folder(&fs[n - 1], acc);
    assert(derefs(acc@) =~= derefs(old(acc)@) + folders_elements(fs@, n as nat));
}

/// An `xsi:type` without its `archimate:` namespace prefix.
pub open spec fn local_type(t: Seq<char>) -> Seq<char> {
    let p = "archimate:"@;
    if p.len() <= t.len() && t.take(p.len() as int) == p {
        t.skip(p.len() as int)
    } else {
        t
    }
}

/// A type name ending in `Relationship`.
pub open spec fn is_relationship_type(t: Seq<char>) -> bool {
    let p = "Relationship"@;
    p.len() <= t.len() && t.skip(t.len() - p.len()) == p
}

/// The relation kind part of a relationship type name.
pub open spec fn relation_kind_text(t: Seq<char>) -> Seq<char> {
    if is_relationship_type(t) {
        t.take(t.len() - "Relationship"@.len())
    } else {
        t
    }
}

/// An `<element>` that is a model element: not a relationship, and of a known element type.
pub open spec fn is_element_entry(e: XmlElement) -> bool {
    &&& !is_relationship_type(local_type(e.xsi_type@))
    &&& ElementKind::spec_from_name(local_type(e.xsi_type@)) is Some
}

/// An `<element>` that is a relationship.
pub open spec fn is_relationship_entry(e: XmlElement) -> bool {
    is_relationship_type(local_type(e.xsi_type@))
}

/// An `<element>` that is a diagram drawn against a viewpoint.
pub open spec fn is_viewpoint_diagram(e: XmlElement) -> bool {
    local_type(e.xsi_type@) == "ArchimateDiagramModel"@ && e.viewpoint is Some
}

/// Selects model elements.
pub open spec fn element_entry_pred() -> spec_fn(XmlElement) -> bool {
    |e: XmlElement| is_element_entry(e)
}

/// Selects relationships.
pub open spec fn relationship_entry_pred() -> spec_fn(XmlElement) -> bool {
    |e: XmlElement| is_relationship_entry(e)
}

/// Selects viewpoint diagrams.
pub open spec fn viewpoint_diagram_pred() -> spec_fn(XmlElement) -> bool {
    |e: XmlElement| is_viewpoint_diagram(e)
}

/// The ids of a sequence of `<element>`s.
pub open spec fn entry_ids(es: Seq<XmlElement>) -> Seq<Seq<char>> {
    es.map_values(|e: XmlElement| e.id@)
}

/// The position of the last occurrence of `s` in `ids`.
pub open spec fn last_index_of(ids: Seq<Seq<char>>, s: Seq<char>) -> Option<int>
    decreases ids.len(),
{
    if ids.len() == 0 {
        None
    } else if ids.last() == s {
        Some(ids.len() - 1)
    } else {
        last_index_of(ids.drop_last(), s)
    }
}

/// The view of an optional string.
pub open spec fn opt_text(o: Option<String>) -> Option<Seq<char>> {
    match o {
        Some(s) => Some(s@),
        None => None,
    }
}

/// The element an endpoint attribute names: the last element with that id.
pub open spec fn endpoint_index(ids: Seq<Seq<char>>, o: Option<String>) -> Option<int> {
    match o {
        Some(s) => last_index_of(ids, s@),
        None => None,
    }
}

/// The text std's `Debug` formatting gives an optional string, e.g. `Some("a")` or `None`.
pub uninterp spec fn option_debug_text(o: Option<Seq<char>>) -> Seq<char>;

/// Formats an optional string with std's `Debug` formatting (`{:?}`).
///
/// Calls `<Option<String> as Debug>::fmt` through `format!`; the text is named
/// by `option_debug_text` and is a function of the value alone. `None` prints
/// as `None`; what the text of `Some(..)` holds (quotes, escapes) is not
/// stated here.
#[verifier::external_body]
fn debug_option(o: &Option<String>) -> (res: String)
    ensures
        res@ == option_debug_text(opt_text(*o)),
        *o is None ==> res@ == "None"@,
{
    format!("{:?}", o)
}

/// How a relationship `<element>` resolves against the element ids: its kind
/// and endpoint positions, or the message of the first thing that fails.
pub open spec fn relation_outcome(ids: Seq<Seq<char>>, e: XmlElement) -> Result<(RelationKind, int, int), Seq<char>> {
    let kind_text = relation_kind_text(local_type(e.xsi_type@));
    match RelationKind::spec_from_name(kind_text) {
        None => Err("Unknown relation kind: "@ + kind_text),
        Some(k) => match endpoint_index(ids, e.source) {
            None => Err("Unknown source element: "@ + option_debug_text(opt_text(e.source))),
            Some(si) => match endpoint_index(ids, e.target) {
                None => Err("Unknown target element: "@ + option_debug_text(opt_text(e.target))),
                Some(ti) => Ok((k, si, ti)),
            },
        },
    }
}

/// The message of the first of the first `n` relationships that fails to resolve.
pub open spec fn first_failure(ids: Seq<Seq<char>>, rels: Seq<XmlElement>, n: nat) -> Option<Seq<char>>
    decreases n,
{
    if n == 0 || n > rels.len() {
        None
    } else {
        match first_failure(ids, rels, (n - 1) as nat) {
            Some(m) => Some(m),
            None => match relation_outcome(ids, rels[n - 1]) {
                Err(m) => Some(m),
                Ok(_) => None,
            },
        }
    }
}

/// Strips the `archimate:` namespace prefix from a type string.
fn strip_archimate_prefix(s: &str) -> (res: &str)
    ensures
        res@ == local_type(s@),
{
    proof {
        reveal_strlit("archimate:");
    }
    if has_prefix(s, "archimate:") {
        let n = s.unicode_len();
        s.substring_char(10, n)
    } else {
        s
    }
}

/// The relation kind part of a relationship type name.
fn relation_kind_part(t: &str) -> (res: &str)
    ensures
        res@ == relation_kind_text(t@),
{
    proof {
        reveal_strlit("Relationship");
    }
    if has_suffix(t, "Relationship") {
        let n: usize = t.unicode_len();
        t.substring_char(0, n - 12)
    } else {
        t
    }
}

/// The original ids of a sequence of model elements.
pub open spec fn model_ids(es: Seq<Element>) -> Seq<Seq<char>> {
    es.map_values(|e: Element| e.original_id@)
}

/// The position of the last element with original id `s`.
pub(crate) fn last_element_index(elems: &[Element], s: &str) -> (res: Option<usize>)
    ensures
        match res {
            Some(j) => last_index_of(model_ids(elems@), s@) == Some(j as int),
            None => last_index_of(model_ids(elems@), s@) is None,
        },
{
    let ghost ids = model_ids(elems@);
    let mut i: usize = elems.len();
    assert(ids.take(i as int) == ids);
    while i > 0
        invariant
            i <= elems@.len(),
            ids == model_ids(elems@),
            last_index_of(ids, s@) == last_index_of(ids.take(i as int), s@),
        decreases i,
    {
        assert(ids.take(i as int).drop_last() == ids.take(i - 1));
        if str_eq(elems[i - 1].original_id.as_str(), s) {
            return Some(i - 1);
        }
        i -= 1;
    }
    None
}

/// The element an endpoint attribute names.
fn resolve_endpoint(elems: &[Element], o: &Option<String>) -> (res: Option<usize>)
    ensures
        match res {
            Some(j) => endpoint_index(model_ids(elems@), *o) == Some(j as int),
            None => endpoint_index(model_ids(elems@), *o) is None,
        },
{
    match o {
        Some(s) => last_element_index(elems, s.as_str()),
        None => None,
    }
}

/// Resolves a relationship `<element>` against the elements read so far.
fn resolve_relation(elems: &[Element], e: &XmlElement) -> (res: Result<(RelationKind, usize, usize), String>)
    ensures
        match res {
            Ok((k, si, ti)) => relation_outcome(model_ids(elems@), *e) == Ok::<(RelationKind, int, int), Seq<char>>((k, si as int, ti as int)),
            Err(m) => relation_outcome(model_ids(elems@), *e) == Err::<(RelationKind, int, int), Seq<char>>(m@),
        },
{
    let kind_text = relation_kind_part(strip_archimate_prefix(e.xsi_type.as_str()));
    let kind = match RelationKind::from_name(kind_text) {
        Some(k) => k,
        None => {
            let mut msg = "Unknown relation kind: ".to_owned();
            msg.append(kind_text);
            return Err(msg);
        },
    };
    let source = match resolve_endpoint(elems, &e.source) {
        Some(j) => j,
        None => {
            let mut msg = "Unknown source element: ".to_owned();
            msg.append(debug_option(&e.source).as_str());
            return Err(msg);
        },
    };
    let target = match resolve_endpoint(elems, &e.target) {
        Some(j) => j,
        None => {
            let mut msg = "Unknown target element: ".to_owned();
            msg.append(debug_option(&e.target).as_str());
            return Err(msg);
        },
    };
    Ok((kind, source, target))
}

/// The views of a sequence of strings.
pub open spec fn texts(v: Seq<String>) -> Seq<Seq<char>> {
    v.map_values(|s: String| s@)
}

/// The views of a sequence with one more string.
proof fn lemma_texts_push(v: Seq<String>, x: String)
    ensures
        texts(v.push(x)) == texts(v).push(x@),
{
    assert(texts(v.push(x)) =~= texts(v).push(x@));
}

/// The id an optional reference attribute holds, if any.
pub open spec fn opt_ref(o: Option<String>) -> Seq<Seq<char>> {
    match o {
        Some(s) => seq![s@],
        None => seq![],
    }
}

/// The relationship ids referenced by the first `n` connections, in order.
pub open spec fn connection_refs(cs: Seq<XmlConnection>, n: nat) -> Seq<Seq<char>>
    decreases n,
{
    if n == 0 || n > cs.len() {
        seq![]
    } else {
        connection_refs(cs, (n - 1) as nat) + opt_ref(cs[n - 1].archimate_relationship)
    }
}

/// The element ids a diagram object and its nested objects reference, in document order.
pub open spec fn child_element_refs(c: XmlChild) -> Seq<Seq<char>>
    decreases c, 1nat,
{
    opt_ref(c.archimate_element) + children_element_refs(c.children@, c.children@.len())
}

/// The element ids the first `n` diagram objects of `cs` reference, in document order.
pub open spec fn children_element_refs(cs: Seq<XmlChild>, n: nat) -> Seq<Seq<char>>
    decreases cs, n,
{
    if n == 0 || n > cs.len() {
        seq![]
    } else {
        children_element_refs(cs, (n - 1) as nat) + child_element_refs(cs[n - 1])
    }
}

/// The relationship ids a diagram object's connections, and those of its
/// nested objects, reference, in document order.
pub open spec fn child_relation_refs(c: XmlChild) -> Seq<Seq<char>>
    decreases c, 1nat,
{
    connection_refs(c.connections@, c.connections@.len()) + children_relation_refs(c.children@, c.children@.len())
}

/// The relationship ids the first `n` diagram objects of `cs` reference, in document order.
pub open spec fn children_relation_refs(cs: Seq<XmlChild>, n: nat) -> Seq<Seq<char>>
    decreases cs, n,
{
    if n == 0 || n > cs.len() {
        seq![]
    } else {
        children_relation_refs(cs, (n - 1) as nat) + child_relation_refs(cs[n - 1])
    }
}

/// Appends the references of a diagram object and its nested objects.
fn collect_child_refs(c: &XmlChild, elements: &mut Vec<String>, relationships: &mut Vec<String>)
    ensures
        texts(final(elements)@) == texts(old(elements)@) + child_element_refs(*c),
        texts(final(relationships)@) == texts(old(relationships)@) + child_relation_refs(*c),
    decreases *c, 1nat,
{
    match &c.archimate_element {
        Some(e) => {
            elements.push(e.clone());
        },
        None => {},
    }
    assert(texts(elements@) =~= texts(old(elements)@) + opt_ref(c.archimate_element));
    let mut k: usize = 0;
    while k < c.connections.len()
        invariant
            0 <= k <= c.connections@.len(),
            texts(relationships@) == texts(old(relationships)@) + connection_refs(c.connections@, k as nat),
        decreases c.connections@.len() - k,
    {
        let ghost before = relationships@;
        match &c.connections[k].archimate_relationship {
            Some(r) => {
                relationships.push(r.clone());
            },
            None => {},
        }
        assert(texts(relationships@) =~= texts(before) + opt_ref(c.connections@[k as int].archimate_relationship));
        assert(texts(relationships@) =~= texts(old(relationships)@) + connection_refs(c.connections@, (k + 1) as nat));
        k += 1;
    }
    let ghost mid_e = elements@;
    let ghost mid_r = relationships@;
    collect_view_refs(&c.children, c.children.len(), elements, relationships);
    assert(texts(elements@) =~= texts(old(elements)@) + child_element_refs(*c));
    assert(texts(relationships@) =~= texts(old(relationships)@) + child_relation_refs(*c));
}

/// Appends the references of the first `n` diagram objects of `cs`.
fn collect_view_refs(cs: &Vec<XmlChild>, n: usize, elements: &mut Vec<String>, relationships: &mut Vec<String>)
    requires
        n <= cs@.len(),
    ensures
        texts(final(elements)@) == texts(old(elements)@) + children_element_refs(cs@, n as nat),
        texts(final(relationships)@) == texts(old(relationships)@) + children_relation_refs(cs@, n as nat),
    decreases cs@, n,
{
    if n == 0 {
        assert(texts(elements@) =~= texts(old(elements)@) + children_element_refs(cs@, n as nat));
        assert(texts(relationships@) =~= texts(old(relationships)@) + children_relation_refs(cs@, n as nat));
        return;
    }
    collect_view_refs(cs, n - 1, elements, relationships);
    collect_child_refs(&cs[n - 1], elements, relationships);
    assert(texts(elements@) =~= texts(old(elements)@) + children_element_refs(cs@, n as nat));
    assert(texts(relationships@) =~= texts(old(relationships)@) + children_relation_refs(cs@, n as nat));
}

/// The references of `ids` that `known` holds, each kept at its first occurrence.
pub open spec fn first_known(ids: Seq<Seq<char>>, known: Seq<Seq<char>>, n: nat) -> Seq<Seq<char>>
    decreases n,
{
    if n == 0 || n > ids.len() {
        seq![]
    } else {
        let prev = first_known(ids, known, (n - 1) as nat);
        if known.contains(ids[n - 1]) && !prev.contains(ids[n - 1]) {
            prev.push(ids[n - 1])
        } else {
            prev
        }
    }
}

/// Whether some string of `v` has the characters `s`.
fn contains_text(v: &Vec<String>, s: &str) -> (res: bool)
    ensures
        res == texts(v@).contains(s@),
{
    let mut i: usize = 0;
    while i < v.len()
        invariant
            0 <= i <= v@.len(),
            forall|j: int| 0 <= j < i ==> (#[trigger] v@[j])@ != s@,
        decreases v@.len() - i,
    {
        if str_eq(v[i].as_str(), s) {
            assert(texts(v@)[i as int] == s@);
            return true;
        }
        i += 1;
    }
    assert forall|j: int| 0 <= j < texts(v@).len() implies texts(v@)[j] != s@ by {
        assert(texts(v@)[j] == v@[j]@);
    }
    false
}

/// Keeps the references that `known` holds, each at its first occurrence.
fn retain_known_first(refs: &Vec<String>, known: &Vec<String>) -> (res: Vec<String>)
    ensures
        texts(res@) == first_known(texts(refs@), texts(known@), refs@.len()),
{
    let mut res: Vec<String> = Vec::new();
    let mut i: usize = 0;
    while i < refs.len()
        invariant
            0 <= i <= refs@.len(),
            texts(res@) == first_known(texts(refs@), texts(known@), i as nat),
        decreases refs@.len() - i,
    {
        let r = refs[i].as_str();
        assert(texts(refs@)[i as int] == r@);
        if contains_text(known, r) && !contains_text(&res, r) {
            res.push(refs[i].clone());
            assert(texts(res@) =~= first_known(texts(refs@), texts(known@), (i + 1) as nat));
        }
        i += 1;
    }
    res
}

/// The viewpoint kind a diagram's `viewpoint` attribute names; `Unspecified` for unknown names.
pub open spec fn viewpoint_kind_of(s: Seq<char>) -> ViewpointKind {
    match ViewpointKind::spec_from_viewpoint_name(s) {
        Some(k) => k,
        None => ViewpointKind::Unspecified,
    }
}

/// `vd` is the viewpoint definition read from diagram `e`, given the ids of
/// the model's elements and relationships: the diagram's id, name and
/// viewpoint kind, and the element and relationship references of its
/// objects that name something in the model, first occurrences only.
pub open spec fn viewpoint_from(vd: ViewpointDefinition, e: XmlElement, eids: Seq<Seq<char>>, rids: Seq<Seq<char>>) -> bool {
    let erefs = children_element_refs(e.children@, e.children@.len());
    let rrefs = children_relation_refs(e.children@, e.children@.len());
    &&& vd.id@ == e.id@
    &&& vd.name@ == e.name@
    &&& e.viewpoint matches Some(vp) && vd.kind == viewpoint_kind_of(vp@)
    &&& texts(vd.elements@) == first_known(erefs, eids, erefs.len())
    &&& texts(vd.relationships@) == first_known(rrefs, rids, rrefs.len())
}

/// All `<element>`s of a document, depth first through its folders.
pub open spec fn document_entries(doc: XmlModel) -> Seq<XmlElement> {
    folders_elements(doc.folders@, doc.folders@.len())
}

/// The model elements of a document, in document order.
pub open spec fn element_entries(doc: XmlModel) -> Seq<XmlElement> {
    document_entries(doc).filter(element_entry_pred())
}

/// The relationships of a document, in document order.
pub open spec fn relationship_entries(doc: XmlModel) -> Seq<XmlElement> {
    document_entries(doc).filter(relationship_entry_pred())
}

/// The diagrams of a document drawn against a viewpoint, in document order.
pub open spec fn viewpoint_diagrams(doc: XmlModel) -> Seq<XmlElement> {
    document_entries(doc).filter(viewpoint_diagram_pred())
}

/// The outcome of reading a document: the message of the first relationship
/// that fails to resolve against the element ids, if any.
pub open spec fn read_failure(doc: XmlModel) -> Option<Seq<char>> {
    let rs = relationship_entries(doc);
    first_failure(entry_ids(element_entries(doc)), rs, rs.len())
}

/// `m` is the model a document describes: the document's name; its model
/// elements in document order (an `<element>` whose type is neither a
/// relationship nor a known element type is skipped); its relationships in
/// document order, each endpoint joined to the last element of that id; one
/// viewpoint definition per diagram drawn against a viewpoint.
pub open spec fn read_from(m: Model, doc: XmlModel) -> bool {
    let es = element_entries(doc);
    let rs = relationship_entries(doc);
    let ds = viewpoint_diagrams(doc);
    let ids = entry_ids(es);
    &&& m.wf()
    &&& m.endpoints_resolve()
    &&& m.spec_name() == doc.name@
    &&& m.spec_elements().len() == es.len()
    &&& forall|i: int| 0 <= i < es.len() ==> {
        &&& (#[trigger] m.spec_elements()[i]).original_id@ == es[i].id@
        &&& m.spec_elements()[i].name@ == es[i].name@
        &&& ElementKind::spec_from_name(local_type(es[i].xsi_type@)) == Some(m.spec_elements()[i].kind)
    }
    &&& m.spec_relations().len() == rs.len()
    &&& forall|i: int| 0 <= i < rs.len() ==> {
        &&& (#[trigger] m.spec_relations()[i]).original_id@ == rs[i].id@
        &&& relation_outcome(ids, rs[i]) == Ok::<(RelationKind, int, int), Seq<char>>((
            m.spec_relations()[i].kind,
            m.spec_relations()[i].source.0 as int,
            m.spec_relations()[i].target.0 as int,
        ))
    }
    &&& m.spec_viewpoints().len() == ds.len()
    &&& forall|i: int| 0 <= i < ds.len() ==> viewpoint_from(#[trigger] m.spec_viewpoints()[i], ds[i], ids, entry_ids(rs))
}

/// The first failure among the first `n` entries does not depend on later entries.
proof fn lemma_first_failure_prefix(ids: Seq<Seq<char>>, a: Seq<XmlElement>, b: Seq<XmlElement>, n: nat)
    requires
        n <= a.len(),
        n <= b.len(),
        a.take(n as int) == b.take(n as int),
    ensures
        first_failure(ids, a, n) == first_failure(ids, b, n),
    decreases n,
{
    if n > 0 {
        assert(a.take(n - 1) == a.take(n as int).take(n - 1));
        assert(b.take(n - 1) == b.take(n as int).take(n - 1));
        assert(a[n - 1] == a.take(n as int)[n - 1]);
        assert(b[n - 1] == b.take(n as int)[n - 1]);
        lemma_first_failure_prefix(ids, a, b, (n - 1) as nat);
    }
}

/// Once a failure is found among the first `n` entries, it stays the first one.
proof fn lemma_first_failure_stable(ids: Seq<Seq<char>>, a: Seq<XmlElement>, n: nat, m: nat)
    requires
        n <= m <= a.len(),
        first_failure(ids, a, n) is Some,
    ensures
        first_failure(ids, a, m) == first_failure(ids, a, n),
    decreases m,
{
    if m > n {
        lemma_first_failure_stable(ids, a, n, (m - 1) as nat);
    }
}

/// No failure among all entries means no failure among any first `n`.
proof fn lemma_first_failure_none(ids: Seq<Seq<char>>, a: Seq<XmlElement>, n: nat, m: nat)
    requires
        n <= m <= a.len(),
        first_failure(ids, a, m) is None,
    ensures
        first_failure(ids, a, n) is None,
    decreases m,
{
    if m > n {
        lemma_first_failure_none(ids, a, n, (m - 1) as nat);
    }
}

/// Filtering a prefix gives a prefix of the filtered sequence.
proof fn lemma_filter_prefix<A>(s: Seq<A>, i: int, p: spec_fn(A) -> bool)
    requires
        0 <= i <= s.len(),
    ensures
        s.take(i).filter(p).len() <= s.filter(p).len(),
        s.filter(p).take(s.take(i).filter(p).len() as int) == s.take(i).filter(p),
{
    assert(s == s.take(i) + s.skip(i));
    Seq::filter_distributes_over_add(s.take(i), s.skip(i), p);
    assert((s.take(i).filter(p) + s.skip(i).filter(p)).take(s.take(i).filter(p).len() as int) == s.take(i).filter(p));
}

/// A copy of the original ids of the model's elements.
fn element_id_list(model: &Model) -> (res: Vec<String>)
    ensures
        texts(res@) == model_ids(model.spec_elements()),
{
    let elems = model.elements_slice();
    let mut res: Vec<String> = Vec::new();
    let mut i: usize = 0;
    while i < elems.len()
        invariant
            0 <= i <= elems@.len(),
            elems@ == model.spec_elements(),
            texts(res@) == model_ids(elems@).take(i as int),
            res@.len() == i,
        decreases elems@.len() - i,
    {
        let ghost prev = res@;
        let id = elems[i].original_id.clone();
        assert(id@ == model_ids(elems@)[i as int]);
        res.push(id);
        proof { lemma_texts_push(prev, id); }
        assert(texts(res@) =~= model_ids(elems@).take(i + 1));
        i += 1;
    }
    assert(model_ids(elems@).take(elems@.len() as int) == model_ids(elems@));
    res
}

/// The original ids of a sequence of relationships.
pub open spec fn relation_model_ids(rs: Seq<crate::model::Relationship>) -> Seq<Seq<char>> {
    rs.map_values(|r: crate::model::Relationship| r.original_id@)
}

/// A copy of the original ids of the model's relationships.
fn relation_id_list(model: &Model) -> (res: Vec<String>)
    ensures
        texts(res@) == relation_model_ids(model.spec_relations()),
{
    let rels = model.relations_slice();
    let mut res: Vec<String> = Vec::new();
    let mut i: usize = 0;
    while i < rels.len()
        invariant
            0 <= i <= rels@.len(),
            rels@ == model.spec_relations(),
            texts(res@) == relation_model_ids(rels@).take(i as int),
            res@.len() == i,
        decreases rels@.len() - i,
    {
        let ghost prev = res@;
        let id = rels[i].original_id.clone();
        assert(id@ == relation_model_ids(rels@)[i as int]);
        res.push(id);
        proof { lemma_texts_push(prev, id); }
        assert(texts(res@) =~= relation_model_ids(rels@).take(i + 1));
        i += 1;
    }
    assert(relation_model_ids(rels@).take(rels@.len() as int) == relation_model_ids(rels@));
    res
}

/// A position found by `last_index_of` holds the id looked for.
pub(crate) proof fn lemma_last_index_of(ids: Seq<Seq<char>>, s: Seq<char>)
    ensures
        last_index_of(ids, s) matches Some(j) ==> 0 <= j < ids.len() && ids[j] == s,
    decreases ids.len(),
{
    if ids.len() > 0 && ids.last() != s {
        lemma_last_index_of(ids.drop_last(), s);
    }
}

/// Deserializes an Archi native XML document into a model.
///
/// Fails with the message of the first relationship, in document order,
/// whose kind is unknown or whose source or target names no element.
pub fn xml_to_model(doc: &XmlModel) -> (res: Result<Model, XmlError>)
    ensures
        res is Ok <==> read_failure(*doc) is None,
        match res {
            Ok(m) => read_from(m, *doc),
            Err(e) => e matches XmlError::Parse(msg) && read_failure(*doc) == Some(msg@),
        },
{
    let mut refs: Vec<&XmlElement> = Vec::new();
    collect_elements(&doc.folders, doc.folders.len(), &mut refs);
    let ghost all = derefs(refs@);
    assert(all =~= document_entries(*doc));
    let ghost ep = element_entry_pred();
    let ghost rp = relationship_entry_pred();
    let ghost dp = viewpoint_diagram_pred();
    let mut model = Model::new(doc.name.as_str());

    // Model elements.
    let mut i: usize = 0;
    while i < refs.len()
        invariant
            derefs(refs@) == all,
            all == document_entries(*doc),
            ep == element_entry_pred(),
            0 <= i <= refs@.len(),
            model.wf(),
            model.spec_name() == doc.name@,
            model.spec_relations().len() == 0,
            model.spec_viewpoints().len() == 0,
            model.spec_elements().len() == all.take(i as int).filter(ep).len(),
            forall|k: int| 0 <= k < model.spec_elements().len() ==> {
                &&& (#[trigger] model.spec_elements()[k]).original_id@ == all.take(i as int).filter(ep)[k].id@
                &&& model.spec_elements()[k].name@ == all.take(i as int).filter(ep)[k].name@
                &&& ElementKind::spec_from_name(local_type(all.take(i as int).filter(ep)[k].xsi_type@)) == Some(model.spec_elements()[k].kind)
            },
        decreases refs@.len() - i,
    {
        let e: &XmlElement = refs[i];
        assert(*e == all[i as int]);
        assert(all.take(i + 1) == all.take(i as int).push(all[i as int]));
        proof {
            all.take(i as int).lemma_filter_push(all[i as int], ep);
        }
        let ghost before = model.spec_elements();
        let ghost f = all.take(i as int).filter(ep);
        let t = strip_archimate_prefix(e.xsi_type.as_str());
        proof {
            reveal_strlit("Relationship");
        }
        if !has_suffix(t, "Relationship") {
            match ElementKind::from_name(t) {
                Some(k) => {
                    model.add_element_with_id(e.id.as_str(), e.name.as_str(), k);
                    assert forall|k2: int| 0 <= k2 < model.spec_elements().len() implies {
                        &&& (#[trigger] model.spec_elements()[k2]).original_id@ == f.push(*e)[k2].id@
                        &&& model.spec_elements()[k2].name@ == f.push(*e)[k2].name@
                        &&& ElementKind::spec_from_name(local_type(f.push(*e)[k2].xsi_type@)) == Some(model.spec_elements()[k2].kind)
                    } by {
                        if k2 < before.len() {
                            assert(model.spec_elements()[k2] == before[k2]);
                        }
                    }
                },
                None => {},
            }
        }
        i += 1;
    }
    assert(all.take(refs@.len() as int) == all);
    let ghost es = element_entries(*doc);
    let ghost ids = entry_ids(es);
    assert(model_ids(model.spec_elements()) =~= ids);

    // Relationships.
    let mut i: usize = 0;
    while i < refs.len()
        invariant
            derefs(refs@) == all,
            all == document_entries(*doc),
            rp == relationship_entry_pred(),
            0 <= i <= refs@.len(),
            model.wf(),
            model.spec_name() == doc.name@,
            model.spec_viewpoints().len() == 0,
            model.spec_elements().len() == es.len(),
            model_ids(model.spec_elements()) == ids,
            ids == entry_ids(es),
            es == element_entries(*doc),
            forall|k: int| 0 <= k < es.len() ==> {
                &&& (#[trigger] model.spec_elements()[k]).original_id@ == es[k].id@
                &&& model.spec_elements()[k].name@ == es[k].name@
                &&& ElementKind::spec_from_name(local_type(es[k].xsi_type@)) == Some(model.spec_elements()[k].kind)
            },
            model.endpoints_resolve(),
            first_failure(ids, all.take(i as int).filter(rp), all.take(i as int).filter(rp).len()) is None,
            model.spec_relations().len() == all.take(i as int).filter(rp).len(),
            forall|k: int| 0 <= k < model.spec_relations().len() ==> {
                &&& (#[trigger] model.spec_relations()[k]).original_id@ == all.take(i as int).filter(rp)[k].id@
                &&& relation_outcome(ids, all.take(i as int).filter(rp)[k]) == Ok::<(RelationKind, int, int), Seq<char>>((
                    model.spec_relations()[k].kind,
                    model.spec_relations()[k].source.0 as int,
                    model.spec_relations()[k].target.0 as int,
                ))
            },
        decreases refs@.len() - i,
    {
        let e: &XmlElement = refs[i];
        assert(*e == all[i as int]);
        assert(all.take(i + 1) == all.take(i as int).push(all[i as int]));
        proof {
            all.take(i as int).lemma_filter_push(all[i as int], rp);
        }
        let ghost before = model.spec_relations();
        let ghost f = all.take(i as int).filter(rp);
        let ghost f2 = f.push(*e);
        let t = strip_archimate_prefix(e.xsi_type.as_str());
        proof {
            reveal_strlit("Relationship");
        }
        if has_suffix(t, "Relationship") {
            assert(f2.take(f.len() as int) == f);
            assert(f.take(f.len() as int) == f);
            proof {
                lemma_first_failure_prefix(ids, f, f2, f.len());
            }
            match resolve_relation(model.elements_slice(), e) {
                Err(msg) => {
                    proof {
                        let rs = relationship_entries(*doc);
                        lemma_filter_prefix(all, i + 1, rp);
                        assert(all.take(i + 1).filter(rp) == f2);
                        assert(rs.take(f2.len() as int) == f2);
                        assert(f2.take(f2.len() as int) == f2);
                        lemma_first_failure_prefix(ids, f2, rs, f2.len());
                        lemma_first_failure_stable(ids, rs, f2.len(), rs.len());
                    }
                    return Err(XmlError::Parse(msg));
                },
                Ok((k, si, ti)) => {
                    proof {
                        lemma_last_index_of(ids, e.source.unwrap()@);
                        lemma_last_index_of(ids, e.target.unwrap()@);
                    }
                    model.link_with_id(e.id.as_str(), ElementId(si), ElementId(ti), k);
                    assert forall|k2: int| 0 <= k2 < model.spec_relations().len() implies {
                        &&& (#[trigger] model.spec_relations()[k2]).original_id@ == f2[k2].id@
                        &&& relation_outcome(ids, f2[k2]) == Ok::<(RelationKind, int, int), Seq<char>>((
                            model.spec_relations()[k2].kind,
                            model.spec_relations()[k2].source.0 as int,
                            model.spec_relations()[k2].target.0 as int,
                        ))
                    } by {
                        if k2 < before.len() {
                            assert(model.spec_relations()[k2] == before[k2]);
                        }
                    }
                    assert forall|k2: int| 0 <= k2 < model.spec_relations().len() implies {
                        &&& (#[trigger] model.spec_relations()[k2]).source.0 < model.spec_elements().len()
                        &&& model.spec_relations()[k2].target.0 < model.spec_elements().len()
                    } by {
                        if k2 < before.len() {
                            assert(model.spec_relations()[k2] == before[k2]);
                        }
                    }
                },
            }
        }
        i += 1;
    }
    let ghost rs = relationship_entries(*doc);
    assert(all.take(refs@.len() as int) == all);

    // Viewpoint definitions, one per diagram drawn against a viewpoint.
    let known_elements = element_id_list(&model);
    let known_relations = relation_id_list(&model);
    assert(relation_model_ids(model.spec_relations()) =~= entry_ids(rs));
    let mut vps: Vec<ViewpointDefinition> = Vec::new();
    let mut i: usize = 0;
    while i < refs.len()
        invariant
            derefs(refs@) == all,
            all == document_entries(*doc),
            dp == viewpoint_diagram_pred(),
            0 <= i <= refs@.len(),
            texts(known_elements@) == ids,
            texts(known_relations@) == entry_ids(rs),
            vps@.len() == all.take(i as int).filter(dp).len(),
            forall|k: int| 0 <= k < vps@.len() ==> viewpoint_from(#[trigger] vps@[k], all.take(i as int).filter(dp)[k], ids, entry_ids(rs)),
        decreases refs@.len() - i,
    {
        let e: &XmlElement = refs[i];
        assert(*e == all[i as int]);
        assert(all.take(i + 1) == all.take(i as int).push(all[i as int]));
        proof {
            all.take(i as int).lemma_filter_push(all[i as int], dp);
        }
        let ghost before = vps@;
        let ghost f = all.take(i as int).filter(dp);
        let t = strip_archimate_prefix(e.xsi_type.as_str());
        if str_eq(t, "ArchimateDiagramModel") {
            if let Some(vp) = &e.viewpoint {
                let kind = match ViewpointKind::from_viewpoint_name(vp.as_str()) {
                    Some(k) => k,
                    None => ViewpointKind::Unspecified,
                };
                let mut erefs: Vec<String> = Vec::new();
                let mut rrefs: Vec<String> = Vec::new();
                assert(texts(erefs@) =~= Seq::<Seq<char>>::empty());
                assert(texts(rrefs@) =~= Seq::<Seq<char>>::empty());
                collect_view_refs(&e.children, e.children.len(), &mut erefs, &mut rrefs);
                assert(texts(erefs@) =~= children_element_refs(e.children@, e.children@.len()));
                assert(texts(rrefs@) =~= children_relation_refs(e.children@, e.children@.len()));
                let elements = retain_known_first(&erefs, &known_elements);
                let relationships = retain_known_first(&rrefs, &known_relations);
                vps.push(ViewpointDefinition {
                    id: e.id.clone(),
                    name: e.name.clone(),
                    kind,
                    elements,
                    relationships,
                });
                assert forall|k: int| 0 <= k < vps@.len() implies viewpoint_from(#[trigger] vps@[k], f.push(*e)[k], ids, entry_ids(rs)) by {
                    if k < before.len() {
                        assert(vps@[k] == before[k]);
                    }
                }
            }
        }
        i += 1;
    }
    model.set_viewpoints(vps);
    Ok(model)
}

/// Selecting from a sequence all of whose items qualify keeps it whole.
proof fn lemma_filter_all<A>(s: Seq<A>, p: spec_fn(A) -> bool)
    requires
        forall|i: int| 0 <= i < s.len() ==> p(#[trigger] s[i]),
    ensures
        s.filter(p) == s,
    decreases s.len(),
{
    if s.len() > 0 {
        let t = s.drop_last();
        lemma_filter_all(t, p);
        t.lemma_filter_push(s.last(), p);
        assert(t.push(s.last()) == s);
    }
}

/// Selecting from a sequence none of whose items qualify leaves nothing.
proof fn lemma_filter_none<A>(s: Seq<A>, p: spec_fn(A) -> bool)
    requires
        forall|i: int| 0 <= i < s.len() ==> !p(#[trigger] s[i]),
    ensures
        s.filter(p) == Seq::<A>::empty(),
    decreases s.len(),
{
    if s.len() > 0 {
        let t = s.drop_last();
        lemma_filter_none(t, p);
        t.lemma_filter_push(s.last(), p);
        assert(t.push(s.last()) == s);
    }
}

/// An id that occurs in `ids` has a last occurrence.
proof fn lemma_last_index_found(ids: Seq<Seq<char>>, s: Seq<char>, j: int)
    requires
        0 <= j < ids.len(),
        ids[j] == s,
    ensures
        last_index_of(ids, s) is Some,
    decreases ids.len(),
{
    if ids.last() != s {
        lemma_last_index_found(ids.drop_last(), s, j);
    }
}

/// The type written for an element, relationship or diagram, read back
/// without its namespace prefix.
proof fn lemma_local_type_of_written(t: Seq<char>)
    ensures
        local_type("archimate:"@ + t) == t,
{
    let p = "archimate:"@;
    assert((p + t).take(p.len() as int) =~= p);
    assert((p + t).skip(p.len() as int) =~= t);
}

/// No element type name reads as a relationship type or as the diagram type.
proof fn lemma_kind_name_is_plain(k: ElementKind)
    ensures
        !is_relationship_type(k.spec_kind_name()),
        k.spec_kind_name() != "ArchimateDiagramModel"@,
{
    reveal_strlit("Relationship");
    reveal_strlit("ArchimateDiagramModel");
    assert("Relationship"@.len() == 12 && "Relationship"@[11] == 'p');
    assert("ArchimateDiagramModel"@.len() == 21 && "ArchimateDiagramModel"@[0] == 'A');
    match k {
        ElementKind::Stakeholder => {
            reveal_strlit("Stakeholder");
            assert("Stakeholder"@.len() == 11);
        },
        ElementKind::Driver => {
            reveal_strlit("Driver");
            assert("Driver"@.len() == 6);
        },
        ElementKind::Assessment => {
            reveal_strlit("Assessment");
            assert("Assessment"@.len() == 10);
        },
        ElementKind::Goal => {
            reveal_strlit("Goal");
            assert("Goal"@.len() == 4);
        },
        ElementKind::Outcome => {
            reveal_strlit("Outcome");
            assert("Outcome"@.len() == 7);
        },
        ElementKind::Principle => {
            reveal_strlit("Principle");
            assert("Principle"@.len() == 9);
        },
        ElementKind::Requirement => {
            reveal_strlit("Requirement");
            assert("Requirement"@.len() == 11);
        },
        ElementKind::Constraint => {
            reveal_strlit("Constraint");
            assert("Constraint"@.len() == 10);
        },
        ElementKind::Meaning => {
            reveal_strlit("Meaning");
            assert("Meaning"@.len() == 7);
        },
        ElementKind::Value => {
            reveal_strlit("Value");
            assert("Value"@.len() == 5);
        },
        ElementKind::Resource => {
            reveal_strlit("Resource");
            assert("Resource"@.len() == 8);
        },
        ElementKind::Capability => {
            reveal_strlit("Capability");
            assert("Capability"@.len() == 10);
        },
        ElementKind::ValueStream => {
            reveal_strlit("ValueStream");
            assert("ValueStream"@.len() == 11);
        },
        ElementKind::CourseOfAction => {
            reveal_strlit("CourseOfAction");
            assert("CourseOfAction"@.len() == 14 && "CourseOfAction"@[13] == 'n');
        },
        ElementKind::BusinessActor => {
            reveal_strlit("BusinessActor");
            assert("BusinessActor"@.len() == 13 && "BusinessActor"@[12] == 'r');
        },
        ElementKind::BusinessRole => {
            reveal_strlit("BusinessRole");
            assert("BusinessRole"@.len() == 12 && "BusinessRole"@[11] == 'e');
        },
        ElementKind::BusinessCollaboration => {
            reveal_strlit("BusinessCollaboration");
            assert("BusinessCollaboration"@.len() == 21 && "BusinessCollaboration"@[20] == 'n' && "BusinessCollaboration"@[0] == 'B');
        },
        ElementKind::BusinessInterface => {
            reveal_strlit("BusinessInterface");
            assert("BusinessInterface"@.len() == 17 && "BusinessInterface"@[16] == 'e');
        },
        ElementKind::BusinessProcess => {
            reveal_strlit("BusinessProcess");
            assert("BusinessProcess"@.len() == 15 && "BusinessProcess"@[14] == 's');
        },
        ElementKind::BusinessFunction => {
            reveal_strlit("BusinessFunction");
            assert("BusinessFunction"@.len() == 16 && "BusinessFunction"@[15] == 'n');
        },
        ElementKind::BusinessInteraction => {
            reveal_strlit("BusinessInteraction");
            assert("BusinessInteraction"@.len() == 19 && "BusinessInteraction"@[18] == 'n');
        },
        ElementKind::BusinessEvent => {
            reveal_strlit("BusinessEvent");
            assert("BusinessEvent"@.len() == 13 && "BusinessEvent"@[12] == 't');
        },
        ElementKind::BusinessService => {
            reveal_strlit("BusinessService");
            assert("BusinessService"@.len() == 15 && "BusinessService"@[14] == 'e');
        },
        ElementKind::BusinessObject => {
            reveal_strlit("BusinessObject");
            assert("BusinessObject"@.len() == 14 && "BusinessObject"@[13] == 't');
        },
        ElementKind::Contract => {
            reveal_strlit("Contract");
            assert("Contract"@.len() == 8);
        },
        ElementKind::Representation => {
            reveal_strlit("Representation");
            assert("Representation"@.len() == 14 && "Representation"@[13] == 'n');
        },
        ElementKind::Product => {
            reveal_strlit("Product");
            assert("Product"@.len() == 7);
        },
        ElementKind::ApplicationComponent => {
            reveal_strlit("ApplicationComponent");
            assert("ApplicationComponent"@.len() == 20 && "ApplicationComponent"@[19] == 't');
        },
        ElementKind::ApplicationCollaboration => {
            reveal_strlit("ApplicationCollaboration");
            assert("ApplicationCollaboration"@.len() == 24 && "ApplicationCollaboration"@[23] == 'n');
        },
        ElementKind::ApplicationInterface => {
            reveal_strlit("ApplicationInterface");
            assert("ApplicationInterface"@.len() == 20 && "ApplicationInterface"@[19] == 'e');
        },
        ElementKind::ApplicationFunction => {
            reveal_strlit("ApplicationFunction");
            assert("ApplicationFunction"@.len() == 19 && "ApplicationFunction"@[18] == 'n');
        },
        ElementKind::ApplicationProcess => {
            reveal_strlit("ApplicationProcess");
            assert("ApplicationProcess"@.len() == 18 && "ApplicationProcess"@[17] == 's');
        },
        ElementKind::ApplicationInteraction => {
            reveal_strlit("ApplicationInteraction");
            assert("ApplicationInteraction"@.len() == 22 && "ApplicationInteraction"@[21] == 'n');
        },
        ElementKind::ApplicationEvent => {
            reveal_strlit("ApplicationEvent");
            assert("ApplicationEvent"@.len() == 16 && "ApplicationEvent"@[15] == 't');
        },
        ElementKind::ApplicationService => {
            reveal_strlit("ApplicationService");
            assert("ApplicationService"@.len() == 18 && "ApplicationService"@[17] == 'e');
        },
        ElementKind::DataObject => {
            reveal_strlit("DataObject");
            assert("DataObject"@.len() == 10);
        },
        ElementKind::Node => {
            reveal_strlit("Node");
            assert("Node"@.len() == 4);
        },
        ElementKind::Device => {
            reveal_strlit("Device");
            assert("Device"@.len() == 6);
        },
        ElementKind::SystemSoftware => {
            reveal_strlit("SystemSoftware");
            assert("SystemSoftware"@.len() == 14 && "SystemSoftware"@[13] == 'e');
        },
        ElementKind::TechnologyCollaboration => {
            reveal_strlit("TechnologyCollaboration");
            assert("TechnologyCollaboration"@.len() == 23 && "TechnologyCollaboration"@[22] == 'n');
        },
        ElementKind::TechnologyInterface => {
            reveal_strlit("TechnologyInterface");
            assert("TechnologyInterface"@.len() == 19 && "TechnologyInterface"@[18] == 'e');
        },
        ElementKind::Path => {
            reveal_strlit("Path");
            assert("Path"@.len() == 4);
        },
        ElementKind::CommunicationNetwork => {
            reveal_strlit("CommunicationNetwork");
            assert("CommunicationNetwork"@.len() == 20 && "CommunicationNetwork"@[19] == 'k');
        },
        ElementKind::Artifact => {
            reveal_strlit("Artifact");
            assert("Artifact"@.len() == 8);
        },
        ElementKind::TechnologyFunction => {
            reveal_strlit("TechnologyFunction");
            assert("TechnologyFunction"@.len() == 18 && "TechnologyFunction"@[17] == 'n');
        },
        ElementKind::TechnologyProcess => {
            reveal_strlit("TechnologyProcess");
            assert("TechnologyProcess"@.len() == 17 && "TechnologyProcess"@[16] == 's');
        },
        ElementKind::TechnologyInteraction => {
            reveal_strlit("TechnologyInteraction");
            assert("TechnologyInteraction"@.len() == 21 && "TechnologyInteraction"@[20] == 'n' && "TechnologyInteraction"@[0] == 'T');
        },
        ElementKind::TechnologyEvent => {
            reveal_strlit("TechnologyEvent");
            assert("TechnologyEvent"@.len() == 15 && "TechnologyEvent"@[14] == 't');
        },
        ElementKind::TechnologyService => {
            reveal_strlit("TechnologyService");
            assert("TechnologyService"@.len() == 17 && "TechnologyService"@[16] == 'e');
        },
        ElementKind::Equipment => {
            reveal_strlit("Equipment");
            assert("Equipment"@.len() == 9);
        },
        ElementKind::Facility => {
            reveal_strlit("Facility");
            assert("Facility"@.len() == 8);
        },
        ElementKind::Material => {
            reveal_strlit("Material");
            assert("Material"@.len() == 8);
        },
        ElementKind::DistributionNetwork => {
            reveal_strlit("DistributionNetwork");
            assert("DistributionNetwork"@.len() == 19 && "DistributionNetwork"@[18] == 'k');
        },
        ElementKind::WorkPackage => {
            reveal_strlit("WorkPackage");
            assert("WorkPackage"@.len() == 11);
        },
        ElementKind::Deliverable => {
            reveal_strlit("Deliverable");
            assert("Deliverable"@.len() == 11);
        },
        ElementKind::ImplementationEvent => {
            reveal_strlit("ImplementationEvent");
            assert("ImplementationEvent"@.len() == 19 && "ImplementationEvent"@[18] == 't');
        },
        ElementKind::Plateau => {
            reveal_strlit("Plateau");
            assert("Plateau"@.len() == 7);
        },
        ElementKind::Gap => {
            reveal_strlit("Gap");
            assert("Gap"@.len() == 3);
        },
        ElementKind::Grouping => {
            reveal_strlit("Grouping");
            assert("Grouping"@.len() == 8);
        },
        ElementKind::Location => {
            reveal_strlit("Location");
            assert("Location"@.len() == 8);
        },
        ElementKind::AndJunction => {
            reveal_strlit("AndJunction");
            assert("AndJunction"@.len() == 11);
        },
        ElementKind::OrJunction => {
            reveal_strlit("OrJunction");
            assert("OrJunction"@.len() == 10);
        },
    }
    let t = k.spec_kind_name();
    if 12 <= t.len() {
        assert(t.skip(t.len() - 12)[11] == t[t.len() - 1]);
    }
}

/// The diagram type, in lower case, is no element type's lower-case name.
proof fn lemma_lower_name_not_diagram(k: ElementKind)
    ensures
        k.spec_lower_name() != "archimatediagrammodel"@,
{
    reveal_strlit("archimatediagrammodel");
    assert("archimatediagrammodel"@.len() == 21 && "archimatediagrammodel"@[0] == 'a');
    match k {
        ElementKind::Stakeholder => {
            reveal_strlit("stakeholder");
            assert("stakeholder"@.len() == 11);
        },
        ElementKind::Driver => {
            reveal_strlit("driver");
            assert("driver"@.len() == 6);
        },
        ElementKind::Assessment => {
            reveal_strlit("assessment");
            assert("assessment"@.len() == 10);
        },
        ElementKind::Goal => {
            reveal_strlit("goal");
            assert("goal"@.len() == 4);
        },
        ElementKind::Outcome => {
            reveal_strlit("outcome");
            assert("outcome"@.len() == 7);
        },
        ElementKind::Principle => {
            reveal_strlit("principle");
            assert("principle"@.len() == 9);
        },
        ElementKind::Requirement => {
            reveal_strlit("requirement");
            assert("requirement"@.len() == 11);
        },
        ElementKind::Constraint => {
            reveal_strlit("constraint");
            assert("constraint"@.len() == 10);
        },
        ElementKind::Meaning => {
            reveal_strlit("meaning");
            assert("meaning"@.len() == 7);
        },
        ElementKind::Value => {
            reveal_strlit("value");
            assert("value"@.len() == 5);
        },
        ElementKind::Resource => {
            reveal_strlit("resource");
            assert("resource"@.len() == 8);
        },
        ElementKind::Capability => {
            reveal_strlit("capability");
            assert("capability"@.len() == 10);
        },
        ElementKind::ValueStream => {
            reveal_strlit("valuestream");
            assert("valuestream"@.len() == 11);
        },
        ElementKind::CourseOfAction => {
            reveal_strlit("courseofaction");
            assert("courseofaction"@.len() == 14);
        },
        ElementKind::BusinessActor => {
            reveal_strlit("businessactor");
            assert("businessactor"@.len() == 13);
        },
        ElementKind::BusinessRole => {
            reveal_strlit("businessrole");
            assert("businessrole"@.len() == 12);
        },
        ElementKind::BusinessCollaboration => {
            reveal_strlit("businesscollaboration");
            assert("businesscollaboration"@.len() == 21 && "businesscollaboration"@[0] == 'b');
        },
        ElementKind::BusinessInterface => {
            reveal_strlit("businessinterface");
            assert("businessinterface"@.len() == 17);
        },
        ElementKind::BusinessProcess => {
            reveal_strlit("businessprocess");
            assert("businessprocess"@.len() == 15);
        },
        ElementKind::BusinessFunction => {
            reveal_strlit("businessfunction");
            assert("businessfunction"@.len() == 16);
        },
        ElementKind::BusinessInteraction => {
            reveal_strlit("businessinteraction");
            assert("businessinteraction"@.len() == 19);
        },
        ElementKind::BusinessEvent => {
            reveal_strlit("businessevent");
            assert("businessevent"@.len() == 13);
        },
        ElementKind::BusinessService => {
            reveal_strlit("businessservice");
            assert("businessservice"@.len() == 15);
        },
        ElementKind::BusinessObject => {
            reveal_strlit("businessobject");
            assert("businessobject"@.len() == 14);
        },
        ElementKind::Contract => {
            reveal_strlit("contract");
            assert("contract"@.len() == 8);
        },
        ElementKind::Representation => {
            reveal_strlit("representation");
            assert("representation"@.len() == 14);
        },
        ElementKind::Product => {
            reveal_strlit("product");
            assert("product"@.len() == 7);
        },
        ElementKind::ApplicationComponent => {
            reveal_strlit("applicationcomponent");
            assert("applicationcomponent"@.len() == 20);
        },
        ElementKind::ApplicationCollaboration => {
            reveal_strlit("applicationcollaboration");
            assert("applicationcollaboration"@.len() == 24);
        },
        ElementKind::ApplicationInterface => {
            reveal_strlit("applicationinterface");
            assert("applicationinterface"@.len() == 20);
        },
        ElementKind::ApplicationFunction => {
            reveal_strlit("applicationfunction");
            assert("applicationfunction"@.len() == 19);
        },
        ElementKind::ApplicationProcess => {
            reveal_strlit("applicationprocess");
            assert("applicationprocess"@.len() == 18);
        },
        ElementKind::ApplicationInteraction => {
            reveal_strlit("applicationinteraction");
            assert("applicationinteraction"@.len() == 22);
        },
        ElementKind::ApplicationEvent => {
            reveal_strlit("applicationevent");
            assert("applicationevent"@.len() == 16);
        },
        ElementKind::ApplicationService => {
            reveal_strlit("applicationservice");
            assert("applicationservice"@.len() == 18);
        },
        ElementKind::DataObject => {
            reveal_strlit("dataobject");
            assert("dataobject"@.len() == 10);
        },
        ElementKind::Node => {
            reveal_strlit("node");
            assert("node"@.len() == 4);
        },
        ElementKind::Device => {
            reveal_strlit("device");
            assert("device"@.len() == 6);
        },
        ElementKind::SystemSoftware => {
            reveal_strlit("systemsoftware");
            assert("systemsoftware"@.len() == 14);
        },
        ElementKind::TechnologyCollaboration => {
            reveal_strlit("technologycollaboration");
            assert("technologycollaboration"@.len() == 23);
        },
        ElementKind::TechnologyInterface => {
            reveal_strlit("technologyinterface");
            assert("technologyinterface"@.len() == 19);
        },
        ElementKind::Path => {
            reveal_strlit("path");
            assert("path"@.len() == 4);
        },
        ElementKind::CommunicationNetwork => {
            reveal_strlit("communicationnetwork");
            assert("communicationnetwork"@.len() == 20);
        },
        ElementKind::Artifact => {
            reveal_strlit("artifact");
            assert("artifact"@.len() == 8);
        },
        ElementKind::TechnologyFunction => {
            reveal_strlit("technologyfunction");
            assert("technologyfunction"@.len() == 18);
        },
        ElementKind::TechnologyProcess => {
            reveal_strlit("technologyprocess");
            assert("technologyprocess"@.len() == 17);
        },
        ElementKind::TechnologyInteraction => {
            reveal_strlit("technologyinteraction");
            assert("technologyinteraction"@.len() == 21 && "technologyinteraction"@[0] == 't');
        },
        ElementKind::TechnologyEvent => {
            reveal_strlit("technologyevent");
            assert("technologyevent"@.len() == 15);
        },
        ElementKind::TechnologyService => {
            reveal_strlit("technologyservice");
            assert("technologyservice"@.len() == 17);
        },
        ElementKind::Equipment => {
            reveal_strlit("equipment");
            assert("equipment"@.len() == 9);
        },
        ElementKind::Facility => {
            reveal_strlit("facility");
            assert("facility"@.len() == 8);
        },
        ElementKind::Material => {
            reveal_strlit("material");
            assert("material"@.len() == 8);
        },
        ElementKind::DistributionNetwork => {
            reveal_strlit("distributionnetwork");
            assert("distributionnetwork"@.len() == 19);
        },
        ElementKind::WorkPackage => {
            reveal_strlit("workpackage");
            assert("workpackage"@.len() == 11);
        },
        ElementKind::Deliverable => {
            reveal_strlit("deliverable");
            assert("deliverable"@.len() == 11);
        },
        ElementKind::ImplementationEvent => {
            reveal_strlit("implementationevent");
            assert("implementationevent"@.len() == 19);
        },
        ElementKind::Plateau => {
            reveal_strlit("plateau");
            assert("plateau"@.len() == 7);
        },
        ElementKind::Gap => {
            reveal_strlit("gap");
            assert("gap"@.len() == 3);
        },
        ElementKind::Grouping => {
            reveal_strlit("grouping");
            assert("grouping"@.len() == 8);
        },
        ElementKind::Location => {
            reveal_strlit("location");
            assert("location"@.len() == 8);
        },
        ElementKind::AndJunction => {
            reveal_strlit("andjunction");
            assert("andjunction"@.len() == 11);
        },
        ElementKind::OrJunction => {
            reveal_strlit("orjunction");
            assert("orjunction"@.len() == 10);
        },
    }
}

/// The diagram type reads neither as a relationship type nor as an element type.
proof fn lemma_diagram_type_is_plain()
    ensures
        !is_relationship_type("ArchimateDiagramModel"@),
        ElementKind::spec_from_name("ArchimateDiagramModel"@) is None,
{
    let d = "ArchimateDiagramModel"@;
    reveal_strlit("Relationship");
    reveal_strlit("ArchimateDiagramModel");
    assert(d.len() == 21 && d[20] == 'l');
    assert("Relationship"@.len() == 12 && "Relationship"@[11] == 'p');
    assert(d.skip(9)[11] == 'l');
    assert(d.skip(9) != "Relationship"@);
    if ElementKind::spec_from_name(d) is Some {
        let k = ElementKind::spec_from_name(d)->0;
        ElementKind::lemma_parsed_name_is_canonical(d, k);
        reveal_strlit("archimatediagrammodel");
        assert(ascii_lower(d) =~= "archimatediagrammodel"@);
        lemma_lower_name_not_diagram(k);
    }
}

/// `doc` holds what the Archi XML text written for `m` holds, reading the
/// `<element>`s of its folders in order: each element of `m` once, the
/// `i`-th being element `order[i]`, typed `archimate:<kind>` with its
/// original id and name; then each relationship of `m` in order, typed
/// `archimate:<kind>Relationship` with its original id and the original ids
/// of its endpoints; then diagrams: one per viewpoint definition, in order,
/// carrying its id, name and viewpoint kind, or, without definitions,
/// diagrams with no viewpoint.
pub open spec fn written_as(doc: XmlModel, m: Model, order: Seq<int>) -> bool {
    let es = document_entries(doc);
    let n = m.spec_elements().len();
    let r = m.spec_relations().len();
    &&& doc.name@ == m.spec_name()
    &&& order.len() == n
    &&& forall|i: int| 0 <= i < n ==> 0 <= #[trigger] order[i] < n
    &&& forall|j: int| 0 <= j < n ==> #[trigger] order.contains(j)
    &&& es.len() >= n + r
    &&& forall|i: int| 0 <= i < n ==> {
        &&& (#[trigger] es[i]).xsi_type@ == "archimate:"@ + m.spec_elements()[order[i]].kind.spec_kind_name()
        &&& es[i].id@ == m.spec_elements()[order[i]].original_id@
        &&& es[i].name@ == m.spec_elements()[order[i]].name@
    }
    &&& forall|i: int| 0 <= i < r ==> {
        &&& (#[trigger] es[n + i]).xsi_type@ == "archimate:"@ + m.spec_relations()[i].kind.spec_kind_name() + "Relationship"@
        &&& es[n + i].id@ == m.spec_relations()[i].original_id@
        &&& es[n + i].source matches Some(s) && s@ == m.spec_elements()[m.spec_relations()[i].source.0 as int].original_id@
        &&& es[n + i].target matches Some(t) && t@ == m.spec_elements()[m.spec_relations()[i].target.0 as int].original_id@
    }
    &&& forall|i: int| n + r <= i < es.len() ==> (#[trigger] es[i]).xsi_type@ == "archimate:"@ + "ArchimateDiagramModel"@
    &&& m.spec_viewpoints().len() == 0 ==> forall|i: int| n + r <= i < es.len() ==> (#[trigger] es[i]).viewpoint is None
    &&& m.spec_viewpoints().len() > 0 ==> {
        &&& es.len() == n + r + m.spec_viewpoints().len()
        &&& forall|k: int| 0 <= k < m.spec_viewpoints().len() ==> {
            &&& (#[trigger] es[n + r + k]).id@ == m.spec_viewpoints()[k].id@
            &&& es[n + r + k].name@ == m.spec_viewpoints()[k].name@
            &&& es[n + r + k].viewpoint matches Some(v) && v@ == m.spec_viewpoints()[k].kind.spec_viewpoint_name()
        }
    }
}

/// The entries of a written document sort into its elements and its relationships.
proof fn lemma_written_entries(m: Model, doc: XmlModel, order: Seq<int>)
    requires
        m.endpoints_resolve(),
        written_as(doc, m, order),
    ensures
        element_entries(doc) == document_entries(doc).take(m.spec_elements().len() as int),
        relationship_entries(doc) == document_entries(doc).subrange(
            m.spec_elements().len() as int,
            (m.spec_elements().len() + m.spec_relations().len()) as int,
        ),
{
    let es = document_entries(doc);
    let n = m.spec_elements().len() as int;
    let r = m.spec_relations().len() as int;
    let a = es.take(n);
    let b = es.subrange(n, n + r);
    let c = es.skip(n + r);
    assert(es =~= a + b + c);
    reveal_strlit("Relationship");
    reveal_strlit("ArchimateDiagramModel");
    assert forall|i: int| 0 <= i < a.len() implies is_element_entry(#[trigger] a[i]) && !is_relationship_entry(a[i]) by {
        let k = m.spec_elements()[order[i]].kind;
        assert(a[i] == es[i]);
        lemma_local_type_of_written(k.spec_kind_name());
        lemma_kind_name_is_plain(k);
        ElementKind::lemma_name_round_trip(k);
    }
    assert forall|i: int| 0 <= i < b.len() implies !is_element_entry(#[trigger] b[i]) && is_relationship_entry(b[i]) by {
        let name = m.spec_relations()[i].kind.spec_kind_name();
        assert(b[i] == es[n + i]);
        assert("archimate:"@ + name + "Relationship"@ == "archimate:"@ + (name + "Relationship"@));
        lemma_local_type_of_written(name + "Relationship"@);
        assert((name + "Relationship"@).skip(name.len() as int) =~= "Relationship"@);
    }
    assert forall|i: int| 0 <= i < c.len() implies !is_element_entry(#[trigger] c[i]) && !is_relationship_entry(c[i]) by {
        assert(c[i] == es[n + r + i]);
        lemma_local_type_of_written("ArchimateDiagramModel"@);
        lemma_diagram_type_is_plain();
    }
    let pe = element_entry_pred();
    let pr = relationship_entry_pred();
    Seq::filter_distributes_over_add(a + b, c, pe);
    Seq::filter_distributes_over_add(a, b, pe);
    Seq::filter_distributes_over_add(a + b, c, pr);
    Seq::filter_distributes_over_add(a, b, pr);
    lemma_filter_all(a, pe);
    lemma_filter_none(b, pe);
    lemma_filter_none(c, pe);
    lemma_filter_none(a, pr);
    lemma_filter_all(b, pr);
    lemma_filter_none(c, pr);
    assert(es.filter(pe) =~= a);
    assert(es.filter(pr) =~= b);
}

/// The viewpoint diagrams of a written document: its diagrams when the model
/// has viewpoint definitions, none otherwise.
proof fn lemma_written_diagrams(m: Model, doc: XmlModel, order: Seq<int>)
    requires
        m.endpoints_resolve(),
        written_as(doc, m, order),
    ensures
        viewpoint_diagrams(doc) == if m.spec_viewpoints().len() == 0 {
            Seq::<XmlElement>::empty()
        } else {
            document_entries(doc).skip((m.spec_elements().len() + m.spec_relations().len()) as int)
        },
{
    let es = document_entries(doc);
    let n = m.spec_elements().len() as int;
    let r = m.spec_relations().len() as int;
    let a = es.take(n);
    let b = es.subrange(n, n + r);
    let c = es.skip(n + r);
    assert(es =~= a + b + c);
    let pv = viewpoint_diagram_pred();
    let d = "ArchimateDiagramModel"@;
    lemma_diagram_type_is_plain();
    lemma_local_type_of_written(d);
    assert forall|i: int| 0 <= i < a.len() implies !pv(#[trigger] a[i]) by {
        let k = m.spec_elements()[order[i]].kind;
        assert(a[i] == es[i]);
        lemma_local_type_of_written(k.spec_kind_name());
        lemma_kind_name_is_plain(k);
    }
    assert forall|i: int| 0 <= i < b.len() implies !pv(#[trigger] b[i]) by {
        let name = m.spec_relations()[i].kind.spec_kind_name();
        assert(b[i] == es[n + i]);
        reveal_strlit("Relationship");
        assert("archimate:"@ + name + "Relationship"@ == "archimate:"@ + (name + "Relationship"@));
        lemma_local_type_of_written(name + "Relationship"@);
        assert((name + "Relationship"@).skip(name.len() as int) =~= "Relationship"@);
        assert(is_relationship_type(name + "Relationship"@));
    }
    Seq::filter_distributes_over_add(a + b, c, pv);
    Seq::filter_distributes_over_add(a, b, pv);
    lemma_filter_none(a, pv);
    lemma_filter_none(b, pv);
    if m.spec_viewpoints().len() == 0 {
        assert forall|i: int| 0 <= i < c.len() implies !pv(#[trigger] c[i]) by {
            assert(c[i] == es[n + r + i]);
        }
        lemma_filter_none(c, pv);
        assert(es.filter(pv) =~= Seq::<XmlElement>::empty());
    } else {
        assert forall|i: int| 0 <= i < c.len() implies pv(#[trigger] c[i]) by {
            assert(c[i] == es[n + r + i]);
            assert(es[n + r + i].viewpoint is Some);
        }
        lemma_filter_all(c, pv);
        assert(es.filter(pv) =~= c);
    }
}

/// The document written for a model reads without error: every relationship's
/// kind is known and its endpoints name elements of the document, so
/// `xml_to_model` returns `Ok`.
pub proof fn lemma_written_model_reads(m: Model, doc: XmlModel, order: Seq<int>)
    requires
        m.endpoints_resolve(),
        written_as(doc, m, order),
    ensures
        read_failure(doc) is None,
{
    lemma_written_entries(m, doc, order);
    let es = document_entries(doc);
    let n = m.spec_elements().len() as int;
    let ids = entry_ids(element_entries(doc));
    let rs = relationship_entries(doc);
    assert forall|i: int| 0 <= i < rs.len() implies relation_outcome(ids, #[trigger] rs[i]) is Ok by {
        let rel = m.spec_relations()[i];
        let name = rel.kind.spec_kind_name();
        assert(rs[i] == es[n + i]);
        reveal_strlit("Relationship");
        assert("archimate:"@ + name + "Relationship"@ == "archimate:"@ + (name + "Relationship"@));
        lemma_local_type_of_written(name + "Relationship"@);
        assert((name + "Relationship"@).skip(name.len() as int) =~= "Relationship"@);
        assert((name + "Relationship"@).take(name.len() as int) =~= name);
        RelationKind::lemma_name_round_trip(rel.kind);
        assert(order.contains(rel.source.0 as int));
        assert(order.contains(rel.target.0 as int));
        let js = choose|j: int| 0 <= j < order.len() && #[trigger] order[j] == rel.source.0 as int;
        let jt = choose|j: int| 0 <= j < order.len() && #[trigger] order[j] == rel.target.0 as int;
        assert(ids[js] == es[js].id@);
        assert(ids[jt] == es[jt].id@);
        lemma_last_index_found(ids, m.spec_elements()[rel.source.0 as int].original_id@, js);
        lemma_last_index_found(ids, m.spec_elements()[rel.target.0 as int].original_id@, jt);
    }
    lemma_no_failure(ids, rs, rs.len());
}

/// When every entry resolves, no entry fails.
proof fn lemma_no_failure(ids: Seq<Seq<char>>, rs: Seq<XmlElement>, k: nat)
    requires
        k <= rs.len(),
        forall|i: int| 0 <= i < rs.len() ==> relation_outcome(ids, #[trigger] rs[i]) is Ok,
    ensures
        first_failure(ids, rs, k) is None,
    decreases k,
{
    if k > 0 {
        lemma_no_failure(ids, rs, (k - 1) as nat);
        assert(relation_outcome(ids, rs[k - 1]) is Ok);
    }
}

/// Reading back the document written for a model gives its elements, in the
/// order the document lists them, with their original ids, names and kinds;
/// its relationships in order, with their original ids and kinds, joining
/// elements that carry the original ids of the model's endpoints; and its
/// viewpoint definitions in order, with their ids, names and kinds.
pub proof fn lemma_written_model_reads_back(m: Model, doc: XmlModel, order: Seq<int>, back: Model)
    requires
        m.endpoints_resolve(),
        written_as(doc, m, order),
        read_from(back, doc),
    ensures
        back.spec_name() == m.spec_name(),
        back.spec_elements().len() == m.spec_elements().len(),
        forall|i: int| 0 <= i < back.spec_elements().len() ==> {
            &&& (#[trigger] back.spec_elements()[i]).original_id@ == m.spec_elements()[order[i]].original_id@
            &&& back.spec_elements()[i].name@ == m.spec_elements()[order[i]].name@
            &&& back.spec_elements()[i].kind == m.spec_elements()[order[i]].kind
        },
        back.spec_relations().len() == m.spec_relations().len(),
        forall|i: int| 0 <= i < back.spec_relations().len() ==> {
            &&& (#[trigger] back.spec_relations()[i]).original_id@ == m.spec_relations()[i].original_id@
            &&& back.spec_relations()[i].kind == m.spec_relations()[i].kind
            &&& back.spec_elements()[back.spec_relations()[i].source.0 as int].original_id@
                == m.spec_elements()[m.spec_relations()[i].source.0 as int].original_id@
            &&& back.spec_elements()[back.spec_relations()[i].target.0 as int].original_id@
                == m.spec_elements()[m.spec_relations()[i].target.0 as int].original_id@
        },
        back.spec_viewpoints().len() == m.spec_viewpoints().len(),
        forall|k: int| 0 <= k < back.spec_viewpoints().len() ==> {
            &&& (#[trigger] back.spec_viewpoints()[k]).id@ == m.spec_viewpoints()[k].id@
            &&& back.spec_viewpoints()[k].name@ == m.spec_viewpoints()[k].name@
            &&& back.spec_viewpoints()[k].kind == m.spec_viewpoints()[k].kind
        },
{
    lemma_written_diagrams(m, doc, order);
    let ds = viewpoint_diagrams(doc);
    assert forall|k: int| 0 <= k < back.spec_viewpoints().len() implies {
        &&& (#[trigger] back.spec_viewpoints()[k]).id@ == m.spec_viewpoints()[k].id@
        &&& back.spec_viewpoints()[k].name@ == m.spec_viewpoints()[k].name@
        &&& back.spec_viewpoints()[k].kind == m.spec_viewpoints()[k].kind
    } by {
        let nr = (m.spec_elements().len() + m.spec_relations().len()) as int;
        assert(ds[k] == document_entries(doc)[nr + k]);
        ViewpointKind::lemma_name_round_trip(m.spec_viewpoints()[k].kind);
    }
    lemma_written_entries(m, doc, order);
    let es = document_entries(doc);
    let n = m.spec_elements().len() as int;
    let ees = element_entries(doc);
    let ids = entry_ids(ees);
    let rs = relationship_entries(doc);
    assert forall|i: int| 0 <= i < back.spec_elements().len() implies back.spec_elements()[i].kind == m.spec_elements()[order[i]].kind by {
        let k = m.spec_elements()[order[i]].kind;
        assert(ees[i] == es[i]);
        lemma_local_type_of_written(k.spec_kind_name());
        ElementKind::lemma_name_round_trip(k);
    }
    assert forall|i: int| 0 <= i < back.spec_relations().len() implies {
        &&& back.spec_relations()[i].original_id@ == m.spec_relations()[i].original_id@
        &&& back.spec_relations()[i].kind == m.spec_relations()[i].kind
        &&& back.spec_elements()[back.spec_relations()[i].source.0 as int].original_id@
            == m.spec_elements()[m.spec_relations()[i].source.0 as int].original_id@
        &&& back.spec_elements()[back.spec_relations()[i].target.0 as int].original_id@
            == m.spec_elements()[m.spec_relations()[i].target.0 as int].original_id@
    } by {
        let rel = m.spec_relations()[i];
        let b = back.spec_relations()[i];
        let name = rel.kind.spec_kind_name();
        assert(rs[i] == es[n + i]);
        reveal_strlit("Relationship");
        assert("archimate:"@ + name + "Relationship"@ == "archimate:"@ + (name + "Relationship"@));
        lemma_local_type_of_written(name + "Relationship"@);
        assert((name + "Relationship"@).skip(name.len() as int) =~= "Relationship"@);
        assert((name + "Relationship"@).take(name.len() as int) =~= name);
        RelationKind::lemma_name_round_trip(rel.kind);
        let src = m.spec_elements()[rel.source.0 as int].original_id@;
        let tgt = m.spec_elements()[rel.target.0 as int].original_id@;
        lemma_last_index_of(ids, src);
        lemma_last_index_of(ids, tgt);
        assert(ids[b.source.0 as int] == ees[b.source.0 as int].id@);
        assert(ids[b.target.0 as int] == ees[b.target.0 as int].id@);
    }
}

} // verus!
