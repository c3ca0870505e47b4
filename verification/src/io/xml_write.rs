//! Rendering models as Archi native XML (`.archimate`).
//!
//! Elements are grouped into `<folder>`s by metamodel layer, relationships
//! live in the `Relations` folder, and the `Views` folder holds one diagram
//! per viewpoint definition (or a single default view), with `<child>`
//! objects and nested `<sourceConnection>`s.
use vstd::prelude::*;
use vstd::string::{StrSliceExecFns, StringExecFns};
use crate::model::{Element, ElementId, ElementLayer, Model, Relationship, ViewpointDefinition};
use crate::io::xml::{XmlError, last_element_index, last_index_of, lemma_last_index_of, model_ids};
use crate::text::xml_escaped;
use crate::text::xml_escape;

verus! {

/// The folder an element of a layer goes to, by canonical folder position;
/// Technology and Physical share one folder.
pub open spec fn folder_index(l: ElementLayer) -> int {
    match l {
        ElementLayer::Strategy => 0,
        ElementLayer::Business => 1,
        ElementLayer::Application => 2,
        ElementLayer::Technology | ElementLayer::Physical => 3,
        ElementLayer::Motivation => 4,
        ElementLayer::Implementation => 5,
        ElementLayer::Other => 6,
    }
}

/// Number of element folders.
pub open spec fn folder_count() -> nat {
    7
}

/// The `name` attribute of the folder at a canonical position.
pub open spec fn folder_name(f: int) -> Seq<char> {
    if f == 0 {
        "Strategy"@
    } else if f == 1 {
        "Business"@
    } else if f == 2 {
        "Application"@
    } else if f == 3 {
        "Technology &amp; Physical"@
    } else if f == 4 {
        "Motivation"@
    } else if f == 5 {
        "Implementation &amp; Migration"@
    } else {
        "Other"@
    }
}

/// The `type` attribute of the folder at a canonical position.
pub open spec fn folder_type(f: int) -> Seq<char> {
    if f == 0 {
        "strategy"@
    } else if f == 1 {
        "business"@
    } else if f == 2 {
        "application"@
    } else if f == 3 {
        "technology"@
    } else if f == 4 {
        "motivation"@
    } else if f == 5 {
        "implementation_migration"@
    } else {
        "other"@
    }
}

/// Maps a metamodel layer to the `(name, type)` of its Archi folder.
///
/// Technology and Physical layers share the "Technology &amp; Physical" folder.
pub fn folder_for_layer(layer: ElementLayer) -> (res: (&'static str, &'static str))
    ensures
        res.0@ == folder_name(folder_index(layer)),
        res.1@ == folder_type(folder_index(layer)),
{
    match layer {
        ElementLayer::Strategy => ("Strategy", "strategy"),
        ElementLayer::Business => ("Business", "business"),
        ElementLayer::Application => ("Application", "application"),
        ElementLayer::Technology | ElementLayer::Physical => ("Technology &amp; Physical", "technology"),
        ElementLayer::Motivation => ("Motivation", "motivation"),
        ElementLayer::Implementation => ("Implementation &amp; Migration", "implementation_migration"),
        ElementLayer::Other => ("Other", "other"),
    }
}

/// The folder position of a layer, as an index.
fn folder_position(layer: ElementLayer) -> (res: usize)
    ensures
        res == folder_index(layer),
{
    match layer {
        ElementLayer::Strategy => 0,
        ElementLayer::Business => 1,
        ElementLayer::Application => 2,
        ElementLayer::Technology | ElementLayer::Physical => 3,
        ElementLayer::Motivation => 4,
        ElementLayer::Implementation => 5,
        ElementLayer::Other => 6,
    }
}

/// The layer that names the folder at a canonical position.
fn folder_layer(f: usize) -> (res: ElementLayer)
    requires
        f < 7,
    ensures
        folder_index(res) == f,
{
    if f == 0 {
        ElementLayer::Strategy
    } else if f == 1 {
        ElementLayer::Business
    } else if f == 2 {
        ElementLayer::Application
    } else if f == 3 {
        ElementLayer::Technology
    } else if f == 4 {
        ElementLayer::Motivation
    } else if f == 5 {
        ElementLayer::Implementation
    } else {
        ElementLayer::Other
    }
}

/// The `<element>` line of a model element inside its folder.
pub open spec fn element_line(e: Element) -> Seq<char> {
    "    <element xsi:type=\"archimate:"@ + e.kind.spec_kind_name() + "\" name=\""@ + xml_escaped(e.name@)
        + "\" id=\""@ + e.original_id@ + "\"/>\n"@
}

/// The element lines of folder `f`, for the first `n` elements.
pub open spec fn folder_lines(es: Seq<Element>, f: int, n: nat) -> Seq<char>
    decreases n,
{
    if n == 0 || n > es.len() {
        seq![]
    } else {
        folder_lines(es, f, (n - 1) as nat) + if folder_index(es[n - 1].kind.spec_layer()) == f {
            element_line(es[n - 1])
        } else {
            seq![]
        }
    }
}

/// Folder `f` with its elements, or nothing when it would be empty.
pub open spec fn folder_block(es: Seq<Element>, f: int, id: Seq<char>) -> Seq<char> {
    let lines = folder_lines(es, f, es.len());
    if lines.len() == 0 {
        seq![]
    } else {
        "  <folder name=\""@ + folder_name(f) + "\" id=\""@ + id + "\" type=\""@ + folder_type(f) + "\">\n"@
            + lines + "  </folder>\n"@
    }
}

/// The first `k` element folders, in canonical order.
pub open spec fn element_folders(es: Seq<Element>, ids: Seq<Seq<char>>, k: nat) -> Seq<char>
    decreases k,
{
    if k == 0 {
        seq![]
    } else {
        element_folders(es, ids, (k - 1) as nat) + folder_block(es, k - 1, ids[k - 1])
    }
}

/// The views of a sequence of strings.
pub open spec fn texts(v: Seq<String>) -> Seq<Seq<char>> {
    v.map_values(|s: String| s@)
}

/// Appends the `<element>` line of a model element.
fn emit_element_line(out: &mut String, e: &Element)
    ensures
        final(out)@ == old(out)@ + element_line(*e),
{
    out.append("    <element xsi:type=\"archimate:");
    out.append(e.kind.kind_name());
    out.append("\" name=\"");
    out.append(xml_escape(e.name.as_str()).as_str());
    out.append("\" id=\"");
    out.append(e.original_id.as_str());
    out.append("\"/>\n");
    assert(out@ =~= old(out)@ + element_line(*e));
}

/// Emits one `<folder>` per non-empty metamodel layer folder, in canonical Archi order.
fn emit_element_folders(out: &mut String, model: &Model, folder_ids: &Vec<String>)
    requires
        folder_ids@.len() >= folder_count(),
    ensures
        final(out)@ == old(out)@ + element_folders(model.spec_elements(), texts(folder_ids@), folder_count()),
{
    let elems = model.elements_slice();
    let ghost ids = texts(folder_ids@);
    let mut f: usize = 0;
    while f < 7
        invariant
            0 <= f <= 7,
            folder_ids@.len() >= folder_count(),
            ids == texts(folder_ids@),
            elems@ == model.spec_elements(),
            out@ == old(out)@ + element_folders(elems@, ids, f as nat),
        decreases 7 - f,
    {
        let mut lines = String::new();
        let mut i: usize = 0;
        while i < elems.len()
            invariant
                0 <= i <= elems@.len(),
                f < 7,
                lines@ == folder_lines(elems@, f as int, i as nat),
            decreases elems@.len() - i,
        {
            if folder_position(elems[i].kind.layer()) == f {
                emit_element_line(&mut lines, &elems[i]);
            }
            i += 1;
        }
        let ghost before = out@;
        if lines.as_str().unicode_len() > 0 {
            let (fname, ftype) = folder_for_layer(folder_layer(f));
            out.append("  <folder name=\"");
            out.append(fname);
            out.append("\" id=\"");
            out.append(folder_ids[f].as_str());
            out.append("\" type=\"");
            out.append(ftype);
            out.append("\">\n");
            out.append(lines.as_str());
            out.append("  </folder>\n");
        }
        assert(ids[f as int] == folder_ids@[f as int]@);
        assert(out@ =~= before + folder_block(elems@, f as int, ids[f as int]));
        f += 1;
    }
}

/// The `<element>` line of a relationship in the `Relations` folder.
pub open spec fn relation_line(es: Seq<Element>, r: Relationship) -> Seq<char> {
    "    <element xsi:type=\"archimate:"@ + r.kind.spec_kind_name() + "Relationship\" source=\""@
        + es[r.source.0 as int].original_id@ + "\" target=\""@ + es[r.target.0 as int].original_id@
        + "\" id=\""@ + r.original_id@ + "\"/>\n"@
}

/// The lines of the first `n` relationships.
pub open spec fn relation_lines(es: Seq<Element>, rs: Seq<Relationship>, n: nat) -> Seq<char>
    decreases n,
{
    if n == 0 || n > rs.len() {
        seq![]
    } else {
        relation_lines(es, rs, (n - 1) as nat) + relation_line(es, rs[n - 1])
    }
}

/// The `Relations` folder, or nothing when there is no relationship.
pub open spec fn relations_block(es: Seq<Element>, rs: Seq<Relationship>, id: Seq<char>) -> Seq<char> {
    if rs.len() == 0 {
        seq![]
    } else {
        "  <folder name=\"Relations\" id=\""@ + id + "\" type=\"relations\">\n"@ + relation_lines(es, rs, rs.len())
            + "  </folder>\n"@
    }
}

/// Emits the `Relations` folder.
fn emit_relations(out: &mut String, model: &Model, folder_id: &String)
    requires
        model.endpoints_resolve(),
    ensures
        final(out)@ == old(out)@ + relations_block(model.spec_elements(), model.spec_relations(), folder_id@),
{
    let elems = model.elements_slice();
    let rels = model.relations_slice();
    if rels.len() == 0 {
        assert(out@ =~= old(out)@ + relations_block(elems@, rels@, folder_id@));
        return;
    }
    out.append("  <folder name=\"Relations\" id=\"");
    out.append(folder_id.as_str());
    out.append("\" type=\"relations\">\n");
    let ghost head = out@;
    let mut i: usize = 0;
    while i < rels.len()
        invariant
            0 <= i <= rels@.len(),
            elems@ == model.spec_elements(),
            rels@ == model.spec_relations(),
            model.endpoints_resolve(),
            out@ == head + relation_lines(elems@, rels@, i as nat),
        decreases rels@.len() - i,
    {
        let r = &rels[i];
        assert(r.source.0 < elems@.len() && r.target.0 < elems@.len());
        out.append("    <element xsi:type=\"archimate:");
        out.append(r.kind.kind_name());
        out.append("Relationship\" source=\"");
        out.append(elems[r.source.0].original_id.as_str());
        out.append("\" target=\"");
        out.append(elems[r.target.0].original_id.as_str());
        out.append("\" id=\"");
        out.append(r.original_id.as_str());
        out.append("\"/>\n");
        assert(out@ =~= head + relation_lines(elems@, rels@, (i + 1) as nat));
        i += 1;
    }
    out.append("  </folder>\n");
    assert(out@ =~= old(out)@ + relations_block(elems@, rels@, folder_id@));
}

/// The drawn bounds of a diagram object, already rendered as attribute text.
#[derive(Debug, Clone)]
pub struct Bounds {
    pub x: String,
    pub y: String,
    pub width: String,
    pub height: String,
}

/// Placement of elements on generated diagrams.
pub struct DiagramLayout {
    /// Element indices in drawing order (top to bottom, then left to right).
    pub order: Vec<ElementId>,
    /// Bounds per element index; a missing entry draws the element at the
    /// default bounds (x 0, y 0, width 120, height 55).
    pub bounds: Vec<Option<Bounds>>,
}

/// The drawing order lists every element of `m` exactly once.
pub open spec fn layout_fits(layout: DiagramLayout, m: Model) -> bool {
    let o = layout.order@;
    &&& o.len() == m.spec_elements().len()
    &&& forall|k: int| 0 <= k < o.len() ==> (#[trigger] o[k]).0 < o.len()
    &&& forall|a: int, b: int| 0 <= a < b < o.len() ==> (#[trigger] o[a]).0 != (#[trigger] o[b]).0
}

/// The bounds an element is drawn with.
pub open spec fn bounds_of(bs: Seq<Option<Bounds>>, id: int) -> Option<Bounds> {
    if 0 <= id < bs.len() { bs[id] } else { None }
}

/// The `<bounds>` line of a diagram object.
pub open spec fn bounds_line(b: Option<Bounds>) -> Seq<char> {
    match b {
        Some(b) => "        <bounds x=\""@ + b.x@ + "\" y=\""@ + b.y@ + "\" width=\""@ + b.width@
            + "\" height=\""@ + b.height@ + "\"/>\n"@,
        None => "        <bounds x=\""@ + "0"@ + "\" y=\""@ + "0"@ + "\" width=\""@ + "120"@
            + "\" height=\""@ + "55"@ + "\"/>\n"@,
    }
}

/// Both endpoints of a relationship are drawn on the diagram.
pub open spec fn rel_in_scope(scope: Seq<bool>, r: Relationship) -> bool {
    scope[r.source.0 as int] && scope[r.target.0 as int]
}

/// The connection ids of the first `n` drawn relationships that end at element `id`.
pub open spec fn target_conns(rs: Seq<Relationship>, scope: Seq<bool>, conns: Seq<Seq<char>>, id: int, n: nat) -> Seq<Seq<char>>
    decreases n,
{
    if n == 0 || n > rs.len() {
        seq![]
    } else {
        let prev = target_conns(rs, scope, conns, id, (n - 1) as nat);
        if rel_in_scope(scope, rs[n - 1]) && rs[n - 1].target.0 == id {
            prev.push(conns[n - 1])
        } else {
            prev
        }
    }
}

/// Texts joined by single spaces.
pub open spec fn join_space(s: Seq<Seq<char>>) -> Seq<char>
    decreases s.len(),
{
    if s.len() == 0 {
        seq![]
    } else if s.len() == 1 {
        s[0]
    } else {
        join_space(s.drop_last()) + " "@ + s.last()
    }
}

/// The `targetConnections` attribute of a diagram object, if it has inbound connections.
pub open spec fn target_attr(t: Seq<Seq<char>>) -> Seq<char> {
    if t.len() == 0 {
        seq![]
    } else {
        " targetConnections=\""@ + join_space(t) + "\""@
    }
}

/// The pieces of a text between its space characters, in order: a text with
/// `n` spaces has `n + 1` pieces, some of which may be empty.
pub open spec fn split_spaces(t: Seq<char>) -> Seq<Seq<char>>
    decreases t.len(),
{
    if t.len() == 0 {
        seq![seq![]]
    } else {
        let p = split_spaces(t.drop_last());
        if t.last() == ' ' {
            p.push(seq![])
        } else {
            p.update(p.len() - 1, p.last().push(t.last()))
        }
    }
}

/// The text holds no space character.
pub open spec fn space_free(x: Seq<char>) -> bool {
    forall|i: int| 0 <= i < x.len() ==> x[i] != ' '
}

proof fn lemma_split_spaces_nonempty(t: Seq<char>)
    ensures
        split_spaces(t).len() >= 1,
    decreases t.len(),
{
    if t.len() > 0 {
        lemma_split_spaces_nonempty(t.drop_last());
    }
}

proof fn lemma_split_space_free(x: Seq<char>)
    requires
        space_free(x),
    ensures
        split_spaces(x) == seq![x],
    decreases x.len(),
{
    if x.len() > 0 {
        assert(space_free(x.drop_last())) by {
            assert forall|i: int| 0 <= i < x.drop_last().len() implies x.drop_last()[i] != ' ' by {
                assert(x.drop_last()[i] == x[i]);
            }
        }
        assert(x.last() != ' ') by {
            assert(x[x.len() - 1] != ' ');
        }
        lemma_split_space_free(x.drop_last());
        assert(x.drop_last().push(x.last()) =~= x);
        assert(split_spaces(x) =~= seq![x]);
    } else {
        assert(x =~= Seq::<char>::empty());
    }
}

proof fn lemma_split_after_space(a: Seq<char>, x: Seq<char>)
    requires
        space_free(x),
    ensures
        split_spaces(a + " "@ + x) == split_spaces(a).push(x),
    decreases x.len(),
{
    reveal_strlit(" ");
    assert(" "@ =~= seq![' ']);
    let t = a + " "@ + x;
    if x.len() == 0 {
        assert(x =~= Seq::<char>::empty());
        assert(t.drop_last() =~= a);
        assert(t.last() == ' ');
        assert(split_spaces(t) =~= split_spaces(a).push(x));
    } else {
        assert(space_free(x.drop_last())) by {
            assert forall|i: int| 0 <= i < x.drop_last().len() implies x.drop_last()[i] != ' ' by {
                assert(x.drop_last()[i] == x[i]);
            }
        }
        assert(x.last() != ' ') by {
            assert(x[x.len() - 1] != ' ');
        }
        lemma_split_after_space(a, x.drop_last());
        assert(t.drop_last() =~= a + " "@ + x.drop_last());
        assert(t.last() == x.last());
        assert(x.drop_last().push(x.last()) =~= x);
        assert(split_spaces(t) =~= split_spaces(a).push(x));
    }
}

/// Splitting texts joined by single spaces at their spaces gives the texts back,
/// when none of them holds a space.
pub proof fn lemma_join_space_splits_back(s: Seq<Seq<char>>)
    requires
        s.len() > 0,
        forall|i: int| 0 <= i < s.len() ==> space_free(#[trigger] s[i]),
    ensures
        split_spaces(join_space(s)) == s,
    decreases s.len(),
{
    if s.len() == 1 {
        lemma_split_space_free(s[0]);
        assert(s =~= seq![s[0]]);
    } else {
        lemma_join_space_splits_back(s.drop_last());
        assert(space_free(s[s.len() - 1]));
        lemma_split_after_space(join_space(s.drop_last()), s.last());
        assert(s.drop_last().push(s.last()) =~= s);
    }
}

/// A hyphenated UUID holds no space.
pub proof fn lemma_uuid_space_free(s: Seq<char>)
    requires
        hyphenated_uuid(s),
    ensures
        space_free(s),
        s.len() > 0,
{
    assert forall|i: int| 0 <= i < s.len() implies s[i] != ' ' by {
        if i == 8 || i == 13 || i == 18 || i == 23 {
            assert(s[i] == '-');
        } else {
            assert(('0' <= s[i] <= '9') || ('a' <= s[i] <= 'f'));
        }
    }
}

proof fn lemma_target_conns_are_uuids(rs: Seq<Relationship>, scope: Seq<bool>, conns: Seq<Seq<char>>, id: int, n: nat)
    requires
        conns.len() == rs.len(),
        forall|i: int| 0 <= i < rs.len() ==> hyphenated_uuid(#[trigger] conns[i]),
    ensures
        forall|j: int| 0 <= j < target_conns(rs, scope, conns, id, n).len()
            ==> space_free(#[trigger] target_conns(rs, scope, conns, id, n)[j]),
    decreases n,
{
    if n > 0 && n <= rs.len() {
        let prev = target_conns(rs, scope, conns, id, (n - 1) as nat);
        lemma_target_conns_are_uuids(rs, scope, conns, id, (n - 1) as nat);
        lemma_uuid_space_free(conns[n - 1]);
        let t = target_conns(rs, scope, conns, id, n);
        assert forall|j: int| 0 <= j < t.len() implies space_free(#[trigger] t[j]) by {
            if j < prev.len() {
                assert(t[j] == prev[j]);
            } else {
                assert(t[j] == conns[n - 1]);
            }
        }
    }
}

/// The `targetConnections` attribute of a diagram object lists its inbound
/// connections separated by single spaces: when every connection id is a
/// hyphenated UUID, the object of element `id` carries the attribute exactly
/// when some drawn relationship ends at `id`, and the attribute's value, split
/// at its spaces, is the connection ids of the drawn relationships that end at
/// `id`, in relationship order.
pub proof fn lemma_target_connections_split(rs: Seq<Relationship>, scope: Seq<bool>, conns: Seq<Seq<char>>, id: int)
    requires
        conns.len() == rs.len(),
        forall|i: int| 0 <= i < rs.len() ==> hyphenated_uuid(#[trigger] conns[i]),
    ensures
        ({
            let t = target_conns(rs, scope, conns, id, rs.len());
            &&& t.len() == 0 ==> target_attr(t) == Seq::<char>::empty()
            &&& t.len() > 0 ==> exists|v: Seq<char>|
                target_attr(t) == " targetConnections=\""@ + v + "\""@ && #[trigger] split_spaces(v) == t
        }),
{
    let t = target_conns(rs, scope, conns, id, rs.len());
    if t.len() > 0 {
        lemma_target_conns_are_uuids(rs, scope, conns, id, rs.len());
        lemma_join_space_splits_back(t);
        assert(target_attr(t) == " targetConnections=\""@ + join_space(t) + "\""@);
    }
}

/// The `<sourceConnection>` lines nested in the object of element `id`, for the
/// first `n` relationships.
pub open spec fn source_lines(
    rs: Seq<Relationship>,
    scope: Seq<bool>,
    conns: Seq<Seq<char>>,
    child_ids: Seq<Seq<char>>,
    id: int,
    n: nat,
) -> Seq<char>
    decreases n,
{
    if n == 0 || n > rs.len() {
        seq![]
    } else {
        source_lines(rs, scope, conns, child_ids, id, (n - 1) as nat) + if rel_in_scope(scope, rs[n - 1])
            && rs[n - 1].source.0 == id {
            "        <sourceConnection xsi:type=\"archimate:Connection\" id=\""@ + conns[n - 1] + "\" source=\""@
                + child_ids[id] + "\" target=\""@ + child_ids[rs[n - 1].target.0 as int]
                + "\" archimateRelationship=\""@ + rs[n - 1].original_id@ + "\"/>\n"@
        } else {
            seq![]
        }
    }
}

/// The `<child>` diagram object of element `id`.
pub open spec fn child_block(
    es: Seq<Element>,
    rs: Seq<Relationship>,
    scope: Seq<bool>,
    conns: Seq<Seq<char>>,
    child_ids: Seq<Seq<char>>,
    bs: Seq<Option<Bounds>>,
    id: int,
) -> Seq<char> {
    "      <child xsi:type=\"archimate:DiagramObject\" id=\""@ + child_ids[id] + "\""@
        + target_attr(target_conns(rs, scope, conns, id, rs.len())) + " archimateElement=\""@
        + es[id].original_id@ + "\">\n"@ + bounds_line(bounds_of(bs, id))
        + source_lines(rs, scope, conns, child_ids, id, rs.len()) + "      </child>\n"@
}

/// The diagram objects for the first `n` entries of the drawing order: each
/// element that exists and is in scope.
pub open spec fn children_text(
    es: Seq<Element>,
    rs: Seq<Relationship>,
    scope: Seq<bool>,
    conns: Seq<Seq<char>>,
    child_ids: Seq<Seq<char>>,
    layout_order: Seq<ElementId>,
    bs: Seq<Option<Bounds>>,
    n: nat,
) -> Seq<char>
    decreases n,
{
    if n == 0 || n > layout_order.len() {
        seq![]
    } else {
        let id = layout_order[n - 1].0 as int;
        children_text(es, rs, scope, conns, child_ids, layout_order, bs, (n - 1) as nat) + if id < es.len()
            && scope[id] {
            child_block(es, rs, scope, conns, child_ids, bs, id)
        } else {
            seq![]
        }
    }
}

/// The `viewpoint` attribute of a diagram, if it has one.
pub open spec fn viewpoint_attr(vp: Option<Seq<char>>) -> Seq<char> {
    match vp {
        Some(v) => " viewpoint=\""@ + xml_escaped(v) + "\""@,
        None => seq![],
    }
}

/// One `ArchimateDiagramModel` view.
pub open spec fn diagram_text(
    name: Seq<char>,
    vp: Option<Seq<char>>,
    diagram_id: Seq<char>,
    es: Seq<Element>,
    rs: Seq<Relationship>,
    scope: Seq<bool>,
    conns: Seq<Seq<char>>,
    child_ids: Seq<Seq<char>>,
    layout: DiagramLayout,
) -> Seq<char> {
    "    <element xsi:type=\"archimate:ArchimateDiagramModel\" name=\""@ + xml_escaped(name) + "\""@
        + viewpoint_attr(vp) + " id=\""@ + diagram_id + "\">\n"@
        + children_text(es, rs, scope, conns, child_ids, layout.order@, layout.bounds@, layout.order@.len())
        + "    </element>\n"@
}

/// Appends the `<bounds>` line of a diagram object.
fn emit_bounds(out: &mut String, b: &Option<Bounds>)
    ensures
        final(out)@ == old(out)@ + bounds_line(*b),
{
    out.append("        <bounds x=\"");
    match b {
        Some(b) => {
            out.append(b.x.as_str());
            out.append("\" y=\"");
            out.append(b.y.as_str());
            out.append("\" width=\"");
            out.append(b.width.as_str());
            out.append("\" height=\"");
            out.append(b.height.as_str());
        },
        None => {
            out.append("0");
            out.append("\" y=\"");
            out.append("0");
            out.append("\" width=\"");
            out.append("120");
            out.append("\" height=\"");
            out.append("55");
        },
    }
    out.append("\"/>\n");
    assert(out@ =~= old(out)@ + bounds_line(*b));
}

/// The inputs of one diagram are consistent with the model.
pub open spec fn diagram_inputs_fit(
    model: Model,
    scope: Seq<bool>,
    conns: Seq<String>,
    child_ids: Seq<String>,
) -> bool {
    &&& model.endpoints_resolve()
    &&& scope.len() == model.spec_elements().len()
    &&& child_ids.len() == model.spec_elements().len()
    &&& conns.len() == model.spec_relations().len()
}

/// Appends the `<child>` object of element `id`.
#[verifier::rlimit(40)]
#[verifier::spinoff_prover]
fn emit_child(
    out: &mut String,
    model: &Model,
    layout: &DiagramLayout,
    child_ids: &Vec<String>,
    conns: &Vec<String>,
    scope: &Vec<bool>,
    id: usize,
)
    requires
        diagram_inputs_fit(*model, scope@, conns@, child_ids@),
        id < model.spec_elements().len(),
    ensures
        final(out)@ == old(out)@ + child_block(
            model.spec_elements(),
            model.spec_relations(),
            scope@,
            texts(conns@),
            texts(child_ids@),
            layout.bounds@,
            id as int,
        ),
{
    let elems = model.elements_slice();
    let rels = model.relations_slice();
    let ghost cs = texts(conns@);
    let ghost kids = texts(child_ids@);
    // Inbound connections, in relationship order.
    let mut joined = String::new();
    let mut any = false;
    let mut i: usize = 0;
    while i < rels.len()
        invariant
            0 <= i <= rels@.len(),
            rels@ == model.spec_relations(),
            elems@ == model.spec_elements(),
            diagram_inputs_fit(*model, scope@, conns@, child_ids@),
            cs == texts(conns@),
            any == (target_conns(rels@, scope@, cs, id as int, i as nat).len() > 0),
            joined@ == join_space(target_conns(rels@, scope@, cs, id as int, i as nat)),
        decreases rels@.len() - i,
    {
        let r = &rels[i];
        assert(r.source.0 < elems@.len() && r.target.0 < elems@.len());
        let ghost prev = target_conns(rels@, scope@, cs, id as int, i as nat);
        if scope[r.source.0] && scope[r.target.0] && r.target.0 == id {
            if any {
                joined.append(" ");
            }
            joined.append(conns[i].as_str());
            any = true;
            assert(prev.push(cs[i as int]).drop_last() == prev);
            assert(joined@ =~= join_space(prev.push(cs[i as int])));
        }
        i += 1;
    }
    out.append("      <child xsi:type=\"archimate:DiagramObject\" id=\"");
    out.append(child_ids[id].as_str());
    out.append("\"");
    if any {
        out.append(" targetConnections=\"");
        out.append(joined.as_str());
        out.append("\"");
    }
    out.append(" archimateElement=\"");
    out.append(elems[id].original_id.as_str());
    out.append("\">\n");
    let b = if id < layout.bounds.len() { &layout.bounds[id] } else { &None };
    emit_bounds(out, b);
    let ghost head = out@;
    let mut i: usize = 0;
    while i < rels.len()
        invariant
            0 <= i <= rels@.len(),
            rels@ == model.spec_relations(),
            elems@ == model.spec_elements(),
            diagram_inputs_fit(*model, scope@, conns@, child_ids@),
            cs == texts(conns@),
            kids == texts(child_ids@),
            id < elems@.len(),
            out@ == head + source_lines(rels@, scope@, cs, kids, id as int, i as nat),
        decreases rels@.len() - i,
    {
        let r = &rels[i];
        assert(r.source.0 < elems@.len() && r.target.0 < elems@.len());
        if scope[r.source.0] && scope[r.target.0] && r.source.0 == id {
            out.append("        <sourceConnection xsi:type=\"archimate:Connection\" id=\"");
            out.append(conns[i].as_str());
            out.append("\" source=\"");
            out.append(child_ids[id].as_str());
            out.append("\" target=\"");
            out.append(child_ids[r.target.0].as_str());
            out.append("\" archimateRelationship=\"");
            out.append(r.original_id.as_str());
            out.append("\"/>\n");
        }
        assert(out@ =~= head + source_lines(rels@, scope@, cs, kids, id as int, (i + 1) as nat));
        i += 1;
    }
    out.append("      </child>\n");
    assert(out@ =~= old(out)@ + child_block(elems@, rels@, scope@, cs, kids, layout.bounds@, id as int));
}

/// Emits one `ArchimateDiagramModel` inside an already-open `Views` folder.
#[verifier::rlimit(40)]
#[verifier::spinoff_prover]
fn emit_diagram(
    out: &mut String,
    model: &Model,
    layout: &DiagramLayout,
    child_ids: &Vec<String>,
    conns: &Vec<String>,
    scope: &Vec<bool>,
    name: &str,
    viewpoint: Option<&str>,
    diagram_id: &str,
)
    requires
        diagram_inputs_fit(*model, scope@, conns@, child_ids@),
    ensures
        final(out)@ == old(out)@ + diagram_text(
            name@,
            match viewpoint { Some(v) => Some(v@), None => None },
            diagram_id@,
            model.spec_elements(),
            model.spec_relations(),
            scope@,
            texts(conns@),
            texts(child_ids@),
            *layout,
        ),
{
    out.append("    <element xsi:type=\"archimate:ArchimateDiagramModel\" name=\"");
    out.append(xml_escape(name).as_str());
    out.append("\"");
    match viewpoint {
        Some(v) => {
            out.append(" viewpoint=\"");
            out.append(xml_escape(v).as_str());
            out.append("\"");
        },
        None => {},
    }
    out.append(" id=\"");
    out.append(diagram_id);
    out.append("\">\n");
    let ghost head = out@;
    let ghost es = model.spec_elements();
    let ghost rs = model.spec_relations();
    let ghost cs = texts(conns@);
    let ghost kids = texts(child_ids@);
    let n = model.element_count();
    let mut p: usize = 0;
    while p < layout.order.len()
        invariant
            0 <= p <= layout.order@.len(),
            n == es.len(),
            es == model.spec_elements(),
            rs == model.spec_relations(),
            cs == texts(conns@),
            kids == texts(child_ids@),
            diagram_inputs_fit(*model, scope@, conns@, child_ids@),
            out@ == head + children_text(es, rs, scope@, cs, kids, layout.order@, layout.bounds@, p as nat),
        decreases layout.order@.len() - p,
    {
        let id = layout.order[p].0;
        if id < n && scope[id] {
            emit_child(out, model, layout, child_ids, conns, scope, id);
        }
        assert(out@ =~= head + children_text(es, rs, scope@, cs, kids, layout.order@, layout.bounds@, (p + 1) as nat));
        p += 1;
    }
    out.append("    </element>\n");
    assert(out@ =~= old(out)@ + diagram_text(
        name@,
        match viewpoint { Some(v) => Some(v@), None => None },
        diagram_id@,
        es,
        rs,
        scope@,
        cs,
        kids,
        *layout,
    ));
}

/// The identifiers minted for one rendering.
pub struct XmlIds {
    /// The model's `id`.
    pub model: String,
    /// The seven element folders in canonical order, then `Relations`, then `Views`.
    pub folders: Vec<String>,
    /// The id of the default view, drawn when the model has no viewpoint definition.
    pub default_diagram: String,
    /// One diagram-object id per element.
    pub children: Vec<String>,
    /// Per diagram, one connection id per relationship.
    pub connections: Vec<Vec<String>>,
}

/// Number of diagrams a model is drawn with: one per viewpoint definition, or the default view.
pub open spec fn diagram_count(m: Model) -> nat {
    if m.spec_viewpoints().len() == 0 { 1 } else { m.spec_viewpoints().len() }
}

/// The identifiers cover everything the model's rendering names.
pub open spec fn ids_fit(ids: XmlIds, m: Model) -> bool {
    &&& ids.folders@.len() == folder_count() + 2
    &&& ids.children@.len() == m.spec_elements().len()
    &&& ids.connections@.len() == diagram_count(m)
    &&& forall|k: int| 0 <= k < ids.connections@.len() ==> (#[trigger] ids.connections@[k])@.len() == m.spec_relations().len()
}

/// Every generated identifier is a hyphenated UUID.
pub open spec fn ids_are_uuids(ids: XmlIds) -> bool {
    &&& hyphenated_uuid(ids.model@)
    &&& forall|i: int| 0 <= i < ids.folders@.len() ==> hyphenated_uuid((#[trigger] ids.folders@[i])@)
    &&& hyphenated_uuid(ids.default_diagram@)
    &&& forall|i: int| 0 <= i < ids.children@.len() ==> hyphenated_uuid((#[trigger] ids.children@[i])@)
    &&& forall|k: int, i: int| 0 <= k < ids.connections@.len() && 0 <= i < ids.connections@[k]@.len()
        ==> hyphenated_uuid((#[trigger] ids.connections@[k]@[i])@)
}

/// The elements a viewpoint's diagram draws: all of them when it lists none,
/// else each element that a listed reference names (the last element of that id).
pub open spec fn viewpoint_scope(es: Seq<Element>, vp: ViewpointDefinition) -> Seq<bool> {
    Seq::new(es.len(), |i: int| vp.elements@.len() == 0 || exists|j: int| 0 <= j < vp.elements@.len()
        && last_index_of(model_ids(es), (#[trigger] vp.elements@[j])@) == Some(i))
}

/// A scope that draws every element.
pub open spec fn full_scope(n: nat) -> Seq<bool> {
    Seq::new(n, |i: int| true)
}

/// The diagrams of the first `k` viewpoint definitions.
pub open spec fn viewpoint_diagrams_text(m: Model, layout: DiagramLayout, ids: XmlIds, k: nat) -> Seq<char>
    decreases k,
{
    if k == 0 || k > m.spec_viewpoints().len() {
        seq![]
    } else {
        let vp = m.spec_viewpoints()[k - 1];
        viewpoint_diagrams_text(m, layout, ids, (k - 1) as nat) + diagram_text(
            vp.name@,
            Some(vp.kind.spec_viewpoint_name()),
            vp.id@,
            m.spec_elements(),
            m.spec_relations(),
            viewpoint_scope(m.spec_elements(), vp),
            texts(ids.connections@[k - 1]@),
            texts(ids.children@),
            layout,
        )
    }
}

/// The `Views` folder, or nothing when the model has no element.
pub open spec fn views_block(m: Model, layout: DiagramLayout, ids: XmlIds) -> Seq<char> {
    if m.spec_elements().len() == 0 {
        seq![]
    } else {
        "  <folder name=\"Views\" id=\""@ + ids.folders@[8]@ + "\" type=\"diagrams\">\n"@ + (if m.spec_viewpoints().len() == 0 {
            diagram_text(
                "Default View"@,
                None,
                ids.default_diagram@,
                m.spec_elements(),
                m.spec_relations(),
                full_scope(m.spec_elements().len()),
                texts(ids.connections@[0]@),
                texts(ids.children@),
                layout,
            )
        } else {
            viewpoint_diagrams_text(m, layout, ids, m.spec_viewpoints().len())
        }) + "  </folder>\n"@
    }
}

/// The Archi native XML text of a model, with the given identifiers.
pub open spec fn archi_xml(m: Model, layout: DiagramLayout, ids: XmlIds) -> Seq<char> {
    "<?xml version=\"1.0\" encoding=\"UTF-8\" standalone=\"yes\"?>\n"@
        + "<archimate:model xmlns:xsi=\"http://www.w3.org/2001/XMLSchema-instance\" xmlns:archimate=\"http://www.archimatetool.com/archimate\" name=\""@
        + xml_escaped(m.spec_name()) + "\" id=\""@ + ids.model@ + "\" version=\"5.0.0\">"@ + "\n"@
        + element_folders(m.spec_elements(), texts(ids.folders@), folder_count())
        + relations_block(m.spec_elements(), m.spec_relations(), ids.folders@[7]@)
        + views_block(m, layout, ids) + "</archimate:model>\n"@
}

/// The elements a viewpoint's diagram draws, as flags by element index.
fn viewpoint_scope_flags(model: &Model, vp: &ViewpointDefinition) -> (res: Vec<bool>)
    ensures
        res@ == viewpoint_scope(model.spec_elements(), *vp),
{
    let elems = model.elements_slice();
    let all = vp.elements.len() == 0;
    let mut flags: Vec<bool> = Vec::new();
    let mut i: usize = 0;
    while i < elems.len()
        invariant
            0 <= i <= elems@.len(),
            all == (vp.elements@.len() == 0),
            flags@ == Seq::new(i as nat, |k: int| all),
        decreases elems@.len() - i,
    {
        flags.push(all);
        assert(flags@ =~= Seq::new((i + 1) as nat, |k: int| all));
        i += 1;
    }
    let ghost ids = model_ids(elems@);
    let mut a: usize = 0;
    while a < vp.elements.len()
        invariant
            0 <= a <= vp.elements@.len(),
            elems@ == model.spec_elements(),
            ids == model_ids(elems@),
            all == (vp.elements@.len() == 0),
            flags@ == Seq::new(elems@.len(), |k: int| all || exists|j: int| 0 <= j < a
                && last_index_of(ids, (#[trigger] vp.elements@[j])@) == Some(k)),
        decreases vp.elements@.len() - a,
    {
        let ghost before = flags@;
        match last_element_index(elems, vp.elements[a].as_str()) {
            Some(j) => {
                proof {
                    lemma_last_index_of(ids, vp.elements@[a as int]@);
                }
                flags.set(j, true);
            },
            None => {},
        }
        assert forall|k: int| 0 <= k < elems@.len() implies flags@[k] == (all || exists|j: int| 0 <= j < a + 1
            && last_index_of(ids, (#[trigger] vp.elements@[j])@) == Some(k)) by {
            if exists|j: int| 0 <= j < a && last_index_of(ids, (#[trigger] vp.elements@[j])@) == Some(k) {
                let j = choose|j: int| 0 <= j < a && last_index_of(ids, (#[trigger] vp.elements@[j])@) == Some(k);
                assert(0 <= j < a + 1 && last_index_of(ids, vp.elements@[j]@) == Some(k));
            }
            if last_index_of(ids, vp.elements@[a as int]@) == Some(k) {
                assert(0 <= a < a + 1 && last_index_of(ids, vp.elements@[a as int]@) == Some(k));
            }
        }
        assert(flags@ =~= Seq::new(elems@.len(), |k: int| all || exists|j: int| 0 <= j < a + 1
            && last_index_of(ids, (#[trigger] vp.elements@[j])@) == Some(k)));
        a += 1;
    }
    assert(flags@ =~= viewpoint_scope(elems@, *vp));
    flags
}

/// A full-scope flag vector.
fn full_scope_flags(n: usize) -> (res: Vec<bool>)
    ensures
        res@ == full_scope(n as nat),
{
    let mut flags: Vec<bool> = Vec::new();
    let mut i: usize = 0;
    while i < n
        invariant
            0 <= i <= n,
            flags@ == full_scope(i as nat),
        decreases n - i,
    {
        flags.push(true);
        assert(flags@ =~= full_scope((i + 1) as nat));
        i += 1;
    }
    flags
}

/// Renders a model as Archi native XML with the given identifiers.
#[verifier::rlimit(40)]
#[verifier::spinoff_prover]
pub fn model_to_xml_with_ids(model: &Model, layout: &DiagramLayout, ids: &XmlIds) -> (res: String)
    requires
        model.endpoints_resolve(),
        ids_fit(*ids, *model),
        layout_fits(*layout, *model),
    ensures
        res@ == archi_xml(*model, *layout, *ids),
{
    let mut xml = String::new();
    xml.append("<?xml version=\"1.0\" encoding=\"UTF-8\" standalone=\"yes\"?>\n");
    xml.append("<archimate:model xmlns:xsi=\"http://www.w3.org/2001/XMLSchema-instance\" xmlns:archimate=\"http://www.archimatetool.com/archimate\" name=\"");
    xml.append(xml_escape(model.model_name()).as_str());
    xml.append("\" id=\"");
    xml.append(ids.model.as_str());
    xml.append("\" version=\"5.0.0\">");
    xml.append("\n");
    emit_element_folders(&mut xml, model, &ids.folders);
    emit_relations(&mut xml, model, &ids.folders[7]);
    let ghost before_views = xml@;
    if model.element_count() > 0 {
        xml.append("  <folder name=\"Views\" id=\"");
        xml.append(ids.folders[8].as_str());
        xml.append("\" type=\"diagrams\">\n");
        let vps = model.viewpoints();
        if vps.len() == 0 {
            let scope = full_scope_flags(model.element_count());
            emit_diagram(&mut xml, model, layout, &ids.children, &ids.connections[0], &scope, "Default View", None, ids.default_diagram.as_str());
        } else {
            let ghost head = xml@;
            let mut k: usize = 0;
            while k < vps.len()
                invariant
                    0 <= k <= vps@.len(),
                    vps@ == model.spec_viewpoints(),
                    model.endpoints_resolve(),
                    ids_fit(*ids, *model),
                    xml@ == head + viewpoint_diagrams_text(*model, *layout, *ids, k as nat),
                decreases vps@.len() - k,
            {
                let vp = &vps[k];
                let scope = viewpoint_scope_flags(model, vp);
                emit_diagram(
                    &mut xml,
                    model,
                    layout,
                    &ids.children,
                    &ids.connections[k],
                    &scope,
                    vp.name.as_str(),
                    Some(vp.kind.as_viewpoint_name()),
                    vp.id.as_str(),
                );
                k += 1;
            }
        }
        xml.append("  </folder>\n");
    }
    assert(xml@ =~= before_views + views_block(*model, *layout, *ids));
    xml.append("</archimate:model>\n");
    assert(xml@ =~= archi_xml(*model, *layout, *ids));
    xml
}

/// The hyphenated lower-case form of a UUID: 32 hexadecimal digits in
/// groups of 8, 4, 4, 4 and 12, separated by hyphens.
pub open spec fn hyphenated_uuid(s: Seq<char>) -> bool {
    &&& s.len() == 36
    &&& forall|i: int| 0 <= i < 36 ==> if i == 8 || i == 13 || i == 18 || i == 23 {
        #[trigger] s[i] == '-'
    } else {
        ('0' <= s[i] <= '9') || ('a' <= s[i] <= 'f')
    }
}

/// A fresh random identifier.
///
/// Calls `uuid::Uuid::new_v4` and renders it with `Display`, which the uuid
/// crate writes in hyphenated lower-case form (`Uuid::as_hyphenated`), 36
/// characters long (`uuid::fmt::Hyphenated::LENGTH`). The value itself is random.
/// The uuid crate panics when the operating system's random source fails,
/// which no argument can rule out (as running out of memory).
#[verifier::external_body]
fn new_uuid() -> (res: String)
    ensures
        hyphenated_uuid(res@),
{
    uuid::Uuid::new_v4().to_string()
}

/// `n` fresh random identifiers.
fn new_uuids(n: usize) -> (res: Vec<String>)
    ensures
        res@.len() == n,
        forall|i: int| 0 <= i < n ==> hyphenated_uuid((#[trigger] res@[i])@),
{
    let mut v: Vec<String> = Vec::new();
    let mut i: usize = 0;
    while i < n
        invariant
            0 <= i <= n,
            v@.len() == i,
            forall|j: int| 0 <= j < i ==> hyphenated_uuid((#[trigger] v@[j])@),
        decreases n - i,
    {
        v.push(new_uuid());
        i += 1;
    }
    v
}

/// Serializes a model to Archi native XML.
///
/// Element and relationship ids come verbatim from the model's original
/// ids; the model, folders, diagram objects, connections and the default
/// view get fresh random identifiers. Always `Ok`.
pub fn model_to_xml(model: &Model, layout: &DiagramLayout) -> (res: Result<String, XmlError>)
    requires
        model.endpoints_resolve(),
        layout_fits(*layout, *model),
    ensures
        res matches Ok(text) && exists|ids: XmlIds| #[trigger] ids_fit(ids, *model) && ids_are_uuids(ids)
            && text@ == archi_xml(*model, *layout, ids),
{
    let n_diagrams: usize = if model.viewpoints().len() == 0 { 1 } else { model.viewpoints().len() };
    let mut connections: Vec<Vec<String>> = Vec::new();
    let mut k: usize = 0;
    while k < n_diagrams
        invariant
            0 <= k <= n_diagrams,
            connections@.len() == k,
            forall|j: int| 0 <= j < k ==> (#[trigger] connections@[j])@.len() == model.spec_relations().len(),
            forall|j: int, i: int| 0 <= j < k && 0 <= i < connections@[j]@.len()
                ==> hyphenated_uuid((#[trigger] connections@[j]@[i])@),
        decreases n_diagrams - k,
    {
        connections.push(new_uuids(model.relation_count()));
        k += 1;
    }
    let ids = XmlIds {
        model: new_uuid(),
        folders: new_uuids(9),
        default_diagram: new_uuid(),
        children: new_uuids(model.element_count()),
        connections,
    };
    assert(n_diagrams == diagram_count(*model));
    assert(ids_fit(ids, *model));
    assert(ids_are_uuids(ids));
    let text = model_to_xml_with_ids(model, layout, &ids);
    Ok(text)
}

} // verus!
