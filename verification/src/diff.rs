//! Model diff analysis: compare two models by element name.
//!
//! Matching is done by `name`, not by id, because generated ids and
//! hand-written ids are different representations of the same entity.
use vstd::prelude::*;
use crate::model::{Element, ElementKind, Model};
use crate::text::{distinct_texts, has_text, lemma_seq_lt_irreflexive, lemma_seq_lt_transitive, seq_lt, sort_texts, str_eq, strictly_sorted};

verus! {

/// Type of reference error encountered during diff analysis.
#[derive(Debug, Clone, Copy, PartialEq, Eq, Structural)]
pub enum ReferenceErrorType {
    /// A relationship references a non-existent element id.
    UndefinedId,
}

/// A reference error found in a model.
#[derive(Debug, Clone)]
pub struct ReferenceError {
    pub id: String,
    pub error_type: ReferenceErrorType,
}

/// Result of comparing two models by element name.
#[derive(Debug, Clone)]
pub struct DiffReport {
    /// Element names present in the new model but not in the existing one.
    pub added: Vec<String>,
    /// Element names present in the existing model but not in the new one.
    pub removed: Vec<String>,
    /// Element names present in both but with a different kind.
    pub modified: Vec<String>,
}

impl Default for DiffReport {
    fn default() -> (r: DiffReport)
        ensures
            r.added@.len() == 0,
            r.removed@.len() == 0,
            r.modified@.len() == 0,
    {
        DiffReport { added: Vec::new(), removed: Vec::new(), modified: Vec::new() }
    }
}

/// The kind recorded for each element name, where a later element with the
/// same name replaces an earlier one.
pub open spec fn name_kinds(elems: Seq<Element>) -> Map<Seq<char>, ElementKind>
    decreases elems.len(),
{
    if elems.len() == 0 {
        Map::empty()
    } else {
        name_kinds(elems.drop_last()).insert(elems.last().name@, elems.last().kind)
    }
}

/// Names in `new` that `old` does not have.
pub open spec fn added_names(old: Map<Seq<char>, ElementKind>, new: Map<Seq<char>, ElementKind>) -> Set<Seq<char>> {
    Set::new(|n: Seq<char>| new.contains_key(n) && !old.contains_key(n))
}

/// Names in `old` that `new` does not have.
pub open spec fn removed_names(old: Map<Seq<char>, ElementKind>, new: Map<Seq<char>, ElementKind>) -> Set<Seq<char>> {
    Set::new(|n: Seq<char>| old.contains_key(n) && !new.contains_key(n))
}

/// Names in both maps whose kinds differ.
pub open spec fn modified_names(old: Map<Seq<char>, ElementKind>, new: Map<Seq<char>, ElementKind>) -> Set<Seq<char>> {
    Set::new(|n: Seq<char>| new.contains_key(n) && old.contains_key(n) && new[n] != old[n])
}

/// `v` lists exactly the names of `s`, in strictly increasing order.
pub open spec fn lists_sorted(v: Seq<String>, s: Set<Seq<char>>) -> bool {
    &&& strictly_sorted(v)
    &&& forall|y: Seq<char>| has_text(v, y) <==> s.contains(y)
}

/// `r` reports how `new` differs from `old`: the names added, removed and
/// modified, each listed in strictly increasing order.
pub open spec fn diff_report_of(r: DiffReport, old: Map<Seq<char>, ElementKind>, new: Map<Seq<char>, ElementKind>) -> bool {
    &&& lists_sorted(r.added@, added_names(old, new))
    &&& lists_sorted(r.removed@, removed_names(old, new))
    &&& lists_sorted(r.modified@, modified_names(old, new))
}

/// Two lists hold the same texts in the same order.
pub open spec fn same_texts(a: Seq<String>, b: Seq<String>) -> bool {
    &&& a.len() == b.len()
    &&& forall|i: int| 0 <= i < a.len() ==> (#[trigger] a[i])@ == b[i]@
}

/// The table `t` holds exactly the entries of `m`, each name once.
pub open spec fn represents(t: Seq<(String, ElementKind)>, m: Map<Seq<char>, ElementKind>) -> bool {
    &&& forall|i: int| 0 <= i < t.len() ==> m.contains_key((#[trigger] t[i]).0@) && m[t[i].0@] == t[i].1
    &&& forall|n: Seq<char>| #[trigger] m.contains_key(n) ==> exists|i: int| 0 <= i < t.len() && (#[trigger] t[i]).0@ == n
    &&& forall|i: int, j: int| 0 <= i < j < t.len() ==> (#[trigger] t[i]).0@ != (#[trigger] t[j]).0@
}

/// Finds the entry of `t` for `name`.
fn lookup(t: &Vec<(String, ElementKind)>, name: &str) -> (res: Option<usize>)
    ensures
        match res {
            Some(i) => i < t@.len() && t@[i as int].0@ == name@,
            None => forall|i: int| 0 <= i < t@.len() ==> (#[trigger] t@[i]).0@ != name@,
        },
{
    let mut i: usize = 0;
    while i < t.len()
        invariant
            0 <= i <= t@.len(),
            forall|j: int| 0 <= j < i ==> (#[trigger] t@[j]).0@ != name@,
        decreases t@.len() - i,
    {
        if str_eq(t[i].0.as_str(), name) {
            return Some(i);
        }
        i += 1;
    }
    None
}

/// Indexes elements by name, recording the kind of the last element of each name.
fn name_kind_table(elems: &[Element]) -> (t: Vec<(String, ElementKind)>)
    ensures
        represents(t@, name_kinds(elems@)),
{
    let mut t: Vec<(String, ElementKind)> = Vec::new();
    let mut i: usize = 0;
    while i < elems.len()
        invariant
            0 <= i <= elems@.len(),
            represents(t@, name_kinds(elems@.take(i as int))),
        decreases elems@.len() - i,
    {
        let e = &elems[i];
        assert(elems@.take(i + 1).drop_last() == elems@.take(i as int));
        let ghost before = t@;
        let ghost m = name_kinds(elems@.take(i as int));
        let ghost m2 = m.insert(e.name@, e.kind);
        assert(name_kinds(elems@.take(i + 1)) == m2);
        match lookup(&t, e.name.as_str()) {
            Some(j) => {
                let name = t[j].0.clone();
                t.set(j, (name, e.kind));
                assert forall|n: Seq<char>| #[trigger] m2.contains_key(n) implies exists|k: int| 0 <= k < t@.len() && (#[trigger] t@[k]).0@ == n by {
                    if n != e.name@ {
                        let k = choose|k: int| 0 <= k < before.len() && (#[trigger] before[k]).0@ == n;
                        assert(t@[k].0@ == n);
                    } else {
                        assert(t@[j as int].0@ == n);
                    }
                }
            },
            None => {
                t.push((e.name.clone(), e.kind));
                assert forall|n: Seq<char>| #[trigger] m2.contains_key(n) implies exists|k: int| 0 <= k < t@.len() && (#[trigger] t@[k]).0@ == n by {
                    if n != e.name@ {
                        let k = choose|k: int| 0 <= k < before.len() && (#[trigger] before[k]).0@ == n;
                        assert(t@[k].0@ == n);
                    } else {
                        assert(t@[before.len() as int].0@ == n);
                    }
                }
            },
        }
        i += 1;
    }
    assert(elems@.take(elems@.len() as int) == elems@);
    t
}

/// Compares a new model against a previously-seen "existing" model.
///
/// Build with [`ModelDiffAnalyzer::from_existing`], then call
/// [`ModelDiffAnalyzer::analyze_update`] with the new model.
pub struct ModelDiffAnalyzer {
    /// Name and kind of every element of the existing model.
    existing: Vec<(String, ElementKind)>,
    /// The name-to-kind map that `existing` holds.
    known: Ghost<Map<Seq<char>, ElementKind>>,
}

impl ModelDiffAnalyzer {
    #[verifier::type_invariant]
    spec fn inv(self) -> bool {
        represents(self.existing@, self.known@)
    }

    /// The kind recorded for each element name of the existing model.
    pub closed spec fn known(&self) -> Map<Seq<char>, ElementKind> {
        self.known@
    }

    /// Create an analyzer from an existing model: every element is indexed by
    /// its name, a later element replacing an earlier one of the same name.
    pub fn from_existing(model: &Model) -> (res: ModelDiffAnalyzer)
        ensures
            res.known() == name_kinds(model.spec_elements()),
    {
        let existing = name_kind_table(model.elements_slice());
        ModelDiffAnalyzer { existing, known: Ghost(name_kinds(model.spec_elements())) }
    }

    /// Analyze how a new model differs from the existing one.
    ///
    /// Always `Ok`: the names added, removed and modified (same name, other
    /// kind), each list sorted and free of repeats.
    pub fn analyze_update(&self, new_model: &Model) -> (res: Result<DiffReport, Vec<ReferenceError>>)
        ensures
            res matches Ok(r) && diff_report_of(r, self.known(), name_kinds(new_model.spec_elements())),
    {
        proof {
            use_type_invariant(self);
        }
        let ghost old_map = self.known();
        let ghost new_map = name_kinds(new_model.spec_elements());
        let new_t = name_kind_table(new_model.elements_slice());
        let mut added: Vec<String> = Vec::new();
        let mut modified: Vec<String> = Vec::new();
        let mut i: usize = 0;
        while i < new_t.len()
            invariant
                represents(new_t@, new_map),
                represents(self.existing@, old_map),
                0 <= i <= new_t@.len(),
                forall|y: Seq<char>| has_text(added@, y) <==> exists|k: int| 0 <= k < i && (#[trigger] new_t@[k]).0@ == y && !old_map.contains_key(y),
                forall|y: Seq<char>| has_text(modified@, y) <==> exists|k: int| 0 <= k < i && (#[trigger] new_t@[k]).0@ == y && old_map.contains_key(y) && old_map[y] != new_t@[k].1,
                distinct_texts(added@),
                distinct_texts(modified@),
            decreases new_t@.len() - i,
        {
            let ghost y0 = new_t@[i as int].0@;
            let ghost prev_added = added@;
            let ghost prev_modified = modified@;
            match lookup(&self.existing, new_t[i].0.as_str()) {
                None => {
                    added.push(new_t[i].0.clone());
                    assert(!old_map.contains_key(y0)) by {
                        if old_map.contains_key(y0) {
                            let k = choose|k: int| 0 <= k < self.existing@.len() && (#[trigger] self.existing@[k]).0@ == y0;
                        }
                    }
                },
                Some(j) => {
                    assert(old_map.contains_key(y0) && old_map[y0] == self.existing@[j as int].1);
                    if self.existing[j].1 != new_t[i].1 {
                        modified.push(new_t[i].0.clone());
                    }
                },
            }
            assert forall|y: Seq<char>| has_text(added@, y) <==> exists|k: int| 0 <= k < i + 1 && (#[trigger] new_t@[k]).0@ == y && !old_map.contains_key(y) by {
                if has_text(added@, y) {
                    let a = choose|a: int| 0 <= a < added@.len() && (#[trigger] added@[a])@ == y;
                    if a < prev_added.len() {
                        assert(prev_added[a]@ == y);
                        assert(has_text(prev_added, y));
                    } else {
                        assert(new_t@[i as int].0@ == y);
                    }
                }
                if exists|k: int| 0 <= k < i && (#[trigger] new_t@[k]).0@ == y && !old_map.contains_key(y) {
                    assert(has_text(prev_added, y));
                    let a = choose|a: int| 0 <= a < prev_added.len() && (#[trigger] prev_added[a])@ == y;
                    assert(added@[a]@ == y);
                }
                if y == y0 && !old_map.contains_key(y) {
                    assert(added@[prev_added.len() as int]@ == y);
                }
            }
            assert forall|y: Seq<char>| has_text(modified@, y) <==> exists|k: int| 0 <= k < i + 1 && (#[trigger] new_t@[k]).0@ == y && old_map.contains_key(y) && old_map[y] != new_t@[k].1 by {
                if has_text(modified@, y) {
                    let a = choose|a: int| 0 <= a < modified@.len() && (#[trigger] modified@[a])@ == y;
                    if a < prev_modified.len() {
                        assert(prev_modified[a]@ == y);
                        assert(has_text(prev_modified, y));
                    } else {
                        assert(new_t@[i as int].0@ == y);
                    }
                }
                if exists|k: int| 0 <= k < i && (#[trigger] new_t@[k]).0@ == y && old_map.contains_key(y) && old_map[y] != new_t@[k].1 {
                    assert(has_text(prev_modified, y));
                    let a = choose|a: int| 0 <= a < prev_modified.len() && (#[trigger] prev_modified[a])@ == y;
                    assert(modified@[a]@ == y);
                }
                if y == y0 && old_map.contains_key(y) && old_map[y] != new_t@[i as int].1 {
                    assert(modified@[prev_modified.len() as int]@ == y);
                }
            }
            assert(distinct_texts(added@)) by {
                if added@.len() > prev_added.len() {
                    assert forall|a: int| 0 <= a < prev_added.len() implies (#[trigger] prev_added[a])@ != y0 by {
                        assert(has_text(prev_added, prev_added[a]@));
                    }
                }
            }
            assert(distinct_texts(modified@)) by {
                if modified@.len() > prev_modified.len() {
                    assert forall|a: int| 0 <= a < prev_modified.len() implies (#[trigger] prev_modified[a])@ != y0 by {
                        assert(has_text(prev_modified, prev_modified[a]@));
                    }
                }
            }
            i += 1;
        }
        let mut removed: Vec<String> = Vec::new();
        let mut j: usize = 0;
        while j < self.existing.len()
            invariant
                represents(new_t@, new_map),
                represents(self.existing@, old_map),
                0 <= j <= self.existing@.len(),
                forall|y: Seq<char>| has_text(removed@, y) <==> exists|k: int| 0 <= k < j && (#[trigger] self.existing@[k]).0@ == y && !new_map.contains_key(y),
                distinct_texts(removed@),
            decreases self.existing@.len() - j,
        {
            let ghost y0 = self.existing@[j as int].0@;
            let ghost prev_removed = removed@;
            let found = lookup(&new_t, self.existing[j].0.as_str());
            if let Some(k) = found {
                assert(new_map.contains_key(y0));
            }
            if found.is_none() {
                removed.push(self.existing[j].0.clone());
                assert(!new_map.contains_key(y0)) by {
                    if new_map.contains_key(y0) {
                        let k = choose|k: int| 0 <= k < new_t@.len() && (#[trigger] new_t@[k]).0@ == y0;
                    }
                }
            }
            assert forall|y: Seq<char>| has_text(removed@, y) <==> exists|k: int| 0 <= k < j + 1 && (#[trigger] self.existing@[k]).0@ == y && !new_map.contains_key(y) by {
                if has_text(removed@, y) {
                    let a = choose|a: int| 0 <= a < removed@.len() && (#[trigger] removed@[a])@ == y;
                    if a < prev_removed.len() {
                        assert(prev_removed[a]@ == y);
                        assert(has_text(prev_removed, y));
                    } else {
                        assert(self.existing@[j as int].0@ == y);
                    }
                }
                if exists|k: int| 0 <= k < j && (#[trigger] self.existing@[k]).0@ == y && !new_map.contains_key(y) {
                    assert(has_text(prev_removed, y));
                    let a = choose|a: int| 0 <= a < prev_removed.len() && (#[trigger] prev_removed[a])@ == y;
                    assert(removed@[a]@ == y);
                }
                if y == y0 && !new_map.contains_key(y) {
                    assert(removed@[prev_removed.len() as int]@ == y);
                }
            }
            assert(distinct_texts(removed@)) by {
                if removed@.len() > prev_removed.len() {
                    assert forall|a: int| 0 <= a < prev_removed.len() implies (#[trigger] prev_removed[a])@ != y0 by {
                        assert(has_text(prev_removed, prev_removed[a]@));
                    }
                }
            }
            j += 1;
        }
        let added = sort_texts(added);
        let removed = sort_texts(removed);
        let modified = sort_texts(modified);
        assert forall|y: Seq<char>| has_text(added@, y) <==> added_names(old_map, new_map).contains(y) by {
            if new_map.contains_key(y) && !old_map.contains_key(y) {
                let k = choose|k: int| 0 <= k < new_t@.len() && (#[trigger] new_t@[k]).0@ == y;
            }
        }
        assert forall|y: Seq<char>| has_text(modified@, y) <==> modified_names(old_map, new_map).contains(y) by {
            if new_map.contains_key(y) && old_map.contains_key(y) && new_map[y] != old_map[y] {
                let k = choose|k: int| 0 <= k < new_t@.len() && (#[trigger] new_t@[k]).0@ == y;
            }
        }
        assert forall|y: Seq<char>| has_text(removed@, y) <==> removed_names(old_map, new_map).contains(y) by {
            if old_map.contains_key(y) && !new_map.contains_key(y) {
                let k = choose|k: int| 0 <= k < self.existing@.len() && (#[trigger] self.existing@[k]).0@ == y;
            }
        }
        Ok(DiffReport { added, removed, modified })
    }
}

/// Comparing a model with itself finds nothing added, removed or modified.
pub proof fn lemma_identical_models_empty_diff(elems: Seq<Element>)
    ensures
        added_names(name_kinds(elems), name_kinds(elems)).is_empty(),
        removed_names(name_kinds(elems), name_kinds(elems)).is_empty(),
        modified_names(name_kinds(elems), name_kinds(elems)).is_empty(),
{
    let m = name_kinds(elems);
    assert(added_names(m, m) =~= Set::empty());
    assert(removed_names(m, m) =~= Set::empty());
    assert(modified_names(m, m) =~= Set::empty());
}

/// A sorted listing of the empty set is empty.
pub proof fn lemma_listing_of_empty_set(v: Seq<String>, s: Set<Seq<char>>)
    requires
        lists_sorted(v, s),
        s.is_empty(),
    ensures
        v.len() == 0,
{
    if v.len() > 0 {
        assert(has_text(v, v[0]@));
        assert(s.contains(v[0]@));
    }
}

/// Comparing in the other direction swaps what was added with what was
/// removed, and finds the same names modified.
pub proof fn lemma_diff_reversed(old: Seq<Element>, new: Seq<Element>)
    ensures
        added_names(name_kinds(old), name_kinds(new)) == removed_names(name_kinds(new), name_kinds(old)),
        removed_names(name_kinds(old), name_kinds(new)) == added_names(name_kinds(new), name_kinds(old)),
        modified_names(name_kinds(old), name_kinds(new)) == modified_names(name_kinds(new), name_kinds(old)),
{
    let a = name_kinds(old);
    let b = name_kinds(new);
    assert(added_names(a, b) =~= removed_names(b, a));
    assert(removed_names(a, b) =~= added_names(b, a));
    assert(modified_names(a, b) =~= modified_names(b, a));
}

/// No name is reported in two of the lists at once.
pub proof fn lemma_diff_lists_disjoint(old: Seq<Element>, new: Seq<Element>, n: Seq<char>)
    ensures
        !(added_names(name_kinds(old), name_kinds(new)).contains(n) && removed_names(name_kinds(old), name_kinds(new)).contains(n)),
        !(added_names(name_kinds(old), name_kinds(new)).contains(n) && modified_names(name_kinds(old), name_kinds(new)).contains(n)),
        !(removed_names(name_kinds(old), name_kinds(new)).contains(n) && modified_names(name_kinds(old), name_kinds(new)).contains(n)),
{
}

/// A sorted listing without its first entry lists the set without that entry.
proof fn lemma_listing_rest(v: Seq<String>, s: Set<Seq<char>>)
    requires
        lists_sorted(v, s),
        v.len() > 0,
    ensures
        lists_sorted(v.drop_first(), s.remove(v[0]@)),
{
    let v2 = v.drop_first();
    assert forall|i: int, j: int| 0 <= i < j < v2.len() implies seq_lt(#[trigger] v2[i]@, #[trigger] v2[j]@) by {
        assert(seq_lt(v[i + 1]@, v[j + 1]@));
    }
    assert forall|y: Seq<char>| has_text(v2, y) <==> s.remove(v[0]@).contains(y) by {
        if has_text(v2, y) {
            let i = choose|i: int| 0 <= i < v2.len() && (#[trigger] v2[i])@ == y;
            assert(v[i + 1]@ == y);
            assert(seq_lt(v[0]@, v[i + 1]@));
            lemma_seq_lt_irreflexive(y);
            assert(has_text(v, y));
        }
        if s.remove(v[0]@).contains(y) {
            assert(has_text(v, y));
            let i = choose|i: int| 0 <= i < v.len() && (#[trigger] v[i])@ == y;
            assert(v2[i - 1]@ == y);
        }
    }
}

/// A set has one sorted listing: two strictly increasing listings of the
/// same set hold the same texts in the same order.
pub proof fn lemma_sorted_listing_unique(v: Seq<String>, w: Seq<String>, s: Set<Seq<char>>)
    requires
        lists_sorted(v, s),
        lists_sorted(w, s),
    ensures
        same_texts(v, w),
    decreases v.len(),
{
    if v.len() == 0 {
        if w.len() > 0 {
            assert(has_text(w, w[0]@));
        }
    } else {
        if w.len() == 0 {
            assert(has_text(v, v[0]@));
        } else {
            let a = v[0]@;
            let b = w[0]@;
            assert(has_text(v, a));
            assert(has_text(w, b));
            if a != b {
                let j = choose|j: int| 0 <= j < w.len() && (#[trigger] w[j])@ == a;
                let k = choose|k: int| 0 <= k < v.len() && (#[trigger] v[k])@ == b;
                assert(seq_lt(w[0]@, w[j]@));
                assert(seq_lt(v[0]@, v[k]@));
                lemma_seq_lt_transitive(a, b, a);
                lemma_seq_lt_irreflexive(a);
            }
            lemma_listing_rest(v, s);
            lemma_listing_rest(w, s);
            lemma_sorted_listing_unique(v.drop_first(), w.drop_first(), s.remove(a));
            assert forall|i: int| 0 <= i < v.len() implies (#[trigger] v[i])@ == w[i]@ by {
                if i > 0 {
                    assert(v.drop_first()[i - 1]@ == w.drop_first()[i - 1]@);
                }
            }
        }
    }
}

/// Comparing two models in the other direction swaps the added and removed
/// lists and gives the same modified list: if `r1` reports `new` against
/// `old` and `r2` reports `old` against `new`, then `r1.added` is
/// `r2.removed`, `r1.removed` is `r2.added` and `r1.modified` is `r2.modified`.
pub proof fn lemma_reports_reversed(old: Seq<Element>, new: Seq<Element>, r1: DiffReport, r2: DiffReport)
    requires
        diff_report_of(r1, name_kinds(old), name_kinds(new)),
        diff_report_of(r2, name_kinds(new), name_kinds(old)),
    ensures
        same_texts(r1.added@, r2.removed@),
        same_texts(r1.removed@, r2.added@),
        same_texts(r1.modified@, r2.modified@),
{
    lemma_diff_reversed(old, new);
    lemma_sorted_listing_unique(r1.added@, r2.removed@, added_names(name_kinds(old), name_kinds(new)));
    lemma_sorted_listing_unique(r1.removed@, r2.added@, removed_names(name_kinds(old), name_kinds(new)));
    lemma_sorted_listing_unique(r1.modified@, r2.modified@, modified_names(name_kinds(old), name_kinds(new)));
}

/// A report depends only on the element names and kinds of the two models:
/// existing models whose elements give the same name-to-kind map (a later
/// element of a name overriding an earlier one) yield the same report
/// against any new model, whatever their relationships, names or viewpoints.
pub proof fn lemma_report_depends_on_names_and_kinds(
    old1: Seq<Element>,
    old2: Seq<Element>,
    new: Seq<Element>,
    r1: DiffReport,
    r2: DiffReport,
)
    requires
        name_kinds(old1) == name_kinds(old2),
        diff_report_of(r1, name_kinds(old1), name_kinds(new)),
        diff_report_of(r2, name_kinds(old2), name_kinds(new)),
    ensures
        same_texts(r1.added@, r2.added@),
        same_texts(r1.removed@, r2.removed@),
        same_texts(r1.modified@, r2.modified@),
{
    lemma_sorted_listing_unique(r1.added@, r2.added@, added_names(name_kinds(old1), name_kinds(new)));
    lemma_sorted_listing_unique(r1.removed@, r2.removed@, removed_names(name_kinds(old1), name_kinds(new)));
    lemma_sorted_listing_unique(r1.modified@, r2.modified@, modified_names(name_kinds(old1), name_kinds(new)));
}

} // verus!
