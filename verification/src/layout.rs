//! Automatic grid placement of a model's elements, by topological layer.
//!
//! Each connected component of the model graph gets its own column, the
//! components ordered by their least element; inside a component an element
//! sits one row below the deepest of its predecessors.
use vstd::prelude::*;
use vstd::string::StringExecFns;
use crate::io::xml::XmlError;
use crate::io::xml_write::{archi_xml, ids_are_uuids, ids_fit, layout_fits, model_to_xml, Bounds, DiagramLayout, XmlIds};
use crate::model::{ElementId, Model, Relationship};
use crate::text::{decimal, push_decimal};

verus! {

/// Elements `u` and `v` are joined by a relationship, in either direction.
pub open spec fn linked(rs: Seq<Relationship>, u: int, v: int) -> bool {
    exists|i: int| 0 <= i < rs.len() && {
        ||| (#[trigger] rs[i]).source.0 == u && rs[i].target.0 == v
        ||| rs[i].source.0 == v && rs[i].target.0 == u
    }
}

/// `p` walks along relationships, whatever their direction.
pub open spec fn is_walk(rs: Seq<Relationship>, p: Seq<int>) -> bool {
    forall|i: int| 0 <= i < p.len() - 1 ==> linked(rs, #[trigger] p[i], p[i + 1])
}

/// `u` and `v` lie in the same connected component: some walk leads from `u` to `v`.
pub open spec fn joined(rs: Seq<Relationship>, u: int, v: int) -> bool {
    exists|p: Seq<int>| #[trigger] is_walk(rs, p) && p.len() > 0 && p[0] == u && p.last() == v
}

/// `u` is the least element of the component of `v`.
pub open spec fn least_joined(rs: Seq<Relationship>, u: int, v: int) -> bool {
    &&& joined(rs, u, v)
    &&& forall|w: int| #[trigger] joined(rs, w, v) ==> u <= w
}

/// Every relationship joins elements below `n`.
pub open spec fn endpoints_below(rs: Seq<Relationship>, n: nat) -> bool {
    forall|i: int| 0 <= i < rs.len() ==> (#[trigger] rs[i]).source.0 < n && rs[i].target.0 < n
}

/// Every element is joined to itself.
proof fn lemma_join_self(rs: Seq<Relationship>, v: int)
    ensures
        joined(rs, v, v),
{
    assert(is_walk(rs, seq![v]));
}

/// One more step extends a connection.
proof fn lemma_join_step(rs: Seq<Relationship>, u: int, w: int, v: int)
    requires
        joined(rs, u, w),
        linked(rs, w, v),
    ensures
        joined(rs, u, v),
{
    let p = choose|p: Seq<int>| #[trigger] is_walk(rs, p) && p.len() > 0 && p[0] == u && p.last() == w;
    let q = p.push(v);
    assert forall|i: int| 0 <= i < q.len() - 1 implies linked(rs, #[trigger] q[i], q[i + 1]) by {
        if i < p.len() - 1 {
            assert(linked(rs, p[i], p[i + 1]));
        }
    }
    assert(is_walk(rs, q));
}

/// Only elements below `n` are joined to an element below `n`.
proof fn lemma_joined_in_range(rs: Seq<Relationship>, n: nat, u: int, v: int)
    requires
        endpoints_below(rs, n),
        0 <= v < n,
        joined(rs, u, v),
    ensures
        0 <= u < n,
{
    let p = choose|p: Seq<int>| #[trigger] is_walk(rs, p) && p.len() > 0 && p[0] == u && p.last() == v;
    if p.len() > 1 {
        assert(linked(rs, p[0], p[1]));
        let i = choose|i: int| 0 <= i < rs.len() && {
            ||| (#[trigger] rs[i]).source.0 == p[0] && rs[i].target.0 == p[1]
            ||| rs[i].source.0 == p[1] && rs[i].target.0 == p[0]
        };
    }
}

/// Labels that agree across every relationship agree along a walk.
proof fn lemma_labels_along_walk(rs: Seq<Relationship>, lab: Seq<usize>, p: Seq<int>, j: int)
    requires
        forall|i: int| 0 <= i < rs.len() ==> lab[(#[trigger] rs[i]).source.0 as int] == lab[rs[i].target.0 as int],
        is_walk(rs, p),
        0 <= j < p.len(),
    ensures
        lab[p[0]] == lab[p[j]],
    decreases j,
{
    if j > 0 {
        lemma_labels_along_walk(rs, lab, p, j - 1);
        assert(linked(rs, p[j - 1], p[j]));
        let i = choose|i: int| 0 <= i < rs.len() && {
            ||| (#[trigger] rs[i]).source.0 == p[j - 1] && rs[i].target.0 == p[j]
            ||| rs[i].source.0 == p[j] && rs[i].target.0 == p[j - 1]
        };
    }
}

/// Labels that agree across every relationship agree across every connection.
proof fn lemma_labels_follow_joins(rs: Seq<Relationship>, lab: Seq<usize>, u: int, v: int)
    requires
        forall|i: int| 0 <= i < rs.len() ==> lab[(#[trigger] rs[i]).source.0 as int] == lab[rs[i].target.0 as int],
        joined(rs, u, v),
    ensures
        lab[u] == lab[v],
{
    let p = choose|p: Seq<int>| #[trigger] is_walk(rs, p) && p.len() > 0 && p[0] == u && p.last() == v;
    lemma_labels_along_walk(rs, lab, p, p.len() - 1);
}

/// The sum of the labels, which every relabelling lowers.
pub open spec fn label_total(s: Seq<usize>) -> int
    decreases s.len(),
{
    if s.len() == 0 { 0 } else { label_total(s.drop_last()) + s.last() }
}

proof fn lemma_label_total_update(s: Seq<usize>, i: int, x: usize)
    requires
        0 <= i < s.len(),
    ensures
        label_total(s.update(i, x)) == label_total(s) - s[i] + x,
        label_total(s) >= 0,
    decreases s.len(),
{
    let t = s.update(i, x);
    if i == s.len() - 1 {
        assert(t.drop_last() =~= s.drop_last());
    } else {
        assert(t.drop_last() =~= s.drop_last().update(i, x));
        lemma_label_total_update(s.drop_last(), i, x);
    }
    lemma_label_total_nonneg(s);
}

proof fn lemma_label_total_nonneg(s: Seq<usize>)
    ensures
        label_total(s) >= 0,
    decreases s.len(),
{
    if s.len() > 0 {
        lemma_label_total_nonneg(s.drop_last());
    }
}

/// The least element of the component of each element below `n`.
fn component_leaders(rels: &[Relationship], n: usize) -> (lab: Vec<usize>)
    requires
        endpoints_below(rels@, n as nat),
    ensures
        lab@.len() == n,
        forall|v: int| 0 <= v < n ==> least_joined(rels@, #[trigger] lab@[v] as int, v),
{
    let ghost rs = rels@;
    let mut lab: Vec<usize> = Vec::new();
    let mut v: usize = 0;
    while v < n
        invariant
            0 <= v <= n,
            lab@.len() == v,
            forall|u: int| 0 <= u < v ==> #[trigger] lab@[u] == u,
        decreases n - v,
    {
        lab.push(v);
        v += 1;
    }
    assert forall|u: int| 0 <= u < n implies joined(rs, #[trigger] lab@[u] as int, u) by {
        lemma_join_self(rs, u);
    }
    let mut changed = true;
    while changed
        invariant
            rs == rels@,
            endpoints_below(rs, n as nat),
            lab@.len() == n,
            forall|u: int| 0 <= u < n ==> #[trigger] lab@[u] <= u,
            forall|u: int| 0 <= u < n ==> joined(rs, #[trigger] lab@[u] as int, u),
            !changed ==> forall|i: int| 0 <= i < rs.len()
                ==> lab@[(#[trigger] rs[i]).source.0 as int] == lab@[rs[i].target.0 as int],
        decreases label_total(lab@) + if changed { 1int } else { 0int },
    {
        proof { lemma_label_total_nonneg(lab@); }
        let ghost start = lab@;
        changed = false;
        let mut i: usize = 0;
        while i < rels.len()
            invariant
                rs == rels@,
                endpoints_below(rs, n as nat),
                0 <= i <= rs.len(),
                lab@.len() == n,
                forall|u: int| 0 <= u < n ==> #[trigger] lab@[u] <= u,
                forall|u: int| 0 <= u < n ==> joined(rs, #[trigger] lab@[u] as int, u),
                changed ==> label_total(lab@) < label_total(start),
                !changed ==> lab@ == start,
                !changed ==> forall|j: int| 0 <= j < i
                    ==> lab@[(#[trigger] rs[j]).source.0 as int] == lab@[rs[j].target.0 as int],
            decreases rs.len() - i,
        {
            let a = rels[i].source.0;
            let b = rels[i].target.0;
            assert(a < n && b < n);
            let la = lab[a];
            let lb = lab[b];
            if lb < la {
                proof {
                    assert(linked(rs, b as int, a as int));
                    lemma_join_step(rs, lb as int, b as int, a as int);
                    lemma_label_total_update(lab@, a as int, lb);
                }
                lab.set(a, lb);
                changed = true;
            } else if la < lb {
                proof {
                    assert(linked(rs, a as int, b as int));
                    lemma_join_step(rs, la as int, a as int, b as int);
                    lemma_label_total_update(lab@, b as int, la);
                }
                lab.set(b, la);
                changed = true;
            }
            i += 1;
        }
        proof { lemma_label_total_nonneg(lab@); }
    }
    assert forall|v: int| 0 <= v < n implies least_joined(rels@, #[trigger] lab@[v] as int, v) by {
        assert forall|w: int| #[trigger] joined(rs, w, v) implies lab@[v] <= w by {
            lemma_joined_in_range(rs, n as nat, w, v);
            lemma_labels_follow_joins(rs, lab@, w, v);
        }
    }
    lab
}

/// A relationship leads from `u` to `v`.
pub open spec fn leads(rs: Seq<Relationship>, u: int, v: int) -> bool {
    exists|i: int| 0 <= i < rs.len() && (#[trigger] rs[i]).source.0 == u && rs[i].target.0 == v
}

/// `p` follows relationships in their direction.
pub open spec fn is_chain(rs: Seq<Relationship>, p: Seq<int>) -> bool {
    forall|i: int| 0 <= i < p.len() - 1 ==> leads(rs, #[trigger] p[i], p[i + 1])
}

/// Every chain of relationships ending at `v` has at most `b` elements.
pub open spec fn chains_bounded(rs: Seq<Relationship>, v: int, b: nat) -> bool {
    forall|p: Seq<int>| #[trigger] is_chain(rs, p) && p.len() > 0 && p.last() == v ==> p.len() <= b
}

/// The longest chain of relationships ending at `v` has `d` relationships.
pub open spec fn longest_chain(rs: Seq<Relationship>, v: int, d: nat) -> bool {
    &&& chains_bounded(rs, v, d + 1)
    &&& exists|p: Seq<int>| #[trigger] is_chain(rs, p) && p.len() == d + 1 && p.last() == v
}

/// No cycle lies upstream of `v`: the chains ending at `v` have a longest one.
pub open spec fn acyclic_above(rs: Seq<Relationship>, v: int) -> bool {
    exists|d: nat| #[trigger] longest_chain(rs, v, d)
}

/// The number of relationships on the longest chain ending at `v`.
pub open spec fn chain_depth(rs: Seq<Relationship>, v: int) -> nat {
    choose|d: nat| #[trigger] longest_chain(rs, v, d)
}

/// One row below the deepest of the first `m` relationships' sources that end
/// at `v` and have no cycle upstream; the first row when there is none.
pub open spec fn below_settled_sources(rs: Seq<Relationship>, v: int, m: nat) -> nat
    decreases m,
{
    if m == 0 || m > rs.len() {
        0
    } else {
        let before = below_settled_sources(rs, v, (m - 1) as nat);
        let u = rs[m - 1].source.0 as int;
        if rs[m - 1].target.0 == v && acyclic_above(rs, u) && chain_depth(rs, u) + 1 > before {
            chain_depth(rs, u) + 1
        } else {
            before
        }
    }
}

/// The row of element `v`: the length of the longest chain of relationships
/// ending at it; below a cycle, one row under its deepest predecessor that
/// has no cycle upstream.
pub open spec fn row_of(rs: Seq<Relationship>, v: int) -> nat {
    if acyclic_above(rs, v) {
        chain_depth(rs, v)
    } else {
        below_settled_sources(rs, v, rs.len())
    }
}

/// The longest chain is unique in length.
proof fn lemma_longest_chain_unique(rs: Seq<Relationship>, v: int, d: nat, e: nat)
    requires
        longest_chain(rs, v, d),
        longest_chain(rs, v, e),
    ensures
        d == e,
{
    let p = choose|p: Seq<int>| #[trigger] is_chain(rs, p) && p.len() == d + 1 && p.last() == v;
    let q = choose|q: Seq<int>| #[trigger] is_chain(rs, q) && q.len() == e + 1 && q.last() == v;
    assert(p.len() <= e + 1);
    assert(q.len() <= d + 1);
}

/// A chain followed by one more relationship is a chain.
proof fn lemma_chain_push(rs: Seq<Relationship>, p: Seq<int>, v: int)
    requires
        is_chain(rs, p),
        p.len() > 0,
        leads(rs, p.last(), v),
    ensures
        is_chain(rs, p.push(v)),
{
    let q = p.push(v);
    assert forall|i: int| 0 <= i < q.len() - 1 implies leads(rs, #[trigger] q[i], q[i + 1]) by {
        if i < p.len() - 1 {
            assert(leads(rs, p[i], p[i + 1]));
        }
    }
}

/// The chains ending at `v` are bounded by `k + 1` exactly when every
/// predecessor's are bounded by `k` (and `v` has none when `k` is zero).
proof fn lemma_round_bound(rs: Seq<Relationship>, v: int, k: nat)
    ensures
        (forall|i: int| 0 <= i < rs.len() && (#[trigger] rs[i]).target.0 == v
            ==> k > 0 && chains_bounded(rs, rs[i].source.0 as int, k)) <==> chains_bounded(rs, v, k + 1),
{
    if forall|i: int| 0 <= i < rs.len() && (#[trigger] rs[i]).target.0 == v
        ==> k > 0 && chains_bounded(rs, rs[i].source.0 as int, k) {
        assert forall|p: Seq<int>| #[trigger] is_chain(rs, p) && p.len() > 0 && p.last() == v implies p.len() <= k + 1 by {
            if p.len() > 1 {
                let u = p[p.len() - 2];
                assert(leads(rs, p[p.len() - 2], p[p.len() - 1]));
                let i = choose|i: int| 0 <= i < rs.len() && (#[trigger] rs[i]).source.0 == u && rs[i].target.0 == v;
                let q = p.drop_last();
                assert forall|j: int| 0 <= j < q.len() - 1 implies leads(rs, #[trigger] q[j], q[j + 1]) by {
                    assert(leads(rs, p[j], p[j + 1]));
                }
                assert(is_chain(rs, q));
                assert(chains_bounded(rs, u, k));
            }
        }
    }
    if chains_bounded(rs, v, k + 1) {
        assert forall|i: int| 0 <= i < rs.len() && (#[trigger] rs[i]).target.0 == v
            implies k > 0 && chains_bounded(rs, rs[i].source.0 as int, k) by {
            let u = rs[i].source.0 as int;
            assert(leads(rs, u, v));
            let two = seq![u, v];
            assert(leads(rs, two[0], two[1]));
            assert(is_chain(rs, two));
            assert forall|q: Seq<int>| #[trigger] is_chain(rs, q) && q.len() > 0 && q.last() == u implies q.len() <= k by {
                lemma_chain_push(rs, q, v);
                assert(q.push(v).last() == v);
            }
        }
    }
}

/// Below an element whose flag fails the fixpoint equation lie chains of every length.
proof fn lemma_unbounded(rs: Seq<Relationship>, flags: Seq<bool>, n: nat, v: int, b: nat)
    requires
        endpoints_below(rs, n),
        flags.len() == n,
        forall|u: int| 0 <= u < n ==> #[trigger] flags[u] == (forall|i: int| 0 <= i < rs.len() && (#[trigger] rs[i]).target.0 == u ==> flags[rs[i].source.0 as int]),
        0 <= v < n,
        !flags[v],
    ensures
        exists|p: Seq<int>| #[trigger] is_chain(rs, p) && p.len() > b && p.last() == v,
    decreases b,
{
    if b == 0 {
        let p = seq![v];
        assert(is_chain(rs, p));
    } else {
        assert(!(forall|i: int| 0 <= i < rs.len() && (#[trigger] rs[i]).target.0 == v ==> flags[rs[i].source.0 as int]));
        let i = choose|i: int| 0 <= i < rs.len() && (#[trigger] rs[i]).target.0 == v && !flags[rs[i].source.0 as int];
        let u = rs[i].source.0 as int;
        lemma_unbounded(rs, flags, n, u, (b - 1) as nat);
        let q = choose|q: Seq<int>| #[trigger] is_chain(rs, q) && q.len() > b - 1 && q.last() == u;
        assert(leads(rs, u, v));
        lemma_chain_push(rs, q, v);
        assert(q.push(v).last() == v);
    }
}

/// The number of set flags.
pub open spec fn count_set(s: Seq<bool>) -> nat
    decreases s.len(),
{
    if s.len() == 0 { 0 } else { count_set(s.drop_last()) + if s.last() { 1nat } else { 0nat } }
}

proof fn lemma_count_set_grows(s: Seq<bool>, t: Seq<bool>)
    requires
        s.len() == t.len(),
        forall|i: int| 0 <= i < s.len() && #[trigger] s[i] ==> t[i],
    ensures
        count_set(s) <= count_set(t),
        count_set(t) <= t.len(),
        (exists|i: int| 0 <= i < s.len() && !s[i] && #[trigger] t[i]) ==> count_set(s) < count_set(t),
    decreases s.len(),
{
    if s.len() > 0 {
        let s0 = s.drop_last();
        let t0 = t.drop_last();
        assert forall|i: int| 0 <= i < s0.len() && #[trigger] s0[i] implies t0[i] by {
            assert(s[i]);
        }
        lemma_count_set_grows(s0, t0);
        if exists|i: int| 0 <= i < s.len() && !s[i] && #[trigger] t[i] {
            let i = choose|i: int| 0 <= i < s.len() && !s[i] && #[trigger] t[i];
            if i < s.len() - 1 {
                assert(!s0[i] && t0[i]);
            }
        }
    }
}

/// The elements whose chains are bounded by `k + 1`, given those bounded by `k`.
fn next_round(rels: &[Relationship], n: usize, settled: &Vec<bool>, k: usize) -> (next: Vec<bool>)
    requires
        endpoints_below(rels@, n as nat),
        settled@.len() == n,
        forall|u: int| 0 <= u < n ==> #[trigger] settled@[u] == (k > 0 && chains_bounded(rels@, u, k as nat)),
    ensures
        next@.len() == n,
        forall|w: int| 0 <= w < n ==> #[trigger] next@[w] == chains_bounded(rels@, w, (k + 1) as nat),
{
    let ghost rs = rels@;
    let mut next: Vec<bool> = Vec::new();
    let mut u: usize = 0;
    while u < n
        invariant
            0 <= u <= n,
            next@.len() == u,
            forall|w: int| 0 <= w < u ==> #[trigger] next@[w],
        decreases n - u,
    {
        next.push(true);
        u += 1;
    }
    let mut i: usize = 0;
    while i < rels.len()
        invariant
            rs == rels@,
            endpoints_below(rs, n as nat),
            0 <= i <= rs.len(),
            settled@.len() == n,
            next@.len() == n,
            forall|w: int| 0 <= w < n ==> #[trigger] next@[w] == (forall|j: int| 0 <= j < i && (#[trigger] rs[j]).target.0 == w ==> settled@[rs[j].source.0 as int]),
        decreases rs.len() - i,
    {
        let a = rels[i].source.0;
        let b = rels[i].target.0;
        assert(a < n && b < n);
        if !settled[a] {
            next.set(b, false);
        }
        i += 1;
    }
    assert forall|w: int| 0 <= w < n implies #[trigger] next@[w] == chains_bounded(rs, w, (k + 1) as nat) by {
        lemma_round_bound(rs, w, k as nat);
        assert forall|j: int| 0 <= j < rs.len() && (#[trigger] rs[j]).target.0 == w implies
            settled@[rs[j].source.0 as int] == (k > 0 && chains_bounded(rs, rs[j].source.0 as int, k as nat)) by {
            assert(rs[j].source.0 < n);
        }
    }
    next
}

/// Whether two flag lists of one length differ somewhere.
fn differs(a: &Vec<bool>, b: &Vec<bool>) -> (res: bool)
    requires
        a@.len() == b@.len(),
    ensures
        res == exists|x: int| 0 <= x < a@.len() && #[trigger] a@[x] != b@[x],
{
    let mut w: usize = 0;
    while w < a.len()
        invariant
            0 <= w <= a@.len(),
            a@.len() == b@.len(),
            forall|x: int| 0 <= x < w ==> #[trigger] a@[x] == b@[x],
        decreases a@.len() - w,
    {
        if a[w] != b[w] {
            return true;
        }
        w += 1;
    }
    false
}

/// Moves to the next round: records round `k` as the depth of the newly settled elements.
fn record_round(rels: &[Relationship], n: usize, settled: &mut Vec<bool>, depth: &mut Vec<usize>, next: &Vec<bool>, k: usize)
    requires
        old(settled)@.len() == n,
        old(depth)@.len() == n,
        next@.len() == n,
        forall|x: int| 0 <= x < n ==> #[trigger] next@[x] == chains_bounded(rels@, x, (k + 1) as nat),
        forall|x: int| 0 <= x < n ==> #[trigger] old(settled)@[x] == (k > 0 && chains_bounded(rels@, x, k as nat)),
        forall|x: int| 0 <= x < n && #[trigger] old(settled)@[x] ==> old(depth)@[x] < k
            && longest_chain(rels@, x, old(depth)@[x] as nat),
    ensures
        final(settled)@ == next@,
        final(depth)@.len() == n,
        forall|x: int| 0 <= x < n && #[trigger] next@[x] ==> final(depth)@[x] < k + 1
            && longest_chain(rels@, x, final(depth)@[x] as nat),
{
    let ghost rs = rels@;
    let ghost before = settled@;
    let ghost old_depth = depth@;
    let mut w: usize = 0;
    while w < n
        invariant
            0 <= w <= n,
            rs == rels@,
            settled@.len() == n,
            depth@.len() == n,
            next@.len() == n,
            forall|x: int| 0 <= x < w ==> #[trigger] settled@[x] == next@[x],
            forall|x: int| w <= x < n ==> #[trigger] settled@[x] == before[x],
            forall|x: int| 0 <= x < n ==> #[trigger] next@[x] == chains_bounded(rs, x, (k + 1) as nat),
            forall|x: int| 0 <= x < n ==> #[trigger] before[x] == (k > 0 && chains_bounded(rs, x, k as nat)),
            forall|x: int| 0 <= x < n && #[trigger] before[x] ==> old_depth[x] < k && longest_chain(rs, x, old_depth[x] as nat),
            forall|x: int| w <= x < n ==> #[trigger] depth@[x] == old_depth[x],
            forall|x: int| 0 <= x < w && #[trigger] next@[x] ==> depth@[x] < k + 1 && longest_chain(rs, x, depth@[x] as nat),
        decreases n - w,
    {
        if next[w] && !settled[w] {
            proof {
                if k == 0 {
                    let p = seq![w as int];
                    assert(is_chain(rs, p));
                } else {
                    assert(!chains_bounded(rs, w as int, k as nat));
                    let p = choose|p: Seq<int>| #[trigger] is_chain(rs, p) && p.len() > 0 && p.last() == w as int && !(p.len() <= k);
                    assert(p.len() <= k + 1);
                }
            }
            depth.set(w, k);
        } else if next[w] {
            assert(before[w as int]);
        }
        settled.set(w, next[w]);
        w += 1;
    }
    assert(settled@ =~= next@);
}

/// The elements with no cycle upstream, and for each of them the length of
/// the longest chain ending at it.
fn settle(rels: &[Relationship], n: usize) -> (res: (Vec<bool>, Vec<usize>))
    requires
        endpoints_below(rels@, n as nat),
    ensures
        res.0@.len() == n,
        res.1@.len() == n,
        forall|u: int| 0 <= u < n ==> (#[trigger] res.0@[u]) == acyclic_above(rels@, u),
        forall|u: int| 0 <= u < n && #[trigger] res.0@[u] ==> res.1@[u] == chain_depth(rels@, u) && res.1@[u] < n,
{
    let ghost rs = rels@;
    let mut settled: Vec<bool> = Vec::new();
    let mut depth: Vec<usize> = Vec::new();
    let mut v: usize = 0;
    while v < n
        invariant
            0 <= v <= n,
            settled@.len() == v,
            depth@.len() == v,
            forall|u: int| 0 <= u < v ==> !(#[trigger] settled@[u]),
        decreases n - v,
    {
        settled.push(false);
        depth.push(0);
        v += 1;
    }
    proof { lemma_count_set_grows(settled@, settled@); }
    let mut k: usize = 0;
    let mut next = next_round(rels, n, &settled, k);
    while differs(&settled, &next)
        invariant
            rs == rels@,
            endpoints_below(rs, n as nat),
            settled@.len() == n,
            depth@.len() == n,
            next@.len() == n,
            k <= count_set(settled@),
            count_set(settled@) <= n,
            forall|u: int| 0 <= u < n ==> #[trigger] settled@[u] == (k > 0 && chains_bounded(rs, u, k as nat)),
            forall|u: int| 0 <= u < n ==> #[trigger] next@[u] == chains_bounded(rs, u, (k + 1) as nat),
            forall|u: int| 0 <= u < n && #[trigger] settled@[u] ==> depth@[u] < k && longest_chain(rs, u, depth@[u] as nat),
        decreases n - count_set(settled@),
    {
        proof {
            assert forall|w: int| 0 <= w < n && #[trigger] settled@[w] implies next@[w] by {
                assert(chains_bounded(rs, w, k as nat));
            }
            lemma_count_set_grows(settled@, next@);
        }
        record_round(rels, n, &mut settled, &mut depth, &next, k);
        k += 1;
        next = next_round(rels, n, &settled, k);
    }
    proof {
        assert forall|u: int| 0 <= u < n implies #[trigger] settled@[u] == (forall|i: int| 0 <= i < rs.len() && (#[trigger] rs[i]).target.0 == u ==> settled@[rs[i].source.0 as int]) by {
            lemma_round_bound(rs, u, k as nat);
            assert(settled@[u] == next@[u]);
            assert forall|i: int| 0 <= i < rs.len() && (#[trigger] rs[i]).target.0 == u implies
                settled@[rs[i].source.0 as int] == (k > 0 && chains_bounded(rs, rs[i].source.0 as int, k as nat)) by {
                assert(rs[i].source.0 < n);
            }
        }
        assert forall|u: int| 0 <= u < n implies (#[trigger] settled@[u]) == acyclic_above(rs, u) by {
            if settled@[u] {
                assert(longest_chain(rs, u, depth@[u] as nat));
            } else if acyclic_above(rs, u) {
                let d = choose|d: nat| #[trigger] longest_chain(rs, u, d);
                lemma_unbounded(rs, settled@, n as nat, u, d + 1);
            }
        }
        assert forall|u: int| 0 <= u < n && #[trigger] settled@[u] implies depth@[u] == chain_depth(rs, u) && depth@[u] < n by {
            assert(longest_chain(rs, u, depth@[u] as nat));
            lemma_longest_chain_unique(rs, u, chain_depth(rs, u), depth@[u] as nat);
        }
    }
    (settled, depth)
}

/// The row of every element below `n`.
fn element_rows(rels: &[Relationship], n: usize) -> (rows: Vec<usize>)
    requires
        endpoints_below(rels@, n as nat),
    ensures
        rows@.len() == n,
        forall|v: int| 0 <= v < n ==> #[trigger] rows@[v] == row_of(rels@, v),
{
    let ghost rs = rels@;
    let (settled, depth) = settle(rels, n);
    // Below a cycle: one row under the deepest predecessor with none upstream.
    let mut below: Vec<usize> = Vec::new();
    let mut u: usize = 0;
    while u < n
        invariant
            0 <= u <= n,
            below@.len() == u,
            forall|w: int| 0 <= w < u ==> #[trigger] below@[w] == 0,
        decreases n - u,
    {
        below.push(0);
        u += 1;
    }
    let mut i: usize = 0;
    while i < rels.len()
        invariant
            rs == rels@,
            endpoints_below(rs, n as nat),
            0 <= i <= rs.len(),
            settled@.len() == n,
            depth@.len() == n,
            below@.len() == n,
            forall|u: int| 0 <= u < n ==> (#[trigger] settled@[u]) == acyclic_above(rs, u),
            forall|u: int| 0 <= u < n && #[trigger] settled@[u] ==> depth@[u] == chain_depth(rs, u) && depth@[u] < n,
            forall|w: int| 0 <= w < n ==> #[trigger] below@[w] == below_settled_sources(rs, w, i as nat),
        decreases rs.len() - i,
    {
        let a = rels[i].source.0;
        let b = rels[i].target.0;
        assert(a < n && b < n);
        let ghost before = below@;
        if settled[a] && depth[a] + 1 > below[b] {
            below.set(b, depth[a] + 1);
        }
        assert forall|w: int| 0 <= w < n implies #[trigger] below@[w] == below_settled_sources(rs, w, (i + 1) as nat) by {
            assert(before[w] == below_settled_sources(rs, w, i as nat));
        }
        i += 1;
    }
    let mut rows: Vec<usize> = Vec::new();
    let mut u: usize = 0;
    while u < n
        invariant
            0 <= u <= n,
            rs == rels@,
            settled@.len() == n,
            depth@.len() == n,
            below@.len() == n,
            rows@.len() == u,
            forall|w: int| 0 <= w < n ==> (#[trigger] settled@[w]) == acyclic_above(rs, w),
            forall|w: int| 0 <= w < n && #[trigger] settled@[w] ==> depth@[w] == chain_depth(rs, w),
            forall|w: int| 0 <= w < n ==> #[trigger] below@[w] == below_settled_sources(rs, w, rs.len()),
            forall|w: int| 0 <= w < u ==> #[trigger] rows@[w] == row_of(rs, w),
        decreases n - u,
    {
        if settled[u] {
            rows.push(depth[u]);
        } else {
            rows.push(below[u]);
        }
        u += 1;
    }
    rows
}

/// Horizontal distance between the columns of two components.
pub const COMPONENT_OFFSET: u128 = 600;

/// Vertical distance between two rows.
pub const ROW_HEIGHT: u128 = 120;

/// The least element of the component of `v`.
pub open spec fn least_of(rs: Seq<Relationship>, v: int) -> int {
    choose|u: int| #[trigger] least_joined(rs, u, v)
}

/// The number of components whose least element is below `c`.
pub open spec fn components_before(rs: Seq<Relationship>, c: nat) -> nat
    decreases c,
{
    if c == 0 {
        0
    } else {
        components_before(rs, (c - 1) as nat) + if least_joined(rs, c - 1, c - 1) { 1nat } else { 0nat }
    }
}

/// The least element of a component is unique.
proof fn lemma_least_unique(rs: Seq<Relationship>, a: int, b: int, v: int)
    requires
        least_joined(rs, a, v),
        least_joined(rs, b, v),
    ensures
        a == b,
{
    assert(joined(rs, a, v) && joined(rs, b, v));
}

/// The grid position of every element of `m`, in arena order.
pub open spec fn grid_positions(m: Model) -> Seq<(u128, u128)> {
    let rs = m.spec_relations();
    Seq::new(m.spec_elements().len(), |v: int| (
        (COMPONENT_OFFSET * components_before(rs, least_of(rs, v) as nat)) as u128,
        (ROW_HEIGHT * row_of(rs, v)) as u128,
    ))
}

/// Grid positions `(x, y)` for every element, in arena order.
///
/// Each connected component of the model graph forms one column, placed
/// `COMPONENT_OFFSET` to the right of the previous one, components ordered by
/// their least element; an element's row is the length of the longest chain
/// of relationships ending at it (below a cycle: one row under its deepest
/// predecessor that has no cycle upstream), rows `ROW_HEIGHT` apart.
pub fn calculate_layout(model: &Model) -> (positions: Vec<(u128, u128)>)
    requires
        model.endpoints_resolve(),
    ensures
        positions@.len() == model.spec_elements().len(),
        forall|v: int| 0 <= v < positions@.len() ==> {
            &&& (#[trigger] positions@[v]).0 == COMPONENT_OFFSET * components_before(
                model.spec_relations(),
                least_of(model.spec_relations(), v) as nat,
            )
            &&& positions@[v].1 == ROW_HEIGHT * row_of(model.spec_relations(), v)
        },
{
    let rels = model.relations_slice();
    let n = model.element_count();
    let ghost rs = rels@;
    assert(endpoints_below(rs, n as nat));
    let lab = component_leaders(rels, n);
    let rows = element_rows(rels, n);
    // The number of components whose least element precedes each index.
    let mut before: Vec<usize> = Vec::new();
    let mut count: usize = 0;
    let mut u: usize = 0;
    while u < n
        invariant
            0 <= u <= n,
            rs == rels@,
            lab@.len() == n,
            forall|v: int| 0 <= v < n ==> least_joined(rs, #[trigger] lab@[v] as int, v),
            before@.len() == u,
            count == components_before(rs, u as nat),
            count <= u,
            forall|w: int| 0 <= w < u ==> #[trigger] before@[w] == components_before(rs, w as nat),
        decreases n - u,
    {
        before.push(count);
        proof {
            if least_joined(rs, u as int, u as int) {
                lemma_least_unique(rs, u as int, lab@[u as int] as int, u as int);
            } else {
                assert(lab@[u as int] != u);
            }
        }
        if lab[u] == u {
            count += 1;
        }
        u += 1;
    }
    let mut positions: Vec<(u128, u128)> = Vec::new();
    let mut v: usize = 0;
    while v < n
        invariant
            0 <= v <= n,
            rs == rels@,
            rs == model.spec_relations(),
            lab@.len() == n,
            rows@.len() == n,
            before@.len() == n,
            forall|w: int| 0 <= w < n ==> least_joined(rs, #[trigger] lab@[w] as int, w),
            forall|w: int| 0 <= w < n ==> #[trigger] rows@[w] == row_of(rs, w),
            forall|w: int| 0 <= w < n ==> #[trigger] before@[w] == components_before(rs, w as nat),
            positions@.len() == v,
            forall|w: int| 0 <= w < v ==> {
                &&& (#[trigger] positions@[w]).0 == COMPONENT_OFFSET * components_before(rs, least_of(rs, w) as nat)
                &&& positions@[w].1 == ROW_HEIGHT * row_of(rs, w)
            },
        decreases n - v,
    {
        let c = lab[v];
        proof {
            assert(least_joined(rs, lab@[v as int] as int, v as int));
            lemma_least_unique(rs, least_of(rs, v as int), c as int, v as int);
        }
        assert(c < n) by {
            assert(lab@[v as int] <= v) by {
                lemma_join_self(rs, v as int);
            }
        }
        let x: u128 = 600 * (before[c] as u128);
        let y: u128 = 120 * (rows[v] as u128);
        positions.push((x, y));
        v += 1;
    }
    positions
}

/// Element `a` is drawn before element `b`: upper rows first, then columns
/// from left to right, then arena order.
pub open spec fn drawn_before(ps: Seq<(u128, u128)>, a: int, b: int) -> bool {
    ||| ps[a].1 < ps[b].1
    ||| ps[a].1 == ps[b].1 && ps[a].0 < ps[b].0
    ||| ps[a].1 == ps[b].1 && ps[a].0 == ps[b].0 && a < b
}

/// `layout` draws every element at its position `ps` with the default size
/// (120 by 55), each once, upper rows first, then from left to right, then
/// in arena order.
pub open spec fn lays_out(layout: DiagramLayout, ps: Seq<(u128, u128)>) -> bool {
    &&& layout.order@.len() == ps.len()
    &&& forall|k: int| 0 <= k < layout.order@.len() ==> (#[trigger] layout.order@[k]).0 < ps.len()
    &&& forall|a: int, b: int| 0 <= a < b < layout.order@.len()
        ==> drawn_before(ps, #[trigger] layout.order@[a].0 as int, #[trigger] layout.order@[b].0 as int)
    &&& layout.bounds@.len() == ps.len()
    &&& forall|v: int| 0 <= v < ps.len() ==> ((#[trigger] layout.bounds@[v]) matches Some(b) && {
        &&& b.x@ == decimal(ps[v].0 as nat)
        &&& b.y@ == decimal(ps[v].1 as nat)
        &&& b.width@ == decimal(120)
        &&& b.height@ == decimal(55)
    })
}

/// A diagram layout from grid positions: every element drawn at its position
/// with the default size (120 by 55), upper rows first, then from left to
/// right, then in arena order.
pub fn diagram_layout(positions: &[(u128, u128)]) -> (layout: DiagramLayout)
    ensures
        lays_out(layout, positions@),
{
    let ghost ps = positions@;
    let n = positions.len();
    let mut order: Vec<ElementId> = Vec::new();
    let mut i: usize = 0;
    while i < n
        invariant
            0 <= i <= n,
            ps == positions@,
            n == ps.len(),
            order@.len() == i,
            forall|k: int| 0 <= k < i ==> (#[trigger] order@[k]).0 < i,
            forall|a: int, b: int| 0 <= a < b < i
                ==> drawn_before(ps, #[trigger] order@[a].0 as int, #[trigger] order@[b].0 as int),
        decreases n - i,
    {
        // The first place whose element is drawn after element `i`.
        let (xi, yi) = positions[i];
        let mut p: usize = 0;
        while p < order.len()
            invariant
                0 <= p <= order@.len(),
                order@.len() == i,
                i < n,
                ps == positions@,
                (xi, yi) == ps[i as int],
                forall|k: int| 0 <= k < i ==> (#[trigger] order@[k]).0 < i,
                forall|k: int| 0 <= k < p ==> drawn_before(ps, (#[trigger] order@[k]).0 as int, i as int),
                n == ps.len(),
            ensures
                0 <= p <= order@.len(),
                forall|k: int| 0 <= k < p ==> drawn_before(ps, (#[trigger] order@[k]).0 as int, i as int),
                p < order@.len() ==> drawn_before(ps, i as int, order@[p as int].0 as int),
            decreases order@.len() - p,
        {
            let (xo, yo) = positions[order[p].0];
            if yi < yo || (yi == yo && xi < xo) {
                break;
            }
            p += 1;
        }
        proof {
            if p < order@.len() {
                let o = order@[p as int].0 as int;
                assert(drawn_before(ps, i as int, o));
                assert forall|k: int| p <= k < order@.len() implies drawn_before(ps, i as int, (#[trigger] order@[k]).0 as int) by {
                    if k > p {
                        assert(drawn_before(ps, o, order@[k].0 as int));
                    }
                }
            }
        }
        let ghost before = order@;
        order.insert(p, ElementId(i));
        assert forall|a: int, b: int| 0 <= a < b < i + 1
            implies drawn_before(ps, #[trigger] order@[a].0 as int, #[trigger] order@[b].0 as int) by {
            if b < p {
                assert(order@[a] == before[a] && order@[b] == before[b]);
            } else if b == p {
                assert(order@[a] == before[a]);
            } else if a < p {
                assert(order@[a] == before[a] && order@[b] == before[b - 1]);
            } else if a == p {
                assert(order@[b] == before[b - 1]);
            } else {
                assert(order@[a] == before[a - 1] && order@[b] == before[b - 1]);
            }
        }
        assert forall|k: int| 0 <= k < i + 1 implies (#[trigger] order@[k]).0 < i + 1 by {
            if k < p {
                assert(order@[k] == before[k]);
            } else if k > p {
                assert(order@[k] == before[k - 1]);
            }
        }
        i += 1;
    }
    let mut bounds: Vec<Option<Bounds>> = Vec::new();
    let mut v: usize = 0;
    while v < n
        invariant
            0 <= v <= n,
            ps == positions@,
            n == ps.len(),
            bounds@.len() == v,
            forall|w: int| 0 <= w < v ==> ((#[trigger] bounds@[w]) matches Some(b) && {
                &&& b.x@ == decimal(ps[w].0 as nat)
                &&& b.y@ == decimal(ps[w].1 as nat)
                &&& b.width@ == decimal(120)
                &&& b.height@ == decimal(55)
            }),
        decreases n - v,
    {
        let (x, y) = positions[v];
        let mut xs = String::new();
        push_decimal(&mut xs, x);
        let mut ys = String::new();
        push_decimal(&mut ys, y);
        let mut width = String::new();
        push_decimal(&mut width, 120);
        let mut height = String::new();
        push_decimal(&mut height, 55);
        bounds.push(Some(Bounds { x: xs, y: ys, width, height }));
        v += 1;
    }
    DiagramLayout { order, bounds }
}

/// Chains bounded in length have a longest one.
proof fn lemma_bounded_has_longest(rs: Seq<Relationship>, u: int, b: nat)
    requires
        chains_bounded(rs, u, b),
    ensures
        acyclic_above(rs, u),
    decreases b,
{
    let one = seq![u];
    assert(is_chain(rs, one));
    if exists|p: Seq<int>| #[trigger] is_chain(rs, p) && p.len() == b && p.last() == u {
        assert(b >= 1);
        assert(longest_chain(rs, u, (b - 1) as nat));
    } else {
        assert(b >= 1);
        assert forall|p: Seq<int>| #[trigger] is_chain(rs, p) && p.len() > 0 && p.last() == u implies p.len() <= b - 1 by {
            assert(p.len() <= b);
        }
        lemma_bounded_has_longest(rs, u, (b - 1) as nat);
    }
}

/// Rows descend along relationships: a relationship into an element with no
/// cycle upstream comes from an element in a row above it.
pub proof fn lemma_rows_descend(rs: Seq<Relationship>, u: int, v: int)
    requires
        leads(rs, u, v),
        acyclic_above(rs, v),
    ensures
        acyclic_above(rs, u),
        row_of(rs, u) < row_of(rs, v),
{
    let d = chain_depth(rs, v);
    assert(longest_chain(rs, v, d));
    assert forall|p: Seq<int>| #[trigger] is_chain(rs, p) && p.len() > 0 && p.last() == u implies p.len() <= d by {
        lemma_chain_push(rs, p, v);
        assert(p.push(v).last() == v);
    }
    lemma_bounded_has_longest(rs, u, d);
    let du = chain_depth(rs, u);
    assert(longest_chain(rs, u, du));
    let q = choose|q: Seq<int>| #[trigger] is_chain(rs, q) && q.len() == du + 1 && q.last() == u;
    assert(q.len() <= d);
}

/// A relationship joins two elements of one component, so both stand in one column.
pub proof fn lemma_linked_share_column(rs: Seq<Relationship>, n: nat, u: int, v: int)
    requires
        endpoints_below(rs, n),
        0 <= u < n,
        linked(rs, u, v),
    ensures
        least_of(rs, u) == least_of(rs, v),
{
    lemma_component_has_least(rs, n, u);
    let l = least_of(rs, u);
    assert(least_joined(rs, l, u));
    lemma_join_step(rs, l, u, v);
    assert forall|w: int| #[trigger] joined(rs, w, v) implies l <= w by {
        let i = choose|i: int| 0 <= i < rs.len() && {
            ||| (#[trigger] rs[i]).source.0 == u && rs[i].target.0 == v
            ||| rs[i].source.0 == v && rs[i].target.0 == u
        };
        assert(linked(rs, v, u));
        lemma_join_step(rs, w, v, u);
    }
    assert(least_joined(rs, l, v));
    lemma_least_unique(rs, l, least_of(rs, v), v);
}

/// Every element below `n` has a least element in its component.
proof fn lemma_component_has_least(rs: Seq<Relationship>, n: nat, v: int)
    requires
        endpoints_below(rs, n),
        0 <= v < n,
    ensures
        least_joined(rs, least_of(rs, v), v),
{
    lemma_join_self(rs, v);
    lemma_least_below(rs, n, v, v);
}

/// Searching down from `c`: some element at most `c` is the least of the component of `v`.
proof fn lemma_least_below(rs: Seq<Relationship>, n: nat, v: int, c: int)
    requires
        endpoints_below(rs, n),
        0 <= v < n,
        0 <= c,
        joined(rs, c, v),
    ensures
        exists|u: int| #[trigger] least_joined(rs, u, v),
    decreases c,
{
    if exists|w: int| 0 <= w < c && #[trigger] joined(rs, w, v) {
        let w = choose|w: int| 0 <= w < c && #[trigger] joined(rs, w, v);
        lemma_least_below(rs, n, v, w);
    } else {
        assert forall|w: int| #[trigger] joined(rs, w, v) implies c <= w by {
            lemma_joined_in_range(rs, n, w, v);
        }
        assert(least_joined(rs, c, v));
    }
}

/// Components stand in distinct columns: the component whose least element
/// comes first stands further left.
pub proof fn lemma_components_apart(rs: Seq<Relationship>, a: nat, b: nat)
    requires
        a < b,
        least_joined(rs, a as int, a as int),
    ensures
        components_before(rs, a) < components_before(rs, b),
    decreases b,
{
    if b > a + 1 {
        lemma_components_apart(rs, a, (b - 1) as nat);
    }
}

/// The Archi XML text of a model drawn on its grid layout: every element
/// once, at its grid position, upper rows first, then from left to right.
/// Always `Ok`.
pub fn generate_xml(model: &Model) -> (res: Result<String, XmlError>)
    requires
        model.endpoints_resolve(),
    ensures
        res matches Ok(text) && exists|layout: DiagramLayout, ids: XmlIds|
            #![trigger lays_out(layout, grid_positions(*model)), ids_fit(ids, *model)]
            lays_out(layout, grid_positions(*model)) && ids_fit(ids, *model) && ids_are_uuids(ids)
                && text@ == archi_xml(*model, layout, ids),
{
    let positions = calculate_layout(model);
    assert(positions@ =~= grid_positions(*model));
    let layout = diagram_layout(positions.as_slice());
    assert forall|a: int, b: int| 0 <= a < b < layout.order@.len()
        implies (#[trigger] layout.order@[a]).0 != (#[trigger] layout.order@[b]).0 by {
        assert(drawn_before(positions@, layout.order@[a].0 as int, layout.order@[b].0 as int));
    }
    assert(layout_fits(layout, *model));
    model_to_xml(model, &layout)
}

} // verus!
