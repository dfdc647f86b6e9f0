//! The library's laws: properties of the placement model that hold for
//! every input, stated and proved once, over the same spec functions the
//! executable contracts use.

use vstd::prelude::*;

use crate::geom::{model_opacity, DirectiveModel, SCALE};
use crate::icons::{icon_model, rampart_opacity, road_icon, StructureKind};
use crate::roads::{
    adjacent, cell_at, cell_code, cell_of_code, lemma_adjacent_symmetric, lemma_cell_at_anchor,
    lemma_code_roundtrip, lemma_decode_roundtrip, lemma_neighbor_injective, links_upto, neighbor,
    road_line, road_placement, roads_after_place, GridXY,
};
use crate::visual::{placement_model, roads_model_after};

verus! {

/// Unknown-kind no-op: an unrecognized kind emits no directive at all
/// and leaves the road set untouched.
pub proof fn lemma_unrecognized_no_op(s: Set<u16>, x: int, y: int, op: int)
    ensures
        placement_model(s, StructureKind::Unrecognized, x, y, op)
            == Seq::<DirectiveModel>::empty(),
        roads_model_after(s, StructureKind::Unrecognized, x, y) == s,
{
}

/// Idempotent road placement: once a cell is in the road set, placing a
/// road there again draws the road dot alone — no connecting segment —
/// and leaves the set as it was. In particular the second of two
/// placements at the same anchor emits exactly the dot.
pub proof fn lemma_road_idempotent(s: Set<u16>, x: int, y: int, op1: int, op2: int)
    ensures
        ({
            let s1 = roads_model_after(s, StructureKind::Road, x, y);
            &&& placement_model(s1, StructureKind::Road, x, y, op2) == road_icon(x, y, op2)
            &&& roads_model_after(s1, StructureKind::Road, x, y) == s1
        }),
{
    let s1 = roads_after_place(s, x, y);
    assert(s1.contains(cell_code(cell_at(x, y))));
    assert(s1.insert(cell_code(cell_at(x, y))) =~= s1);
}

/// How many of the first `i` neighborhood positions of `c` are in `s`:
/// the number of connecting segments the scan has drawn so far.
pub open spec fn link_total(c: GridXY, s: Set<u16>, i: int) -> nat
    decreases i,
{
    if i <= 0 {
        0
    } else {
        link_total(c, s, i - 1) + if s.contains(cell_code(neighbor(c, i - 1))) {
            1nat
        } else {
            0nat
        }
    }
}

/// The connecting segments drawn toward the first `i` neighborhood
/// positions are exactly as many as the positions already in the set.
pub proof fn lemma_links_len(x: int, y: int, c: GridXY, s: Set<u16>, op: int, i: int)
    ensures
        links_upto(x, y, c, s, op, i).len() == link_total(c, s, i),
    decreases i,
{
    if i > 0 {
        lemma_links_len(x, y, c, s, op, i - 1);
    }
}

/// The center of a cell's neighborhood is the cell itself.
pub proof fn lemma_neighbor_center(c: GridXY)
    ensures
        neighbor(c, 4) == c,
{
    assert((c.x as int) % 256 == c.x as int);
    assert((c.y as int) % 256 == c.y as int);
}

/// Counting over a prefix never counts more than over the whole scan.
pub proof fn lemma_link_total_monotone(c: GridXY, s: Set<u16>, i: int, j: int)
    requires
        i <= j,
    ensures
        link_total(c, s, i) <= link_total(c, s, j),
    decreases j - i,
{
    if i < j {
        lemma_link_total_monotone(c, s, i, j - 1);
    }
}

/// Composition non-emptiness, the layered icons: every recognized kind
/// other than Rampart and Road composes from at least two primitives.
/// Rampart is deliberately a single translucent overlay rectangle, and
/// the road dot is a single circle whose connecting segments come from
/// the road connector instead.
pub proof fn lemma_icon_layering(kind: StructureKind, x: int, y: int, op: int)
    requires
        kind != StructureKind::Unrecognized,
        kind != StructureKind::Rampart,
        kind != StructureKind::Road,
    ensures
        icon_model(kind, x, y, op).len() >= 2,
{
}

/// Composition non-emptiness, the road case: placing a road in a cell
/// not yet in the set emits at least two directives — the dot and at
/// least the degenerate self-segment found at the neighborhood center.
pub proof fn lemma_road_placement_layering(s: Set<u16>, x: int, y: int, op: int)
    requires
        !s.contains(cell_code(cell_at(x, y))),
    ensures
        placement_model(s, StructureKind::Road, x, y, op).len() >= 2,
{
    let c = cell_at(x, y);
    let s1 = s.insert(cell_code(c));
    lemma_neighbor_center(c);
    assert(s1.contains(cell_code(neighbor(c, 4))));
    assert(link_total(c, s1, 5) >= 1);
    lemma_link_total_monotone(c, s1, 5, 9);
    lemma_links_len(x, y, c, s1, op, 9);
    assert(road_placement(s, x, y, op).len() >= 1 + link_total(c, s1, 9));
}

/// The opacity every directive of one placement is owed: the caller's,
/// except for Rampart's fixed attenuation.
pub open spec fn expected_opacity(kind: StructureKind, op: int) -> int {
    if kind == StructureKind::Rampart {
        rampart_opacity(op)
    } else {
        op
    }
}

/// Every connecting segment of a road scan carries the caller's opacity.
proof fn lemma_links_opacity(x: int, y: int, c: GridXY, s: Set<u16>, op: int, i: int)
    ensures
        forall|k: int|
            0 <= k < links_upto(x, y, c, s, op, i).len() ==> model_opacity(
                #[trigger] links_upto(x, y, c, s, op, i)[k],
            ) == op,
    decreases i,
{
    if i > 0 {
        lemma_links_opacity(x, y, c, s, op, i - 1);
        let prev = links_upto(x, y, c, s, op, i - 1);
        let whole = links_upto(x, y, c, s, op, i);
        assert forall|k: int| 0 <= k < whole.len() implies model_opacity(whole[k]) == op by {
            if k < prev.len() {
                assert(whole[k] == prev[k]);
            }
        }
    }
}

/// Opacity propagation: every directive one placement emits carries the
/// caller's opacity, except Rampart's overlay, which carries exactly
/// three tenths of it.
pub proof fn lemma_opacity_propagation(s: Set<u16>, kind: StructureKind, x: int, y: int, op: int)
    ensures
        forall|i: int|
            0 <= i < placement_model(s, kind, x, y, op).len() ==> model_opacity(
                #[trigger] placement_model(s, kind, x, y, op)[i],
            ) == expected_opacity(kind, op),
{
    let e = placement_model(s, kind, x, y, op);
    if kind == StructureKind::Road {
        let c = cell_at(x, y);
        if !s.contains(cell_code(c)) {
            let s1 = s.insert(cell_code(c));
            lemma_links_opacity(x, y, c, s1, op, 9);
            let dot = road_icon(x, y, op);
            let links = links_upto(x, y, c, s1, op, 9);
            assert forall|i: int| 0 <= i < e.len() implies model_opacity(e[i]) == op by {
                if i >= dot.len() {
                    assert(e[i] == links[i - 1]);
                }
            }
        }
    }
}

/// Whether a directive is a connecting segment between the anchors of
/// cells `a` and `b`, in either direction.
pub open spec fn is_segment_between(d: DirectiveModel, a: GridXY, b: GridXY) -> bool {
    match d {
        DirectiveModel::Line { x1, y1, x2, y2, .. } => {
            ||| (x1 == a.x * SCALE && y1 == a.y * SCALE && x2 == b.x * SCALE && y2 == b.y * SCALE)
            ||| (x1 == b.x * SCALE && y1 == b.y * SCALE && x2 == a.x * SCALE && y2 == a.y * SCALE)
        },
        _ => false,
    }
}

/// How many connecting segments between `a` and `b` a directive
/// sequence holds.
pub open spec fn segment_count(e: Seq<DirectiveModel>, a: GridXY, b: GridXY) -> nat
    decreases e.len(),
{
    if e.len() == 0 {
        0
    } else {
        segment_count(e.drop_last(), a, b) + if is_segment_between(e.last(), a, b) {
            1nat
        } else {
            0nat
        }
    }
}

proof fn lemma_segment_count_push(e: Seq<DirectiveModel>, d: DirectiveModel, a: GridXY, b: GridXY)
    ensures
        segment_count(e.push(d), a, b) == segment_count(e, a, b) + if is_segment_between(
            d,
            a,
            b,
        ) {
            1nat
        } else {
            0nat
        },
{
    assert(e.push(d).drop_last() =~= e);
    assert(e.push(d).last() == d);
}

proof fn lemma_segment_count_concat(
    e1: Seq<DirectiveModel>,
    e2: Seq<DirectiveModel>,
    a: GridXY,
    b: GridXY,
)
    ensures
        segment_count(e1 + e2, a, b) == segment_count(e1, a, b) + segment_count(e2, a, b),
    decreases e2.len(),
{
    if e2.len() == 0 {
        assert(e1 + e2 =~= e1);
    } else {
        lemma_segment_count_concat(e1, e2.drop_last(), a, b);
        assert((e1 + e2).drop_last() =~= e1 + e2.drop_last());
        assert((e1 + e2).last() == e2.last());
    }
}

/// Counting is the same whichever way round the pair is named.
proof fn lemma_segment_count_symmetric(e: Seq<DirectiveModel>, a: GridXY, b: GridXY)
    ensures
        segment_count(e, a, b) == segment_count(e, b, a),
    decreases e.len(),
{
    if e.len() > 0 {
        lemma_segment_count_symmetric(e.drop_last(), a, b);
    }
}

/// During the scan run for a newly placed cell `c`, the segments drawn
/// between `c` and any other cell `t` number one when `t` is a set
/// member found at one of the scanned positions, and zero otherwise.
proof fn lemma_links_segments(c: GridXY, s: Set<u16>, op: int, i: int, t: GridXY)
    requires
        t != c,
        0 <= i <= 9,
    ensures
        segment_count(links_upto(c.x * SCALE, c.y * SCALE, c, s, op, i), c, t) == if s.contains(
            cell_code(t),
        ) && (exists|j: int| 0 <= j < i && neighbor(c, j) == t) {
            1nat
        } else {
            0nat
        },
    decreases i,
{
    if i > 0 {
        lemma_links_segments(c, s, op, i - 1, t);
        let prev = links_upto(c.x * SCALE, c.y * SCALE, c, s, op, i - 1);
        let whole = links_upto(c.x * SCALE, c.y * SCALE, c, s, op, i);
        let n = neighbor(c, i - 1);
        lemma_code_roundtrip(n);
        lemma_code_roundtrip(t);
        if s.contains(cell_code(n)) {
            let d = road_line(c.x * SCALE, c.y * SCALE, n, op);
            assert(whole =~= prev.push(d));
            lemma_segment_count_push(prev, d, c, t);
            if n == t {
                assert(is_segment_between(d, c, t));
                if exists|j: int| 0 <= j < i - 1 && neighbor(c, j) == t {
                    let j = choose|j: int| 0 <= j < i - 1 && neighbor(c, j) == t;
                    lemma_neighbor_injective(c, j, i - 1);
                    assert(false);
                }
                assert(exists|j: int| 0 <= j < i && neighbor(c, j) == t) by {
                    assert(neighbor(c, i - 1) == t);
                }
            } else {
                assert(!is_segment_between(d, c, t));
                assert((exists|j: int| 0 <= j < i && neighbor(c, j) == t) == (exists|j: int|
                    0 <= j < i - 1 && neighbor(c, j) == t)) by {
                    if exists|j: int| 0 <= j < i && neighbor(c, j) == t {
                        let j = choose|j: int| 0 <= j < i && neighbor(c, j) == t;
                        assert(j != i - 1);
                        assert(0 <= j < i - 1 && neighbor(c, j) == t);
                    }
                }
            }
        } else {
            assert(whole =~= prev);
        }
    }
}

/// Symmetry of connection: after placing adjacent cells `a` then `b`
/// into a set holding neither, exactly one connecting segment between
/// the two exists, and it was emitted by the second placement; the
/// first emitted none. The lemma is symmetric in its cell arguments, so
/// placing the pair in the reverse order attributes the one segment to
/// the other call: the attribution depends on the order, the count does
/// not.
pub proof fn lemma_connection_symmetry(s: Set<u16>, a: GridXY, b: GridXY, op: int)
    requires
        !s.contains(cell_code(a)),
        !s.contains(cell_code(b)),
        adjacent(a, b),
    ensures
        ({
            let first = placement_model(s, StructureKind::Road, a.x * SCALE, a.y * SCALE, op);
            let s1 = roads_model_after(s, StructureKind::Road, a.x * SCALE, a.y * SCALE);
            let second = placement_model(s1, StructureKind::Road, b.x * SCALE, b.y * SCALE, op);
            &&& segment_count(first, a, b) == 0
            &&& segment_count(second, a, b) == 1
        }),
{
    lemma_cell_at_anchor(a);
    lemma_cell_at_anchor(b);
    lemma_code_roundtrip(a);
    lemma_code_roundtrip(b);
    let sa = s.insert(cell_code(a));
    let dot_a = road_icon(a.x * SCALE, a.y * SCALE, op);
    let links_a = links_upto(a.x * SCALE, a.y * SCALE, a, sa, op, 9);
    assert(dot_a.drop_last() =~= Seq::<DirectiveModel>::empty());
    assert(segment_count(Seq::<DirectiveModel>::empty(), a, b) == 0);
    assert(!is_segment_between(dot_a.last(), a, b));
    assert(segment_count(dot_a, a, b) == 0);
    lemma_segment_count_concat(dot_a, links_a, a, b);
    lemma_links_segments(a, sa, op, 9, b);
    assert(!sa.contains(cell_code(b)));

    let s1 = sa;
    let sb = s1.insert(cell_code(b));
    let dot_b = road_icon(b.x * SCALE, b.y * SCALE, op);
    let links_b = links_upto(b.x * SCALE, b.y * SCALE, b, sb, op, 9);
    assert(dot_b.drop_last() =~= Seq::<DirectiveModel>::empty());
    assert(!is_segment_between(dot_b.last(), a, b));
    assert(segment_count(dot_b, a, b) == 0);
    lemma_segment_count_concat(dot_b, links_b, a, b);
    lemma_segment_count_symmetric(links_b, a, b);
    lemma_links_segments(b, sb, op, 9, a);
    assert(sb.contains(cell_code(a)));
    lemma_adjacent_symmetric(a, b);
}

/// The normalized form of an unordered pair of cell keys: the smaller
/// key first.
pub open spec fn pair_of(k1: u16, k2: u16) -> (u16, u16) {
    if k1 < k2 {
        (k1, k2)
    } else {
        (k2, k1)
    }
}

/// The unordered adjacent pairs among the cells of a road set, each
/// counted once in normalized form.
pub open spec fn adjacent_pairs(s: Set<u16>) -> Set<(u16, u16)> {
    Set::new(
        |p: (u16, u16)|
            p.0 < p.1 && s.contains(p.0) && s.contains(p.1) && adjacent(
                cell_of_code(p.0),
                cell_of_code(p.1),
            ),
    )
}

/// The pairs a newly placed cell `c` forms with the set members at its
/// first `i` neighborhood positions.
spec fn pairs_upto(c: GridXY, s: Set<u16>, i: int) -> Set<(u16, u16)>
    decreases i,
{
    if i <= 0 {
        Set::empty()
    } else {
        pairs_upto(c, s, i - 1) + if s.contains(cell_code(neighbor(c, i - 1))) {
            Set::empty().insert(pair_of(cell_code(c), cell_code(neighbor(c, i - 1))))
        } else {
            Set::empty()
        }
    }
}

/// A pair is formed by the scan exactly when some scanned position
/// holds a set member it pairs `c` with.
proof fn lemma_pairs_upto_members(c: GridXY, s: Set<u16>, i: int, p: (u16, u16))
    requires
        0 <= i <= 9,
    ensures
        pairs_upto(c, s, i).contains(p) <==> exists|j: int|
            0 <= j < i && s.contains(cell_code(#[trigger] neighbor(c, j))) && p == pair_of(
                cell_code(c),
                cell_code(neighbor(c, j)),
            ),
    decreases i,
{
    if i > 0 {
        lemma_pairs_upto_members(c, s, i - 1, p);
    }
}

/// The scan forms exactly one pair per neighborhood position already in
/// the set, because the positions are pairwise distinct cells.
proof fn lemma_pairs_upto_len(c: GridXY, s: Set<u16>, i: int)
    requires
        0 <= i <= 9,
        !s.contains(cell_code(c)),
    ensures
        pairs_upto(c, s, i).finite(),
        pairs_upto(c, s, i).len() == link_total(c, s, i),
    decreases i,
{
    if i > 0 {
        lemma_pairs_upto_len(c, s, i - 1);
        let prev = pairs_upto(c, s, i - 1);
        let n = neighbor(c, i - 1);
        if s.contains(cell_code(n)) {
            let p = pair_of(cell_code(c), cell_code(n));
            if prev.contains(p) {
                lemma_pairs_upto_members(c, s, i - 1, p);
                let j = choose|j: int|
                    0 <= j < i - 1 && s.contains(cell_code(#[trigger] neighbor(c, j))) && p
                        == pair_of(cell_code(c), cell_code(neighbor(c, j)));
                let m = neighbor(c, j);
                lemma_code_roundtrip(c);
                lemma_code_roundtrip(n);
                lemma_code_roundtrip(m);
                if cell_code(m) == cell_code(c) {
                    assert(cell_of_code(cell_code(m)) == cell_of_code(cell_code(c)));
                    assert(false);
                }
                assert(cell_code(m) == cell_code(n));
                assert(m == n);
                lemma_neighbor_injective(c, j, i - 1);
                assert(false);
            }
            assert(pairs_upto(c, s, i) =~= prev.insert(p));
        } else {
            assert(pairs_upto(c, s, i) =~= prev);
        }
    }
}

/// Every pair the scan forms names the scanned cell itself.
proof fn lemma_pairs_disjoint(c: GridXY, s: Set<u16>)
    requires
        !s.contains(cell_code(c)),
    ensures
        adjacent_pairs(s).disjoint(pairs_upto(c, s, 9)),
{
    let kc = cell_code(c);
    assert forall|p: (u16, u16)| #[trigger]
        adjacent_pairs(s).contains(p) implies !pairs_upto(c, s, 9).contains(p) by {
        if pairs_upto(c, s, 9).contains(p) {
            lemma_pairs_upto_members(c, s, 9, p);
            let j = choose|j: int|
                0 <= j < 9 && s.contains(cell_code(#[trigger] neighbor(c, j))) && p == pair_of(
                    kc,
                    cell_code(neighbor(c, j)),
                );
            assert(p.0 == kc || p.1 == kc);
        }
    }
}

/// Inserting a new cell adds exactly the pairs its scan forms.
proof fn lemma_adjacent_pairs_insert(c: GridXY, s: Set<u16>)
    requires
        !s.contains(cell_code(c)),
    ensures
        adjacent_pairs(s.insert(cell_code(c))) =~= adjacent_pairs(s) + pairs_upto(c, s, 9),
{
    let kc = cell_code(c);
    lemma_code_roundtrip(c);
    assert forall|p: (u16, u16)| #[trigger]
        adjacent_pairs(s.insert(kc)).contains(p) implies (adjacent_pairs(s) + pairs_upto(
        c,
        s,
        9,
    )).contains(p) by {
        if s.contains(p.0) && s.contains(p.1) {
            assert(adjacent_pairs(s).contains(p));
        } else if p.0 == kc {
            let other = cell_of_code(p.1);
            lemma_decode_roundtrip(p.1);
            assert(adjacent(c, other));
            let j = choose|j: int| 0 <= j < 9 && neighbor(c, j) == other;
            lemma_pairs_upto_members(c, s, 9, p);
            assert(s.contains(cell_code(neighbor(c, j))));
            assert(p == pair_of(kc, cell_code(neighbor(c, j))));
        } else {
            assert(p.1 == kc);
            let other = cell_of_code(p.0);
            lemma_decode_roundtrip(p.0);
            assert(adjacent(other, c));
            lemma_adjacent_symmetric(other, c);
            let j = choose|j: int| 0 <= j < 9 && neighbor(c, j) == other;
            lemma_pairs_upto_members(c, s, 9, p);
            assert(s.contains(cell_code(neighbor(c, j))));
            assert(p == pair_of(kc, cell_code(neighbor(c, j))));
        }
    }
    assert forall|p: (u16, u16)| #[trigger]
        (adjacent_pairs(s) + pairs_upto(c, s, 9)).contains(p) implies adjacent_pairs(
        s.insert(kc),
    ).contains(p) by {
        if adjacent_pairs(s).contains(p) {
        } else {
            lemma_pairs_upto_members(c, s, 9, p);
            let j = choose|j: int|
                0 <= j < 9 && s.contains(cell_code(#[trigger] neighbor(c, j))) && p == pair_of(
                    kc,
                    cell_code(neighbor(c, j)),
                );
            let n = neighbor(c, j);
            lemma_code_roundtrip(n);
            if cell_code(n) == kc {
                assert(cell_of_code(cell_code(n)) == cell_of_code(kc));
                assert(false);
            }
            assert(n != c);
            assert(adjacent(c, n));
            lemma_adjacent_symmetric(c, n);
        }
    }
}

/// Inserting a new cell grows the adjacent-pair count by exactly the
/// number of its neighborhood positions already in the set.
proof fn lemma_adjacent_pairs_step(c: GridXY, s: Set<u16>)
    requires
        !s.contains(cell_code(c)),
        adjacent_pairs(s).finite(),
    ensures
        adjacent_pairs(s.insert(cell_code(c))).finite(),
        adjacent_pairs(s.insert(cell_code(c))).len() == adjacent_pairs(s).len() + link_total(
            c,
            s,
            9,
        ),
{
    lemma_pairs_upto_len(c, s, 9);
    lemma_adjacent_pairs_insert(c, s);
    lemma_pairs_disjoint(c, s);
    vstd::set_lib::lemma_set_union_finite_iff(adjacent_pairs(s), pairs_upto(c, s, 9));
    vstd::set_lib::lemma_set_disjoint_lens(adjacent_pairs(s), pairs_upto(c, s, 9));
}

/// A segment between two distinct anchors, as opposed to the degenerate
/// zero-length self-segment of the neighborhood scan.
pub open spec fn is_proper_segment(d: DirectiveModel) -> bool {
    match d {
        DirectiveModel::Line { x1, y1, x2, y2, .. } => x1 != x2 || y1 != y2,
        _ => false,
    }
}

/// How many segments between distinct anchors a directive sequence
/// holds.
pub open spec fn proper_segment_count(e: Seq<DirectiveModel>) -> nat
    decreases e.len(),
{
    if e.len() == 0 {
        0
    } else {
        proper_segment_count(e.drop_last()) + if is_proper_segment(e.last()) {
            1nat
        } else {
            0nat
        }
    }
}

proof fn lemma_proper_count_concat(e1: Seq<DirectiveModel>, e2: Seq<DirectiveModel>)
    ensures
        proper_segment_count(e1 + e2) == proper_segment_count(e1) + proper_segment_count(e2),
    decreases e2.len(),
{
    if e2.len() == 0 {
        assert(e1 + e2 =~= e1);
    } else {
        lemma_proper_count_concat(e1, e2.drop_last());
        assert((e1 + e2).drop_last() =~= e1 + e2.drop_last());
        assert((e1 + e2).last() == e2.last());
    }
}

/// The scan of a newly placed cell draws one proper segment per
/// neighborhood position already in the set before the insertion; the
/// one further segment it draws — to the cell itself — is degenerate.
proof fn lemma_links_proper_count(c: GridXY, s: Set<u16>, op: int, i: int)
    requires
        !s.contains(cell_code(c)),
        0 <= i <= 9,
    ensures
        proper_segment_count(
            links_upto(c.x * SCALE, c.y * SCALE, c, s.insert(cell_code(c)), op, i),
        ) == link_total(c, s, i),
    decreases i,
{
    let s1 = s.insert(cell_code(c));
    if i > 0 {
        lemma_links_proper_count(c, s, op, i - 1);
        let prev = links_upto(c.x * SCALE, c.y * SCALE, c, s1, op, i - 1);
        let whole = links_upto(c.x * SCALE, c.y * SCALE, c, s1, op, i);
        let n = neighbor(c, i - 1);
        lemma_code_roundtrip(c);
        lemma_code_roundtrip(n);
        if s1.contains(cell_code(n)) {
            let d = road_line(c.x * SCALE, c.y * SCALE, n, op);
            assert(whole =~= prev.push(d));
            assert(whole.drop_last() =~= prev);
            if n == c {
                assert(!is_proper_segment(d));
                assert(!s.contains(cell_code(n)));
            } else {
                assert(cell_code(n) != cell_code(c));
                assert(s.contains(cell_code(n)));
                assert(is_proper_segment(d)) by {
                    if n.x * SCALE == c.x * SCALE && n.y * SCALE == c.y * SCALE {
                        assert(n.x == c.x && n.y == c.y);
                    }
                }
            }
        } else {
            assert(whole =~= prev);
            assert(!s.contains(cell_code(n)));
        }
    }
}

/// The road set after placing each listed cell in order, starting from
/// an empty frame.
pub open spec fn road_set_after_all(cells: Seq<GridXY>) -> Set<u16>
    decreases cells.len(),
{
    if cells.len() == 0 {
        Set::empty()
    } else {
        road_set_after_all(cells.drop_last()).insert(cell_code(cells.last()))
    }
}

/// Every directive emitted over a run of road placements at the listed
/// whole-tile cells, in order, starting from an empty frame.
pub open spec fn run_emission(cells: Seq<GridXY>, op: int) -> Seq<DirectiveModel>
    decreases cells.len(),
{
    if cells.len() == 0 {
        Seq::empty()
    } else {
        run_emission(cells.drop_last(), op) + placement_model(
            road_set_after_all(cells.drop_last()),
            StructureKind::Road,
            cells.last().x * SCALE,
            cells.last().y * SCALE,
            op,
        )
    }
}

/// Neighbor-count bound: over any run of road placements at whole
/// tiles — duplicates allowed, any order — the proper connecting
/// segments drawn number exactly one per unordered adjacent pair of
/// placed cells. A full 3x3 block therefore draws one segment per each
/// of its adjacent pairs, never one per cell per neighbor.
pub proof fn lemma_segment_total_is_pair_count(cells: Seq<GridXY>, op: int)
    ensures
        road_set_after_all(cells).finite(),
        adjacent_pairs(road_set_after_all(cells)).finite(),
        proper_segment_count(run_emission(cells, op)) == adjacent_pairs(
            road_set_after_all(cells),
        ).len(),
    decreases cells.len(),
{
    if cells.len() == 0 {
        assert(adjacent_pairs(Set::<u16>::empty()) =~= Set::<(u16, u16)>::empty());
    } else {
        let prev_cells = cells.drop_last();
        lemma_segment_total_is_pair_count(prev_cells, op);
        let s = road_set_after_all(prev_cells);
        let c = cells.last();
        let kc = cell_code(c);
        lemma_cell_at_anchor(c);
        let e = placement_model(s, StructureKind::Road, c.x * SCALE, c.y * SCALE, op);
        lemma_proper_count_concat(run_emission(prev_cells, op), e);
        let dot = road_icon(c.x * SCALE, c.y * SCALE, op);
        assert(dot.drop_last() =~= Seq::<DirectiveModel>::empty());
        assert(!is_proper_segment(dot.last()));
        assert(proper_segment_count(Seq::<DirectiveModel>::empty()) == 0);
        assert(proper_segment_count(dot) == 0);
        if s.contains(kc) {
            assert(e == dot);
            assert(s.insert(kc) =~= s);
        } else {
            let links = links_upto(c.x * SCALE, c.y * SCALE, c, s.insert(kc), op, 9);
            assert(e == dot + links);
            lemma_proper_count_concat(dot, links);
            lemma_links_proper_count(c, s, op, 9);
            lemma_adjacent_pairs_step(c, s);
        }
    }
}

} // verus!
