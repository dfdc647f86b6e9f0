//! The road connector: incremental adjacency tracking over integer grid
//! cells, and the connecting segments one road placement emits.
//!
//! The set of already-placed road cells grows monotonically within one
//! frame. Placing a cell that is already present draws only the road dot;
//! placing a new cell scans its 3x3 neighborhood in row-major order and
//! draws one segment per position already in the set. The scan runs after
//! the insertion, so the just-placed cell always meets itself at the
//! center position and a degenerate zero-length self-segment is emitted
//! once per new cell — a deliberate, visually inert artifact of scanning
//! after the insertion rather than before it.

use std::collections::HashSet;

use vstd::prelude::*;

use crate::geom::{
    buffer_model, push_directive, Color, Directive, DirectiveModel, Units, SCALE,
};
use crate::icons::{compose_road_icon, road_icon, CENTI};

verus! {

broadcast use vstd::std_specs::hash::group_hash_axioms;

/// An integer grid cell. Construction is deliberately unchecked: whether
/// a coordinate lies inside the host's room bounds is the caller's
/// business here, exactly as it is for every other icon anchor.
#[derive(Clone, Copy, PartialEq, Eq, Structural, Debug)]
pub struct GridXY {
    pub x: u8,
    pub y: u8,
}

/// The packed key a road cell is stored under.
pub open spec fn cell_code(c: GridXY) -> u16 {
    (c.x * 256 + c.y) as u16
}

/// The cell a packed key stands for.
pub open spec fn cell_of_code(k: u16) -> GridXY {
    GridXY { x: (k / 256) as u8, y: (k % 256) as u8 }
}

/// Packing a cell into its key and unpacking it gives the cell back; the
/// packing is therefore injective.
pub proof fn lemma_code_roundtrip(c: GridXY)
    ensures
        cell_of_code(cell_code(c)) == c,
{
    assert((c.x * 256 + c.y) / 256 == c.x as int && (c.x * 256 + c.y) % 256 == c.y as int)
        by (nonlinear_arith)
        requires 0 <= c.x < 256 && 0 <= c.y < 256,
    ;
}

/// Unpacking a key and packing the cell again gives the key back.
pub proof fn lemma_decode_roundtrip(k: u16)
    ensures
        cell_code(cell_of_code(k)) == k,
{
    vstd::arithmetic::div_mod::lemma_fundamental_div_mod(k as int, 256);
    vstd::arithmetic::div_mod::lemma_mod_bound(k as int, 256);
    assert(k as int / 256 <= 255) by (nonlinear_arith)
        requires 0 <= k < 65536,
    ;
}

/// Computes the packed key of a cell.
pub fn code_of(c: GridXY) -> (k: u16)
    ensures
        k == cell_code(c),
{
    (c.x as u16) * 256 + (c.y as u16)
}

/// The grid component a fixed-point coordinate falls in: unchecked
/// truncation toward zero, saturating into the grid's coordinate type.
pub open spec fn cell_of_units(v: int) -> u8 {
    if v < 0 {
        0
    } else if v / (SCALE as int) > 255 {
        255
    } else {
        (v / (SCALE as int)) as u8
    }
}

/// The integer cell a fixed-point anchor falls in.
pub open spec fn cell_at(x: int, y: int) -> GridXY {
    GridXY { x: cell_of_units(x), y: cell_of_units(y) }
}

fn cell_component(v: Units) -> (c: u8)
    ensures
        c == cell_of_units(v as int),
{
    if v < 0 {
        0
    } else {
        let q: Units = v / SCALE;
        if q > 255 {
            255
        } else {
            q as u8
        }
    }
}

/// Computes the integer cell of a fixed-point anchor.
pub fn cell_at_units(x: Units, y: Units) -> (c: GridXY)
    ensures
        c == cell_at(x as int, y as int),
{
    GridXY { x: cell_component(x), y: cell_component(y) }
}

/// The `i`-th position of a cell's 3x3 neighborhood in row-major order
/// (the row above first, the cell's own row second), each component
/// wrapping modulo the grid coordinate type, as the unchecked cast of the
/// scan coordinates does.
pub open spec fn neighbor(c: GridXY, i: int) -> GridXY {
    GridXY {
        x: ((c.x + (i % 3) - 1) % 256) as u8,
        y: ((c.y + (i / 3) - 1) % 256) as u8,
    }
}

/// Computes the `i`-th neighborhood position of a cell.
pub fn neighbor_cell(c: GridXY, i: usize) -> (n: GridXY)
    requires
        i < 9,
    ensures
        n == neighbor(c, i as int),
{
    let dx: u16 = (i % 3) as u16;
    let dy: u16 = (i / 3) as u16;
    let nx: u16 = (c.x as u16 + 255 + dx) % 256;
    let ny: u16 = (c.y as u16 + 255 + dy) % 256;
    proof {
        vstd::arithmetic::div_mod::lemma_mod_multiples_vanish(
            1,
            c.x + (i as int % 3) - 1,
            256,
        );
        vstd::arithmetic::div_mod::lemma_mod_multiples_vanish(
            1,
            c.y + (i as int / 3) - 1,
            256,
        );
    }
    GridXY { x: nx as u8, y: ny as u8 }
}

/// Two distinct cells are adjacent when one lies in the other's 3x3
/// neighborhood.
pub open spec fn adjacent(a: GridXY, b: GridXY) -> bool {
    a != b && exists|i: int| 0 <= i < 9 && neighbor(a, i) == b
}

/// The anchor of a whole tile falls in that tile.
pub proof fn lemma_cell_at_anchor(c: GridXY)
    ensures
        cell_at(c.x * SCALE, c.y * SCALE) == c,
{
    assert((c.x * SCALE) / (SCALE as int) == c.x as int) by (nonlinear_arith)
        requires 0 <= c.x < 256,
    ;
    assert((c.y * SCALE) / (SCALE as int) == c.y as int) by (nonlinear_arith)
        requires 0 <= c.y < 256,
    ;
}

/// The value of a wrapped coordinate one step away from a base in
/// `[0, 256)`.
proof fn lemma_wrap_value(v: int)
    requires
        -1 <= v <= 256,
    ensures
        v % 256 == if v < 0 {
            v + 256
        } else if v >= 256 {
            v - 256
        } else {
            v
        },
{
    if v < 0 {
        vstd::arithmetic::div_mod::lemma_mod_add_multiples_vanish(v, 256);
        vstd::arithmetic::div_mod::lemma_small_mod((256 + v) as nat, 256nat);
    } else if v >= 256 {
        vstd::arithmetic::div_mod::lemma_mod_self_0(256);
    } else {
        vstd::arithmetic::div_mod::lemma_small_mod(v as nat, 256nat);
    }
}

/// Wrapping distinct one-step offsets from the same base lands on
/// distinct coordinates.
proof fn lemma_wrap_injective(u: int, d1: int, d2: int)
    requires
        0 <= u < 256,
        -1 <= d1 <= 1,
        -1 <= d2 <= 1,
        (u + d1) % 256 == (u + d2) % 256,
    ensures
        d1 == d2,
{
    lemma_wrap_value(u + d1);
    lemma_wrap_value(u + d2);
}

/// The nine neighborhood positions of a cell are pairwise distinct.
pub proof fn lemma_neighbor_injective(c: GridXY, i: int, j: int)
    requires
        0 <= i < 9,
        0 <= j < 9,
        neighbor(c, i) == neighbor(c, j),
    ensures
        i == j,
{
    vstd::arithmetic::div_mod::lemma_mod_bound(c.x + (i % 3) - 1, 256);
    vstd::arithmetic::div_mod::lemma_mod_bound(c.x + (j % 3) - 1, 256);
    vstd::arithmetic::div_mod::lemma_mod_bound(c.y + (i / 3) - 1, 256);
    vstd::arithmetic::div_mod::lemma_mod_bound(c.y + (j / 3) - 1, 256);
    lemma_wrap_injective(c.x as int, i % 3 - 1, j % 3 - 1);
    lemma_wrap_injective(c.y as int, i / 3 - 1, j / 3 - 1);
    vstd::arithmetic::div_mod::lemma_fundamental_div_mod(i, 3);
    vstd::arithmetic::div_mod::lemma_fundamental_div_mod(j, 3);
}

/// Adjacency is symmetric: when `b` lies in `a`'s neighborhood, `a`
/// lies in `b`'s, at the mirrored position.
pub proof fn lemma_adjacent_symmetric(a: GridXY, b: GridXY)
    requires
        adjacent(a, b),
    ensures
        adjacent(b, a),
{
    let i = choose|i: int| 0 <= i < 9 && neighbor(a, i) == b;
    let r = i % 3;
    let q = i / 3;
    vstd::arithmetic::div_mod::lemma_fundamental_div_mod(i, 3);
    vstd::arithmetic::div_mod::lemma_mod_pos_bound(i, 3);
    let m = 8 - i;
    vstd::arithmetic::div_mod::lemma_fundamental_div_mod_converse_mod(m, 3, 2 - q, 2 - r);
    vstd::arithmetic::div_mod::lemma_fundamental_div_mod_converse_div(m, 3, 2 - q, 2 - r);
    vstd::arithmetic::div_mod::lemma_mod_bound(a.x + r - 1, 256);
    vstd::arithmetic::div_mod::lemma_mod_bound(a.y + q - 1, 256);
    assert(b.x as int == (a.x + r - 1) % 256);
    assert(b.y as int == (a.y + q - 1) % 256);
    vstd::arithmetic::div_mod::lemma_add_mod_noop_right(1 - r, a.x + r - 1, 256);
    vstd::arithmetic::div_mod::lemma_add_mod_noop_right(1 - q, a.y + q - 1, 256);
    vstd::arithmetic::div_mod::lemma_small_mod(a.x as nat, 256nat);
    vstd::arithmetic::div_mod::lemma_small_mod(a.y as nat, 256nat);
    assert(neighbor(b, m).x == a.x);
    assert(neighbor(b, m).y == a.y);
    assert(0 <= m < 9 && neighbor(b, m) == a);
}

/// The connecting segment from a road anchor to a neighboring cell.
pub open spec fn road_line(x: int, y: int, n: GridXY, op: int) -> DirectiveModel {
    DirectiveModel::Line {
        x1: x,
        y1: y,
        x2: n.x * SCALE,
        y2: n.y * SCALE,
        width: (30 * CENTI) as int,
        color: Color::Road,
        opacity: op,
    }
}

/// The connecting segments a new road cell `c` draws toward the first `i`
/// positions of its neighborhood, given the road set `s` as it stands
/// after `c`'s own insertion.
pub open spec fn links_upto(x: int, y: int, c: GridXY, s: Set<u16>, op: int, i: int)
    -> Seq<DirectiveModel>
    decreases i,
{
    if i <= 0 {
        Seq::empty()
    } else {
        links_upto(x, y, c, s, op, i - 1) + if s.contains(cell_code(neighbor(c, i - 1))) {
            seq![road_line(x, y, neighbor(c, i - 1), op)]
        } else {
            Seq::empty()
        }
    }
}

/// Everything one road placement emits: the road dot, then — only when
/// the cell is newly inserted — its connecting segments.
pub open spec fn road_placement(s: Set<u16>, x: int, y: int, op: int) -> Seq<DirectiveModel> {
    let c = cell_at(x, y);
    if s.contains(cell_code(c)) {
        road_icon(x, y, op)
    } else {
        road_icon(x, y, op) + links_upto(x, y, c, s.insert(cell_code(c)), op, 9)
    }
}

/// The road set after one placement.
pub open spec fn roads_after_place(s: Set<u16>, x: int, y: int) -> Set<u16> {
    s.insert(cell_code(cell_at(x, y)))
}

/// Places one road: draws the dot, and connects a newly inserted cell to
/// every neighborhood position already present, in row-major order.
pub fn place_road(
    roads: &mut HashSet<u16>,
    buf: &mut Vec<Directive>,
    x: Units,
    y: Units,
    opacity: Units,
)
    ensures
        final(roads)@ == roads_after_place(old(roads)@, x as int, y as int),
        buffer_model(final(buf)@) == buffer_model(old(buf)@)
            + road_placement(old(roads)@, x as int, y as int, opacity as int),
{
    compose_road_icon(buf, x, y, opacity);
    let c = cell_at_units(x, y);
    let code = code_of(c);
    if roads.insert(code) {
        let ghost s = roads@;
        let mut i: usize = 0;
        while i < 9
            invariant
                i <= 9,
                roads@ == s,
                s == old(roads)@.insert(cell_code(c)),
                c == cell_at(x as int, y as int),
                buffer_model(buf@) == buffer_model(old(buf)@)
                    + road_icon(x as int, y as int, opacity as int)
                    + links_upto(x as int, y as int, c, s, opacity as int, i as int),
            decreases 9 - i,
        {
            let n = neighbor_cell(c, i);
            let ncode = code_of(n);
            if roads.contains(&ncode) {
                push_directive(
                    buf,
                    Directive::Line {
                        x1: x,
                        y1: y,
                        x2: (n.x as Units) * SCALE,
                        y2: (n.y as Units) * SCALE,
                        width: 30 * CENTI,
                        color: Color::Road,
                        opacity,
                    },
                );
            }
            i = i + 1;
            proof {
                assert(buffer_model(buf@) =~~= buffer_model(old(buf)@)
                    + road_icon(x as int, y as int, opacity as int)
                    + links_upto(x as int, y as int, c, s, opacity as int, i as int));
            }
        }
    } else {
        proof {
            assert(old(roads)@.insert(cell_code(c)) =~= old(roads)@);
        }
    }
}

} // verus!
