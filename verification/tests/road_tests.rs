use room_visual_ext::geom::{Color, Directive, Point, Style, SCALE};
use room_visual_ext::icons::{StructureKind, CENTI};
use room_visual_ext::roads::GridXY;
use room_visual_ext::visual::RoomVisualExt;

const OP: i128 = SCALE;

fn lines(dirs: &[Directive]) -> Vec<(i128, i128, i128, i128)> {
    dirs.iter()
        .filter_map(|d| match d {
            Directive::Line { x1, y1, x2, y2, .. } => Some((*x1, *y1, *x2, *y2)),
            _ => None,
        })
        .collect()
}

fn proper_lines(dirs: &[Directive]) -> Vec<(i128, i128, i128, i128)> {
    lines(dirs).into_iter().filter(|(x1, y1, x2, y2)| x1 != x2 || y1 != y2).collect()
}

fn dots(dirs: &[Directive]) -> usize {
    dirs.iter()
        .filter(|d| matches!(d, Directive::Circle { radius, .. } if *radius == 15 * CENTI))
        .count()
}

fn place_road(v: &mut RoomVisualExt, x: i128, y: i128) {
    v.structure(x, y, StructureKind::Road, OP);
}

#[test]
fn road_placement_is_idempotent() {
    let mut v = RoomVisualExt::new();
    place_road(&mut v, 10 * SCALE, 10 * SCALE);
    let after_first = v.directives().len();
    // the dot plus the degenerate self-segment
    assert_eq!(after_first, 2);
    place_road(&mut v, 10 * SCALE, 10 * SCALE);
    // the second placement draws the dot again but no segment at all
    assert_eq!(v.directives().len(), after_first + 1);
    assert_eq!(dots(v.directives()), 2);
    assert_eq!(lines(v.directives()).len(), 1);
}

#[test]
fn connection_is_symmetric_but_attributed_to_the_second_call() {
    // a then b
    let mut v = RoomVisualExt::new();
    place_road(&mut v, 10 * SCALE, 10 * SCALE);
    let first_call_proper = proper_lines(v.directives()).len();
    assert_eq!(first_call_proper, 0);
    place_road(&mut v, 11 * SCALE, 10 * SCALE);
    let ab = proper_lines(v.directives());
    assert_eq!(ab.len(), 1);
    // drawn by b's call: from b's anchor to a's
    assert_eq!(ab[0], (11 * SCALE, 10 * SCALE, 10 * SCALE, 10 * SCALE));

    // b then a: same count, opposite attribution
    let mut w = RoomVisualExt::new();
    place_road(&mut w, 11 * SCALE, 10 * SCALE);
    place_road(&mut w, 10 * SCALE, 10 * SCALE);
    let ba = proper_lines(w.directives());
    assert_eq!(ba.len(), 1);
    assert_eq!(ba[0], (10 * SCALE, 10 * SCALE, 11 * SCALE, 10 * SCALE));
}

#[test]
fn full_block_draws_one_segment_per_adjacent_pair() {
    let mut v = RoomVisualExt::new();
    for y in 10..13 {
        for x in 10..13 {
            place_road(&mut v, x * SCALE, y * SCALE);
        }
    }
    assert_eq!(dots(v.directives()), 9);
    // 12 edge-adjacent + 8 diagonal-adjacent pairs among the 9 cells
    assert_eq!(proper_lines(v.directives()).len(), 20);
    // plus one degenerate self-segment per newly placed cell
    assert_eq!(lines(v.directives()).len(), 29);
}

#[test]
fn end_to_end_scenario() {
    let mut v = RoomVisualExt::new();
    place_road(&mut v, 10 * SCALE, 10 * SCALE);
    place_road(&mut v, 11 * SCALE, 10 * SCALE);
    place_road(&mut v, 10 * SCALE, 11 * SCALE);
    let dirs = v.directives();
    assert_eq!(dots(dirs), 3);
    let proper = proper_lines(dirs);
    // second call linked (11,10) back to (10,10)
    assert_eq!(proper[0], (11 * SCALE, 10 * SCALE, 10 * SCALE, 10 * SCALE));
    // third call linked (10,11) back to (10,10) — and, because (11,10)
    // lies diagonally in (10,11)'s 3x3 neighborhood, back to (11,10) too
    assert_eq!(proper[1], (10 * SCALE, 11 * SCALE, 10 * SCALE, 10 * SCALE));
    assert_eq!(proper[2], (10 * SCALE, 11 * SCALE, 11 * SCALE, 10 * SCALE));
    // one segment per adjacent pair among the three cells, nothing more
    assert_eq!(proper.len(), 3);
}

#[test]
fn road_lines_use_road_style() {
    let mut v = RoomVisualExt::new();
    place_road(&mut v, 10 * SCALE, 10 * SCALE);
    place_road(&mut v, 11 * SCALE, 10 * SCALE);
    for d in v.directives() {
        if let Directive::Line { width, color, opacity, .. } = d {
            assert_eq!(*width, 30 * CENTI);
            assert_eq!(*color, Color::Road);
            assert_eq!(*opacity, OP);
        }
    }
}

#[test]
fn unrecognized_kind_does_not_record_roads() {
    let mut v = RoomVisualExt::new();
    v.structure(10 * SCALE, 10 * SCALE, StructureKind::Unrecognized, OP);
    assert!(v.directives().is_empty());
    assert!(!v.is_road(GridXY { x: 10, y: 10 }));
}

#[test]
fn non_road_kinds_do_not_record_roads() {
    let mut v = RoomVisualExt::new();
    v.structure(10 * SCALE, 10 * SCALE, StructureKind::Spawn, OP);
    assert!(!v.is_road(GridXY { x: 10, y: 10 }));
}

#[test]
fn road_cell_membership_is_recorded() {
    let mut v = RoomVisualExt::new();
    place_road(&mut v, 10 * SCALE, 10 * SCALE);
    assert!(v.is_road(GridXY { x: 10, y: 10 }));
    assert!(!v.is_road(GridXY { x: 11, y: 10 }));
}

#[test]
fn fractional_anchor_truncates_to_its_tile() {
    let mut v = RoomVisualExt::new();
    // 10.5 tiles falls in cell 10
    place_road(&mut v, 10 * SCALE + SCALE / 2, 10 * SCALE);
    assert!(v.is_road(GridXY { x: 10, y: 10 }));
    // placing the whole tile afterwards is a re-placement of the same cell
    place_road(&mut v, 10 * SCALE, 10 * SCALE);
    assert_eq!(lines(v.directives()).len(), 1);
}

#[test]
fn out_of_range_anchor_saturates_into_the_grid_type() {
    let mut v = RoomVisualExt::new();
    place_road(&mut v, -3 * SCALE, 300 * SCALE);
    assert!(v.is_road(GridXY { x: 0, y: 255 }));
}

#[test]
fn structure_roomxy_places_at_the_cell_anchor() {
    let mut v = RoomVisualExt::new();
    v.structure_roomxy(GridXY { x: 7, y: 9 }, StructureKind::Spawn, OP);
    match &v.directives()[0] {
        Directive::Circle { x, y, .. } => {
            assert_eq!(*x, 7 * SCALE);
            assert_eq!(*y, 9 * SCALE);
        }
        other => panic!("expected spawn circle, got {:?}", other),
    }
    let mut w = RoomVisualExt::new();
    w.structure_roomxy(GridXY { x: 7, y: 9 }, StructureKind::Road, OP);
    assert!(w.is_road(GridXY { x: 7, y: 9 }));
}

#[test]
fn pass_through_primitives_append_in_order() {
    let mut v = RoomVisualExt::new();
    let style = Style { fill: Some(Color::White), stroke: None, stroke_width: None, opacity: OP };
    v.circle(SCALE, 2 * SCALE, 30 * CENTI, style);
    v.rect(0, 0, SCALE, SCALE, style);
    v.poly(vec![Point { x: 0, y: 0 }, Point { x: SCALE, y: SCALE }], style);
    v.line(0, 0, SCALE, 0, 10 * CENTI, Color::Gray, OP);
    let dirs = v.directives();
    assert_eq!(dirs.len(), 4);
    assert!(matches!(&dirs[0], Directive::Circle { radius, .. } if *radius == 30 * CENTI));
    assert!(matches!(&dirs[1], Directive::Rect { .. }));
    assert!(matches!(&dirs[2], Directive::Poly { points, .. } if points.len() == 2));
    assert!(matches!(&dirs[3], Directive::Line { color: Color::Gray, .. }));
    // pass-through drawing records no road cell
    assert!(!v.is_road(GridXY { x: 0, y: 0 }));
}
