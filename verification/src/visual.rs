//! The facade: one rendering frame's directive buffer together with the
//! road connector's state, behind the public entry points.
//!
//! A value of `RoomVisualExt` is created once per rendering target and
//! discarded after the frame's directives have been handed to the host's
//! drawing surface; it holds no cross-frame state.

use std::collections::HashSet;

use vstd::prelude::*;

use crate::geom::{
    buffer_model, coord_in_range, opacity_in_range, push_directive, Color, Directive,
    DirectiveModel, Point, Style, Units, SCALE,
};
use crate::icons::{compose_icon, icon_model, StructureKind};
use crate::roads::{cell_code, place_road, road_placement, roads_after_place, GridXY};

verus! {

broadcast use vstd::std_specs::hash::group_hash_axioms;

/// Everything one `structure` call emits.
pub open spec fn placement_model(
    s: Set<u16>,
    kind: StructureKind,
    x: int,
    y: int,
    op: int,
) -> Seq<DirectiveModel> {
    if kind == StructureKind::Road {
        road_placement(s, x, y, op)
    } else {
        icon_model(kind, x, y, op)
    }
}

/// The road set after one `structure` call: only a road placement
/// records its cell; every other kind leaves the set alone.
pub open spec fn roads_model_after(s: Set<u16>, kind: StructureKind, x: int, y: int) -> Set<
    u16,
> {
    if kind == StructureKind::Road {
        roads_after_place(s, x, y)
    } else {
        s
    }
}

/// One rendering frame: the ordered directive buffer for the host's
/// drawing surface, plus the set of road cells already placed.
pub struct RoomVisualExt {
    directives: Vec<Directive>,
    roads: HashSet<u16>,
}

impl RoomVisualExt {
    /// The frame's emission stream so far, in draw order.
    pub closed spec fn frame(&self) -> Seq<DirectiveModel> {
        buffer_model(self.directives@)
    }

    /// The set of packed road-cell keys already placed this frame.
    pub closed spec fn road_set(&self) -> Set<u16> {
        self.roads@
    }

    /// A fresh frame: nothing drawn, no roads placed.
    pub fn new() -> (v: Self)
        ensures
            v.frame() == Seq::<DirectiveModel>::empty(),
            v.road_set() == Set::<u16>::empty(),
    {
        let v = RoomVisualExt { directives: Vec::new(), roads: HashSet::new() };
        proof {
            assert(v.frame() =~= Seq::<DirectiveModel>::empty());
        }
        v
    }

    /// Draws the given structure kind at the `(x, y)` anchor with the
    /// given opacity. Anchors are expected to be whole tiles when the
    /// icon should align to one, but that is not validated. A road also
    /// connects itself to already-placed neighboring roads; an
    /// unrecognized kind draws nothing and records nothing.
    pub fn structure(&mut self, x: Units, y: Units, structure_type: StructureKind, opacity: Units)
        requires
            coord_in_range(x as int),
            coord_in_range(y as int),
            opacity_in_range(opacity as int),
        ensures
            final(self).frame() == old(self).frame()
                + placement_model(
                old(self).road_set(),
                structure_type,
                x as int,
                y as int,
                opacity as int,
            ),
            final(self).road_set() == roads_model_after(
                old(self).road_set(),
                structure_type,
                x as int,
                y as int,
            ),
    {
        match structure_type {
            StructureKind::Road => place_road(&mut self.roads, &mut self.directives, x, y, opacity),
            _ => compose_icon(&mut self.directives, structure_type, x, y, opacity),
        }
    }

    /// Draws the given structure kind in an integer grid tile: the
    /// convenience overload converting the cell to fixed-point anchor
    /// coordinates.
    pub fn structure_roomxy(&mut self, xy: GridXY, structure_type: StructureKind, opacity: Units)
        requires
            opacity_in_range(opacity as int),
        ensures
            final(self).frame() == old(self).frame()
                + placement_model(
                old(self).road_set(),
                structure_type,
                xy.x * SCALE,
                xy.y * SCALE,
                opacity as int,
            ),
            final(self).road_set() == roads_model_after(
                old(self).road_set(),
                structure_type,
                xy.x * SCALE,
                xy.y * SCALE,
            ),
    {
        let x: Units = (xy.x as Units) * SCALE;
        let y: Units = (xy.y as Units) * SCALE;
        self.structure(x, y, structure_type, opacity);
    }

    /// Pass-through primitive: appends one raw circle directive.
    pub fn circle(&mut self, x: Units, y: Units, radius: Units, style: Style)
        ensures
            final(self).frame() == old(self).frame().push(
                DirectiveModel::Circle { x: x as int, y: y as int, radius: radius as int, style: style@ },
            ),
            final(self).road_set() == old(self).road_set(),
    {
        push_directive(&mut self.directives, Directive::Circle { x, y, radius, style });
    }

    /// Pass-through primitive: appends one raw rectangle directive.
    pub fn rect(&mut self, x: Units, y: Units, width: Units, height: Units, style: Style)
        ensures
            final(self).frame() == old(self).frame().push(
                DirectiveModel::Rect {
                    x: x as int,
                    y: y as int,
                    width: width as int,
                    height: height as int,
                    style: style@,
                },
            ),
            final(self).road_set() == old(self).road_set(),
    {
        push_directive(&mut self.directives, Directive::Rect { x, y, width, height, style });
    }

    /// Pass-through primitive: appends one raw polygon directive.
    pub fn poly(&mut self, points: Vec<Point>, style: Style)
        ensures
            final(self).frame() == old(self).frame().push(
                DirectiveModel::Poly {
                    points: points@.map_values(|p: Point| p@),
                    style: style@,
                },
            ),
            final(self).road_set() == old(self).road_set(),
    {
        push_directive(&mut self.directives, Directive::Poly { points, style });
    }

    /// Pass-through primitive: appends one raw line directive.
    pub fn line(
        &mut self,
        x1: Units,
        y1: Units,
        x2: Units,
        y2: Units,
        width: Units,
        color: Color,
        opacity: Units,
    )
        ensures
            final(self).frame() == old(self).frame().push(
                DirectiveModel::Line {
                    x1: x1 as int,
                    y1: y1 as int,
                    x2: x2 as int,
                    y2: y2 as int,
                    width: width as int,
                    color,
                    opacity: opacity as int,
                },
            ),
            final(self).road_set() == old(self).road_set(),
    {
        push_directive(
            &mut self.directives,
            Directive::Line { x1, y1, x2, y2, width, color, opacity },
        );
    }

    /// The directives emitted so far, in draw order, for submission to
    /// the host's drawing surface.
    pub fn directives(&self) -> (d: &Vec<Directive>)
        ensures
            buffer_model(d@) == self.frame(),
    {
        &self.directives
    }

    /// Whether a road has already been placed in the given cell this
    /// frame.
    pub fn is_road(&self, cell: GridXY) -> (b: bool)
        ensures
            b == self.road_set().contains(cell_code(cell)),
    {
        let code = crate::roads::code_of(cell);
        self.roads.contains(&code)
    }
}

} // verus!
