//! Icon composition: the fixed, ordered list of primitive directives that
//! renders one entity kind at an anchor position with a given opacity.
//!
//! Every composition is a pure function of kind, anchor and opacity. The
//! geometry below is a fixed visual contract; each icon uses the minimal
//! primitive count that keeps it recognizable, because the serialized size
//! of the emitted directives is bounded by the host.

use vstd::prelude::*;

use crate::geom::{
    buffer_model, coord_in_range, opacity_in_range, push_directive, Color,
    Directive, DirectiveModel, Point, PointModel, Style, StyleModel, Units, SCALE,
};

verus! {

/// One hundredth of a grid tile in fixed-point units.
pub const CENTI: Units = 1_000_000_000_000_000;

/// One thousandth of a grid tile in fixed-point units.
pub const MILLI: Units = 100_000_000_000_000;

/// The closed set of renderable structure kinds, plus `Unrecognized` for
/// any kind without a fixed icon composition (a silent no-op).
#[derive(Clone, Copy, PartialEq, Eq, Structural, Debug)]
pub enum StructureKind {
    Spawn,
    Extension,
    Road,
    Wall,
    Rampart,
    Link,
    Storage,
    Tower,
    Observer,
    PowerSpawn,
    Extractor,
    Lab,
    Terminal,
    Container,
    Nuker,
    Factory,
    Unrecognized,
}

/// A style with a fill alone; stroke fields take the surface's defaults.
pub open spec fn fill_only(fill: Color, op: int) -> StyleModel {
    StyleModel { fill: Some(fill), stroke: None, stroke_width: None, opacity: op }
}

/// A style with a fill, a stroke and a stroke width.
pub open spec fn fill_stroke(fill: Color, stroke: Color, w: int, op: int) -> StyleModel {
    StyleModel { fill: Some(fill), stroke: Some(stroke), stroke_width: Some(w), opacity: op }
}

/// A style with a stroke alone; the fill takes the surface's default.
pub open spec fn stroke_only(stroke: Color, w: int, op: int) -> StyleModel {
    StyleModel { fill: None, stroke: Some(stroke), stroke_width: Some(w), opacity: op }
}

/// Spawn: outer dark circle with a light stroke, then an energy core.
pub open spec fn spawn_icon(x: int, y: int, op: int) -> Seq<DirectiveModel> {
    seq![
        DirectiveModel::Circle {
            x,
            y,
            radius: (65 * CENTI) as int,
            style: fill_stroke(Color::Dark, Color::Light, (10 * CENTI) as int, op),
        },
        DirectiveModel::Circle {
            x,
            y,
            radius: (40 * CENTI) as int,
            style: fill_only(Color::Energy, op),
        },
    ]
}

fn compose_spawn(buf: &mut Vec<Directive>, x: Units, y: Units, opacity: Units)
    ensures
        buffer_model(final(buf)@) == buffer_model(old(buf)@)
            + spawn_icon(x as int, y as int, opacity as int),
{
    push_directive(
        buf,
        Directive::Circle {
            x,
            y,
            radius: 65 * CENTI,
            style: Style {
                fill: Some(Color::Dark),
                stroke: Some(Color::Light),
                stroke_width: Some(10 * CENTI),
                opacity,
            },
        },
    );
    push_directive(
        buf,
        Directive::Circle {
            x,
            y,
            radius: 40 * CENTI,
            style: Style { fill: Some(Color::Energy), stroke: None, stroke_width: None, opacity },
        },
    );
    proof {
        assert(buffer_model(buf@) =~~= buffer_model(old(buf)@)
            + spawn_icon(x as int, y as int, opacity as int));
    }
}

/// Extension: outer dark circle with an outline stroke, then an energy core.
pub open spec fn extension_icon(x: int, y: int, op: int) -> Seq<DirectiveModel> {
    seq![
        DirectiveModel::Circle {
            x,
            y,
            radius: (45 * CENTI) as int,
            style: fill_stroke(Color::Dark, Color::Outline, (5 * CENTI) as int, op),
        },
        DirectiveModel::Circle {
            x,
            y,
            radius: (32 * CENTI) as int,
            style: fill_only(Color::Energy, op),
        },
    ]
}

fn compose_extension(buf: &mut Vec<Directive>, x: Units, y: Units, opacity: Units)
    ensures
        buffer_model(final(buf)@) == buffer_model(old(buf)@)
            + extension_icon(x as int, y as int, opacity as int),
{
    push_directive(
        buf,
        Directive::Circle {
            x,
            y,
            radius: 45 * CENTI,
            style: Style {
                fill: Some(Color::Dark),
                stroke: Some(Color::Outline),
                stroke_width: Some(5 * CENTI),
                opacity,
            },
        },
    );
    push_directive(
        buf,
        Directive::Circle {
            x,
            y,
            radius: 32 * CENTI,
            style: Style { fill: Some(Color::Energy), stroke: None, stroke_width: None, opacity },
        },
    );
    proof {
        assert(buffer_model(buf@) =~~= buffer_model(old(buf)@)
            + extension_icon(x as int, y as int, opacity as int));
    }
}

/// Road: a single road-colored dot. Connecting segments to neighboring
/// road cells are the road connector's work, not part of this icon.
pub open spec fn road_icon(x: int, y: int, op: int) -> Seq<DirectiveModel> {
    seq![
        DirectiveModel::Circle {
            x,
            y,
            radius: (15 * CENTI) as int,
            style: fill_only(Color::Road, op),
        },
    ]
}

pub(crate) fn compose_road_icon(buf: &mut Vec<Directive>, x: Units, y: Units, opacity: Units)
    ensures
        buffer_model(final(buf)@) == buffer_model(old(buf)@)
            + road_icon(x as int, y as int, opacity as int),
{
    push_directive(
        buf,
        Directive::Circle {
            x,
            y,
            radius: 15 * CENTI,
            style: Style { fill: Some(Color::Road), stroke: None, stroke_width: None, opacity },
        },
    );
    proof {
        assert(buffer_model(buf@) =~~= buffer_model(old(buf)@)
            + road_icon(x as int, y as int, opacity as int));
    }
}

/// Wall: a full dark tile, then two short diagonal stripe lines.
pub open spec fn wall_icon(x: int, y: int, op: int) -> Seq<DirectiveModel> {
    seq![
        DirectiveModel::Rect {
            x: x - 50 * CENTI,
            y: y - 50 * CENTI,
            width: SCALE as int,
            height: SCALE as int,
            style: fill_stroke(Color::Dark, Color::Black, (7 * CENTI) as int, op),
        },
        DirectiveModel::Line {
            x1: x - 25 * CENTI,
            y1: y - 15 * CENTI,
            x2: x + 5 * CENTI,
            y2: y - 15 * CENTI,
            width: (5 * CENTI) as int,
            color: Color::Road,
            opacity: op,
        },
        DirectiveModel::Line {
            x1: x - 5 * CENTI,
            y1: y + 15 * CENTI,
            x2: x + 25 * CENTI,
            y2: y + 15 * CENTI,
            width: (5 * CENTI) as int,
            color: Color::Road,
            opacity: op,
        },
    ]
}

fn compose_wall(buf: &mut Vec<Directive>, x: Units, y: Units, opacity: Units)
    requires
        coord_in_range(x as int),
        coord_in_range(y as int),
    ensures
        buffer_model(final(buf)@) == buffer_model(old(buf)@)
            + wall_icon(x as int, y as int, opacity as int),
{
    push_directive(
        buf,
        Directive::Rect {
            x: x - 50 * CENTI,
            y: y - 50 * CENTI,
            width: SCALE,
            height: SCALE,
            style: Style {
                fill: Some(Color::Dark),
                stroke: Some(Color::Black),
                stroke_width: Some(7 * CENTI),
                opacity,
            },
        },
    );
    push_directive(
        buf,
        Directive::Line {
            x1: x - 25 * CENTI,
            y1: y - 15 * CENTI,
            x2: x + 5 * CENTI,
            y2: y - 15 * CENTI,
            width: 5 * CENTI,
            color: Color::Road,
            opacity,
        },
    );
    push_directive(
        buf,
        Directive::Line {
            x1: x - 5 * CENTI,
            y1: y + 15 * CENTI,
            x2: x + 25 * CENTI,
            y2: y + 15 * CENTI,
            width: 5 * CENTI,
            color: Color::Road,
            opacity,
        },
    );
    proof {
        assert(buffer_model(buf@) =~~= buffer_model(old(buf)@)
            + wall_icon(x as int, y as int, opacity as int));
    }
}

/// The fixed attenuation a rampart overlay applies on top of the caller's
/// opacity: three tenths, rounded toward zero at the last fixed-point digit.
pub open spec fn rampart_opacity(op: int) -> int {
    op * 3 / 10
}

/// Rampart: a single translucent tile overlay, always drawn over the
/// structure it covers, at three tenths of the caller's opacity.
pub open spec fn rampart_icon(x: int, y: int, op: int) -> Seq<DirectiveModel> {
    seq![
        DirectiveModel::Rect {
            x: x - 50 * CENTI,
            y: y - 50 * CENTI,
            width: SCALE as int,
            height: SCALE as int,
            style: fill_stroke(
                Color::Rampart,
                Color::RampartOutline,
                (7 * CENTI) as int,
                rampart_opacity(op),
            ),
        },
    ]
}

fn compose_rampart(buf: &mut Vec<Directive>, x: Units, y: Units, opacity: Units)
    requires
        coord_in_range(x as int),
        coord_in_range(y as int),
        opacity_in_range(opacity as int),
    ensures
        buffer_model(final(buf)@) == buffer_model(old(buf)@)
            + rampart_icon(x as int, y as int, opacity as int),
{
    let attenuated: Units = opacity * 3 / 10;
    push_directive(
        buf,
        Directive::Rect {
            x: x - 50 * CENTI,
            y: y - 50 * CENTI,
            width: SCALE,
            height: SCALE,
            style: Style {
                fill: Some(Color::Rampart),
                stroke: Some(Color::RampartOutline),
                stroke_width: Some(7 * CENTI),
                opacity: attenuated,
            },
        },
    );
    proof {
        assert(buffer_model(buf@) =~~= buffer_model(old(buf)@)
            + rampart_icon(x as int, y as int, opacity as int));
    }
}

/// Storage: an octagon-like outline polygon, then a centered energy
/// rectangle.
pub open spec fn storage_icon(x: int, y: int, op: int) -> Seq<DirectiveModel> {
    seq![
        DirectiveModel::Poly {
            points: seq![
                PointModel { x: x - 45 * CENTI, y: y - 55 * CENTI },
                PointModel { x: x, y: y - 65 * CENTI },
                PointModel { x: x + 45 * CENTI, y: y - 55 * CENTI },
                PointModel { x: x + 55 * CENTI, y: y },
                PointModel { x: x + 45 * CENTI, y: y + 55 * CENTI },
                PointModel { x: x, y: y + 65 * CENTI },
                PointModel { x: x - 45 * CENTI, y: y + 55 * CENTI },
                PointModel { x: x - 55 * CENTI, y: y },
                PointModel { x: x - 45 * CENTI, y: y - 55 * CENTI },
            ],
            style: fill_stroke(Color::Dark, Color::Outline, (7 * CENTI) as int, op),
        },
        DirectiveModel::Rect {
            x: x - 35 * CENTI,
            y: y - 45 * CENTI,
            width: (70 * CENTI) as int,
            height: (90 * CENTI) as int,
            style: fill_only(Color::Energy, op),
        },
    ]
}

fn compose_storage(buf: &mut Vec<Directive>, x: Units, y: Units, opacity: Units)
    requires
        coord_in_range(x as int),
        coord_in_range(y as int),
    ensures
        buffer_model(final(buf)@) == buffer_model(old(buf)@)
            + storage_icon(x as int, y as int, opacity as int),
{
    let outline_points: Vec<Point> = vec![
        Point { x: x - 45 * CENTI, y: y - 55 * CENTI },
        Point { x, y: y - 65 * CENTI },
        Point { x: x + 45 * CENTI, y: y - 55 * CENTI },
        Point { x: x + 55 * CENTI, y },
        Point { x: x + 45 * CENTI, y: y + 55 * CENTI },
        Point { x, y: y + 65 * CENTI },
        Point { x: x - 45 * CENTI, y: y + 55 * CENTI },
        Point { x: x - 55 * CENTI, y },
        Point { x: x - 45 * CENTI, y: y - 55 * CENTI },
    ];
    push_directive(
        buf,
        Directive::Poly {
            points: outline_points,
            style: Style {
                fill: Some(Color::Dark),
                stroke: Some(Color::Outline),
                stroke_width: Some(7 * CENTI),
                opacity,
            },
        },
    );
    push_directive(
        buf,
        Directive::Rect {
            x: x - 35 * CENTI,
            y: y - 45 * CENTI,
            width: 70 * CENTI,
            height: 90 * CENTI,
            style: Style { fill: Some(Color::Energy), stroke: None, stroke_width: None, opacity },
        },
    );
    proof {
        assert(buffer_model(buf@) =~~= buffer_model(old(buf)@)
            + storage_icon(x as int, y as int, opacity as int));
    }
}

/// Tower: an outlined circle, an energy container rectangle, then the
/// barrel rectangle above the center.
pub open spec fn tower_icon(x: int, y: int, op: int) -> Seq<DirectiveModel> {
    seq![
        DirectiveModel::Circle {
            x,
            y,
            radius: (60 * CENTI) as int,
            style: fill_stroke(Color::Dark, Color::Outline, (7 * CENTI) as int, op),
        },
        DirectiveModel::Rect {
            x: x - 40 * CENTI,
            y: y - 30 * CENTI,
            width: (80 * CENTI) as int,
            height: (60 * CENTI) as int,
            style: fill_only(Color::Energy, op),
        },
        DirectiveModel::Rect {
            x: x - 20 * CENTI,
            y: y - 90 * CENTI,
            width: (40 * CENTI) as int,
            height: (50 * CENTI) as int,
            style: fill_stroke(Color::Light, Color::Dark, (7 * CENTI) as int, op),
        },
    ]
}

fn compose_tower(buf: &mut Vec<Directive>, x: Units, y: Units, opacity: Units)
    requires
        coord_in_range(x as int),
        coord_in_range(y as int),
    ensures
        buffer_model(final(buf)@) == buffer_model(old(buf)@)
            + tower_icon(x as int, y as int, opacity as int),
{
    push_directive(
        buf,
        Directive::Circle {
            x,
            y,
            radius: 60 * CENTI,
            style: Style {
                fill: Some(Color::Dark),
                stroke: Some(Color::Outline),
                stroke_width: Some(7 * CENTI),
                opacity,
            },
        },
    );
    push_directive(
        buf,
        Directive::Rect {
            x: x - 40 * CENTI,
            y: y - 30 * CENTI,
            width: 80 * CENTI,
            height: 60 * CENTI,
            style: Style { fill: Some(Color::Energy), stroke: None, stroke_width: None, opacity },
        },
    );
    push_directive(
        buf,
        Directive::Rect {
            x: x - 20 * CENTI,
            y: y - 90 * CENTI,
            width: 40 * CENTI,
            height: 50 * CENTI,
            style: Style {
                fill: Some(Color::Light),
                stroke: Some(Color::Dark),
                stroke_width: Some(7 * CENTI),
                opacity,
            },
        },
    );
    proof {
        assert(buffer_model(buf@) =~~= buffer_model(old(buf)@)
            + tower_icon(x as int, y as int, opacity as int));
    }
}

/// Observer: an outlined circle, then a small offset eye dot.
pub open spec fn observer_icon(x: int, y: int, op: int) -> Seq<DirectiveModel> {
    seq![
        DirectiveModel::Circle {
            x,
            y,
            radius: (45 * CENTI) as int,
            style: fill_stroke(Color::Dark, Color::Outline, (5 * CENTI) as int, op),
        },
        DirectiveModel::Circle {
            x: x + 255 * MILLI,
            y,
            radius: (20 * CENTI) as int,
            style: fill_only(Color::Outline, op),
        },
    ]
}

fn compose_observer(buf: &mut Vec<Directive>, x: Units, y: Units, opacity: Units)
    requires
        coord_in_range(x as int),
        coord_in_range(y as int),
    ensures
        buffer_model(final(buf)@) == buffer_model(old(buf)@)
            + observer_icon(x as int, y as int, opacity as int),
{
    push_directive(
        buf,
        Directive::Circle {
            x,
            y,
            radius: 45 * CENTI,
            style: Style {
                fill: Some(Color::Dark),
                stroke: Some(Color::Outline),
                stroke_width: Some(5 * CENTI),
                opacity,
            },
        },
    );
    push_directive(
        buf,
        Directive::Circle {
            x: x + 255 * MILLI,
            y,
            radius: 20 * CENTI,
            style: Style { fill: Some(Color::Outline), stroke: None, stroke_width: None, opacity },
        },
    );
    proof {
        assert(buffer_model(buf@) =~~= buffer_model(old(buf)@)
            + observer_icon(x as int, y as int, opacity as int));
    }
}

/// PowerSpawn: the spawn silhouette with a power-colored stroke.
pub open spec fn power_spawn_icon(x: int, y: int, op: int) -> Seq<DirectiveModel> {
    seq![
        DirectiveModel::Circle {
            x,
            y,
            radius: (65 * CENTI) as int,
            style: fill_stroke(Color::Dark, Color::Power, (10 * CENTI) as int, op),
        },
        DirectiveModel::Circle {
            x,
            y,
            radius: (40 * CENTI) as int,
            style: fill_only(Color::Energy, op),
        },
    ]
}

fn compose_power_spawn(buf: &mut Vec<Directive>, x: Units, y: Units, opacity: Units)
    ensures
        buffer_model(final(buf)@) == buffer_model(old(buf)@)
            + power_spawn_icon(x as int, y as int, opacity as int),
{
    push_directive(
        buf,
        Directive::Circle {
            x,
            y,
            radius: 65 * CENTI,
            style: Style {
                fill: Some(Color::Dark),
                stroke: Some(Color::Power),
                stroke_width: Some(10 * CENTI),
                opacity,
            },
        },
    );
    push_directive(
        buf,
        Directive::Circle {
            x,
            y,
            radius: 40 * CENTI,
            style: Style { fill: Some(Color::Energy), stroke: None, stroke_width: None, opacity },
        },
    );
    proof {
        assert(buffer_model(buf@) =~~= buffer_model(old(buf)@)
            + power_spawn_icon(x as int, y as int, opacity as int));
    }
}

/// Link: a diamond outline, then a smaller energy diamond with a
/// transparent stroke.
pub open spec fn link_icon(x: int, y: int, op: int) -> Seq<DirectiveModel> {
    seq![
        DirectiveModel::Poly {
            points: seq![
                PointModel { x: x, y: y - 45 * CENTI },
                PointModel { x: x + 35 * CENTI, y: y },
                PointModel { x: x, y: y + 45 * CENTI },
                PointModel { x: x - 35 * CENTI, y: y },
                PointModel { x: x, y: y - 45 * CENTI },
            ],
            style: fill_stroke(Color::Dark, Color::Outline, (6 * CENTI) as int, op),
        },
        DirectiveModel::Poly {
            points: seq![
                PointModel { x: x, y: y - 25 * CENTI },
                PointModel { x: x + 20 * CENTI, y: y },
                PointModel { x: x, y: y + 25 * CENTI },
                PointModel { x: x - 20 * CENTI, y: y },
                PointModel { x: x, y: y - 25 * CENTI },
            ],
            style: StyleModel {
                fill: Some(Color::Energy),
                stroke: Some(Color::Transparent),
                stroke_width: None,
                opacity: op,
            },
        },
    ]
}

fn compose_link(buf: &mut Vec<Directive>, x: Units, y: Units, opacity: Units)
    requires
        coord_in_range(x as int),
        coord_in_range(y as int),
    ensures
        buffer_model(final(buf)@) == buffer_model(old(buf)@)
            + link_icon(x as int, y as int, opacity as int),
{
    let outline_points: Vec<Point> = vec![
        Point { x, y: y - 45 * CENTI },
        Point { x: x + 35 * CENTI, y },
        Point { x, y: y + 45 * CENTI },
        Point { x: x - 35 * CENTI, y },
        Point { x, y: y - 45 * CENTI },
    ];
    push_directive(
        buf,
        Directive::Poly {
            points: outline_points,
            style: Style {
                fill: Some(Color::Dark),
                stroke: Some(Color::Outline),
                stroke_width: Some(6 * CENTI),
                opacity,
            },
        },
    );
    let interior_points: Vec<Point> = vec![
        Point { x, y: y - 25 * CENTI },
        Point { x: x + 20 * CENTI, y },
        Point { x, y: y + 25 * CENTI },
        Point { x: x - 20 * CENTI, y },
        Point { x, y: y - 25 * CENTI },
    ];
    push_directive(
        buf,
        Directive::Poly {
            points: interior_points,
            style: Style {
                fill: Some(Color::Energy),
                stroke: Some(Color::Transparent),
                stroke_width: None,
                opacity,
            },
        },
    );
    proof {
        assert(buffer_model(buf@) =~~= buffer_model(old(buf)@)
            + link_icon(x as int, y as int, opacity as int));
    }
}

/// Extractor: three thick outline-colored lines forming an outward
/// triangle of arms around the tile center.
pub open spec fn extractor_icon(x: int, y: int, op: int) -> Seq<DirectiveModel> {
    seq![
        DirectiveModel::Line {
            x1: x - 40 * CENTI,
            y1: y - 69_282_032_302_755_100,
            x2: x + 40 * CENTI,
            y2: y - 69_282_032_302_755_100,
            width: (20 * CENTI) as int,
            color: Color::Outline,
            opacity: op,
        },
        DirectiveModel::Line {
            x1: x + 80 * CENTI,
            y1: y,
            x2: x + 40 * CENTI,
            y2: y + 69_282_032_302_755_100,
            width: (20 * CENTI) as int,
            color: Color::Outline,
            opacity: op,
        },
        DirectiveModel::Line {
            x1: x - 40 * CENTI,
            y1: y + 69_282_032_302_755_100,
            x2: x - 80 * CENTI,
            y2: y,
            width: (20 * CENTI) as int,
            color: Color::Outline,
            opacity: op,
        },
    ]
}

fn compose_extractor(buf: &mut Vec<Directive>, x: Units, y: Units, opacity: Units)
    requires
        coord_in_range(x as int),
        coord_in_range(y as int),
    ensures
        buffer_model(final(buf)@) == buffer_model(old(buf)@)
            + extractor_icon(x as int, y as int, opacity as int),
{
    push_directive(
        buf,
        Directive::Line {
            x1: x - 40 * CENTI,
            y1: y - 69_282_032_302_755_100,
            x2: x + 40 * CENTI,
            y2: y - 69_282_032_302_755_100,
            width: 20 * CENTI,
            color: Color::Outline,
            opacity,
        },
    );
    push_directive(
        buf,
        Directive::Line {
            x1: x + 80 * CENTI,
            y1: y,
            x2: x + 40 * CENTI,
            y2: y + 69_282_032_302_755_100,
            width: 20 * CENTI,
            color: Color::Outline,
            opacity,
        },
    );
    push_directive(
        buf,
        Directive::Line {
            x1: x - 40 * CENTI,
            y1: y + 69_282_032_302_755_100,
            x2: x - 80 * CENTI,
            y2: y,
            width: 20 * CENTI,
            color: Color::Outline,
            opacity,
        },
    );
    proof {
        assert(buffer_model(buf@) =~~= buffer_model(old(buf)@)
            + extractor_icon(x as int, y as int, opacity as int));
    }
}

/// Lab: an outlined flask circle slightly above center, its interior, a
/// mineral dot, the bottom rectangle, an energy strip, then the bottom
/// outline polygon.
pub open spec fn lab_icon(x: int, y: int, op: int) -> Seq<DirectiveModel> {
    seq![
        DirectiveModel::Circle {
            x,
            y: y - 25 * MILLI,
            radius: (50 * CENTI) as int,
            style: fill_stroke(Color::Dark, Color::Outline, (7 * CENTI) as int, op),
        },
        DirectiveModel::Circle {
            x,
            y: y - 25 * MILLI,
            radius: (35 * CENTI) as int,
            style: fill_only(Color::Gray, op),
        },
        DirectiveModel::Circle {
            x,
            y: y + 12 * CENTI,
            radius: (20 * CENTI) as int,
            style: fill_only(Color::White, op),
        },
        DirectiveModel::Rect {
            x: x - 45 * CENTI,
            y: y + 30 * CENTI,
            width: (90 * CENTI) as int,
            height: (25 * CENTI) as int,
            style: fill_only(Color::Dark, op),
        },
        DirectiveModel::Rect {
            x: x - 20 * CENTI,
            y: y + 36 * CENTI,
            width: (40 * CENTI) as int,
            height: (10 * CENTI) as int,
            style: fill_only(Color::Energy, op),
        },
        DirectiveModel::Poly {
            points: seq![
                PointModel { x: x - 45 * CENTI, y: y + 30 * CENTI },
                PointModel { x: x - 45 * CENTI, y: y + 55 * CENTI },
                PointModel { x: x + 45 * CENTI, y: y + 55 * CENTI },
                PointModel { x: x + 45 * CENTI, y: y + 30 * CENTI },
            ],
            style: stroke_only(Color::Outline, (7 * CENTI) as int, op),
        },
    ]
}

fn compose_lab(buf: &mut Vec<Directive>, x: Units, y: Units, opacity: Units)
    requires
        coord_in_range(x as int),
        coord_in_range(y as int),
    ensures
        buffer_model(final(buf)@) == buffer_model(old(buf)@)
            + lab_icon(x as int, y as int, opacity as int),
{
    push_directive(
        buf,
        Directive::Circle {
            x,
            y: y - 25 * MILLI,
            radius: 50 * CENTI,
            style: Style {
                fill: Some(Color::Dark),
                stroke: Some(Color::Outline),
                stroke_width: Some(7 * CENTI),
                opacity,
            },
        },
    );
    push_directive(
        buf,
        Directive::Circle {
            x,
            y: y - 25 * MILLI,
            radius: 35 * CENTI,
            style: Style { fill: Some(Color::Gray), stroke: None, stroke_width: None, opacity },
        },
    );
    push_directive(
        buf,
        Directive::Circle {
            x,
            y: y + 12 * CENTI,
            radius: 20 * CENTI,
            style: Style { fill: Some(Color::White), stroke: None, stroke_width: None, opacity },
        },
    );
    push_directive(
        buf,
        Directive::Rect {
            x: x - 45 * CENTI,
            y: y + 30 * CENTI,
            width: 90 * CENTI,
            height: 25 * CENTI,
            style: Style { fill: Some(Color::Dark), stroke: None, stroke_width: None, opacity },
        },
    );
    push_directive(
        buf,
        Directive::Rect {
            x: x - 20 * CENTI,
            y: y + 36 * CENTI,
            width: 40 * CENTI,
            height: 10 * CENTI,
            style: Style { fill: Some(Color::Energy), stroke: None, stroke_width: None, opacity },
        },
    );
    let bottom_points: Vec<Point> = vec![
        Point { x: x - 45 * CENTI, y: y + 30 * CENTI },
        Point { x: x - 45 * CENTI, y: y + 55 * CENTI },
        Point { x: x + 45 * CENTI, y: y + 55 * CENTI },
        Point { x: x + 45 * CENTI, y: y + 30 * CENTI },
    ];
    push_directive(
        buf,
        Directive::Poly {
            points: bottom_points,
            style: Style {
                fill: None,
                stroke: Some(Color::Outline),
                stroke_width: Some(7 * CENTI),
                opacity,
            },
        },
    );
    proof {
        assert(buffer_model(buf@) =~~= buffer_model(old(buf)@)
            + lab_icon(x as int, y as int, opacity as int));
    }
}

/// Terminal: an outer octagon outline, an inner light octagon, a gray
/// centered square, then the white mineral square.
pub open spec fn terminal_icon(x: int, y: int, op: int) -> Seq<DirectiveModel> {
    seq![
        DirectiveModel::Poly {
            points: seq![
                PointModel { x: x, y: y - 64 * CENTI },
                PointModel { x: x + 44 * CENTI, y: y - 44 * CENTI },
                PointModel { x: x + 64 * CENTI, y: y },
                PointModel { x: x + 44 * CENTI, y: y + 44 * CENTI },
                PointModel { x: x, y: y + 64 * CENTI },
                PointModel { x: x - 44 * CENTI, y: y + 44 * CENTI },
                PointModel { x: x - 64 * CENTI, y: y },
                PointModel { x: x - 44 * CENTI, y: y - 44 * CENTI },
                PointModel { x: x, y: y - 64 * CENTI },
            ],
            style: fill_stroke(Color::Dark, Color::Outline, (7 * CENTI) as int, op),
        },
        DirectiveModel::Poly {
            points: seq![
                PointModel { x: x, y: y - 52 * CENTI },
                PointModel { x: x + 36 * CENTI, y: y - 36 * CENTI },
                PointModel { x: x + 52 * CENTI, y: y },
                PointModel { x: x + 36 * CENTI, y: y + 36 * CENTI },
                PointModel { x: x, y: y + 52 * CENTI },
                PointModel { x: x - 36 * CENTI, y: y + 36 * CENTI },
                PointModel { x: x - 52 * CENTI, y: y },
                PointModel { x: x - 36 * CENTI, y: y - 36 * CENTI },
                PointModel { x: x, y: y - 52 * CENTI },
            ],
            style: StyleModel {
                fill: Some(Color::Light),
                stroke: Some(Color::Transparent),
                stroke_width: None,
                opacity: op,
            },
        },
        DirectiveModel::Rect {
            x: x - 36 * CENTI,
            y: y - 36 * CENTI,
            width: (72 * CENTI) as int,
            height: (72 * CENTI) as int,
            style: fill_stroke(Color::Gray, Color::Dark, (10 * CENTI) as int, op),
        },
        DirectiveModel::Rect {
            x: x - 20 * CENTI,
            y: y - 20 * CENTI,
            width: (40 * CENTI) as int,
            height: (40 * CENTI) as int,
            style: StyleModel {
                fill: Some(Color::White),
                stroke: Some(Color::Transparent),
                stroke_width: None,
                opacity: op,
            },
        },
    ]
}

fn compose_terminal(buf: &mut Vec<Directive>, x: Units, y: Units, opacity: Units)
    requires
        coord_in_range(x as int),
        coord_in_range(y as int),
    ensures
        buffer_model(final(buf)@) == buffer_model(old(buf)@)
            + terminal_icon(x as int, y as int, opacity as int),
{
    let outline_points: Vec<Point> = vec![
        Point { x, y: y - 64 * CENTI },
        Point { x: x + 44 * CENTI, y: y - 44 * CENTI },
        Point { x: x + 64 * CENTI, y },
        Point { x: x + 44 * CENTI, y: y + 44 * CENTI },
        Point { x, y: y + 64 * CENTI },
        Point { x: x - 44 * CENTI, y: y + 44 * CENTI },
        Point { x: x - 64 * CENTI, y },
        Point { x: x - 44 * CENTI, y: y - 44 * CENTI },
        Point { x, y: y - 64 * CENTI },
    ];
    push_directive(
        buf,
        Directive::Poly {
            points: outline_points,
            style: Style {
                fill: Some(Color::Dark),
                stroke: Some(Color::Outline),
                stroke_width: Some(7 * CENTI),
                opacity,
            },
        },
    );
    let interior_points: Vec<Point> = vec![
        Point { x, y: y - 52 * CENTI },
        Point { x: x + 36 * CENTI, y: y - 36 * CENTI },
        Point { x: x + 52 * CENTI, y },
        Point { x: x + 36 * CENTI, y: y + 36 * CENTI },
        Point { x, y: y + 52 * CENTI },
        Point { x: x - 36 * CENTI, y: y + 36 * CENTI },
        Point { x: x - 52 * CENTI, y },
        Point { x: x - 36 * CENTI, y: y - 36 * CENTI },
        Point { x, y: y - 52 * CENTI },
    ];
    push_directive(
        buf,
        Directive::Poly {
            points: interior_points,
            style: Style {
                fill: Some(Color::Light),
                stroke: Some(Color::Transparent),
                stroke_width: None,
                opacity,
            },
        },
    );
    push_directive(
        buf,
        Directive::Rect {
            x: x - 36 * CENTI,
            y: y - 36 * CENTI,
            width: 72 * CENTI,
            height: 72 * CENTI,
            style: Style {
                fill: Some(Color::Gray),
                stroke: Some(Color::Dark),
                stroke_width: Some(10 * CENTI),
                opacity,
            },
        },
    );
    push_directive(
        buf,
        Directive::Rect {
            x: x - 20 * CENTI,
            y: y - 20 * CENTI,
            width: 40 * CENTI,
            height: 40 * CENTI,
            style: Style {
                fill: Some(Color::White),
                stroke: Some(Color::Transparent),
                stroke_width: None,
                opacity,
            },
        },
    );
    proof {
        assert(buffer_model(buf@) =~~= buffer_model(old(buf)@)
            + terminal_icon(x as int, y as int, opacity as int));
    }
}

/// Container: a gray box with a dark stroke, then an energy fill offset
/// toward the lower right.
pub open spec fn container_icon(x: int, y: int, op: int) -> Seq<DirectiveModel> {
    seq![
        DirectiveModel::Rect {
            x: x - 25 * CENTI,
            y: y - 30 * CENTI,
            width: (50 * CENTI) as int,
            height: (60 * CENTI) as int,
            style: fill_stroke(Color::Gray, Color::Dark, (10 * CENTI) as int, op),
        },
        DirectiveModel::Rect {
            x: x - 192 * MILLI,
            y: y + 4 * CENTI,
            width: (39 * CENTI) as int,
            height: (23 * CENTI) as int,
            style: fill_only(Color::Energy, op),
        },
    ]
}

fn compose_container(buf: &mut Vec<Directive>, x: Units, y: Units, opacity: Units)
    requires
        coord_in_range(x as int),
        coord_in_range(y as int),
    ensures
        buffer_model(final(buf)@) == buffer_model(old(buf)@)
            + container_icon(x as int, y as int, opacity as int),
{
    push_directive(
        buf,
        Directive::Rect {
            x: x - 25 * CENTI,
            y: y - 30 * CENTI,
            width: 50 * CENTI,
            height: 60 * CENTI,
            style: Style {
                fill: Some(Color::Gray),
                stroke: Some(Color::Dark),
                stroke_width: Some(10 * CENTI),
                opacity,
            },
        },
    );
    push_directive(
        buf,
        Directive::Rect {
            x: x - 192 * MILLI,
            y: y + 4 * CENTI,
            width: 39 * CENTI,
            height: 23 * CENTI,
            style: Style { fill: Some(Color::Energy), stroke: None, stroke_width: None, opacity },
        },
    );
    proof {
        assert(buffer_model(buf@) =~~= buffer_model(old(buf)@)
            + container_icon(x as int, y as int, opacity as int));
    }
}

/// Nuker: a tall pointed outline polygon, an inner pointed energy
/// polygon, then the white base rectangle.
pub open spec fn nuker_icon(x: int, y: int, op: int) -> Seq<DirectiveModel> {
    seq![
        DirectiveModel::Poly {
            points: seq![
                PointModel { x: x, y: y - 100 * CENTI },
                PointModel { x: x - 47 * CENTI, y: y + 20 * CENTI },
                PointModel { x: x - 50 * CENTI, y: y + 50 * CENTI },
                PointModel { x: x + 50 * CENTI, y: y + 50 * CENTI },
                PointModel { x: x + 47 * CENTI, y: y + 20 * CENTI },
                PointModel { x: x, y: y - 100 * CENTI },
            ],
            style: fill_stroke(Color::Dark, Color::Outline, (7 * CENTI) as int, op),
        },
        DirectiveModel::Poly {
            points: seq![
                PointModel { x: x, y: y - 75 * CENTI },
                PointModel { x: x - 35 * CENTI, y: y + 20 * CENTI },
                PointModel { x: x + 35 * CENTI, y: y + 20 * CENTI },
                PointModel { x: x, y: y - 75 * CENTI },
            ],
            style: fill_stroke(Color::Energy, Color::Outline, (1 * CENTI) as int, op),
        },
        DirectiveModel::Rect {
            x: x - 35 * CENTI,
            y: y + 30 * CENTI,
            width: (70 * CENTI) as int,
            height: (10 * CENTI) as int,
            style: fill_only(Color::White, op),
        },
    ]
}

fn compose_nuker(buf: &mut Vec<Directive>, x: Units, y: Units, opacity: Units)
    requires
        coord_in_range(x as int),
        coord_in_range(y as int),
    ensures
        buffer_model(final(buf)@) == buffer_model(old(buf)@)
            + nuker_icon(x as int, y as int, opacity as int),
{
    let outline_points: Vec<Point> = vec![
        Point { x, y: y - 100 * CENTI },
        Point { x: x - 47 * CENTI, y: y + 20 * CENTI },
        Point { x: x - 50 * CENTI, y: y + 50 * CENTI },
        Point { x: x + 50 * CENTI, y: y + 50 * CENTI },
        Point { x: x + 47 * CENTI, y: y + 20 * CENTI },
        Point { x, y: y - 100 * CENTI },
    ];
    push_directive(
        buf,
        Directive::Poly {
            points: outline_points,
            style: Style {
                fill: Some(Color::Dark),
                stroke: Some(Color::Outline),
                stroke_width: Some(7 * CENTI),
                opacity,
            },
        },
    );
    let energy_points: Vec<Point> = vec![
        Point { x, y: y - 75 * CENTI },
        Point { x: x - 35 * CENTI, y: y + 20 * CENTI },
        Point { x: x + 35 * CENTI, y: y + 20 * CENTI },
        Point { x, y: y - 75 * CENTI },
    ];
    push_directive(
        buf,
        Directive::Poly {
            points: energy_points,
            style: Style {
                fill: Some(Color::Energy),
                stroke: Some(Color::Outline),
                stroke_width: Some(1 * CENTI),
                opacity,
            },
        },
    );
    push_directive(
        buf,
        Directive::Rect {
            x: x - 35 * CENTI,
            y: y + 30 * CENTI,
            width: 70 * CENTI,
            height: 10 * CENTI,
            style: Style { fill: Some(Color::White), stroke: None, stroke_width: None, opacity },
        },
    );
    proof {
        assert(buffer_model(buf@) =~~= buffer_model(old(buf)@)
            + nuker_icon(x as int, y as int, opacity as int));
    }
}

/// Factory: a gear-like outline, the outer circle, the spike polygon, the
/// level circle, the level-gap fan, the inner black circle, then the
/// mineral and energy half-rectangles.
pub open spec fn factory_icon(x: int, y: int, op: int) -> Seq<DirectiveModel> {
    seq![
        DirectiveModel::Poly {
            points: seq![
                PointModel { x: x - 68 * CENTI, y: y - 11 * CENTI },
                PointModel { x: x - 84 * CENTI, y: y - 18 * CENTI },
                PointModel { x: x - 84 * CENTI, y: y - 32 * CENTI },
                PointModel { x: x - 44 * CENTI, y: y - 44 * CENTI },
                PointModel { x: x - 32 * CENTI, y: y - 84 * CENTI },
                PointModel { x: x - 18 * CENTI, y: y - 84 * CENTI },
                PointModel { x: x - 11 * CENTI, y: y - 68 * CENTI },
                PointModel { x: x + 11 * CENTI, y: y - 68 * CENTI },
                PointModel { x: x + 18 * CENTI, y: y - 84 * CENTI },
                PointModel { x: x + 32 * CENTI, y: y - 84 * CENTI },
                PointModel { x: x + 44 * CENTI, y: y - 44 * CENTI },
                PointModel { x: x + 84 * CENTI, y: y - 32 * CENTI },
                PointModel { x: x + 84 * CENTI, y: y - 18 * CENTI },
                PointModel { x: x + 68 * CENTI, y: y - 11 * CENTI },
                PointModel { x: x + 68 * CENTI, y: y + 11 * CENTI },
                PointModel { x: x + 84 * CENTI, y: y + 18 * CENTI },
                PointModel { x: x + 84 * CENTI, y: y + 32 * CENTI },
                PointModel { x: x + 44 * CENTI, y: y + 44 * CENTI },
                PointModel { x: x + 32 * CENTI, y: y + 84 * CENTI },
                PointModel { x: x + 18 * CENTI, y: y + 84 * CENTI },
                PointModel { x: x + 11 * CENTI, y: y + 68 * CENTI },
                PointModel { x: x - 11 * CENTI, y: y + 68 * CENTI },
                PointModel { x: x - 18 * CENTI, y: y + 84 * CENTI },
                PointModel { x: x - 32 * CENTI, y: y + 84 * CENTI },
                PointModel { x: x - 44 * CENTI, y: y + 44 * CENTI },
                PointModel { x: x - 84 * CENTI, y: y + 32 * CENTI },
                PointModel { x: x - 84 * CENTI, y: y + 18 * CENTI },
                PointModel { x: x - 68 * CENTI, y: y + 11 * CENTI },
                PointModel { x: x - 68 * CENTI, y: y - 11 * CENTI },
            ],
            style: stroke_only(Color::Outline, (7 * CENTI) as int, op),
        },
        DirectiveModel::Circle {
            x,
            y,
            radius: (65 * CENTI) as int,
            style: fill_stroke(Color::FactoryOuterFill, Color::FactoryParts, (35 * MILLI) as int, op),
        },
        DirectiveModel::Poly {
            points: seq![
                PointModel { x: x - 40 * CENTI, y: y - 10 * CENTI },
                PointModel { x: x - 80 * CENTI, y: y - 20 * CENTI },
                PointModel { x: x - 80 * CENTI, y: y - 30 * CENTI },
                PointModel { x: x - 40 * CENTI, y: y - 40 * CENTI },
                PointModel { x: x - 30 * CENTI, y: y - 80 * CENTI },
                PointModel { x: x - 20 * CENTI, y: y - 80 * CENTI },
                PointModel { x: x - 10 * CENTI, y: y - 40 * CENTI },
                PointModel { x: x + 10 * CENTI, y: y - 40 * CENTI },
                PointModel { x: x + 20 * CENTI, y: y - 80 * CENTI },
                PointModel { x: x + 30 * CENTI, y: y - 80 * CENTI },
                PointModel { x: x + 40 * CENTI, y: y - 40 * CENTI },
                PointModel { x: x + 80 * CENTI, y: y - 30 * CENTI },
                PointModel { x: x + 80 * CENTI, y: y - 20 * CENTI },
                PointModel { x: x + 40 * CENTI, y: y - 10 * CENTI },
                PointModel { x: x + 40 * CENTI, y: y + 10 * CENTI },
                PointModel { x: x + 80 * CENTI, y: y + 20 * CENTI },
                PointModel { x: x + 80 * CENTI, y: y + 30 * CENTI },
                PointModel { x: x + 40 * CENTI, y: y + 40 * CENTI },
                PointModel { x: x + 30 * CENTI, y: y + 80 * CENTI },
                PointModel { x: x + 20 * CENTI, y: y + 80 * CENTI },
                PointModel { x: x + 10 * CENTI, y: y + 40 * CENTI },
                PointModel { x: x - 10 * CENTI, y: y + 40 * CENTI },
                PointModel { x: x - 20 * CENTI, y: y + 80 * CENTI },
                PointModel { x: x - 30 * CENTI, y: y + 80 * CENTI },
                PointModel { x: x - 40 * CENTI, y: y + 40 * CENTI },
                PointModel { x: x - 80 * CENTI, y: y + 30 * CENTI },
                PointModel { x: x - 80 * CENTI, y: y + 20 * CENTI },
                PointModel { x: x - 40 * CENTI, y: y + 10 * CENTI },
            ],
            style: fill_stroke(Color::Gray, Color::FactoryParts, (4 * CENTI) as int, op),
        },
        DirectiveModel::Circle {
            x,
            y,
            radius: (54 * CENTI) as int,
            style: fill_stroke(Color::FactoryLevelFill, Color::FactoryParts, (4 * CENTI) as int, op),
        },
        DirectiveModel::Poly {
            points: seq![
                PointModel { x: x, y: y },
                PointModel { x: x - 8 * CENTI, y: y - 52 * CENTI },
                PointModel { x: x + 6_643_048_934_977_405, y: y - 52_190_707_035_328_580 },
                PointModel { x: x, y: y },
                PointModel { x: x + 46_982_802_892_348_410, y: y - 23_677_335_837_858_496 },
                PointModel { x: x + 51_689_127_031_372_970, y: y - 9_809_900_444_682_820 },
                PointModel { x: x, y: y },
                PointModel { x: x + 37_036_969_074_208_180, y: y + 37_366_601_689_157_475 },
                PointModel { x: x + 25_302_588_419_222_044, y: y + 46_127_855_134_261_886 },
                PointModel { x: x, y: y },
                PointModel { x: x - 24_092_697_164_209_015, y: y + 46_771_165_725_837_050 },
                PointModel { x: x - 36_051_267_384_944_263, y: y + 38_318_482_745_788_010 },
                PointModel { x: x, y: y },
                PointModel { x: x - 51_927_074_802_347_560, y: y - 8_460_431_577_136_027 },
                PointModel { x: x - 47_583_497_000_628_144, y: y - 22_445_730_400_038_488 },
            ],
            style: StyleModel {
                fill: Some(Color::FactoryParts),
                stroke: Some(Color::Transparent),
                stroke_width: None,
                opacity: op,
            },
        },
        DirectiveModel::Circle {
            x,
            y,
            radius: (42 * CENTI) as int,
            style: fill_only(Color::FactoryParts, op),
        },
        DirectiveModel::Rect {
            x: x - 24 * CENTI,
            y: y - 24 * CENTI,
            width: (48 * CENTI) as int,
            height: (24 * CENTI) as int,
            style: fill_only(Color::White, op),
        },
        DirectiveModel::Rect {
            x: x - 24 * CENTI,
            y: y,
            width: (48 * CENTI) as int,
            height: (24 * CENTI) as int,
            style: fill_only(Color::Energy, op),
        },
    ]
}

fn compose_factory(buf: &mut Vec<Directive>, x: Units, y: Units, opacity: Units)
    requires
        coord_in_range(x as int),
        coord_in_range(y as int),
    ensures
        buffer_model(final(buf)@) == buffer_model(old(buf)@)
            + factory_icon(x as int, y as int, opacity as int),
{
    let outline_points: Vec<Point> = vec![
        Point { x: x - 68 * CENTI, y: y - 11 * CENTI },
        Point { x: x - 84 * CENTI, y: y - 18 * CENTI },
        Point { x: x - 84 * CENTI, y: y - 32 * CENTI },
        Point { x: x - 44 * CENTI, y: y - 44 * CENTI },
        Point { x: x - 32 * CENTI, y: y - 84 * CENTI },
        Point { x: x - 18 * CENTI, y: y - 84 * CENTI },
        Point { x: x - 11 * CENTI, y: y - 68 * CENTI },
        Point { x: x + 11 * CENTI, y: y - 68 * CENTI },
        Point { x: x + 18 * CENTI, y: y - 84 * CENTI },
        Point { x: x + 32 * CENTI, y: y - 84 * CENTI },
        Point { x: x + 44 * CENTI, y: y - 44 * CENTI },
        Point { x: x + 84 * CENTI, y: y - 32 * CENTI },
        Point { x: x + 84 * CENTI, y: y - 18 * CENTI },
        Point { x: x + 68 * CENTI, y: y - 11 * CENTI },
        Point { x: x + 68 * CENTI, y: y + 11 * CENTI },
        Point { x: x + 84 * CENTI, y: y + 18 * CENTI },
        Point { x: x + 84 * CENTI, y: y + 32 * CENTI },
        Point { x: x + 44 * CENTI, y: y + 44 * CENTI },
        Point { x: x + 32 * CENTI, y: y + 84 * CENTI },
        Point { x: x + 18 * CENTI, y: y + 84 * CENTI },
        Point { x: x + 11 * CENTI, y: y + 68 * CENTI },
        Point { x: x - 11 * CENTI, y: y + 68 * CENTI },
        Point { x: x - 18 * CENTI, y: y + 84 * CENTI },
        Point { x: x - 32 * CENTI, y: y + 84 * CENTI },
        Point { x: x - 44 * CENTI, y: y + 44 * CENTI },
        Point { x: x - 84 * CENTI, y: y + 32 * CENTI },
        Point { x: x - 84 * CENTI, y: y + 18 * CENTI },
        Point { x: x - 68 * CENTI, y: y + 11 * CENTI },
        Point { x: x - 68 * CENTI, y: y - 11 * CENTI },
    ];
    push_directive(
        buf,
        Directive::Poly {
            points: outline_points,
            style: Style {
                fill: None,
                stroke: Some(Color::Outline),
                stroke_width: Some(7 * CENTI),
                opacity,
            },
        },
    );
    push_directive(
        buf,
        Directive::Circle {
            x,
            y,
            radius: 65 * CENTI,
            style: Style {
                fill: Some(Color::FactoryOuterFill),
                stroke: Some(Color::FactoryParts),
                stroke_width: Some(35 * MILLI),
                opacity,
            },
        },
    );
    let spikes_points: Vec<Point> = vec![
        Point { x: x - 40 * CENTI, y: y - 10 * CENTI },
        Point { x: x - 80 * CENTI, y: y - 20 * CENTI },
        Point { x: x - 80 * CENTI, y: y - 30 * CENTI },
        Point { x: x - 40 * CENTI, y: y - 40 * CENTI },
        Point { x: x - 30 * CENTI, y: y - 80 * CENTI },
        Point { x: x - 20 * CENTI, y: y - 80 * CENTI },
        Point { x: x - 10 * CENTI, y: y - 40 * CENTI },
        Point { x: x + 10 * CENTI, y: y - 40 * CENTI },
        Point { x: x + 20 * CENTI, y: y - 80 * CENTI },
        Point { x: x + 30 * CENTI, y: y - 80 * CENTI },
        Point { x: x + 40 * CENTI, y: y - 40 * CENTI },
        Point { x: x + 80 * CENTI, y: y - 30 * CENTI },
        Point { x: x + 80 * CENTI, y: y - 20 * CENTI },
        Point { x: x + 40 * CENTI, y: y - 10 * CENTI },
        Point { x: x + 40 * CENTI, y: y + 10 * CENTI },
        Point { x: x + 80 * CENTI, y: y + 20 * CENTI },
        Point { x: x + 80 * CENTI, y: y + 30 * CENTI },
        Point { x: x + 40 * CENTI, y: y + 40 * CENTI },
        Point { x: x + 30 * CENTI, y: y + 80 * CENTI },
        Point { x: x + 20 * CENTI, y: y + 80 * CENTI },
        Point { x: x + 10 * CENTI, y: y + 40 * CENTI },
        Point { x: x - 10 * CENTI, y: y + 40 * CENTI },
        Point { x: x - 20 * CENTI, y: y + 80 * CENTI },
        Point { x: x - 30 * CENTI, y: y + 80 * CENTI },
        Point { x: x - 40 * CENTI, y: y + 40 * CENTI },
        Point { x: x - 80 * CENTI, y: y + 30 * CENTI },
        Point { x: x - 80 * CENTI, y: y + 20 * CENTI },
        Point { x: x - 40 * CENTI, y: y + 10 * CENTI },
    ];
    push_directive(
        buf,
        Directive::Poly {
            points: spikes_points,
            style: Style {
                fill: Some(Color::Gray),
                stroke: Some(Color::FactoryParts),
                stroke_width: Some(4 * CENTI),
                opacity,
            },
        },
    );
    push_directive(
        buf,
        Directive::Circle {
            x,
            y,
            radius: 54 * CENTI,
            style: Style {
                fill: Some(Color::FactoryLevelFill),
                stroke: Some(Color::FactoryParts),
                stroke_width: Some(4 * CENTI),
                opacity,
            },
        },
    );
    let gaps_points: Vec<Point> = vec![
        Point { x, y },
        Point { x: x - 8 * CENTI, y: y - 52 * CENTI },
        Point { x: x + 6_643_048_934_977_405, y: y - 52_190_707_035_328_580 },
        Point { x, y },
        Point { x: x + 46_982_802_892_348_410, y: y - 23_677_335_837_858_496 },
        Point { x: x + 51_689_127_031_372_970, y: y - 9_809_900_444_682_820 },
        Point { x, y },
        Point { x: x + 37_036_969_074_208_180, y: y + 37_366_601_689_157_475 },
        Point { x: x + 25_302_588_419_222_044, y: y + 46_127_855_134_261_886 },
        Point { x, y },
        Point { x: x - 24_092_697_164_209_015, y: y + 46_771_165_725_837_050 },
        Point { x: x - 36_051_267_384_944_263, y: y + 38_318_482_745_788_010 },
        Point { x, y },
        Point { x: x - 51_927_074_802_347_560, y: y - 8_460_431_577_136_027 },
        Point { x: x - 47_583_497_000_628_144, y: y - 22_445_730_400_038_488 },
    ];
    push_directive(
        buf,
        Directive::Poly {
            points: gaps_points,
            style: Style {
                fill: Some(Color::FactoryParts),
                stroke: Some(Color::Transparent),
                stroke_width: None,
                opacity,
            },
        },
    );
    push_directive(
        buf,
        Directive::Circle {
            x,
            y,
            radius: 42 * CENTI,
            style: Style {
                fill: Some(Color::FactoryParts),
                stroke: None,
                stroke_width: None,
                opacity,
            },
        },
    );
    push_directive(
        buf,
        Directive::Rect {
            x: x - 24 * CENTI,
            y: y - 24 * CENTI,
            width: 48 * CENTI,
            height: 24 * CENTI,
            style: Style { fill: Some(Color::White), stroke: None, stroke_width: None, opacity },
        },
    );
    push_directive(
        buf,
        Directive::Rect {
            x: x - 24 * CENTI,
            y,
            width: 48 * CENTI,
            height: 24 * CENTI,
            style: Style { fill: Some(Color::Energy), stroke: None, stroke_width: None, opacity },
        },
    );
    proof {
        assert(buffer_model(buf@) =~~= buffer_model(old(buf)@)
            + factory_icon(x as int, y as int, opacity as int));
    }
}

/// The fixed composition of one icon: the ordered directives that render
/// `kind` anchored at `(x, y)` with the caller's opacity. An unrecognized
/// kind composes to nothing.
pub open spec fn icon_model(kind: StructureKind, x: int, y: int, op: int) -> Seq<DirectiveModel> {
    match kind {
        StructureKind::Spawn => spawn_icon(x, y, op),
        StructureKind::Extension => extension_icon(x, y, op),
        StructureKind::Road => road_icon(x, y, op),
        StructureKind::Wall => wall_icon(x, y, op),
        StructureKind::Rampart => rampart_icon(x, y, op),
        StructureKind::Link => link_icon(x, y, op),
        StructureKind::Storage => storage_icon(x, y, op),
        StructureKind::Tower => tower_icon(x, y, op),
        StructureKind::Observer => observer_icon(x, y, op),
        StructureKind::PowerSpawn => power_spawn_icon(x, y, op),
        StructureKind::Extractor => extractor_icon(x, y, op),
        StructureKind::Lab => lab_icon(x, y, op),
        StructureKind::Terminal => terminal_icon(x, y, op),
        StructureKind::Container => container_icon(x, y, op),
        StructureKind::Nuker => nuker_icon(x, y, op),
        StructureKind::Factory => factory_icon(x, y, op),
        StructureKind::Unrecognized => Seq::empty(),
    }
}

/// Appends the fixed composition of `kind` to the frame buffer.
pub fn compose_icon(
    buf: &mut Vec<Directive>,
    kind: StructureKind,
    x: Units,
    y: Units,
    opacity: Units,
)
    requires
        coord_in_range(x as int),
        coord_in_range(y as int),
        opacity_in_range(opacity as int),
    ensures
        buffer_model(final(buf)@) == buffer_model(old(buf)@)
            + icon_model(kind, x as int, y as int, opacity as int),
{
    match kind {
        StructureKind::Spawn => compose_spawn(buf, x, y, opacity),
        StructureKind::Extension => compose_extension(buf, x, y, opacity),
        StructureKind::Road => compose_road_icon(buf, x, y, opacity),
        StructureKind::Wall => compose_wall(buf, x, y, opacity),
        StructureKind::Rampart => compose_rampart(buf, x, y, opacity),
        StructureKind::Link => compose_link(buf, x, y, opacity),
        StructureKind::Storage => compose_storage(buf, x, y, opacity),
        StructureKind::Tower => compose_tower(buf, x, y, opacity),
        StructureKind::Observer => compose_observer(buf, x, y, opacity),
        StructureKind::PowerSpawn => compose_power_spawn(buf, x, y, opacity),
        StructureKind::Extractor => compose_extractor(buf, x, y, opacity),
        StructureKind::Lab => compose_lab(buf, x, y, opacity),
        StructureKind::Terminal => compose_terminal(buf, x, y, opacity),
        StructureKind::Container => compose_container(buf, x, y, opacity),
        StructureKind::Nuker => compose_nuker(buf, x, y, opacity),
        StructureKind::Factory => compose_factory(buf, x, y, opacity),
        StructureKind::Unrecognized => {
            proof {
                assert(buffer_model(buf@) =~~= buffer_model(old(buf)@)
                    + icon_model(kind, x as int, y as int, opacity as int));
            }
        },
    }
}

} // verus!
