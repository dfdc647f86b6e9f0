//! Fixed-point scalars, colors, styles and primitive draw directives.
//!
//! All geometry and opacity values are exact decimal fixed point: a scalar
//! `v` stands for the real number `v / SCALE`. The scale of 10^17 is fine
//! enough to hold every coordinate of the fixed icon contract exactly.

use vstd::prelude::*;

verus! {

/// Fixed-point scalar: the represented real value is `self / SCALE`.
pub type Units = i128;

/// One whole grid tile in fixed-point units.
pub const SCALE: Units = 100_000_000_000_000_000;

/// The fixed color palette of the icon set. The palette is part of the
/// visual contract: icons must match the host's established iconography.
#[derive(Clone, Copy, PartialEq, Eq, Structural, Debug)]
pub enum Color {
    Dark,
    Light,
    Outline,
    Gray,
    Energy,
    Power,
    Road,
    White,
    Black,
    Rampart,
    RampartOutline,
    FactoryOuterFill,
    FactoryParts,
    FactoryLevelFill,
    /// A fully transparent fill or stroke.
    Transparent,
}

/// The notation the host's surface expects for each palette constant:
/// `#RRGGBB`, or the literal word for a fully transparent paint.
pub open spec fn hex_model(c: Color) -> Seq<char> {
    match c {
        Color::Dark => "#181818"@,
        Color::Light => "#CCCCCC"@,
        Color::Outline => "#8FBB93"@,
        Color::Gray => "#555555"@,
        Color::Energy => "#FFE87B"@,
        Color::Power => "#F53547"@,
        Color::Road => "#666666"@,
        Color::White => "#FFFFFF"@,
        Color::Black => "#000000"@,
        Color::Rampart => "#669966"@,
        Color::RampartOutline => "#66CC66"@,
        Color::FactoryOuterFill => "#232323"@,
        Color::FactoryParts => "#140a0a"@,
        Color::FactoryLevelFill => "#302a2a"@,
        Color::Transparent => "transparent"@,
    }
}

impl Color {
    /// Writes the color as the host's surface expects it.
    pub fn hex_code(self) -> (s: &'static str)
        ensures
            s@ == hex_model(self),
    {
        match self {
            Color::Dark => "#181818",
            Color::Light => "#CCCCCC",
            Color::Outline => "#8FBB93",
            Color::Gray => "#555555",
            Color::Energy => "#FFE87B",
            Color::Power => "#F53547",
            Color::Road => "#666666",
            Color::White => "#FFFFFF",
            Color::Black => "#000000",
            Color::Rampart => "#669966",
            Color::RampartOutline => "#66CC66",
            Color::FactoryOuterFill => "#232323",
            Color::FactoryParts => "#140a0a",
            Color::FactoryLevelFill => "#302a2a",
            Color::Transparent => "transparent",
        }
    }
}

/// A point in fixed-point tile coordinates.
#[derive(Clone, Copy, PartialEq, Eq, Structural, Debug)]
pub struct Point {
    pub x: Units,
    pub y: Units,
}

/// Mathematical model of a `Point`: the same pair over unbounded integers.
pub struct PointModel {
    pub x: int,
    pub y: int,
}

impl View for Point {
    type V = PointModel;

    open spec fn view(&self) -> PointModel {
        PointModel { x: self.x as int, y: self.y as int }
    }
}

/// Style fields shared by circles, rectangles and polygons. A field left
/// `None` takes the drawing surface's documented default.
#[derive(Clone, Copy, PartialEq, Eq, Debug)]
pub struct Style {
    pub fill: Option<Color>,
    pub stroke: Option<Color>,
    pub stroke_width: Option<Units>,
    pub opacity: Units,
}

/// Mathematical model of a `Style`.
pub struct StyleModel {
    pub fill: Option<Color>,
    pub stroke: Option<Color>,
    pub stroke_width: Option<int>,
    pub opacity: int,
}

impl View for Style {
    type V = StyleModel;

    open spec fn view(&self) -> StyleModel {
        StyleModel {
            fill: self.fill,
            stroke: self.stroke,
            stroke_width: match self.stroke_width {
                Some(w) => Some(w as int),
                None => None,
            },
            opacity: self.opacity as int,
        }
    }
}

/// One primitive draw instruction. Directives are appended to the frame's
/// buffer in emission order; later directives occlude earlier ones where
/// they overlap.
#[derive(Clone, PartialEq, Debug)]
pub enum Directive {
    Circle { x: Units, y: Units, radius: Units, style: Style },
    Rect { x: Units, y: Units, width: Units, height: Units, style: Style },
    Poly { points: Vec<Point>, style: Style },
    Line { x1: Units, y1: Units, x2: Units, y2: Units, width: Units, color: Color, opacity: Units },
}

/// Mathematical model of a `Directive`.
#[verifier::ext_equal]
pub enum DirectiveModel {
    Circle { x: int, y: int, radius: int, style: StyleModel },
    Rect { x: int, y: int, width: int, height: int, style: StyleModel },
    Poly { points: Seq<PointModel>, style: StyleModel },
    Line { x1: int, y1: int, x2: int, y2: int, width: int, color: Color, opacity: int },
}

impl View for Directive {
    type V = DirectiveModel;

    open spec fn view(&self) -> DirectiveModel {
        match self {
            Directive::Circle { x, y, radius, style } => DirectiveModel::Circle {
                x: *x as int,
                y: *y as int,
                radius: *radius as int,
                style: style@,
            },
            Directive::Rect { x, y, width, height, style } => DirectiveModel::Rect {
                x: *x as int,
                y: *y as int,
                width: *width as int,
                height: *height as int,
                style: style@,
            },
            Directive::Poly { points, style } => DirectiveModel::Poly {
                points: points@.map_values(|p: Point| p@),
                style: style@,
            },
            Directive::Line { x1, y1, x2, y2, width, color, opacity } => DirectiveModel::Line {
                x1: *x1 as int,
                y1: *y1 as int,
                x2: *x2 as int,
                y2: *y2 as int,
                width: *width as int,
                color: *color,
                opacity: *opacity as int,
            },
        }
    }
}

/// The model of a whole directive buffer.
pub open spec fn buffer_model(s: Seq<Directive>) -> Seq<DirectiveModel> {
    s.map_values(|d: Directive| d@)
}

/// The opacity a directive carries.
pub open spec fn model_opacity(d: DirectiveModel) -> int {
    match d {
        DirectiveModel::Circle { style, .. } => style.opacity,
        DirectiveModel::Rect { style, .. } => style.opacity,
        DirectiveModel::Poly { style, .. } => style.opacity,
        DirectiveModel::Line { opacity, .. } => opacity,
    }
}

/// An anchor coordinate with one tile of headroom on each side, so that
/// every icon offset (all of magnitude at most one tile) stays in `Units`.
pub open spec fn coord_in_range(v: int) -> bool {
    i128::MIN + SCALE <= v <= i128::MAX - SCALE
}

/// An opacity between fully transparent (0) and fully opaque (`SCALE`),
/// the interval the public interface documents.
pub open spec fn opacity_in_range(v: int) -> bool {
    0 <= v <= SCALE
}

/// Appends one directive to a frame buffer.
pub fn push_directive(buf: &mut Vec<Directive>, d: Directive)
    ensures
        buffer_model(final(buf)@) == buffer_model(old(buf)@).push(d@),
{
    let ghost m = d@;
    buf.push(d);
    proof {
        assert(buffer_model(buf@) =~= buffer_model(old(buf)@).push(m));
    }
}

} // verus!
