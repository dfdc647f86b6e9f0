//! Iconographic vector graphics for entities on an integer grid.
//!
//! The library composes each entity kind into a fixed, ordered list of
//! primitive draw directives (circles, rectangles, polygons, line segments)
//! and incrementally connects adjacent road cells with line segments.
//! Geometry and opacity are held in exact decimal fixed point, so every
//! coordinate of the fixed icon contract is represented without rounding.

pub mod geom;
pub mod icons;
pub mod laws;
pub mod roads;
pub mod visual;
