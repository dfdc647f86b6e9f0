use room_visual_ext::geom::{Color, Directive, SCALE};
use room_visual_ext::icons::{StructureKind, CENTI, MILLI};
use room_visual_ext::visual::RoomVisualExt;

const OP: i128 = SCALE;

fn compose(kind: StructureKind) -> Vec<Directive> {
    let mut v = RoomVisualExt::new();
    v.structure(10 * SCALE, 20 * SCALE, kind, OP);
    v.directives().clone()
}

fn opacity_of(d: &Directive) -> i128 {
    match d {
        Directive::Circle { style, .. } => style.opacity,
        Directive::Rect { style, .. } => style.opacity,
        Directive::Poly { style, .. } => style.opacity,
        Directive::Line { opacity, .. } => *opacity,
    }
}

#[test]
fn spawn_composition() {
    let dirs = compose(StructureKind::Spawn);
    assert_eq!(dirs.len(), 2);
    match &dirs[0] {
        Directive::Circle { x, y, radius, style } => {
            assert_eq!(*x, 10 * SCALE);
            assert_eq!(*y, 20 * SCALE);
            assert_eq!(*radius, 65 * CENTI);
            assert_eq!(style.fill, Some(Color::Dark));
            assert_eq!(style.stroke, Some(Color::Light));
            assert_eq!(style.stroke_width, Some(10 * CENTI));
        }
        other => panic!("expected outer circle, got {:?}", other),
    }
    match &dirs[1] {
        Directive::Circle { radius, style, .. } => {
            assert_eq!(*radius, 40 * CENTI);
            assert_eq!(style.fill, Some(Color::Energy));
            assert_eq!(style.stroke, None);
        }
        other => panic!("expected energy core, got {:?}", other),
    }
}

#[test]
fn extension_composition() {
    let dirs = compose(StructureKind::Extension);
    assert_eq!(dirs.len(), 2);
    match &dirs[0] {
        Directive::Circle { radius, style, .. } => {
            assert_eq!(*radius, 45 * CENTI);
            assert_eq!(style.stroke, Some(Color::Outline));
            assert_eq!(style.stroke_width, Some(5 * CENTI));
        }
        other => panic!("expected outer circle, got {:?}", other),
    }
    match &dirs[1] {
        Directive::Circle { radius, style, .. } => {
            assert_eq!(*radius, 32 * CENTI);
            assert_eq!(style.fill, Some(Color::Energy));
        }
        other => panic!("expected energy core, got {:?}", other),
    }
}

#[test]
fn wall_composition() {
    let dirs = compose(StructureKind::Wall);
    assert_eq!(dirs.len(), 3);
    match &dirs[0] {
        Directive::Rect { x, y, width, height, style } => {
            assert_eq!(*x, 10 * SCALE - 50 * CENTI);
            assert_eq!(*y, 20 * SCALE - 50 * CENTI);
            assert_eq!(*width, SCALE);
            assert_eq!(*height, SCALE);
            assert_eq!(style.fill, Some(Color::Dark));
            assert_eq!(style.stroke, Some(Color::Black));
        }
        other => panic!("expected wall tile, got {:?}", other),
    }
    match &dirs[1] {
        Directive::Line { x1, y1, x2, y2, width, color, .. } => {
            assert_eq!(*x1, 10 * SCALE - 25 * CENTI);
            assert_eq!(*y1, 20 * SCALE - 15 * CENTI);
            assert_eq!(*x2, 10 * SCALE + 5 * CENTI);
            assert_eq!(*y2, 20 * SCALE - 15 * CENTI);
            assert_eq!(*width, 5 * CENTI);
            assert_eq!(*color, Color::Road);
        }
        other => panic!("expected first stripe, got {:?}", other),
    }
    match &dirs[2] {
        Directive::Line { x1, y2, .. } => {
            assert_eq!(*x1, 10 * SCALE - 5 * CENTI);
            assert_eq!(*y2, 20 * SCALE + 15 * CENTI);
        }
        other => panic!("expected second stripe, got {:?}", other),
    }
}

#[test]
fn rampart_attenuates_opacity() {
    let dirs = compose(StructureKind::Rampart);
    assert_eq!(dirs.len(), 1);
    match &dirs[0] {
        Directive::Rect { width, height, style, .. } => {
            assert_eq!(*width, SCALE);
            assert_eq!(*height, SCALE);
            assert_eq!(style.fill, Some(Color::Rampart));
            assert_eq!(style.stroke, Some(Color::RampartOutline));
            assert_eq!(style.opacity, OP * 3 / 10);
        }
        other => panic!("expected rampart overlay, got {:?}", other),
    }
}

#[test]
fn rampart_attenuation_is_exact_for_fractional_opacity() {
    let mut v = RoomVisualExt::new();
    let half: i128 = SCALE / 2;
    v.structure(0, 0, StructureKind::Rampart, half);
    match &v.directives()[0] {
        Directive::Rect { style, .. } => {
            // 0.5 * 0.3 == 0.15 exactly
            assert_eq!(style.opacity, 15 * CENTI);
        }
        other => panic!("expected rampart overlay, got {:?}", other),
    }
}

#[test]
fn link_composition() {
    let dirs = compose(StructureKind::Link);
    assert_eq!(dirs.len(), 2);
    match &dirs[0] {
        Directive::Poly { points, style } => {
            assert_eq!(points.len(), 5);
            assert_eq!(points[0].x, 10 * SCALE);
            assert_eq!(points[0].y, 20 * SCALE - 45 * CENTI);
            assert_eq!(points[1].x, 10 * SCALE + 35 * CENTI);
            assert_eq!(points[4], points[0]);
            assert_eq!(style.fill, Some(Color::Dark));
        }
        other => panic!("expected diamond outline, got {:?}", other),
    }
    match &dirs[1] {
        Directive::Poly { points, style } => {
            assert_eq!(points.len(), 5);
            assert_eq!(points[0].y, 20 * SCALE - 25 * CENTI);
            assert_eq!(style.stroke, Some(Color::Transparent));
        }
        other => panic!("expected diamond interior, got {:?}", other),
    }
}

#[test]
fn storage_composition() {
    let dirs = compose(StructureKind::Storage);
    assert_eq!(dirs.len(), 2);
    match &dirs[0] {
        Directive::Poly { points, .. } => {
            assert_eq!(points.len(), 9);
            assert_eq!(points[1].y, 20 * SCALE - 65 * CENTI);
        }
        other => panic!("expected octagon outline, got {:?}", other),
    }
    match &dirs[1] {
        Directive::Rect { x, y, width, height, style } => {
            assert_eq!(*x, 10 * SCALE - 35 * CENTI);
            assert_eq!(*y, 20 * SCALE - 45 * CENTI);
            assert_eq!(*width, 70 * CENTI);
            assert_eq!(*height, 90 * CENTI);
            assert_eq!(style.fill, Some(Color::Energy));
        }
        other => panic!("expected energy rectangle, got {:?}", other),
    }
}

#[test]
fn tower_composition() {
    let dirs = compose(StructureKind::Tower);
    assert_eq!(dirs.len(), 3);
    match &dirs[0] {
        Directive::Circle { radius, .. } => assert_eq!(*radius, 60 * CENTI),
        other => panic!("expected tower circle, got {:?}", other),
    }
    match &dirs[2] {
        Directive::Rect { x, y, width, height, style } => {
            assert_eq!(*x, 10 * SCALE - 20 * CENTI);
            assert_eq!(*y, 20 * SCALE - 90 * CENTI);
            assert_eq!(*width, 40 * CENTI);
            assert_eq!(*height, 50 * CENTI);
            assert_eq!(style.fill, Some(Color::Light));
        }
        other => panic!("expected barrel, got {:?}", other),
    }
}

#[test]
fn observer_composition() {
    let dirs = compose(StructureKind::Observer);
    assert_eq!(dirs.len(), 2);
    match &dirs[1] {
        Directive::Circle { x, y, radius, style } => {
            assert_eq!(*x, 10 * SCALE + 255 * MILLI);
            assert_eq!(*y, 20 * SCALE);
            assert_eq!(*radius, 20 * CENTI);
            assert_eq!(style.fill, Some(Color::Outline));
        }
        other => panic!("expected eye dot, got {:?}", other),
    }
}

#[test]
fn power_spawn_composition() {
    let dirs = compose(StructureKind::PowerSpawn);
    assert_eq!(dirs.len(), 2);
    match &dirs[0] {
        Directive::Circle { radius, style, .. } => {
            assert_eq!(*radius, 65 * CENTI);
            assert_eq!(style.stroke, Some(Color::Power));
        }
        other => panic!("expected power circle, got {:?}", other),
    }
}

#[test]
fn extractor_composition() {
    let dirs = compose(StructureKind::Extractor);
    assert_eq!(dirs.len(), 3);
    let slope: i128 = 69_282_032_302_755_100;
    match &dirs[0] {
        Directive::Line { x1, y1, x2, y2, width, color, .. } => {
            assert_eq!(*x1, 10 * SCALE - 40 * CENTI);
            assert_eq!(*y1, 20 * SCALE - slope);
            assert_eq!(*x2, 10 * SCALE + 40 * CENTI);
            assert_eq!(*y2, 20 * SCALE - slope);
            assert_eq!(*width, 20 * CENTI);
            assert_eq!(*color, Color::Outline);
        }
        other => panic!("expected top arm, got {:?}", other),
    }
    match &dirs[1] {
        Directive::Line { x1, y1, .. } => {
            assert_eq!(*x1, 10 * SCALE + 80 * CENTI);
            assert_eq!(*y1, 20 * SCALE);
        }
        other => panic!("expected right arm, got {:?}", other),
    }
}

#[test]
fn lab_composition() {
    let dirs = compose(StructureKind::Lab);
    assert_eq!(dirs.len(), 6);
    match &dirs[0] {
        Directive::Circle { y, radius, .. } => {
            assert_eq!(*y, 20 * SCALE - 25 * MILLI);
            assert_eq!(*radius, 50 * CENTI);
        }
        other => panic!("expected flask circle, got {:?}", other),
    }
    match &dirs[2] {
        Directive::Circle { y, radius, style, .. } => {
            assert_eq!(*y, 20 * SCALE + 12 * CENTI);
            assert_eq!(*radius, 20 * CENTI);
            assert_eq!(style.fill, Some(Color::White));
        }
        other => panic!("expected mineral dot, got {:?}", other),
    }
    match &dirs[5] {
        Directive::Poly { points, style } => {
            assert_eq!(points.len(), 4);
            assert_eq!(style.fill, None);
            assert_eq!(style.stroke, Some(Color::Outline));
        }
        other => panic!("expected bottom outline, got {:?}", other),
    }
}

#[test]
fn terminal_composition() {
    let dirs = compose(StructureKind::Terminal);
    assert_eq!(dirs.len(), 4);
    match &dirs[0] {
        Directive::Poly { points, .. } => {
            assert_eq!(points.len(), 9);
            assert_eq!(points[0].y, 20 * SCALE - 64 * CENTI);
            assert_eq!(points[1].x, 10 * SCALE + 44 * CENTI);
        }
        other => panic!("expected outer octagon, got {:?}", other),
    }
    match &dirs[3] {
        Directive::Rect { x, width, style, .. } => {
            assert_eq!(*x, 10 * SCALE - 20 * CENTI);
            assert_eq!(*width, 40 * CENTI);
            assert_eq!(style.fill, Some(Color::White));
        }
        other => panic!("expected mineral square, got {:?}", other),
    }
}

#[test]
fn container_composition() {
    let dirs = compose(StructureKind::Container);
    assert_eq!(dirs.len(), 2);
    match &dirs[1] {
        Directive::Rect { x, y, width, height, style } => {
            assert_eq!(*x, 10 * SCALE - 192 * MILLI);
            assert_eq!(*y, 20 * SCALE + 4 * CENTI);
            assert_eq!(*width, 39 * CENTI);
            assert_eq!(*height, 23 * CENTI);
            assert_eq!(style.fill, Some(Color::Energy));
        }
        other => panic!("expected energy fill, got {:?}", other),
    }
}

#[test]
fn nuker_composition() {
    let dirs = compose(StructureKind::Nuker);
    assert_eq!(dirs.len(), 3);
    match &dirs[0] {
        Directive::Poly { points, .. } => {
            assert_eq!(points.len(), 6);
            assert_eq!(points[0].y, 20 * SCALE - SCALE);
            assert_eq!(points[1].x, 10 * SCALE - 47 * CENTI);
        }
        other => panic!("expected nuker outline, got {:?}", other),
    }
    match &dirs[2] {
        Directive::Rect { height, style, .. } => {
            assert_eq!(*height, 10 * CENTI);
            assert_eq!(style.fill, Some(Color::White));
        }
        other => panic!("expected base rectangle, got {:?}", other),
    }
}

#[test]
fn factory_composition() {
    let dirs = compose(StructureKind::Factory);
    assert_eq!(dirs.len(), 8);
    match &dirs[0] {
        Directive::Poly { points, style } => {
            assert_eq!(points.len(), 29);
            assert_eq!(points[0].x, 10 * SCALE - 68 * CENTI);
            assert_eq!(points[28], points[0]);
            assert_eq!(style.fill, None);
        }
        other => panic!("expected gear outline, got {:?}", other),
    }
    match &dirs[1] {
        Directive::Circle { radius, style, .. } => {
            assert_eq!(*radius, 65 * CENTI);
            assert_eq!(style.fill, Some(Color::FactoryOuterFill));
            assert_eq!(style.stroke_width, Some(35 * MILLI));
        }
        other => panic!("expected outer circle, got {:?}", other),
    }
    match &dirs[2] {
        Directive::Poly { points, .. } => assert_eq!(points.len(), 28),
        other => panic!("expected spikes, got {:?}", other),
    }
    match &dirs[4] {
        Directive::Poly { points, style } => {
            assert_eq!(points.len(), 15);
            assert_eq!(points[2].x, 10 * SCALE + 6_643_048_934_977_405);
            assert_eq!(points[2].y, 20 * SCALE - 52_190_707_035_328_580);
            assert_eq!(style.fill, Some(Color::FactoryParts));
        }
        other => panic!("expected level-gap fan, got {:?}", other),
    }
    match &dirs[7] {
        Directive::Rect { y, style, .. } => {
            assert_eq!(*y, 20 * SCALE);
            assert_eq!(style.fill, Some(Color::Energy));
        }
        other => panic!("expected energy half-rect, got {:?}", other),
    }
}

#[test]
fn road_icon_is_single_dot() {
    let dirs = compose(StructureKind::Road);
    // the dot plus the degenerate self-segment of a fresh placement
    assert_eq!(dirs.len(), 2);
    match &dirs[0] {
        Directive::Circle { radius, style, .. } => {
            assert_eq!(*radius, 15 * CENTI);
            assert_eq!(style.fill, Some(Color::Road));
        }
        other => panic!("expected road dot, got {:?}", other),
    }
}

#[test]
fn unrecognized_kind_emits_nothing() {
    let dirs = compose(StructureKind::Unrecognized);
    assert!(dirs.is_empty());
}

#[test]
fn every_layered_kind_has_at_least_two_primitives() {
    let layered = [
        StructureKind::Spawn,
        StructureKind::Extension,
        StructureKind::Wall,
        StructureKind::Link,
        StructureKind::Storage,
        StructureKind::Tower,
        StructureKind::Observer,
        StructureKind::PowerSpawn,
        StructureKind::Extractor,
        StructureKind::Lab,
        StructureKind::Terminal,
        StructureKind::Container,
        StructureKind::Nuker,
        StructureKind::Factory,
    ];
    for kind in layered {
        assert!(compose(kind).len() >= 2, "{:?} is not layered", kind);
    }
}

#[test]
fn palette_matches_the_host_iconography() {
    assert_eq!(Color::Dark.hex_code(), "#181818");
    assert_eq!(Color::Light.hex_code(), "#CCCCCC");
    assert_eq!(Color::Outline.hex_code(), "#8FBB93");
    assert_eq!(Color::Gray.hex_code(), "#555555");
    assert_eq!(Color::Energy.hex_code(), "#FFE87B");
    assert_eq!(Color::Power.hex_code(), "#F53547");
    assert_eq!(Color::Road.hex_code(), "#666666");
    assert_eq!(Color::White.hex_code(), "#FFFFFF");
    assert_eq!(Color::Black.hex_code(), "#000000");
    assert_eq!(Color::Rampart.hex_code(), "#669966");
    assert_eq!(Color::RampartOutline.hex_code(), "#66CC66");
    assert_eq!(Color::FactoryOuterFill.hex_code(), "#232323");
    assert_eq!(Color::FactoryParts.hex_code(), "#140a0a");
    assert_eq!(Color::FactoryLevelFill.hex_code(), "#302a2a");
    assert_eq!(Color::Transparent.hex_code(), "transparent");
}

#[test]
fn opacity_propagates_to_every_directive() {
    let kinds = [
        StructureKind::Spawn,
        StructureKind::Extension,
        StructureKind::Road,
        StructureKind::Wall,
        StructureKind::Link,
        StructureKind::Storage,
        StructureKind::Tower,
        StructureKind::Observer,
        StructureKind::PowerSpawn,
        StructureKind::Extractor,
        StructureKind::Lab,
        StructureKind::Terminal,
        StructureKind::Container,
        StructureKind::Nuker,
        StructureKind::Factory,
    ];
    let op: i128 = 37 * CENTI;
    for kind in kinds {
        let mut v = RoomVisualExt::new();
        v.structure(5 * SCALE, 6 * SCALE, kind, op);
        for d in v.directives() {
            assert_eq!(opacity_of(d), op, "wrong opacity in {:?}", kind);
        }
    }
    let mut v = RoomVisualExt::new();
    v.structure(5 * SCALE, 6 * SCALE, StructureKind::Rampart, op);
    for d in v.directives() {
        assert_eq!(opacity_of(d), op * 3 / 10);
    }
}
