use portal::clock::{FrameClock, FrameStart};
use portal::entity::EntityType;
use portal::input::{MoveKeys, SpeedTier};
use portal::render::{RenderSettings, SurfaceOp};

fn keys() -> MoveKeys {
    MoveKeys {
        forward: false,
        back: false,
        left: false,
        right: false,
        up: false,
        down: false,
        run: false,
        crawl: false,
    }
}

#[test]
fn clock_counts_frames_per_second() {
    let mut clock = FrameClock::new(100);
    assert_eq!(clock.begin_frame(116, false), FrameStart { elapsed_ms: 16, fps: None });
    clock.end_frame();
    assert_eq!(clock.begin_frame(600, false), FrameStart { elapsed_ms: 484, fps: None });
    clock.end_frame();
    clock.end_frame();
    assert_eq!(clock.begin_frame(1100, false), FrameStart { elapsed_ms: 500, fps: Some(3) });
    assert_eq!(clock.frames_since_marker, 0);
    assert_eq!(clock.marker, 1100);
    assert_eq!(clock.total, 1000);
}

#[test]
fn clock_total_skips_paused_time() {
    let mut clock = FrameClock::new(0);
    clock.begin_frame(40, true);
    clock.begin_frame(70, false);
    assert_eq!(clock.total, 30);
    assert_eq!(clock.prev, 70);
}

#[test]
fn direction_sums_held_keys() {
    let mut k = keys();
    assert_eq!(k.direction(), (0, 0, 0));
    k.forward = true;
    k.left = true;
    assert_eq!(k.direction(), (1, 0, 1));
    k.back = true;
    k.down = true;
    k.right = true;
    assert_eq!(k.direction(), (0, -1, 0));
    k.up = true;
    assert_eq!(k.direction(), (0, 0, 0));
}

#[test]
fn speed_tiers() {
    let mut k = keys();
    assert_eq!(k.speed_tier(), SpeedTier::Normal);
    assert_eq!(k.speed_tier().speed_tenths(), 5);
    k.crawl = true;
    assert_eq!(k.speed_tier(), SpeedTier::Crawl);
    assert_eq!(k.speed_tier().speed_tenths(), 1);
    k.run = true;
    assert_eq!(k.speed_tier(), SpeedTier::Run);
    assert_eq!(k.speed_tier().speed_tenths(), 20);
}

#[test]
fn only_dynamic_entities_move() {
    assert!(EntityType::Dynamic.is_dynamic());
    assert!(!EntityType::Static.is_dynamic());
}

#[test]
fn settings_toggle_and_frame_start() {
    let mut s = RenderSettings::new();
    assert!(!s.is_wireframe());
    assert!(s.should_render_portals());
    assert_eq!(
        s.frame_start(),
        vec![
            SurfaceOp::ClearColor,
            SurfaceOp::ClearDepth,
            SurfaceOp::PolygonLines(false),
            SurfaceOp::DepthTest(true),
            SurfaceOp::FaceCulling(true),
        ]
    );
    s.toggle_wireframes();
    s.toggle_portal_rendering();
    assert!(s.is_wireframe());
    assert!(!s.should_render_portals());
    assert_eq!(
        s.frame_start(),
        vec![
            SurfaceOp::ClearColor,
            SurfaceOp::ClearDepth,
            SurfaceOp::PolygonLines(true),
            SurfaceOp::DepthTest(false),
            SurfaceOp::FaceCulling(false),
        ]
    );
}
