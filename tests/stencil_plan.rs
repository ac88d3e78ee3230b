use portal::render::RenderSettings;
use portal::stencil::{frame_plan, push_scene_pass, PortalSlot, RenderOp, StencilTest, Viewpoint};

fn on() -> RenderSettings {
    RenderSettings { wireframes: false, portals: true }
}

#[test]
fn plan_without_portals_draws_main_scene_only() {
    let ops = frame_plan(2, false, on());
    assert_eq!(
        ops,
        vec![
            RenderOp::SetCamera(Viewpoint::Main),
            RenderOp::SetCamera(Viewpoint::Main),
            RenderOp::DrawEntity(0),
            RenderOp::DrawEntity(1),
            RenderOp::SetCamera(Viewpoint::Main),
        ]
    );
}

#[test]
fn plan_with_portals_follows_the_stencil_phases() {
    let ops = frame_plan(1, true, on());
    let through = |p: PortalSlot| {
        vec![
            RenderOp::SetCamera(Viewpoint::Through(p)),
            RenderOp::DrawEntity(0),
            RenderOp::DrawOutline(PortalSlot::First),
            RenderOp::DrawOutline(PortalSlot::Second),
            RenderOp::SetCamera(Viewpoint::Main),
        ]
    };
    let mut expected = vec![
        RenderOp::SetCamera(Viewpoint::Main),
        RenderOp::EnableStencilTest,
        // depth seed of the first portal
        RenderOp::StencilMask(0),
        RenderOp::ColorMask(false),
        RenderOp::DepthMask(true),
        RenderOp::DrawPortal(PortalSlot::First),
        // stamp 2 on the second portal
        RenderOp::StencilMask(0xff),
        RenderOp::StencilFunc(StencilTest::Always, 2),
        RenderOp::ReplaceOnPass(true),
        RenderOp::DepthMask(false),
        RenderOp::DrawPortal(PortalSlot::Second),
        RenderOp::StencilMask(0),
        RenderOp::DepthMask(true),
        RenderOp::ClearDepth,
        // depth seed of the second portal
        RenderOp::StencilMask(0),
        RenderOp::ColorMask(false),
        RenderOp::DepthMask(true),
        RenderOp::DrawPortal(PortalSlot::Second),
        // stamp 1 on the first portal
        RenderOp::StencilMask(0xff),
        RenderOp::StencilFunc(StencilTest::Always, 1),
        RenderOp::ReplaceOnPass(true),
        RenderOp::DepthMask(false),
        RenderOp::DrawPortal(PortalSlot::First),
        RenderOp::StencilMask(0),
        RenderOp::DepthMask(true),
        RenderOp::ClearDepth,
        // the scene through the first portal, on its stamp
        RenderOp::StencilFunc(StencilTest::Equal, 1),
        RenderOp::ReplaceOnPass(false),
        RenderOp::ColorMask(true),
        RenderOp::DepthMask(true),
    ];
    expected.extend(through(PortalSlot::First));
    expected.extend(vec![
        RenderOp::StencilFunc(StencilTest::Equal, 2),
        RenderOp::ReplaceOnPass(false),
        RenderOp::ColorMask(true),
        RenderOp::DepthMask(true),
    ]);
    expected.extend(through(PortalSlot::Second));
    expected.extend(vec![
        RenderOp::StencilFunc(StencilTest::Always, 0),
        RenderOp::ColorMask(false),
        RenderOp::DrawPortal(PortalSlot::First),
        RenderOp::DrawPortal(PortalSlot::Second),
        RenderOp::DisableStencilTest,
        RenderOp::ColorMask(true),
        RenderOp::SetCamera(Viewpoint::Main),
        RenderOp::DrawEntity(0),
        RenderOp::DrawOutline(PortalSlot::First),
        RenderOp::DrawOutline(PortalSlot::Second),
        RenderOp::SetCamera(Viewpoint::Main),
    ]);
    assert_eq!(ops, expected);
}

#[test]
fn plan_with_portal_rendering_off_skips_stencil() {
    let settings = RenderSettings { wireframes: false, portals: false };
    let ops = frame_plan(0, true, settings);
    assert!(!ops.contains(&RenderOp::EnableStencilTest));
    assert!(!ops.contains(&RenderOp::DrawPortal(PortalSlot::First)));
    assert_eq!(ops.len(), 5);
}

#[test]
fn plan_in_wireframe_without_portal_rendering_draws_portal_surfaces() {
    let settings = RenderSettings { wireframes: true, portals: false };
    let ops = frame_plan(0, true, settings);
    assert_eq!(
        ops,
        vec![
            RenderOp::SetCamera(Viewpoint::Main),
            RenderOp::DrawPortal(PortalSlot::First),
            RenderOp::DrawPortal(PortalSlot::Second),
            RenderOp::SetCamera(Viewpoint::Main),
            RenderOp::DrawOutline(PortalSlot::First),
            RenderOp::DrawOutline(PortalSlot::Second),
            RenderOp::SetCamera(Viewpoint::Main),
        ]
    );
}

#[test]
fn plan_in_wireframe_with_portal_rendering_draws_no_extra_surfaces() {
    let settings = RenderSettings { wireframes: true, portals: true };
    assert_eq!(frame_plan(3, true, settings), frame_plan(3, true, on()));
}

#[test]
fn through_draws_happen_only_on_matching_stamp() {
    let ops = frame_plan(4, true, on());
    let mut func = (StencilTest::Always, 0u8);
    let mut camera = Viewpoint::Main;
    let mut stencil = false;
    let mut through_draws = 0;
    for op in &ops {
        match *op {
            RenderOp::StencilFunc(t, r) => func = (t, r),
            RenderOp::SetCamera(v) => camera = v,
            RenderOp::EnableStencilTest => stencil = true,
            RenderOp::DisableStencilTest => stencil = false,
            RenderOp::DrawEntity(_) | RenderOp::DrawOutline(_) => match camera {
                Viewpoint::Through(PortalSlot::First) => {
                    through_draws += 1;
                    assert!(stencil);
                    assert_eq!(func, (StencilTest::Equal, 1));
                }
                Viewpoint::Through(PortalSlot::Second) => {
                    through_draws += 1;
                    assert!(stencil);
                    assert_eq!(func, (StencilTest::Equal, 2));
                }
                Viewpoint::Main => assert!(!stencil),
            },
            _ => {}
        }
    }
    assert_eq!(through_draws, 12);
    assert!(!stencil);
}

#[test]
fn scene_pass_lists_entities_in_order() {
    let mut ops = vec![RenderOp::ClearDepth];
    push_scene_pass(&mut ops, Viewpoint::Through(PortalSlot::Second), 3, false);
    assert_eq!(
        ops,
        vec![
            RenderOp::ClearDepth,
            RenderOp::SetCamera(Viewpoint::Through(PortalSlot::Second)),
            RenderOp::DrawEntity(0),
            RenderOp::DrawEntity(1),
            RenderOp::DrawEntity(2),
            RenderOp::SetCamera(Viewpoint::Main),
        ]
    );
}

#[test]
fn portal_stamps_are_distinct() {
    assert_eq!(PortalSlot::First.stamp_value(), 1);
    assert_eq!(PortalSlot::Second.stamp_value(), 2);
}
