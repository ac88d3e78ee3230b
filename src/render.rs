use vstd::prelude::*;

verus! {

/// The switches that change how a frame is drawn.
#[derive(Copy, Clone, Debug, PartialEq, Eq, Structural)]
pub struct RenderSettings {
    /// Draw polygons as outlines, with depth testing and culling off.
    pub wireframes: bool,
    /// Fill the portal surfaces with the view through them.
    pub portals: bool,
}

/// One state change made when a finished frame is presented and the next
/// one begins.
#[derive(Copy, Clone, Debug, PartialEq, Eq, Structural)]
pub enum SurfaceOp {
    ClearColor,
    ClearDepth,
    /// `true`: polygons are drawn as lines; `false`: filled.
    PolygonLines(bool),
    DepthTest(bool),
    FaceCulling(bool),
}

/// The state changes that start a frame under the given settings.
pub open spec fn frame_start_ops(settings: RenderSettings) -> Seq<SurfaceOp> {
    let solid = !settings.wireframes;
    seq![
        SurfaceOp::ClearColor,
        SurfaceOp::ClearDepth,
        SurfaceOp::PolygonLines(settings.wireframes),
        SurfaceOp::DepthTest(solid),
        SurfaceOp::FaceCulling(solid),
    ]
}

impl RenderSettings {
    /// Solid polygons, portals filled.
    pub fn new() -> (r: RenderSettings)
        ensures
            r == (RenderSettings { wireframes: false, portals: true }),
    {
        RenderSettings { wireframes: false, portals: true }
    }

    pub fn toggle_wireframes(&mut self)
        ensures
            final(self).wireframes == !old(self).wireframes,
            final(self).portals == old(self).portals,
    {
        self.wireframes = !self.wireframes;
    }

    pub fn toggle_portal_rendering(&mut self)
        ensures
            final(self).portals == !old(self).portals,
            final(self).wireframes == old(self).wireframes,
    {
        self.portals = !self.portals;
    }

    pub fn is_wireframe(&self) -> (r: bool)
        ensures
            r == self.wireframes,
    {
        self.wireframes
    }

    pub fn should_render_portals(&self) -> (r: bool)
        ensures
            r == self.portals,
    {
        self.portals
    }

    /// The state changes to make after presenting a frame: clear colour and
    /// depth, then set polygon mode, depth test and culling for the mode.
    pub fn frame_start(&self) -> (r: Vec<SurfaceOp>)
        ensures
            r@ == frame_start_ops(*self),
    {
        let solid = !self.wireframes;
        let r = vec![
            SurfaceOp::ClearColor,
            SurfaceOp::ClearDepth,
            SurfaceOp::PolygonLines(self.wireframes),
            SurfaceOp::DepthTest(solid),
            SurfaceOp::FaceCulling(solid),
        ];
        assert(r@ =~= frame_start_ops(*self));
        r
    }
}

} // verus!
