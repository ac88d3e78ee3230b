//! The stencil-masked portal frame: the ordered list of pipeline operations
//! that draws the scene through both portals of a pair and then the main view,
//! and a model of the pipeline state those operations drive.
use vstd::prelude::*;
use crate::render::RenderSettings;

verus! {

/// One of the two portals of a pair.
#[derive(Copy, Clone, Debug, PartialEq, Eq, Structural)]
pub enum PortalSlot {
    First,
    Second,
}

impl PortalSlot {
    /// The stencil value written where this portal's surface is visible.
    pub open spec fn stamp(self) -> u8 {
        match self {
            PortalSlot::First => 1,
            PortalSlot::Second => 2,
        }
    }

    pub fn stamp_value(&self) -> (r: u8)
        ensures
            r == self.stamp(),
    {
        match self {
            PortalSlot::First => 1,
            PortalSlot::Second => 2,
        }
    }
}

/// The camera a draw is made from: the real one, or the one transformed
/// through a portal (entering at that portal, leaving at the other).
#[derive(Copy, Clone, Debug, PartialEq, Eq, Structural)]
pub enum Viewpoint {
    Main,
    Through(PortalSlot),
}

/// The comparison the stencil test makes against the reference value.
#[derive(Copy, Clone, Debug, PartialEq, Eq, Structural)]
pub enum StencilTest {
    Always,
    Equal,
}

/// One pipeline operation of a frame.
#[derive(Copy, Clone, Debug, PartialEq, Eq, Structural)]
pub enum RenderOp {
    /// Subsequent draws use this camera's view and projection.
    SetCamera(Viewpoint),
    EnableStencilTest,
    DisableStencilTest,
    /// Bits of the stencil buffer that draws may write.
    StencilMask(u8),
    /// Whether draws write colour.
    ColorMask(bool),
    /// Whether draws write depth.
    DepthMask(bool),
    /// Stencil comparison and its reference value (compared on all bits).
    StencilFunc(StencilTest, u8),
    /// `true`: a fragment that passes both tests writes the reference value
    /// into the stencil buffer; `false`: the stencil buffer is kept.
    ReplaceOnPass(bool),
    ClearDepth,
    /// Draw the flat surface of a portal.
    DrawPortal(PortalSlot),
    /// Draw the entity at this index of the world's list.
    DrawEntity(usize),
    /// Draw the decorative frame around a portal.
    DrawOutline(PortalSlot),
}

/// The pipeline state that the operations of a frame set.
#[derive(Copy, Clone, Debug, PartialEq, Eq, Structural)]
pub struct PipelineState {
    pub camera: Viewpoint,
    pub stencil_test: bool,
    pub stencil_mask: u8,
    pub color_write: bool,
    pub depth_write: bool,
    pub test: StencilTest,
    pub reference: u8,
    pub replace: bool,
}

/// The state after one operation.
pub open spec fn apply(s: PipelineState, op: RenderOp) -> PipelineState {
    match op {
        RenderOp::SetCamera(v) => PipelineState { camera: v, ..s },
        RenderOp::EnableStencilTest => PipelineState { stencil_test: true, ..s },
        RenderOp::DisableStencilTest => PipelineState { stencil_test: false, ..s },
        RenderOp::StencilMask(m) => PipelineState { stencil_mask: m, ..s },
        RenderOp::ColorMask(b) => PipelineState { color_write: b, ..s },
        RenderOp::DepthMask(b) => PipelineState { depth_write: b, ..s },
        RenderOp::StencilFunc(t, r) => PipelineState { test: t, reference: r, ..s },
        RenderOp::ReplaceOnPass(b) => PipelineState { replace: b, ..s },
        _ => s,
    }
}

/// The state after a sequence of operations, starting from `s`.
pub open spec fn run(s: PipelineState, ops: Seq<RenderOp>) -> PipelineState
    decreases ops.len(),
{
    if ops.len() == 0 {
        s
    } else {
        apply(run(s, ops.drop_last()), ops.last())
    }
}

/// Whether an entity or outline draw made in state `s` lands where it should:
/// from the real camera with no stencil test; through a portal only on the
/// pixels stamped with that portal's value, leaving the stencil untouched.
pub open spec fn scene_draw_ok(s: PipelineState) -> bool {
    &&& s.color_write
    &&& s.depth_write
    &&& match s.camera {
        Viewpoint::Main => !s.stencil_test,
        Viewpoint::Through(p) => {
            &&& s.stencil_test
            &&& s.stencil_mask == 0
            &&& s.test == StencilTest::Equal
            &&& s.reference == p.stamp()
        },
    }
}

/// Whether a portal surface draw made in state `s` is a pure mask draw: while
/// the stencil test is on it writes no colour, and it either leaves the
/// stencil alone or stamps the portal's own value over its whole surface
/// without writing depth.
pub open spec fn portal_draw_ok(s: PipelineState, p: PortalSlot) -> bool {
    s.stencil_test ==> {
        &&& !s.color_write
        &&& (s.stencil_mask == 0 || {
            &&& s.stencil_mask == 0xff
            &&& s.test == StencilTest::Always
            &&& s.replace
            &&& s.reference == p.stamp()
            &&& !s.depth_write
        })
    }
}

pub open spec fn op_ok(s: PipelineState, op: RenderOp) -> bool {
    match op {
        RenderOp::DrawEntity(_) => scene_draw_ok(s),
        RenderOp::DrawOutline(_) => scene_draw_ok(s),
        RenderOp::DrawPortal(p) => portal_draw_ok(s, p),
        _ => true,
    }
}

/// Every operation of `ops`, run from `s`, is made in a state that suits it.
pub open spec fn well_masked(s: PipelineState, ops: Seq<RenderOp>) -> bool {
    forall|i: int| 0 <= i < ops.len() ==> #[trigger] op_ok(run(s, ops.take(i)), ops[i])
}

/// The state between frames: stencil test off, colour and depth written.
pub open spec fn settled(s: PipelineState) -> bool {
    !s.stencil_test && s.color_write && s.depth_write
}

/// The state that a frame with portal rendering leaves, whatever came before.
pub open spec fn rest_state() -> PipelineState {
    PipelineState {
        camera: Viewpoint::Main,
        stencil_test: false,
        stencil_mask: 0,
        color_write: true,
        depth_write: true,
        test: StencilTest::Always,
        reference: 0,
        replace: false,
    }
}

/// One draw for each of the first `n` entities, in order.
pub open spec fn entity_draws(n: nat) -> Seq<RenderOp> {
    Seq::new(n, |i: int| RenderOp::DrawEntity(i as usize))
}

/// The scene drawn from one camera: every entity, then (with a portal pair)
/// both portal outlines; the real camera is selected again at the end.
pub open spec fn scene_pass(v: Viewpoint, n: nat, outlines: bool) -> Seq<RenderOp> {
    seq![RenderOp::SetCamera(v)] + entity_draws(n) + (if outlines {
        Seq::empty()
            .push(RenderOp::DrawOutline(PortalSlot::First))
            .push(RenderOp::DrawOutline(PortalSlot::Second))
    } else {
        Seq::empty()
    }) + seq![RenderOp::SetCamera(Viewpoint::Main)]
}

/// Draw a portal's surface into the depth buffer only, so that what lies
/// behind it is hidden from the next stamp.
pub open spec fn depth_seed(p: PortalSlot) -> Seq<RenderOp> {
    Seq::empty()
        .push(RenderOp::StencilMask(0))
        .push(RenderOp::ColorMask(false))
        .push(RenderOp::DepthMask(true))
        .push(RenderOp::DrawPortal(p))
}

/// Stamp a portal's value into the stencil wherever its surface passes the
/// depth test.
pub open spec fn stencil_mark(p: PortalSlot) -> Seq<RenderOp> {
    Seq::empty()
        .push(RenderOp::StencilMask(0xff))
        .push(RenderOp::StencilFunc(StencilTest::Always, p.stamp()))
        .push(RenderOp::ReplaceOnPass(true))
        .push(RenderOp::DepthMask(false))
        .push(RenderOp::DrawPortal(p))
}

/// Stop stencil writes and clear depth.
pub open spec fn clear_depth() -> Seq<RenderOp> {
    Seq::empty()
        .push(RenderOp::StencilMask(0))
        .push(RenderOp::DepthMask(true))
        .push(RenderOp::ClearDepth)
}

/// Pass only where `p` was stamped, keep the stencil, write colour and depth.
pub open spec fn through_setup(p: PortalSlot) -> Seq<RenderOp> {
    Seq::empty()
        .push(RenderOp::StencilFunc(StencilTest::Equal, p.stamp()))
        .push(RenderOp::ReplaceOnPass(false))
        .push(RenderOp::ColorMask(true))
        .push(RenderOp::DepthMask(true))
}

/// Draw the scene as seen through portal `p`, only where `p` was stamped.
pub open spec fn through_pass(p: PortalSlot, n: nat) -> Seq<RenderOp> {
    through_setup(p) + scene_pass(Viewpoint::Through(p), n, true)
}

/// Draw both portal surfaces into depth only, so that the main view does not
/// cover what was drawn through them; then turn the stencil test off.
pub open spec fn protect_portals() -> Seq<RenderOp> {
    Seq::empty()
        .push(RenderOp::StencilFunc(StencilTest::Always, 0))
        .push(RenderOp::ColorMask(false))
        .push(RenderOp::DrawPortal(PortalSlot::First))
        .push(RenderOp::DrawPortal(PortalSlot::Second))
        .push(RenderOp::DisableStencilTest)
        .push(RenderOp::ColorMask(true))
}

/// Hide what lies behind portal `seed`, then stamp portal `mark`, then clear
/// depth.
pub open spec fn stamp_behind(seed: PortalSlot, mark: PortalSlot) -> Seq<RenderOp> {
    depth_seed(seed) + stencil_mark(mark) + clear_depth()
}

/// The portal phase of a frame: with the stencil test on, stamp each portal
/// (the second first, hidden behind the first, then the other way round),
/// draw the scene through each, then protect both from the main view.
pub open spec fn portal_pass(n: nat) -> Seq<RenderOp> {
    seq![RenderOp::EnableStencilTest] + stamp_behind(PortalSlot::First, PortalSlot::Second)
        + stamp_behind(PortalSlot::Second, PortalSlot::First) + through_pass(PortalSlot::First, n)
        + through_pass(PortalSlot::Second, n) + protect_portals()
}

/// The operations of a whole frame for a world of `n` entities.
pub open spec fn frame_ops(n: nat, has_portals: bool, settings: RenderSettings) -> Seq<RenderOp> {
    seq![RenderOp::SetCamera(Viewpoint::Main)] + (if has_portals && settings.portals {
        portal_pass(n)
    } else {
        Seq::empty()
    }) + (if has_portals && settings.wireframes && !settings.portals {
        Seq::empty()
            .push(RenderOp::DrawPortal(PortalSlot::First))
            .push(RenderOp::DrawPortal(PortalSlot::Second))
    } else {
        Seq::empty()
    }) + scene_pass(Viewpoint::Main, n, has_portals)
}

pub broadcast proof fn lemma_run_push(s: PipelineState, ops: Seq<RenderOp>, op: RenderOp)
    ensures
        #[trigger] run(s, ops.push(op)) == apply(run(s, ops), op),
{
    assert(ops.push(op).drop_last() =~= ops);
}

pub proof fn lemma_run_concat(s: PipelineState, a: Seq<RenderOp>, b: Seq<RenderOp>)
    ensures
        run(s, a + b) == run(run(s, a), b),
    decreases b.len(),
{
    if b.len() == 0 {
        assert(a + b =~= a);
    } else {
        assert((a + b).drop_last() =~= a + b.drop_last());
        lemma_run_concat(s, a, b.drop_last());
    }
}

pub proof fn lemma_well_masked_concat(s: PipelineState, a: Seq<RenderOp>, b: Seq<RenderOp>)
    ensures
        well_masked(s, a + b) == (well_masked(s, a) && well_masked(run(s, a), b)),
{
    let ab = a + b;
    assert forall|i: int| 0 <= i < a.len() implies ab.take(i) == a.take(i) && ab[i] == a[i] by {
        assert(ab.take(i) =~= a.take(i));
    }
    assert forall|j: int| 0 <= j < b.len() implies run(s, ab.take(a.len() + j)) == run(
        run(s, a),
        b.take(j),
    ) && ab[a.len() + j] == b[j] by {
        assert(ab.take(a.len() + j) =~= a + b.take(j));
        lemma_run_concat(s, a, b.take(j));
    }
    if well_masked(s, ab) {
        assert forall|i: int| 0 <= i < a.len() implies op_ok(run(s, a.take(i)), a[i]) by {
            assert(op_ok(run(s, ab.take(i)), ab[i]));
        }
        assert forall|j: int| 0 <= j < b.len() implies op_ok(run(run(s, a), b.take(j)), b[j]) by {
            assert(op_ok(run(s, ab.take(a.len() + j)), ab[a.len() + j]));
        }
    }
    if well_masked(s, a) && well_masked(run(s, a), b) {
        assert forall|i: int| 0 <= i < ab.len() implies op_ok(run(s, ab.take(i)), ab[i]) by {
            if i < a.len() {
                assert(op_ok(run(s, a.take(i)), a[i]));
            } else {
                let j = i - a.len();
                assert(op_ok(run(run(s, a), b.take(j)), b[j]));
            }
        }
    }
}

pub broadcast proof fn lemma_well_masked_push(s: PipelineState, ops: Seq<RenderOp>, op: RenderOp)
    ensures
        #[trigger] well_masked(s, ops.push(op)) == (well_masked(s, ops) && op_ok(run(s, ops), op)),
{
    let one = seq![op];
    assert(ops.push(op) =~= ops + one);
    lemma_well_masked_concat(s, ops, one);
    assert(one.take(0) =~= Seq::<RenderOp>::empty());
    if op_ok(run(s, ops), op) {
        assert(op_ok(run(run(s, ops), one.take(0)), one[0]));
    }
    if well_masked(run(s, ops), one) {
        assert(op_ok(run(run(s, ops), one.take(0)), one[0]));
    }
}

pub proof fn lemma_well_masked_empty(s: PipelineState)
    ensures
        well_masked(s, Seq::empty()),
{
}

proof fn lemma_entity_draws(s: PipelineState, n: nat)
    ensures
        run(s, entity_draws(n)) == s,
        scene_draw_ok(s) ==> well_masked(s, entity_draws(n)),
    decreases n,
{
    broadcast use lemma_run_push, lemma_well_masked_push;

    if n == 0 {
        assert(entity_draws(0) =~= Seq::<RenderOp>::empty());
        lemma_well_masked_empty(s);
    } else {
        lemma_entity_draws(s, (n - 1) as nat);
        assert(entity_draws(n) =~= entity_draws((n - 1) as nat).push(
            RenderOp::DrawEntity((n - 1) as usize),
        ));
    }
}

proof fn lemma_scene_pass(s: PipelineState, v: Viewpoint, n: nat, outlines: bool)
    requires
        scene_draw_ok(PipelineState { camera: v, ..s }),
    ensures
        well_masked(s, scene_pass(v, n, outlines)),
        run(s, scene_pass(v, n, outlines)) == (PipelineState { camera: Viewpoint::Main, ..s }),
{
    broadcast use lemma_run_push, lemma_well_masked_push;

    let a: Seq<RenderOp> = seq![RenderOp::SetCamera(v)];
    let e = entity_draws(n);
    let o: Seq<RenderOp> = if outlines {
        Seq::empty()
            .push(RenderOp::DrawOutline(PortalSlot::First))
            .push(RenderOp::DrawOutline(PortalSlot::Second))
    } else {
        Seq::empty()
    };
    let m: Seq<RenderOp> = seq![RenderOp::SetCamera(Viewpoint::Main)];
    let sv = PipelineState { camera: v, ..s };
    lemma_well_masked_empty(s);
    lemma_well_masked_empty(sv);
    assert(run(s, a) == sv);
    assert(well_masked(s, a));
    lemma_entity_draws(sv, n);
    lemma_run_concat(s, a, e);
    lemma_well_masked_concat(s, a, e);
    assert(run(sv, o) == sv);
    assert(well_masked(sv, o));
    lemma_run_concat(s, a + e, o);
    lemma_well_masked_concat(s, a + e, o);
    lemma_run_concat(s, a + e + o, m);
    lemma_well_masked_concat(s, a + e + o, m);
}

proof fn lemma_through_pass(s: PipelineState, p: PortalSlot, n: nat)
    requires
        s.stencil_test,
        s.stencil_mask == 0,
    ensures
        well_masked(s, through_pass(p, n)),
        run(s, through_pass(p, n)) == (PipelineState {
            camera: Viewpoint::Main,
            color_write: true,
            depth_write: true,
            test: StencilTest::Equal,
            reference: p.stamp(),
            replace: false,
            ..s
        }),
{
    broadcast use lemma_run_push, lemma_well_masked_push;

    lemma_well_masked_empty(s);
    let a = through_setup(p);
    let t = run(s, a);
    assert(well_masked(s, a));
    lemma_scene_pass(t, Viewpoint::Through(p), n, true);
    lemma_run_concat(s, a, scene_pass(Viewpoint::Through(p), n, true));
    lemma_well_masked_concat(s, a, scene_pass(Viewpoint::Through(p), n, true));
}

proof fn lemma_stamp_behind(s: PipelineState, seed: PortalSlot, mark: PortalSlot)
    requires
        s.stencil_test,
    ensures
        well_masked(s, stamp_behind(seed, mark)),
        run(s, stamp_behind(seed, mark)) == (PipelineState {
            stencil_mask: 0,
            color_write: false,
            depth_write: true,
            test: StencilTest::Always,
            reference: mark.stamp(),
            replace: true,
            ..s
        }),
{
    broadcast use lemma_run_push, lemma_well_masked_push;

    let d = depth_seed(seed);
    let m = stencil_mark(mark);
    lemma_well_masked_empty(s);
    lemma_well_masked_empty(run(s, d));
    lemma_run_concat(s, d, m);
    lemma_well_masked_concat(s, d, m);
    lemma_well_masked_empty(run(s, d + m));
    lemma_run_concat(s, d + m, clear_depth());
    lemma_well_masked_concat(s, d + m, clear_depth());
}

/// Whatever state the pipeline is in, the portal phase draws every portal
/// surface as a pure mask, draws the scene through each portal only on that
/// portal's stamp, and leaves the pipeline in the rest state.
pub proof fn lemma_portal_pass(s: PipelineState, n: nat)
    ensures
        well_masked(s, portal_pass(n)),
        run(s, portal_pass(n)) == rest_state(),
{
    broadcast use lemma_run_push, lemma_well_masked_push;

    let p0: Seq<RenderOp> = seq![RenderOp::EnableStencilTest];
    lemma_well_masked_empty(s);
    assert(well_masked(s, p0));
    let b1 = stamp_behind(PortalSlot::First, PortalSlot::Second);
    lemma_stamp_behind(run(s, p0), PortalSlot::First, PortalSlot::Second);
    lemma_run_concat(s, p0, b1);
    lemma_well_masked_concat(s, p0, b1);
    let p1 = p0 + b1;
    let b2 = stamp_behind(PortalSlot::Second, PortalSlot::First);
    lemma_stamp_behind(run(s, p1), PortalSlot::Second, PortalSlot::First);
    lemma_run_concat(s, p1, b2);
    lemma_well_masked_concat(s, p1, b2);
    let p2 = p1 + b2;
    let t1 = through_pass(PortalSlot::First, n);
    lemma_through_pass(run(s, p2), PortalSlot::First, n);
    lemma_run_concat(s, p2, t1);
    lemma_well_masked_concat(s, p2, t1);
    let p3 = p2 + t1;
    let t2 = through_pass(PortalSlot::Second, n);
    lemma_through_pass(run(s, p3), PortalSlot::Second, n);
    lemma_run_concat(s, p3, t2);
    lemma_well_masked_concat(s, p3, t2);
    let p4 = p3 + t2;
    lemma_well_masked_empty(run(s, p4));
    lemma_run_concat(s, p4, protect_portals());
    lemma_well_masked_concat(s, p4, protect_portals());
}

proof fn lemma_frame_parts(s: PipelineState, n: nat, has_portals: bool, settings: RenderSettings)
    requires
        settled(s) || (has_portals && settings.portals),
    ensures
        well_masked(s, frame_ops(n, has_portals, settings)),
        run(s, frame_ops(n, has_portals, settings)) == (if has_portals && settings.portals {
            rest_state()
        } else {
            PipelineState { camera: Viewpoint::Main, ..s }
        }),
{
    broadcast use lemma_run_push, lemma_well_masked_push;

    let h: Seq<RenderOp> = seq![RenderOp::SetCamera(Viewpoint::Main)];
    let pp: Seq<RenderOp> = if has_portals && settings.portals {
        portal_pass(n)
    } else {
        Seq::empty()
    };
    let w: Seq<RenderOp> = if has_portals && settings.wireframes && !settings.portals {
        Seq::empty()
            .push(RenderOp::DrawPortal(PortalSlot::First))
            .push(RenderOp::DrawPortal(PortalSlot::Second))
    } else {
        Seq::empty()
    };
    let m = scene_pass(Viewpoint::Main, n, has_portals);
    lemma_well_masked_empty(s);
    assert(well_masked(s, h));
    let t = run(s, h);
    if has_portals && settings.portals {
        lemma_portal_pass(t, n);
    } else {
        lemma_well_masked_empty(t);
    }
    lemma_run_concat(s, h, pp);
    lemma_well_masked_concat(s, h, pp);
    let u = run(s, h + pp);
    lemma_well_masked_empty(u);
    assert(well_masked(u, w));
    assert(run(u, w) == u);
    lemma_run_concat(s, h + pp, w);
    lemma_well_masked_concat(s, h + pp, w);
    lemma_scene_pass(u, Viewpoint::Main, n, has_portals);
    lemma_run_concat(s, h + pp + w, m);
    lemma_well_masked_concat(s, h + pp + w, m);
}

/// A frame that starts with the stencil test off and colour and depth
/// written makes every draw in a suitable state (see `well_masked`), and
/// ends in such a state again, with the real camera selected.
pub proof fn lemma_frame_well_masked(
    s: PipelineState,
    n: nat,
    has_portals: bool,
    settings: RenderSettings,
)
    requires
        settled(s),
    ensures
        well_masked(s, frame_ops(n, has_portals, settings)),
        settled(run(s, frame_ops(n, has_portals, settings))),
        run(s, frame_ops(n, has_portals, settings)).camera == Viewpoint::Main,
{
    lemma_frame_parts(s, n, has_portals, settings);
}

/// A frame that renders portals leaves the pipeline in the same rest state
/// from any state it started in.
pub proof fn lemma_portal_frame_resets(s: PipelineState, n: nat, settings: RenderSettings)
    requires
        settings.portals,
    ensures
        well_masked(s, frame_ops(n, true, settings)),
        run(s, frame_ops(n, true, settings)) == rest_state(),
{
    lemma_frame_parts(s, n, true, settings);
}

fn push_depth_seed(ops: &mut Vec<RenderOp>, p: PortalSlot)
    ensures
        final(ops)@ == old(ops)@ + depth_seed(p),
{
    ops.push(RenderOp::StencilMask(0));
    ops.push(RenderOp::ColorMask(false));
    ops.push(RenderOp::DepthMask(true));
    ops.push(RenderOp::DrawPortal(p));
    assert(ops@ =~= old(ops)@ + depth_seed(p));
}

fn push_stencil_mark(ops: &mut Vec<RenderOp>, p: PortalSlot)
    ensures
        final(ops)@ == old(ops)@ + stencil_mark(p),
{
    ops.push(RenderOp::StencilMask(0xff));
    ops.push(RenderOp::StencilFunc(StencilTest::Always, p.stamp_value()));
    ops.push(RenderOp::ReplaceOnPass(true));
    ops.push(RenderOp::DepthMask(false));
    ops.push(RenderOp::DrawPortal(p));
    assert(ops@ =~= old(ops)@ + stencil_mark(p));
}

fn push_clear_depth(ops: &mut Vec<RenderOp>)
    ensures
        final(ops)@ == old(ops)@ + clear_depth(),
{
    ops.push(RenderOp::StencilMask(0));
    ops.push(RenderOp::DepthMask(true));
    ops.push(RenderOp::ClearDepth);
    assert(ops@ =~= old(ops)@ + clear_depth());
}

/// Appends the scene as drawn from camera `v`: each of the `entity_count`
/// entities in order, the two portal outlines when `outlines`, and a switch
/// back to the real camera.
pub fn push_scene_pass(ops: &mut Vec<RenderOp>, v: Viewpoint, entity_count: usize, outlines: bool)
    ensures
        final(ops)@ == old(ops)@ + scene_pass(v, entity_count as nat, outlines),
{
    let ghost start = ops@;
    ops.push(RenderOp::SetCamera(v));
    let mut i: usize = 0;
    while i < entity_count
        invariant
            i <= entity_count,
            ops@ == start + seq![RenderOp::SetCamera(v)] + entity_draws(i as nat),
        decreases entity_count - i,
    {
        ops.push(RenderOp::DrawEntity(i));
        i = i + 1;
        assert(ops@ =~= start + seq![RenderOp::SetCamera(v)] + entity_draws(i as nat));
    }
    let ghost mid = ops@;
    if outlines {
        ops.push(RenderOp::DrawOutline(PortalSlot::First));
        ops.push(RenderOp::DrawOutline(PortalSlot::Second));
    }
    ops.push(RenderOp::SetCamera(Viewpoint::Main));
    assert(ops@ =~= start + scene_pass(v, entity_count as nat, outlines));
}

fn push_through_pass(ops: &mut Vec<RenderOp>, p: PortalSlot, entity_count: usize)
    ensures
        final(ops)@ == old(ops)@ + through_pass(p, entity_count as nat),
{
    let ghost start = ops@;
    ops.push(RenderOp::StencilFunc(StencilTest::Equal, p.stamp_value()));
    ops.push(RenderOp::ReplaceOnPass(false));
    ops.push(RenderOp::ColorMask(true));
    ops.push(RenderOp::DepthMask(true));
    assert(ops@ =~= start + through_setup(p));
    push_scene_pass(ops, Viewpoint::Through(p), entity_count, true);
    assert(ops@ =~= start + through_pass(p, entity_count as nat));
}

fn push_stamp_behind(ops: &mut Vec<RenderOp>, seed: PortalSlot, mark: PortalSlot)
    ensures
        final(ops)@ == old(ops)@ + stamp_behind(seed, mark),
{
    let ghost start = ops@;
    push_depth_seed(ops, seed);
    push_stencil_mark(ops, mark);
    push_clear_depth(ops);
    assert(ops@ =~= start + stamp_behind(seed, mark));
}

fn push_portal_pass(ops: &mut Vec<RenderOp>, entity_count: usize)
    ensures
        final(ops)@ == old(ops)@ + portal_pass(entity_count as nat),
{
    let ghost start = ops@;
    ops.push(RenderOp::EnableStencilTest);
    push_stamp_behind(ops, PortalSlot::First, PortalSlot::Second);
    push_stamp_behind(ops, PortalSlot::Second, PortalSlot::First);
    push_through_pass(ops, PortalSlot::First, entity_count);
    push_through_pass(ops, PortalSlot::Second, entity_count);
    ops.push(RenderOp::StencilFunc(StencilTest::Always, 0));
    ops.push(RenderOp::ColorMask(false));
    ops.push(RenderOp::DrawPortal(PortalSlot::First));
    ops.push(RenderOp::DrawPortal(PortalSlot::Second));
    ops.push(RenderOp::DisableStencilTest);
    ops.push(RenderOp::ColorMask(true));
    assert(ops@ =~= start + portal_pass(entity_count as nat));
}

/// The operations that draw one frame of a world holding `entity_count`
/// entities and, if `has_portals`, a portal pair. With portal rendering on,
/// the scene is first drawn through each portal on that portal's stencil
/// stamp; the main view is drawn last.
pub fn frame_plan(entity_count: usize, has_portals: bool, settings: RenderSettings) -> (r: Vec<
    RenderOp,
>)
    ensures
        r@ == frame_ops(entity_count as nat, has_portals, settings),
        forall|s: PipelineState|
            settled(s) ==> well_masked(s, r@) && settled(#[trigger] run(s, r@)),
        has_portals && settings.portals ==> forall|s: PipelineState|
            #[trigger] run(s, r@) == rest_state(),
{
    let mut ops: Vec<RenderOp> = Vec::new();
    ops.push(RenderOp::SetCamera(Viewpoint::Main));
    if has_portals && settings.portals {
        push_portal_pass(&mut ops, entity_count);
    }
    if has_portals && settings.wireframes && !settings.portals {
        ops.push(RenderOp::DrawPortal(PortalSlot::First));
        ops.push(RenderOp::DrawPortal(PortalSlot::Second));
    }
    push_scene_pass(&mut ops, Viewpoint::Main, entity_count, has_portals);
    assert(ops@ =~= frame_ops(entity_count as nat, has_portals, settings));
    proof {
        let n = entity_count as nat;
        assert forall|s: PipelineState| settled(s) implies well_masked(s, ops@) && settled(
            #[trigger] run(s, ops@),
        ) by {
            assert(ops@ == frame_ops(n, has_portals, settings));
            lemma_frame_well_masked(s, n, has_portals, settings);
            assert(well_masked(s, frame_ops(n, has_portals, settings)));
        }
        if has_portals && settings.portals {
            assert forall|s: PipelineState| #[trigger] run(s, ops@) == rest_state() by {
                lemma_portal_frame_resets(s, n, settings);
            }
        }
    }
    ops
}

} // verus!
