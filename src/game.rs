//! The game: two world snapshots (the one being read, the one being built),
//! the pause and quit flags, and the decisions taken on input events.
use vstd::prelude::*;
use vstd::pervasive::cloned;
use crate::render::RenderSettings;

verus! {

/// The keys the game itself reacts to.
#[derive(Copy, Clone, Debug, PartialEq, Eq, Structural)]
pub enum Key {
    Escape,
    F7,
    F8,
    Other,
}

#[derive(Copy, Clone, Debug, PartialEq, Eq, Structural)]
pub enum MouseButton {
    Left,
    Other,
}

/// An input event, as far as the game's decisions depend on it.
#[derive(Copy, Clone, Debug, PartialEq, Eq, Structural)]
pub enum InputEvent {
    Quit,
    KeyDown(Key),
    KeyUp(Key),
    /// Relative mouse motion, horizontal then vertical.
    MouseMotion(i32, i32),
    MouseButtonDown(MouseButton),
    WindowResized,
    Other,
}

/// What the caller has to carry out after an event.
#[derive(Copy, Clone, Debug, PartialEq, Eq, Structural)]
pub enum Effect {
    /// Capture (`true`) or release the mouse pointer.
    SetRelativeMouse(bool),
    /// Turn the camera of the world being built by this mouse motion.
    RotateCamera(i32, i32),
    /// Fit the viewport to the window's new drawable size.
    UpdateViewport,
}

/// Whether the game is paused after `ev`: Escape toggles the pause, a left
/// click ends it.
pub open spec fn paused_after(paused: bool, ev: InputEvent) -> bool {
    match ev {
        InputEvent::KeyDown(Key::Escape) => !paused,
        InputEvent::MouseButtonDown(MouseButton::Left) => false,
        _ => paused,
    }
}

/// F7 toggles wireframes and F8 portal rendering, paused or not.
pub open spec fn settings_after(settings: RenderSettings, ev: InputEvent) -> RenderSettings {
    match ev {
        InputEvent::KeyDown(Key::F7) => RenderSettings { wireframes: !settings.wireframes, ..settings },
        InputEvent::KeyDown(Key::F8) => RenderSettings { portals: !settings.portals, ..settings },
        _ => settings,
    }
}

/// What `ev` asks of the caller when it arrives while `paused` holds. The
/// mouse is captured exactly while the game runs; mouse motion turns the
/// camera only while it runs.
pub open spec fn effect_of(paused: bool, ev: InputEvent) -> Option<Effect> {
    match ev {
        InputEvent::KeyDown(Key::Escape) => Some(Effect::SetRelativeMouse(paused)),
        InputEvent::MouseButtonDown(MouseButton::Left) => if paused {
            Some(Effect::SetRelativeMouse(true))
        } else {
            None
        },
        InputEvent::MouseMotion(dx, dy) => if paused {
            None
        } else {
            Some(Effect::RotateCamera(dx, dy))
        },
        InputEvent::WindowResized => Some(Effect::UpdateViewport),
        _ => None,
    }
}

pub open spec fn effects_of(paused: bool, ev: InputEvent) -> Seq<Effect> {
    match effect_of(paused, ev) {
        Some(e) => seq![e],
        None => Seq::empty(),
    }
}

/// The outcome of a batch of events: the pause flag, the render settings,
/// the effects in order, and whether a quit request was met. Events after
/// the first quit request are not looked at.
pub open spec fn handled(paused: bool, settings: RenderSettings, evs: Seq<InputEvent>) -> (
    bool,
    RenderSettings,
    Seq<Effect>,
    bool,
)
    decreases evs.len(),
{
    if evs.len() == 0 {
        (paused, settings, Seq::empty(), false)
    } else {
        let (p, s, fx, quit) = handled(paused, settings, evs.drop_last());
        let ev = evs.last();
        if quit {
            (p, s, fx, quit)
        } else if ev is Quit {
            (p, s, fx, true)
        } else {
            (paused_after(p, ev), settings_after(s, ev), fx + effects_of(p, ev), false)
        }
    }
}

proof fn lemma_handled_stops(paused: bool, settings: RenderSettings, evs: Seq<InputEvent>, k: int)
    requires
        0 <= k <= evs.len(),
        handled(paused, settings, evs.take(k)).3,
    ensures
        handled(paused, settings, evs) == handled(paused, settings, evs.take(k)),
    decreases evs.len() - k,
{
    if k < evs.len() {
        assert(evs.take(k + 1).drop_last() =~= evs.take(k));
        assert(handled(paused, settings, evs.take(k + 1)) == handled(paused, settings, evs.take(k)));
        lemma_handled_stops(paused, settings, evs, k + 1);
    } else {
        assert(evs.take(k) =~= evs);
    }
}

/// Two world snapshots: the current one, which is rendered, and the next
/// one, which input and simulation change. A swap publishes the next one as
/// current and starts a fresh copy of it as the next.
pub struct Game<W> {
    first: W,
    second: W,
    next_index: usize,
    current_index: usize,
    to_quit: bool,
    paused: bool,
    fps: u32,
}

impl<W: Clone> Game<W> {
    pub closed spec fn wf(&self) -> bool {
        ||| (self.current_index == 0 && self.next_index == 1)
        ||| (self.current_index == 1 && self.next_index == 0)
    }

    /// The snapshot that is read for rendering.
    pub closed spec fn current(&self) -> W {
        if self.current_index == 0 {
            self.first
        } else {
            self.second
        }
    }

    /// The snapshot that input and simulation change.
    pub closed spec fn next(&self) -> W {
        if self.next_index == 0 {
            self.first
        } else {
            self.second
        }
    }

    pub closed spec fn paused(&self) -> bool {
        self.paused
    }

    pub closed spec fn quitting(&self) -> bool {
        self.to_quit
    }

    pub closed spec fn fps(&self) -> u32 {
        self.fps
    }

    /// A running game whose next snapshot is `world` and whose current one a
    /// copy of it.
    pub fn new(world: W) -> (r: Game<W>)
        ensures
            r.wf(),
            r.next() == world,
            cloned(world, r.current()),
            !r.paused(),
            !r.quitting(),
            r.fps() == 0,
    {
        let copy = world.clone();
        Game {
            first: copy,
            second: world,
            next_index: 1,
            current_index: 0,
            to_quit: false,
            paused: false,
            fps: 0,
        }
    }

    pub fn get_current_world(&self) -> (r: &W)
        requires
            self.wf(),
        ensures
            *r == self.current(),
    {
        if self.current_index == 0 {
            &self.first
        } else {
            &self.second
        }
    }

    pub fn should_quit(&self) -> (r: bool)
        ensures
            r == self.quitting(),
    {
        self.to_quit
    }

    pub fn is_paused(&self) -> (r: bool)
        ensures
            r == self.paused(),
    {
        self.paused
    }

    pub fn set_fps(&mut self, fps: u32)
        ensures
            final(self).fps() == fps,
            final(self).wf() == old(self).wf(),
            final(self).current() == old(self).current(),
            final(self).next() == old(self).next(),
            final(self).paused() == old(self).paused(),
            final(self).quitting() == old(self).quitting(),
    {
        self.fps = fps;
    }

    pub fn get_fps(&self) -> (r: u32)
        ensures
            r == self.fps(),
    {
        self.fps
    }

    /// Publishes the next snapshot as the current one and makes a fresh copy
    /// of it the next one.
    pub fn swap(&mut self)
        requires
            old(self).wf(),
        ensures
            final(self).wf(),
            final(self).current() == old(self).next(),
            cloned(final(self).current(), final(self).next()),
            final(self).paused() == old(self).paused(),
            final(self).quitting() == old(self).quitting(),
            final(self).fps() == old(self).fps(),
    {
        self.current_index = self.next_index;
        self.next_index = if self.next_index == 0 {
            1
        } else {
            0
        };
        if self.current_index == 0 {
            self.second = self.first.clone();
        } else {
            self.first = self.second.clone();
        }
    }

    /// The snapshot that input and simulation change, for changing it.
    pub fn next_world_mut(&mut self) -> (r: &mut W)
        requires
            old(self).wf(),
        ensures
            *r == old(self).next(),
            final(self).wf(),
            final(self).next() == *final(r),
            final(self).current() == old(self).current(),
            final(self).paused() == old(self).paused(),
            final(self).quitting() == old(self).quitting(),
            final(self).fps() == old(self).fps(),
    {
        if self.next_index == 0 {
            &mut self.first
        } else {
            &mut self.second
        }
    }

    /// Takes one event other than a quit request: updates the pause flag and
    /// the render settings, and returns what the caller has to carry out.
    pub fn handle_event(&mut self, ev: InputEvent, settings: &mut RenderSettings) -> (r: Option<
        Effect,
    >)
        requires
            !(ev is Quit),
        ensures
            r == effect_of(old(self).paused(), ev),
            final(self).paused() == paused_after(old(self).paused(), ev),
            *final(settings) == settings_after(*old(settings), ev),
            final(self).wf() == old(self).wf(),
            final(self).current() == old(self).current(),
            final(self).next() == old(self).next(),
            final(self).quitting() == old(self).quitting(),
            final(self).fps() == old(self).fps(),
    {
        match ev {
            InputEvent::KeyDown(Key::Escape) => {
                self.paused = !self.paused;
                Some(Effect::SetRelativeMouse(!self.paused))
            },
            InputEvent::KeyDown(Key::F7) => {
                settings.toggle_wireframes();
                None
            },
            InputEvent::KeyDown(Key::F8) => {
                settings.toggle_portal_rendering();
                None
            },
            InputEvent::MouseMotion(dx, dy) => {
                if self.paused {
                    None
                } else {
                    Some(Effect::RotateCamera(dx, dy))
                }
            },
            InputEvent::MouseButtonDown(MouseButton::Left) => {
                if self.paused {
                    self.paused = false;
                    Some(Effect::SetRelativeMouse(true))
                } else {
                    None
                }
            },
            InputEvent::WindowResized => Some(Effect::UpdateViewport),
            _ => None,
        }
    }

    /// Takes a batch of events in order, up to and including the first quit
    /// request, which marks the game as quitting. Returns the effects to
    /// carry out, in order.
    pub fn handle_events(&mut self, events: &Vec<InputEvent>, settings: &mut RenderSettings) -> (r:
        Vec<Effect>)
        ensures
            ({
                let (p, st, fx, quit) = handled(old(self).paused(), *old(settings), events@);
                &&& final(self).paused() == p
                &&& *final(settings) == st
                &&& r@ == fx
                &&& final(self).quitting() == (old(self).quitting() || quit)
            }),
            final(self).wf() == old(self).wf(),
            final(self).current() == old(self).current(),
            final(self).next() == old(self).next(),
            final(self).fps() == old(self).fps(),
    {
        let ghost p0 = self.paused;
        let ghost s0 = *settings;
        let mut effects: Vec<Effect> = Vec::new();
        let mut i: usize = 0;
        while i < events.len()
            invariant
                i <= events.len(),
                p0 == old(self).paused,
                s0 == *old(settings),
                handled(p0, s0, events@.take(i as int)) == (
                    self.paused,
                    *settings,
                    effects@,
                    false,
                ),
                self.to_quit == old(self).to_quit,
                self.wf() == old(self).wf(),
                self.current() == old(self).current(),
                self.next() == old(self).next(),
                self.fps == old(self).fps,
            decreases events.len() - i,
        {
            let ev = events[i];
            assert(events@.take(i + 1).drop_last() =~= events@.take(i as int));
            if matches!(ev, InputEvent::Quit) {
                self.to_quit = true;
                proof {
                    lemma_handled_stops(p0, s0, events@, i + 1);
                }
                return effects;
            }
            let ghost before = effects@;
            let ghost paused_before = self.paused;
            let e = self.handle_event(ev, settings);
            match e {
                Some(x) => effects.push(x),
                None => {},
            }
            assert(effects@ =~= before + effects_of(paused_before, ev));
            i = i + 1;
        }
        assert(events@.take(i as int) =~= events@);
        effects
    }
}

} // verus!
