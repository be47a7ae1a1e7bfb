//! The animation loop as a state machine: one value owns the position, the
//! zoom level and the loop's state, and one transition per frame takes the
//! outcome of that frame's poll.

use vstd::prelude::*;
use crate::canvas::{get_ui, world_map, WorldMap, TITLE};
use crate::input::{handle_events, is_quit_event, InputEvent};
use crate::location::IpLocation;
use crate::projection::MAX_ZOOM;

verus! {

/// The states of the loop.
#[derive(Clone, Copy, Debug, PartialEq, Eq, Structural)]
pub enum LoopState {
    /// Frames are being drawn.
    Running,
    /// The quit key was pressed; no further frame is drawn.
    Terminating,
}

/// The zoom level after one more frame: one degree further in while the
/// level is below `MAX_ZOOM`, unchanged once it has reached it.
pub open spec fn zoom_after_frame(zoom: int) -> int {
    if zoom < MAX_ZOOM {
        zoom + 1
    } else {
        zoom
    }
}

/// The zoom level after `frames` more frames.
pub open spec fn zoom_after_frames(zoom: int, frames: nat) -> int
    decreases frames,
{
    if frames == 0 {
        zoom
    } else {
        zoom_after_frame(zoom_after_frames(zoom, (frames - 1) as nat))
    }
}

/// Advances the zoom level by one frame. A level within `MAX_ZOOM` stays
/// within it.
pub fn advance_zoom(zoom: u32) -> (next: u32)
    ensures
        next == zoom_after_frame(zoom as int),
        zoom <= MAX_ZOOM ==> next <= MAX_ZOOM,
{
    if zoom < MAX_ZOOM {
        zoom + 1
    } else {
        zoom
    }
}

/// What the loop's owner holds, as mathematical values.
pub struct LoopModel {
    pub location: IpLocation,
    pub zoom: int,
    pub state: LoopState,
}

impl LoopModel {
    /// The transition of one frame, taken once the frame is drawn and the
    /// poll has returned `event`: the zoom level advances, and a quit event
    /// ends the loop. Nothing happens once the loop is terminating.
    pub open spec fn step(self, event: InputEvent) -> LoopModel {
        match self.state {
            LoopState::Running => LoopModel {
                location: self.location,
                zoom: zoom_after_frame(self.zoom),
                state: if is_quit_event(event) {
                    LoopState::Terminating
                } else {
                    LoopState::Running
                },
            },
            LoopState::Terminating => self,
        }
    }

    /// The outcome of a whole run: one transition for each event, in order.
    pub open spec fn run(self, events: Seq<InputEvent>) -> LoopModel
        decreases events.len(),
    {
        if events.len() == 0 {
            self
        } else {
            self.run(events.drop_last()).step(events.last())
        }
    }
}

/// The owner of the animation: the resolved position, the zoom level and the
/// state of the loop.
#[derive(Debug)]
pub struct EventLoop {
    location: IpLocation,
    zoom: u32,
    state: LoopState,
}

impl View for EventLoop {
    type V = LoopModel;

    closed spec fn view(&self) -> LoopModel {
        LoopModel { location: self.location, zoom: self.zoom as int, state: self.state }
    }
}

impl EventLoop {
    /// The zoom level never exceeds `MAX_ZOOM`.
    #[verifier::type_invariant]
    spec fn zoom_bounded(&self) -> bool {
        self.zoom <= MAX_ZOOM
    }

    /// Starts the loop for a resolved position: running, not zoomed in.
    pub fn new(location: IpLocation) -> (owner: EventLoop)
        ensures
            owner@ == (LoopModel { location, zoom: 0, state: LoopState::Running }),
    {
        EventLoop { location, zoom: 0, state: LoopState::Running }
    }

    /// The position that the loop shows.
    pub fn location(&self) -> (location: &IpLocation)
        ensures
            *location == self@.location,
    {
        &self.location
    }

    /// The current zoom level, in degrees.
    pub fn zoom(&self) -> (zoom: u32)
        ensures
            zoom == self@.zoom,
            zoom <= MAX_ZOOM,
    {
        proof {
            use_type_invariant(self);
        }
        self.zoom
    }

    /// The current state of the loop.
    pub fn state(&self) -> (state: LoopState)
        ensures
            state == self@.state,
    {
        self.state
    }

    /// Whether another frame is to be drawn.
    pub fn is_running(&self) -> (running: bool)
        ensures
            running == (self@.state == LoopState::Running),
    {
        match self.state {
            LoopState::Running => true,
            LoopState::Terminating => false,
        }
    }

    /// Describes the frame for the current zoom level, which is within
    /// `MAX_ZOOM`.
    pub fn frame(&self) -> (map: WorldMap)
        ensures
            map@ == world_map(
                self@.location.lon as int,
                self@.location.lat as int,
                self@.zoom,
                TITLE@,
            ),
            map@.marker.within(map@.bounds),
            self@.zoom <= MAX_ZOOM,
    {
        proof {
            use_type_invariant(self);
        }
        get_ui(&self.location, self.zoom)
    }

    /// Takes the transition of one frame: call it with the outcome of the
    /// poll that followed the drawing of the frame.
    pub fn step(&mut self, event: InputEvent)
        ensures
            final(self)@ == old(self)@.step(event),
            final(self)@.zoom <= MAX_ZOOM,
    {
        proof {
            use_type_invariant(&*self);
        }
        match self.state {
            LoopState::Running => {
                self.zoom = advance_zoom(self.zoom);
                if handle_events(event) {
                    self.state = LoopState::Terminating;
                }
            },
            LoopState::Terminating => {},
        }
    }
}

/// The zoom level after any number of frames, in closed form: it climbs by
/// one per frame until it stands at `MAX_ZOOM`, and rests there.
pub proof fn lemma_zoom_after_frames(zoom: int, frames: nat)
    requires
        zoom <= MAX_ZOOM,
    ensures
        zoom_after_frames(zoom, frames) == if zoom + frames <= MAX_ZOOM {
            zoom + frames
        } else {
            MAX_ZOOM as int
        },
    decreases frames,
{
    if frames > 0 {
        lemma_zoom_after_frames(zoom, (frames - 1) as nat);
    }
}

/// Zoom clamping: a zoom level within `MAX_ZOOM` never exceeds `MAX_ZOOM`,
/// however many frames elapse.
pub proof fn lemma_zoom_clamped(zoom: int, frames: nat)
    requires
        zoom <= MAX_ZOOM,
    ensures
        zoom_after_frames(zoom, frames) <= MAX_ZOOM,
{
    lemma_zoom_after_frames(zoom, frames);
}

/// The zoom level never decreases from one frame to a later one, and once it
/// has reached `MAX_ZOOM` it holds steady.
pub proof fn lemma_zoom_monotone(zoom: int, frames: nat, later: nat)
    requires
        frames <= later,
    ensures
        zoom_after_frames(zoom, frames) <= zoom_after_frames(zoom, later),
        zoom_after_frames(zoom, frames) >= MAX_ZOOM ==> zoom_after_frames(zoom, later)
            == zoom_after_frames(zoom, frames),
    decreases later,
{
    if frames < later {
        lemma_zoom_monotone(zoom, frames, (later - 1) as nat);
    }
}

/// Quit determinism: a running loop terminates on a press of the quit key
/// and on nothing else; every other event leaves its state as it was. A
/// terminating loop never runs again.
pub proof fn lemma_quit_determinism(model: LoopModel, event: InputEvent)
    ensures
        model.state == LoopState::Running ==> (model.step(event).state == LoopState::Terminating
            <==> is_quit_event(event)),
        !is_quit_event(event) ==> model.step(event).state == model.state,
        model.state == LoopState::Terminating ==> model.step(event) == model,
{
}

/// Over a whole run the position never changes, and the zoom level never
/// falls and never exceeds `MAX_ZOOM`.
pub proof fn lemma_run_preserves(model: LoopModel, events: Seq<InputEvent>)
    requires
        model.zoom <= MAX_ZOOM,
    ensures
        model.run(events).location == model.location,
        model.zoom <= model.run(events).zoom <= MAX_ZOOM,
    decreases events.len(),
{
    if events.len() > 0 {
        lemma_run_preserves(model, events.drop_last());
    }
}

/// A run that starts running ends terminating exactly if one of its events
/// is a press of the quit key.
pub proof fn lemma_run_terminates(model: LoopModel, events: Seq<InputEvent>)
    requires
        model.state == LoopState::Running,
    ensures
        model.run(events).state == LoopState::Terminating <==> exists|i: int|
            0 <= i < events.len() && is_quit_event(#[trigger] events[i]),
    decreases events.len(),
{
    if events.len() > 0 {
        let front = events.drop_last();
        lemma_run_terminates(model, front);
        if model.run(events).state == LoopState::Terminating {
            if model.run(front).state == LoopState::Terminating {
                let i = choose|i: int| 0 <= i < front.len() && is_quit_event(#[trigger] front[i]);
                assert(is_quit_event(events[i]));
            } else {
                assert(is_quit_event(events[events.len() - 1]));
            }
        } else {
            assert forall|i: int| 0 <= i < events.len() implies !is_quit_event(
                #[trigger] events[i],
            ) by {
                if i < front.len() {
                    assert(front[i] == events[i]);
                }
            }
        }
    }
}

/// As long as no event of a run is a press of the quit key, the loop keeps
/// running and has advanced its zoom level by one frame for each event.
pub proof fn lemma_run_without_quit(model: LoopModel, events: Seq<InputEvent>)
    requires
        model.state == LoopState::Running,
        forall|i: int| 0 <= i < events.len() ==> !is_quit_event(#[trigger] events[i]),
    ensures
        model.run(events).state == LoopState::Running,
        model.run(events).zoom == zoom_after_frames(model.zoom, events.len()),
    decreases events.len(),
{
    if events.len() > 0 {
        let front = events.drop_last();
        assert forall|i: int| 0 <= i < front.len() implies !is_quit_event(#[trigger] front[i]) by {
            assert(front[i] == events[i]);
        }
        lemma_run_without_quit(model, front);
    }
}

} // verus!
