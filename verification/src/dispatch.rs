//! The event-dispatch state machine: Running until a close request, an
//! escape press or a fatal surface error, then Exiting; resize requests
//! update the configuration, redraw requests drive a frame, and surface
//! errors follow the recovery policy.

use vstd::prelude::*;
use crate::config::{spec_resize, State};
use crate::event::{EventKind, SurfaceError};

verus! {

/// Whether the application keeps running. `Exiting` is terminal: once
/// entered, the dispatcher acts on nothing further.
#[derive(Clone, Copy, PartialEq, Eq, Structural, Debug)]
pub enum Phase {
    Running,
    Exiting,
}

/// What the embedder must do after a dispatch step.
#[derive(Clone, Copy, PartialEq, Eq, Structural, Debug)]
pub enum Action {
    /// Nothing to do.
    Idle,
    /// Stop the event loop.
    Exit,
    /// Re-apply the stored surface configuration to the surface.
    Reconfigure,
    /// Request the next redraw, run the update step, render a frame, and
    /// hand the frame's outcome back to the dispatcher.
    RenderFrame,
}

/// The dispatcher: the application state together with the phase of the
/// event loop.
#[derive(Clone, Copy, PartialEq, Eq, Structural, Debug)]
pub struct Dispatcher {
    pub state: State,
    pub phase: Phase,
}

/// The transition a window event causes, as next dispatcher and action:
/// close requests and escape presses exit; a resize updates the stored
/// configuration (and has it re-applied only when both dimensions are
/// positive); a redraw request drives a frame; anything else is ignored.
/// Once Exiting, every event is ignored.
pub open spec fn spec_step(d: Dispatcher, e: EventKind) -> (Dispatcher, Action) {
    if d.phase is Exiting {
        (d, Action::Idle)
    } else {
        match e {
            EventKind::CloseRequested => (
                Dispatcher { phase: Phase::Exiting, ..d },
                Action::Exit,
            ),
            EventKind::EscapePressed => (
                Dispatcher { phase: Phase::Exiting, ..d },
                Action::Exit,
            ),
            EventKind::Resized(w, h) => (
                Dispatcher { state: spec_resize(d.state, w, h), ..d },
                if w > 0 && h > 0 {
                    Action::Reconfigure
                } else {
                    Action::Idle
                },
            ),
            EventKind::RedrawRequested => (d, Action::RenderFrame),
            EventKind::Other => (d, Action::Idle),
        }
    }
}

/// The transition a frame's outcome causes: a lost or outdated surface
/// is reconfigured at the last known size and the loop keeps running;
/// running out of memory exits; a timeout (and a successful frame)
/// changes nothing. Once Exiting, every outcome is ignored.
pub open spec fn spec_outcome_step(d: Dispatcher, outcome: Result<(), SurfaceError>) -> (
    Dispatcher,
    Action,
) {
    if d.phase is Exiting {
        (d, Action::Idle)
    } else {
        match outcome {
            Ok(_) => (d, Action::Idle),
            Err(SurfaceError::Lost) | Err(SurfaceError::Outdated) => (
                Dispatcher { state: spec_resize(d.state, d.state.width, d.state.height), ..d },
                Action::Reconfigure,
            ),
            Err(SurfaceError::OutOfMemory) => (
                Dispatcher { phase: Phase::Exiting, ..d },
                Action::Exit,
            ),
            Err(SurfaceError::Timeout) => (d, Action::Idle),
        }
    }
}

impl Dispatcher {
    /// The dispatcher is well-formed when its state is.
    pub open spec fn wf(self) -> bool {
        self.state.wf()
    }

    /// Enters the event loop: dispatch starts in the Running phase, with
    /// the freshly built state.
    pub fn new(state: State) -> (d: Dispatcher)
        ensures
            d.state == state,
            d.phase is Running,
    {
        Dispatcher { state, phase: Phase::Running }
    }

    /// Dispatches one window event. The input hook sees the event first;
    /// since it consumes nothing, the transition table applies. Returns
    /// the action the embedder must perform.
    pub fn handle_event(&mut self, event: &EventKind) -> (a: Action)
        ensures
            *final(self) == spec_step(*old(self), *event).0,
            a == spec_step(*old(self), *event).1,
            old(self).wf() ==> final(self).wf(),
    {
        if self.state.input(event) {
            return Action::Idle;
        }
        match self.phase {
            Phase::Exiting => Action::Idle,
            Phase::Running => match *event {
                EventKind::CloseRequested => {
                    self.phase = Phase::Exiting;
                    Action::Exit
                },
                EventKind::EscapePressed => {
                    self.phase = Phase::Exiting;
                    Action::Exit
                },
                EventKind::Resized(w, h) => {
                    let applied = self.state.resize(w, h);
                    if applied {
                        Action::Reconfigure
                    } else {
                        Action::Idle
                    }
                },
                EventKind::RedrawRequested => Action::RenderFrame,
                EventKind::Other => Action::Idle,
            },
        }
    }

    /// Digests the outcome of one rendered frame, applying the recovery
    /// policy. Returns the action the embedder must perform.
    pub fn handle_render_outcome(&mut self, outcome: Result<(), SurfaceError>) -> (a: Action)
        ensures
            *final(self) == spec_outcome_step(*old(self), outcome).0,
            a == spec_outcome_step(*old(self), outcome).1,
            old(self).wf() ==> final(self).wf(),
    {
        match self.phase {
            Phase::Exiting => Action::Idle,
            Phase::Running => match outcome {
                Ok(()) => Action::Idle,
                Err(SurfaceError::Lost) | Err(SurfaceError::Outdated) => {
                    let w = self.state.width;
                    let h = self.state.height;
                    self.state.resize(w, h);
                    Action::Reconfigure
                },
                Err(SurfaceError::OutOfMemory) => {
                    self.phase = Phase::Exiting;
                    Action::Exit
                },
                Err(SurfaceError::Timeout) => Action::Idle,
            },
        }
    }
}

/// A lost or outdated surface is recovered from, never exited on: the
/// dispatcher issues a reconfiguration, the configuration keeps the last
/// known size unchanged, and the loop keeps running.
pub proof fn lemma_lost_outdated_recovers(d: Dispatcher, e: SurfaceError)
    requires
        d.wf(),
        d.phase is Running,
        e is Lost || e is Outdated,
    ensures
        spec_outcome_step(d, Err(e)).0 == d,
        spec_outcome_step(d, Err(e)).0.phase is Running,
        spec_outcome_step(d, Err(e)).1 is Reconfigure,
{
}

/// Running out of memory is fatal: the dispatcher exits, the state is
/// kept as it was, and no later event can make it render another frame.
pub proof fn lemma_out_of_memory_exits(d: Dispatcher)
    requires
        d.phase is Running,
    ensures
        spec_outcome_step(d, Err(SurfaceError::OutOfMemory)).0.phase is Exiting,
        spec_outcome_step(d, Err(SurfaceError::OutOfMemory)).0.state == d.state,
        spec_outcome_step(d, Err(SurfaceError::OutOfMemory)).1 is Exit,
        forall|e: EventKind|
            !(spec_step(spec_outcome_step(d, Err(SurfaceError::OutOfMemory)).0, e).1
                is RenderFrame),
{
}

/// A timeout changes nothing: the dispatcher and its state are exactly
/// as before, no action is taken, and the next redraw request still
/// renders a frame.
pub proof fn lemma_timeout_keeps_running(d: Dispatcher)
    requires
        d.phase is Running,
    ensures
        spec_outcome_step(d, Err(SurfaceError::Timeout)).0 == d,
        spec_outcome_step(d, Err(SurfaceError::Timeout)).1 is Idle,
        spec_step(d, EventKind::RedrawRequested).1 is RenderFrame,
{
}

/// An escape press and a close request cause the very same transition;
/// from a running dispatcher both exit, and afterwards no event can make
/// the dispatcher render another frame.
pub proof fn lemma_escape_close_identical(d: Dispatcher)
    ensures
        spec_step(d, EventKind::EscapePressed) == spec_step(d, EventKind::CloseRequested),
        d.phase is Running ==> {
            &&& spec_step(d, EventKind::EscapePressed).0.phase is Exiting
            &&& spec_step(d, EventKind::EscapePressed).0.state == d.state
            &&& spec_step(d, EventKind::EscapePressed).1 is Exit
            &&& forall|e: EventKind|
                !(spec_step(spec_step(d, EventKind::EscapePressed).0, e).1 is RenderFrame)
        },
{
}

/// The terminal phase is absorbing: an exited dispatcher ignores every
/// event and every frame outcome, unchanged.
pub proof fn lemma_exiting_is_terminal(d: Dispatcher, e: EventKind, outcome: Result<
    (),
    SurfaceError,
>)
    requires
        d.phase is Exiting,
    ensures
        spec_step(d, e) == (d, Action::Idle),
        spec_outcome_step(d, outcome) == (d, Action::Idle),
{
}

} // verus!
