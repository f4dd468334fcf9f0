//! The event-loop shell: the state machine that turns platform events into
//! state changes and actions. The front end owns the real window and GPU
//! surface, feeds every event through `step`, and executes the action it
//! returns; rendering happens only when the shell answers a redraw request.

use vstd::prelude::*;
use crate::drawable::Drawable;
use crate::frame::FrameStep;
use crate::frame::spec_frame_steps;
use crate::frame::frame_steps;

verus! {

/// How long the front end sleeps per loop iteration, in microseconds: a
/// cooperative yield that bounds CPU usage under continuous polling.
pub const POLL_SLEEP_MICROS: u64 = 80;

/// The platform events the shell decides on. Anything else is `Other` and is
/// ignored by the core (the front end may still forward it to the overlay).
#[derive(Copy, Clone, PartialEq, Eq, Structural, Debug)]
pub enum ShellEvent {
    CloseRequested,
    Destroyed,
    Resized { width: u32, height: u32 },
    RedrawRequested,
    TimerElapsed,
    Other,
}

/// What the front end must do after one event: leave the loop, resize the
/// surface, compose and execute one frame, ask the platform for a redraw, or
/// nothing.
#[derive(Copy, Clone, PartialEq, Eq, Structural, Debug)]
pub enum ShellAction {
    Exit,
    ResizeSurface { width: u32, height: u32 },
    Render,
    RequestRedraw,
    Ignore,
}

/// The application state the loop owns: whether the loop is still running,
/// the surface dimensions, the drawable collection (draw order is sequence
/// order) and whether a UI overlay is configured.
pub struct Shell {
    pub running: bool,
    pub surface_width: u32,
    pub surface_height: u32,
    pub drawables: Vec<Drawable>,
    pub overlay: bool,
}

/// The state after one event: a close request or destruction stops the loop,
/// a resize updates the surface dimensions, every other event leaves the
/// state unchanged.
pub open spec fn spec_step_state(s: Shell, e: ShellEvent) -> Shell {
    match e {
        ShellEvent::CloseRequested => Shell { running: false, ..s },
        ShellEvent::Destroyed => Shell { running: false, ..s },
        ShellEvent::Resized { width, height } => Shell {
            surface_width: width,
            surface_height: height,
            ..s
        },
        _ => s,
    }
}

/// The action one event demands: only a redraw request renders, a resize only
/// resizes, the timer only asks for a redraw, close and destruction exit.
pub open spec fn spec_step_action(s: Shell, e: ShellEvent) -> ShellAction {
    match e {
        ShellEvent::CloseRequested => ShellAction::Exit,
        ShellEvent::Destroyed => ShellAction::Exit,
        ShellEvent::Resized { width, height } => ShellAction::ResizeSurface { width, height },
        ShellEvent::RedrawRequested => ShellAction::Render,
        ShellEvent::TimerElapsed => ShellAction::RequestRedraw,
        ShellEvent::Other => ShellAction::Ignore,
    }
}

impl Shell {
    pub fn new(surface_width: u32, surface_height: u32, drawables: Vec<Drawable>, overlay: bool)
        -> (s: Shell)
        ensures
            s.running,
            s.surface_width == surface_width,
            s.surface_height == surface_height,
            s.drawables == drawables,
            s.overlay == overlay,
    {
        Shell { running: true, surface_width, surface_height, drawables, overlay }
    }

    /// Decide on one platform event: mutate the state as `spec_step_state`
    /// says and return the action `spec_step_action` says.
    pub fn step(&mut self, event: ShellEvent) -> (a: ShellAction)
        ensures
            *final(self) == spec_step_state(*old(self), event),
            a == spec_step_action(*old(self), event),
    {
        match event {
            ShellEvent::CloseRequested | ShellEvent::Destroyed => {
                self.running = false;
                ShellAction::Exit
            },
            ShellEvent::Resized { width, height } => {
                self.surface_width = width;
                self.surface_height = height;
                ShellAction::ResizeSurface { width, height }
            },
            ShellEvent::RedrawRequested => ShellAction::Render,
            ShellEvent::TimerElapsed => ShellAction::RequestRedraw,
            ShellEvent::Other => ShellAction::Ignore,
        }
    }

    /// Compose one frame from the current state: the step sequence the front
    /// end executes on a `Render` action. This is the only rendering call
    /// site the shell ever demands.
    pub fn render(&self) -> (steps: Vec<FrameStep>)
        ensures
            steps@ == spec_frame_steps(self.drawables@, self.overlay),
    {
        frame_steps(&self.drawables, self.overlay)
    }
}

/// The state after running the loop over a whole event sequence: events are
/// stepped through in order for as long as the loop is running; the first
/// event that stops the loop is the last one acted on.
pub open spec fn spec_run_state(s: Shell, events: Seq<ShellEvent>) -> Shell
    decreases events.len(),
{
    if events.len() == 0 || !s.running {
        s
    } else {
        spec_run_state(spec_step_state(s, events[0]), events.drop_first())
    }
}

/// The actions the loop performs over a whole event sequence, in order: one
/// per event stepped through while the loop is running, none afterwards.
pub open spec fn spec_run_actions(s: Shell, events: Seq<ShellEvent>) -> Seq<ShellAction>
    decreases events.len(),
{
    if events.len() == 0 || !s.running {
        Seq::empty()
    } else {
        seq![spec_step_action(s, events[0])] + spec_run_actions(
            spec_step_state(s, events[0]),
            events.drop_first(),
        )
    }
}

/// Run the loop over a sequence of events: step through them in order while
/// the shell is running, and return the final state with the actions
/// performed. This is the explicit scheduler loop the front end drives with
/// real platform events.
pub fn process_events(state: Shell, events: &Vec<ShellEvent>) -> (r: (Shell, Vec<ShellAction>))
    ensures
        r.0 == spec_run_state(state, events@),
        r.1@ == spec_run_actions(state, events@),
{
    let ghost s0 = state;
    let mut cur = state;
    let mut acts: Vec<ShellAction> = Vec::new();
    let n: usize = events.len();
    let mut i: usize = 0;
    proof {
        assert(events@.skip(0) =~= events@);
        assert(acts@ + spec_run_actions(cur, events@) =~= spec_run_actions(s0, events@));
    }
    while i < n
        invariant
            n == events@.len(),
            i <= n,
            spec_run_state(s0, events@) == spec_run_state(cur, events@.skip(i as int)),
            spec_run_actions(s0, events@) == acts@ + spec_run_actions(cur, events@.skip(i as int)),
        decreases n - i,
    {
        proof {
            assert(events@.skip(i as int)[0] == events@[i as int]);
            assert(events@.skip(i as int).drop_first() =~= events@.skip(i as int + 1));
        }
        if cur.running {
            let ghost prev = cur;
            let a = cur.step(events[i]);
            proof {
                assert(spec_run_actions(prev, events@.skip(i as int)) == seq![a]
                    + spec_run_actions(cur, events@.skip(i as int + 1)));
                assert(spec_run_state(prev, events@.skip(i as int)) == spec_run_state(
                    cur,
                    events@.skip(i as int + 1),
                ));
            }
            acts.push(a);
            proof {
                assert(spec_run_actions(s0, events@) =~= acts@ + spec_run_actions(
                    cur,
                    events@.skip(i as int + 1),
                ));
            }
        } else {
            proof {
                assert(spec_run_actions(cur, events@.skip(i as int)) == Seq::<
                    ShellAction,
                >::empty());
                assert(spec_run_state(cur, events@.skip(i as int)) == cur);
                assert(spec_run_actions(cur, events@.skip(i as int + 1)) == Seq::<
                    ShellAction,
                >::empty());
                assert(spec_run_state(cur, events@.skip(i as int + 1)) == cur);
            }
        }
        i = i + 1;
    }
    proof {
        assert(events@.skip(n as int) =~= Seq::<ShellEvent>::empty());
        assert(acts@ =~= acts@ + spec_run_actions(cur, Seq::<ShellEvent>::empty()));
    }
    (cur, acts)
}

/// Law: after a resize event the surface's dimensions equal the new size, the
/// rest of the state is untouched, and no draw call occurs as a direct result
/// of the resize alone — the action is exactly a surface resize, never a
/// render.
pub proof fn lemma_resize(s: Shell, width: u32, height: u32)
    ensures
        spec_step_state(s, ShellEvent::Resized { width, height }).surface_width == width,
        spec_step_state(s, ShellEvent::Resized { width, height }).surface_height == height,
        spec_step_state(s, ShellEvent::Resized { width, height }).running == s.running,
        spec_step_state(s, ShellEvent::Resized { width, height }).drawables == s.drawables,
        spec_step_state(s, ShellEvent::Resized { width, height }).overlay == s.overlay,
        spec_step_action(s, ShellEvent::Resized { width, height }) == (ShellAction::ResizeSurface {
            width,
            height,
        }),
        spec_step_action(s, ShellEvent::Resized { width, height }) !is Render,
{
}

/// Law: rendering happens only on a redraw request. The shell demands a
/// render exactly for `RedrawRequested`, and that event changes no state.
pub proof fn lemma_render_only_on_redraw(s: Shell, e: ShellEvent)
    ensures
        spec_step_action(s, e) is Render <==> e is RedrawRequested,
        spec_step_state(s, ShellEvent::RedrawRequested) == s,
{
}

/// Law: a close request (or destruction) terminates the loop: the shell
/// reaches its terminal state, the action is exactly `Exit`, and however many
/// events follow, no further action — in particular no further render — is
/// performed. Releasing the window and surface is then the front end's drop
/// of the state it owns.
pub proof fn lemma_close_terminates(s: Shell, e: ShellEvent, rest: Seq<ShellEvent>)
    requires
        s.running,
        e is CloseRequested || e is Destroyed,
    ensures
        !spec_step_state(s, e).running,
        spec_step_action(s, e) == ShellAction::Exit,
        spec_run_actions(s, seq![e] + rest) == seq![ShellAction::Exit],
        spec_run_state(s, seq![e] + rest) == spec_step_state(s, e),
{
    let evs = seq![e] + rest;
    assert(evs.len() == 1 + rest.len());
    assert(evs[0] == e);
    let s1 = spec_step_state(s, e);
    assert(!s1.running);
    assert(evs.drop_first() =~= rest);
    assert(spec_run_actions(s1, rest) == Seq::<ShellAction>::empty());
    assert(spec_run_state(s1, rest) == s1);
    assert(spec_run_actions(s, evs) == seq![spec_step_action(s, e)] + spec_run_actions(s1, rest));
    assert(spec_run_actions(s, evs) =~= seq![ShellAction::Exit]);
}

/// Decision after the overlay has seen a window event: when the overlay
/// reports that its state changed in a way that needs repainting, the shell
/// must explicitly ask the platform for a redraw; otherwise nothing happens.
pub fn overlay_reaction(repaint: bool) -> (a: ShellAction)
    ensures
        a == if repaint {
            ShellAction::RequestRedraw
        } else {
            ShellAction::Ignore
        },
{
    if repaint {
        ShellAction::RequestRedraw
    } else {
        ShellAction::Ignore
    }
}

/// Decision on a surface failure (frame acquisition or present): the front
/// end logs it and the loop goes on to the next event, unless the underlying
/// platform surface is unrecoverable, in which case the loop terminates.
pub fn surface_error_reaction(unrecoverable: bool) -> (a: ShellAction)
    ensures
        a == if unrecoverable {
            ShellAction::Exit
        } else {
            ShellAction::Ignore
        },
{
    if unrecoverable {
        ShellAction::Exit
    } else {
        ShellAction::Ignore
    }
}

} // verus!
