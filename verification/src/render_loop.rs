//! Decisions of the render loop: which input events end it, and the
//! fixed per-frame delay that caps the frame rate near 60 Hz.

use vstd::prelude::*;

verus! {

/// The one key the loop distinguishes.
#[derive(Clone, Copy, PartialEq, Eq, Structural, Debug)]
pub enum Key {
    Escape,
    Other,
}

/// An input event as the loop sees it: a request to close the window,
/// a key press, or anything else (mouse motion, focus changes, ...).
#[derive(Clone, Copy, PartialEq, Eq, Structural, Debug)]
pub enum LoopEvent {
    Quit,
    KeyDown { keycode: Option<Key> },
    Other,
}

/// An event ends the loop exactly when it is a quit request or an
/// Escape key press.
pub open spec fn is_exit_event(e: LoopEvent) -> bool {
    match e {
        LoopEvent::Quit => true,
        LoopEvent::KeyDown { keycode } => keycode == Some(Key::Escape),
        LoopEvent::Other => false,
    }
}

/// The state of the render loop: whether it keeps running.
#[derive(Clone, Copy, PartialEq, Eq, Structural, Debug)]
pub struct RenderLoop {
    pub running: bool,
}

impl RenderLoop {
    /// A freshly started loop is running.
    pub fn new() -> (r: RenderLoop)
        ensures
            r.running,
    {
        RenderLoop { running: true }
    }

    /// A quit request or an Escape key press stops the loop; every other
    /// event leaves it as it was.
    pub fn handle_event(&mut self, e: &LoopEvent)
        ensures
            final(self).running == (old(self).running && !is_exit_event(*e)),
    {
        if should_exit(e) {
            self.running = false;
        }
    }

    /// Feed one poll's worth of events. The loop keeps running exactly
    /// when it was running and none of the events ends it.
    pub fn handle_events(&mut self, events: &Vec<LoopEvent>)
        ensures
            final(self).running == (old(self).running && (forall|i: int|
                0 <= i < events@.len() ==> !is_exit_event(events@[i]))),
    {
        let n = events.len();
        let mut k: usize = 0;
        while k < n
            invariant
                n == events@.len(),
                k <= n,
                self.running == (old(self).running && (forall|i: int|
                    0 <= i < k ==> !is_exit_event(events@[i]))),
            decreases n - k,
        {
            let e = events[k];
            self.handle_event(&e);
            k = k + 1;
        }
    }
}

/// Whether one event ends the loop: a quit request or an Escape key press.
pub fn should_exit(e: &LoopEvent) -> (r: bool)
    ensures
        r == is_exit_event(*e),
{
    match e {
        LoopEvent::Quit => true,
        LoopEvent::KeyDown { keycode: Some(Key::Escape) } => true,
        _ => false,
    }
}

/// The fixed per-frame sleep, in nanoseconds: one sixtieth of a second,
/// rounded down by integer division.
pub fn frame_delay_nanos() -> (r: u32)
    ensures
        r == 1_000_000_000u32 / 60,
        r == 16_666_666u32,
{
    1_000_000_000u32 / 60
}

} // verus!
