//! The placement orchestrator's decision core: the engine lifecycle state
//! machine, and the per-tick decision from a held-key snapshot plus display
//! bounds to an optional target rectangle.
//!
//! The unverified shell runs the actual loop: it installs the observation
//! mechanism, queries the frontmost application and the display, performs the
//! placement call, and feeds the results back in as plain values. Placement
//! failures are reported and the loop simply re-evaluates on the next tick.

use vstd::prelude::*;

verus! {

use crate::chord;
use crate::screens::Rect;
use crate::screens::get_window_rect;
use crate::screens::spec_window_rect;

/// The orchestrator's lifecycle: started once, stopped once, with a joining
/// phase between the stop request and the stopped report.
#[derive(Debug, Clone, Copy, PartialEq, Eq, Structural)]
pub enum EngineState {
    Idle,
    Running,
    Stopping,
    Stopped,
}

/// The cooperative-cancellation state machine shared, under the shell's
/// exclusion gate, between the polling loop and the observation thread. The
/// observation loop polls `is_running` on every observed event and stops
/// itself once a stop was requested.
pub struct EngineLifecycle {
    state: EngineState,
}

impl View for EngineLifecycle {
    type V = EngineState;

    closed spec fn view(&self) -> EngineState {
        self.state
    }
}

impl EngineLifecycle {
    pub open spec fn spec_is_running(&self) -> bool {
        self@ == EngineState::Running
    }

    pub fn new() -> (e: Self)
        ensures
            e@ == EngineState::Idle,
            !e.spec_is_running(),
    {
        EngineLifecycle { state: EngineState::Idle }
    }

    /// Engine start. The shell installs the observation mechanism before the
    /// polling loop begins consuming snapshots, so the loop never races an
    /// uninitialized store.
    pub fn start(&mut self)
        requires
            old(self)@ == EngineState::Idle,
        ensures
            final(self)@ == EngineState::Running,
            final(self).spec_is_running(),
    {
        self.state = EngineState::Running;
    }

    /// Request a stop, externally (shutdown) or internally (observation
    /// mechanism failure). From this point the engine no longer reports
    /// itself running; the shell then joins the observation thread and
    /// confirms.
    pub fn request_stop(&mut self)
        requires
            old(self)@ == EngineState::Running,
        ensures
            final(self)@ == EngineState::Stopping,
            !final(self).spec_is_running(),
    {
        self.state = EngineState::Stopping;
    }

    /// The observation thread has been joined; only now does the engine
    /// report itself stopped.
    pub fn confirm_stopped(&mut self)
        requires
            old(self)@ == EngineState::Stopping,
        ensures
            final(self)@ == EngineState::Stopped,
            !final(self).spec_is_running(),
    {
        self.state = EngineState::Stopped;
    }

    pub fn is_running(&self) -> (r: bool)
        ensures
            r == self.spec_is_running(),
    {
        self.state == EngineState::Running
    }

    pub fn state(&self) -> (r: EngineState)
        ensures
            r == self@,
    {
        self.state
    }
}

/// One polling tick's decision: resolve the snapshot against the chord table
/// and, exactly when a row matched, plan the intent's rectangle on the given
/// display bounds. No placement is requested on an unmatched snapshot.
pub fn plan_tick(pressed_keys: &Vec<i64>, display: Rect) -> (r: Option<Rect>)
    requires
        display.width >= 0,
        display.height >= 0,
    ensures
        r is None <==> chord::spec_resolve_keys(pressed_keys@) is None,
        chord::spec_resolve_keys(pressed_keys@) matches Some(p) ==> (r matches Some(rect) && (
        rect.x as int,
        rect.y as int,
        rect.width as int,
        rect.height as int,
        ) == spec_window_rect(p, display.width as int, display.height as int)),
{
    match chord::get_position_from_keys(pressed_keys) {
        Some(pos) => Some(get_window_rect(pos, display)),
        None => None,
    }
}

} // verus!
