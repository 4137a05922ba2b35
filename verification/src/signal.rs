//! The shared renderer signal: the two independent boolean flags through
//! which the event-dispatch side and the render loop communicate, and the
//! classification of window lifecycle events into flag updates.
//!
//! The host side holds the flags in two atomic cells; this module fixes
//! which event writes which flag and proves the one-shot invariant: once
//! `running` is false it never becomes true again.

use vstd::prelude::*;

verus! {

/// A window lifecycle notification, as the event-dispatch side delivers
/// it; no payload beyond the kind is needed.
#[derive(Clone, Copy, PartialEq, Eq, Structural, Debug)]
pub enum WindowEvent {
    Destroyed,
    CloseRequested,
    Resized,
    ScaleFactorChanged,
    Other,
}

/// What one event does to the shared flags.
#[derive(Clone, Copy, PartialEq, Eq, Structural, Debug)]
pub enum SignalUpdate {
    Stop,
    MarkResized,
    Ignore,
}

/// The update an event maps to: destruction and close requests stop the
/// loop, resizes and scale changes mark a pending resize, everything else
/// is ignored.
pub open spec fn classify_spec(event: WindowEvent) -> SignalUpdate {
    match event {
        WindowEvent::Destroyed => SignalUpdate::Stop,
        WindowEvent::CloseRequested => SignalUpdate::Stop,
        WindowEvent::Resized => SignalUpdate::MarkResized,
        WindowEvent::ScaleFactorChanged => SignalUpdate::MarkResized,
        WindowEvent::Other => SignalUpdate::Ignore,
    }
}

/// Maps a window lifecycle event to the flag update the listener must
/// perform.
pub fn classify_window_event(event: WindowEvent) -> (u: SignalUpdate)
    ensures
        u == classify_spec(event),
{
    match event {
        WindowEvent::Destroyed => SignalUpdate::Stop,
        WindowEvent::CloseRequested => SignalUpdate::Stop,
        WindowEvent::Resized => SignalUpdate::MarkResized,
        WindowEvent::ScaleFactorChanged => SignalUpdate::MarkResized,
        WindowEvent::Other => SignalUpdate::Ignore,
    }
}

/// The shared renderer signal: `running` is true while the loop should
/// continue, `resize_pending` is true while a resize event awaits the
/// loop. No other mutable state is shared between the two sides.
#[derive(Clone, Copy, PartialEq, Eq, Structural, Debug)]
pub struct RendererSignal {
    pub running: bool,
    pub resize_pending: bool,
}

impl RendererSignal {
    /// The state one update leaves the flags in.
    pub open spec fn apply_spec(self, update: SignalUpdate) -> RendererSignal {
        match update {
            SignalUpdate::Stop => RendererSignal { running: false, ..self },
            SignalUpdate::MarkResized => RendererSignal { resize_pending: true, ..self },
            SignalUpdate::Ignore => self,
        }
    }

    /// A fresh signal: the loop runs, and the first tick treats the size
    /// as pending so that it configures the surface at once.
    pub fn new() -> (s: RendererSignal)
        ensures
            s.running,
            s.resize_pending,
    {
        RendererSignal { running: true, resize_pending: true }
    }

    /// Applies one event-side update. One-shot: no update ever turns
    /// `running` back on.
    pub fn apply(&mut self, update: SignalUpdate)
        ensures
            *final(self) == old(self).apply_spec(update),
            final(self).running ==> old(self).running,
    {
        match update {
            SignalUpdate::Stop => {
                self.running = false;
            }
            SignalUpdate::MarkResized => {
                self.resize_pending = true;
            }
            SignalUpdate::Ignore => {}
        }
    }

    /// The loop-side read-and-clear of the resize flag.
    pub fn take_resize(&mut self) -> (was: bool)
        ensures
            was == old(self).resize_pending,
            !final(self).resize_pending,
            final(self).running == old(self).running,
    {
        let was = self.resize_pending;
        self.resize_pending = false;
        was
    }

    /// The loop-side stop, on a fatal condition. One-shot as well.
    pub fn stop(&mut self)
        ensures
            !final(self).running,
            final(self).resize_pending == old(self).resize_pending,
    {
        self.running = false;
    }
}

/// Folds a whole sequence of updates over the flags.
pub open spec fn apply_all(s: RendererSignal, updates: Seq<SignalUpdate>) -> RendererSignal
    decreases updates.len(),
{
    if updates.len() == 0 {
        s
    } else {
        apply_all(s.apply_spec(updates[0]), updates.drop_first())
    }
}

/// One-shot invariant: once `running` is false, no sequence of further
/// event-side updates ever turns it true again.
pub proof fn lemma_running_one_shot(s: RendererSignal, updates: Seq<SignalUpdate>)
    requires
        !s.running,
    ensures
        !apply_all(s, updates).running,
    decreases updates.len(),
{
    if updates.len() > 0 {
        lemma_running_one_shot(s.apply_spec(updates[0]), updates.drop_first());
    }
}

} // verus!
