//! The frame loop's per-tick state machine.
//!
//! Each tick splits into two decisions. `poll` observes the stop flag and
//! the window size, routes both the event-driven and the safety-net path
//! through the idempotent reconfigure, and decides whether the tick stops,
//! waits out a degenerate size, or goes on to acquire a frame. `frame`
//! classifies the acquisition outcome: success renders one clear pass,
//! a timeout is skipped silently, a lost or outdated surface forces a
//! reconfiguration, and an out-of-memory outcome halts the loop for good.

use vstd::prelude::*;

use crate::caps::SurfaceCaps;
use crate::color::ClearColor;
use crate::color::clear_color;
use crate::color::clear_color_spec;
use crate::config::SurfaceConfig;

verus! {

/// The loop's named states. `Stopped` is terminal and absorbing.
#[derive(Clone, Copy, PartialEq, Eq, Structural, Debug)]
pub enum Phase {
    Running,
    Paused,
    Stopped,
}

/// What a tick does after polling: exit the loop, wait and re-poll
/// without touching the surface, or go on to acquire a frame.
#[derive(Clone, Copy, PartialEq, Eq, Structural, Debug)]
pub enum TickStep {
    Stop,
    Wait,
    Acquire,
}

/// The outcome of one frame-acquisition attempt, as the surface reports
/// it.
#[derive(Clone, Copy, PartialEq, Eq, Structural, Debug)]
pub enum AcquireOutcome {
    Success,
    Timeout,
    Lost,
    Outdated,
    OutOfMemory,
}

/// What the host side must do with an acquired tick: render and present
/// one pass cleared to the given color, skip the tick, reconfigure the
/// surface against the device, or stop for good and report once.
#[derive(Clone, Copy, PartialEq, Eq, Structural, Debug)]
pub enum FrameAction {
    Present(ClearColor),
    Skip,
    Reconfigure,
    Halt,
}

/// True when the window reports a size whose pre-clamp dimensions make
/// the drawable area degenerate.
pub open spec fn degenerate(observed: Option<(u32, u32)>) -> bool {
    match observed {
        Some(s) => s.0 == 0 || s.1 == 0,
        None => false,
    }
}

/// The renderer state owned by the loop's execution context: the applied
/// surface configuration, the pacing counter, and the loop phase.
#[derive(Clone, Copy, PartialEq, Eq, Structural, Debug)]
pub struct FrameLoop {
    pub config: SurfaceConfig,
    pub frame_index: u64,
    pub phase: Phase,
}

impl FrameLoop {
    pub open spec fn wf(self) -> bool {
        self.config.wf()
    }

    /// The state and decisions of one poll step.
    pub open spec fn poll_spec(self, running: bool, observed: Option<(u32, u32)>) -> (
        FrameLoop,
        TickStep,
        bool,
    ) {
        if !running || self.phase is Stopped {
            (FrameLoop { phase: Phase::Stopped, ..self }, TickStep::Stop, false)
        } else {
            let (c, applied) = self.config.reconfigure_spec(observed, false);
            if degenerate(observed) {
                (FrameLoop { config: c, phase: Phase::Paused, ..self }, TickStep::Wait, applied)
            } else {
                (FrameLoop { config: c, phase: Phase::Running, ..self }, TickStep::Acquire, applied)
            }
        }
    }

    /// The state and action after one acquisition outcome. The frame
    /// counter advances (wrapping on overflow) only when a frame is
    /// actually presented: a timeout changes no state at all, and a lost
    /// or outdated surface changes only the configuration.
    pub open spec fn frame_spec(
        self,
        outcome: AcquireOutcome,
        observed: Option<(u32, u32)>,
        elapsed_millis: u64,
    ) -> (FrameLoop, FrameAction) {
        match outcome {
            AcquireOutcome::Success => {
                let advanced = if self.frame_index == u64::MAX {
                    0u64
                } else {
                    (self.frame_index + 1) as u64
                };
                (
                    FrameLoop { frame_index: advanced, ..self },
                    FrameAction::Present(clear_color_spec(self.frame_index, elapsed_millis)),
                )
            }
            AcquireOutcome::Timeout => (self, FrameAction::Skip),
            AcquireOutcome::Lost => (
                FrameLoop { config: self.config.reconfigure_spec(observed, true).0, ..self },
                FrameAction::Reconfigure,
            ),
            AcquireOutcome::Outdated => (
                FrameLoop { config: self.config.reconfigure_spec(observed, true).0, ..self },
                FrameAction::Reconfigure,
            ),
            AcquireOutcome::OutOfMemory => (
                FrameLoop { phase: Phase::Stopped, ..self },
                FrameAction::Halt,
            ),
        }
    }

    /// Enters the loop: negotiates the configuration from the advertised
    /// capabilities and applies the initial forced reconfigure for the
    /// observed window size. The host side must configure the surface
    /// against the device exactly once before the first tick.
    pub fn start(caps: &SurfaceCaps, observed: Option<(u32, u32)>) -> (s: FrameLoop)
        ensures
            s.config == SurfaceConfig::negotiate_spec(caps).reconfigure_spec(observed, true).0,
            s.frame_index == 0,
            s.phase is Running,
            s.wf(),
    {
        let mut config = SurfaceConfig::negotiate(caps);
        config.reconfigure(observed, true);
        FrameLoop { config, frame_index: 0, phase: Phase::Running }
    }

    /// The top of one tick. Returns the step to take and whether the host
    /// side must reconfigure the surface against the device before going
    /// on. While the pre-clamp size is degenerate the step is never
    /// `Acquire`; once `running` reads false the step is `Stop` within
    /// this very tick.
    pub fn poll(&mut self, running: bool, observed: Option<(u32, u32)>) -> (r: (TickStep, bool))
        ensures
            (*final(self), r.0, r.1) == old(self).poll_spec(running, observed),
            old(self).wf() ==> final(self).wf(),
            !running ==> r.0 is Stop && final(self).phase is Stopped,
            old(self).phase is Stopped ==> r.0 is Stop && final(self).phase is Stopped,
            r.0 is Acquire ==> !degenerate(observed) && final(self).phase is Running,
            degenerate(observed) && running && !(old(self).phase is Stopped) ==> r.0 is Wait
                && final(self).phase is Paused,
            !(r.0 is Stop) ==> final(self).config.width == crate::config::clamp_dim(
                old(self).config.effective_size(observed).0,
            ) && final(self).config.height == crate::config::clamp_dim(
                old(self).config.effective_size(observed).1,
            ),
            final(self).frame_index == old(self).frame_index,
    {
        if !running {
            self.phase = Phase::Stopped;
            return (TickStep::Stop, false);
        }
        if matches!(self.phase, Phase::Stopped) {
            self.phase = Phase::Stopped;
            return (TickStep::Stop, false);
        }
        let applied = self.config.reconfigure(observed, false);
        let degenerate_size = match observed {
            Some(s) => s.0 == 0 || s.1 == 0,
            None => false,
        };
        if degenerate_size {
            self.phase = Phase::Paused;
            (TickStep::Wait, applied)
        } else {
            self.phase = Phase::Running;
            (TickStep::Acquire, applied)
        }
    }

    /// The bottom of one tick, after an acquisition attempt. Success
    /// yields the one render pass to present, cleared to the
    /// deterministic color of this frame, and is the only outcome that
    /// advances the frame counter; a timeout is skipped with no state
    /// change at all; a lost or outdated surface changes only the
    /// configuration; out of memory halts the loop permanently and is
    /// the only outcome that does.
    pub fn frame(
        &mut self,
        outcome: AcquireOutcome,
        observed: Option<(u32, u32)>,
        elapsed_millis: u64,
    ) -> (a: FrameAction)
        requires
            old(self).phase is Running,
        ensures
            (*final(self), a) == old(self).frame_spec(outcome, observed, elapsed_millis),
            old(self).wf() ==> final(self).wf(),
            a is Halt <==> outcome is OutOfMemory,
            a is Halt ==> final(self).phase is Stopped,
            a matches FrameAction::Present(color) ==> outcome is Success && color
                == clear_color_spec(old(self).frame_index, elapsed_millis),
            a is Skip <==> outcome is Timeout,
            outcome is Timeout ==> *final(self) == *old(self),
            outcome is Lost || outcome is Outdated ==> a is Reconfigure && final(self).frame_index
                == old(self).frame_index && final(self).phase is Running,
            outcome is OutOfMemory ==> final(self).config == old(self).config,
            !(outcome is Success) ==> final(self).frame_index == old(self).frame_index,
    {
        match outcome {
            AcquireOutcome::Success => {
                let color = clear_color(self.frame_index, elapsed_millis);
                self.frame_index = self.frame_index.wrapping_add(1);
                FrameAction::Present(color)
            }
            AcquireOutcome::Timeout => FrameAction::Skip,
            AcquireOutcome::Lost => {
                self.config.reconfigure(observed, true);
                FrameAction::Reconfigure
            }
            AcquireOutcome::Outdated => {
                self.config.reconfigure(observed, true);
                FrameAction::Reconfigure
            }
            AcquireOutcome::OutOfMemory => {
                self.phase = Phase::Stopped;
                FrameAction::Halt
            }
        }
    }
}

/// The steps a run of poll ticks takes from a starting state, one per
/// (stop-flag, observed-size) input.
pub open spec fn poll_trace(s: FrameLoop, inputs: Seq<(bool, Option<(u32, u32)>)>) -> Seq<TickStep>
    decreases inputs.len(),
{
    if inputs.len() == 0 {
        Seq::empty()
    } else {
        let (s1, step, applied) = s.poll_spec(inputs[0].0, inputs[0].1);
        seq![step] + poll_trace(s1, inputs.drop_first())
    }
}

/// A trace holds one step per input.
pub proof fn lemma_poll_trace_len(s: FrameLoop, inputs: Seq<(bool, Option<(u32, u32)>)>)
    ensures
        poll_trace(s, inputs).len() == inputs.len(),
    decreases inputs.len(),
{
    if inputs.len() > 0 {
        let (s1, step, applied) = s.poll_spec(inputs[0].0, inputs[0].1);
        lemma_poll_trace_len(s1, inputs.drop_first());
    }
}

/// A stopped loop is stopped for good: every further tick, whatever it
/// observes, decides `Stop`, so no frame is ever acquired, submitted or
/// presented again.
pub proof fn lemma_stopped_forever(s: FrameLoop, inputs: Seq<(bool, Option<(u32, u32)>)>)
    requires
        s.phase is Stopped,
    ensures
        forall|k: int| 0 <= k < inputs.len() ==> poll_trace(s, inputs)[k] is Stop,
    decreases inputs.len(),
{
    if inputs.len() > 0 {
        let (s1, step, applied) = s.poll_spec(inputs[0].0, inputs[0].1);
        let rest = poll_trace(s1, inputs.drop_first());
        lemma_poll_trace_len(s1, inputs.drop_first());
        lemma_stopped_forever(s1, inputs.drop_first());
        assert(poll_trace(s, inputs) == seq![step] + rest);
        assert forall|k: int| 0 <= k < inputs.len() implies poll_trace(s, inputs)[k] is Stop by {
            if k > 0 {
                assert(poll_trace(s, inputs)[k] == rest[k - 1]);
            }
        }
    }
}

/// Fatal halt: once an out-of-memory outcome occurs, the loop is stopped
/// and every further tick decides `Stop` — no later frame is submitted or
/// presented.
pub proof fn lemma_fatal_halt(
    s: FrameLoop,
    observed: Option<(u32, u32)>,
    elapsed_millis: u64,
    inputs: Seq<(bool, Option<(u32, u32)>)>,
)
    ensures
        ({
            let (s1, a) = s.frame_spec(AcquireOutcome::OutOfMemory, observed, elapsed_millis);
            a is Halt && s1.phase is Stopped && forall|k: int|
                0 <= k < inputs.len() ==> poll_trace(s1, inputs)[k] is Stop
        }),
{
    let (s1, a) = s.frame_spec(AcquireOutcome::OutOfMemory, observed, elapsed_millis);
    lemma_stopped_forever(s1, inputs);
}

} // verus!
