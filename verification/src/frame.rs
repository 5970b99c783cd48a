//! The per-frame state machine: acquire, record, submit, present, in
//! exactly that order.
//!
//! The machine owns no GPU resource. It is driven by the embedding
//! application: each step takes the event that just happened and
//! answers with the one action to perform next, so that CPU-side
//! submission order can never be violated and at most one frame target
//! is outstanding at a time.

use vstd::prelude::*;
use crate::error::SurfaceError;

verus! {

/// Where the current frame stands. `Submitted` and `Presented` are
/// entered when the corresponding action is handed out; `Terminal` is
/// absorbing and means the session must be torn down.
#[derive(Clone, Copy, Debug, PartialEq, Eq, Structural)]
pub enum FramePhase {
    /// No frame is in flight.
    Idle,
    /// A frame target has been requested from the surface.
    Acquiring,
    /// The render pass for the acquired target is being recorded.
    Recording,
    /// The recorded commands are being submitted to the queue.
    Submitted,
    /// The submitted frame is being presented.
    Presented,
    /// An unrecoverable error ended the session.
    Terminal,
}

/// What the embedding application reports back into the machine.
#[derive(Clone, Copy, Debug, PartialEq, Eq, Structural)]
pub enum FrameEvent {
    /// The window system asked for a redraw.
    RedrawRequested,
    /// The surface delivered the next frame target.
    TargetAcquired,
    /// The surface failed to deliver a frame target.
    AcquireFailed(SurfaceError),
    /// The single render pass has been recorded and the command
    /// encoder closed.
    PassRecorded,
    /// The recorded commands have been handed to the queue.
    CommandsSubmitted,
    /// The frame target has been presented.
    TargetPresented,
}

/// The one action the embedding application performs next.
#[derive(Clone, Copy, Debug, PartialEq, Eq, Structural)]
pub enum FrameAction {
    /// Request the next frame target from the surface.
    Acquire,
    /// Record the single render pass against the acquired target.
    Record,
    /// Submit the recorded commands to the queue.
    Submit,
    /// Present the acquired target.
    Present,
    /// The frame is complete; schedule the next redraw.
    FinishFrame,
    /// The surface was lost: configure it again with the current
    /// configuration, then retry on the next redraw.
    Recover,
    /// The frame is stale or timed out: drop it silently and wait for
    /// the next redraw.
    SkipFrame,
    /// Out of memory: tear the session down and exit.
    Terminate,
    /// The event does not apply in the current phase; do nothing.
    Ignore,
}

/// The phase the machine moves to on an event.
pub open spec fn next_phase(p: FramePhase, e: FrameEvent) -> FramePhase {
    match (p, e) {
        (FramePhase::Idle, FrameEvent::RedrawRequested) => FramePhase::Acquiring,
        (FramePhase::Acquiring, FrameEvent::TargetAcquired) => FramePhase::Recording,
        (FramePhase::Acquiring, FrameEvent::AcquireFailed(err)) => {
            if err == SurfaceError::OutOfMemory {
                FramePhase::Terminal
            } else {
                FramePhase::Idle
            }
        },
        (FramePhase::Recording, FrameEvent::PassRecorded) => FramePhase::Submitted,
        (FramePhase::Submitted, FrameEvent::CommandsSubmitted) => FramePhase::Presented,
        (FramePhase::Presented, FrameEvent::TargetPresented) => FramePhase::Idle,
        (_, _) => p,
    }
}

/// The action the machine hands out on an event.
pub open spec fn action_for(p: FramePhase, e: FrameEvent) -> FrameAction {
    match (p, e) {
        (FramePhase::Idle, FrameEvent::RedrawRequested) => FrameAction::Acquire,
        (FramePhase::Acquiring, FrameEvent::TargetAcquired) => FrameAction::Record,
        (FramePhase::Acquiring, FrameEvent::AcquireFailed(err)) => match err {
            SurfaceError::Lost => FrameAction::Recover,
            SurfaceError::Outdated => FrameAction::SkipFrame,
            SurfaceError::Timeout => FrameAction::SkipFrame,
            SurfaceError::OutOfMemory => FrameAction::Terminate,
        },
        (FramePhase::Recording, FrameEvent::PassRecorded) => FrameAction::Submit,
        (FramePhase::Submitted, FrameEvent::CommandsSubmitted) => FrameAction::Present,
        (FramePhase::Presented, FrameEvent::TargetPresented) => FrameAction::FinishFrame,
        (FramePhase::Terminal, _) => FrameAction::Terminate,
        (_, _) => FrameAction::Ignore,
    }
}

/// The frame sequencer. One machine drives all frames of a session;
/// it returns to `Idle` after every completed, skipped or recovered
/// frame and stays in `Terminal` after a fatal error.
#[derive(Clone, Copy, Debug, PartialEq, Eq, Structural)]
pub struct FrameMachine {
    pub phase: FramePhase,
}

impl FrameMachine {
    /// A fresh machine with no frame in flight.
    pub fn new() -> (r: FrameMachine)
        ensures
            r.phase == FramePhase::Idle,
    {
        FrameMachine { phase: FramePhase::Idle }
    }

    /// Feed one event in; the machine moves to its next phase and
    /// answers with the one action to perform.
    pub fn step(&mut self, event: FrameEvent) -> (r: FrameAction)
        ensures
            final(self).phase == next_phase(old(self).phase, event),
            r == action_for(old(self).phase, event),
    {
        let (phase, action) = match (self.phase, event) {
            (FramePhase::Idle, FrameEvent::RedrawRequested) => (
                FramePhase::Acquiring,
                FrameAction::Acquire,
            ),
            (FramePhase::Acquiring, FrameEvent::TargetAcquired) => (
                FramePhase::Recording,
                FrameAction::Record,
            ),
            (FramePhase::Acquiring, FrameEvent::AcquireFailed(err)) => match err {
                SurfaceError::Lost => (FramePhase::Idle, FrameAction::Recover),
                SurfaceError::Outdated => (FramePhase::Idle, FrameAction::SkipFrame),
                SurfaceError::Timeout => (FramePhase::Idle, FrameAction::SkipFrame),
                SurfaceError::OutOfMemory => (FramePhase::Terminal, FrameAction::Terminate),
            },
            (FramePhase::Recording, FrameEvent::PassRecorded) => (
                FramePhase::Submitted,
                FrameAction::Submit,
            ),
            (FramePhase::Submitted, FrameEvent::CommandsSubmitted) => (
                FramePhase::Presented,
                FrameAction::Present,
            ),
            (FramePhase::Presented, FrameEvent::TargetPresented) => (
                FramePhase::Idle,
                FrameAction::FinishFrame,
            ),
            (FramePhase::Terminal, _) => (FramePhase::Terminal, FrameAction::Terminate),
            (p, _) => (p, FrameAction::Ignore),
        };
        self.phase = phase;
        action
    }

    /// True while frames may still be attempted.
    pub fn is_live(&self) -> (r: bool)
        ensures
            r == (self.phase != FramePhase::Terminal),
    {
        match self.phase {
            FramePhase::Terminal => false,
            _ => true,
        }
    }
}

/// The events of one fully successful frame, in the order the
/// collaborator reports them.
pub open spec fn successful_frame_events() -> Seq<FrameEvent> {
    seq![
        FrameEvent::RedrawRequested,
        FrameEvent::TargetAcquired,
        FrameEvent::PassRecorded,
        FrameEvent::CommandsSubmitted,
        FrameEvent::TargetPresented,
    ]
}

/// The actions the machine hands out from a phase on a sequence of
/// events.
pub open spec fn actions_from(p: FramePhase, events: Seq<FrameEvent>) -> Seq<FrameAction>
    decreases events.len(),
{
    if events.len() == 0 {
        Seq::empty()
    } else {
        seq![action_for(p, events[0])].add(
            actions_from(next_phase(p, events[0]), events.skip(1)),
        )
    }
}

/// The phase the machine reaches from a phase after a sequence of
/// events.
pub open spec fn phase_after(p: FramePhase, events: Seq<FrameEvent>) -> FramePhase
    decreases events.len(),
{
    if events.len() == 0 {
        p
    } else {
        phase_after(next_phase(p, events[0]), events.skip(1))
    }
}

/// A successful frame performs acquire, record, submit and present,
/// in exactly that order and nothing else, and returns the machine to
/// idle.
pub proof fn lemma_successful_frame_order()
    ensures
        actions_from(FramePhase::Idle, successful_frame_events()) == seq![
            FrameAction::Acquire,
            FrameAction::Record,
            FrameAction::Submit,
            FrameAction::Present,
            FrameAction::FinishFrame,
        ],
        phase_after(FramePhase::Idle, successful_frame_events()) == FramePhase::Idle,
{
    reveal_with_fuel(actions_from, 6);
    reveal_with_fuel(phase_after, 6);
    assert(actions_from(FramePhase::Idle, successful_frame_events()) =~= seq![
        FrameAction::Acquire,
        FrameAction::Record,
        FrameAction::Submit,
        FrameAction::Present,
        FrameAction::FinishFrame,
    ]);
}

/// The submission order cannot be violated: a record is handed out
/// only while acquiring succeeded, a submit only after recording, a
/// present only after submission, and an acquire only from idle.
pub proof fn lemma_order_is_forced(p: FramePhase, e: FrameEvent)
    ensures
        action_for(p, e) == FrameAction::Acquire ==> p == FramePhase::Idle && next_phase(p, e)
            == FramePhase::Acquiring,
        action_for(p, e) == FrameAction::Record ==> p == FramePhase::Acquiring && e
            == FrameEvent::TargetAcquired,
        action_for(p, e) == FrameAction::Submit ==> p == FramePhase::Recording,
        action_for(p, e) == FrameAction::Present ==> p == FramePhase::Submitted,
{
}

/// A lost surface is recoverable: the machine returns to idle and
/// asks for a reconfigure-and-retry, never for teardown. It touches
/// no session state, so the surface configuration is exactly what it
/// was before the failed acquisition.
pub proof fn lemma_lost_surface_recoverable()
    ensures
        next_phase(FramePhase::Acquiring, FrameEvent::AcquireFailed(SurfaceError::Lost))
            == FramePhase::Idle,
        action_for(FramePhase::Acquiring, FrameEvent::AcquireFailed(SurfaceError::Lost))
            == FrameAction::Recover,
{
}

/// Out of memory is fatal: the machine enters its terminal phase and
/// every further event keeps it there, demanding teardown.
pub proof fn lemma_out_of_memory_terminal(e: FrameEvent)
    ensures
        next_phase(FramePhase::Acquiring, FrameEvent::AcquireFailed(SurfaceError::OutOfMemory))
            == FramePhase::Terminal,
        next_phase(FramePhase::Terminal, e) == FramePhase::Terminal,
        action_for(FramePhase::Terminal, e) == FrameAction::Terminate,
{
}

} // verus!
