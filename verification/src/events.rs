//! The collaborator-facing event policy.
//!
//! The embedding application owns the actual dispatch loop; it feeds
//! every window notification through [`dispatch_event`] and every
//! settled frame action through [`after_frame_action`], and performs
//! exactly what comes back. No decision lives in the loop itself.

use vstd::prelude::*;
use crate::frame::FrameAction;
use crate::pixels::LogicalSize;

verus! {

/// A notification from the window system, reduced to what the core
/// reacts to.
#[derive(Clone, Copy, Debug, PartialEq, Eq, Structural)]
pub enum WindowEvent {
    /// The user asked to close the window.
    CloseRequested,
    /// The window was resized; carries the reported logical size.
    Resized(LogicalSize),
    /// The window system asked for a redraw.
    RedrawRequested,
}

/// What the dispatch loop does with one window notification.
#[derive(Clone, Copy, Debug, PartialEq, Eq, Structural)]
pub enum EventDirective {
    /// Leave the event loop and end the process.
    Exit,
    /// Hand the reported size to the session's resize handling, then
    /// schedule a redraw.
    Reconfigure(LogicalSize),
    /// Drive one frame through the frame machine.
    BeginFrame,
}

/// The reaction each window notification demands.
pub open spec fn directive_for_event(e: WindowEvent) -> EventDirective {
    match e {
        WindowEvent::CloseRequested => EventDirective::Exit,
        WindowEvent::Resized(size) => EventDirective::Reconfigure(size),
        WindowEvent::RedrawRequested => EventDirective::BeginFrame,
    }
}

/// Decide what the loop does with a window notification: close ends
/// the process, a resize reconfigures the surface, a redraw request
/// starts a frame.
pub fn dispatch_event(e: WindowEvent) -> (r: EventDirective)
    ensures
        r == directive_for_event(e),
{
    match e {
        WindowEvent::CloseRequested => EventDirective::Exit,
        WindowEvent::Resized(size) => EventDirective::Reconfigure(size),
        WindowEvent::RedrawRequested => EventDirective::BeginFrame,
    }
}

/// What the dispatch loop does once a frame action has been performed.
#[derive(Clone, Copy, Debug, PartialEq, Eq, Structural)]
pub enum LoopDirective {
    /// The frame is still in flight: keep feeding events to the frame
    /// machine.
    Continue,
    /// The frame is settled: ask the window system for the next
    /// redraw.
    RequestRedraw,
    /// A fatal error ended the session: leave the event loop.
    Exit,
}

/// The loop's reaction to each frame action: mid-frame actions keep
/// the frame going, every settled frame (complete, skipped or
/// recovered) schedules the next redraw, and only teardown exits.
/// Recoverable surface errors never escape the render path.
pub open spec fn directive_for_action(a: FrameAction) -> LoopDirective {
    match a {
        FrameAction::Acquire => LoopDirective::Continue,
        FrameAction::Record => LoopDirective::Continue,
        FrameAction::Submit => LoopDirective::Continue,
        FrameAction::Present => LoopDirective::Continue,
        FrameAction::Ignore => LoopDirective::Continue,
        FrameAction::FinishFrame => LoopDirective::RequestRedraw,
        FrameAction::Recover => LoopDirective::RequestRedraw,
        FrameAction::SkipFrame => LoopDirective::RequestRedraw,
        FrameAction::Terminate => LoopDirective::Exit,
    }
}

/// Decide what the loop does after performing a frame action.
pub fn after_frame_action(a: FrameAction) -> (r: LoopDirective)
    ensures
        r == directive_for_action(a),
{
    match a {
        FrameAction::FinishFrame => LoopDirective::RequestRedraw,
        FrameAction::Recover => LoopDirective::RequestRedraw,
        FrameAction::SkipFrame => LoopDirective::RequestRedraw,
        FrameAction::Terminate => LoopDirective::Exit,
        _ => LoopDirective::Continue,
    }
}

/// Only an out-of-memory teardown ever leaves the render path: every
/// other frame action lets the loop continue or draw again, so a
/// recoverable surface error never reaches the embedding application
/// as a failure.
pub proof fn lemma_only_teardown_exits(a: FrameAction)
    ensures
        directive_for_action(a) == LoopDirective::Exit <==> a == FrameAction::Terminate,
{
}

} // verus!
