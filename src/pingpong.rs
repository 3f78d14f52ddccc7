//! The ping-pong streaming session: two capture buffers, one filled by the
//! camera while the other is sent to the connected client. The caller runs
//! the I/O: it performs each action and reports the event that ended it.

use vstd::prelude::*;

use crate::capture::counted;

verus! {

/// One of the two capture buffers.
#[derive(Clone, Copy, Debug, PartialEq, Eq, Structural)]
pub enum BufferId {
    A,
    B,
}

/// The buffer that is not `b`.
pub open spec fn other_buffer(b: BufferId) -> BufferId {
    match b {
        BufferId::A => BufferId::B,
        BufferId::B => BufferId::A,
    }
}

impl BufferId {
    /// The buffer that is not this one.
    pub fn other(self) -> (r: BufferId)
        ensures
            r == other_buffer(self),
    {
        match self {
            BufferId::A => BufferId::B,
            BufferId::B => BufferId::A,
        }
    }
}

/// Where a session stands between events.
#[derive(Clone, Copy, Debug, PartialEq, Eq, Structural)]
pub enum SessionPhase {
    /// Waiting for a client.
    Listening,
    /// Reading the client's request.
    ReadingRequest,
    /// Sending the multipart response header.
    SendingHeader,
    /// The first, blocking capture into buffer A, retried until it fills it.
    Priming,
    /// A capture into the other buffer was asked for while `current`, the
    /// last buffer that a capture filled, is sent.
    Streaming { current: BufferId },
    /// `current` was handled; the capture into the other buffer is in flight.
    /// With `abandon`, the connection is dropped once it ends.
    AwaitingCapture { current: BufferId, abandon: bool },
}

/// What the caller reports back.
#[derive(Clone, Copy, Debug, PartialEq, Eq, Structural)]
pub enum SessionEvent {
    Accepted,
    AcceptFailed,
    /// The request was read (or reading it ended).
    RequestRead,
    HeaderWritten,
    /// A write to the client failed.
    WriteFailed,
    /// The capture could not be started; the buffer came back unchanged.
    CaptureStartFailed,
    /// The capture ended with an error; the buffer is back.
    CaptureFailed,
    /// The capture filled the buffer; the buffer is back.
    CaptureDone,
    /// The frame of the current buffer was sent.
    FrameSent,
}

/// What the caller does next.
#[derive(Clone, Copy, Debug, PartialEq, Eq, Structural)]
pub enum SessionAction {
    /// Drop any connection and wait for a client.
    Accept,
    ReadRequest,
    WriteHeader,
    /// Capture into the buffer and wait for the capture to end.
    CaptureInto(BufferId),
    /// Start a capture into `capture`, then send the frame of `stream`.
    CaptureAndStream { capture: BufferId, stream: BufferId },
    /// Wait for the capture in flight into the buffer to end.
    AwaitCapture(BufferId),
}

/// The action that stands for a phase: what the caller is doing while the
/// session is in it.
pub open spec fn phase_action(p: SessionPhase) -> SessionAction {
    match p {
        SessionPhase::Listening => SessionAction::Accept,
        SessionPhase::ReadingRequest => SessionAction::ReadRequest,
        SessionPhase::SendingHeader => SessionAction::WriteHeader,
        SessionPhase::Priming => SessionAction::CaptureInto(BufferId::A),
        SessionPhase::Streaming { current } => SessionAction::CaptureAndStream {
            capture: other_buffer(current),
            stream: current,
        },
        SessionPhase::AwaitingCapture { current, abandon } => SessionAction::AwaitCapture(
            other_buffer(current),
        ),
    }
}

/// The phase after `e` in phase `p`. An event that the phase does not expect
/// leaves it as it is.
pub open spec fn next_phase(p: SessionPhase, e: SessionEvent) -> SessionPhase {
    match p {
        SessionPhase::Listening => if e == SessionEvent::Accepted {
            SessionPhase::ReadingRequest
        } else {
            p
        },
        SessionPhase::ReadingRequest => if e == SessionEvent::RequestRead {
            SessionPhase::SendingHeader
        } else {
            p
        },
        SessionPhase::SendingHeader => if e == SessionEvent::HeaderWritten {
            SessionPhase::Priming
        } else if e == SessionEvent::WriteFailed {
            SessionPhase::Listening
        } else {
            p
        },
        SessionPhase::Priming => if e == SessionEvent::CaptureDone {
            SessionPhase::Streaming { current: BufferId::A }
        } else {
            p
        },
        SessionPhase::Streaming { current } => if e == SessionEvent::FrameSent {
            SessionPhase::AwaitingCapture { current, abandon: false }
        } else if e == SessionEvent::WriteFailed {
            SessionPhase::AwaitingCapture { current, abandon: true }
        } else {
            p
        },
        SessionPhase::AwaitingCapture { current, abandon } => if e == SessionEvent::CaptureDone {
            if abandon {
                SessionPhase::Listening
            } else {
                SessionPhase::Streaming { current: other_buffer(current) }
            }
        } else if e == SessionEvent::CaptureFailed {
            if abandon {
                SessionPhase::Listening
            } else {
                SessionPhase::Streaming { current }
            }
        } else {
            p
        },
    }
}

/// The capture that is still in flight after `e` ended the action of phase
/// `p`: a capture was started and the frame was then sent, or failed to be.
pub open spec fn in_flight_after(p: SessionPhase, e: SessionEvent) -> Option<BufferId> {
    match p {
        SessionPhase::Streaming { current } => if e == SessionEvent::FrameSent || e
            == SessionEvent::WriteFailed {
            Some(other_buffer(current))
        } else {
            None
        },
        _ => None,
    }
}

/// `e` reports how a capture attempt of phase `p` ended: it could not
/// start, it failed, or it filled its buffer.
pub open spec fn ends_capture_attempt(p: SessionPhase, e: SessionEvent) -> bool {
    match p {
        SessionPhase::Priming => e == SessionEvent::CaptureStartFailed || e
            == SessionEvent::CaptureFailed || e == SessionEvent::CaptureDone,
        SessionPhase::Streaming { .. } => e == SessionEvent::CaptureStartFailed,
        SessionPhase::AwaitingCapture { .. } => e == SessionEvent::CaptureFailed || e
            == SessionEvent::CaptureDone,
        _ => false,
    }
}

/// A ping-pong streaming session, with its count of capture attempts.
#[derive(Clone, Copy, Debug, PartialEq, Eq, Structural)]
pub struct PingPongSession {
    pub phase: SessionPhase,
    pub frames: u64,
}

impl PingPongSession {
    /// A session waiting for its first client, having made no capture attempt.
    pub fn new() -> (r: PingPongSession)
        ensures
            r.phase == SessionPhase::Listening,
            r.frames == 0,
    {
        PingPongSession { phase: SessionPhase::Listening, frames: 0 }
    }

    /// The action to perform in the current phase.
    pub fn action(&self) -> (r: SessionAction)
        ensures
            r == phase_action(self.phase),
    {
        match self.phase {
            SessionPhase::Listening => SessionAction::Accept,
            SessionPhase::ReadingRequest => SessionAction::ReadRequest,
            SessionPhase::SendingHeader => SessionAction::WriteHeader,
            SessionPhase::Priming => SessionAction::CaptureInto(BufferId::A),
            SessionPhase::Streaming { current } => SessionAction::CaptureAndStream {
                capture: current.other(),
                stream: current,
            },
            SessionPhase::AwaitingCapture { current, abandon: _ } => SessionAction::AwaitCapture(
                current.other(),
            ),
        }
    }

    /// Takes the event that ended the current action and returns the next
    /// action. A capture that is still in flight is always waited for before
    /// anything else, the connection being dropped only after it ends; the
    /// buffer being captured into is never the one being sent. Capture errors
    /// do not end the connection: a capture that fails to start or fails is
    /// retried, and the last filled buffer is offered again meanwhile. Only a
    /// failed write drops the client. Every capture attempt, failed or not,
    /// is counted.
    pub fn on_event(&mut self, event: SessionEvent) -> (r: SessionAction)
        ensures
            final(self).phase == next_phase(old(self).phase, event),
            final(self).frames == if ends_capture_attempt(old(self).phase, event) {
                counted(old(self).frames)
            } else {
                old(self).frames
            },
            ends_capture_attempt(old(self).phase, event) && old(self).frames < u64::MAX
                ==> final(self).frames == old(self).frames + 1,
            r == phase_action(final(self).phase),
            final(self).phase == SessionPhase::Listening ==> old(self).phase
                == SessionPhase::Listening || event == SessionEvent::WriteFailed || old(
                self,
            ).phase matches SessionPhase::AwaitingCapture { abandon: true, .. },
            in_flight_after(old(self).phase, event) matches Some(b) ==> r == SessionAction::AwaitCapture(b),
            r matches SessionAction::CaptureAndStream { capture, stream } ==> capture != stream,
    {
        let next = match self.phase {
            SessionPhase::Listening => if event == SessionEvent::Accepted {
                SessionPhase::ReadingRequest
            } else {
                self.phase
            },
            SessionPhase::ReadingRequest => if event == SessionEvent::RequestRead {
                SessionPhase::SendingHeader
            } else {
                self.phase
            },
            SessionPhase::SendingHeader => if event == SessionEvent::HeaderWritten {
                SessionPhase::Priming
            } else if event == SessionEvent::WriteFailed {
                SessionPhase::Listening
            } else {
                self.phase
            },
            SessionPhase::Priming => if event == SessionEvent::CaptureDone {
                SessionPhase::Streaming { current: BufferId::A }
            } else {
                self.phase
            },
            SessionPhase::Streaming { current } => if event == SessionEvent::FrameSent {
                SessionPhase::AwaitingCapture { current, abandon: false }
            } else if event == SessionEvent::WriteFailed {
                SessionPhase::AwaitingCapture { current, abandon: true }
            } else {
                self.phase
            },
            SessionPhase::AwaitingCapture { current, abandon } => if event
                == SessionEvent::CaptureDone {
                if abandon {
                    SessionPhase::Listening
                } else {
                    SessionPhase::Streaming { current: current.other() }
                }
            } else if event == SessionEvent::CaptureFailed {
                if abandon {
                    SessionPhase::Listening
                } else {
                    SessionPhase::Streaming { current }
                }
            } else {
                self.phase
            },
        };
        let attempt = match self.phase {
            SessionPhase::Priming => event == SessionEvent::CaptureStartFailed || event
                == SessionEvent::CaptureFailed || event == SessionEvent::CaptureDone,
            SessionPhase::Streaming { .. } => event == SessionEvent::CaptureStartFailed,
            SessionPhase::AwaitingCapture { .. } => event == SessionEvent::CaptureFailed || event
                == SessionEvent::CaptureDone,
            _ => false,
        };
        if attempt && self.frames < u64::MAX {
            self.frames = self.frames + 1;
        }
        self.phase = next;
        self.action()
    }
}

/// A connection is dropped only when no capture is in flight: whenever a
/// capture is still running after an event, the next action waits for it.
pub proof fn lemma_wait_before_abandon(p: SessionPhase, e: SessionEvent)
    requires
        in_flight_after(p, e) is Some,
    ensures
        phase_action(next_phase(p, e)) == SessionAction::AwaitCapture(in_flight_after(p, e)->0),
        phase_action(next_phase(p, e)) != SessionAction::Accept,
{
}

/// A capture error never ends the connection: the session leaves a
/// connected phase for `Listening` only on a failed write, or when a capture
/// that outlived a failed write ends.
pub proof fn lemma_capture_errors_keep_client(p: SessionPhase, e: SessionEvent)
    requires
        e == SessionEvent::CaptureStartFailed || e == SessionEvent::CaptureFailed,
        p != SessionPhase::Listening,
        !(p matches SessionPhase::AwaitingCapture { abandon: true, .. }),
    ensures
        next_phase(p, e) != SessionPhase::Listening,
{
}

/// The two buffers keep to separate roles: the one being captured into is
/// never the one being sent.
pub proof fn lemma_buffers_never_shared(p: SessionPhase)
    ensures
        phase_action(p) matches SessionAction::CaptureAndStream { capture, stream } ==> capture
            != stream,
{
}

} // verus!
