//! The polling capture scheduler: on a fixed interval it starts a transfer,
//! and when the transfer ends it decides what to publish to the frame store.
//! The caller performs each action and reports what came of it.

use vstd::prelude::*;

use crate::extract::{fingerprint, fingerprint_of, located_region, locate, FrameRegion};

verus! {

/// Default pause between two captures, in milliseconds.
pub const CAPTURE_INTERVAL_MS: u64 = 200;

/// What to write to the frame store after a capture.
#[derive(Clone, Copy, Debug, PartialEq, Eq, Structural)]
pub struct Publication {
    pub region: Option<FrameRegion>,
    pub fingerprint: u32,
}

/// The publication for a filled capture buffer: its frame, if any, and the
/// frame's fingerprint (zero when there is no frame).
pub open spec fn publication_for(b: Seq<u8>) -> Publication {
    match located_region(b) {
        Some(r) => Publication {
            region: Some(r),
            fingerprint: fingerprint_of(b.subrange(r.start as int, r.start + r.len)),
        },
        None => Publication { region: None, fingerprint: 0 },
    }
}

/// Extracts the frame of a filled capture buffer and fingerprints it.
pub fn frame_publication(buffer: &[u8]) -> (r: Publication)
    ensures
        r == publication_for(buffer@),
        r.region matches Some(reg) ==> reg.wf() && reg.start + reg.len <= buffer@.len(),
{
    match locate(buffer) {
        Some(reg) => {
            let frame = vstd::slice::slice_subrange(buffer, reg.start, reg.start + reg.len);
            Publication { region: Some(reg), fingerprint: fingerprint(frame) }
        },
        None => Publication { region: None, fingerprint: 0 },
    }
}

/// Where the scheduler stands between events.
#[derive(Clone, Copy, Debug, PartialEq, Eq, Structural)]
pub enum CapturePhase {
    /// Waiting for the next interval.
    Idle,
    /// A transfer was asked for and has not ended yet.
    Capturing,
}

/// What the caller reports back.
#[derive(Clone, Copy, Debug, PartialEq, Eq, Structural)]
pub enum CaptureEvent {
    /// The capture interval has elapsed.
    IntervalElapsed,
    /// The transfer could not be started; the buffer came back unchanged.
    StartFailed,
    /// The transfer ended with an error; the buffer's contents are not to be trusted.
    TransferFailed,
    /// The transfer filled the buffer.
    TransferCompleted,
}

/// What the caller does next.
#[derive(Clone, Copy, Debug, PartialEq, Eq, Structural)]
pub enum CaptureAction {
    /// Start a transfer into the capture buffer.
    BeginTransfer,
    /// Keep waiting for the transfer in flight.
    AwaitTransfer,
    /// Sleep for one capture interval, of `ms` milliseconds.
    Sleep { ms: u64 },
}

/// The action, and what to publish to the frame store before taking it.
#[derive(Clone, Copy, Debug, PartialEq, Eq, Structural)]
pub struct CaptureStep {
    pub action: CaptureAction,
    pub publish: Option<Publication>,
}

/// The scheduler's state: its phase, the count of capture attempts and the
/// capture interval.
#[derive(Clone, Copy, Debug, PartialEq, Eq, Structural)]
pub struct PollingScheduler {
    pub phase: CapturePhase,
    pub frames: u64,
    pub interval_ms: u64,
}

/// The attempt counter after one more attempt; it stops at its maximum.
pub open spec fn counted(frames: u64) -> u64 {
    if frames < u64::MAX {
        (frames + 1) as u64
    } else {
        frames
    }
}

/// The scheduler after `e`.
pub open spec fn next_scheduler(s: PollingScheduler, e: CaptureEvent) -> PollingScheduler {
    match s.phase {
        CapturePhase::Idle => if e == CaptureEvent::IntervalElapsed {
            PollingScheduler { phase: CapturePhase::Capturing, ..s }
        } else {
            s
        },
        CapturePhase::Capturing => if e == CaptureEvent::IntervalElapsed {
            s
        } else {
            PollingScheduler { phase: CapturePhase::Idle, frames: counted(s.frames), ..s }
        },
    }
}

/// The step the scheduler takes on `e`, the capture buffer holding `b`.
pub open spec fn capture_step(s: PollingScheduler, e: CaptureEvent, b: Seq<u8>) -> CaptureStep {
    match s.phase {
        CapturePhase::Idle => if e == CaptureEvent::IntervalElapsed {
            CaptureStep { action: CaptureAction::BeginTransfer, publish: None }
        } else {
            CaptureStep { action: CaptureAction::Sleep { ms: s.interval_ms }, publish: None }
        },
        CapturePhase::Capturing => if e == CaptureEvent::IntervalElapsed {
            CaptureStep { action: CaptureAction::AwaitTransfer, publish: None }
        } else if e == CaptureEvent::TransferCompleted {
            CaptureStep {
                action: CaptureAction::Sleep { ms: s.interval_ms },
                publish: Some(publication_for(b)),
            }
        } else {
            CaptureStep { action: CaptureAction::Sleep { ms: s.interval_ms }, publish: None }
        },
    }
}

impl PollingScheduler {
    /// An idle scheduler that has made no attempt, with the default interval.
    pub fn new() -> (r: PollingScheduler)
        ensures
            r.phase == CapturePhase::Idle,
            r.frames == 0,
            r.interval_ms == CAPTURE_INTERVAL_MS,
    {
        PollingScheduler { phase: CapturePhase::Idle, frames: 0, interval_ms: CAPTURE_INTERVAL_MS }
    }

    /// An idle scheduler that has made no attempt, capturing every `interval_ms`.
    pub fn with_interval(interval_ms: u64) -> (r: PollingScheduler)
        ensures
            r.phase == CapturePhase::Idle,
            r.frames == 0,
            r.interval_ms == interval_ms,
    {
        PollingScheduler { phase: CapturePhase::Idle, frames: 0, interval_ms }
    }

    /// Takes one event. A transfer that ends, well or not, and a transfer
    /// that could not start each count as one attempt. Only a completed
    /// transfer publishes (its frame, or "no frame"); after a failure the
    /// store keeps its previous frame. `buffer` is read only on a completed
    /// transfer.
    pub fn on_event(&mut self, event: CaptureEvent, buffer: &[u8]) -> (r: CaptureStep)
        ensures
            *final(self) == next_scheduler(*old(self), event),
            r == capture_step(*old(self), event, buffer@),
            final(self).frames >= old(self).frames,
            old(self).phase == CapturePhase::Capturing && event != CaptureEvent::IntervalElapsed
                && old(self).frames < u64::MAX ==> final(self).frames == old(self).frames + 1,
            r.publish matches Some(p) ==> (p.region matches Some(reg) ==> reg.wf() && reg.start
                + reg.len <= buffer@.len()),
    {
        match self.phase {
            CapturePhase::Idle => {
                if event == CaptureEvent::IntervalElapsed {
                    self.phase = CapturePhase::Capturing;
                    CaptureStep { action: CaptureAction::BeginTransfer, publish: None }
                } else {
                    CaptureStep {
                        action: CaptureAction::Sleep { ms: self.interval_ms },
                        publish: None,
                    }
                }
            },
            CapturePhase::Capturing => {
                if event == CaptureEvent::IntervalElapsed {
                    return CaptureStep { action: CaptureAction::AwaitTransfer, publish: None };
                }
                self.phase = CapturePhase::Idle;
                if self.frames < u64::MAX {
                    self.frames = self.frames + 1;
                }
                if event == CaptureEvent::TransferCompleted {
                    CaptureStep {
                        action: CaptureAction::Sleep { ms: self.interval_ms },
                        publish: Some(frame_publication(buffer)),
                    }
                } else {
                    CaptureStep {
                        action: CaptureAction::Sleep { ms: self.interval_ms },
                        publish: None,
                    }
                }
            },
        }
    }
}

} // verus!
