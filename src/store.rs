//! The frame store: the single slot through which the capture side hands the
//! latest frame to its readers.

use vstd::prelude::*;

use crate::extract::FrameRegion;

verus! {

/// A copy of the three fields of the store; `len == 0` means that no frame is
/// available.
#[derive(Clone, Copy, Debug, PartialEq, Eq, Structural)]
pub struct FrameSnapshot {
    pub start: usize,
    pub len: usize,
    pub fingerprint: u32,
}

impl FrameSnapshot {
    /// The snapshot describes a frame.
    pub open spec fn has_frame(self) -> bool {
        self.len > 0
    }
}

/// The snapshot that stands for "no frame available".
pub open spec fn empty_snapshot() -> FrameSnapshot {
    FrameSnapshot { start: 0, len: 0, fingerprint: 0 }
}

/// What a publication writes to the store.
pub open spec fn published(region: Option<FrameRegion>, fingerprint: u32) -> FrameSnapshot {
    match region {
        Some(r) => FrameSnapshot { start: r.start, len: r.len, fingerprint },
        None => FrameSnapshot { start: 0, len: 0, fingerprint },
    }
}

/// The latest frame's location, length and fingerprint inside a capture buffer.
pub struct FrameStore {
    start: usize,
    len: usize,
    fingerprint: u32,
}

impl View for FrameStore {
    type V = FrameSnapshot;

    closed spec fn view(&self) -> FrameSnapshot {
        FrameSnapshot { start: self.start, len: self.len, fingerprint: self.fingerprint }
    }
}

impl FrameStore {
    /// A store with every field zero: no frame yet.
    pub fn new() -> (r: FrameStore)
        ensures
            r@ == empty_snapshot(),
    {
        FrameStore { start: 0, len: 0, fingerprint: 0 }
    }

    /// Overwrites all three fields: with the region and its fingerprint, or,
    /// for no region, with a zero start and length.
    pub fn publish(&mut self, region: Option<FrameRegion>, fingerprint: u32)
        requires
            region matches Some(r) ==> r.wf(),
        ensures
            final(self)@ == published(region, fingerprint),
            final(self)@.has_frame() <==> region is Some,
    {
        match region {
            Some(r) => {
                self.start = r.start;
                self.len = r.len;
            },
            None => {
                self.start = 0;
                self.len = 0;
            },
        }
        self.fingerprint = fingerprint;
    }

    /// A copy of the three fields.
    pub fn snapshot(&self) -> (r: FrameSnapshot)
        ensures
            r == self@,
    {
        FrameSnapshot { start: self.start, len: self.len, fingerprint: self.fingerprint }
    }
}

/// Reading the store does not change it: snapshots taken with no publication
/// in between are equal.
pub proof fn lemma_snapshots_agree(store: FrameStore, first: FrameSnapshot, second: FrameSnapshot)
    requires
        first == store@,
        second == store@,
    ensures
        first == second,
{
}

} // verus!
