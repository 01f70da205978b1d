//! The ring of synchronisation slots and the cursor that walks it.
//!
//! Each frame in flight uses one slot: a semaphore that tells when its image is
//! available, one that tells when rendering has finished, and a fence the CPU
//! can wait on. A slot's fence is pending from the moment a frame is submitted
//! with it until the CPU has waited for it. A frame may be submitted on a slot
//! only while its fence is not pending, so no two frames in flight ever share
//! a slot.

use crate::constants::MAX_FRAMES_IN_FLIGHT;
use vstd::prelude::*;

verus! {

/// The ring as a mathematical value: the slot in use, and for each slot
/// whether a frame submitted with it is still in flight.
pub struct FrameSyncModel {
    pub current_frame: nat,
    pub pending: Seq<bool>,
}

impl FrameSyncModel {
    /// The ring has one mark per slot, and the cursor points at a slot.
    pub open spec fn wf(self) -> bool {
        &&& self.pending.len() == MAX_FRAMES_IN_FLIGHT
        &&& self.current_frame < MAX_FRAMES_IN_FLIGHT
    }

    /// The ring of a freshly built set of slots: the cursor at slot 0, every
    /// fence signalled.
    pub open spec fn initial() -> FrameSyncModel {
        FrameSyncModel {
            current_frame: 0,
            pending: Seq::new(MAX_FRAMES_IN_FLIGHT as nat, |i: int| false),
        }
    }

    /// Whether the fence of the slot in use is pending.
    pub open spec fn current_pending(self) -> bool {
        self.pending[self.current_frame as int]
    }

    /// The ring after the CPU has waited for the fence of the slot in use.
    pub open spec fn retired(self) -> FrameSyncModel {
        FrameSyncModel { pending: self.pending.update(self.current_frame as int, false), ..self }
    }

    /// The ring after a frame has been submitted with the slot in use.
    pub open spec fn submitted(self) -> FrameSyncModel {
        FrameSyncModel { pending: self.pending.update(self.current_frame as int, true), ..self }
    }

    /// The ring after the cursor has moved on to the next slot.
    pub open spec fn advanced(self) -> FrameSyncModel {
        FrameSyncModel {
            current_frame: (self.current_frame + 1) % (MAX_FRAMES_IN_FLIGHT as nat),
            ..self
        }
    }

    /// The ring after the device has gone idle: no frame is in flight.
    pub open spec fn drained(self) -> FrameSyncModel {
        FrameSyncModel { pending: Seq::new(self.pending.len(), |i: int| false), ..self }
    }

    /// The ring after the cursor has moved on `frames` times.
    pub open spec fn advanced_by(self, frames: nat) -> FrameSyncModel
        decreases frames,
    {
        if frames == 0 {
            self
        } else {
            self.advanced_by((frames - 1) as nat).advanced()
        }
    }
}

/// After any number of frames the cursor stands that many slots further round
/// the ring, and nothing else has changed.
pub proof fn lemma_cursor_after_frames(ring: FrameSyncModel, frames: nat)
    requires
        ring.wf(),
    ensures
        ring.advanced_by(frames).wf(),
        ring.advanced_by(frames).current_frame == (ring.current_frame + frames) % (
        MAX_FRAMES_IN_FLIGHT as nat),
        ring.advanced_by(frames).pending == ring.pending,
    decreases frames,
{
    if frames > 0 {
        lemma_cursor_after_frames(ring, (frames - 1) as nat);
    }
}

/// The cursor is periodic: after as many frames as there are slots it is back
/// where it started.
pub proof fn lemma_cursor_is_periodic(ring: FrameSyncModel)
    requires
        ring.wf(),
    ensures
        ring.advanced_by(MAX_FRAMES_IN_FLIGHT as nat) == ring,
        ring.advanced() != ring,
{
    lemma_cursor_after_frames(ring, MAX_FRAMES_IN_FLIGHT as nat);
}

/// The ring of synchronisation slots of one device, and the cursor that says
/// which slot the next frame uses.
#[derive(Clone, Copy, Debug)]
pub struct FrameSync {
    current_frame: usize,
    pending: [bool; MAX_FRAMES_IN_FLIGHT],
}

impl View for FrameSync {
    type V = FrameSyncModel;

    closed spec fn view(&self) -> FrameSyncModel {
        FrameSyncModel { current_frame: self.current_frame as nat, pending: self.pending@ }
    }
}

impl FrameSync {
    /// The ring of freshly created slots. Their fences are created signalled,
    /// so that the first wait on each returns at once.
    pub fn new() -> (ring: FrameSync)
        ensures
            ring@ == FrameSyncModel::initial(),
            ring@.wf(),
    {
        let ring = FrameSync { current_frame: 0, pending: [false; MAX_FRAMES_IN_FLIGHT] };
        assert(ring@.pending =~= FrameSyncModel::initial().pending);
        ring
    }

    /// The slot that the frame being drawn uses.
    pub fn current_frame(&self) -> (slot: usize)
        requires
            self@.wf(),
        ensures
            slot == self@.current_frame,
            slot < MAX_FRAMES_IN_FLIGHT,
    {
        self.current_frame
    }

    /// Whether a frame submitted with `slot` is still in flight. `false` for a
    /// number that names no slot.
    pub fn is_pending(&self, slot: usize) -> (b: bool)
        requires
            self@.wf(),
        ensures
            b == (slot < MAX_FRAMES_IN_FLIGHT && self@.pending[slot as int]),
    {
        slot < MAX_FRAMES_IN_FLIGHT && self.pending[slot]
    }

    /// Records that the CPU has waited for the fence of the slot in use: the
    /// frame that last used the slot has left the GPU.
    pub fn retire(&mut self)
        requires
            old(self)@.wf(),
        ensures
            final(self)@ == old(self)@.retired(),
            final(self)@.wf(),
    {
        self.pending[self.current_frame] = false;
    }

    /// Records that a frame has been submitted with the slot in use, whose
    /// fence must not be pending: the slot is free only once the CPU has waited
    /// for the frame that used it before.
    pub fn submit(&mut self)
        requires
            old(self)@.wf(),
            !old(self)@.current_pending(),
        ensures
            final(self)@ == old(self)@.submitted(),
            final(self)@.wf(),
    {
        self.pending[self.current_frame] = true;
    }

    /// Moves the cursor on to the next slot of the ring.
    pub fn advance(&mut self)
        requires
            old(self)@.wf(),
        ensures
            final(self)@ == old(self)@.advanced(),
            final(self)@.wf(),
    {
        self.current_frame = (self.current_frame + 1) % MAX_FRAMES_IN_FLIGHT;
    }

    /// Records that the device has gone idle: every fence is signalled.
    pub fn drain(&mut self)
        requires
            old(self)@.wf(),
        ensures
            final(self)@ == old(self)@.drained(),
            final(self)@.wf(),
    {
        self.pending = [false; MAX_FRAMES_IN_FLIGHT];
        assert(self@.pending =~= old(self)@.drained().pending);
    }
}

} // verus!
