//! The asynchronous RPC queue: a bounded ring of length-prefixed frames in
//! shared memory, written by the kernel core (producer) and drained by the
//! runtime core (consumer). Frames are delivered in write order — FIFO, no
//! reordering and no priority; that is the shape of `enqueue` and `dequeue`
//! below: one appends at the tail, the other removes the head.

use vstd::prelude::*;
use crate::wire::u32_le_bytes;

verus! {

/// A frame as it sits in the ring: a 4-byte little-endian length prefix
/// followed by the marshalled payload.
pub open spec fn frame_bytes(payload: Seq<u8>) -> Seq<u8> {
    u32_le_bytes(payload.len() as u32) + payload
}

/// The bounded frame ring. `depth` is the number of frame slots; each slot
/// holds `frame_size` bytes, length prefix included. A payload that does not
/// fit one slot cannot be enqueued at all (the caller falls back to the
/// synchronous mailbox path).
pub struct RpcQueue {
    frames: Vec<Vec<u8>>,
    depth: usize,
    frame_size: usize,
}

impl RpcQueue {
    /// The pending frames, oldest first.
    pub closed spec fn frames(&self) -> Seq<Seq<u8>> {
        self.frames@.map_values(|f: Vec<u8>| f@)
    }

    /// Number of frame slots.
    pub closed spec fn depth(&self) -> usize {
        self.depth
    }

    /// Bytes per frame slot, length prefix included.
    pub closed spec fn frame_size(&self) -> usize {
        self.frame_size
    }

    /// The queue's structural invariant: it has at least one slot, a slot
    /// holds at least its length prefix, slot sizes are addressable by the
    /// 32-bit prefix, occupancy never exceeds the depth, and every pending
    /// frame fits its slot.
    pub open spec fn wf(&self) -> bool {
        &&& 0 < self.depth()
        &&& 4 <= self.frame_size() <= u32::MAX
        &&& self.frames().len() <= self.depth()
        &&& forall|i: int|
            0 <= i < self.frames().len() ==> (#[trigger] self.frames()[i]).len()
                <= self.frame_size()
    }

    /// `payload` fits one frame slot of this queue.
    pub open spec fn fits(&self, payload: Seq<u8>) -> bool {
        payload.len() + 4 <= self.frame_size()
    }

    pub open spec fn is_empty(&self) -> bool {
        self.frames().len() == 0
    }

    pub open spec fn is_full(&self) -> bool {
        self.frames().len() == self.depth()
    }

    /// An empty ring with `depth` slots of `frame_size` bytes.
    pub fn new(depth: usize, frame_size: usize) -> (r: RpcQueue)
        requires
            0 < depth,
            4 <= frame_size <= u32::MAX,
        ensures
            r.wf(),
            r.depth() == depth,
            r.frame_size() == frame_size,
            r.frames() =~= Seq::<Seq<u8>>::empty(),
    {
        RpcQueue { frames: Vec::new(), depth, frame_size }
    }

    /// The producer's occupancy check: no free slot is left.
    pub fn full(&self) -> (r: bool)
        requires
            self.wf(),
        ensures
            r == self.is_full(),
    {
        self.frames.len() == self.depth
    }

    /// The consumer's occupancy check: nothing is pending.
    pub fn empty(&self) -> (r: bool)
        ensures
            r == self.is_empty(),
    {
        self.frames.len() == 0
    }

    /// Append one marshalled-argument frame. If the length-prefixed payload
    /// exceeds one slot, nothing is written and the attempt fails — this is
    /// the zero-space write failure that triggers the synchronous fallback.
    pub fn enqueue(&mut self, payload: Vec<u8>) -> (r: Result<(), ()>)
        requires
            old(self).wf(),
            !old(self).is_full(),
        ensures
            final(self).wf(),
            final(self).depth() == old(self).depth(),
            final(self).frame_size() == old(self).frame_size(),
            if old(self).fits(payload@) {
                r is Ok && final(self).frames() == old(self).frames().push(
                    frame_bytes(payload@),
                )
            } else {
                r is Err && final(self).frames() == old(self).frames()
            },
    {
        if payload.len() > self.frame_size - 4 {
            return Err(());
        }
        let ghost p: Seq<u8> = payload@;
        let mut frame: Vec<u8> = Vec::new();
        crate::wire::push_u32_le(&mut frame, payload.len() as u32);
        let mut payload = payload;
        frame.append(&mut payload);
        assert(frame@ =~= frame_bytes(p));
        self.frames.push(frame);
        assert(self.frames() =~= old(self).frames().push(frame@));
        Ok(())
    }

    /// Drain the oldest pending frame. Frames come out in exactly the order
    /// they were enqueued.
    pub fn dequeue(&mut self) -> (r: Vec<u8>)
        requires
            old(self).wf(),
            !old(self).is_empty(),
        ensures
            final(self).wf(),
            final(self).depth() == old(self).depth(),
            final(self).frame_size() == old(self).frame_size(),
            r@ == old(self).frames()[0],
            final(self).frames() == old(self).frames().drop_first(),
    {
        let r = self.frames.remove(0);
        assert(self.frames() =~= old(self).frames().drop_first());
        r
    }
}

} // verus!
