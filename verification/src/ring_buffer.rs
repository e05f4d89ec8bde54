use vstd::prelude::*;
use vstd::pervasive::VecAdditionalExecFns;

use crate::frame::Frame;

verus! {

/// The value a wrapping cursor takes after one advance: modular increment
/// over the full fixed integer width. Wraparound is intended behaviour, not
/// an error condition; slot addressing stays correct across it because a
/// slot index is always `cursor % capacity`.
pub open spec fn wrap_inc(cursor: usize) -> usize {
    if cursor == usize::MAX {
        0
    } else {
        (cursor + 1) as usize
    }
}

/// The cursor value one step back, over the same modular width.
pub open spec fn wrap_dec(cursor: usize) -> usize {
    if cursor == 0 {
        usize::MAX
    } else {
        (cursor - 1) as usize
    }
}

/// The sole addressing rule of the ring: the slot a cursor refers to.
pub fn slot_index(cursor: usize, capacity: usize) -> (i: usize)
    requires
        capacity >= 1,
    ensures
        i == cursor % capacity,
        i < capacity,
{
    cursor % capacity
}

/// The addressing rule lands in `[0, capacity)` for every cursor value a
/// run can reach, in particular for cursors that have wrapped around the
/// integer width.
pub proof fn lemma_slot_index_in_range(cursor: usize, capacity: usize)
    requires
        capacity >= 1,
    ensures
        0 <= cursor % capacity < capacity,
{
}

/// The shared pair of monotonically increasing wrapping cursors. It is the
/// only globally shared resource of the ring; every operation on it is O(1)
/// index arithmetic, so the lock an embedding wraps around it is held only
/// briefly.
///
/// The design assumes the writer never advances more than the ring's
/// capacity ahead of the reader; the pair itself does not enforce that.
pub struct CursorPair {
    pub read: usize,
    pub write: usize,
}

impl CursorPair {
    /// The starting cursor pair. The read cursor starts one ahead of the
    /// write cursor, so the consumer stays idle until two frames are in
    /// place and its previous-frame slot is always one that was written.
    pub fn new() -> (r: CursorPair)
        ensures
            r.read == 1,
            r.write == 0,
    {
        CursorPair { read: 1, write: 0 }
    }

    /// Whether the producer has advanced past the consumer, i.e. whether an
    /// unread frame is in place.
    pub fn has_advanced(&self) -> (r: bool)
        ensures
            r == (self.write > self.read),
    {
        self.write > self.read
    }

    /// Advance the write cursor by one, wrapping at the integer width.
    pub fn advance_write(&mut self)
        ensures
            final(self).write == wrap_inc(old(self).write),
            final(self).read == old(self).read,
    {
        if self.write == usize::MAX {
            self.write = 0;
        } else {
            self.write = self.write + 1;
        }
    }

    /// The consumer protocol's cursor step. If the producer has not
    /// advanced, nothing changes and no indices are handed out. Otherwise
    /// the current and previous read slots are computed, the read cursor
    /// advances, and the pair can be released before any slot is touched.
    pub fn consumer_claim(&mut self, capacity: usize) -> (r: Option<(usize, usize)>)
        requires
            capacity >= 1,
        ensures
            old(self).write <= old(self).read ==> {
                &&& r is None
                &&& final(self).read == old(self).read
                &&& final(self).write == old(self).write
            },
            old(self).write > old(self).read ==> {
                &&& r == Some(
                    ((old(self).read % capacity), (wrap_dec(old(self).read) % capacity)),
                )
                &&& final(self).read == wrap_inc(old(self).read)
                &&& final(self).write == old(self).write
            },
    {
        if self.write <= self.read {
            return None;
        }
        let read_index = slot_index(self.read, capacity);
        let previous = if self.read == 0 {
            usize::MAX
        } else {
            self.read - 1
        };
        let read_index_prev = slot_index(previous, capacity);
        if self.read == usize::MAX {
            self.read = 0;
        } else {
            self.read = self.read + 1;
        }
        Some((read_index, read_index_prev))
    }
}

/// Fixed-capacity circular store of frame slots. Each slot is independently
/// lockable in a threaded embedding; the library states what each protocol
/// step does to the slots and to the cursors.
pub struct RingBuffer {
    pub buffer: Vec<Frame>,
}

impl RingBuffer {
    /// A ring of `capacity` empty frame slots.
    pub fn with_capacity(capacity: usize) -> (r: RingBuffer)
        requires
            capacity >= 1,
        ensures
            r.buffer@.len() == capacity,
            forall|i: int| 0 <= i < capacity ==> r.buffer@[i]@ == Seq::<u8>::empty(),
    {
        let mut buffer: Vec<Frame> = Vec::new();
        let mut filled: usize = 0;
        while filled < capacity
            invariant
                filled <= capacity,
                buffer@.len() == filled,
                forall|i: int| 0 <= i < filled ==> buffer@[i]@ == Seq::<u8>::empty(),
            decreases capacity - filled,
        {
            buffer.push(Frame::new());
            filled = filled + 1;
        }
        RingBuffer { buffer }
    }

    /// A ring of the default capacity of ten slots.
    pub fn new() -> (r: RingBuffer)
        ensures
            r.buffer@.len() == 10,
            forall|i: int| 0 <= i < 10 ==> r.buffer@[i]@ == Seq::<u8>::empty(),
    {
        RingBuffer::with_capacity(10)
    }

    /// The number of slots.
    pub fn length(&self) -> (r: usize)
        ensures
            r == self.buffer@.len(),
    {
        self.buffer.len()
    }

    /// Overwrite the slot at `index` with `frame`.
    pub fn store(&mut self, index: usize, frame: Frame)
        requires
            index < old(self).buffer@.len(),
        ensures
            final(self).buffer@ == old(self).buffer@.update(index as int, frame),
    {
        self.buffer.set(index, frame);
    }
}

} // verus!
