use vstd::prelude::*;

use crate::frame::{Frame, MAX_FRAME_PIXELS};
use crate::real_time::{RealTime, MAX_PRIORITY};
use crate::ring_buffer::{wrap_dec, wrap_inc, slot_index, CursorPair, RingBuffer};

verus! {

/// The absolute difference of two integers.
pub open spec fn abs_diff(a: int, b: int) -> int {
    if a >= b {
        a - b
    } else {
        b - a
    }
}

/// The scalar difference metric between two equally sized intensity
/// buffers: the sum of the per-pixel absolute differences.
pub open spec fn diff_metric(a: Seq<u8>, b: Seq<u8>) -> int
    recommends
        a.len() == b.len(),
    decreases a.len(),
{
    if a.len() == 0 {
        0
    } else {
        diff_metric(a.drop_last(), b.drop_last()) + abs_diff(a.last() as int, b.last() as int)
    }
}

/// Producer service: writes captured frames into the ring buffer. The
/// capture device itself is an external collaborator; each invocation is
/// handed the freshly captured frame as plain intensity bytes.
pub struct Camera;

impl Camera {
    /// A producer with no state of its own: its whole effect is on the ring.
    pub fn new() -> (r: Camera) {
        Camera
    }

    /// One unit of producer work: overwrite the slot the write cursor
    /// addresses with the captured frame, then advance the write cursor.
    /// The side effect is confined to the ring buffer and the cursor pair.
    pub fn service(&self, ring: &mut RingBuffer, cursors: &mut CursorPair, captured: Frame)
        requires
            old(ring).buffer@.len() >= 1,
        ensures
            final(ring).buffer@ == old(ring).buffer@.update(
                write_index(*old(ring), *old(cursors)),
                captured,
            ),
            final(cursors).write == wrap_inc(old(cursors).write),
            final(cursors).read == old(cursors).read,
    {
        let capacity = ring.length();
        let write_index = slot_index(cursors.write, capacity);
        ring.store(write_index, captured);
        cursors.advance_write();
    }
}

/// Consumer, classifier and emitter: reads consecutive buffered frames,
/// computes the difference metric, classifies motion/blur against two
/// calibrated reference magnitudes, and emits the chosen frame on the
/// blur-to-still edge.
pub struct FrameDiffer {
    /// Reference magnitude of a typical still, sharp pair of frames.
    pub still_frame_threshold: u64,
    /// Reference magnitude of a typical blurred, moving pair of frames.
    pub blurred_frame_threshold: u64,
    /// Whether a blur run has made any previously staged best frame stale,
    /// so that the next still frame must be emitted.
    pub new_best_frame_needed: bool,
}

/// Nearest-reference classification: a metric counts as blurred when it is
/// closer to the blurred reference than to the still one. Tolerant of
/// lighting drift relative to a fixed threshold.
pub open spec fn classifies_blurred(differ: FrameDiffer, metric: u64) -> bool {
    abs_diff(metric as int, differ.blurred_frame_threshold as int) < abs_diff(
        metric as int,
        differ.still_frame_threshold as int,
    )
}

/// The selection flag after one classification: any blurred classification
/// raises it, any still classification leaves it cleared.
pub open spec fn step_needs(needs: bool, blurred: bool) -> bool {
    if blurred {
        true
    } else if needs {
        false
    } else {
        needs
    }
}

/// Whether one classification step emits: only a still classification while
/// the flag is raised does.
pub open spec fn step_emits(needs: bool, blurred: bool) -> bool {
    needs && !blurred
}

/// The selection flag after a whole run of classifications.
pub open spec fn needs_after_run(classifications: Seq<bool>, init: bool) -> bool
    decreases classifications.len(),
{
    if classifications.len() == 0 {
        init
    } else {
        step_needs(needs_after_run(classifications.drop_last(), init), classifications.last())
    }
}

/// Whether the machine emits at step `i` of a run of classifications.
pub open spec fn emits_at(classifications: Seq<bool>, init: bool, i: int) -> bool
    recommends
        0 <= i < classifications.len(),
{
    step_emits(needs_after_run(classifications.subrange(0, i), init), classifications[i])
}

/// Emission is edge-triggered: starting with the flag clear, the machine
/// emits at a step exactly when that step is the first still classification
/// after a blurred one — at most one emission per blur-then-still
/// transition, never one per sharp frame.
pub proof fn lemma_edge_triggered_emission(classifications: Seq<bool>, i: int)
    requires
        0 <= i < classifications.len(),
    ensures
        emits_at(classifications, false, i) <==> (0 < i && classifications[i - 1]
            && !classifications[i]),
{
    let prefix = classifications.subrange(0, i);
    if i == 0 {
        assert(prefix.len() == 0);
    } else {
        assert(prefix.last() == classifications[i - 1]);
    }
}

impl FrameDiffer {
    /// A differ over the two calibrated reference magnitudes. The flag
    /// starts clear: no frame is owed until a blur run has been seen.
    pub fn new(still_frame_threshold: u64, blurred_frame_threshold: u64) -> (r: FrameDiffer)
        ensures
            r.still_frame_threshold == still_frame_threshold,
            r.blurred_frame_threshold == blurred_frame_threshold,
            r.new_best_frame_needed == false,
    {
        FrameDiffer {
            still_frame_threshold,
            blurred_frame_threshold,
            new_best_frame_needed: false,
        }
    }

    /// The two reference magnitudes from a calibration pass: the smallest
    /// difference metric observed over the warm-up samples (typical still)
    /// and the largest (typical blurred). The sampling itself reads the
    /// capture device and is the caller's work; the fold over the samples
    /// is here.
    pub fn still_and_blurred_frame_threshold(samples: &Vec<u64>) -> (r: (u64, u64))
        requires
            samples@.len() >= 1,
        ensures
            r.0 == seq_min(samples@),
            r.1 == seq_max(samples@),
    {
        let mut still_frame_diff_value: u64 = samples[0];
        let mut blurred_frame_diff_value: u64 = samples[0];
        let mut i: usize = 1;
        while i < samples.len()
            invariant
                1 <= i <= samples@.len(),
                still_frame_diff_value == seq_min(samples@.subrange(0, i as int)),
                blurred_frame_diff_value == seq_max(samples@.subrange(0, i as int)),
            decreases samples@.len() - i,
        {
            let sample = samples[i];
            proof {
                assert(samples@.subrange(0, i as int + 1).drop_last() =~= samples@.subrange(
                    0,
                    i as int,
                ));
            }
            if sample < still_frame_diff_value {
                still_frame_diff_value = sample;
            }
            if sample > blurred_frame_diff_value {
                blurred_frame_diff_value = sample;
            }
            i = i + 1;
        }
        proof {
            assert(samples@.subrange(0, samples@.len() as int) =~= samples@);
        }
        (still_frame_diff_value, blurred_frame_diff_value)
    }

    /// The difference metric of two frames of equal size.
    pub fn diff_of_frames(frame0: &Frame, frame1: &Frame) -> (r: u64)
        requires
            frame0@.len() == frame1@.len(),
            frame0.wf(),
        ensures
            r == diff_metric(frame0@, frame1@),
    {
        let length = frame0.len();
        let mut sum: u64 = 0;
        let mut i: usize = 0;
        while i < length
            invariant
                i <= frame0@.len(),
                length == frame0@.len() == frame1@.len(),
                frame0@.len() <= MAX_FRAME_PIXELS,
                sum == diff_metric(frame0@.subrange(0, i as int), frame1@.subrange(0, i as int)),
                sum <= 255 * i,
            decreases length - i,
        {
            let a = frame0.pixels[i];
            let b = frame1.pixels[i];
            let difference: u64 = if a >= b {
                (a - b) as u64
            } else {
                (b - a) as u64
            };
            proof {
                assert(frame0@.subrange(0, i as int + 1).drop_last() =~= frame0@.subrange(
                    0,
                    i as int,
                ));
                assert(frame1@.subrange(0, i as int + 1).drop_last() =~= frame1@.subrange(
                    0,
                    i as int,
                ));
            }
            sum = sum + difference;
            i = i + 1;
        }
        proof {
            assert(frame0@.subrange(0, frame0@.len() as int) =~= frame0@);
            assert(frame1@.subrange(0, frame1@.len() as int) =~= frame1@);
        }
        sum
    }

    /// Nearest-reference classification of one metric value.
    pub fn image_did_blur(&self, frame_diff_value: u64) -> (r: bool)
        ensures
            r == classifies_blurred(*self, frame_diff_value),
    {
        let distance_from_still_frame_threshold: u64 = if frame_diff_value
            >= self.still_frame_threshold {
            frame_diff_value - self.still_frame_threshold
        } else {
            self.still_frame_threshold - frame_diff_value
        };
        let distance_from_blurred_frame_threshold: u64 = if frame_diff_value
            >= self.blurred_frame_threshold {
            frame_diff_value - self.blurred_frame_threshold
        } else {
            self.blurred_frame_threshold - frame_diff_value
        };
        distance_from_blurred_frame_threshold < distance_from_still_frame_threshold
    }

    /// One classification step of the edge-triggered selection machine:
    /// feed one difference metric in, learn whether the frame it was
    /// computed at must be emitted. Any blurred classification raises the
    /// selection flag; the first still classification afterwards clears it
    /// and asks for the emission. For embeddings that read the two frames
    /// under their own slot locks and only hand the metric over.
    pub fn register_frame_diff(&mut self, frame_diff_value: u64) -> (emit: bool)
        ensures
            final(self).still_frame_threshold == old(self).still_frame_threshold,
            final(self).blurred_frame_threshold == old(self).blurred_frame_threshold,
            final(self).new_best_frame_needed == step_needs(
                old(self).new_best_frame_needed,
                classifies_blurred(*old(self), frame_diff_value),
            ),
            emit == step_emits(
                old(self).new_best_frame_needed,
                classifies_blurred(*old(self), frame_diff_value),
            ),
    {
        let image_did_blur = self.image_did_blur(frame_diff_value);
        if image_did_blur {
            self.new_best_frame_needed = true;
            false
        } else if self.new_best_frame_needed {
            self.new_best_frame_needed = false;
            true
        } else {
            false
        }
    }

    /// One unit of consumer work. Apply the consumer protocol to the cursor
    /// pair; if the buffer has not advanced, do nothing. Otherwise compare
    /// the current frame with the previous one, classify, and on the first
    /// still classification after a blur run hand the current frame out for
    /// emission. The caller sends any returned frame to the output channel.
    pub fn service(&mut self, ring: &RingBuffer, cursors: &mut CursorPair) -> (emitted: Option<
        Frame,
    >)
        requires
            ring.buffer@.len() >= 1,
            old(cursors).write > old(cursors).read ==> read_slots_comparable(*ring, *old(cursors)),
        ensures
            old(cursors).write <= old(cursors).read ==> {
                &&& emitted is None
                &&& *final(self) == *old(self)
                &&& final(cursors).read == old(cursors).read
                &&& final(cursors).write == old(cursors).write
            },
            old(cursors).write > old(cursors).read ==> {
                &&& final(cursors).read == wrap_inc(old(cursors).read)
                &&& final(cursors).write == old(cursors).write
                &&& final(self).still_frame_threshold == old(self).still_frame_threshold
                &&& final(self).blurred_frame_threshold == old(self).blurred_frame_threshold
                &&& final(self).new_best_frame_needed == step_needs(
                    old(self).new_best_frame_needed,
                    read_classified_blurred(*ring, *old(cursors), *old(self)),
                )
                &&& (emitted is Some) == step_emits(
                    old(self).new_best_frame_needed,
                    read_classified_blurred(*ring, *old(cursors), *old(self)),
                )
                &&& (emitted matches Some(frame) ==> frame@ == ring.buffer@[read_index(
                    *ring,
                    *old(cursors),
                )]@)
            },
    {
        let capacity = ring.length();
        let claimed = cursors.consumer_claim(capacity);
        match claimed {
            None => None,
            Some((reader_index, reader_index_prev)) => {
                let frame_n = &ring.buffer[reader_index];
                let frame_n_prev = &ring.buffer[reader_index_prev];
                let frame_diff = FrameDiffer::diff_of_frames(frame_n, frame_n_prev);
                if self.register_frame_diff(frame_diff) {
                    Some(frame_n.duplicate())
                } else {
                    None
                }
            },
        }
    }
}

/// The slot the producer writes the next frame to.
pub open spec fn write_index(ring: RingBuffer, cursors: CursorPair) -> int {
    cursors.write as int % ring.buffer@.len() as int
}

/// The slot the consumer reads the current frame from.
pub open spec fn read_index(ring: RingBuffer, cursors: CursorPair) -> int {
    cursors.read as int % ring.buffer@.len() as int
}

/// The slot the consumer reads the previous frame from.
pub open spec fn prev_read_index(ring: RingBuffer, cursors: CursorPair) -> int {
    wrap_dec(cursors.read) as int % ring.buffer@.len() as int
}

/// The two slots the consumer is about to read hold frames of equal size,
/// small enough for the metric sum. A capture device of fixed resolution
/// keeps this true for every written slot.
pub open spec fn read_slots_comparable(ring: RingBuffer, cursors: CursorPair) -> bool {
    &&& ring.buffer@[read_index(ring, cursors)]@.len() == ring.buffer@[prev_read_index(
        ring,
        cursors,
    )]@.len()
    &&& ring.buffer@[read_index(ring, cursors)]@.len() <= MAX_FRAME_PIXELS
}

/// The metric of the two frames the consumer is about to read.
pub open spec fn read_diff_metric(ring: RingBuffer, cursors: CursorPair) -> int {
    diff_metric(
        ring.buffer@[read_index(ring, cursors)]@,
        ring.buffer@[prev_read_index(ring, cursors)]@,
    )
}

/// Whether the consumer's next comparison classifies as blurred.
pub open spec fn read_classified_blurred(
    ring: RingBuffer,
    cursors: CursorPair,
    differ: FrameDiffer,
) -> bool {
    classifies_blurred(differ, read_diff_metric(ring, cursors) as u64)
}

/// The smallest value of a non-empty sequence of samples.
pub open spec fn seq_min(s: Seq<u64>) -> u64
    recommends
        s.len() >= 1,
    decreases s.len(),
{
    if s.len() <= 1 {
        s[0]
    } else {
        let rest = seq_min(s.drop_last());
        if s.last() < rest {
            s.last()
        } else {
            rest
        }
    }
}

/// The largest value of a non-empty sequence of samples.
pub open spec fn seq_max(s: Seq<u64>) -> u64
    recommends
        s.len() >= 1,
    decreases s.len(),
{
    if s.len() <= 1 {
        s[0]
    } else {
        let rest = seq_max(s.drop_last());
        if s.last() > rest {
            s.last()
        } else {
            rest
        }
    }
}

impl RealTime for Camera {
    open spec fn spec_name(&self) -> Seq<char> {
        "Camera"@
    }

    open spec fn spec_priority(&self) -> i32 {
        (MAX_PRIORITY - 2) as i32
    }

    open spec fn spec_frequency(&self) -> u32 {
        10
    }

    fn name(&self) -> (r: &str) {
        "Camera"
    }

    fn priority(&self) -> (r: i32)
        ensures
            r == self.spec_priority(),
    {
        MAX_PRIORITY - 2
    }

    fn frequency(&self) -> (r: u32) {
        10
    }
}

impl RealTime for FrameDiffer {
    open spec fn spec_name(&self) -> Seq<char> {
        "Frame Differ"@
    }

    open spec fn spec_priority(&self) -> i32 {
        (MAX_PRIORITY - 1) as i32
    }

    open spec fn spec_frequency(&self) -> u32 {
        20
    }

    fn name(&self) -> (r: &str) {
        "Frame Differ"
    }

    fn priority(&self) -> (r: i32)
        ensures
            r == self.spec_priority(),
    {
        MAX_PRIORITY - 1
    }

    fn frequency(&self) -> (r: u32) {
        20
    }
}

} // verus!
