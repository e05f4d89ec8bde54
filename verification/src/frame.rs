use vstd::prelude::*;

verus! {

/// Upper bound on the number of pixels a frame may hold. It is chosen so
/// that a sum of per-pixel absolute differences (each at most 255) always
/// fits in a `u64`.
pub const MAX_FRAME_PIXELS: usize = 0xFFFF_FFFF;

/// One captured image, stored as a single-channel intensity buffer.
///
/// A frame's identity in the pipeline is positional (the ring-buffer cursor
/// value that placed it), not an explicit id. The capture device and the
/// image codec live outside the library; they hand intensity bytes in and
/// take them back out.
pub struct Frame {
    pub pixels: Vec<u8>,
}

impl View for Frame {
    type V = Seq<u8>;

    open spec fn view(&self) -> Seq<u8> {
        self.pixels@
    }
}

impl Frame {
    /// A frame is well formed when a per-pixel difference sum over it cannot
    /// overflow.
    pub open spec fn wf(&self) -> bool {
        self@.len() <= MAX_FRAME_PIXELS
    }

    /// An empty frame, as the ring buffer holds before the producer has
    /// filled a slot.
    pub fn new() -> (r: Frame)
        ensures
            r@ == Seq::<u8>::empty(),
            r.wf(),
    {
        Frame { pixels: Vec::new() }
    }

    /// A frame over the given intensity bytes.
    pub fn from_pixels(pixels: Vec<u8>) -> (r: Frame)
        requires
            pixels@.len() <= MAX_FRAME_PIXELS,
        ensures
            r@ == pixels@,
            r.wf(),
    {
        Frame { pixels }
    }

    /// The number of pixels held.
    pub fn len(&self) -> (r: usize)
        ensures
            r == self@.len(),
    {
        self.pixels.len()
    }

    /// A copy of this frame, made while the caller holds the slot, so that
    /// the slot can be released before the copy travels further.
    pub fn duplicate(&self) -> (r: Frame)
        ensures
            r@ == self@,
    {
        let mut pixels: Vec<u8> = Vec::new();
        let mut i: usize = 0;
        while i < self.pixels.len()
            invariant
                i <= self@.len(),
                pixels@ == self@.subrange(0, i as int),
            decreases self@.len() - i,
        {
            pixels.push(self.pixels[i]);
            proof {
                assert(pixels@ =~= self@.subrange(0, i as int + 1));
            }
            i = i + 1;
        }
        proof {
            assert(pixels@ =~= self@);
        }
        Frame { pixels }
    }
}

} // verus!
