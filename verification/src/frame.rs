//! Frames of packed RGB pixels and the single-slot buffer that keeps the
//! most recent one.

use std::sync::Arc;
use vstd::prelude::*;

verus! {

/// Number of bytes in a packed RGB image: three per pixel, rows back to back.
pub open spec fn frame_len(width: nat, height: nat) -> nat {
    width * height * 3
}

/// What a frame is: its pixel bytes, its dimensions and its place in the
/// stream it was captured from.
pub struct FrameView {
    pub pixels: Seq<u8>,
    pub width: nat,
    pub height: nat,
    pub sequence: nat,
}

impl FrameView {
    /// The buffer holds exactly one image of the stated dimensions.
    pub open spec fn wf(self) -> bool {
        self.pixels.len() == frame_len(self.width, self.height)
    }
}

/// The model of a frame that may be absent.
pub open spec fn frame_view(frame: Option<Frame>) -> Option<FrameView> {
    match frame {
        Some(f) => Some(f@),
        None => None,
    }
}

/// One captured image. The buffer always holds exactly
/// `width * height * 3` bytes, and nothing can alter a frame once built: the
/// buffer is shared between the copies of a frame, never written again.
#[derive(Debug)]
pub struct Frame {
    data: Arc<Vec<u8>>,
    width: u32,
    height: u32,
    sequence: u64,
}

impl View for Frame {
    type V = FrameView;

    closed spec fn view(&self) -> FrameView {
        FrameView {
            pixels: self.data@,
            width: self.width as nat,
            height: self.height as nat,
            sequence: self.sequence as nat,
        }
    }
}

/// Tells whether a buffer of `len` bytes is a whole image of the given
/// dimensions.
pub fn is_frame_len(len: usize, width: u32, height: u32) -> (ok: bool)
    ensures
        ok == (len as nat == frame_len(width as nat, height as nat)),
{
    let w: u128 = width as u128;
    let h: u128 = height as u128;
    assert(w * h <= 0xFFFF_FFFF * 0xFFFF_FFFF) by (nonlinear_arith)
        requires
            w <= 0xFFFF_FFFF,
            h <= 0xFFFF_FFFF,
    ;
    let area: u128 = w * h;
    len as u128 == area * 3
}

impl Frame {
    #[verifier::type_invariant]
    spec fn sized(self) -> bool {
        self.data@.len() == frame_len(self.width as nat, self.height as nat)
    }

    /// Builds a frame from a pixel buffer, refusing a buffer whose length is
    /// not that of a `width` by `height` RGB image.
    pub fn new(data: Vec<u8>, width: u32, height: u32, sequence: u64) -> (frame: Option<Frame>)
        ensures
            frame is Some <==> data@.len() == frame_len(width as nat, height as nat),
            frame matches Some(f) ==> f@ == (FrameView {
                pixels: data@,
                width: width as nat,
                height: height as nat,
                sequence: sequence as nat,
            }),
    {
        if is_frame_len(data.len(), width, height) {
            Some(Frame { data: Arc::new(data), width, height, sequence })
        } else {
            None
        }
    }

    /// The pixel bytes, row by row.
    pub fn data(&self) -> (bytes: &Vec<u8>)
        ensures
            bytes@ == self@.pixels,
            self@.wf(),
    {
        proof {
            use_type_invariant(self);
        }
        &*self.data
    }

    /// Width in pixels.
    pub fn width(&self) -> (w: u32)
        ensures
            w == self@.width,
    {
        self.width
    }

    /// Height in pixels.
    pub fn height(&self) -> (h: u32)
        ensures
            h == self@.height,
    {
        self.height
    }

    /// Position of this frame in the stream that produced it.
    pub fn sequence(&self) -> (n: u64)
        ensures
            n == self@.sequence,
    {
        self.sequence
    }
}

/// `Arc::clone` on a pixel buffer: one more handle to the same allocation.
/// The bytes are shared, not copied, so the handle that comes back holds
/// what the given one holds.
#[verifier::external_body]
fn share_buffer(buffer: &Arc<Vec<u8>>) -> (shared: Arc<Vec<u8>>)
    ensures
        shared == *buffer,
{
    Arc::clone(buffer)
}

impl Clone for Frame {
    /// A copy equal to this frame in every part. The two share one pixel
    /// buffer, so copying costs the same for every size.
    fn clone(&self) -> (copy: Frame)
        ensures
            copy@ == self@,
            copy@.wf(),
    {
        proof {
            use_type_invariant(self);
        }
        Frame {
            data: share_buffer(&self.data),
            width: self.width,
            height: self.height,
            sequence: self.sequence,
        }
    }
}

/// What a slot holds after `frame` was written to it: that frame, whatever
/// it held before.
pub open spec fn slot_written(before: Option<FrameView>, frame: FrameView) -> Option<FrameView> {
    Some(frame)
}

/// What a read of a slot gives: what the slot holds.
pub open spec fn slot_read(slot: Option<FrameView>) -> Option<FrameView> {
    slot
}

/// Round trip. A read that follows a write gives the frame written, with its
/// sequence number and with a buffer of exactly `width * height * 3` bytes.
/// A second write leaves no trace of the first.
pub proof fn lemma_write_then_read(before: Option<FrameView>, frame: FrameView, next: FrameView)
    requires
        frame.wf(),
    ensures
        slot_read(slot_written(before, frame)) == Some(frame),
        slot_read(slot_written(before, frame))->0.sequence == frame.sequence,
        slot_read(slot_written(before, frame))->0.pixels.len() == frame_len(
            frame.width,
            frame.height,
        ),
        slot_written(slot_written(before, frame), next) == slot_written(before, next),
        slot_read(None) is None,
{
}

/// Holds the latest frame of one side. A write replaces what was there; a
/// read copies it out and leaves it in place.
#[derive(Debug)]
pub struct FrameSlot {
    latest: Option<Frame>,
}

impl View for FrameSlot {
    type V = Option<FrameView>;

    closed spec fn view(&self) -> Option<FrameView> {
        match self.latest {
            Some(frame) => Some(frame@),
            None => None,
        }
    }
}

impl FrameSlot {
    /// A slot into which nothing has been written yet.
    pub fn new() -> (slot: FrameSlot)
        ensures
            slot@ is None,
    {
        FrameSlot { latest: None }
    }

    /// Stores `frame` as the latest one, dropping the frame held before.
    pub fn write(&mut self, frame: Frame)
        ensures
            final(self)@ == slot_written(old(self)@, frame@),
    {
        self.latest = Some(frame);
    }

    /// A copy of the latest frame, or `None` if nothing was ever written.
    pub fn read(&self) -> (frame: Option<Frame>)
        ensures
            frame_view(frame) == slot_read(self@),
            frame matches Some(f) ==> f@.wf(),
    {
        match &self.latest {
            Some(frame) => {
                let copy = frame.clone();
                proof {
                    use_type_invariant(&copy);
                }
                Some(copy)
            },
            None => None,
        }
    }
}

} // verus!
