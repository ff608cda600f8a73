//! Turning one transport buffer into a frame, and handing it on without ever
//! waiting for the consumer.

use vstd::prelude::*;
use crate::frame::{damage_within, CaptureEvent, CapturedFrame, CursorInfo, DamageRect, PixelFormat};
use tokio::sync::mpsc::Sender;

verus! {

/// tokio's bounded channel sender, carried through opaque; only
/// `try_send` is called on it.
#[verifier::external_type_specification]
#[verifier::external_body]
#[verifier::reject_recursive_types(T)]
pub struct ExSender<T>(tokio::sync::mpsc::Sender<T>);

/// Bytes per pixel of the packed formats the transport delivers.
pub const TRANSPORT_BYTES_PER_PIXEL: u32 = 4;

/// Chunk metadata of a dequeued buffer, read before its bytes are touched.
#[derive(Debug, Clone, Copy, PartialEq, Eq, Structural)]
pub struct ChunkMeta {
    /// Bytes per row. Zero or below marks a buffer with no usable rows.
    pub stride: i32,
    /// Where the frame's bytes start in the mapped slice.
    pub offset: u32,
    /// How many bytes the frame occupies.
    pub size: u32,
}

/// Why a buffer produced no frame. None of these stops the capture loop.
#[derive(Debug, Clone, Copy, PartialEq, Eq, Structural)]
pub enum BufferRejection {
    /// Zero size, or a stride of zero or below.
    Degenerate,
    /// The derived width or height is zero.
    ZeroDimension,
    /// `offset + size` runs past the end of the mapped slice.
    OutOfBounds,
    /// Every sequence number of the session has been handed out.
    SequenceExhausted,
}

impl ChunkMeta {
    /// Width in pixels, derived from the stride.
    pub open spec fn spec_width(self) -> u32 {
        (self.stride as u32 / TRANSPORT_BYTES_PER_PIXEL) as u32
    }

    /// Height in rows, derived from the size and the stride.
    pub open spec fn spec_height(self) -> u32 {
        (self.size / self.stride as u32) as u32
    }

    /// The exclusive end of the frame's bytes in the slice.
    pub open spec fn spec_end(self) -> int {
        self.offset as int + self.size as int
    }
}

/// What keeps a buffer of `chunk` from becoming a frame, when the mapped
/// slice holds `len` bytes and the next sequence number is `next`.
pub open spec fn rejection_of(chunk: ChunkMeta, len: nat, next: u64) -> Option<BufferRejection> {
    if chunk.size == 0 || chunk.stride <= 0 {
        Some(BufferRejection::Degenerate)
    } else if chunk.spec_width() == 0 || chunk.spec_height() == 0 {
        Some(BufferRejection::ZeroDimension)
    } else if chunk.spec_end() > len {
        Some(BufferRejection::OutOfBounds)
    } else if next == u64::MAX {
        Some(BufferRejection::SequenceExhausted)
    } else {
        None
    }
}

/// The counter after a buffer of `chunk`: it advances exactly when a frame
/// is produced.
pub open spec fn next_after(next: u64, chunk: ChunkMeta, len: nat) -> u64 {
    if rejection_of(chunk, len, next) is None {
        (next + 1) as u64
    } else {
        next
    }
}

/// The sequence numbers of the frames made from `buffers`, in order, when
/// the counter starts at `next`. Each buffer is given by its chunk metadata
/// and the length of its mapped slice.
pub open spec fn emitted_sequences(next: u64, buffers: Seq<(ChunkMeta, nat)>) -> Seq<u64>
    decreases buffers.len(),
{
    if buffers.len() == 0 {
        Seq::empty()
    } else {
        let chunk = buffers[0].0;
        let len = buffers[0].1;
        let rest = emitted_sequences(next_after(next, chunk, len), buffers.drop_first());
        if rejection_of(chunk, len, next) is None {
            seq![next] + rest
        } else {
            rest
        }
    }
}

/// Within one capture session the frames' sequence numbers strictly
/// increase, whatever buffers arrive, and none is below the counter the
/// session started from.
pub proof fn lemma_sequences_strictly_increase(next: u64, buffers: Seq<(ChunkMeta, nat)>)
    ensures
        forall|i: int, j: int|
            0 <= i < j < emitted_sequences(next, buffers).len() ==> emitted_sequences(
                next,
                buffers,
            )[i] < emitted_sequences(next, buffers)[j],
        forall|i: int|
            0 <= i < emitted_sequences(next, buffers).len() ==> emitted_sequences(
                next,
                buffers,
            )[i] >= next,
    decreases buffers.len(),
{
    if buffers.len() > 0 {
        let chunk = buffers[0].0;
        let len = buffers[0].1;
        let after = next_after(next, chunk, len);
        lemma_sequences_strictly_increase(after, buffers.drop_first());
        let rest = emitted_sequences(after, buffers.drop_first());
        if rejection_of(chunk, len, next) is None {
            let s = seq![next] + rest;
            assert(emitted_sequences(next, buffers) == s);
            assert forall|i: int, j: int| 0 <= i < j < s.len() implies s[i] < s[j] by {
                if i > 0 {
                    assert(s[i] == rest[i - 1]);
                }
                assert(s[j] == rest[j - 1]);
            }
            assert forall|i: int| 0 <= i < s.len() implies s[i] >= next by {
                if i > 0 {
                    assert(s[i] == rest[i - 1]);
                }
            }
        }
    }
}

/// A buffer of zero size or zero stride gives no frame and leaves the
/// counter where it was.
pub proof fn lemma_degenerate_buffer_gives_no_frame(chunk: ChunkMeta, len: nat, next: u64)
    requires
        chunk.stride == 0 || chunk.size == 0,
    ensures
        rejection_of(chunk, len, next) == Some(BufferRejection::Degenerate),
        next_after(next, chunk, len) == next,
{
}

/// A buffer whose range runs past the end of its mapped slice gives no frame
/// and leaves the counter where it was.
pub proof fn lemma_out_of_bounds_buffer_gives_no_frame(chunk: ChunkMeta, len: nat, next: u64)
    requires
        chunk.offset as int + chunk.size as int > len,
    ensures
        rejection_of(chunk, len, next) is Some,
        next_after(next, chunk, len) == next,
{
}

/// Damage as it reaches the frame: kept when every rectangle lies within a
/// `width` x `height` frame, otherwise degraded to a full-frame update.
pub open spec fn kept_damage(damage: Option<Vec<DamageRect>>, width: u32, height: u32) -> Option<Vec<DamageRect>> {
    match damage {
        Some(rects) => if damage_within(rects@, width, height) {
            Some(rects)
        } else {
            None
        },
        None => None,
    }
}

/// Side-channel metadata attached to a buffer: damage and cursor. Absence
/// is normal and means a full-frame update with no cursor change.
#[derive(Debug, Clone)]
pub struct BufferMetadata {
    pub damage: Option<Vec<DamageRect>>,
    pub cursor: Option<CursorInfo>,
}

impl BufferMetadata {
    /// No metadata: full-frame damage and no cursor update.
    pub fn absent() -> (r: Self)
        ensures
            r.damage is None,
            r.cursor is None,
    {
        BufferMetadata { damage: None, cursor: None }
    }
}

/// The event built from a buffer: its frame is cut from `bytes` at the
/// chunk's range, carries sequence number `sequence`, and goes with the
/// cursor of `metadata` when there is one.
pub open spec fn event_matches(
    event: CaptureEvent,
    chunk: ChunkMeta,
    bytes: Seq<u8>,
    sequence: u64,
    metadata: BufferMetadata,
) -> bool {
    let frame = event.spec_frame();
    &&& frame.data@ == bytes.subrange(chunk.offset as int, chunk.spec_end())
    &&& frame.width == chunk.spec_width()
    &&& frame.height == chunk.spec_height()
    &&& frame.format == PixelFormat::Bgra
    &&& frame.stride == chunk.stride as u32
    &&& frame.sequence == sequence
    &&& frame.damage == kept_damage(metadata.damage, chunk.spec_width(), chunk.spec_height())
    &&& frame.wf()
    &&& match metadata.cursor {
        Some(c) => event == CaptureEvent::FrameAndCursor(frame, c),
        None => event == CaptureEvent::Frame(frame),
    }
}

/// What became of one buffer.
#[derive(Debug, Clone, Copy, PartialEq, Eq, Structural)]
pub enum BufferOutcome {
    /// No frame was made.
    Rejected(BufferRejection),
    /// The frame with this sequence number is in the channel.
    Sent(u64),
    /// The channel was full; the frame with this sequence number was dropped.
    DroppedFull(u64),
    /// The consumer is gone; the frame with this sequence number was dropped.
    DroppedClosed(u64),
}

/// What a non-blocking send reported.
pub enum SendOutcome {
    Sent,
    Full,
    Closed,
}

/// Relies on tokio's `Sender::try_send`: it never waits, and reports a full
/// channel apart from a closed one. Whether there is room depends on the
/// consumer, so nothing is promised of the outcome.
#[verifier::external_body]
fn try_send_event(tx: &Sender<CaptureEvent>, event: CaptureEvent) -> (r: SendOutcome) {
    match tx.try_send(event) {
        Ok(()) => SendOutcome::Sent,
        Err(tokio::sync::mpsc::error::TrySendError::Full(_)) => SendOutcome::Full,
        Err(tokio::sync::mpsc::error::TrySendError::Closed(_)) => SendOutcome::Closed,
    }
}

/// Every rectangle of `rects` lies within a `width` x `height` frame.
fn all_within(rects: &Vec<DamageRect>, width: u32, height: u32) -> (r: bool)
    ensures
        r == damage_within(rects@, width, height),
{
    let mut i: usize = 0;
    while i < rects.len()
        invariant
            i <= rects@.len(),
            damage_within(rects@.subrange(0, i as int), width, height),
        decreases rects@.len() - i,
    {
        let r = &rects[i];
        if r.x < 0 || r.y < 0 || r.x as u64 + r.width as u64 > width as u64 || r.y as u64
            + r.height as u64 > height as u64 {
            assert(!rects@[i as int].within(width, height));
            return false;
        }
        assert(rects@.subrange(0, i + 1) =~= rects@.subrange(0, i as int).push(rects@[i as int]));
        i = i + 1;
    }
    assert(rects@.subrange(0, i as int) =~= rects@);
    true
}

/// Copies `slice[start..end]` into a new buffer.
fn copy_range(slice: &[u8], start: usize, end: usize) -> (r: Vec<u8>)
    requires
        start <= end <= slice@.len(),
    ensures
        r@ == slice@.subrange(start as int, end as int),
{
    let mut out: Vec<u8> = Vec::with_capacity(end - start);
    let mut i: usize = start;
    while i < end
        invariant
            start <= i <= end,
            end <= slice@.len(),
            out@ == slice@.subrange(start as int, i as int),
        decreases end - i,
    {
        out.push(slice[i]);
        assert(out@ =~= slice@.subrange(start as int, i + 1));
        i = i + 1;
    }
    out
}

/// Builds frames from transport buffers, numbering them in the order they
/// are made. One assembler serves one capture session.
pub struct FrameAssembler {
    next_sequence: u64,
}

impl FrameAssembler {
    /// The sequence number the next frame will carry.
    pub closed spec fn spec_next(&self) -> u64 {
        self.next_sequence
    }

    /// A fresh session: the first frame carries sequence number zero.
    pub fn new() -> (r: Self)
        ensures
            r.spec_next() == 0,
    {
        FrameAssembler { next_sequence: 0 }
    }

    /// The sequence number the next frame will carry.
    pub fn next_sequence(&self) -> (r: u64)
        ensures
            r == self.spec_next(),
    {
        self.next_sequence
    }

    /// Checks the chunk metadata of a buffer against its mapped `slice`,
    /// copies the frame's bytes out and numbers the frame. A malformed buffer
    /// gives no frame and leaves the counter as it was.
    pub fn assemble(&mut self, chunk: ChunkMeta, slice: &[u8], metadata: BufferMetadata) -> (r:
        Result<CaptureEvent, BufferRejection>)
        ensures
            final(self).spec_next() == next_after(old(self).spec_next(), chunk, slice@.len()),
            match rejection_of(chunk, slice@.len(), old(self).spec_next()) {
                Some(e) => r == Err::<CaptureEvent, BufferRejection>(e),
                None => r is Ok && event_matches(
                    r->Ok_0,
                    chunk,
                    slice@,
                    old(self).spec_next(),
                    metadata,
                ),
            },
    {
        if chunk.size == 0 || chunk.stride <= 0 {
            return Err(BufferRejection::Degenerate);
        }
        let stride = chunk.stride as u32;
        let width = stride / TRANSPORT_BYTES_PER_PIXEL;
        let height = chunk.size / stride;
        if width == 0 || height == 0 {
            return Err(BufferRejection::ZeroDimension);
        }
        let end = chunk.offset as u64 + chunk.size as u64;
        if end > slice.len() as u64 {
            return Err(BufferRejection::OutOfBounds);
        }
        if self.next_sequence == u64::MAX {
            return Err(BufferRejection::SequenceExhausted);
        }
        let data = copy_range(slice, chunk.offset as usize, end as usize);
        let sequence = self.next_sequence;
        self.next_sequence = self.next_sequence + 1;

        let damage = match metadata.damage {
            Some(rects) => if all_within(&rects, width, height) {
                Some(rects)
            } else {
                None
            },
            None => None,
        };
        proof {
            vstd::arithmetic::div_mod::lemma_fundamental_div_mod(chunk.size as int, stride as int);
            vstd::arithmetic::div_mod::lemma_fundamental_div_mod(stride as int, 4);
            vstd::arithmetic::mul::lemma_mul_is_commutative(height as int, stride as int);
            assert(stride == chunk.stride as u32);
            assert(height as int * stride as int <= chunk.size);
            assert(stride as int >= width as int * 4);
            assert(damage == kept_damage(metadata.damage, width, height));
        }
        let frame = CapturedFrame {
            data,
            width,
            height,
            format: PixelFormat::Bgra,
            stride,
            sequence,
            damage,
        };
        match metadata.cursor {
            Some(c) => Ok(CaptureEvent::FrameAndCursor(frame, c)),
            None => Ok(CaptureEvent::Frame(frame)),
        }
    }

    /// Handles one dequeued buffer: assembles a frame and offers it to the
    /// channel without waiting. A full channel drops the frame, so a slow
    /// consumer never stalls the producer; the sequence gap tells the
    /// consumer that frames were lost.
    pub fn process_buffer(
        &mut self,
        chunk: ChunkMeta,
        slice: &[u8],
        metadata: BufferMetadata,
        tx: &Sender<CaptureEvent>,
    ) -> (r: BufferOutcome)
        ensures
            final(self).spec_next() == next_after(old(self).spec_next(), chunk, slice@.len()),
            match rejection_of(chunk, slice@.len(), old(self).spec_next()) {
                Some(e) => r == BufferOutcome::Rejected(e),
                None => r == BufferOutcome::Sent(old(self).spec_next()) || r
                    == BufferOutcome::DroppedFull(old(self).spec_next()) || r
                    == BufferOutcome::DroppedClosed(old(self).spec_next()),
            },
    {
        match self.assemble(chunk, slice, metadata) {
            Err(e) => BufferOutcome::Rejected(e),
            Ok(event) => {
                let sequence = event.frame().sequence;
                match try_send_event(tx, event) {
                    SendOutcome::Sent => BufferOutcome::Sent(sequence),
                    SendOutcome::Full => BufferOutcome::DroppedFull(sequence),
                    SendOutcome::Closed => BufferOutcome::DroppedClosed(sequence),
                }
            },
        }
    }
}

} // verus!
