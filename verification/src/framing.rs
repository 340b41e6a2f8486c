//! Frames: the byte stream of a connection is cut after every delimiter
//! byte. A frame is everything up to and including one delimiter; what
//! follows the last delimiter waits for more bytes.

use vstd::prelude::*;

use crate::protocol::EOT;

verus! {

/// Index of the first delimiter of `bytes` at or after `from`; the length of
/// `bytes` where there is none.
pub open spec fn first_delimiter(bytes: Seq<u8>, from: int) -> int
    decreases bytes.len() - from,
{
    if from < 0 || from >= bytes.len() {
        bytes.len() as int
    } else if bytes[from] == EOT {
        from
    } else {
        first_delimiter(bytes, from + 1)
    }
}

/// True when `bytes` holds a delimiter, and so a whole frame.
pub open spec fn has_frame(bytes: Seq<u8>) -> bool {
    first_delimiter(bytes, 0) < bytes.len()
}

/// The first frame of `bytes`: everything through the first delimiter.
pub open spec fn head_frame(bytes: Seq<u8>) -> Seq<u8> {
    bytes.subrange(0, first_delimiter(bytes, 0) + 1)
}

/// What follows the first frame of `bytes`.
pub open spec fn after_head(bytes: Seq<u8>) -> Seq<u8> {
    bytes.subrange(first_delimiter(bytes, 0) + 1, bytes.len() as int)
}

/// The whole frames of `bytes`, in order.
pub open spec fn frames_of(bytes: Seq<u8>) -> Seq<Seq<u8>>
    decreases bytes.len(),
{
    if has_frame(bytes) {
        proof {
            lemma_first_delimiter(bytes, 0);
        }
        seq![head_frame(bytes)] + frames_of(after_head(bytes))
    } else {
        Seq::empty()
    }
}

/// What follows the last whole frame of `bytes`.
pub open spec fn rest_of(bytes: Seq<u8>) -> Seq<u8>
    decreases bytes.len(),
{
    if has_frame(bytes) {
        proof {
            lemma_first_delimiter(bytes, 0);
        }
        rest_of(after_head(bytes))
    } else {
        bytes
    }
}

/// True when `frame` ends with a delimiter and holds no other.
pub open spec fn is_frame(frame: Seq<u8>) -> bool {
    &&& frame.len() > 0
    &&& frame.last() == EOT
    &&& forall|i: int| 0 <= i < frame.len() - 1 ==> frame[i] != EOT
}

/// What a frame carries: the frame without its delimiter. A last piece of a
/// stream that ended without one is carried whole.
pub open spec fn payload_of(frame: Seq<u8>) -> Seq<u8> {
    if frame.len() > 0 && frame.last() == EOT {
        frame.drop_last()
    } else {
        frame
    }
}

/// `first_delimiter` finds a delimiter and skips none.
pub proof fn lemma_first_delimiter(bytes: Seq<u8>, from: int)
    requires
        0 <= from <= bytes.len(),
    ensures
        from <= first_delimiter(bytes, from) <= bytes.len(),
        first_delimiter(bytes, from) < bytes.len() ==> bytes[first_delimiter(bytes, from)] == EOT,
        forall|i: int| from <= i < first_delimiter(bytes, from) ==> bytes[i] != EOT,
    decreases bytes.len() - from,
{
    if from < bytes.len() && bytes[from] != EOT {
        lemma_first_delimiter(bytes, from + 1);
    }
}

/// The payload of a frame, as a slice of it.
pub fn payload(frame: &[u8]) -> (r: &[u8])
    ensures
        r@ == payload_of(frame@),
{
    let n: usize = frame.len();
    if n > 0 && frame[n - 1] == EOT {
        vstd::slice::slice_subrange(frame, 0, n - 1)
    } else {
        frame
    }
}

/// The bytes of a connection that have been received and not yet handed
/// out as frames.
pub struct FrameBuffer {
    pending: Vec<u8>,
}

impl View for FrameBuffer {
    type V = Seq<u8>;

    closed spec fn view(&self) -> Seq<u8> {
        self.pending@
    }
}

impl FrameBuffer {
    /// An empty buffer.
    pub fn new() -> (r: Self)
        ensures
            r@ == Seq::<u8>::empty(),
    {
        FrameBuffer { pending: Vec::new() }
    }

    /// Number of bytes that wait in the buffer.
    pub fn len(&self) -> (r: usize)
        ensures
            r == self@.len(),
    {
        self.pending.len()
    }

    /// Appends received bytes.
    pub fn push(&mut self, bytes: &[u8])
        ensures
            final(self)@ == old(self)@ + bytes@,
    {
        let mut i: usize = 0;
        while i < bytes.len()
            invariant
                i <= bytes.len(),
                self.pending@ == old(self).pending@ + bytes@.subrange(0, i as int),
            decreases bytes.len() - i,
        {
            self.pending.push(bytes[i]);
            i += 1;
        }
        assert(bytes@.subrange(0, bytes.len() as int) == bytes@);
    }

    /// Takes the first whole frame out of the buffer, if there is one.
    pub fn next_frame(&mut self) -> (r: Option<Vec<u8>>)
        ensures
            match r {
                Some(frame) => {
                    &&& has_frame(old(self)@)
                    &&& frame@ == head_frame(old(self)@)
                    &&& final(self)@ == after_head(old(self)@)
                },
                None => !has_frame(old(self)@) && final(self)@ == old(self)@,
            },
    {
        let mut i: usize = 0;
        while i < self.pending.len() && self.pending[i] != EOT
            invariant
                i <= self.pending.len(),
                self.pending@ == old(self).pending@,
                first_delimiter(self.pending@, 0) == first_delimiter(self.pending@, i as int),
            decreases self.pending.len() - i,
        {
            i += 1;
        }
        if i == self.pending.len() {
            return None;
        }
        let rest: Vec<u8> = self.pending.split_off(i + 1);
        let mut frame: Vec<u8> = rest;
        std::mem::swap(&mut frame, &mut self.pending);
        Some(frame)
    }

    /// Takes what is left in the buffer when the stream has ended: the last,
    /// unfinished piece, if there is one.
    pub fn take_rest(&mut self) -> (r: Option<Vec<u8>>)
        ensures
            final(self)@ == Seq::<u8>::empty(),
            match r {
                Some(rest) => rest@ == old(self)@ && rest@.len() > 0,
                None => old(self)@.len() == 0,
            },
    {
        if self.pending.len() == 0 {
            return None;
        }
        let mut rest: Vec<u8> = Vec::new();
        std::mem::swap(&mut rest, &mut self.pending);
        Some(rest)
    }
}

/// The frames of `frames`, one after the other, as one sequence of bytes.
pub open spec fn joined(frames: Seq<Seq<u8>>) -> Seq<u8>
    decreases frames.len(),
{
    if frames.len() == 0 {
        Seq::empty()
    } else {
        frames[0] + joined(frames.drop_first())
    }
}

/// The contents of a list of frames.
pub open spec fn frames_view(frames: Seq<Vec<u8>>) -> Seq<Seq<u8>> {
    frames.map_values(|frame: Vec<u8>| frame@)
}

/// Framing loses nothing: the frames of a stream, followed by what is left
/// over, are the stream.
pub proof fn law_frames_rejoin(bytes: Seq<u8>)
    ensures
        joined(frames_of(bytes)) + rest_of(bytes) == bytes,
    decreases bytes.len(),
{
    lemma_first_delimiter(bytes, 0);
    if has_frame(bytes) {
        let tail = after_head(bytes);
        law_frames_rejoin(tail);
        let frames = frames_of(bytes);
        assert(frames.drop_first() == frames_of(tail));
        assert(joined(frames) == head_frame(bytes) + joined(frames_of(tail)));
        assert(head_frame(bytes) + (joined(frames_of(tail)) + rest_of(tail)) == bytes);
        assert(joined(frames) + rest_of(bytes) == head_frame(bytes) + (joined(frames_of(tail))
            + rest_of(tail)));
    } else {
        assert(joined(frames_of(bytes)) + rest_of(bytes) == bytes);
    }
}

/// Every frame of a stream ends with its only delimiter, and what is left
/// over holds none.
pub proof fn law_frames_delimited(bytes: Seq<u8>)
    ensures
        forall|k: int| 0 <= k < frames_of(bytes).len() ==> is_frame(#[trigger] frames_of(bytes)[k]),
        forall|j: int| 0 <= j < rest_of(bytes).len() ==> #[trigger] rest_of(bytes)[j] != EOT,
    decreases bytes.len(),
{
    lemma_first_delimiter(bytes, 0);
    if has_frame(bytes) {
        let tail = after_head(bytes);
        law_frames_delimited(tail);
        let frames = frames_of(bytes);
        assert(is_frame(head_frame(bytes)));
        assert forall|k: int| 0 <= k < frames.len() implies is_frame(#[trigger] frames[k]) by {
            if k > 0 {
                assert(frames[k] == frames_of(tail)[k - 1]);
            }
        }
        assert(rest_of(bytes) == rest_of(tail));
    } else {
        assert(rest_of(bytes) == bytes);
        assert forall|j: int| 0 <= j < rest_of(bytes).len() implies #[trigger] rest_of(bytes)[j]
            != EOT by {
            assert(bytes[j] != EOT);
        }
    }
}

/// A frame followed by more bytes is still the first frame, and the bytes
/// after it are framed on their own.
pub proof fn law_frame_then_stream(frame: Seq<u8>, more: Seq<u8>)
    requires
        is_frame(frame),
    ensures
        frames_of(frame + more) == seq![frame] + frames_of(more),
        rest_of(frame + more) == rest_of(more),
{
    let all = frame + more;
    lemma_first_delimiter(all, 0);
    let at = first_delimiter(all, 0);
    assert(all[frame.len() - 1] == EOT);
    assert(at == frame.len() - 1) by {
        if at < frame.len() - 1 {
            assert(all[at] == frame[at]);
        }
    }
    assert(head_frame(all) == frame);
    assert(after_head(all) == more);
}

/// The first delimiter of a stream that has one stays the first when more
/// bytes follow.
proof fn lemma_first_delimiter_extends(a: Seq<u8>, b: Seq<u8>, from: int)
    requires
        0 <= from <= a.len(),
    ensures
        first_delimiter(a, from) < a.len() ==> first_delimiter(a + b, from) == first_delimiter(
            a,
            from,
        ),
        first_delimiter(a, from) == a.len() ==> first_delimiter(a + b, from) == a.len()
            + first_delimiter(b, 0),
    decreases a.len() - from,
{
    if from < a.len() {
        assert((a + b)[from] == a[from]);
        if a[from] != EOT {
            lemma_first_delimiter_extends(a, b, from + 1);
        }
    } else {
        lemma_shifted_delimiter(a, b, 0);
    }
}

/// Looking for a delimiter in what follows `a` is looking for one in `b`.
proof fn lemma_shifted_delimiter(a: Seq<u8>, b: Seq<u8>, from: int)
    requires
        0 <= from <= b.len(),
    ensures
        first_delimiter(a + b, a.len() + from) == a.len() + first_delimiter(b, from),
    decreases b.len() - from,
{
    if from < b.len() {
        assert((a + b)[a.len() + from] == b[from]);
        if b[from] != EOT {
            lemma_shifted_delimiter(a, b, from + 1);
        }
    }
}

/// Framing does not depend on how the stream arrives: the frames of two
/// pieces received one after the other are the frames of the first piece,
/// then the frames of what the first piece left over followed by the second.
pub proof fn law_chunking(a: Seq<u8>, b: Seq<u8>)
    ensures
        frames_of(a + b) == frames_of(a) + frames_of(rest_of(a) + b),
        rest_of(a + b) == rest_of(rest_of(a) + b),
    decreases a.len(),
{
    lemma_first_delimiter(a, 0);
    lemma_first_delimiter_extends(a, b, 0);
    if has_frame(a) {
        let tail = after_head(a);
        law_chunking(tail, b);
        assert(has_frame(a + b));
        assert(head_frame(a + b) == head_frame(a));
        assert(after_head(a + b) == tail + b);
        assert(frames_of(a + b) == seq![head_frame(a)] + frames_of(tail + b));
        assert(frames_of(a) == seq![head_frame(a)] + frames_of(tail));
        assert(seq![head_frame(a)] + (frames_of(tail) + frames_of(rest_of(tail) + b)) == (
        seq![head_frame(a)] + frames_of(tail)) + frames_of(rest_of(tail) + b));
    } else {
        assert(frames_of(a) == Seq::<Seq<u8>>::empty());
        assert(frames_of(a) + frames_of(a + b) == frames_of(a + b));
    }
}

impl FrameBuffer {
    /// Takes every whole frame out of the buffer, in order, and leaves what
    /// follows the last of them.
    pub fn drain(&mut self) -> (r: Vec<Vec<u8>>)
        ensures
            frames_view(r@) == frames_of(old(self)@),
            final(self)@ == rest_of(old(self)@),
    {
        let mut frames: Vec<Vec<u8>> = Vec::new();
        assert(frames_view(frames@) == Seq::<Seq<u8>>::empty());
        loop
            invariant
                frames_view(frames@) + frames_of(self@) == frames_of(old(self)@),
                rest_of(self@) == rest_of(old(self)@),
            ensures
                frames_view(frames@) == frames_of(old(self)@),
                self@ == rest_of(old(self)@),
            decreases self@.len(),
        {
            let ghost before = self@;
            let ghost taken = frames_view(frames@);
            proof {
                lemma_first_delimiter(before, 0);
            }
            match self.next_frame() {
                Some(frame) => {
                    frames.push(frame);
                    assert(frames_view(frames@) == taken + seq![head_frame(before)]);
                    assert((taken + seq![head_frame(before)]) + frames_of(after_head(before))
                        == taken + (seq![head_frame(before)] + frames_of(after_head(before))));
                },
                None => {
                    assert(frames_of(before) == Seq::<Seq<u8>>::empty());
                    assert(taken + frames_of(before) == taken);
                    break ;
                },
            }
        }
        frames
    }
}

} // verus!
