//! The framed audio stream that the voice session plays from: one frame
//! after the other, each a length of two bytes, low byte first, and then as
//! many bytes of payload.

use vstd::prelude::*;

verus! {

/// The longest payload that a frame can carry: its length has to fit a
/// signed number of sixteen bits.
pub const MAX_FRAME_LEN: usize = 32767;

/// The two bytes that announce a payload of `len` bytes.
pub open spec fn frame_header(len: nat) -> Seq<u8> {
    seq![(len % 256) as u8, (len / 256) as u8]
}

/// The frame that carries `payload`.
pub open spec fn frame(payload: Seq<u8>) -> Seq<u8> {
    frame_header(payload.len()) + payload
}

/// The stream that carries `payloads`, one frame each, in their order.
pub open spec fn frames(payloads: Seq<Seq<u8>>) -> Seq<u8>
    decreases payloads.len(),
{
    if payloads.len() == 0 {
        Seq::empty()
    } else {
        frames(payloads.drop_last()) + frame(payloads.last())
    }
}

/// Whether each of `payloads` fits a frame.
pub open spec fn frameable(payloads: Seq<Seq<u8>>) -> bool {
    forall|i: int| 0 <= i < payloads.len() ==> (#[trigger] payloads[i]).len() <= MAX_FRAME_LEN
}

/// The payloads that a reader finds in `stream`: it reads a length, takes as
/// many bytes, and goes on behind them until the stream ends or breaks off
/// in the middle of a frame.
pub open spec fn unframed(stream: Seq<u8>) -> Seq<Seq<u8>>
    decreases stream.len(),
{
    if stream.len() < 2 {
        Seq::empty()
    } else {
        let len = stream[0] as int + 256 * (stream[1] as int);
        if stream.len() < 2 + len {
            Seq::empty()
        } else {
            seq![stream.subrange(2, 2 + len)] + unframed(stream.subrange(2 + len, stream.len() as int))
        }
    }
}

/// A framed audio stream under construction.
pub struct DcaWrapper {
    raw: Vec<u8>,
}

impl View for DcaWrapper {
    type V = Seq<u8>;

    /// The bytes written so far.
    closed spec fn view(&self) -> Seq<u8> {
        self.raw@
    }
}

impl DcaWrapper {
    /// A stream without a frame.
    pub fn new() -> (dca: Self)
        ensures
            dca@ == Seq::<u8>::empty(),
    {
        DcaWrapper { raw: Vec::new() }
    }

    /// Appends one frame with `data` as its payload. A payload that is too
    /// long for a frame is not written, and the stream stays as it is.
    pub fn write_audio_data(&mut self, data: &[u8]) -> (written: bool)
        ensures
            written == (data@.len() <= MAX_FRAME_LEN),
            final(self)@ == if written {
                old(self)@ + frame(data@)
            } else {
                old(self)@
            },
    {
        let len = data.len();
        if len > MAX_FRAME_LEN {
            return false;
        }
        self.raw.push((len % 256) as u8);
        self.raw.push((len / 256) as u8);
        let mut i: usize = 0;
        while i < len
            invariant
                i <= len,
                len == data@.len(),
                self.raw@ == old(self).raw@ + frame_header(len as nat) + data@.subrange(0, i as int),
            decreases len - i,
        {
            self.raw.push(data[i]);
            i = i + 1;
        }
        true
    }

    /// The finished stream.
    pub fn raw(self) -> (bytes: Vec<u8>)
        ensures
            bytes@ == self@,
    {
        self.raw
    }
}

/// A stream grows by one frame at its end.
pub proof fn lemma_frames_push(payloads: Seq<Seq<u8>>, payload: Seq<u8>)
    ensures
        frames(payloads.push(payload)) == frames(payloads) + frame(payload),
{
    assert(payloads.push(payload).drop_last() =~= payloads);
}

/// A stream of one frame and more is that frame and then the stream of the
/// others.
pub proof fn lemma_frames_front(payloads: Seq<Seq<u8>>)
    requires
        payloads.len() > 0,
    ensures
        frames(payloads) == frame(payloads[0]) + frames(payloads.drop_first()),
    decreases payloads.len(),
{
    if payloads.len() == 1 {
        assert(payloads.drop_last() =~= Seq::<Seq<u8>>::empty());
        assert(payloads.drop_first() =~= Seq::<Seq<u8>>::empty());
    } else {
        let init = payloads.drop_last();
        lemma_frames_front(init);
        assert(init.drop_first() =~= payloads.drop_first().drop_last());
    }
}

/// Framing loses nothing: a reader of the stream finds the payloads that
/// were written, each as it was and in the order of writing.
pub proof fn lemma_unframed_frames(payloads: Seq<Seq<u8>>)
    requires
        frameable(payloads),
    ensures
        unframed(frames(payloads)) == payloads,
    decreases payloads.len(),
{
    if payloads.len() > 0 {
        let first = payloads[0];
        let rest = payloads.drop_first();
        let stream = frames(payloads);
        let len = first.len() as int;
        lemma_frames_front(payloads);
        lemma_unframed_frames(rest);
        assert(stream.subrange(2, 2 + len) =~= first);
        assert(stream.subrange(2 + len, stream.len() as int) =~= frames(rest));
    }
}

} // verus!
