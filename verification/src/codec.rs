//! The wire codec: topic-tagged, length-prefixed frames over a byte stream.
//! A frame is an 8-byte big-endian payload length, an 8-byte big-endian topic
//! length, the topic bytes, then the payload bytes. The decoder works over a
//! growable accumulator fed by successive stream reads: it emits every frame
//! the buffered bytes complete — a frame is complete only when header, topic
//! and payload are all buffered — and keeps the remainder for the next read.

use vstd::prelude::*;
use vstd::string::StringSliceAdditionalSpecFns;

verus! {

/// The eight bytes of `x`, most significant first.
pub open spec fn spec_u64_to_be_bytes(x: u64) -> Seq<u8> {
    seq![
        (x >> 56) as u8,
        (x >> 48) as u8,
        (x >> 40) as u8,
        (x >> 32) as u8,
        (x >> 24) as u8,
        (x >> 16) as u8,
        (x >> 8) as u8,
        x as u8,
    ]
}

/// The value whose big-endian bytes are `s`.
pub open spec fn spec_u64_from_be_bytes(s: Seq<u8>) -> u64
    recommends
        s.len() == 8,
{
    ((s[0] as u64) << 56) | ((s[1] as u64) << 48) | ((s[2] as u64) << 40) | ((s[3] as u64) << 32)
        | ((s[4] as u64) << 24) | ((s[5] as u64) << 16) | ((s[6] as u64) << 8) | (s[7] as u64)
}

/// Reading back the big-endian bytes of `x` recovers `x`.
pub proof fn lemma_u64_be_bytes_round_trip(x: u64)
    ensures
        spec_u64_from_be_bytes(spec_u64_to_be_bytes(x)) == x,
{
    let s = spec_u64_to_be_bytes(x);
    assert(s[0] == (x >> 56) as u8);
    assert(s[1] == (x >> 48) as u8);
    assert(s[2] == (x >> 40) as u8);
    assert(s[3] == (x >> 32) as u8);
    assert(s[4] == (x >> 24) as u8);
    assert(s[5] == (x >> 16) as u8);
    assert(s[6] == (x >> 8) as u8);
    assert(s[7] == x as u8);
    assert((((x >> 56) as u8 as u64) << 56) | (((x >> 48) as u8 as u64) << 48) | (((x >> 40) as u8
        as u64) << 40) | (((x >> 32) as u8 as u64) << 32) | (((x >> 24) as u8 as u64) << 24) | (((x
        >> 16) as u8 as u64) << 16) | (((x >> 8) as u8 as u64) << 8) | (x as u8 as u64) == x)
        by (bit_vector);
}

/// Writes `x` as eight big-endian bytes.
pub fn u64_to_be_bytes(x: u64) -> (r: Vec<u8>)
    ensures
        r@ == spec_u64_to_be_bytes(x),
{
    let mut r: Vec<u8> = Vec::new();
    r.push(#[verifier::truncate] ((x >> 56) as u8));
    r.push(#[verifier::truncate] ((x >> 48) as u8));
    r.push(#[verifier::truncate] ((x >> 40) as u8));
    r.push(#[verifier::truncate] ((x >> 32) as u8));
    r.push(#[verifier::truncate] ((x >> 24) as u8));
    r.push(#[verifier::truncate] ((x >> 16) as u8));
    r.push(#[verifier::truncate] ((x >> 8) as u8));
    r.push(#[verifier::truncate] (x as u8));
    proof {
        assert(r@ =~= spec_u64_to_be_bytes(x));
    }
    r
}

/// Reads the eight big-endian bytes of `buf` starting at `off`.
pub fn u64_from_be_bytes_at(buf: &Vec<u8>, off: usize) -> (x: u64)
    requires
        off + 8 <= buf@.len(),
    ensures
        x == spec_u64_from_be_bytes(buf@.subrange(off as int, off + 8)),
{
    let n = buf.len();
    assert(off + 8 <= n);
    let x = ((buf[off] as u64) << 56) | ((buf[off + 1] as u64) << 48) | ((buf[off + 2] as u64)
        << 40) | ((buf[off + 3] as u64) << 32) | ((buf[off + 4] as u64) << 24) | ((buf[off + 5]
        as u64) << 16) | ((buf[off + 6] as u64) << 8) | (buf[off + 7] as u64);
    proof {
        let s = buf@.subrange(off as int, off + 8);
        assert(s[0] == buf@[off as int]);
        assert(s[1] == buf@[off + 1]);
        assert(s[2] == buf@[off + 2]);
        assert(s[3] == buf@[off + 3]);
        assert(s[4] == buf@[off + 4]);
        assert(s[5] == buf@[off + 5]);
        assert(s[6] == buf@[off + 6]);
        assert(s[7] == buf@[off + 7]);
    }
    x
}

/// The byte layout of one frame: payload length, topic length, topic bytes,
/// payload bytes.
pub open spec fn spec_frame(topic: Seq<u8>, payload: Seq<u8>) -> Seq<u8> {
    spec_u64_to_be_bytes(payload.len() as u64) + spec_u64_to_be_bytes(topic.len() as u64) + topic
        + payload
}

/// Encodes one topic-tagged payload as a frame.
pub fn encode_frame(topic: &Vec<u8>, payload: &Vec<u8>) -> (r: Vec<u8>)
    ensures
        r@ == spec_frame(topic@, payload@),
{
    let mut r = u64_to_be_bytes(payload.len() as u64);
    let mut topic_len_bytes = u64_to_be_bytes(topic.len() as u64);
    r.append(&mut topic_len_bytes);
    let mut i: usize = 0;
    let ghost head = spec_u64_to_be_bytes(payload@.len() as u64) + spec_u64_to_be_bytes(
        topic@.len() as u64,
    );
    while i < topic.len()
        invariant
            0 <= i <= topic@.len(),
            r@ == head + topic@.subrange(0, i as int),
        decreases topic@.len() - i,
    {
        r.push(topic[i]);
        proof {
            assert(r@ =~= head + topic@.subrange(0, i + 1));
        }
        i += 1;
    }
    proof {
        assert(topic@.subrange(0, topic@.len() as int) =~= topic@);
    }
    let mut j: usize = 0;
    while j < payload.len()
        invariant
            0 <= j <= payload@.len(),
            r@ == head + topic@ + payload@.subrange(0, j as int),
        decreases payload@.len() - j,
    {
        r.push(payload[j]);
        proof {
            assert(r@ =~= head + topic@ + payload@.subrange(0, j + 1));
        }
        j += 1;
    }
    proof {
        assert(payload@.subrange(0, payload@.len() as int) =~= payload@);
        assert(r@ =~= spec_frame(topic@, payload@));
    }
    r
}

/// Encodes one payload under a text topic: the frame carries the topic's
/// UTF-8 bytes.
pub fn encode_for_topic(topic: &str, payload: &Vec<u8>) -> (r: Vec<u8>)
    ensures
        r@ == spec_frame(topic.spec_bytes(), payload@),
{
    let topic_bytes = topic.as_bytes_vec();
    encode_frame(&topic_bytes, payload)
}

/// One decoded frame: the topic it was tagged with and its payload.
#[derive(Clone, Debug, PartialEq)]
pub struct Frame {
    pub topic: Vec<u8>,
    pub payload: Vec<u8>,
}

impl View for Frame {
    type V = (Seq<u8>, Seq<u8>);

    open spec fn view(&self) -> (Seq<u8>, Seq<u8>) {
        (self.topic@, self.payload@)
    }
}

/// The topic/payload pairs of a sequence of frames.
pub open spec fn frames_views(frames: Seq<Frame>) -> Seq<(Seq<u8>, Seq<u8>)> {
    frames.map_values(|f: Frame| f@)
}

/// Every frame the buffered bytes complete, in order, and the bytes left
/// over. A frame is complete only when the 16 header bytes, the topic and
/// the payload are all buffered; the header fields alone never complete one.
pub open spec fn spec_decode(buf: Seq<u8>) -> (Seq<(Seq<u8>, Seq<u8>)>, Seq<u8>)
    decreases buf.len(),
{
    if buf.len() < 16 {
        (Seq::empty(), buf)
    } else {
        let payload_len = spec_u64_from_be_bytes(buf.subrange(0, 8)) as int;
        let topic_len = spec_u64_from_be_bytes(buf.subrange(8, 16)) as int;
        if buf.len() < 16 + topic_len + payload_len {
            (Seq::empty(), buf)
        } else {
            let topic = buf.subrange(16, 16 + topic_len);
            let payload = buf.subrange(16 + topic_len, 16 + topic_len + payload_len);
            let rest = spec_decode(buf.skip(16 + topic_len + payload_len));
            (seq![(topic, payload)] + rest.0, rest.1)
        }
    }
}

/// The growable accumulator a subscriber feeds with successive stream reads.
pub struct FrameBuffer {
    buf: Vec<u8>,
}

impl View for FrameBuffer {
    type V = Seq<u8>;

    closed spec fn view(&self) -> Seq<u8> {
        self.buf@
    }
}

impl FrameBuffer {
    /// An empty accumulator.
    pub fn new() -> (r: FrameBuffer)
        ensures
            r@ == Seq::<u8>::empty(),
    {
        FrameBuffer { buf: Vec::new() }
    }

    /// How many bytes are buffered.
    pub fn len(&self) -> (n: usize)
        ensures
            n == self@.len(),
    {
        self.buf.len()
    }

    /// Appends one stream read to the accumulator.
    pub fn feed(&mut self, data: &Vec<u8>)
        ensures
            final(self)@ == old(self)@ + data@,
    {
        let mut i: usize = 0;
        proof {
            assert(self.buf@ =~= old(self).buf@ + data@.subrange(0, 0));
        }
        while i < data.len()
            invariant
                0 <= i <= data@.len(),
                self.buf@ == old(self).buf@ + data@.subrange(0, i as int),
            decreases data@.len() - i,
        {
            self.buf.push(data[i]);
            proof {
                assert(self.buf@ =~= old(self).buf@ + data@.subrange(0, i + 1));
            }
            i += 1;
        }
        proof {
            assert(data@.subrange(0, data@.len() as int) =~= data@);
        }
    }

    /// Removes and returns every complete frame at the front of the
    /// accumulator, leaving the bytes that no frame completes yet.
    pub fn decode_frames(&mut self) -> (frames: Vec<Frame>)
        ensures
            frames_views(frames@) == spec_decode(old(self)@).0,
            final(self)@ == spec_decode(old(self)@).1,
    {
        let mut frames: Vec<Frame> = Vec::new();
        proof {
            assert(frames_views(frames@) =~= Seq::<(Seq<u8>, Seq<u8>)>::empty());
            assert(frames_views(frames@) + spec_decode(self.buf@).0 =~= spec_decode(self.buf@).0);
        }
        loop
            invariant
                spec_decode(old(self)@).0 == frames_views(frames@) + spec_decode(self.buf@).0,
                spec_decode(old(self)@).1 == spec_decode(self.buf@).1,
            ensures
                frames_views(frames@) == spec_decode(old(self)@).0,
                self.buf@ == spec_decode(old(self)@).1,
            decreases self.buf@.len(),
        {
            let ghost cur = self.buf@;
            let n = self.buf.len();
            if n < 16 {
                proof {
                    assert(spec_decode(cur).0 =~= Seq::<(Seq<u8>, Seq<u8>)>::empty());
                    assert(frames_views(frames@) + spec_decode(cur).0 =~= frames_views(frames@));
                }
                break;
            }
            let payload_len = u64_from_be_bytes_at(&self.buf, 0);
            let topic_len = u64_from_be_bytes_at(&self.buf, 8);
            if (topic_len as u128) + (payload_len as u128) + 16 > (n as u128) {
                proof {
                    assert(spec_decode(cur).0 =~= Seq::<(Seq<u8>, Seq<u8>)>::empty());
                    assert(frames_views(frames@) + spec_decode(cur).0 =~= frames_views(frames@));
                }
                break;
            }
            let t = topic_len as usize;
            let p = payload_len as usize;
            proof {
                assert(t == topic_len && p == payload_len);
                assert(16 + t + p <= n);
            }
            let mut topic: Vec<u8> = Vec::new();
            let mut i: usize = 0;
            proof {
                assert(topic@ =~= cur.subrange(16int, 16int));
            }
            while i < t
                invariant
                    0 <= i <= t,
                    n == cur.len(),
                    16 + t + p <= n,
                    self.buf@ == cur,
                    topic@ == cur.subrange(16, 16 + i),
                decreases t - i,
            {
                topic.push(self.buf[16 + i]);
                proof {
                    assert(topic@ =~= cur.subrange(16, 16 + i + 1));
                }
                i += 1;
            }
            let mut payload: Vec<u8> = Vec::new();
            let mut j: usize = 0;
            proof {
                assert(payload@ =~= cur.subrange(16 + t as int, 16 + t as int));
            }
            while j < p
                invariant
                    0 <= j <= p,
                    n == cur.len(),
                    16 + t + p <= n,
                    self.buf@ == cur,
                    payload@ == cur.subrange(16 + t as int, 16 + t + j),
                decreases p - j,
            {
                payload.push(self.buf[16 + t + j]);
                proof {
                    assert(payload@ =~= cur.subrange(16 + t as int, 16 + t + j + 1));
                }
                j += 1;
            }
            let tail = self.buf.split_off(16 + t + p);
            self.buf = tail;
            let ghost old_views = frames_views(frames@);
            frames.push(Frame { topic, payload });
            proof {
                assert(self.buf@ =~= cur.skip(16 + t + p));
                assert(frames_views(frames@) =~= old_views + seq![
                    (cur.subrange(16, 16 + t as int), cur.subrange(16 + t as int, 16 + t + p)),
                ]);
                assert(spec_decode(old(self)@).0 =~= frames_views(frames@) + spec_decode(
                    self.buf@,
                ).0);
            }
        }
        frames
    }
}

/// A decoded stream opens with the frame its bytes open with: decoding
/// `spec_frame(topic, payload) + rest` yields `(topic, payload)` first and
/// then whatever `rest` alone yields, with the same bytes left over.
pub proof fn lemma_decode_frame_prefix(topic: Seq<u8>, payload: Seq<u8>, rest: Seq<u8>)
    requires
        topic.len() <= u64::MAX,
        payload.len() <= u64::MAX,
    ensures
        spec_decode(spec_frame(topic, payload) + rest).0 == seq![(topic, payload)] + spec_decode(
            rest,
        ).0,
        spec_decode(spec_frame(topic, payload) + rest).1 == spec_decode(rest).1,
{
    let buf = spec_frame(topic, payload) + rest;
    let t = topic.len() as int;
    let p = payload.len() as int;
    assert(buf.len() == 16 + t + p + rest.len());
    assert(buf.subrange(0, 8) =~= spec_u64_to_be_bytes(payload.len() as u64));
    assert(buf.subrange(8, 16) =~= spec_u64_to_be_bytes(topic.len() as u64));
    lemma_u64_be_bytes_round_trip(payload.len() as u64);
    lemma_u64_be_bytes_round_trip(topic.len() as u64);
    assert(buf.subrange(16, 16 + t) =~= topic);
    assert(buf.subrange(16 + t, 16 + t + p) =~= payload);
    assert(buf.skip(16 + t + p) =~= rest);
    assert(spec_decode(buf).0 =~= seq![(topic, payload)] + spec_decode(rest).0);
}

/// Round trip: decoding an encoded frame yields exactly that one frame —
/// the same topic and the same payload, byte for byte — and consumes every
/// buffered byte. This holds for an empty payload and for arbitrary payload
/// bytes alike.
pub proof fn lemma_encode_decode_round_trip(topic: Seq<u8>, payload: Seq<u8>)
    requires
        topic.len() <= u64::MAX,
        payload.len() <= u64::MAX,
    ensures
        spec_decode(spec_frame(topic, payload)).0 == seq![(topic, payload)],
        spec_decode(spec_frame(topic, payload)).1 == Seq::<u8>::empty(),
{
    lemma_decode_frame_prefix(topic, payload, Seq::<u8>::empty());
    assert(spec_frame(topic, payload) + Seq::<u8>::empty() =~= spec_frame(topic, payload));
    assert(spec_decode(Seq::<u8>::empty()).0 =~= Seq::<(Seq<u8>, Seq<u8>)>::empty());
    assert(seq![(topic, payload)] + Seq::<(Seq<u8>, Seq<u8>)>::empty() =~= seq![
        (topic, payload),
    ]);
}

/// Partial-frame tolerance: any proper prefix of an encoded frame decodes to
/// no frame at all and stays buffered untouched. Together with the
/// accumulator's contracts this says that a frame delivered split at any
/// byte boundary — one byte at a time included — yields exactly one decoded
/// frame once the last byte arrives, and nothing before.
pub proof fn lemma_decode_partial_frame(topic: Seq<u8>, payload: Seq<u8>, n: int)
    requires
        topic.len() <= u64::MAX,
        payload.len() <= u64::MAX,
        0 <= n < spec_frame(topic, payload).len(),
    ensures
        spec_decode(spec_frame(topic, payload).take(n)).0 == Seq::<(Seq<u8>, Seq<u8>)>::empty(),
        spec_decode(spec_frame(topic, payload).take(n)).1 == spec_frame(topic, payload).take(n),
        spec_frame(topic, payload).take(n) + spec_frame(topic, payload).skip(n) == spec_frame(
            topic,
            payload,
        ),
{
    let f = spec_frame(topic, payload);
    let s = f.take(n);
    assert(f.take(n) + f.skip(n) =~= f);
    let t = topic.len() as int;
    let p = payload.len() as int;
    assert(f.len() == 16 + t + p);
    if n < 16 {
    } else {
        assert(s.subrange(0, 8) =~= f.subrange(0, 8));
        assert(s.subrange(8, 16) =~= f.subrange(8, 16));
        assert(f.subrange(0, 8) =~= spec_u64_to_be_bytes(payload.len() as u64));
        assert(f.subrange(8, 16) =~= spec_u64_to_be_bytes(topic.len() as u64));
        lemma_u64_be_bytes_round_trip(payload.len() as u64);
        lemma_u64_be_bytes_round_trip(topic.len() as u64);
        assert(s.len() < 16 + t + p);
    }
}

/// Multi-frame batching: two frames arriving concatenated in one read decode
/// to exactly those two frames, in order, with nothing left over.
pub proof fn lemma_decode_two_frames(t1: Seq<u8>, p1: Seq<u8>, t2: Seq<u8>, p2: Seq<u8>)
    requires
        t1.len() <= u64::MAX,
        p1.len() <= u64::MAX,
        t2.len() <= u64::MAX,
        p2.len() <= u64::MAX,
    ensures
        spec_decode(spec_frame(t1, p1) + spec_frame(t2, p2)).0 == seq![(t1, p1), (t2, p2)],
        spec_decode(spec_frame(t1, p1) + spec_frame(t2, p2)).1 == Seq::<u8>::empty(),
{
    lemma_decode_frame_prefix(t1, p1, spec_frame(t2, p2));
    lemma_encode_decode_round_trip(t2, p2);
    assert(seq![(t1, p1)] + seq![(t2, p2)] =~= seq![(t1, p1), (t2, p2)]);
}

} // verus!
