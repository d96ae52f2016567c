//! Frames of the radio link: a head byte, the packet id, the payload length
//! as a big-endian `u32`, then the payload.
use crate::wire::{be_u32_at, push_u32_be, read_u32_be, u32_be_bytes};
use vstd::prelude::*;

verus! {

/// The byte that opens every frame.
pub const PACKET_HEAD: u8 = 0xAA;

/// A packet id with its payload, as carried by one frame.
pub struct PacketFrame {
    pub id: u8,
    pub data: Vec<u8>,
}

impl View for PacketFrame {
    type V = (u8, Seq<u8>);

    open spec fn view(&self) -> (u8, Seq<u8>) {
        (self.id, self.data@)
    }
}

/// The bytes of a frame on the wire. The length field holds the payload
/// length truncated to 32 bits.
pub open spec fn spec_encode_frame(f: (u8, Seq<u8>)) -> Seq<u8> {
    seq![PACKET_HEAD, f.0] + u32_be_bytes(f.1.len() as u32) + f.1
}

/// The frame that starts at the first byte of `s`, where `s[0]` is the head,
/// with the number of bytes it spans; `None` while `s` holds too few bytes.
pub open spec fn frame_at(s: Seq<u8>) -> Option<(int, (u8, Seq<u8>))> {
    if s.len() >= 6 && s.len() >= 6 + be_u32_at(s, 2) {
        let n = 6 + be_u32_at(s, 2);
        Some((n, (s[1], s.subrange(6, n))))
    } else {
        None
    }
}

/// The first complete frame of a byte stream, with the number of bytes up to
/// its end. Bytes before the first head byte are skipped; once a head byte
/// is found, the bytes after it are the id, the length and the payload,
/// whatever their values.
pub open spec fn scan_frame(s: Seq<u8>) -> Option<(int, (u8, Seq<u8>))>
    decreases s.len(),
{
    if s.len() == 0 {
        None
    } else if s[0] == PACKET_HEAD {
        frame_at(s)
    } else {
        match scan_frame(s.drop_first()) {
            Some((n, f)) => Some((n + 1, f)),
            None => None,
        }
    }
}

/// Writes a frame to bytes.
pub fn encode_frame(frame: &PacketFrame) -> (out: Vec<u8>)
    ensures
        out@ == spec_encode_frame(frame@),
{
    let mut out: Vec<u8> = Vec::new();
    out.push(PACKET_HEAD);
    out.push(frame.id);
    push_u32_be(&mut out, frame.data.len() as u32);
    let ghost prefix = out@;
    let mut i: usize = 0;
    while i < frame.data.len()
        invariant
            i <= frame.data@.len(),
            prefix == seq![PACKET_HEAD, frame.id] + u32_be_bytes(frame.data@.len() as u32),
            out@ == prefix + frame.data@.take(i as int),
        decreases frame.data@.len() - i,
    {
        out.push(frame.data[i]);
        i = i + 1;
        assert(out@ =~= prefix + frame.data@.take(i as int));
    }
    assert(frame.data@.take(i as int) =~= frame.data@);
    assert(out@ =~= spec_encode_frame(frame@));
    out
}


/// The view of a frame that may have been completed.
pub open spec fn frame_option_view(r: Option<PacketFrame>) -> Option<(u8, Seq<u8>)> {
    match r {
        Some(f) => Some(f@),
        None => None,
    }
}

/// One byte of input to a decoder holding the bytes `pending`: the frame it
/// completes, if any, and the bytes the decoder holds afterwards. A
/// completed frame consumes every pending byte.
pub open spec fn decode_step(pending: Seq<u8>, b: u8) -> (Option<(u8, Seq<u8>)>, Seq<u8>) {
    match scan_frame(pending.push(b)) {
        Some((_, f)) => (Some(f), Seq::empty()),
        None => (None, pending.push(b)),
    }
}

/// The frames a decoder holding `pending` completes while it reads `bytes`,
/// in order, and the bytes it holds at the end.
pub open spec fn decode_run(pending: Seq<u8>, bytes: Seq<u8>) -> (Seq<(u8, Seq<u8>)>, Seq<u8>)
    decreases bytes.len(),
{
    if bytes.len() == 0 {
        (Seq::empty(), pending)
    } else {
        let (out, next) = decode_step(pending, bytes[0]);
        let (frames, rest) = decode_run(next, bytes.drop_first());
        match out {
            Some(f) => (seq![f] + frames, rest),
            None => (frames, rest),
        }
    }
}

/// `s` holds no head byte.
pub open spec fn no_head(s: Seq<u8>) -> bool {
    forall|i: int| 0 <= i < s.len() ==> s[i] != PACKET_HEAD
}

/// The first head byte of `s` stands at `start`.
pub open spec fn first_head_at(s: Seq<u8>, start: int) -> bool {
    &&& 0 <= start < s.len()
    &&& s[start] == PACKET_HEAD
    &&& no_head(s.take(start))
}

/// A scan result moved `k` bytes later in the stream.
pub open spec fn shift_scan(r: Option<(int, (u8, Seq<u8>))>, k: int) -> Option<(int, (u8, Seq<u8>))> {
    match r {
        Some((n, f)) => Some((n + k, f)),
        None => None,
    }
}

/// A stream without a head byte holds no frame.
pub proof fn lemma_scan_no_head(s: Seq<u8>)
    requires
        no_head(s),
    ensures
        scan_frame(s) is None,
    decreases s.len(),
{
    if s.len() > 0 {
        lemma_scan_no_head(s.drop_first());
    }
}

/// Bytes before the first head byte only delay the frame.
pub proof fn lemma_scan_skip(s: Seq<u8>, k: int)
    requires
        0 <= k <= s.len(),
        no_head(s.take(k)),
    ensures
        scan_frame(s) == shift_scan(scan_frame(s.skip(k)), k),
    decreases k,
{
    if k == 0 {
        assert(s.skip(0) =~= s);
    } else {
        assert(s[0] == s.take(k)[0]);
        let t = s.drop_first();
        assert(no_head(t.take(k - 1))) by {
            assert forall|i: int| 0 <= i < t.take(k - 1).len() implies #[trigger] t.take(k - 1)[i] != PACKET_HEAD by {
                assert(t.take(k - 1)[i] == s.take(k)[i + 1]);
            }
        }
        lemma_scan_skip(t, k - 1);
        assert(t.skip(k - 1) =~= s.skip(k));
    }
}

/// From its first head byte on, a stream is read as one frame.
pub proof fn lemma_scan_from_head(s: Seq<u8>, start: int)
    requires
        first_head_at(s, start),
    ensures
        scan_frame(s) == shift_scan(frame_at(s.skip(start)), start),
{
    lemma_scan_skip(s, start);
    assert(s.skip(start)[0] == s[start]);
}

enum DecodeState {
    Seeking,
    Id,
    Length { id: u8, got: Vec<u8> },
    Data { id: u8, len: u32, data: Vec<u8> },
}

/// Reads frames from a byte stream one byte at a time, as the radio's serial
/// port delivers them.
pub struct FrameDecoder {
    state: DecodeState,
    pending: Ghost<Seq<u8>>,
    start: Ghost<int>,
}

impl View for FrameDecoder {
    type V = Seq<u8>;

    /// The bytes read since the last completed frame.
    closed spec fn view(&self) -> Seq<u8> {
        self.pending@
    }
}

impl FrameDecoder {
    /// The decoder's state agrees with the bytes it holds.
    #[verifier::type_invariant]
    spec fn inv(&self) -> bool {
        let p = self.pending@;
        let st = self.start@;
        match self.state {
            DecodeState::Seeking => no_head(p),
            DecodeState::Id => first_head_at(p, st) && p.len() == st + 1,
            DecodeState::Length { id, got } => {
                &&& first_head_at(p, st)
                &&& got@.len() < 4
                &&& p.len() == st + 2 + got@.len()
                &&& p[st + 1] == id
                &&& p.subrange(st + 2, p.len() as int) == got@
            },
            DecodeState::Data { id, len, data } => {
                &&& first_head_at(p, st)
                &&& data@.len() < len
                &&& p.len() == st + 6 + data@.len()
                &&& p[st + 1] == id
                &&& be_u32_at(p, st + 2) == len
                &&& p.subrange(st + 6, p.len() as int) == data@
            },
        }
    }

    /// A decoder that holds no bytes.
    pub fn new() -> (d: FrameDecoder)
        ensures
            d@ == Seq::<u8>::empty(),
            scan_frame(d@) is None,
    {
        FrameDecoder { state: DecodeState::Seeking, pending: Ghost(Seq::empty()), start: Ghost(0) }
    }

    /// A decoder never holds a complete frame.
    proof fn lemma_inv_holds_no_frame(&self)
        requires
            self.inv(),
        ensures
            scan_frame(self@) is None,
    {
        let p = self.pending@;
        let st = self.start@;
        match self.state {
            DecodeState::Seeking => lemma_scan_no_head(p),
            _ => {
                lemma_scan_from_head(p, st);
                let t = p.skip(st);
                if t.len() >= 6 {
                    assert(be_u32_at(t, 2) == be_u32_at(p, st + 2));
                }
            },
        }
    }

    /// Reads one byte; returns the frame that this byte completes.
    pub fn push(&mut self, byte: u8) -> (r: Option<PacketFrame>)
        ensures
            (frame_option_view(r), final(self)@) == decode_step(old(self)@, byte),
            scan_frame(final(self)@) is None,
    {
        proof {
            use_type_invariant(&*self);
        }
        let mut d = FrameDecoder::new();
        proof {
            use_type_invariant(&d);
        }
        std::mem::swap(&mut d, self);
        let FrameDecoder { state, pending, start } = d;
        let ghost p = pending@;
        let ghost st = start@;
        let ghost q = p.push(byte);
        let r = match state {
            DecodeState::Seeking => {
                if byte == PACKET_HEAD {
                    proof {
                        assert(q.take(p.len() as int) =~= p);
                        lemma_scan_from_head(q, p.len() as int);
                    }
                    *self = FrameDecoder {
                        state: DecodeState::Id,
                        pending: Ghost(q),
                        start: Ghost(p.len() as int),
                    };
                } else {
                    proof {
                        lemma_scan_no_head(q);
                    }
                    *self = FrameDecoder { state: DecodeState::Seeking, pending: Ghost(q), start };
                }
                None
            },
            DecodeState::Id => {
                let got: Vec<u8> = Vec::new();
                proof {
                    assert(q.take(st) =~= p.take(st));
                    lemma_scan_from_head(q, st);
                    assert(q.subrange(st + 2, q.len() as int) =~= Seq::<u8>::empty());
                }
                *self = FrameDecoder {
                    state: DecodeState::Length { id: byte, got },
                    pending: Ghost(q),
                    start,
                };
                None
            },
            DecodeState::Length { id, mut got } => {
                got.push(byte);
                proof {
                    assert(q.take(st) =~= p.take(st));
                    assert(q.subrange(st + 2, q.len() as int) =~= got@);
                    lemma_scan_from_head(q, st);
                }
                if got.len() < 4 {
                    *self = FrameDecoder {
                        state: DecodeState::Length { id, got },
                        pending: Ghost(q),
                        start,
                    };
                    None
                } else {
                    let len = read_u32_be([got[0], got[1], got[2], got[3]]);
                    proof {
                        assert(got@[0] == q[st + 2]);
                        assert(got@[1] == q[st + 3]);
                        assert(got@[2] == q[st + 4]);
                        assert(got@[3] == q[st + 5]);
                        let t = q.skip(st);
                        assert(be_u32_at(t, 2) == len);
                    }
                    if len == 0 {
                        let data: Vec<u8> = Vec::new();
                        proof {
                            let t = q.skip(st);
                            assert(t.subrange(6, 6) =~= data@);
                            assert(no_head(Seq::<u8>::empty()));
                        }
                        *self = FrameDecoder {
                            state: DecodeState::Seeking,
                            pending: Ghost(Seq::empty()),
                            start: Ghost(0),
                        };
                        Some(PacketFrame { id, data })
                    } else {
                        let data: Vec<u8> = Vec::new();
                        proof {
                            assert(q.subrange(st + 6, q.len() as int) =~= data@);
                        }
                        *self = FrameDecoder {
                            state: DecodeState::Data { id, len, data },
                            pending: Ghost(q),
                            start,
                        };
                        None
                    }
                }
            },
            DecodeState::Data { id, len, mut data } => {
                data.push(byte);
                proof {
                    assert(q.take(st) =~= p.take(st));
                    assert(q.subrange(st + 6, q.len() as int) =~= data@);
                    lemma_scan_from_head(q, st);
                    let t = q.skip(st);
                    assert(be_u32_at(t, 2) == be_u32_at(q, st + 2));
                    assert(be_u32_at(q, st + 2) == be_u32_at(p, st + 2));
                    assert(t.subrange(6, t.len() as int) =~= data@);
                }
                if (data.len() as u64) < (len as u64) {
                    *self = FrameDecoder {
                        state: DecodeState::Data { id, len, data },
                        pending: Ghost(q),
                        start,
                    };
                    None
                } else {
                    proof {
                        assert(no_head(Seq::<u8>::empty()));
                    }
                    *self = FrameDecoder {
                        state: DecodeState::Seeking,
                        pending: Ghost(Seq::empty()),
                        start: Ghost(0),
                    };
                    Some(PacketFrame { id, data })
                }
            },
        };
        proof {
            use_type_invariant(&*self);
            self.lemma_inv_holds_no_frame();
        }
        r
    }
}


impl FrameDecoder {
    /// Reads a run of bytes; returns the frames they complete, in order.
    pub fn feed(&mut self, bytes: &[u8]) -> (frames: Vec<PacketFrame>)
        ensures
            scan_frame(final(self)@) is None,
            (frames@.map_values(|f: PacketFrame| f@), final(self)@) == decode_run(old(self)@, bytes@),
    {
        proof {
            use_type_invariant(&*self);
            self.lemma_inv_holds_no_frame();
        }
        let ghost p0 = self@;
        let mut frames: Vec<PacketFrame> = Vec::new();
        let mut i: usize = 0;
        assert(bytes@.skip(0) =~= bytes@);
        while i < bytes.len()
            invariant
                i <= bytes@.len(),
                scan_frame(self@) is None,
                frames@.map_values(|f: PacketFrame| f@) + decode_run(self@, bytes@.skip(i as int)).0
                    == decode_run(p0, bytes@).0,
                decode_run(self@, bytes@.skip(i as int)).1 == decode_run(p0, bytes@).1,
            decreases bytes@.len() - i,
        {
            let ghost before = self@;
            let ghost old_frames = frames@.map_values(|f: PacketFrame| f@);
            let r = self.push(bytes[i]);
            proof {
                let rest = bytes@.skip(i as int);
                assert(rest[0] == bytes@[i as int]);
                assert(rest.drop_first() =~= bytes@.skip(i + 1));
            }
            match r {
                Some(f) => {
                    frames.push(f);
                    proof {
                        let ghost fs = frames@.map_values(|f: PacketFrame| f@);
                        assert(fs =~= old_frames.push(frames@[frames@.len() - 1]@));
                        let tail = decode_run(self@, bytes@.skip(i + 1)).0;
                        assert(old_frames + (seq![frames@[frames@.len() - 1]@] + tail) =~= fs + tail);
                    }
                },
                None => {
                    assert(frames@.map_values(|f: PacketFrame| f@) =~= old_frames);
                },
            }
            i = i + 1;
        }
        assert(bytes@.skip(i as int) =~= Seq::<u8>::empty());
        assert(frames@.map_values(|f: PacketFrame| f@) =~= decode_run(p0, bytes@).0);
        frames
    }
}

/// The bytes of several frames, one after another.
pub open spec fn spec_encode_frames(fs: Seq<(u8, Seq<u8>)>) -> Seq<u8>
    decreases fs.len(),
{
    if fs.len() == 0 {
        Seq::empty()
    } else {
        spec_encode_frame(fs[0]) + spec_encode_frames(fs.drop_first())
    }
}

/// A frame whose payload length fits in the 32-bit length field.
pub open spec fn frame_fits(f: (u8, Seq<u8>)) -> bool {
    f.1.len() <= u32::MAX
}

/// The bytes of a frame: the head byte 0xAA, the packet id, the payload
/// length as a big-endian `u32` in bytes 2..6, then the payload.
pub proof fn lemma_encoded_frame_layout(f: (u8, Seq<u8>))
    requires
        frame_fits(f),
    ensures
        spec_encode_frame(f).len() == 6 + f.1.len(),
        spec_encode_frame(f)[0] == 0xAAu8,
        spec_encode_frame(f)[1] == f.0,
        be_u32_at(spec_encode_frame(f), 2) == f.1.len(),
        spec_encode_frame(f).subrange(6, 6 + f.1.len() as int) == f.1,
{
    let s = spec_encode_frame(f);
    crate::wire::lemma_be_u32_roundtrip(f.1.len() as u32);
    assert(s.subrange(2, 6) =~= u32_be_bytes(f.1.len() as u32));
    crate::wire::lemma_be_u32_at_bytes(s, 2, f.1.len() as u32);
    assert(s.subrange(6, 6 + f.1.len() as int) =~= f.1);
}

/// No proper prefix of an encoded frame holds a frame; the whole encoding
/// holds exactly the frame.
pub proof fn lemma_encoded_prefixes(f: (u8, Seq<u8>), k: int)
    requires
        frame_fits(f),
        1 <= k <= spec_encode_frame(f).len(),
    ensures
        k < spec_encode_frame(f).len() ==> frame_at(spec_encode_frame(f).take(k)) is None,
        k == spec_encode_frame(f).len() ==> frame_at(spec_encode_frame(f).take(k)) == Some((k, f)),
{
    let s = spec_encode_frame(f);
    let t = s.take(k);
    crate::wire::lemma_be_u32_roundtrip(f.1.len() as u32);
    if t.len() >= 6 {
        assert(t[2] == u32_be_bytes(f.1.len() as u32)[0]);
        assert(t[3] == u32_be_bytes(f.1.len() as u32)[1]);
        assert(t[4] == u32_be_bytes(f.1.len() as u32)[2]);
        assert(t[5] == u32_be_bytes(f.1.len() as u32)[3]);
        assert(be_u32_at(t, 2) == f.1.len());
    }
    if k == s.len() {
        assert(t =~= s);
        assert(s.subrange(6, k) =~= f.1);
    }
}

/// Decoding the bytes of a frame gives back the frame, whole.
pub proof fn lemma_decode_encoded_frame(f: (u8, Seq<u8>))
    requires
        frame_fits(f),
    ensures
        scan_frame(spec_encode_frame(f)) == Some((spec_encode_frame(f).len() as int, f)),
{
    let s = spec_encode_frame(f);
    lemma_encoded_prefixes(f, s.len() as int);
    assert(s.take(s.len() as int) =~= s);
}

proof fn lemma_run_encoded_from(j: Seq<u8>, f: (u8, Seq<u8>), k: int)
    requires
        frame_fits(f),
        no_head(j),
        0 <= k < spec_encode_frame(f).len(),
    ensures
        decode_run(j + spec_encode_frame(f).take(k), spec_encode_frame(f).skip(k)) == (
        seq![f], Seq::<u8>::empty()),
    decreases spec_encode_frame(f).len() - k,
{
    let s = spec_encode_frame(f);
    let p = j + s.take(k);
    let b = s[k];
    let q = p.push(b);
    let jl = j.len() as int;
    assert(s[0] == PACKET_HEAD);
    assert(first_head_at(q, jl) && q.skip(jl) == s.take(k + 1)) by {
        assert(q =~= j + s.take(k + 1));
        assert(q.take(jl) =~= j);
        assert(q.skip(jl) =~= s.take(k + 1));
    }
    lemma_scan_from_head(q, jl);
    lemma_encoded_prefixes(f, k + 1);
    let bytes = s.skip(k);
    assert(bytes[0] == b);
    assert(bytes.drop_first() =~= s.skip(k + 1));
    if k + 1 < s.len() {
        assert(scan_frame(q) is None);
        assert(decode_step(p, b) == (None::<(u8, Seq<u8>)>, q));
        assert(j + s.take(k + 1) =~= q);
        lemma_run_encoded_from(j, f, k + 1);
        assert(decode_run(p, bytes) == decode_run(q, bytes.drop_first()));
    } else {
        assert(scan_frame(q) == Some((k + 1 + jl, f)));
        assert(decode_step(p, b) == (Some(f), Seq::<u8>::empty()));
        assert(s.skip(k + 1) =~= Seq::<u8>::empty());
        assert(seq![f] + Seq::<(u8, Seq<u8>)>::empty() =~= seq![f]);
        assert(decode_run(Seq::<u8>::empty(), bytes.drop_first()) == (
        Seq::<(u8, Seq<u8>)>::empty(), Seq::<u8>::empty()));
        assert(decode_run(p, bytes) == (seq![f], Seq::<u8>::empty()));
    }
}

/// After noise without a head byte, the bytes of a frame decode to that one
/// frame, and the decoder is left empty.
pub proof fn lemma_decode_run_encoded(j: Seq<u8>, f: (u8, Seq<u8>))
    requires
        frame_fits(f),
        no_head(j),
    ensures
        decode_run(j, spec_encode_frame(f)) == (seq![f], Seq::<u8>::empty()),
{
    let s = spec_encode_frame(f);
    lemma_run_encoded_from(j, f, 0);
    assert(j + s.take(0) =~= j);
    assert(s.skip(0) =~= s);
}

/// Bytes without a head byte complete no frame; the decoder keeps them.
pub proof fn lemma_decode_run_no_head(p: Seq<u8>, bytes: Seq<u8>)
    requires
        no_head(p + bytes),
    ensures
        decode_run(p, bytes) == (Seq::<(u8, Seq<u8>)>::empty(), p + bytes),
    decreases bytes.len(),
{
    if bytes.len() == 0 {
        assert(p + bytes =~= p);
    } else {
        let q = p.push(bytes[0]);
        assert(no_head(q)) by {
            assert forall|i: int| 0 <= i < q.len() implies #[trigger] q[i] != PACKET_HEAD by {
                assert(q[i] == (p + bytes)[i]);
            }
        }
        lemma_scan_no_head(q);
        assert(q + bytes.drop_first() =~= p + bytes);
        lemma_decode_run_no_head(q, bytes.drop_first());
    }
}

/// Reading `a` then `b` is reading `a + b`.
pub proof fn lemma_decode_run_concat(p: Seq<u8>, a: Seq<u8>, b: Seq<u8>)
    ensures
        decode_run(p, a + b) == (
            decode_run(p, a).0 + decode_run(decode_run(p, a).1, b).0,
            decode_run(decode_run(p, a).1, b).1,
        ),
    decreases a.len(),
{
    if a.len() == 0 {
        assert(a + b =~= b);
        assert(Seq::<(u8, Seq<u8>)>::empty() + decode_run(p, b).0 =~= decode_run(p, b).0);
    } else {
        assert((a + b)[0] == a[0]);
        assert((a + b).drop_first() =~= a.drop_first() + b);
        let next = decode_step(p, a[0]).1;
        lemma_decode_run_concat(next, a.drop_first(), b);
        let r = decode_run(next, a.drop_first());
        let r2 = decode_run(r.1, b);
        match decode_step(p, a[0]).0 {
            Some(f) => {
                assert(seq![f] + (r.0 + r2.0) =~= (seq![f] + r.0) + r2.0);
            },
            None => {},
        }
    }
}

/// A stream made of frames decodes to exactly those frames, in order,
/// whatever noise without a head byte comes first.
pub proof fn lemma_decode_stream(noise: Seq<u8>, fs: Seq<(u8, Seq<u8>)>)
    requires
        no_head(noise),
        forall|i: int| 0 <= i < fs.len() ==> frame_fits(#[trigger] fs[i]),
    ensures
        decode_run(Seq::empty(), noise + spec_encode_frames(fs)).0 == fs,
        decode_run(Seq::empty(), noise + spec_encode_frames(fs)).1 == (if fs.len() == 0 {
            noise
        } else {
            Seq::<u8>::empty()
        }),
    decreases fs.len(),
{
    let e = Seq::<u8>::empty();
    lemma_decode_run_concat(e, noise, spec_encode_frames(fs));
    assert(e + noise =~= noise);
    lemma_decode_run_no_head(e, noise);
    if fs.len() == 0 {
        assert(spec_encode_frames(fs) =~= e);
        assert(noise + e =~= noise);
        assert(decode_run(e, noise + spec_encode_frames(fs)).0 =~= fs);
    } else {
        let rest = fs.drop_first();
        assert forall|i: int| 0 <= i < rest.len() implies frame_fits(#[trigger] rest[i]) by {
            assert(rest[i] == fs[i + 1]);
        }
        assert(frame_fits(fs[0]));
        lemma_decode_run_concat(noise, spec_encode_frame(fs[0]), spec_encode_frames(rest));
        lemma_decode_run_encoded(noise, fs[0]);
        lemma_decode_stream(e, rest);
        assert(e + spec_encode_frames(rest) =~= spec_encode_frames(rest));
        assert(Seq::<(u8, Seq<u8>)>::empty() + (seq![fs[0]] + rest) =~= fs);
    }
}

} // verus!
