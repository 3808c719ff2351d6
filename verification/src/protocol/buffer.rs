//! Reassembly buffer turning fragmented BLE notifications into LWP frames.

use vstd::prelude::*;

verus! {

/// Maximum LWP message length accepted. Real LWP messages are well under
/// this; a larger length byte means the stream is desynced or the peer is
/// misbehaving — the buffer is dropped to resync rather than grow unbounded.
pub const MAX_MESSAGE_LEN: usize = 64;

/// Whether `n` is an acceptable length byte.
pub open spec fn valid_len(n: u8) -> bool {
    1 <= n && n as int <= MAX_MESSAGE_LEN as int
}

/// Greedy extraction of length-prefixed frames from buffered bytes.
///
/// Returns the complete frames in order and the bytes left buffered. A length
/// byte of 0 or above [`MAX_MESSAGE_LEN`] drops everything still buffered.
pub open spec fn spec_extract(buf: Seq<u8>) -> (Seq<Seq<u8>>, Seq<u8>)
    decreases buf.len(),
{
    if buf.len() == 0 {
        (Seq::empty(), Seq::empty())
    } else if !valid_len(buf[0]) {
        (Seq::empty(), Seq::empty())
    } else if buf.len() < buf[0] as int {
        (Seq::empty(), buf)
    } else {
        let n = buf[0] as int;
        let rest = spec_extract(buf.subrange(n, buf.len() as int));
        (seq![buf.subrange(0, n)] + rest.0, rest.1)
    }
}

/// Whether extraction from `buf` runs into an invalid length byte and drops
/// the remaining bytes.
pub open spec fn resyncs(buf: Seq<u8>) -> bool
    decreases buf.len(),
{
    if buf.len() == 0 {
        false
    } else if !valid_len(buf[0]) {
        true
    } else if buf.len() < buf[0] as int {
        false
    } else {
        resyncs(buf.subrange(buf[0] as int, buf.len() as int))
    }
}

/// Bytes that may stay buffered: nothing, or the start of one frame whose
/// valid length byte announces more bytes than are present.
pub open spec fn residual_ok(r: Seq<u8>) -> bool {
    r.len() == 0 || (valid_len(r[0]) && r.len() < r[0] as int)
}

/// A well-formed frame: its first byte is its length, within the limit.
pub open spec fn is_frame(f: Seq<u8>) -> bool {
    f.len() > 0 && valid_len(f[0]) && f[0] as int == f.len()
}

/// The byte sequences held by a vector of frames.
pub open spec fn frames_view(v: Seq<Vec<u8>>) -> Seq<Seq<u8>> {
    v.map_values(|f: Vec<u8>| f@)
}

/// Concatenation of a sequence of frames.
pub open spec fn flatten(fs: Seq<Seq<u8>>) -> Seq<u8>
    decreases fs.len(),
{
    if fs.len() == 0 {
        Seq::empty()
    } else {
        fs[0] + flatten(fs.subrange(1, fs.len() as int))
    }
}

/// Accumulates incoming BLE notification bytes and extracts complete LWP
/// messages based on the length prefix in byte 0.
#[derive(Debug)]
pub struct MessageBuffer {
    buffer: Vec<u8>,
}

impl View for MessageBuffer {
    type V = Seq<u8>;

    closed spec fn view(&self) -> Seq<u8> {
        self.buffer@
    }
}

impl MessageBuffer {
    #[verifier::type_invariant]
    closed spec fn inv(self) -> bool {
        residual_ok(self.buffer@)
    }

    /// An empty buffer.
    pub fn new() -> (b: Self)
        ensures
            b@ == Seq::<u8>::empty(),
    {
        MessageBuffer { buffer: Vec::with_capacity(MAX_MESSAGE_LEN) }
    }

    /// Append `data` and return any complete messages that are now available.
    pub fn push(&mut self, data: &[u8]) -> (messages: Vec<Vec<u8>>)
        ensures
            frames_view(messages@) == spec_extract(old(self)@ + data@).0,
            final(self)@ == spec_extract(old(self)@ + data@).1,
            residual_ok(final(self)@),
    {
        proof {
            use_type_invariant(&*self);
        }
        let mut input: Vec<u8> = Vec::new();
        std::mem::swap(&mut input, &mut self.buffer);
        input.extend_from_slice(data);
        let ghost joined = input@;
        assert(joined =~= old(self)@ + data@);
        let (messages, rest) = extract_frames(&input);
        proof {
            lemma_extract_residual_ok(joined);
        }
        self.buffer = rest;
        messages
    }

    /// Discard buffered bytes (call on disconnect).
    pub fn clear(&mut self)
        ensures
            final(self)@ == Seq::<u8>::empty(),
    {
        self.buffer = Vec::new();
    }

    /// Whether some bytes of an incomplete frame are buffered.
    pub fn has_pending(&self) -> (pending: bool)
        ensures
            pending == (self@.len() > 0),
            residual_ok(self@),
    {
        proof {
            use_type_invariant(self);
        }
        self.buffer.len() > 0
    }
}

impl Default for MessageBuffer {
    fn default() -> (b: Self)
        ensures
            b@ == Seq::<u8>::empty(),
    {
        MessageBuffer::new()
    }
}

/// Copy of `v[from..to]`.
fn copy_range(v: &Vec<u8>, from: usize, to: usize) -> (out: Vec<u8>)
    requires
        from <= to <= v.len(),
    ensures
        out@ == v@.subrange(from as int, to as int),
{
    let mut out: Vec<u8> = Vec::with_capacity(to - from);
    let mut i = from;
    while i < to
        invariant
            from <= i <= to <= v.len(),
            out@ == v@.subrange(from as int, i as int),
        decreases to - i,
    {
        out.push(v[i]);
        i = i + 1;
        assert(out@ =~= v@.subrange(from as int, i as int));
    }
    out
}

/// Executable form of [`spec_extract`].
fn extract_frames(input: &Vec<u8>) -> (res: (Vec<Vec<u8>>, Vec<u8>))
    ensures
        frames_view(res.0@) == spec_extract(input@).0,
        res.1@ == spec_extract(input@).1,
{
    let mut frames: Vec<Vec<u8>> = Vec::new();
    let mut pos: usize = 0;
    let len = input.len();
    assert(input@.subrange(0, len as int) =~= input@);
    assert(frames_view(frames@) =~= Seq::<Seq<u8>>::empty());
    assert(Seq::<Seq<u8>>::empty() + spec_extract(input@).0 =~= spec_extract(input@).0);
    loop
        invariant
            len == input.len(),
            pos <= len,
            spec_extract(input@).0 == frames_view(frames@) + spec_extract(
                input@.subrange(pos as int, len as int),
            ).0,
            spec_extract(input@).1 == spec_extract(input@.subrange(pos as int, len as int)).1,
        decreases len - pos,
    {
        let ghost rest = input@.subrange(pos as int, len as int);
        if pos == len {
            assert(rest.len() == 0);
            assert(frames_view(frames@) + Seq::<Seq<u8>>::empty() =~= frames_view(frames@));
            return (frames, Vec::new());
        }
        assert(rest[0] == input@[pos as int]);
        let n = input[pos] as usize;
        if n == 0 || n > MAX_MESSAGE_LEN {
            assert(frames_view(frames@) + Seq::<Seq<u8>>::empty() =~= frames_view(frames@));
            return (frames, Vec::new());
        }
        if len - pos < n {
            let residual = copy_range(input, pos, len);
            assert(frames_view(frames@) + Seq::<Seq<u8>>::empty() =~= frames_view(frames@));
            return (frames, residual);
        }
        let frame = copy_range(input, pos, pos + n);
        let ghost old_frames = frames@;
        proof {
            assert(rest.subrange(0, n as int) =~= frame@);
            assert(rest.subrange(n as int, rest.len() as int) =~= input@.subrange(
                (pos + n) as int,
                len as int,
            ));
        }
        frames.push(frame);
        pos = pos + n;
        proof {
            let tail = spec_extract(input@.subrange(pos as int, len as int));
            assert(frames_view(frames@) =~= frames_view(old_frames).push(frame@));
            assert(frames_view(old_frames) + (seq![frame@] + tail.0) =~= frames_view(frames@)
                + tail.0);
        }
    }
}

/// Whatever extraction leaves buffered is an allowed residual.
pub proof fn lemma_extract_residual_ok(buf: Seq<u8>)
    ensures
        residual_ok(spec_extract(buf).1),
    decreases buf.len(),
{
    if buf.len() > 0 && valid_len(buf[0]) && buf.len() >= buf[0] as int {
        lemma_extract_residual_ok(buf.subrange(buf[0] as int, buf.len() as int));
    }
}

/// Every frame handed out is well formed: its first byte is its length and
/// lies in `1..=MAX_MESSAGE_LEN`.
pub proof fn lemma_extracted_frames_well_formed(buf: Seq<u8>)
    ensures
        forall|i: int|
            0 <= i < spec_extract(buf).0.len() ==> #[trigger] is_frame(spec_extract(buf).0[i]),
    decreases buf.len(),
{
    if buf.len() > 0 && valid_len(buf[0]) && buf.len() >= buf[0] as int {
        let n = buf[0] as int;
        let rest = buf.subrange(n, buf.len() as int);
        lemma_extracted_frames_well_formed(rest);
        let fs = spec_extract(buf).0;
        assert forall|i: int| 0 <= i < fs.len() implies #[trigger] is_frame(fs[i]) by {
            if i > 0 {
                assert(fs[i] == spec_extract(rest).0[i - 1]);
            }
        }
    }
}

/// Extraction loses and invents no byte unless it resyncs: the frames
/// followed by the buffered rest are exactly the input.
pub proof fn lemma_extract_conserves_bytes(buf: Seq<u8>)
    requires
        !resyncs(buf),
    ensures
        flatten(spec_extract(buf).0) + spec_extract(buf).1 == buf,
    decreases buf.len(),
{
    let fs = spec_extract(buf).0;
    if buf.len() == 0 {
        assert(flatten(fs) + spec_extract(buf).1 =~= buf);
    } else if buf.len() < buf[0] as int {
        assert(flatten(fs) =~= Seq::<u8>::empty());
        assert(flatten(fs) + spec_extract(buf).1 =~= buf);
    } else {
        let n = buf[0] as int;
        let rest = buf.subrange(n, buf.len() as int);
        lemma_extract_conserves_bytes(rest);
        assert(fs.subrange(1, fs.len() as int) =~= spec_extract(rest).0);
        assert(buf.subrange(0, n) + rest =~= buf);
        assert(flatten(fs) + spec_extract(buf).1 =~= buf);
    }
}

/// A resync drops everything that was still buffered.
pub proof fn lemma_resync_empties_buffer(buf: Seq<u8>)
    requires
        resyncs(buf),
    ensures
        spec_extract(buf).1 == Seq::<u8>::empty(),
    decreases buf.len(),
{
    if buf.len() > 0 && valid_len(buf[0]) && buf.len() >= buf[0] as int {
        lemma_resync_empties_buffer(buf.subrange(buf[0] as int, buf.len() as int));
    }
}

/// A stream made of well-formed frames is cut back into exactly those
/// frames, with nothing left buffered.
pub proof fn lemma_extract_concatenated_frames(fs: Seq<Seq<u8>>)
    requires
        forall|i: int| 0 <= i < fs.len() ==> #[trigger] is_frame(fs[i]),
    ensures
        spec_extract(flatten(fs)) == (fs, Seq::<u8>::empty()),
    decreases fs.len(),
{
    if fs.len() > 0 {
        let tail = fs.subrange(1, fs.len() as int);
        assert forall|i: int| 0 <= i < tail.len() implies #[trigger] is_frame(tail[i]) by {
            assert(tail[i] == fs[i + 1]);
        }
        lemma_extract_concatenated_frames(tail);
        let buf = flatten(fs);
        let n = fs[0].len() as int;
        assert(is_frame(fs[0]));
        assert(buf == fs[0] + flatten(tail));
        assert(buf[0] == fs[0][0]);
        assert(buf.subrange(0, n) =~= fs[0]);
        assert(buf.subrange(n, buf.len() as int) =~= flatten(tail));
        assert(seq![fs[0]] + tail =~= fs);
    } else {
        assert(flatten(fs) =~= Seq::<u8>::empty());
    }
}

/// Reassembly does not depend on how the byte stream is cut into
/// notifications: extracting from `x + y` yields the frames of `x` followed
/// by those of what `x` left buffered plus `y`, unless `x` triggers a resync.
pub proof fn lemma_extract_split(x: Seq<u8>, y: Seq<u8>)
    requires
        !resyncs(x),
    ensures
        spec_extract(x + y).0 == spec_extract(x).0 + spec_extract(spec_extract(x).1 + y).0,
        spec_extract(x + y).1 == spec_extract(spec_extract(x).1 + y).1,
    decreases x.len(),
{
    let r = spec_extract(x).1;
    if x.len() == 0 {
        assert(x + y =~= y);
        assert(r + y =~= y);
        assert(Seq::<Seq<u8>>::empty() + spec_extract(y).0 =~= spec_extract(y).0);
    } else if x.len() < x[0] as int {
        assert(r == x);
        assert(Seq::<Seq<u8>>::empty() + spec_extract(x + y).0 =~= spec_extract(x + y).0);
    } else {
        let n = x[0] as int;
        let xr = x.subrange(n, x.len() as int);
        lemma_extract_split(xr, y);
        let xy = x + y;
        assert(xy[0] == x[0]);
        assert(xy.subrange(n, xy.len() as int) =~= xr + y);
        assert(xy.subrange(0, n) =~= x.subrange(0, n));
        let e = spec_extract(spec_extract(xr).1 + y);
        assert(seq![x.subrange(0, n)] + (spec_extract(xr).0 + e.0) =~= (seq![x.subrange(0, n)]
            + spec_extract(xr).0) + e.0);
    }
}

/// Pushing two fragments one after the other hands out the same frames, in
/// the same order, and leaves the same bytes buffered as pushing them joined,
/// unless the first push runs into an invalid length byte.
pub proof fn lemma_push_fragmentation(buffered: Seq<u8>, a: Seq<u8>, b: Seq<u8>)
    requires
        residual_ok(buffered),
        !resyncs(buffered + a),
    ensures
        spec_extract(buffered + (a + b)).0 == spec_extract(buffered + a).0 + spec_extract(
            spec_extract(buffered + a).1 + b,
        ).0,
        spec_extract(buffered + (a + b)).1 == spec_extract(spec_extract(buffered + a).1 + b).1,
{
    assert(buffered + (a + b) =~= (buffered + a) + b);
    lemma_extract_split(buffered + a, b);
}

} // verus!
