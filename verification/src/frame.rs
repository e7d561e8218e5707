//! The frame codec: each unit on the wire is a four-byte big-endian
//! length header counting itself, followed by the payload bytes.

use vstd::prelude::*;

use crate::err::EppError;
use crate::err::FramingError;

verus! {

broadcast use
    vstd::std_specs::vec::group_vec_axioms,
    vstd::seq::group_seq_axioms,
;

/// The four big-endian bytes of a 32-bit length.
pub open spec fn spec_u32_to_be_bytes(x: u32) -> Seq<u8> {
    seq![
        ((x >> 24) & 0xff) as u8,
        ((x >> 16) & 0xff) as u8,
        ((x >> 8) & 0xff) as u8,
        (x & 0xff) as u8,
    ]
}

/// The 32-bit value of four big-endian bytes.
pub open spec fn spec_u32_from_be_bytes(s: Seq<u8>) -> u32
    recommends
        s.len() == 4,
{
    (((s[0] as u32) << 24) | ((s[1] as u32) << 16) | ((s[2] as u32) << 8) | (s[3] as u32)) as u32
}

/// Reading four written big-endian bytes gives the value back.
pub proof fn lemma_u32_be_bytes_round_trip(x: u32)
    ensures
        spec_u32_to_be_bytes(x).len() == 4,
        spec_u32_from_be_bytes(spec_u32_to_be_bytes(x)) == x,
{
    let s = spec_u32_to_be_bytes(x);
    assert(s[0] == ((x >> 24) & 0xff) as u8);
    assert(s[1] == ((x >> 16) & 0xff) as u8);
    assert(s[2] == ((x >> 8) & 0xff) as u8);
    assert(s[3] == (x & 0xff) as u8);
    assert((((((x >> 24) & 0xff) as u8 as u32) << 24) | ((((x >> 16) & 0xff) as u8 as u32) << 16)
        | ((((x >> 8) & 0xff) as u8 as u32) << 8) | ((x & 0xff) as u8 as u32)) as u32 == x)
        by (bit_vector);
}

/// The whole frame for a payload: the length header, then the payload.
pub open spec fn spec_frame(payload: Seq<u8>) -> Seq<u8>
    recommends
        payload.len() + 4 <= u32::MAX,
{
    spec_u32_to_be_bytes((payload.len() + 4) as u32) + payload
}

/// The frame read from `input` at `pos`: four header bytes naming a
/// length of at least four, and that many bytes present in all.
pub open spec fn spec_read_frame(input: Seq<u8>, pos: int) -> Option<(Seq<u8>, int)> {
    if 0 <= pos && pos + 4 <= input.len() {
        let l = spec_u32_from_be_bytes(input.subrange(pos, pos + 4)) as int;
        if l >= 4 && pos + l <= input.len() {
            Some((input.subrange(pos + 4, pos + l), pos + l))
        } else {
            None
        }
    } else {
        None
    }
}

/// A frame written at `pos` reads back as exactly its payload.
pub proof fn lemma_frame_round_trip(input: Seq<u8>, pos: int, payload: Seq<u8>)
    requires
        payload.len() + 4 <= u32::MAX,
        0 <= pos,
        pos + spec_frame(payload).len() <= input.len(),
        input.subrange(pos, pos + spec_frame(payload).len()) == spec_frame(payload),
    ensures
        spec_read_frame(input, pos) == Some((payload, pos + 4 + payload.len())),
{
    let f = spec_frame(payload);
    let hdr = spec_u32_to_be_bytes((payload.len() + 4) as u32);
    lemma_u32_be_bytes_round_trip((payload.len() + 4) as u32);
    assert(f.len() == 4 + payload.len());
    assert forall|i: int| 0 <= i < f.len() implies input[pos + i] == f[i] by {
        assert(input.subrange(pos, pos + f.len())[i] == input[pos + i]);
    }
    assert(input.subrange(pos, pos + 4) =~= hdr) by {
        assert forall|i: int| 0 <= i < 4 implies input[pos + i] == hdr[i] by {
            assert(f[i] == (hdr + payload)[i]);
        }
    }
    let l = spec_u32_from_be_bytes(input.subrange(pos, pos + 4)) as int;
    assert(l == payload.len() + 4);
    assert(input.subrange(pos + 4, pos + l) =~= payload) by {
        assert forall|i: int| 0 <= i < payload.len() implies input[pos + 4 + i] == payload[i] by {
            assert(f[4 + i] == (hdr + payload)[4 + i]);
        }
    }
}

/// The largest payload a frame can carry.
pub open spec fn frame_payload_fits(len: nat) -> bool {
    len + 4 <= u32::MAX
}

/// The four header bytes for a payload of length `len`.
pub fn frame_header_bytes(len: usize) -> (r: Result<Vec<u8>, EppError>)
    ensures
        match r {
            Ok(h) => frame_payload_fits(len as nat) && h@ == spec_u32_to_be_bytes(
                (len + 4) as u32,
            ),
            Err(e) => !frame_payload_fits(len as nat) && e == (EppError::Framing {
                error: FramingError::TooLarge,
            }),
        },
{
    if len as u64 > (u32::MAX - 4) as u64 {
        return Err(EppError::Framing { error: FramingError::TooLarge });
    }
    let total = (len + 4) as u32;
    let mut h: Vec<u8> = Vec::new();
    let b0 = ((total >> 24) & 0xff) as u8;
    let b1 = ((total >> 16) & 0xff) as u8;
    let b2 = ((total >> 8) & 0xff) as u8;
    let b3 = (total & 0xff) as u8;
    h.push(b0);
    h.push(b1);
    h.push(b2);
    h.push(b3);
    proof {
        assert(h@ =~= spec_u32_to_be_bytes(total));
    }
    Ok(h)
}

/// The whole frame for a payload.
pub fn frame_bytes(payload: &Vec<u8>) -> (r: Result<Vec<u8>, EppError>)
    ensures
        match r {
            Ok(f) => frame_payload_fits(payload@.len()) && f@ == spec_frame(payload@),
            Err(e) => !frame_payload_fits(payload@.len()) && e == (EppError::Framing {
                error: FramingError::TooLarge,
            }),
        },
{
    match frame_header_bytes(payload.len()) {
        Err(e) => Err(e),
        Ok(mut f) => {
            f.extend_from_slice(payload.as_slice());
            proof {
                assert(f@ =~= spec_frame(payload@));
            }
            Ok(f)
        },
    }
}

/// The value of a four-byte big-endian header.
pub fn u32_from_be_bytes(h: &Vec<u8>) -> (x: u32)
    requires
        h@.len() == 4,
    ensures
        x == spec_u32_from_be_bytes(h@),
{
    let b0 = h[0];
    let b1 = h[1];
    let b2 = h[2];
    let b3 = h[3];
    proof {
        assert(((b0 as u32) << 24) | ((b1 as u32) << 16) | ((b2 as u32) << 8) | (b3 as u32)
            <= u32::MAX) by (bit_vector);
    }
    ((b0 as u32) << 24) | ((b1 as u32) << 16) | ((b2 as u32) << 8) | (b3 as u32)
}

/// How many payload bytes follow a length header, or the framing error
/// for a header that names fewer bytes than it occupies itself.
pub fn frame_payload_len(header: &Vec<u8>) -> (r: Result<usize, EppError>)
    requires
        header@.len() == 4,
    ensures
        match r {
            Ok(l) => spec_u32_from_be_bytes(header@) >= 4 && l == spec_u32_from_be_bytes(header@)
                - 4,
            Err(e) => spec_u32_from_be_bytes(header@) < 4 && e == (EppError::Framing {
                error: FramingError::TooSmall { length: spec_u32_from_be_bytes(header@) },
            }),
        },
{
    let total = u32_from_be_bytes(header);
    if total < 4 {
        Err(EppError::Framing { error: FramingError::TooSmall { length: total } })
    } else {
        Ok((total - 4) as usize)
    }
}

// ------------------------------------------------------------------
// An in-memory byte stream
// ------------------------------------------------------------------

/// A reliable, ordered, in-memory byte stream: a scripted input to read
/// from and an output log of everything written.  It stands in for the
/// network connection in the verified client and in tests.
pub struct MemStream {
    /// The bytes the peer will send, in order.
    pub input: Vec<u8>,
    /// How many input bytes have been consumed.
    pub read_pos: usize,
    /// Every byte written so far, in order.
    pub output: Vec<u8>,
}

impl MemStream {
    pub open spec fn wf(&self) -> bool {
        self.read_pos <= self.input.len()
    }

    /// A stream that will play back `input`.
    pub fn new(input: Vec<u8>) -> (r: MemStream)
        ensures
            r.wf(),
            r.input == input,
            r.read_pos == 0,
            r.output@ == Seq::<u8>::empty(),
    {
        let out: Vec<u8> = Vec::new();
        proof {
            assert(out@ =~= Seq::<u8>::empty());
        }
        MemStream { input, read_pos: 0, output: out }
    }

    /// Read exactly `n` bytes, or fail if the input ends first.
    pub fn read_exact(&mut self, n: usize) -> (r: Result<Vec<u8>, EppError>)
        requires
            old(self).wf(),
        ensures
            final(self).wf(),
            final(self).input == old(self).input,
            final(self).output == old(self).output,
            match r {
                Ok(v) => old(self).read_pos + n <= old(self).input@.len() && v@ == old(
                    self,
                ).input@.subrange(
                    old(self).read_pos as int,
                    old(self).read_pos + n,
                ) && final(self).read_pos == old(self).read_pos + n,
                Err(e) => old(self).read_pos + n > old(self).input@.len() && final(self).read_pos
                    == old(self).read_pos && e is Io,
            },
    {
        if n > self.input.len() - self.read_pos {
            return Err(EppError::Io { message: String::from_str("unexpected end of stream") });
        }
        let mut v: Vec<u8> = Vec::new();
        let mut i: usize = 0;
        while i < n
            invariant
                0 <= i <= n,
                self.read_pos + n <= self.input.len(),
                v@ =~= self.input@.subrange(self.read_pos as int, self.read_pos + i),
                self == old(self),
            decreases n - i,
        {
            v.push(self.input[self.read_pos + i]);
            proof {
                assert(v@ =~= self.input@.subrange(self.read_pos as int, self.read_pos + i + 1));
            }
            i = i + 1;
        }
        self.read_pos = self.read_pos + n;
        Ok(v)
    }

    /// Append bytes to the output.
    pub fn write_all(&mut self, bytes: &Vec<u8>)
        requires
            old(self).wf(),
        ensures
            final(self).wf(),
            final(self).input == old(self).input,
            final(self).read_pos == old(self).read_pos,
            final(self).output@ == old(self).output@ + bytes@,
    {
        self.output.extend_from_slice(bytes.as_slice());
    }
}

/// Write one frame: the length header, then the payload, as one unit.
pub fn write_frame(stream: &mut MemStream, payload: &Vec<u8>) -> (r: Result<(), EppError>)
    requires
        old(stream).wf(),
    ensures
        final(stream).wf(),
        final(stream).input == old(stream).input,
        final(stream).read_pos == old(stream).read_pos,
        match r {
            Ok(()) => frame_payload_fits(payload@.len()) && final(stream).output@ == old(
                stream,
            ).output@ + spec_frame(payload@),
            Err(e) => !frame_payload_fits(payload@.len()) && final(stream).output == old(
                stream,
            ).output && e == (EppError::Framing { error: FramingError::TooLarge }),
        },
{
    match frame_bytes(payload) {
        Err(e) => Err(e),
        Ok(f) => {
            stream.write_all(&f);
            Ok(())
        },
    }
}

/// Read one frame: exactly four header bytes, then exactly the payload
/// the header names.
pub fn read_frame(stream: &mut MemStream) -> (r: Result<Vec<u8>, EppError>)
    requires
        old(stream).wf(),
    ensures
        final(stream).wf(),
        final(stream).input == old(stream).input,
        final(stream).output == old(stream).output,
        old(stream).read_pos <= final(stream).read_pos,
        match r {
            Ok(p) => spec_read_frame(old(stream).input@, old(stream).read_pos as int) == Some(
                (p@, final(stream).read_pos as int),
            ),
            Err(e) => spec_read_frame(old(stream).input@, old(stream).read_pos as int) is None
                && (e is Io || e is Framing),
        },
{
    let header = match stream.read_exact(4) {
        Ok(h) => h,
        Err(e) => {
            return Err(e);
        },
    };
    let len = match frame_payload_len(&header) {
        Ok(l) => l,
        Err(e) => {
            return Err(e);
        },
    };
    match stream.read_exact(len) {
        Ok(p) => {
            proof {
                let input = old(stream).input@;
                let pos = old(stream).read_pos as int;
                let l = spec_u32_from_be_bytes(input.subrange(pos, pos + 4)) as int;
                assert(header@ == input.subrange(pos, pos + 4));
                assert(p@ =~= input.subrange(pos + 4, pos + l));
            }
            Ok(p)
        },
        Err(e) => Err(e),
    }
}

} // verus!
