//! The wire format of the relay: one tag byte, the payload's length as eight
//! big-endian bytes, then the payload.

use vstd::prelude::*;

use crate::error::{corruption_error, TclError};

verus! {

/// The bytes of a frame before its payload: the tag and the length.
pub const HEADER_LEN: usize = 9;

/// One message on the wire.
#[derive(Debug)]
pub struct Frame {
    pub tag: u8,
    pub payload: Vec<u8>,
}

/// The mathematical value of a [`Frame`].
pub struct FrameView {
    pub tag: u8,
    pub payload: Seq<u8>,
}

impl View for Frame {
    type V = FrameView;

    open spec fn view(&self) -> FrameView {
        FrameView { tag: self.tag, payload: self.payload@ }
    }
}

/// The `width` low base-256 digits of `n`, most significant first.
pub open spec fn be_bytes(n: nat, width: nat) -> Seq<u8>
    decreases width,
{
    if width == 0 {
        Seq::empty()
    } else {
        be_bytes(n / 256, (width - 1) as nat).push((n % 256) as u8)
    }
}

/// The number that `s` spells in base 256, most significant digit first.
pub open spec fn be_value(s: Seq<u8>) -> nat
    decreases s.len(),
{
    if s.len() == 0 {
        0
    } else {
        be_value(s.drop_last()) * 256 + s.last() as nat
    }
}

/// The bytes that stand for a frame on the wire.
pub open spec fn frame_bytes(f: FrameView) -> Seq<u8> {
    seq![f.tag] + be_bytes(f.payload.len(), 8) + f.payload
}

/// The frame that `s` holds, if `s` is exactly one frame: a header whose
/// length field counts the bytes that follow it.
pub open spec fn parse_frame(s: Seq<u8>) -> Option<FrameView> {
    if s.len() >= HEADER_LEN && be_value(s.subrange(1, 9)) == s.len() - HEADER_LEN {
        Some(FrameView { tag: s[0], payload: s.subrange(9, s.len() as int) })
    } else {
        None
    }
}

pub proof fn lemma_be_bytes_len(n: nat, width: nat)
    ensures
        be_bytes(n, width).len() == width,
    decreases width,
{
    if width > 0 {
        lemma_be_bytes_len(n / 256, (width - 1) as nat);
    }
}

/// Whether `n` has at most `width` base-256 digits.
pub open spec fn fits(n: nat, width: nat) -> bool
    decreases width,
{
    if width == 0 {
        n == 0
    } else {
        fits(n / 256, (width - 1) as nat)
    }
}

/// Reading back the digits of a number that fits gives the number.
pub proof fn lemma_be_value_of_bytes(n: nat, width: nat)
    requires
        fits(n, width),
    ensures
        be_value(be_bytes(n, width)) == n,
    decreases width,
{
    if width > 0 {
        let rest = be_bytes(n / 256, (width - 1) as nat);
        lemma_be_value_of_bytes(n / 256, (width - 1) as nat);
        assert(be_bytes(n, width).drop_last() == rest);
        assert(be_bytes(n, width).last() == (n % 256) as u8);
    }
}

/// Spelling the number that digits spell gives the digits back.
pub proof fn lemma_be_bytes_of_value(s: Seq<u8>)
    ensures
        be_bytes(be_value(s), s.len()) == s,
        fits(be_value(s), s.len()),
    decreases s.len(),
{
    if s.len() > 0 {
        lemma_be_bytes_of_value(s.drop_last());
        let v = be_value(s.drop_last());
        assert((v * 256 + s.last() as nat) / 256 == v);
        assert((v * 256 + s.last() as nat) % 256 == s.last() as nat);
        assert(s.drop_last().push(s.last()) == s);
    }
}

/// Every length that a `u64` holds fits the eight bytes of the header.
pub proof fn lemma_u64_fits(n: u64)
    ensures
        fits(n as nat, 8),
{
    reveal_with_fuel(fits, 9);
    let n0 = n as nat;
    assert(n0 / 256 / 256 / 256 / 256 / 256 / 256 / 256 / 256 == 0);
}

/// The eight big-endian bytes of a length.
pub fn encode_length(n: u64) -> (out: Vec<u8>)
    ensures
        out@ == be_bytes(n as nat, 8),
{
    let b7: u8 = (n % 256) as u8;
    let n1: u64 = n / 256;
    let b6: u8 = (n1 % 256) as u8;
    let n2: u64 = n1 / 256;
    let b5: u8 = (n2 % 256) as u8;
    let n3: u64 = n2 / 256;
    let b4: u8 = (n3 % 256) as u8;
    let n4: u64 = n3 / 256;
    let b3: u8 = (n4 % 256) as u8;
    let n5: u64 = n4 / 256;
    let b2: u8 = (n5 % 256) as u8;
    let n6: u64 = n5 / 256;
    let b1: u8 = (n6 % 256) as u8;
    let n7: u64 = n6 / 256;
    let b0: u8 = (n7 % 256) as u8;
    let out = vec![b0, b1, b2, b3, b4, b5, b6, b7];
    proof {
        reveal_with_fuel(be_bytes, 9);
        assert(out@ =~= be_bytes(n as nat, 8));
    }
    out
}

/// The length that the eight bytes from `at` on spell.
pub fn decode_length(bytes: &[u8], at: usize) -> (n: u64)
    requires
        at + 8 <= bytes@.len(),
    ensures
        n == be_value(bytes@.subrange(at as int, at + 8)),
{
    let len = bytes.len();
    let mut n: u64 = 0;
    let mut i: usize = 0;
    while i < 8
        invariant
            i <= 8,
            len == bytes@.len(),
            at + 8 <= bytes@.len(),
            n == be_value(bytes@.subrange(at as int, at + i)),
            fits(n as nat, i as nat),
        decreases 8 - i,
    {
        let b: u8 = bytes[at + i];
        proof {
            let s = bytes@.subrange(at as int, at + i + 1);
            assert(s.drop_last() == bytes@.subrange(at as int, at + i));
            assert(s.last() == b);
            lemma_fits_bound(n as nat, i as nat);
            lemma_fits_step(n as nat, b, i as nat);
        }
        n = n * 256 + b as u64;
        i += 1;
    }
    n
}

/// A number of at most seven digits leaves room for one more in a `u64`.
proof fn lemma_fits_bound(n: nat, width: nat)
    requires
        fits(n, width),
        width <= 7,
    ensures
        n < 0x1_0000_0000_0000_00,
{
    reveal_with_fuel(fits, 8);
}

proof fn lemma_fits_step(n: nat, b: u8, width: nat)
    requires
        fits(n, width),
    ensures
        fits(n * 256 + b as nat, width + 1),
{
    assert((n * 256 + b as nat) / 256 == n);
}

impl Frame {
    /// The bytes of this frame on the wire.
    pub fn encode(&self) -> (out: Vec<u8>)
        ensures
            out@ == frame_bytes(self@),
    {
        let mut out: Vec<u8> = Vec::new();
        out.push(self.tag);
        let mut length = encode_length(self.payload.len() as u64);
        out.append(&mut length);
        let mut i: usize = 0;
        while i < self.payload.len()
            invariant
                i <= self.payload.len(),
                out@ == seq![self.tag] + be_bytes(self.payload@.len(), 8) + self.payload@.subrange(
                    0,
                    i as int,
                ),
            decreases self.payload.len() - i,
        {
            out.push(self.payload[i]);
            i += 1;
        }
        assert(self.payload@.subrange(0, self.payload@.len() as int) == self.payload@);
        out
    }

    /// The payload length that a header announces: the bytes that the reader
    /// has to take next. `None` where `header` is no whole header.
    pub fn payload_len(header: &[u8]) -> (n: Option<u64>)
        ensures
            n == if header@.len() == HEADER_LEN {
                Some(be_value(header@.subrange(1, 9)) as u64)
            } else {
                None
            },
    {
        if header.len() == HEADER_LEN {
            proof {
                lemma_be_bytes_of_value(header@.subrange(1, 9));
            }
            Some(decode_length(header, 1))
        } else {
            None
        }
    }

    /// Reads the one frame that `bytes` is. Bytes that end before the
    /// announced length, or go on after it, are refused.
    pub fn decode(bytes: &[u8]) -> (r: Result<Frame, TclError>)
        ensures
            match r {
                Ok(frame) => parse_frame(bytes@) == Some(frame@),
                Err(e) => parse_frame(bytes@).is_none() && e@ == corruption_error(),
            },
    {
        if bytes.len() < HEADER_LEN {
            return Err(TclError::corruption());
        }
        let announced = decode_length(bytes, 1);
        let rest = bytes.len() - HEADER_LEN;
        if announced != rest as u64 {
            return Err(TclError::corruption());
        }
        let mut payload: Vec<u8> = Vec::new();
        let mut i: usize = HEADER_LEN;
        while i < bytes.len()
            invariant
                HEADER_LEN <= i <= bytes@.len(),
                payload@ == bytes@.subrange(9, i as int),
            decreases bytes.len() - i,
        {
            payload.push(bytes[i]);
            i += 1;
        }
        Ok(Frame { tag: bytes[0], payload })
    }
}

/// Decoding what was encoded gives the frame back.
pub proof fn lemma_frame_round_trip(f: FrameView)
    requires
        f.payload.len() <= u64::MAX,
    ensures
        parse_frame(frame_bytes(f)) == Some(f),
{
    let s = frame_bytes(f);
    lemma_be_bytes_len(f.payload.len(), 8);
    lemma_u64_fits(f.payload.len() as u64);
    lemma_be_value_of_bytes(f.payload.len(), 8);
    assert(s.subrange(1, 9) == be_bytes(f.payload.len(), 8));
    assert(s.subrange(9, s.len() as int) == f.payload);
}

/// Bytes that decode to a frame are the encoding of that frame, so no two
/// byte strings decode to the same frame.
pub proof fn lemma_frame_canonical(s: Seq<u8>)
    requires
        parse_frame(s).is_some(),
    ensures
        frame_bytes(parse_frame(s).unwrap()) == s,
{
    let f = parse_frame(s).unwrap();
    lemma_be_bytes_of_value(s.subrange(1, 9));
    assert(frame_bytes(f) =~= s);
}

} // verus!
