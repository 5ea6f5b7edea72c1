//! The messages of the relay: what a thread asks of the thread that owns the
//! interpreter, and what it is answered.

use vstd::prelude::*;

use crate::error::{corruption_error, TclError};
use crate::frame::{
    be_bytes, be_value, decode_length, encode_length, fits, frame_bytes, lemma_be_bytes_len,
    lemma_be_value_of_bytes, lemma_frame_round_trip, lemma_u64_fits, parse_frame, Frame, FrameView,
};

verus! {

/// Tag of a request to evaluate code.
pub const TAG_EVAL: u8 = 1;

/// Tag of a request to call a command with arguments.
pub const TAG_CALL: u8 = 2;

/// Tag of the answer to an evaluation that succeeded.
pub const TAG_EVAL_OK: u8 = 3;

/// Tag of the answer to an evaluation that failed.
pub const TAG_EVAL_ERR: u8 = 4;

/// Tag of the answer to a call that succeeded.
pub const TAG_CALL_OK: u8 = 5;

/// Tag of the answer to a call that failed.
pub const TAG_CALL_ERR: u8 = 6;

/// What a thread asks of the owning thread.
#[derive(Debug)]
pub enum TclRequest {
    /// Evaluate this code.
    Eval(Vec<u8>),
    /// Call the command that these words name, with the rest as arguments.
    Call(Vec<Vec<u8>>),
}

/// What the owning thread answers: the string form of the result, or the
/// text of the error.
#[derive(Debug)]
pub enum TclResponse {
    Eval(Result<Vec<u8>, Vec<u8>>),
    Call(Result<Vec<u8>, Vec<u8>>),
}

/// The mathematical value of a [`TclRequest`].
pub enum RequestView {
    Eval(Seq<u8>),
    Call(Seq<Seq<u8>>),
}

/// The mathematical value of a [`TclResponse`].
pub enum ResponseView {
    Eval(Result<Seq<u8>, Seq<u8>>),
    Call(Result<Seq<u8>, Seq<u8>>),
}

/// The byte strings that a vector of byte vectors holds.
pub open spec fn rows(items: Seq<Vec<u8>>) -> Seq<Seq<u8>> {
    Seq::new(items.len(), |i: int| items[i]@)
}

/// The bytes of a result of byte vectors.
pub open spec fn outcome_view(r: Result<Vec<u8>, Vec<u8>>) -> Result<Seq<u8>, Seq<u8>> {
    match r {
        Ok(b) => Ok(b@),
        Err(b) => Err(b@),
    }
}

impl View for TclRequest {
    type V = RequestView;

    open spec fn view(&self) -> RequestView {
        match self {
            TclRequest::Eval(code) => RequestView::Eval(code@),
            TclRequest::Call(words) => RequestView::Call(rows(words@)),
        }
    }
}

impl View for TclResponse {
    type V = ResponseView;

    open spec fn view(&self) -> ResponseView {
        match self {
            TclResponse::Eval(r) => ResponseView::Eval(outcome_view(*r)),
            TclResponse::Call(r) => ResponseView::Call(outcome_view(*r)),
        }
    }
}

/// Byte strings in a row, each behind its length as eight big-endian bytes.
pub open spec fn pack(items: Seq<Seq<u8>>) -> Seq<u8>
    decreases items.len(),
{
    if items.len() == 0 {
        Seq::empty()
    } else {
        be_bytes(items[0].len(), 8) + items[0] + pack(items.drop_first())
    }
}

/// The byte strings that `s` packs, if it packs any: `None` where a length
/// is cut short or announces more bytes than follow.
pub open spec fn unpack(s: Seq<u8>) -> Option<Seq<Seq<u8>>>
    decreases s.len(),
{
    if s.len() == 0 {
        Some(Seq::empty())
    } else if s.len() < 8 {
        None
    } else {
        let n = be_value(s.subrange(0, 8)) as int;
        if n > s.len() - 8 {
            None
        } else {
            match unpack(s.subrange(8 + n, s.len() as int)) {
                Some(rest) => Some(seq![s.subrange(8, 8 + n)] + rest),
                None => None,
            }
        }
    }
}

/// Whether the length of every byte string fits the eight bytes before it.
pub open spec fn rows_fit(items: Seq<Seq<u8>>) -> bool {
    forall|i: int| 0 <= i < items.len() ==> (#[trigger] items[i]).len() <= u64::MAX
}

/// The frame of a request.
pub open spec fn request_frame(r: RequestView) -> FrameView {
    match r {
        RequestView::Eval(code) => FrameView { tag: TAG_EVAL, payload: code },
        RequestView::Call(words) => FrameView { tag: TAG_CALL, payload: pack(words) },
    }
}

/// The frame of a response.
pub open spec fn response_frame(r: ResponseView) -> FrameView {
    match r {
        ResponseView::Eval(Ok(b)) => FrameView { tag: TAG_EVAL_OK, payload: b },
        ResponseView::Eval(Err(b)) => FrameView { tag: TAG_EVAL_ERR, payload: b },
        ResponseView::Call(Ok(b)) => FrameView { tag: TAG_CALL_OK, payload: b },
        ResponseView::Call(Err(b)) => FrameView { tag: TAG_CALL_ERR, payload: b },
    }
}

/// The bytes of a request on the wire.
pub open spec fn request_bytes(r: RequestView) -> Seq<u8> {
    frame_bytes(request_frame(r))
}

/// The bytes of a response on the wire.
pub open spec fn response_bytes(r: ResponseView) -> Seq<u8> {
    frame_bytes(response_frame(r))
}

/// The request that a frame carries, if it carries one.
pub open spec fn frame_request(f: FrameView) -> Option<RequestView> {
    if f.tag == TAG_EVAL {
        Some(RequestView::Eval(f.payload))
    } else if f.tag == TAG_CALL {
        match unpack(f.payload) {
            Some(words) => Some(RequestView::Call(words)),
            None => None,
        }
    } else {
        None
    }
}

/// The response that a frame carries, if it carries one.
pub open spec fn frame_response(f: FrameView) -> Option<ResponseView> {
    if f.tag == TAG_EVAL_OK {
        Some(ResponseView::Eval(Ok(f.payload)))
    } else if f.tag == TAG_EVAL_ERR {
        Some(ResponseView::Eval(Err(f.payload)))
    } else if f.tag == TAG_CALL_OK {
        Some(ResponseView::Call(Ok(f.payload)))
    } else if f.tag == TAG_CALL_ERR {
        Some(ResponseView::Call(Err(f.payload)))
    } else {
        None
    }
}

/// The request that `s` is on the wire, if it is one.
pub open spec fn parse_request(s: Seq<u8>) -> Option<RequestView> {
    match parse_frame(s) {
        Some(f) => frame_request(f),
        None => None,
    }
}

/// The response that `s` is on the wire, if it is one.
pub open spec fn parse_response(s: Seq<u8>) -> Option<ResponseView> {
    match parse_frame(s) {
        Some(f) => frame_response(f),
        None => None,
    }
}

/// Packing one more byte string appends its length and its bytes.
pub proof fn lemma_pack_push(items: Seq<Seq<u8>>, last: Seq<u8>)
    ensures
        pack(items.push(last)) == pack(items) + be_bytes(last.len(), 8) + last,
    decreases items.len(),
{
    let all = items.push(last);
    if items.len() == 0 {
        assert(all.drop_first() == Seq::<Seq<u8>>::empty());
        assert(all[0] == last);
        assert(pack(all.drop_first()) == Seq::<u8>::empty());
        assert(pack(all) =~= be_bytes(last.len(), 8) + last);
        assert(pack(all) =~= pack(items) + be_bytes(last.len(), 8) + last);
    } else {
        assert(all.drop_first() == items.drop_first().push(last));
        lemma_pack_push(items.drop_first(), last);
        assert(pack(all) =~= pack(items) + be_bytes(last.len(), 8) + last);
    }
}

/// The parts of bytes that start with a length and as many bytes as it
/// says.
proof fn lemma_unpack_head(first: Seq<u8>, tail: Seq<u8>)
    requires
        first.len() <= u64::MAX,
    ensures
        ({
            let s = be_bytes(first.len(), 8) + first + tail;
            &&& s.len() == 8 + first.len() + tail.len()
            &&& be_value(s.subrange(0, 8)) == first.len()
            &&& s.subrange(8, 8 + first.len() as int) == first
            &&& s.subrange(8 + first.len() as int, s.len() as int) == tail
        }),
{
    let head = be_bytes(first.len(), 8);
    let s = head + first + tail;
    lemma_be_bytes_len(first.len(), 8);
    lemma_u64_fits(first.len() as u64);
    lemma_be_value_of_bytes(first.len(), 8);
    assert(s.subrange(0, 8) =~= head);
    assert(s.subrange(8, 8 + first.len() as int) =~= first);
    assert(s.subrange(8 + first.len() as int, s.len() as int) =~= tail);
}

/// Unpacking what was packed gives the byte strings back.
pub proof fn lemma_unpack_pack(items: Seq<Seq<u8>>)
    requires
        rows_fit(items),
    ensures
        unpack(pack(items)) == Some(items),
    decreases items.len(),
{
    if items.len() > 0 {
        let first = items[0];
        let rest = items.drop_first();
        assert(rows_fit(rest)) by {
            assert forall|i: int| 0 <= i < rest.len() implies (#[trigger] rest[i]).len()
                <= u64::MAX by {
                assert(rest[i] == items[i + 1]);
            }
        }
        lemma_unpack_pack(rest);
        lemma_unpack_head(first, pack(rest));
        assert(pack(items) == be_bytes(first.len(), 8) + first + pack(rest));
        assert(seq![first] + rest =~= items);
    }
}

/// Decoding an encoded request gives the request back.
pub proof fn lemma_request_round_trip(r: RequestView)
    requires
        request_frame(r).payload.len() <= u64::MAX,
        r matches RequestView::Call(words) ==> rows_fit(words),
    ensures
        parse_request(request_bytes(r)) == Some(r),
{
    lemma_frame_round_trip(request_frame(r));
    if let RequestView::Call(words) = r {
        lemma_unpack_pack(words);
    }
}

/// Decoding an encoded response gives the response back.
pub proof fn lemma_response_round_trip(r: ResponseView)
    requires
        response_frame(r).payload.len() <= u64::MAX,
    ensures
        parse_response(response_bytes(r)) == Some(r),
{
    lemma_frame_round_trip(response_frame(r));
}

/// Appends the bytes of `src` to `out`.
pub(crate) fn append_bytes(out: &mut Vec<u8>, src: &[u8])
    ensures
        final(out)@ == old(out)@ + src@,
{
    let mut i: usize = 0;
    while i < src.len()
        invariant
            i <= src@.len(),
            out@ == old(out)@ + src@.subrange(0, i as int),
        decreases src.len() - i,
    {
        out.push(src[i]);
        i += 1;
    }
    assert(src@.subrange(0, src@.len() as int) == src@);
}

/// The bytes of `src` from `from` up to `to`.
pub(crate) fn copy_range(src: &[u8], from: usize, to: usize) -> (out: Vec<u8>)
    requires
        from <= to <= src@.len(),
    ensures
        out@ == src@.subrange(from as int, to as int),
{
    let mut out: Vec<u8> = Vec::new();
    let mut i: usize = from;
    while i < to
        invariant
            from <= i <= to <= src@.len(),
            out@ == src@.subrange(from as int, i as int),
        decreases to - i,
    {
        out.push(src[i]);
        i += 1;
    }
    out
}

/// Packs byte strings, each behind its length.
pub fn pack_rows(items: &Vec<Vec<u8>>) -> (out: Vec<u8>)
    ensures
        out@ == pack(rows(items@)),
{
    let mut out: Vec<u8> = Vec::new();
    let mut i: usize = 0;
    while i < items.len()
        invariant
            i <= items.len(),
            out@ == pack(rows(items@).subrange(0, i as int)),
        decreases items.len() - i,
    {
        let length = encode_length(items[i].len() as u64);
        proof {
            let done = rows(items@).subrange(0, i as int);
            lemma_pack_push(done, items[i as int]@);
            assert(done.push(items[i as int]@) == rows(items@).subrange(0, i + 1));
        }
        append_bytes(&mut out, length.as_slice());
        append_bytes(&mut out, items[i].as_slice());
        i += 1;
    }
    assert(rows(items@).subrange(0, items.len() as int) == rows(items@));
    out
}

/// Unpacks byte strings that were packed each behind its length.
pub fn unpack_rows(bytes: &[u8]) -> (r: Option<Vec<Vec<u8>>>)
    ensures
        match r {
            Some(items) => unpack(bytes@) == Some(rows(items@)),
            None => unpack(bytes@).is_none(),
        },
{
    let len = bytes.len();
    let mut items: Vec<Vec<u8>> = Vec::new();
    let mut pos: usize = 0;
    proof {
        assert(bytes@.subrange(0, len as int) == bytes@);
        match unpack(bytes@) {
            Some(rest) => {
                assert(rows(items@) + rest == rest);
            },
            None => {},
        }
    }
    while pos < len
        invariant
            pos <= len,
            len == bytes@.len(),
            unpack(bytes@) == match unpack(bytes@.subrange(pos as int, len as int)) {
                Some(rest) => Some(rows(items@) + rest),
                None => None,
            },
        decreases len - pos,
    {
        let ghost tail = bytes@.subrange(pos as int, len as int);
        if len - pos < 8 {
            return None;
        }
        let n = decode_length(bytes, pos);
        assert(tail.subrange(0, 8) == bytes@.subrange(pos as int, pos + 8));
        if n > (len - pos - 8) as u64 {
            return None;
        }
        let start = pos + 8;
        let end = start + n as usize;
        let item = copy_range(bytes, start, end);
        proof {
            assert(tail.subrange(8, 8 + n) == item@);
            assert(tail.subrange(8 + n, tail.len() as int) == bytes@.subrange(
                end as int,
                len as int,
            ));
            let before = rows(items@);
            match unpack(bytes@.subrange(end as int, len as int)) {
                Some(rest) => {
                    assert(before + (seq![item@] + rest) == before.push(item@) + rest);
                },
                None => {},
            }
            assert(rows(items@.push(item)) == before.push(item@));
        }
        items.push(item);
        pos = end;
    }
    assert(bytes@.subrange(len as int, len as int) == Seq::<u8>::empty());
    assert(rows(items@) + Seq::<Seq<u8>>::empty() == rows(items@));
    Some(items)
}

impl TclRequest {
    /// The bytes of this request on the wire.
    pub fn encode(&self) -> (out: Vec<u8>)
        ensures
            out@ == request_bytes(self@),
    {
        let frame = match self {
            TclRequest::Eval(code) => Frame { tag: TAG_EVAL, payload: code.clone() },
            TclRequest::Call(words) => Frame { tag: TAG_CALL, payload: pack_rows(words) },
        };
        frame.encode()
    }

    /// Reads the request that `bytes` is. Bytes that are no whole frame, a
    /// tag that names no request and arguments that do not unpack are
    /// refused.
    pub fn decode(bytes: &[u8]) -> (r: Result<TclRequest, TclError>)
        ensures
            match r {
                Ok(request) => parse_request(bytes@) == Some(request@),
                Err(e) => parse_request(bytes@).is_none() && e@ == corruption_error(),
            },
    {
        let frame = match Frame::decode(bytes) {
            Ok(frame) => frame,
            Err(e) => {
                return Err(e);
            },
        };
        if frame.tag == TAG_EVAL {
            Ok(TclRequest::Eval(frame.payload))
        } else if frame.tag == TAG_CALL {
            match unpack_rows(frame.payload.as_slice()) {
                Some(words) => Ok(TclRequest::Call(words)),
                None => Err(TclError::corruption()),
            }
        } else {
            Err(TclError::corruption())
        }
    }
}

impl TclResponse {
    /// The bytes of this response on the wire.
    pub fn encode(&self) -> (out: Vec<u8>)
        ensures
            out@ == response_bytes(self@),
    {
        let frame = match self {
            TclResponse::Eval(Ok(b)) => Frame { tag: TAG_EVAL_OK, payload: b.clone() },
            TclResponse::Eval(Err(b)) => Frame { tag: TAG_EVAL_ERR, payload: b.clone() },
            TclResponse::Call(Ok(b)) => Frame { tag: TAG_CALL_OK, payload: b.clone() },
            TclResponse::Call(Err(b)) => Frame { tag: TAG_CALL_ERR, payload: b.clone() },
        };
        frame.encode()
    }

    /// Reads the response that `bytes` is. Bytes that are no whole frame and
    /// a tag that names no response are refused.
    pub fn decode(bytes: &[u8]) -> (r: Result<TclResponse, TclError>)
        ensures
            match r {
                Ok(response) => parse_response(bytes@) == Some(response@),
                Err(e) => parse_response(bytes@).is_none() && e@ == corruption_error(),
            },
    {
        let frame = match Frame::decode(bytes) {
            Ok(frame) => frame,
            Err(e) => {
                return Err(e);
            },
        };
        if frame.tag == TAG_EVAL_OK {
            Ok(TclResponse::Eval(Ok(frame.payload)))
        } else if frame.tag == TAG_EVAL_ERR {
            Ok(TclResponse::Eval(Err(frame.payload)))
        } else if frame.tag == TAG_CALL_OK {
            Ok(TclResponse::Call(Ok(frame.payload)))
        } else if frame.tag == TAG_CALL_ERR {
            Ok(TclResponse::Call(Err(frame.payload)))
        } else {
            Err(TclError::corruption())
        }
    }
}

} // verus!
