use tclinterp::postoffice::{pack_rows, unpack_rows};
use tclinterp::{ErrorKind, Frame, TclRequest, TclResponse};

#[test]
fn frame_layout_is_tag_length_payload() {
    let frame = Frame { tag: 7, payload: b"hello".to_vec() };
    assert_eq!(
        frame.encode(),
        vec![7, 0, 0, 0, 0, 0, 0, 0, 5, b'h', b'e', b'l', b'l', b'o']
    );
}

#[test]
fn frame_length_is_big_endian() {
    let frame = Frame { tag: 1, payload: vec![0xab; 258] };
    let bytes = frame.encode();
    assert_eq!(&bytes[..9], &[1, 0, 0, 0, 0, 0, 0, 1, 2]);
    assert_eq!(bytes.len(), 9 + 258);
}

#[test]
fn frame_round_trip() {
    let frame = Frame { tag: 200, payload: vec![0, 1, 2, 255, 0] };
    let back = Frame::decode(&frame.encode()).unwrap();
    assert_eq!(back.tag, 200);
    assert_eq!(back.payload, vec![0, 1, 2, 255, 0]);
}

#[test]
fn frame_empty_payload() {
    let frame = Frame { tag: 3, payload: Vec::new() };
    assert_eq!(frame.encode(), vec![3, 0, 0, 0, 0, 0, 0, 0, 0]);
    let back = Frame::decode(&[3, 0, 0, 0, 0, 0, 0, 0, 0]).unwrap();
    assert_eq!(back.tag, 3);
    assert!(back.payload.is_empty());
}

#[test]
fn frame_short_header_is_refused() {
    let err = Frame::decode(&[1, 0, 0, 0]).unwrap_err();
    assert_eq!(err.kind(), ErrorKind::ProtocolCorruption);
}

#[test]
fn frame_short_payload_is_refused() {
    let err = Frame::decode(&[1, 0, 0, 0, 0, 0, 0, 0, 3, b'a', b'b']).unwrap_err();
    assert_eq!(err.kind(), ErrorKind::ProtocolCorruption);
    assert_eq!(err.0, "Corrupt message");
}

#[test]
fn frame_trailing_bytes_are_refused() {
    assert!(Frame::decode(&[1, 0, 0, 0, 0, 0, 0, 0, 1, b'a', b'b']).is_err());
}

#[test]
fn frame_huge_length_is_refused() {
    assert!(Frame::decode(&[1, 255, 255, 255, 255, 255, 255, 255, 255, 1]).is_err());
}

#[test]
fn frame_payload_len_reads_header() {
    assert_eq!(Frame::payload_len(&[9, 0, 0, 0, 0, 0, 0, 2, 1]), Some(513));
    assert_eq!(Frame::payload_len(&[9, 0, 0]), None);
    assert_eq!(Frame::payload_len(&[9, 0, 0, 0, 0, 0, 0, 2, 1, 0]), None);
}

#[test]
fn request_eval_bytes() {
    let request = TclRequest::Eval(b"set a 1".to_vec());
    let bytes = request.encode();
    assert_eq!(bytes[0], 1);
    assert_eq!(&bytes[1..9], &[0, 0, 0, 0, 0, 0, 0, 7]);
    assert_eq!(&bytes[9..], b"set a 1");
    match TclRequest::decode(&bytes).unwrap() {
        TclRequest::Eval(code) => assert_eq!(code, b"set a 1".to_vec()),
        other => panic!("unexpected request {:?}", other),
    }
}

#[test]
fn request_call_round_trip() {
    let words = vec![b"list".to_vec(), Vec::new(), b"c and d".to_vec()];
    let bytes = TclRequest::Call(words.clone()).encode();
    assert_eq!(bytes[0], 2);
    match TclRequest::decode(&bytes).unwrap() {
        TclRequest::Call(back) => assert_eq!(back, words),
        other => panic!("unexpected request {:?}", other),
    }
}

#[test]
fn request_unknown_tag_is_refused() {
    let bytes = Frame { tag: 9, payload: Vec::new() }.encode();
    assert_eq!(TclRequest::decode(&bytes).unwrap_err().kind(), ErrorKind::ProtocolCorruption);
    assert_eq!(TclResponse::decode(&bytes).unwrap_err().kind(), ErrorKind::ProtocolCorruption);
}

#[test]
fn request_call_with_cut_argument_is_refused() {
    let mut payload = pack_rows(&vec![b"abc".to_vec()]);
    payload.pop();
    let bytes = Frame { tag: 2, payload }.encode();
    assert!(TclRequest::decode(&bytes).is_err());
}

#[test]
fn response_round_trips() {
    let cases = vec![
        (TclResponse::Eval(Ok(b"42".to_vec())), 3u8),
        (TclResponse::Eval(Err(b"bad".to_vec())), 4u8),
        (TclResponse::Call(Ok(b"x".to_vec())), 5u8),
        (TclResponse::Call(Err(Vec::new())), 6u8),
    ];
    for (response, tag) in cases {
        let bytes = response.encode();
        assert_eq!(bytes[0], tag);
        let back = TclResponse::decode(&bytes).unwrap();
        assert_eq!(format!("{:?}", back), format!("{:?}", response));
    }
}

#[test]
fn pack_layout() {
    let packed = pack_rows(&vec![b"ab".to_vec(), b"c".to_vec()]);
    assert_eq!(
        packed,
        vec![0, 0, 0, 0, 0, 0, 0, 2, b'a', b'b', 0, 0, 0, 0, 0, 0, 0, 1, b'c']
    );
    assert_eq!(unpack_rows(&packed), Some(vec![b"ab".to_vec(), b"c".to_vec()]));
    assert_eq!(unpack_rows(&[]), Some(Vec::new()));
    assert_eq!(unpack_rows(&[0, 0, 0]), None);
}
