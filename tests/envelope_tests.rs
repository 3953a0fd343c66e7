use e2b::envelope::{create_connect_envelope, decode_frames, encode_frame};

#[test]
fn envelope_header_is_flags_then_big_endian_length() {
    let bytes = create_connect_envelope("{}");
    assert_eq!(bytes, vec![0, 0, 0, 0, 2, b'{', b'}']);
    let long = vec![7u8; 300];
    let framed = encode_frame(2, &long);
    assert_eq!(&framed[..5], &[2, 0, 0, 1, 44]);
    assert_eq!(framed.len(), 305);
}

#[test]
fn envelope_round_trip_gives_one_frame() {
    let payload = b"{\"event\":{\"start\":{\"pid\":42}}}".to_vec();
    let bytes = encode_frame(0, &payload);
    let (frames, used) = decode_frames(&bytes);
    assert_eq!(frames.len(), 1);
    assert_eq!(frames[0].flags, 0);
    assert_eq!(frames[0].payload, payload);
    assert_eq!(used, bytes.len());
}

#[test]
fn empty_payload_is_a_valid_frame() {
    let bytes = encode_frame(0, &[]);
    let (frames, used) = decode_frames(&bytes);
    assert_eq!(frames.len(), 1);
    assert!(frames[0].payload.is_empty());
    assert_eq!(used, 5);
}

#[test]
fn partial_frame_is_left_for_later() {
    let bytes = encode_frame(0, b"hello");
    for cut in 0..bytes.len() {
        let (frames, used) = decode_frames(&bytes[..cut]);
        assert!(frames.is_empty());
        assert_eq!(used, 0);
    }
}

#[test]
fn split_feed_gives_same_frames_as_whole() {
    let mut all = encode_frame(0, b"first");
    all.extend(encode_frame(0, b""));
    all.extend(encode_frame(2, b"third one"));
    let (whole, whole_used) = decode_frames(&all);
    assert_eq!(whole.len(), 3);
    assert_eq!(whole_used, all.len());
    for cut in 0..=all.len() {
        let (first, used) = decode_frames(&all[..cut]);
        let mut rest = all[used..cut].to_vec();
        rest.extend_from_slice(&all[cut..]);
        let (second, used2) = decode_frames(&rest);
        assert_eq!(used2, rest.len());
        let payloads: Vec<Vec<u8>> = first.iter().chain(second.iter()).map(|f| f.payload.clone()).collect();
        let flags: Vec<u8> = first.iter().chain(second.iter()).map(|f| f.flags).collect();
        assert_eq!(payloads, vec![b"first".to_vec(), vec![], b"third one".to_vec()]);
        assert_eq!(flags, vec![0, 0, 2]);
    }
}
