use libretto::codec::{encode_for_topic, encode_frame, FrameBuffer};

fn decode_all(buf: &mut FrameBuffer) -> Vec<(Vec<u8>, Vec<u8>)> {
    buf.decode_frames()
        .into_iter()
        .map(|f| (f.topic, f.payload))
        .collect()
}

#[test]
fn round_trip_simple() {
    let topic = b"LibrettoTopic".to_vec();
    let payload = b"{\"action\":\"Copy\"}".to_vec();
    let frame = encode_frame(&topic, &payload);
    let mut buf = FrameBuffer::new();
    buf.feed(&frame);
    let frames = decode_all(&mut buf);
    assert_eq!(frames, vec![(topic, payload)]);
    assert_eq!(buf.len(), 0);
}

#[test]
fn round_trip_empty_payload() {
    let topic = b"FilesystemTopic".to_vec();
    let payload: Vec<u8> = Vec::new();
    let frame = encode_frame(&topic, &payload);
    assert_eq!(frame.len(), 16 + topic.len());
    let mut buf = FrameBuffer::new();
    buf.feed(&frame);
    let frames = decode_all(&mut buf);
    assert_eq!(frames, vec![(topic, payload)]);
    assert_eq!(buf.len(), 0);
}

#[test]
fn round_trip_arbitrary_bytes() {
    // Payload bytes that are not valid UTF-8: the codec must not assume text.
    let topic = b"t".to_vec();
    let payload = vec![0xffu8, 0x00, 0xfe, 0x80, 0x01, 0xff];
    let frame = encode_frame(&topic, &payload);
    let mut buf = FrameBuffer::new();
    buf.feed(&frame);
    let frames = decode_all(&mut buf);
    assert_eq!(frames, vec![(topic, payload)]);
}

#[test]
fn round_trip_empty_topic() {
    let topic: Vec<u8> = Vec::new();
    let payload = b"data".to_vec();
    let frame = encode_frame(&topic, &payload);
    let mut buf = FrameBuffer::new();
    buf.feed(&frame);
    let frames = decode_all(&mut buf);
    assert_eq!(frames, vec![(topic, payload)]);
}

#[test]
fn header_layout_big_endian() {
    let topic = b"abc".to_vec();
    let payload = b"hello".to_vec();
    let frame = encode_frame(&topic, &payload);
    // 8-byte big-endian payload length first, then 8-byte topic length.
    assert_eq!(&frame[0..8], &[0, 0, 0, 0, 0, 0, 0, 5]);
    assert_eq!(&frame[8..16], &[0, 0, 0, 0, 0, 0, 0, 3]);
    assert_eq!(&frame[16..19], b"abc");
    assert_eq!(&frame[19..24], b"hello");
}

#[test]
fn encode_for_topic_uses_utf8_bytes() {
    let payload = b"x".to_vec();
    let by_str = encode_for_topic("LibrettoTopic", &payload);
    let by_bytes = encode_frame(&b"LibrettoTopic".to_vec(), &payload);
    assert_eq!(by_str, by_bytes);
}

#[test]
fn partial_frame_split_at_every_boundary() {
    let topic = b"FilesystemTopic".to_vec();
    let payload = b"{\"kind\":\"modify\"}".to_vec();
    let frame = encode_frame(&topic, &payload);
    for split in 0..frame.len() {
        let mut buf = FrameBuffer::new();
        buf.feed(&frame[..split].to_vec());
        assert!(decode_all(&mut buf).is_empty(), "early frame at split {split}");
        assert_eq!(buf.len(), split, "buffered bytes lost at split {split}");
        buf.feed(&frame[split..].to_vec());
        let frames = decode_all(&mut buf);
        assert_eq!(frames, vec![(topic.clone(), payload.clone())]);
        assert_eq!(buf.len(), 0);
    }
}

#[test]
fn partial_frame_one_byte_at_a_time() {
    let topic = b"t".to_vec();
    let payload = vec![9u8, 8, 7];
    let frame = encode_frame(&topic, &payload);
    let mut buf = FrameBuffer::new();
    let mut seen = Vec::new();
    for (i, byte) in frame.iter().enumerate() {
        buf.feed(&vec![*byte]);
        let frames = decode_all(&mut buf);
        if i + 1 < frame.len() {
            assert!(frames.is_empty(), "frame emitted before byte {}", frame.len());
        }
        seen.extend(frames);
    }
    assert_eq!(seen, vec![(topic, payload)]);
}

#[test]
fn multi_frame_batch_in_one_read() {
    let t1 = b"FilesystemTopic".to_vec();
    let p1 = b"first".to_vec();
    let t2 = b"LibrettoTopic".to_vec();
    let p2 = b"second".to_vec();
    let mut both = encode_frame(&t1, &p1);
    both.extend_from_slice(&encode_frame(&t2, &p2));
    let mut buf = FrameBuffer::new();
    buf.feed(&both);
    let frames = decode_all(&mut buf);
    assert_eq!(frames, vec![(t1, p1), (t2, p2)]);
    assert_eq!(buf.len(), 0);
}

#[test]
fn completeness_counts_header_topic_and_payload() {
    // A frame is complete only when header + topic + payload are buffered.
    // Counting the payload alone would wrongly emit once 16 + payload bytes
    // arrive; a non-trivial topic must hold the frame back.
    let topic = b"abcdefgh".to_vec();
    let payload = vec![1u8, 2];
    let frame = encode_frame(&topic, &payload);
    assert_eq!(frame.len(), 26);
    let mut buf = FrameBuffer::new();
    buf.feed(&frame[..18].to_vec());
    assert!(decode_all(&mut buf).is_empty());
    buf.feed(&frame[18..].to_vec());
    assert_eq!(decode_all(&mut buf), vec![(topic, payload)]);
}

#[test]
fn trailing_partial_frame_stays_buffered() {
    let t1 = b"a".to_vec();
    let p1 = b"one".to_vec();
    let t2 = b"b".to_vec();
    let p2 = b"two".to_vec();
    let mut bytes = encode_frame(&t1, &p1);
    let second = encode_frame(&t2, &p2);
    bytes.extend_from_slice(&second[..second.len() - 1]);
    let mut buf = FrameBuffer::new();
    buf.feed(&bytes);
    assert_eq!(decode_all(&mut buf), vec![(t1, p1)]);
    assert_eq!(buf.len(), second.len() - 1);
    buf.feed(&vec![second[second.len() - 1]]);
    assert_eq!(decode_all(&mut buf), vec![(t2, p2)]);
}
