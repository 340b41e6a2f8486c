use config_store::framing::{payload, FrameBuffer};
use config_store::protocol::EOT;

#[test]
fn delimiter_is_end_of_transmission() {
    assert_eq!(EOT, 0x04);
}

#[test]
fn new_buffer_is_empty() {
    let mut buffer = FrameBuffer::new();
    assert_eq!(buffer.len(), 0);
    assert_eq!(buffer.next_frame(), None);
    assert_eq!(buffer.take_rest(), None);
    assert_eq!(buffer.drain(), Vec::<Vec<u8>>::new());
}

#[test]
fn frame_runs_through_its_delimiter() {
    let mut buffer = FrameBuffer::new();
    buffer.push(b"abc\x04def");
    assert_eq!(buffer.len(), 7);
    assert_eq!(buffer.next_frame(), Some(b"abc\x04".to_vec()));
    assert_eq!(buffer.len(), 3);
    assert_eq!(buffer.next_frame(), None);
    assert_eq!(buffer.len(), 3);
    assert_eq!(buffer.take_rest(), Some(b"def".to_vec()));
    assert_eq!(buffer.len(), 0);
}

#[test]
fn frame_completed_by_a_later_read() {
    let mut buffer = FrameBuffer::new();
    buffer.push(b"{\"jsonrpc\":");
    assert_eq!(buffer.next_frame(), None);
    buffer.push(b"\"2.0\"}");
    assert_eq!(buffer.next_frame(), None);
    buffer.push(b"\x04");
    assert_eq!(buffer.next_frame(), Some(b"{\"jsonrpc\":\"2.0\"}\x04".to_vec()));
    assert_eq!(buffer.next_frame(), None);
    assert_eq!(buffer.len(), 0);
}

#[test]
fn drain_takes_every_whole_frame() {
    let mut buffer = FrameBuffer::new();
    buffer.push(b"one\x04two\x04\x04thr");
    assert_eq!(
        buffer.drain(),
        vec![b"one\x04".to_vec(), b"two\x04".to_vec(), b"\x04".to_vec()]
    );
    assert_eq!(buffer.len(), 3);
    buffer.push(b"ee\x04");
    assert_eq!(buffer.drain(), vec![b"three\x04".to_vec()]);
    assert_eq!(buffer.len(), 0);
}

#[test]
fn framing_does_not_depend_on_the_chunks() {
    let stream: &[u8] = b"a\x04bc\x04\x04def\x04gh";
    let mut whole = FrameBuffer::new();
    whole.push(stream);
    let expected = whole.drain();
    assert_eq!(expected.len(), 4);
    for cut in 0..=stream.len() {
        let mut buffer = FrameBuffer::new();
        buffer.push(&stream[..cut]);
        let mut frames = buffer.drain();
        buffer.push(&stream[cut..]);
        frames.extend(buffer.drain());
        assert_eq!(frames, expected);
        assert_eq!(buffer.take_rest(), Some(b"gh".to_vec()));
    }
}

#[test]
fn frames_and_rest_rejoin_to_the_stream() {
    let stream: &[u8] = b"\x04x\x04yz\x04tail";
    let mut buffer = FrameBuffer::new();
    buffer.push(stream);
    let mut joined: Vec<u8> = Vec::new();
    for frame in buffer.drain() {
        assert_eq!(frame.last(), Some(&EOT));
        assert_eq!(frame.iter().filter(|byte| **byte == EOT).count(), 1);
        joined.extend(frame);
    }
    let rest = buffer.take_rest().unwrap_or_default();
    assert!(!rest.contains(&EOT));
    joined.extend(rest);
    assert_eq!(joined, stream.to_vec());
}

#[test]
fn payload_is_the_frame_without_its_delimiter() {
    assert_eq!(payload(b"abc\x04"), b"abc");
    assert_eq!(payload(b"\x04"), b"");
    assert_eq!(payload(b"abc"), b"abc");
    assert_eq!(payload(b""), b"");
    assert_eq!(payload(b"a\x04\x04"), b"a\x04");
}
