use flate2::write::ZlibEncoder;
use flate2::Compression;
use gateway_wire::gateway::ws::{
    decoded_event, frame_policy, inflated_payload, recv_payload, text_capacity, CloseFrame, Frame,
    Payload, Polled, RecvError, DECOMPRESSION_MULTIPLIER, TIMEOUT_MILLIS,
};
use std::io::Write;

fn deflate(text: &str) -> Vec<u8> {
    let mut encoder = ZlibEncoder::new(Vec::new(), Compression::default());
    encoder.write_all(text.as_bytes()).unwrap();
    encoder.finish().unwrap()
}

const HELLO: &str = "{\"op\":10,\"d\":{\"heartbeat_interval\":41250},\"s\":null,\"t\":null}";

#[test]
fn nothing_in_time_is_no_error() {
    let outcome = recv_payload(Polled::<String>::TimedOut);
    assert!(matches!(outcome, Ok(None)));
    assert_eq!(TIMEOUT_MILLIS, 500);
}

#[test]
fn an_ended_stream_is_no_error() {
    let outcome = recv_payload(Polled::<String>::Ended);
    assert!(matches!(outcome, Ok(None)));
}

#[test]
fn a_transport_error_is_handed_on() {
    let outcome = recv_payload(Polled::Failed(String::from("connection reset")));
    match outcome {
        Err(RecvError::Transport(error)) => assert_eq!(error, "connection reset"),
        other => panic!("not a transport error: {:?}", other),
    }
}

#[test]
fn a_text_frame_is_its_own_payload() {
    let outcome = recv_payload(Polled::<String>::Frame(Frame::Text(String::from(HELLO))));
    match outcome {
        Ok(Some(payload)) => {
            assert_eq!(payload, Payload { text: String::from(HELLO), compressed: None });
        },
        other => panic!("no payload: {:?}", other),
    }
}

#[test]
fn a_binary_frame_is_inflated() {
    let bytes = deflate(HELLO);
    assert_ne!(bytes, HELLO.as_bytes());
    let outcome = recv_payload(Polled::<String>::Frame(Frame::Binary(bytes.clone())));
    match outcome {
        Ok(Some(payload)) => {
            assert_eq!(payload.text, HELLO);
            assert_eq!(payload.compressed, Some(bytes));
        },
        other => panic!("no payload: {:?}", other),
    }
}

#[test]
fn a_compressed_envelope_reads_like_its_text() {
    let texts = [String::new(), String::from("{}"), String::from(HELLO), "äöü ✓ ".repeat(5000)];
    for text in texts {
        let plain = recv_payload(Polled::<String>::Frame(Frame::Text(text.clone())));
        let packed = recv_payload(Polled::<String>::Frame(Frame::Binary(deflate(&text))));
        match (plain, packed) {
            (Ok(Some(plain)), Ok(Some(packed))) => {
                assert_eq!(plain.text, packed.text);
                assert_eq!(packed.text, text);
            },
            other => panic!("no payloads: {:?}", other),
        }
    }
}

#[test]
fn a_corrupt_binary_frame_is_an_error_with_its_bytes() {
    let mut bytes = deflate(HELLO);
    let middle = bytes.len() / 2;
    bytes[middle] ^= 0xff;
    bytes[2] ^= 0xff;
    let outcome = recv_payload(Polled::<String>::Frame(Frame::Binary(bytes.clone())));
    match outcome {
        Err(RecvError::Decompression { bytes: kept, cause: _ }) => {
            assert_eq!(kept.len(), bytes.len());
            assert_eq!(kept, bytes);
        },
        other => panic!("not a decompression error: {:?}", other),
    }
}

#[test]
fn a_binary_frame_that_is_no_zlib_stream_is_an_error() {
    for bytes in [Vec::new(), vec![0u8], HELLO.as_bytes().to_vec(), vec![0xff; 64]] {
        let outcome = recv_payload(Polled::<String>::Frame(Frame::Binary(bytes.clone())));
        match outcome {
            Err(RecvError::Decompression { bytes: kept, .. }) => assert_eq!(kept, bytes),
            other => panic!("not a decompression error: {:?}", other),
        }
    }
}

#[test]
fn a_truncated_binary_frame_is_an_error() {
    let mut bytes = deflate(&"a long enough text ".repeat(100));
    bytes.truncate(bytes.len() - 6);
    let outcome = recv_payload(Polled::<String>::Frame(Frame::Binary(bytes.clone())));
    match outcome {
        Err(RecvError::Decompression { bytes: kept, cause }) => {
            assert_eq!(kept, bytes);
            assert_eq!(cause.kind(), std::io::ErrorKind::UnexpectedEof);
        },
        other => panic!("not a decompression error: {:?}", other),
    }
}

#[test]
fn a_binary_frame_that_inflates_to_no_text_is_an_error() {
    let mut encoder = ZlibEncoder::new(Vec::new(), Compression::default());
    encoder.write_all(&[0xff, 0xfe, 0xfd]).unwrap();
    let bytes = encoder.finish().unwrap();
    let outcome = recv_payload(Polled::<String>::Frame(Frame::Binary(bytes.clone())));
    match outcome {
        Err(RecvError::Decompression { bytes: kept, cause }) => {
            assert_eq!(kept, bytes);
            assert_eq!(cause.kind(), std::io::ErrorKind::InvalidData);
        },
        other => panic!("not a decompression error: {:?}", other),
    }
}

#[test]
fn a_close_frame_with_reason_is_surfaced() {
    let frame = CloseFrame { code: 4000, reason: String::from("test") };
    let outcome = recv_payload(Polled::<String>::Frame(Frame::Close(Some(frame))));
    match outcome {
        Err(RecvError::Closed(frame)) => {
            assert_eq!(frame.code, 4000);
            assert_eq!(frame.reason, "test");
        },
        other => panic!("not a close: {:?}", other),
    }
}

#[test]
fn other_frames_are_nothing_this_cycle() {
    let frames = [
        Frame::Ping(vec![1, 2, 3]),
        Frame::Pong(Vec::new()),
        Frame::Close(None),
        Frame::Raw,
    ];
    for frame in frames {
        let outcome = recv_payload(Polled::<String>::Frame(frame));
        assert!(matches!(outcome, Ok(None)));
    }
}

#[test]
fn inflated_payload_keeps_text_or_bytes() {
    let ok = inflated_payload::<String>(vec![1, 2], Ok(String::from("text")));
    match ok {
        Ok(Some(payload)) => {
            assert_eq!(payload.text, "text");
            assert_eq!(payload.compressed, Some(vec![1, 2]));
        },
        other => panic!("no payload: {:?}", other),
    }
    let cause = std::io::Error::new(std::io::ErrorKind::InvalidInput, "corrupt deflate stream");
    let failed = inflated_payload::<String>(vec![1, 2, 3], Err(cause));
    match failed {
        Err(RecvError::Decompression { bytes, cause }) => {
            assert_eq!(bytes, vec![1, 2, 3]);
            assert_eq!(cause.kind(), std::io::ErrorKind::InvalidInput);
        },
        other => panic!("not a decompression error: {:?}", other),
    }
}

#[test]
fn text_capacity_is_three_times_the_input() {
    assert_eq!(DECOMPRESSION_MULTIPLIER, 3);
    assert_eq!(text_capacity(0), 0);
    assert_eq!(text_capacity(1), 3);
    assert_eq!(text_capacity(1000), 3000);
    assert_eq!(text_capacity(isize::MAX as usize / 3), isize::MAX as usize / 3 * 3);
    assert_eq!(text_capacity(isize::MAX as usize / 3 + 1), 0);
    assert_eq!(text_capacity(usize::MAX), 0);
}

#[test]
fn frame_policy_caps_nothing_and_wants_masks() {
    let policy = frame_policy();
    assert_eq!(policy.max_message_size, None);
    assert_eq!(policy.max_frame_size, None);
    assert_eq!(policy.max_send_queue, None);
    assert!(!policy.accept_unmasked_frames);
}

#[test]
fn a_decoded_payload_is_the_event() {
    let payload = Payload { text: String::from("7"), compressed: None };
    let decoded: Result<u32, String> = Ok(7);
    match decoded_event(payload, decoded) {
        Ok(event) => assert_eq!(event, Some(7)),
        Err(error) => panic!("not decoded: {:?}", error),
    }
}

#[test]
fn a_payload_that_does_not_decode_is_kept_whole() {
    let payload = Payload { text: String::from("{"), compressed: Some(vec![1, 2, 3]) };
    let decoded: Result<u32, String> = Err(String::from("EOF while parsing an object"));
    match decoded_event(payload.clone(), decoded) {
        Err(error) => {
            assert_eq!(error.payload, payload);
            assert_eq!(error.cause, "EOF while parsing an object");
        },
        Ok(event) => panic!("decoded: {:?}", event),
    }
}
