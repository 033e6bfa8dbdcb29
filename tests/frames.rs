use rose_offline_client::field::DecodeError;
use rose_offline_client::packet::{encode_frame, FrameReader, Packet};

#[test]
fn frame_header_holds_size_and_command() {
    let packet = Packet { command: 0x783, data: vec![b'h', b'i', 0] };
    assert_eq!(encode_frame(&packet), Some(vec![9, 0, 0x83, 0x07, 0, 0, b'h', b'i', 0]));
}

#[test]
fn largest_frame_is_accepted_and_larger_is_refused() {
    let fits = Packet { command: 1, data: vec![7; 65535 - 6] };
    let bytes = encode_frame(&fits).unwrap();
    assert_eq!(&bytes[..2], &[0xff, 0xff]);
    let too_large = Packet { command: 1, data: vec![7; 65535 - 5] };
    assert_eq!(encode_frame(&too_large), None);
}

#[test]
fn frames_are_reassembled_across_reads() {
    let a = encode_frame(&Packet { command: 0x753, data: vec![1, 2, 3] }).unwrap();
    let b = encode_frame(&Packet { command: 0x79a, data: vec![] }).unwrap();
    let mut stream = a.clone();
    stream.extend_from_slice(&b);
    let mut reader = FrameReader::new();
    reader.push_bytes(&stream[..4]);
    assert!(matches!(reader.next_packet(), Ok(None)));
    reader.push_bytes(&stream[4..]);
    let first = reader.next_packet().unwrap().unwrap();
    assert_eq!((first.command, first.data), (0x753, vec![1, 2, 3]));
    let second = reader.next_packet().unwrap().unwrap();
    assert_eq!((second.command, second.data), (0x79a, vec![]));
    assert!(matches!(reader.next_packet(), Ok(None)));
    assert_eq!(reader.finish(), Ok(()));
}

#[test]
fn stream_ending_inside_a_frame_is_truncated() {
    let frame = encode_frame(&Packet { command: 0x783, data: vec![b'x', 0] }).unwrap();
    for k in 1..frame.len() {
        let mut reader = FrameReader::new();
        reader.push_bytes(&frame[..k]);
        assert!(matches!(reader.next_packet(), Ok(None)));
        assert_eq!(reader.finish(), Err(DecodeError::Truncated));
    }
}

#[test]
fn size_word_below_header_is_malformed() {
    let mut reader = FrameReader::new();
    reader.push_bytes(&[5, 0, 0x83, 0x07, 0, 0, 1]);
    assert!(matches!(reader.next_packet(), Err(DecodeError::Malformed)));
}
