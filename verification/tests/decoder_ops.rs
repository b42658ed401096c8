use lame4j::decoder::{
    create_decoder, decode_next_frame, destroy_decoder, get_bit_rate, get_channel_count,
    get_sample_rate, header_parsed, DecodeSession,
};
use lame4j::errors::CodecError;
use lame4j::handles::Registry;
use lame4j::stream::{normalize_read, ByteSource, SliceSource};

fn fresh_registry() -> Registry<DecodeSession> {
    Registry::new()
}

/// One valid MPEG-1 layer III frame: 44100 Hz, 128 kb/s, stereo, no
/// padding, all audio data zeroed (silence).  417 bytes.
fn silent_frame() -> Vec<u8> {
    let mut frame = vec![0u8; 417];
    frame[0] = 0xFF;
    frame[1] = 0xFB;
    frame[2] = 0x90;
    frame[3] = 0x00;
    frame
}

/// A short compressed stream: several identical silent frames.
fn silent_stream() -> Vec<u8> {
    let mut data = Vec::new();
    for _ in 0..8 {
        data.extend_from_slice(&silent_frame());
    }
    data
}

#[test]
fn accessors_report_sentinel_before_first_frame() {
    let mut reg = fresh_registry();
    let handle = create_decoder(&mut reg);
    assert_ne!(handle, 0);
    assert_eq!(header_parsed(&reg, handle).unwrap(), false);
    assert_eq!(get_channel_count(&reg, handle).unwrap(), -1);
    assert_eq!(get_bit_rate(&reg, handle).unwrap(), -1);
    assert_eq!(get_sample_rate(&reg, handle).unwrap(), -1);
}

#[test]
fn exhausted_stream_yields_no_data_result_every_time() {
    let mut reg = fresh_registry();
    let handle = create_decoder(&mut reg);
    for _ in 0..3 {
        let mut source = SliceSource::empty();
        let r = decode_next_frame(&mut reg, handle, &mut source);
        assert!(matches!(r, Ok(None)));
    }
    // Still no header: an exhausted stream never fabricates one.
    assert_eq!(header_parsed(&reg, handle).unwrap(), false);
    assert_eq!(get_channel_count(&reg, handle).unwrap(), -1);
}

#[test]
fn first_frame_populates_header() {
    let mut reg = fresh_registry();
    let handle = create_decoder(&mut reg);
    let mut source = SliceSource::new(silent_stream());
    let samples = decode_next_frame(&mut reg, handle, &mut source)
        .unwrap()
        .expect("a valid stream yields a frame");
    assert!(!samples.is_empty());
    assert_eq!(samples.len(), 2 * 1152);
    assert_eq!(header_parsed(&reg, handle).unwrap(), true);
    assert_eq!(get_channel_count(&reg, handle).unwrap(), 2);
    assert_eq!(get_sample_rate(&reg, handle).unwrap(), 44100);
    assert_eq!(get_bit_rate(&reg, handle).unwrap(), 128);
}

#[test]
fn consumed_stream_then_yields_no_data_and_keeps_header() {
    let mut reg = fresh_registry();
    let handle = create_decoder(&mut reg);
    let mut source = SliceSource::new(silent_stream());
    let mut frames = 0;
    loop {
        match decode_next_frame(&mut reg, handle, &mut source) {
            Ok(Some(_)) => frames += 1,
            Ok(None) => break,
            Err(e) => panic!("unexpected decode failure: {:?}", e),
        }
        assert!(frames <= 16);
    }
    assert!(frames >= 1);
    // Once the stream is fully consumed, every further call reports the
    // explicit no-data result, never an error, and the header stays.
    for _ in 0..3 {
        let mut drained = SliceSource::empty();
        let r = decode_next_frame(&mut reg, handle, &mut drained);
        assert!(matches!(r, Ok(None)));
    }
    assert_eq!(get_channel_count(&reg, handle).unwrap(), 2);
    assert_eq!(get_sample_rate(&reg, handle).unwrap(), 44100);
}

#[test]
fn destroyed_decoder_reports_closed_handle() {
    let mut reg = fresh_registry();
    let handle = create_decoder(&mut reg);
    assert!(destroy_decoder(&mut reg, handle));
    assert!(matches!(header_parsed(&reg, handle), Err(CodecError::ClosedHandle)));
    assert!(matches!(get_channel_count(&reg, handle), Err(CodecError::ClosedHandle)));
    assert!(matches!(get_bit_rate(&reg, handle), Err(CodecError::ClosedHandle)));
    assert!(matches!(get_sample_rate(&reg, handle), Err(CodecError::ClosedHandle)));
    let mut source = SliceSource::empty();
    let r = decode_next_frame(&mut reg, handle, &mut source);
    assert!(matches!(r, Err(CodecError::ClosedHandle)));
    // A second destroy is a no-op, not a crash.
    assert!(!destroy_decoder(&mut reg, handle));
}

#[test]
fn zero_decoder_handle_is_always_closed() {
    let mut reg = fresh_registry();
    let _ = create_decoder(&mut reg);
    assert!(matches!(get_channel_count(&reg, 0), Err(CodecError::ClosedHandle)));
    let mut source = SliceSource::empty();
    let r = decode_next_frame(&mut reg, 0, &mut source);
    assert!(matches!(r, Err(CodecError::ClosedHandle)));
}

#[test]
fn slice_source_hands_out_successive_spans() {
    let mut source = SliceSource::new(vec![1u8, 2, 3, 4, 5]);
    assert_eq!(source.pull(2).unwrap(), vec![1u8, 2]);
    assert_eq!(source.pull(2).unwrap(), vec![3u8, 4]);
    assert_eq!(source.pull(2).unwrap(), vec![5u8]);
    assert_eq!(source.pull(2).unwrap(), Vec::<u8>::new());
    assert_eq!(source.pull(2).unwrap(), Vec::<u8>::new());
}

#[test]
fn normalize_read_maps_nonpositive_counts_to_no_data() {
    assert_eq!(normalize_read(-1, vec![1u8, 2, 3]), Vec::<u8>::new());
    assert_eq!(normalize_read(0, vec![1u8, 2, 3]), Vec::<u8>::new());
    assert_eq!(normalize_read(2, vec![1u8, 2, 3]), vec![1u8, 2]);
}

/// A stream whose callback always fails.
struct FailingSource;

impl ByteSource for FailingSource {
    fn pull(&mut self, _max_len: usize) -> Result<Vec<u8>, String> {
        Err("stream callback unavailable".to_string())
    }
}

#[test]
fn failing_stream_surfaces_stream_error() {
    let mut reg = fresh_registry();
    let handle = create_decoder(&mut reg);
    let mut source = FailingSource;
    let r = decode_next_frame(&mut reg, handle, &mut source);
    assert!(matches!(r, Err(CodecError::StreamIOError(_))));
    // The failure leaves the session in place: the handle stays valid and
    // the header is untouched.
    assert_eq!(header_parsed(&reg, handle).unwrap(), false);
    assert_eq!(get_channel_count(&reg, handle).unwrap(), -1);
}
