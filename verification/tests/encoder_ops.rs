use lame4j::encoder::{
    create_encoder, destroy_encoder, estimate_mp3_buffer_size, finish_encode, finish_flush,
    mode_for_channels, prepare_flush, prepare_write, EncodeSession, EncoderMode, FLUSH_BUFFER_LEN,
};
use lame4j::errors::CodecError;
use lame4j::handles::Registry;

fn fresh_registry() -> Registry<EncodeSession> {
    Registry::new()
}

#[test]
fn estimate_matches_worst_case_formula() {
    // ceil(1.25 * n + 7200) for a few exact points.
    assert_eq!(estimate_mp3_buffer_size(0), 7200);
    assert_eq!(estimate_mp3_buffer_size(1), 7202);
    assert_eq!(estimate_mp3_buffer_size(5), 7207);
    assert_eq!(estimate_mp3_buffer_size(1152), 8640);
    assert_eq!(estimate_mp3_buffer_size(2304), 10080);
}

#[test]
fn mode_policy_is_one_bit() {
    assert_eq!(mode_for_channels(1), EncoderMode::JointStereo);
    assert_eq!(mode_for_channels(2), EncoderMode::Mono);
}

#[test]
fn create_encoder_accepts_good_configuration() {
    let mut reg = fresh_registry();
    let handle = create_encoder(&mut reg, 2, 44100, 128, 5, 0).unwrap();
    assert_ne!(handle, 0);
}

#[test]
fn create_encoder_refuses_rejected_configuration() {
    let mut reg = fresh_registry();
    let r = create_encoder(&mut reg, 2, 44100, 128, 5, -1);
    assert!(matches!(r, Err(CodecError::InitializationFailure(-1))));
}

#[test]
fn create_encoder_refuses_unsupported_channel_count() {
    let mut reg = fresh_registry();
    let r = create_encoder(&mut reg, 3, 44100, 128, 5, 0);
    assert!(matches!(r, Err(CodecError::InitializationFailure(_))));
    let r = create_encoder(&mut reg, 0, 44100, 128, 5, 0);
    assert!(matches!(r, Err(CodecError::InitializationFailure(_))));
}

#[test]
fn write_rejects_length_not_multiple_of_channels() {
    // Five samples cannot be interleaved over two channels: the argument
    // error is decided before any native work.
    let mut reg = fresh_registry();
    let handle = create_encoder(&mut reg, 2, 44100, 128, 5, 0).unwrap();
    let r = prepare_write(&reg, handle, 5);
    assert!(matches!(r, Err(CodecError::ArgumentError)));
}

#[test]
fn write_plan_sizes_scratch_for_worst_case() {
    let mut reg = fresh_registry();
    let handle = create_encoder(&mut reg, 2, 44100, 128, 5, 0).unwrap();
    let plan = prepare_write(&reg, handle, 1152).unwrap();
    assert_eq!(plan.channels, 2);
    assert_eq!(plan.samples_per_channel, 576);
    assert_eq!(plan.scratch_len, 2 * 8640);
    // A simulated native step reporting 417 bytes hands back exactly that
    // many, never the oversized scratch.
    let scratch = vec![0u8; plan.scratch_len as usize];
    let out = finish_encode(scratch, 417).unwrap();
    assert_eq!(out.len(), 417);
    assert!(out.len() <= plan.scratch_len as usize);
}

#[test]
fn finish_encode_copies_exactly_the_reported_prefix() {
    let scratch = vec![7u8, 9, 11, 13];
    let out = finish_encode(scratch, 2).unwrap();
    assert_eq!(out, vec![7u8, 9]);
}

#[test]
fn finish_encode_surfaces_negative_count_as_encode_error() {
    let scratch = vec![0u8; 16];
    let r = finish_encode(scratch, -3);
    assert!(matches!(r, Err(CodecError::NativeEncodeError(-3))));
}

#[test]
fn flush_returns_at_most_its_fixed_scratch() {
    let mut reg = fresh_registry();
    let handle = create_encoder(&mut reg, 1, 8000, 64, 7, 0).unwrap();
    let scratch_len = prepare_flush(&reg, handle).unwrap();
    assert_eq!(scratch_len, FLUSH_BUFFER_LEN);
    let out = finish_flush(vec![0u8; scratch_len], scratch_len as i32).unwrap();
    assert_eq!(out.len(), FLUSH_BUFFER_LEN);
    let out = finish_flush(vec![0u8; scratch_len], 100).unwrap();
    assert_eq!(out.len(), 100);
    assert!(out.len() <= 7200);
}

#[test]
fn destroyed_encoder_handle_reports_closed() {
    let mut reg = fresh_registry();
    let handle = create_encoder(&mut reg, 2, 48000, 192, 2, 0).unwrap();
    assert!(destroy_encoder(&mut reg, handle));
    let r = prepare_write(&reg, handle, 4);
    assert!(matches!(r, Err(CodecError::ClosedHandle)));
    let r = prepare_flush(&reg, handle);
    assert!(matches!(r, Err(CodecError::ClosedHandle)));
    // Destroying again is a no-op, not a crash.
    assert!(!destroy_encoder(&mut reg, handle));
}

#[test]
fn zero_encoder_handle_is_always_closed() {
    let reg = fresh_registry();
    assert!(matches!(prepare_write(&reg, 0, 4), Err(CodecError::ClosedHandle)));
    assert!(matches!(prepare_flush(&reg, 0), Err(CodecError::ClosedHandle)));
}

#[test]
fn sessions_on_distinct_handles_are_independent() {
    let mut reg = fresh_registry();
    let stereo = create_encoder(&mut reg, 2, 44100, 128, 5, 0).unwrap();
    let mono = create_encoder(&mut reg, 1, 16000, 32, 9, 0).unwrap();
    assert_ne!(stereo, mono);
    destroy_encoder(&mut reg, stereo);
    // The mono session still answers after its sibling is gone.
    let plan = prepare_write(&reg, mono, 3).unwrap();
    assert_eq!(plan.channels, 1);
    assert_eq!(plan.samples_per_channel, 3);
}
