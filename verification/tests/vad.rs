use babble::audio::vad::{check_sample_rate, chunk_size};
use babble::error::ProtoError;

#[test]
fn test_invalid_sample_rate() {
    assert!(check_sample_rate(44100).is_err());
}

#[test]
fn test_chunk_size() {
    assert_eq!(check_sample_rate(16000).unwrap(), 512);
}

#[test]
fn chunk_sizes_by_rate() {
    assert_eq!(chunk_size(8000), 256);
    assert_eq!(chunk_size(16000), 512);
    assert_eq!(chunk_size(22050), 512);
    assert_eq!(check_sample_rate(8000).unwrap(), 256);
    match check_sample_rate(44100) {
        Err(ProtoError::ConfigError(m)) => assert_eq!(m, "Invalid sample rate: 44100. Must be 8000 or 16000"),
        _ => panic!("expected a configuration error"),
    }
}
