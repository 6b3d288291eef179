use babble::audio::{AudioDeviceInfo, AudioRingBuffer, RecordingState};

fn bits(values: &[f32]) -> Vec<u32> {
    values.iter().map(|v| v.to_bits()).collect()
}

fn floats(samples: &[u32]) -> Vec<f32> {
    samples.iter().map(|b| f32::from_bits(*b)).collect()
}

#[test]
fn test_new_buffer() {
    let buffer = AudioRingBuffer::new(1024);
    assert_eq!(buffer.capacity(), 1024);
    assert!(buffer.is_empty());
    assert_eq!(buffer.len(), 0);
}

#[test]
fn buffer_test_write_read() {
    let mut buffer = AudioRingBuffer::new(1024);
    let data: Vec<f32> = (0..100).map(|i| i as f32).collect();

    let written = buffer.write(&bits(&data));
    assert_eq!(written, 100);
    assert_eq!(buffer.len(), 100);

    let read_data = buffer.read(100);
    assert_eq!(read_data.len(), 100);
    assert_eq!(floats(&read_data), data);
    assert!(buffer.is_empty());
}

#[test]
fn test_overflow() {
    let mut buffer = AudioRingBuffer::new(10);
    let data: Vec<f32> = (0..20).map(|i| i as f32).collect();

    let written = buffer.write(&bits(&data));
    assert_eq!(written, 20);

    let read_data = buffer.read(20);
    assert_eq!(read_data.len(), 10);
}

#[test]
fn test_overflow_drops_oldest() {
    let mut buffer = AudioRingBuffer::new(10);
    let data: Vec<f32> = (0..20).map(|i| i as f32).collect();

    let written = buffer.write(&bits(&data));
    assert_eq!(written, 20);

    let read_data = buffer.read(20);
    assert_eq!(read_data.len(), 10);
    let expected: Vec<f32> = (10..20).map(|i| i as f32).collect();
    assert_eq!(floats(&read_data), expected);
}

#[test]
fn test_clear() {
    let mut buffer = AudioRingBuffer::new(100);
    buffer.write(&bits(&[1.0, 2.0, 3.0]));
    assert_eq!(buffer.len(), 3);

    buffer.clear();
    assert!(buffer.is_empty());
}

#[test]
fn test_partial_read() {
    let mut buffer = AudioRingBuffer::new(100);
    buffer.write(&bits(&[1.0, 2.0, 3.0, 4.0, 5.0]));

    let data = buffer.read(3);
    assert_eq!(floats(&data), vec![1.0, 2.0, 3.0]);
    assert_eq!(buffer.len(), 2);

    let remaining = buffer.read(10);
    assert_eq!(floats(&remaining), vec![4.0, 5.0]);
}

#[test]
fn read_all_takes_everything_in_order() {
    let mut buffer = AudioRingBuffer::new(4);
    buffer.write(&[1, 2, 3]);
    buffer.write(&[4, 5]);
    assert_eq!(buffer.read_all(), vec![2, 3, 4, 5]);
    assert!(buffer.is_empty());
    assert_eq!(buffer.capacity(), 4);
}

#[test]
fn writing_in_pieces_matches_one_write() {
    let mut pieces = AudioRingBuffer::new(5);
    pieces.write(&[1, 2, 3, 4]);
    pieces.write(&[5, 6, 7]);
    let mut once = AudioRingBuffer::new(5);
    once.write(&[1, 2, 3, 4, 5, 6, 7]);
    assert_eq!(pieces.read_all(), once.read_all());
}

#[test]
fn write_that_fits_is_kept_whole() {
    let mut buffer = AudioRingBuffer::new(3);
    buffer.write(&[7, 8, 9]);
    assert_eq!(buffer.read(10), vec![7, 8, 9]);
}

#[test]
fn read_zero_takes_nothing() {
    let mut buffer = AudioRingBuffer::new(3);
    buffer.write(&[1, 2]);
    assert!(buffer.read(0).is_empty());
    assert_eq!(buffer.len(), 2);
}

#[test]
fn test_recording_state_default() {
    let state = RecordingState::default();
    assert_eq!(state, RecordingState::Idle);
}

#[test]
fn test_is_recording() {
    assert!(!RecordingState::Idle.is_recording());
    assert!(RecordingState::Recording.is_recording());
    assert!(!RecordingState::Processing.is_recording());
}

#[test]
fn test_is_active() {
    assert!(!RecordingState::Idle.is_active());
    assert!(RecordingState::Recording.is_active());
    assert!(RecordingState::Processing.is_active());
}

#[test]
fn test_display() {
    assert_eq!(RecordingState::Idle.to_display_string(), "Idle");
    assert_eq!(RecordingState::Recording.to_display_string(), "Recording");
    assert_eq!(RecordingState::Processing.to_display_string(), "Processing");
}

#[test]
fn device_info_holds_its_fields() {
    let info = AudioDeviceInfo { name: "Mic".to_string(), is_default: true };
    let copy = info.clone();
    assert_eq!(copy.name, "Mic");
    assert!(copy.is_default);
}
