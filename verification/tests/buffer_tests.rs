use termusic::buffer::{AdaptiveBuffer, BoundedBuffer, ReadOutcome};

#[test]
fn adaptive_read_past_downloaded_region_waits_then_succeeds() {
    let mut b = AdaptiveBuffer::with_prefetch(4);
    b.write(&[1, 2, 3]);
    match b.read(3) {
        ReadOutcome::Data(bytes) => assert_eq!(bytes, vec![1, 2, 3]),
        ReadOutcome::Pending => panic!("data was available"),
    }
    // past the downloaded region: wait, do not error
    assert!(matches!(b.read(1), ReadOutcome::Pending));
    // once more data arrives the same read succeeds
    b.write(&[4, 5]);
    match b.read(1) {
        ReadOutcome::Data(bytes) => assert_eq!(bytes, vec![4]),
        ReadOutcome::Pending => panic!("data had arrived"),
    }
}

#[test]
fn adaptive_backward_seek_reads_identical_bytes() {
    let mut b = AdaptiveBuffer::with_prefetch(4);
    let payload: Vec<u8> = (0..32).collect();
    b.write(&payload[..20]);
    b.write(&payload[20..]);
    match b.read(32) {
        ReadOutcome::Data(bytes) => assert_eq!(bytes, payload),
        ReadOutcome::Pending => panic!("data was available"),
    }
    // seek back into the already-downloaded (spilled) range
    assert!(b.seek(5));
    match b.read(10) {
        ReadOutcome::Data(bytes) => assert_eq!(bytes, payload[5..15].to_vec()),
        ReadOutcome::Pending => panic!("data was available"),
    }
    // a seek beyond the downloaded region is refused
    assert!(!b.seek(1000));
}

#[test]
fn adaptive_finished_stream_reports_end_instead_of_waiting() {
    let mut b = AdaptiveBuffer::with_prefetch(4);
    b.write(&[9]);
    b.mark_finished();
    match b.read(5) {
        ReadOutcome::Data(bytes) => assert_eq!(bytes, vec![9]),
        ReadOutcome::Pending => panic!("data was available"),
    }
    match b.read(5) {
        ReadOutcome::Data(bytes) => assert_eq!(bytes, Vec::<u8>::new()),
        ReadOutcome::Pending => panic!("the stream had ended"),
    }
}

#[test]
fn bounded_write_is_throttled_at_capacity() {
    // prefetch 4 gives capacity 8
    let mut b = BoundedBuffer::with_prefetch(4);
    let accepted = b.write(&[0, 1, 2, 3, 4, 5]);
    assert_eq!(accepted, 6);
    // only 2 of 5 fit: the producer must retry the rest later
    let accepted = b.write(&[6, 7, 8, 9, 10]);
    assert_eq!(accepted, 2);
    // a full window accepts nothing
    assert_eq!(b.write(&[99]), 0);
    // consuming frees the window
    match b.read(4) {
        ReadOutcome::Data(bytes) => assert_eq!(bytes, vec![0, 1, 2, 3]),
        ReadOutcome::Pending => panic!("data was available"),
    }
    assert_eq!(b.write(&[8, 9, 10]), 3);
    match b.read(16) {
        ReadOutcome::Data(bytes) => assert_eq!(bytes, vec![4, 5, 6, 7, 8, 9, 10]),
        ReadOutcome::Pending => panic!("data was available"),
    }
}

#[test]
fn bounded_empty_window_waits_unless_finished() {
    let mut b = BoundedBuffer::with_prefetch(2);
    assert!(matches!(b.read(1), ReadOutcome::Pending));
    b.mark_finished();
    match b.read(1) {
        ReadOutcome::Data(bytes) => assert_eq!(bytes, Vec::<u8>::new()),
        ReadOutcome::Pending => panic!("the stream had ended"),
    }
}
