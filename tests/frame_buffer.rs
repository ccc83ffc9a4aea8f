use screencap::frame::FrameBuffer;

#[test]
fn empty_buffer_has_no_frame() {
    let fb = FrameBuffer::empty();
    assert_eq!(fb.dimensions(), (0, 0));
    assert!(fb.pixels().is_none());
    assert!(fb.snapshot().is_none());
    assert_eq!(fb.pixel(0, 0), None);
}

#[test]
fn deliver_accepts_frame_of_matching_size() {
    let mut fb = FrameBuffer::with_dimensions(2, 1);
    let data = vec![1u8, 2, 3, 4, 5, 6, 7, 8];
    assert!(fb.deliver(None, None, data.clone()));
    assert_eq!(fb.snapshot(), Some(data));
    assert_eq!(fb.dimensions(), (2, 1));
}

#[test]
fn deliver_rejects_frame_of_wrong_size() {
    let mut fb = FrameBuffer::with_dimensions(2, 1);
    assert!(fb.deliver(None, None, vec![9u8; 8]));
    assert!(!fb.deliver(None, None, vec![1u8; 7]));
    assert_eq!(fb.snapshot(), Some(vec![9u8; 8]));
    assert_eq!(fb.dimensions(), (2, 1));
}

#[test]
fn deliver_takes_dimensions_from_metadata_together_with_frame() {
    let mut fb = FrameBuffer::with_dimensions(1280, 720);
    assert!(fb.deliver(Some(2), Some(2), vec![0u8; 16]));
    assert_eq!(fb.dimensions(), (2, 2));
    // metadata and frame disagree: neither is installed
    assert!(!fb.deliver(Some(3), Some(3), vec![0u8; 16]));
    assert_eq!(fb.dimensions(), (2, 2));
}

#[test]
fn deliver_ignores_zero_or_partial_metadata() {
    let mut fb = FrameBuffer::with_dimensions(1, 1);
    assert!(fb.deliver(Some(0), Some(5), vec![0u8; 4]));
    assert_eq!(fb.dimensions(), (1, 1));
    assert!(fb.deliver(Some(2), None, vec![1u8; 4]));
    assert_eq!(fb.dimensions(), (1, 1));
    assert!(!fb.deliver(Some(-2), Some(-2), vec![0u8; 16]));
}

#[test]
fn empty_buffer_accepts_only_empty_frame_without_metadata() {
    let mut fb = FrameBuffer::empty();
    assert!(!fb.deliver(None, None, vec![0u8; 4]));
    assert!(fb.deliver(None, None, vec![]));
    assert_eq!(fb.snapshot(), Some(vec![]));
}

#[test]
fn pixel_reads_rgba_at_position() {
    let mut fb = FrameBuffer::with_dimensions(2, 2);
    let data: Vec<u8> = (0u8..16).collect();
    assert!(fb.deliver(None, None, data));
    assert_eq!(fb.pixel(0, 0), Some([0, 1, 2, 3]));
    assert_eq!(fb.pixel(1, 0), Some([4, 5, 6, 7]));
    assert_eq!(fb.pixel(0, 1), Some([8, 9, 10, 11]));
    assert_eq!(fb.pixel(1, 1), Some([12, 13, 14, 15]));
    assert_eq!(fb.pixel(2, 0), None);
    assert_eq!(fb.pixel(0, 2), None);
    assert_eq!(fb.pixel(-1, 0), None);
    assert_eq!(fb.pixel(0, -1), None);
}

#[test]
fn pixel_without_frame_is_none() {
    let fb = FrameBuffer::with_dimensions(4, 4);
    assert_eq!(fb.pixel(1, 1), None);
}

#[test]
fn buffers_stay_consistent_through_deliveries() {
    let mut fb = FrameBuffer::with_dimensions(3, 3);
    fb.check_consistent();
    fb.deliver(Some(1), Some(1), vec![0u8; 4]);
    fb.check_consistent();
    fb.deliver(Some(5), Some(5), vec![0u8; 4]);
    fb.check_consistent();
    assert_eq!(fb.dimensions(), (1, 1));
}
