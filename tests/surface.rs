use cef_plugin::surface::FrameBuffer;

#[test]
fn new_surface_is_clean_and_zeroed() {
    let mut s = FrameBuffer::new(2, 3);
    assert!(s.take_if_dirty().is_none());
}

#[test]
fn take_twice_yields_once() {
    let mut s = FrameBuffer::new(1, 1);
    s.update(&[1, 2, 3, 4], 1, 1);
    let first = s.take_if_dirty();
    assert_eq!(first, Some((vec![1, 2, 3, 4], 1, 1)));
    assert!(s.take_if_dirty().is_none());
}

#[test]
fn resize_zero_fills_and_marks_dirty() {
    let mut s = FrameBuffer::new(1, 1);
    s.update(&[1, 2, 3, 4], 1, 1);
    s.resize(2, 1);
    assert_eq!(s.take_if_dirty(), Some((vec![0u8; 8], 2, 1)));
}

#[test]
fn short_write_is_rejected() {
    let mut s = FrameBuffer::new(1, 1);
    s.update(&[1, 2, 3, 4], 1, 1);
    assert!(s.take_if_dirty().is_some());
    s.update(&[5, 6, 7], 1, 1);
    assert!(s.take_if_dirty().is_none());
    s.update(&[5, 6, 7, 8, 9, 10, 11], 2, 1);
    assert!(s.take_if_dirty().is_none());
    s.resize(1, 1);
    s.update(&[5, 6, 7], 1, 1);
    assert_eq!(s.take_if_dirty(), Some((vec![0u8; 4], 1, 1)));
}

#[test]
fn write_of_new_size_resizes() {
    let mut s = FrameBuffer::new(1, 1);
    s.update(&[1, 2, 3, 4, 5, 6, 7, 8, 99], 2, 1);
    let (data, w, h) = s.take_if_dirty().unwrap();
    assert_eq!((w, h), (2, 1));
    assert_eq!(data.len(), 8);
    assert_eq!(data, vec![1, 2, 3, 4, 5, 6, 7, 8]);
}
