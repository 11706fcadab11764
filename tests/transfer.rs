use cef_plugin::transfer::{bgra_to_rgba, compress_frame, DirtyRect, FrameBatch};
use cef_plugin::types::FrameData;

fn frame(id: &str, data: Vec<u8>) -> FrameData {
    FrameData {
        browser_id: id.to_string(),
        width: 1,
        height: 1,
        format: "BGRA8".to_string(),
        data,
    }
}

#[test]
fn test_bgra_to_rgba() {
    let mut data = vec![
        0, 128, 255, 255, // BGRA: Blue=0, Green=128, Red=255, Alpha=255
    ];
    bgra_to_rgba(&mut data);
    assert_eq!(data, vec![255, 128, 0, 255]); // RGBA
}

#[test]
fn test_dirty_rect_merge() {
    let a = DirtyRect { x: 0, y: 0, width: 100, height: 100 };
    let b = DirtyRect { x: 50, y: 50, width: 100, height: 100 };
    let merged = a.merge(&b);

    assert_eq!(merged.x, 0);
    assert_eq!(merged.y, 0);
    assert_eq!(merged.width, 150);
    assert_eq!(merged.height, 150);
}

#[test]
fn channel_swap_twice_restores() {
    let original = vec![0u8, 128, 255, 255];
    let mut data = original.clone();
    bgra_to_rgba(&mut data);
    assert_eq!(data, vec![255, 128, 0, 255]);
    bgra_to_rgba(&mut data);
    assert_eq!(data, original);
}

#[test]
fn channel_swap_leaves_partial_pixel() {
    let mut data = vec![1u8, 2, 3, 4, 5, 6, 7, 8, 9, 10];
    bgra_to_rgba(&mut data);
    assert_eq!(data, vec![3, 2, 1, 4, 7, 6, 5, 8, 9, 10]);
}

#[test]
fn channel_swap_empty() {
    let mut data: Vec<u8> = Vec::new();
    bgra_to_rgba(&mut data);
    assert!(data.is_empty());
}

#[test]
fn merge_covers_both_disjoint() {
    let a = DirtyRect { x: 10, y: 20, width: 5, height: 5 };
    let b = DirtyRect { x: 100, y: 0, width: 10, height: 3 };
    let m = a.merge(&b);
    assert_eq!((m.x, m.y, m.width, m.height), (10, 0, 100, 25));
    let m2 = b.merge(&a);
    assert_eq!((m2.x, m2.y, m2.width, m2.height), (10, 0, 100, 25));
}

#[test]
fn merge_contained_rect() {
    let a = DirtyRect { x: 0, y: 0, width: 100, height: 100 };
    let b = DirtyRect { x: 10, y: 10, width: 5, height: 5 };
    let m = a.merge(&b);
    assert_eq!((m.x, m.y, m.width, m.height), (0, 0, 100, 100));
}

#[test]
fn full_rect() {
    let r = DirtyRect::full(640, 480);
    assert_eq!((r.x, r.y, r.width, r.height), (0, 0, 640, 480));
}

#[test]
fn batch_counts_bytes() {
    let mut batch = FrameBatch::new();
    assert!(batch.is_empty());
    assert_eq!(batch.total_bytes, 0);
    batch.add(frame("a", vec![1, 2, 3, 4]));
    batch.add(frame("b", vec![0; 8]));
    assert!(!batch.is_empty());
    assert_eq!(batch.frames.len(), 2);
    assert_eq!(batch.total_bytes, 12);
    assert_eq!(batch.frames[1].browser_id, "b");
}

#[test]
fn compress_returns_raw_pixels() {
    let f = frame("a", vec![9, 8, 7, 6]);
    assert_eq!(compress_frame(&f), vec![9, 8, 7, 6]);
}
