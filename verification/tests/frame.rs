use frame_pipeline::frame::Frame;
use frame_pipeline::geometry::Region;
use std::sync::Arc;

#[test]
fn frame_without_a_buffer_has_no_data() {
    assert!(!Frame::default().has_data());
    assert!(!Frame { buffer: None, ..Default::default() }.has_data());
    assert!(!Frame { buffer: Some(Arc::new(Vec::new())), ..Default::default() }.has_data());
    assert!(Frame { buffer: Some(Arc::new(vec![0])), ..Default::default() }.has_data());
}

#[test]
fn frame_tells_its_region() {
    let frame = Frame { x: 1, y: 2, width: 3, height: 4, ..Default::default() };
    assert_eq!(frame.region(), Region { x: 1, y: 2, width: 3, height: 4 });
}

#[test]
fn frames_compare_their_full_size() {
    let a = Frame { full_width: 100, full_height: 100, ..Default::default() };
    let b = Frame { full_width: 100, full_height: 100, x: 5, ..Default::default() };
    let c = Frame { full_width: 200, full_height: 100, ..Default::default() };
    let d = Frame { full_width: 100, full_height: 200, ..Default::default() };
    assert!(a.has_size_of(&b));
    assert!(!a.has_size_of(&c));
    assert!(!a.has_size_of(&d));
}

#[test]
fn frame_is_uploadable_when_its_buffer_holds_the_full_frame() {
    let bytes = Arc::new(vec![0u8; 2 * 3 * 4]);
    let frame = Frame { width: 2, height: 3, full_width: 2, full_height: 3, buffer: Some(bytes.clone()), ..Default::default() };
    assert!(frame.is_uploadable());
    let larger = Frame { buffer: Some(Arc::new(vec![0u8; 100])), width: 2, height: 3, full_width: 2, full_height: 3, ..Default::default() };
    assert!(larger.is_uploadable());
    let short = Frame { buffer: Some(Arc::new(vec![0u8; 23])), width: 2, height: 3, full_width: 2, full_height: 3, ..Default::default() };
    assert!(!short.is_uploadable());
    let spill = Frame { x: 1, width: 2, height: 3, full_width: 2, full_height: 3, buffer: Some(bytes.clone()), ..Default::default() };
    assert!(!spill.is_uploadable());
    let none = Frame { width: 2, height: 3, full_width: 2, full_height: 3, ..Default::default() };
    assert!(!none.is_uploadable());
    let huge = Frame { full_width: i32::MAX, full_height: i32::MAX, buffer: Some(bytes), ..Default::default() };
    assert!(!huge.is_uploadable());
}
