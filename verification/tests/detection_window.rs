use toolchanger_utils::detection_window::DetectionWindow;

#[test]
fn default_window_sizes() {
    let w: DetectionWindow<(i32, i32)> = DetectionWindow::default();
    assert_eq!(w.window_size(), 45);
    assert_eq!(w.min_samples(), 5);
    assert_eq!(w.frame_count(), 0);
    assert_eq!(w.detection_count(), 0);
    assert!(!w.ready());
    assert!(w.all_detected());
}

#[test]
fn ready_after_enough_detections() {
    let mut w: DetectionWindow<u32> = DetectionWindow::with_size(10, 3);
    w.add_frame(Some(1));
    w.add_frame(None);
    w.add_frame(Some(2));
    assert!(!w.ready());
    assert!(!w.all_detected());
    w.add_frame(Some(3));
    assert!(w.ready());
    assert_eq!(w.frame_count(), 4);
    assert_eq!(w.detection_count(), 3);
}

#[test]
fn full_window_evicts_oldest() {
    let mut w: DetectionWindow<u32> = DetectionWindow::with_size(3, 1);
    assert_eq!(w.add_frame(Some(1)), None);
    assert_eq!(w.add_frame(None), None);
    assert_eq!(w.add_frame(Some(3)), None);
    assert_eq!(w.frame_count(), 3);
    // The oldest frame (a detection) leaves.
    assert_eq!(w.add_frame(Some(4)), Some(1));
    assert_eq!(w.detection_count(), 2);
    // The oldest frame now holds no detection.
    assert_eq!(w.add_frame(Some(5)), None);
    assert_eq!(w.detection_count(), 3);
    assert!(w.all_detected());
    assert_eq!(w.frame_count(), 3);
}

#[test]
fn window_holds_only_latest_frames() {
    let mut w: DetectionWindow<u32> = DetectionWindow::default();
    for i in 0..100u32 {
        let frame = if i % 2 == 0 { Some(i) } else { None };
        w.add_frame(frame);
        assert!(w.frame_count() <= 45);
    }
    assert_eq!(w.frame_count(), 45);
    // Frames 55..100: the even ones are detections.
    assert_eq!(w.detection_count(), 22);
}

#[test]
fn clear_forgets_frames() {
    let mut w: DetectionWindow<u32> = DetectionWindow::with_size(4, 1);
    w.add_frame(Some(1));
    w.add_frame(Some(2));
    w.clear();
    assert_eq!(w.frame_count(), 0);
    assert_eq!(w.detection_count(), 0);
    assert_eq!(w.window_size(), 4);
    assert_eq!(w.min_samples(), 1);
    assert!(!w.ready());
}
