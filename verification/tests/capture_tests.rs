use wsl_cam_bridge::capture::{
    CameraRead, CaptureState, CaptureTargets, OpenOutcome, REOPEN_INTERVAL_MS, TEST_PATTERN_NAME,
    UNKNOWN_CAMERA_NAME,
};
use wsl_cam_bridge::media::test_pattern_jpeg;

#[test]
fn initial_targets() {
    let t = CaptureTargets::initial();
    assert_eq!(t, CaptureTargets { camera_index: 0, width: 1280, height: 720 });
}

#[test]
fn fresh_state_opens_at_once() {
    let s = CaptureState::new();
    assert!(!s.camera_open);
    assert_eq!(s.camera_name, UNKNOWN_CAMERA_NAME);
    assert_eq!((s.frame_count, s.fps_counter), (0, 0));
    // the state was opened for nothing, so any targets differ
    assert!(s.needs_open(CaptureTargets::initial(), 0, true));
    assert!(!s.needs_open(CaptureTargets::initial(), 0, false));
}

#[test]
fn opened_camera_stays_until_targets_change() {
    let mut s = CaptureState::new();
    let t = CaptureTargets::initial();
    s.record_open(t, OpenOutcome::Opened { name: "Integrated Webcam".to_string() });
    assert!(s.camera_open);
    assert_eq!(s.current, t);
    assert_eq!(s.camera_name, "Integrated Webcam");
    assert!(!s.needs_open(t, 0, true));
    assert!(!s.needs_open(t, 1_000_000, true));
    assert!(s.needs_open(CaptureTargets { width: 1920, height: 1080, ..t }, 0, true));
    assert!(s.needs_open(CaptureTargets { camera_index: 1, ..t }, 0, true));
}

#[test]
fn missing_camera_is_retried_after_two_seconds() {
    let mut s = CaptureState::new();
    let t = CaptureTargets::initial();
    s.record_open(t, OpenOutcome::Opened { name: "Cam".to_string() });
    let p = s.publish_step(t, CameraRead::Failed, 0);
    assert!(!p.from_camera);
    assert!(!s.camera_open);
    assert!(!s.needs_open(t, REOPEN_INTERVAL_MS - 1, true));
    assert!(s.needs_open(t, REOPEN_INTERVAL_MS, true));
    s.record_open(t, OpenOutcome::Unavailable);
    assert_eq!(s.camera_name, "Cam");
    assert!(!s.needs_open(t, 10, true));
    s.record_open(t, OpenOutcome::Failed { name: "Cam 2".to_string() });
    assert!(!s.camera_open);
    assert_eq!(s.camera_name, "Cam 2");
    assert_eq!(s.current, t);
}

#[test]
fn failed_first_open_is_retried_every_turn() {
    // nothing was ever opened, so the targets keep differing from the state
    let mut s = CaptureState::new();
    let t = CaptureTargets::initial();
    s.record_open(t, OpenOutcome::Unavailable);
    assert!(s.needs_open(t, 0, true));
}

#[test]
fn camera_frames_are_published_as_they_came() {
    let mut s = CaptureState::new();
    let t = CaptureTargets::initial();
    s.record_open(t, OpenOutcome::Opened { name: "Cam".to_string() });
    let p = s.publish_step(t, CameraRead::Frame { jpeg: vec![1, 2, 3], width: 640, height: 480 }, 10);
    assert_eq!((p.jpeg, p.width, p.height, p.frame_count), (vec![1, 2, 3], 640, 480, 1));
    assert_eq!(p.camera_name, "Cam");
    assert!(p.from_camera);
    assert_eq!(p.fps_window, None);
    assert!(s.camera_open);
}

#[test]
fn test_card_is_published_without_a_frame() {
    let t = CaptureTargets { camera_index: 0, width: 160, height: 120 };
    for read in [CameraRead::NoCamera, CameraRead::Unusable, CameraRead::Failed] {
        let mut s = CaptureState::new();
        let p = s.publish_step(t, read, 0);
        assert_eq!(p.jpeg, test_pattern_jpeg(160, 120, 0));
        assert_eq!((p.width, p.height, p.frame_count), (160, 120, 1));
        assert_eq!(p.camera_name, TEST_PATTERN_NAME);
        assert!(!p.from_camera);
    }
    // the card shows the count before the frame is counted
    let mut s = CaptureState::new();
    s.publish_step(t, CameraRead::NoCamera, 0);
    let p = s.publish_step(t, CameraRead::NoCamera, 0);
    assert_eq!(p.jpeg, test_pattern_jpeg(160, 120, 1));
    assert_eq!(p.frame_count, 2);
}

#[test]
fn counts_run_one_two_three() {
    let mut s = CaptureState::new();
    let t = CaptureTargets { camera_index: 0, width: 8, height: 4 };
    let reads = vec![
        CameraRead::NoCamera,
        CameraRead::Frame { jpeg: vec![9], width: 2, height: 2 },
        CameraRead::Unusable,
        CameraRead::Failed,
    ];
    for (n, read) in reads.into_iter().enumerate() {
        let p = s.publish_step(t, read, (n as u64) * 700);
        assert_eq!(p.frame_count, n as u64 + 1);
    }
}

#[test]
fn frames_and_rate_window() {
    let mut s = CaptureState::new();
    let t = CaptureTargets { camera_index: 0, width: 100, height: 2 };
    for _ in 0..4 {
        assert_eq!(s.publish_step(t, CameraRead::NoCamera, 999).fps_window, None);
    }
    assert_eq!((s.frame_count, s.fps_counter), (4, 4));
    let p = s.publish_step(t, CameraRead::NoCamera, 1000);
    assert_eq!(p.fps_window, Some(5));
    assert_eq!((s.frame_count, s.fps_counter), (5, 0));
    assert_eq!(s.publish_step(t, CameraRead::NoCamera, 5000).fps_window, Some(1));
}

#[test]
fn test_pattern_name() {
    assert_eq!(TEST_PATTERN_NAME, "WSL-Cam-Bridge: Live Test Pattern (Connect camera anytime)");
}
