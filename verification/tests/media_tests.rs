use wsl_cam_bridge::media::{camera_frame_jpeg, encode_jpeg, test_pattern_jpeg, CameraFrame, FrameEncoding};
use wsl_cam_bridge::generate_test_card;

fn is_jpeg(b: &[u8]) -> bool {
    b.len() > 4 && b[0] == 0xFF && b[1] == 0xD8 && b[b.len() - 2] == 0xFF && b[b.len() - 1] == 0xD9
}

#[test]
fn test_pattern_is_a_jpeg_of_the_card() {
    let jpeg = test_pattern_jpeg(160, 120, 3);
    assert!(is_jpeg(&jpeg));
    let card = generate_test_card(160, 120, 3);
    assert_eq!(Some(jpeg), encode_jpeg(&card, 160, 120));
}

#[test]
fn test_pattern_with_zero_height_is_empty() {
    assert!(test_pattern_jpeg(100, 0, 0).is_empty());
    assert!(test_pattern_jpeg(0, 10, 0).is_empty());
}

#[test]
fn narrow_test_pattern_is_a_jpeg() {
    let jpeg = test_pattern_jpeg(64, 48, 0);
    assert!(is_jpeg(&jpeg));
    assert_eq!(Some(jpeg), encode_jpeg(&generate_test_card(64, 48, 0), 64, 48));
    assert!(is_jpeg(&test_pattern_jpeg(1, 1, 9)));
}

#[test]
fn encoder_refuses_empty_and_huge_pictures() {
    assert_eq!(encode_jpeg(&[], 0, 10), None);
    assert_eq!(encode_jpeg(&[], 10, 0), None);
    let wide = vec![0u8; 65536 * 3];
    assert_eq!(encode_jpeg(&wide, 65536, 1), None);
    assert!(encode_jpeg(&vec![0u8; 65535 * 3], 65535, 1).is_some());
}

#[test]
fn encoder_output_is_not_its_input() {
    let rgb = vec![200u8; 8 * 8 * 3];
    let jpeg = encode_jpeg(&rgb, 8, 8).unwrap();
    assert!(is_jpeg(&jpeg));
    assert_ne!(jpeg, rgb);
}

fn frame(encoding: FrameEncoding, width: u32, height: u32, data: Vec<u8>) -> CameraFrame {
    CameraFrame { encoding, width, height, data }
}

#[test]
fn raw_rgb_frame_is_encoded_as_is() {
    let rgb: Vec<u8> = (0..(4 * 4 * 3)).map(|i| (i * 7) as u8).collect();
    let got = camera_frame_jpeg(&frame(FrameEncoding::RawRgb, 4, 4, rgb.clone()));
    assert_eq!(got, encode_jpeg(&rgb, 4, 4));
    assert!(got.is_some());
}

#[test]
fn raw_bgr_frame_is_swapped_before_encoding() {
    let bgr: Vec<u8> = (0..(4 * 4 * 3)).map(|i| (i * 13) as u8).collect();
    let mut rgb = bgr.clone();
    for px in rgb.chunks_exact_mut(3) {
        px.swap(0, 2);
    }
    let got = camera_frame_jpeg(&frame(FrameEncoding::RawBgr, 4, 4, bgr.clone()));
    assert_eq!(got, encode_jpeg(&rgb, 4, 4));
    assert_ne!(got, encode_jpeg(&bgr, 4, 4));
}

#[test]
fn gray_frame_is_expanded_to_rgb() {
    let gray: Vec<u8> = (0..16).map(|i| (i * 16) as u8).collect();
    let rgb: Vec<u8> = gray.iter().flat_map(|g| [*g, *g, *g]).collect();
    let got = camera_frame_jpeg(&frame(FrameEncoding::Gray, 4, 4, gray));
    assert_eq!(got, encode_jpeg(&rgb, 4, 4));
}

#[test]
fn mjpeg_frame_is_decoded_and_encoded_again() {
    let rgb = vec![90u8; 16 * 16 * 3];
    let source = encode_jpeg(&rgb, 16, 16).unwrap();
    let got = camera_frame_jpeg(&frame(FrameEncoding::Mjpeg, 16, 16, source)).unwrap();
    assert!(is_jpeg(&got));
}

#[test]
fn short_yuyv_gives_none() {
    // YUYV needs four bytes for two pixels
    assert_eq!(camera_frame_jpeg(&frame(FrameEncoding::Yuyv, 2, 1, vec![1, 2, 3])), None);
}

#[test]
fn too_few_rgb_bytes_give_none() {
    assert_eq!(camera_frame_jpeg(&frame(FrameEncoding::RawRgb, 4, 4, vec![0; 10])), None);
}

#[test]
fn too_many_rgb_bytes_give_none() {
    assert_eq!(camera_frame_jpeg(&frame(FrameEncoding::RawRgb, 2, 2, vec![0; 13])), None);
}

#[test]
fn odd_nv12_gives_none() {
    // NV12 needs even sides
    assert_eq!(camera_frame_jpeg(&frame(FrameEncoding::Nv12, 3, 2, vec![0; 9])), None);
}

#[test]
fn zero_width_frame_gives_none() {
    // zero width decodes but cannot be encoded
    assert_eq!(camera_frame_jpeg(&frame(FrameEncoding::RawRgb, 0, 4, vec![])), None);
}

#[test]
fn yuyv_and_nv12_frames_are_encoded() {
    let yuyv = vec![128u8; 4 * 2 * 2];
    assert!(camera_frame_jpeg(&frame(FrameEncoding::Yuyv, 4, 2, yuyv)).is_some());
    let nv12 = vec![128u8; 4 * 2 * 3 / 2];
    assert!(camera_frame_jpeg(&frame(FrameEncoding::Nv12, 4, 2, nv12)).is_some());
}

#[test]
fn zero_width_nv12_frames_that_fail_the_size_checks_give_none() {
    // odd height: refused before any row is split
    assert_eq!(camera_frame_jpeg(&frame(FrameEncoding::Nv12, 0, 3, vec![])), None);
    // data where none is expected: refused too
    assert_eq!(camera_frame_jpeg(&frame(FrameEncoding::Nv12, 0, 2, vec![1])), None);
}
