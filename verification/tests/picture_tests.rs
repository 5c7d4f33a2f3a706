use wsl_cam_bridge::generate_test_card;
use wsl_cam_bridge::icon::camera_icon_rgba;
use wsl_cam_bridge::test_card::band_split_row;

fn px(buf: &[u8], w: u32, x: u32, y: u32) -> [u8; 3] {
    let i = ((y * w + x) * 3) as usize;
    [buf[i], buf[i + 1], buf[i + 2]]
}

#[test]
fn test_card_size() {
    assert_eq!(generate_test_card(100, 8, 0).len(), 100 * 8 * 3);
    assert_eq!(generate_test_card(1280, 720, 5).len(), 1280 * 720 * 3);
    assert!(generate_test_card(100, 0, 0).is_empty());
}

#[test]
fn test_card_bars() {
    // width 160: bars of 20 pixels; height 100: bars over rows 0..75
    let b = generate_test_card(160, 100, 0);
    assert_eq!(px(&b, 160, 0, 0), [220, 220, 220]);
    assert_eq!(px(&b, 160, 19, 74), [220, 220, 220]);
    assert_eq!(px(&b, 160, 20, 10), [220, 220, 30]);
    assert_eq!(px(&b, 160, 45, 10), [30, 220, 220]);
    assert_eq!(px(&b, 160, 60, 10), [30, 220, 30]);
    assert_eq!(px(&b, 160, 80, 10), [220, 30, 220]);
    assert_eq!(px(&b, 160, 100, 10), [220, 30, 30]);
    assert_eq!(px(&b, 160, 120, 10), [30, 30, 220]);
    assert_eq!(px(&b, 160, 159, 10), [20, 20, 20]);
}

#[test]
fn test_card_last_bar_takes_the_remainder() {
    // width 103: bars of 12 pixels, the eighth reaches the right edge
    let b = generate_test_card(103, 8, 0);
    assert_eq!(px(&b, 103, 84, 0), [20, 20, 20]);
    assert_eq!(px(&b, 103, 102, 0), [20, 20, 20]);
    assert_eq!(px(&b, 103, 83, 0), [30, 30, 220]);
}

#[test]
fn test_card_lower_band_and_block() {
    // height 100: band from row 75, block rows 95..145 (cut at 100)
    let b = generate_test_card(200, 100, 0);
    assert_eq!(px(&b, 200, 0, 75), [30, 41, 59]);
    assert_eq!(px(&b, 200, 0, 94), [30, 41, 59]);
    assert_eq!(px(&b, 200, 0, 95), [56, 189, 248]);
    assert_eq!(px(&b, 200, 89, 99), [56, 189, 248]);
    assert_eq!(px(&b, 200, 90, 99), [30, 41, 59]);
}

#[test]
fn test_card_block_bounces() {
    // width 200: range 100; frame 13 moves 104, which bounces back to 96
    let b = generate_test_card(200, 100, 13);
    assert_eq!(px(&b, 200, 95, 97), [30, 41, 59]);
    assert_eq!(px(&b, 200, 96, 97), [56, 189, 248]);
    assert_eq!(px(&b, 200, 185, 97), [56, 189, 248]);
    assert_eq!(px(&b, 200, 186, 97), [30, 41, 59]);
    // frame 5 moves 40 to the right
    let b = generate_test_card(200, 100, 5);
    assert_eq!(px(&b, 200, 39, 97), [30, 41, 59]);
    assert_eq!(px(&b, 200, 40, 97), [56, 189, 248]);
    // frame 25 completes a round trip
    assert_eq!(generate_test_card(200, 100, 25), generate_test_card(200, 100, 0));
}

#[test]
fn test_card_narrowest_width_bounces_by_one() {
    // width 100: range 1, the block alternates between 0 and ... 0 (8 % 2 == 0)
    let b = generate_test_card(100, 100, 3);
    assert_eq!(px(&b, 100, 0, 95), [56, 189, 248]);
}

fn ipx(rgba: &[u8], x: usize, y: usize) -> [u8; 4] {
    let i = (y * 32 + x) * 4;
    [rgba[i], rgba[i + 1], rgba[i + 2], rgba[i + 3]]
}

#[test]
fn camera_icon_picture() {
    let rgba = camera_icon_rgba();
    assert_eq!(rgba.len(), 32 * 32 * 4);
    assert_eq!(ipx(&rgba, 16, 18), [56, 189, 248, 255]);
    assert_eq!(ipx(&rgba, 18, 20), [56, 189, 248, 255]); // distance 8
    assert_eq!(ipx(&rgba, 16, 21), [226, 232, 240, 255]); // distance 9
    assert_eq!(ipx(&rgba, 21, 20), [226, 232, 240, 255]); // distance 29
    assert_eq!(ipx(&rgba, 21, 21), [30, 41, 59, 255]); // distance 34
    assert_eq!(ipx(&rgba, 4, 10), [30, 41, 59, 255]);
    assert_eq!(ipx(&rgba, 10, 6), [30, 41, 59, 255]);
    assert_eq!(ipx(&rgba, 15, 6), [0, 0, 0, 0]);
    assert_eq!(ipx(&rgba, 0, 0), [0, 0, 0, 0]);
    assert_eq!(ipx(&rgba, 31, 31), [0, 0, 0, 0]);
}

#[test]
fn camera_icon_matches_float_geometry() {
    let rgba = camera_icon_rgba();
    for y in 0..32u32 {
        for x in 0..32u32 {
            let dx = x as f32 - 16.0;
            let dy = y as f32 - 18.0;
            let d = dx * dx + dy * dy;
            let body = (4..=27).contains(&x) && (10..=25).contains(&y);
            let top = (8..=14).contains(&x) && (6..=9).contains(&y);
            let want = if d < 9.0 {
                [56, 189, 248, 255]
            } else if d <= 5.5 * 5.5 {
                [226, 232, 240, 255]
            } else if body || top {
                [30, 41, 59, 255]
            } else {
                [0, 0, 0, 0]
            };
            assert_eq!(ipx(&rgba, x as usize, y as usize), want, "pixel {x},{y}");
        }
    }
}

#[test]
fn band_split_matches_single_precision_scaling() {
    let mut heights: Vec<u32> = (0..5000).collect();
    for base in [
        0x3F_FFF0u32, 0x55_5550, 0x55_5560, 0xAA_AAA0, 0xAA_AAB0, 14_316_500, 0xFF_FFF0,
        0x100_0000, 0x155_5550, 0x200_0000, 0x2AA_AAA0, 0x7FFF_FFC0, 0xFFFF_FFC0,
    ] {
        heights.extend(base..base.saturating_add(64));
    }
    heights.push(u32::MAX);
    let mut x: u32 = 12345;
    for _ in 0..200_000 {
        x = x.wrapping_mul(1_664_525).wrapping_add(1_013_904_223);
        heights.push(x);
    }
    for h in heights {
        assert_eq!(band_split_row(h), (h as f32 * 0.75) as u32 as u64, "height {h}");
    }
}

#[test]
fn narrow_cards() {
    // width 64: bars of 8 pixels, band from row 36, no room for the block's rows
    let b = generate_test_card(64, 48, 0);
    assert_eq!(b.len(), 64 * 48 * 3);
    assert_eq!(px(&b, 64, 0, 0), [220, 220, 220]);
    assert_eq!(px(&b, 64, 8, 35), [220, 220, 30]);
    assert_eq!(px(&b, 64, 63, 0), [20, 20, 20]);
    assert_eq!(px(&b, 64, 0, 36), [30, 41, 59]);
    // height 100: the block fills the lower rows from column 0, whatever the frame
    for frame in [0u64, 1, 7, 1000] {
        let b = generate_test_card(64, 100, frame);
        assert_eq!(px(&b, 64, 0, 95), [56, 189, 248]);
        assert_eq!(px(&b, 64, 63, 99), [56, 189, 248]);
        assert_eq!(px(&b, 64, 63, 94), [30, 41, 59]);
    }
    // width 5: one-pixel bars
    let b = generate_test_card(5, 4, 0);
    assert_eq!(px(&b, 5, 0, 0), [220, 220, 220]);
    assert_eq!(px(&b, 5, 1, 0), [220, 220, 30]);
    assert_eq!(px(&b, 5, 4, 0), [220, 30, 220]);
    assert_eq!(px(&b, 5, 4, 3), [30, 41, 59]);
    // width 1 and width 0
    assert_eq!(generate_test_card(1, 1, 0), vec![30, 41, 59]);
    assert_eq!(generate_test_card(1, 4, 0)[0..3], [220, 220, 220]);
    assert!(generate_test_card(0, 10, 3).is_empty());
}
