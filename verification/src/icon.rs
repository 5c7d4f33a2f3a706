//! The 32 x 32 camera picture shown in the system tray: a dark slate body
//! with a viewfinder bump, and a round lens with a silver rim and a cyan centre,
//! on a transparent background.
use vstd::prelude::*;

verus! {

/// Side of the square icon, in pixels.
pub const ICON_SIDE: u32 = 32;

/// Squared distance of pixel (`x`, `y`) from the lens centre (16, 18).
pub open spec fn lens_distance_sq(x: int, y: int) -> int {
    (x - 16) * (x - 16) + (y - 18) * (y - 18)
}

/// RGBA colour of the icon pixel in column `x` and row `y`.
///
/// The lens centre is the disc of squared radius below 9; the rim is the ring
/// from 9 up to 5.5 squared (30.25), which for whole pixels means up to 30.
pub open spec fn icon_pixel(x: int, y: int) -> (u8, u8, u8, u8) {
    let d = lens_distance_sq(x, y);
    let in_body = 4 <= x <= 27 && 10 <= y <= 25;
    let in_top = 8 <= x <= 14 && 6 <= y <= 9;
    if d < 9 {
        (56, 189, 248, 255)
    } else if d <= 30 {
        (226, 232, 240, 255)
    } else if in_body || in_top {
        (30, 41, 59, 255)
    } else {
        (0, 0, 0, 0)
    }
}

/// Channel `k` (0 red, 1 green, 2 blue, 3 alpha) of an RGBA colour.
pub open spec fn rgba_channel(c: (u8, u8, u8, u8), k: int) -> u8 {
    if k == 0 {
        c.0
    } else if k == 1 {
        c.1
    } else if k == 2 {
        c.2
    } else {
        c.3
    }
}

/// Position of channel `k` of icon pixel (`x`, `y`) in its row-major RGBA buffer.
pub open spec fn icon_offset(x: int, y: int, k: int) -> int {
    (y * 32 + x) * 4 + k
}

/// The RGBA bytes of the tray icon, row by row, four bytes a pixel.
pub fn camera_icon_rgba() -> (rgba: Vec<u8>)
    ensures
        rgba@.len() == 32 * 32 * 4,
        forall|x: int, y: int, k: int|
            0 <= x < 32 && 0 <= y < 32 && 0 <= k < 4 ==> #[trigger] rgba@[icon_offset(x, y, k)]
                == rgba_channel(icon_pixel(x, y), k),
{
    let mut rgba: Vec<u8> = Vec::new();
    let mut y: u32 = 0;
    while y < ICON_SIDE
        invariant
            y <= 32,
            rgba@.len() == icon_offset(0, y as int, 0),
            forall|x1: int, y1: int, k: int|
                0 <= x1 < 32 && 0 <= y1 < y && 0 <= k < 4 ==> #[trigger] rgba@[icon_offset(
                    x1,
                    y1,
                    k,
                )] == rgba_channel(icon_pixel(x1, y1), k),
        decreases 32 - y,
    {
        let mut x: u32 = 0;
        while x < ICON_SIDE
            invariant
                y < 32,
                x <= 32,
                rgba@.len() == icon_offset(x as int, y as int, 0),
                forall|x1: int, y1: int, k: int|
                    0 <= x1 < 32 && 0 <= y1 && (y1 < y || (y1 == y && x1 < x)) && 0 <= k < 4
                        ==> #[trigger] rgba@[icon_offset(x1, y1, k)] == rgba_channel(
                        icon_pixel(x1, y1),
                        k,
                    ),
            decreases 32 - x,
        {
            let dx: i32 = x as i32 - 16;
            let dy: i32 = y as i32 - 18;
            assert(0 <= dx * dx <= 256 && 0 <= dy * dy <= 324) by (nonlinear_arith)
                requires
                    -16 <= dx <= 16,
                    -18 <= dy <= 18,
            ;
            let dist_sq: i32 = dx * dx + dy * dy;
            let in_body = x >= 4 && x <= 27 && y >= 10 && y <= 25;
            let in_top = x >= 8 && x <= 14 && y >= 6 && y <= 9;
            let c: (u8, u8, u8, u8) = if dist_sq < 9 {
                (56, 189, 248, 255)
            } else if dist_sq <= 30 {
                (226, 232, 240, 255)
            } else if in_body || in_top {
                (30, 41, 59, 255)
            } else {
                (0, 0, 0, 0)
            };
            assert(c == icon_pixel(x as int, y as int));
            let ghost old_rgba = rgba@;
            rgba.push(c.0);
            rgba.push(c.1);
            rgba.push(c.2);
            rgba.push(c.3);
            proof {
                assert forall|x1: int, y1: int, k: int|
                    0 <= x1 < 32 && 0 <= y1 && (y1 < y || (y1 == y && x1 < x + 1)) && 0 <= k < 4
                        implies #[trigger] rgba@[icon_offset(x1, y1, k)] == rgba_channel(
                    icon_pixel(x1, y1),
                    k,
                ) by {
                    if y1 < y || x1 < x {
                        assert(rgba@[icon_offset(x1, y1, k)] == old_rgba[icon_offset(x1, y1, k)]);
                    }
                }
            }
            x += 1;
        }
        y += 1;
    }
    rgba
}

} // verus!
