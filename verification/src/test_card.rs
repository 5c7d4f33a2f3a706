//! The animated test card that stands in for a camera: eight colour bars over
//! the upper three quarters, and a dark lower band in which a cyan block
//! bounces from side to side as the frame number grows.
use vstd::prelude::*;

verus! {

/// Colour of the bar with number `i` (0 to 7, left to right):
/// white, yellow, cyan, green, magenta, red, blue, black.
pub open spec fn bar_color(i: int) -> (u8, u8, u8) {
    if i == 0 {
        (220, 220, 220)
    } else if i == 1 {
        (220, 220, 30)
    } else if i == 2 {
        (30, 220, 220)
    } else if i == 3 {
        (30, 220, 30)
    } else if i == 4 {
        (220, 30, 220)
    } else if i == 5 {
        (220, 30, 30)
    } else if i == 6 {
        (30, 30, 220)
    } else {
        (20, 20, 20)
    }
}

/// Colour of the bouncing block.
pub open spec fn tracker_color() -> (u8, u8, u8) {
    (56, 189, 248)
}

/// Colour of the lower band around the block.
pub open spec fn band_color() -> (u8, u8, u8) {
    (30, 41, 59)
}

/// The multiple of `unit` nearest to `n`; on a tie, the even multiple.
pub open spec fn round_to_multiple(n: nat, unit: nat) -> nat {
    let q = n / unit;
    let r = n % unit;
    if 2 * r < unit {
        q * unit
    } else if 2 * r > unit {
        (q + 1) * unit
    } else if q % 2 == 0 {
        q * unit
    } else {
        (q + 1) * unit
    }
}

/// The unit to which single precision rounds the whole number `n`: 1 below
/// 2^24 (24 significant bits), doubling with every further binary digit.
pub open spec fn f32_unit(n: nat) -> nat
    decreases n,
{
    if n < 0x100_0000 {
        1
    } else {
        2 * f32_unit(n / 2)
    }
}

/// The whole number `n` as single precision holds it: rounded to 24
/// significant bits, ties to even.
pub open spec fn f32_whole(n: nat) -> nat {
    round_to_multiple(n, f32_unit(n))
}

/// First row of the lower band: the height scaled by 0.75 in single
/// precision, truncated. The height becomes `f32_whole(height)`; three
/// quarters of that, rounded to single precision, is a quarter of
/// `f32_whole(3 * f32_whole(height))` (a power-of-two scale leaves the
/// rounding alone), and truncating it divides by 4 rounding down.
pub open spec fn split_row(height: u32) -> int {
    (f32_whole(3 * f32_whole(height as nat)) / 4) as int
}

/// The width of each colour bar: an eighth of the card, and one pixel on a
/// card narrower than eight pixels.
pub open spec fn bar_width(width: u32) -> int {
    if width / 8 > 0 {
        (width / 8) as int
    } else {
        1
    }
}

/// How far the block travels before it turns back: the width less the
/// block's 100 pixel allowance, and at least 1.
pub open spec fn bounce_range(width: u32) -> int {
    if width - 100 > 1 {
        width - 100
    } else {
        1
    }
}

/// Left edge of the block in frame `frame`: it moves 8 pixels a frame and
/// bounces between 0 and the bounce range.
pub open spec fn tracker_x(width: u32, frame: u64) -> int {
    let r = bounce_range(width);
    let p = (frame * 8) % (2 * r);
    if p > r {
        2 * r - p
    } else {
        p
    }
}

/// The unit to which single precision rounds the whole number `n`.
fn f32_unit_of(n: u64) -> (u: u64)
    ensures
        u == f32_unit(n as nat),
        u >= 1,
        u == 1 || u <= n,
{
    let mut t = n;
    let mut u: u64 = 1;
    while t >= 0x100_0000
        invariant
            u >= 1,
            u * t <= n,
            u > 1 ==> t >= 0x80_0000,
            f32_unit(n as nat) == u * f32_unit(t as nat),
        decreases t,
    {
        proof {
            let t2 = t / 2;
            assert(u * 2 * t2 <= u * t) by (nonlinear_arith)
                requires
                    t2 == t / 2,
                    u >= 1,
            ;
            assert(u * 2 <= n) by (nonlinear_arith)
                requires
                    u * t <= n,
                    t >= 0x100_0000,
                    u >= 1,
            ;
            assert(u * f32_unit(t as nat) == (u * 2) * f32_unit(t2 as nat)) by (nonlinear_arith)
                requires
                    f32_unit(t as nat) == 2 * f32_unit(t2 as nat),
            ;
        }
        t = t / 2;
        u = u * 2;
    }
    proof {
        assert(f32_unit(t as nat) == 1);
        if u > 1 {
            assert(u <= n) by (nonlinear_arith)
                requires
                    u * t <= n,
                    t >= 1,
                    u > 1,
            ;
        }
    }
    u
}

/// The multiple of `unit` nearest to `n`; on a tie, the even multiple.
fn round_to_multiple_of(n: u64, unit: u64) -> (r: u64)
    requires
        unit >= 1,
        n + 2 * unit <= u64::MAX,
    ensures
        r == round_to_multiple(n as nat, unit as nat),
        r <= n + unit,
{
    let q = n / unit;
    let rem = n % unit;
    proof {
        vstd::arithmetic::div_mod::lemma_fundamental_div_mod(n as int, unit as int);
        assert(q * unit + rem == n && 0 <= rem < unit) by (nonlinear_arith)
            requires
                n == unit * (n / unit) + n % unit,
                q == n / unit,
                rem == n % unit,
                0 <= n % unit < unit,
        ;
        assert((q + 1) * unit == q * unit + unit) by (nonlinear_arith);
    }
    if 2 * rem < unit {
        q * unit
    } else if 2 * rem > unit {
        (q + 1) * unit
    } else if q % 2 == 0 {
        q * unit
    } else {
        (q + 1) * unit
    }
}

/// First row of the lower band of a card `height` pixels high.
pub fn band_split_row(height: u32) -> (r: u64)
    ensures
        r == split_row(height),
{
    let h = height as u64;
    let hf = round_to_multiple_of(h, f32_unit_of(h));
    let t = 3 * hf;
    let scaled = round_to_multiple_of(t, f32_unit_of(t));
    scaled / 4
}

/// Colour of the pixel in column `x` and row `y` of the card.
pub open spec fn test_card_pixel(width: u32, height: u32, frame: u64, x: int, y: int) -> (
    u8,
    u8,
    u8,
) {
    let split = split_row(height);
    if y < split {
        let b = x / bar_width(width);
        bar_color(
            if b < 7 {
                b
            } else {
                7
            },
        )
    } else {
        let bx = tracker_x(width, frame);
        if bx <= x < bx + 90 && split + 20 <= y < split + 70 {
            tracker_color()
        } else {
            band_color()
        }
    }
}

/// Channel `k` (0 red, 1 green, 2 blue) of a colour.
pub open spec fn channel(c: (u8, u8, u8), k: int) -> u8 {
    if k == 0 {
        c.0
    } else if k == 1 {
        c.1
    } else {
        c.2
    }
}

/// Position of channel `k` of pixel (`x`, `y`) in a row-major RGB buffer.
pub open spec fn rgb_offset(width: u32, x: int, y: int, k: int) -> int {
    (y * width + x) * 3 + k
}

/// A pixel that comes earlier in row-major order sits earlier in the buffer.
proof fn lemma_offset_before(width: u32, x1: int, y1: int, x2: int, y2: int)
    requires
        0 <= x1 < width,
        0 <= x2,
        0 <= y1,
        y1 < y2 || (y1 == y2 && x1 < x2),
    ensures
        y1 * width + x1 < y2 * width + x2,
{
    if y1 < y2 {
        assert(y1 * width + width <= y2 * width) by (nonlinear_arith)
            requires
                y1 < y2,
                0 <= width,
        ;
    }
}

/// The colours of bar `i`.
fn bar_rgb(i: u32) -> (c: (u8, u8, u8))
    ensures
        c == bar_color(i as int),
{
    match i {
        0 => (220, 220, 220),
        1 => (220, 220, 30),
        2 => (30, 220, 220),
        3 => (30, 220, 30),
        4 => (220, 30, 220),
        5 => (220, 30, 30),
        6 => (30, 30, 220),
        _ => (20, 20, 20),
    }
}

/// Generates the RGB test card of `width` x `height` pixels for frame
/// `frame_num`, row by row, three bytes a pixel.
pub fn generate_test_card(width: u32, height: u32, frame_num: u64) -> (buf: Vec<u8>)
    requires
        width * height * 3 <= u32::MAX,
        frame_num * 8 <= u64::MAX,
    ensures
        buf@.len() == width * height * 3,
        forall|x: int, y: int, k: int|
            0 <= x < width && 0 <= y < height && 0 <= k < 3 ==> #[trigger] buf@[rgb_offset(
                width,
                x,
                y,
                k,
            )] == channel(test_card_pixel(width, height, frame_num, x, y), k),
{
    let bar: u32 = if width / 8 > 0 {
        width / 8
    } else {
        1
    };
    let split_y: u64 = band_split_row(height);
    let bounce: u32 = if width > 101 {
        width - 100
    } else {
        1
    };
    let pos: u64 = (frame_num * 8) % (bounce as u64 * 2);
    let block_x: u64 = if pos > bounce as u64 {
        bounce as u64 * 2 - pos
    } else {
        pos
    };
    assert(block_x == tracker_x(width, frame_num));
    let mut buf: Vec<u8> = Vec::new();
    let mut y: u32 = 0;
    while y < height
        invariant
            bar == bar_width(width),
            split_y == split_row(height),
            block_x == tracker_x(width, frame_num),
            y <= height,
            buf@.len() == rgb_offset(width, 0, y as int, 0),
            forall|x1: int, y1: int, k: int|
                0 <= x1 < width && 0 <= y1 < y && 0 <= k < 3 ==> #[trigger] buf@[rgb_offset(
                    width,
                    x1,
                    y1,
                    k,
                )] == channel(test_card_pixel(width, height, frame_num, x1, y1), k),
        decreases height - y,
    {
        let mut x: u32 = 0;
        while x < width
            invariant
                bar == bar_width(width),
                split_y == split_row(height),
                block_x == tracker_x(width, frame_num),
                y < height,
                x <= width,
                buf@.len() == rgb_offset(width, x as int, y as int, 0),
                forall|x1: int, y1: int, k: int|
                    0 <= x1 < width && 0 <= y1 && (y1 < y || (y1 == y && x1 < x)) && 0 <= k
                        < 3 ==> #[trigger] buf@[rgb_offset(width, x1, y1, k)] == channel(
                        test_card_pixel(width, height, frame_num, x1, y1),
                        k,
                    ),
            decreases width - x,
        {
            let c: (u8, u8, u8) = if (y as u64) < split_y {
                let q = x / bar;
                bar_rgb(
                    if q < 7 {
                        q
                    } else {
                        7
                    },
                )
            } else if block_x <= x as u64 && (x as u64) < block_x + 90 && split_y + 20 <= y as u64
                && (y as u64) < split_y + 70 {
                (56, 189, 248)
            } else {
                (30, 41, 59)
            };
            assert(c == test_card_pixel(width, height, frame_num, x as int, y as int));
            let ghost old_buf = buf@;
            buf.push(c.0);
            buf.push(c.1);
            buf.push(c.2);
            proof {
                let base = rgb_offset(width, x as int, y as int, 0);
                assert forall|x1: int, y1: int, k: int|
                    0 <= x1 < width && 0 <= y1 && (y1 < y || (y1 == y && x1 < x + 1)) && 0 <= k
                        < 3 implies #[trigger] buf@[rgb_offset(width, x1, y1, k)] == channel(
                    test_card_pixel(width, height, frame_num, x1, y1),
                    k,
                ) by {
                    if y1 < y || x1 < x {
                        lemma_offset_before(width, x1, y1, x as int, y as int);
                        assert(buf@[rgb_offset(width, x1, y1, k)] == old_buf[rgb_offset(
                            width,
                            x1,
                            y1,
                            k,
                        )]);
                    } else {
                        assert(rgb_offset(width, x1, y1, k) == base + k);
                    }
                }
                assert(buf@.len() == rgb_offset(width, x + 1, y as int, 0));
            }
            x += 1;
        }
        proof {
            assert(rgb_offset(width, width as int, y as int, 0) == rgb_offset(
                width,
                0,
                y + 1,
                0,
            )) by (nonlinear_arith);
        }
        y += 1;
    }
    proof {
        assert(rgb_offset(width, 0, height as int, 0) == width * height * 3) by (nonlinear_arith);
    }
    buf
}

/// Law: the bouncing block's left edge stays between 0 and the bounce
/// range, so on a card at least 100 pixels wide the 90 pixel wide block never
/// leaves the picture.
pub proof fn lemma_tracker_on_card(width: u32, frame: u64)
    requires
        100 <= width,
    ensures
        0 <= tracker_x(width, frame) <= bounce_range(width),
        tracker_x(width, frame) + 90 <= width,
{
    let r = bounce_range(width);
    let p = (frame * 8) % (2 * r);
    assert(0 <= p < 2 * r) by (nonlinear_arith)
        requires
            r >= 1,
            p == (frame * 8) % (2 * r),
            frame >= 0,
    ;
}

/// Law: in the lower band every pixel is dark except the block, and the
/// block is a cyan rectangle 90 pixels wide and 50 rows tall whose top is 20
/// rows below the start of the band: no pixel of the band above its top row
/// or at or below `split_row(height) + 70` is cyan.
pub proof fn lemma_lower_band_block(width: u32, height: u32, frame: u64, x: int, y: int)
    requires
        0 <= x < width,
        split_row(height) <= y < height,
    ensures
        test_card_pixel(width, height, frame, x, y) == tracker_color() || test_card_pixel(
            width,
            height,
            frame,
            x,
            y,
        ) == band_color(),
        test_card_pixel(width, height, frame, x, y) == tracker_color() ==> split_row(height) + 20
            <= y < split_row(height) + 70 && tracker_x(width, frame) <= x < tracker_x(width, frame)
            + 90,
        y >= split_row(height) + 70 ==> test_card_pixel(width, height, frame, x, y) == band_color(),
        (split_row(height) + 20 <= y < split_row(height) + 70 && tracker_x(width, frame) <= x
            < tracker_x(width, frame) + 90) ==> test_card_pixel(width, height, frame, x, y)
            == tracker_color(),
{
}

} // verus!
