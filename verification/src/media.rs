//! Turning pictures into the JPEG frames that the stream serves: the test
//! card, and frames as a camera delivers them (decoded to RGB, then encoded).
//!
//! Decoding is done by `nokhwa` and encoding by `image`; both are reached
//! through the two trusted wrappers at the end of this file.
use image::codecs::jpeg::JpegEncoder;
use image::{ExtendedColorType, ImageEncoder};
use nokhwa::pixel_format::RgbFormat;
use nokhwa::utils::{FrameFormat, Resolution};
use nokhwa::Buffer;
use vstd::prelude::*;

use crate::test_card::{channel, generate_test_card, rgb_offset, test_card_pixel};

verus! {

/// JPEG quality (1 to 100) of every frame the stream serves.
pub const JPEG_QUALITY: u8 = 75;

/// How the bytes of a captured frame encode its pixels.
#[derive(Clone, Copy, Debug, PartialEq, Eq, Structural)]
pub enum FrameEncoding {
    /// Motion JPEG: every frame is a JPEG picture.
    Mjpeg,
    /// YUV 4:2:2, two pixels in four bytes.
    Yuyv,
    /// YUV 4:2:0 with a luma plane and an interleaved chroma plane.
    Nv12,
    /// One grey byte a pixel.
    Gray,
    /// Red, green, blue bytes.
    RawRgb,
    /// Blue, green, red bytes.
    RawBgr,
}

/// A frame as a camera delivered it.
pub struct CameraFrame {
    pub encoding: FrameEncoding,
    pub width: u32,
    pub height: u32,
    pub data: Vec<u8>,
}

/// The bytes that `image`'s JPEG encoder writes for an RGB picture of
/// `width` x `height` pixels at the given quality.
pub uninterp spec fn jpeg_encoding(rgb: Seq<u8>, width: u32, height: u32, quality: u8) -> Seq<u8>;

/// What decoding a frame gives.
pub enum Decoded {
    /// The frame's pixels as RGB bytes.
    Rgb(Seq<u8>),
    /// The decoder reports that it cannot decode the frame.
    Refused,
    /// The decoder panics (its JPEG library gives up on a damaged picture
    /// by unwinding).
    Aborted,
}

/// What `nokhwa` makes of a frame when asked for RGB bytes.
pub uninterp spec fn rgb_decoding(
    encoding: FrameEncoding,
    width: u32,
    height: u32,
    data: Seq<u8>,
) -> Decoded;

/// Whether the JPEG encoder accepts a picture of these dimensions: each side
/// from 1 to 65535 pixels.
pub open spec fn jpeg_dimensions_ok(width: u32, height: u32) -> bool {
    1 <= width <= 65535 && 1 <= height <= 65535
}

/// The test card of `width` x `height` pixels for frame `frame`, as RGB bytes
/// in row-major order.
pub open spec fn test_card(width: u32, height: u32, frame: u64) -> Seq<u8> {
    Seq::new(
        (width * height * 3) as nat,
        |i: int|
            channel(
                test_card_pixel(width, height, frame, (i / 3) % (width as int), (i / 3) / (width as int)),
                i % 3,
            ),
    )
}

/// The JPEG frame of the test card; empty where the encoder refuses the
/// dimensions.
pub open spec fn test_pattern_frame(width: u32, height: u32, frame: u64) -> Seq<u8> {
    if jpeg_dimensions_ok(width, height) {
        jpeg_encoding(test_card(width, height, frame), width, height, JPEG_QUALITY)
    } else {
        Seq::empty()
    }
}

/// The JPEG frame served for a camera frame, where there is one: the frame
/// must decode to exactly three bytes a pixel, and the encoder must accept
/// its dimensions.
pub open spec fn camera_jpeg(encoding: FrameEncoding, width: u32, height: u32, data: Seq<u8>) -> Option<
    Seq<u8>,
> {
    match rgb_decoding(encoding, width, height, data) {
        Decoded::Rgb(rgb) => if rgb.len() == width * height * 3 && jpeg_dimensions_ok(width, height) {
            Some(jpeg_encoding(rgb, width, height, JPEG_QUALITY))
        } else {
            None
        },
        _ => None,
    }
}

/// Whether the NV12 decoder returns on a frame: it computes three bytes a
/// row and three bytes a pixel in 32 bits, and it splits the luma plane into
/// rows of `width` bytes, which it cannot do for a zero width once the size
/// checks (even sides, a data length of one and a half bytes a pixel) pass.
pub open spec fn nv12_decoder_returns(width: u32, height: u32, data: Seq<u8>) -> bool {
    &&& width * 3 <= u32::MAX
    &&& width * height * 3 <= u32::MAX
    &&& width == 0 ==> (height % 2 == 1 || data.len() > 0)
}

/// Whether the decoder returns on this frame: NV12 frames as
/// `nv12_decoder_returns` says, and a Motion JPEG frame must not make the
/// JPEG library give up.
pub open spec fn decoder_returns(frame_encoding: FrameEncoding, width: u32, height: u32, data: Seq<u8>) -> bool {
    &&& frame_encoding == FrameEncoding::Nv12 ==> nv12_decoder_returns(width, height, data)
    &&& frame_encoding == FrameEncoding::Mjpeg ==> !(rgb_decoding(frame_encoding, width, height, data) is Aborted)
}

/// The generated card is the sequence `test_card` describes.
proof fn lemma_test_card_bytes(width: u32, height: u32, frame: u64, buf: Seq<u8>)
    requires
        buf.len() == width * height * 3,
        forall|x: int, y: int, k: int|
            0 <= x < width && 0 <= y < height && 0 <= k < 3 ==> #[trigger] buf[rgb_offset(
                width,
                x,
                y,
                k,
            )] == channel(test_card_pixel(width, height, frame, x, y), k),
    ensures
        buf == test_card(width, height, frame),
{
    let card = test_card(width, height, frame);
    if width == 0 {
        assert(buf =~= card);
    } else {
        assert forall|i: int| 0 <= i < buf.len() implies buf[i] == card[i] by {
            let w = width as int;
            let p = i / 3;
            let x = p % w;
            let y = p / w;
            let k = i % 3;
            assert(i == p * 3 + k && 0 <= k < 3) by (nonlinear_arith)
                requires
                    p == i / 3,
                    k == i % 3,
                    0 <= i,
            ;
            assert(p == y * w + x && 0 <= x < w && 0 <= y) by (nonlinear_arith)
                requires
                    x == p % w,
                    y == p / w,
                    w > 0,
                    p >= 0,
            ;
            assert(y < height) by (nonlinear_arith)
                requires
                    p == y * w + x,
                    0 <= x,
                    0 <= y,
                    w > 0,
                    p * 3 + k < w * height * 3,
                    0 <= k,
            ;
            assert(rgb_offset(width, x, y, k) == i);
        }
        assert(buf =~= card);
    }
}

/// The JPEG frame of the test card for frame `frame_num`; empty where the
/// encoder refuses the dimensions (a zero side, or a side above 65535).
pub fn test_pattern_jpeg(width: u32, height: u32, frame_num: u64) -> (jpeg: Vec<u8>)
    requires
        width * height * 3 <= u32::MAX,
        frame_num * 8 <= u64::MAX,
    ensures
        jpeg@ == test_pattern_frame(width, height, frame_num),
{
    let rgb = generate_test_card(width, height, frame_num);
    proof {
        lemma_test_card_bytes(width, height, frame_num, rgb@);
    }
    let (jpeg, _ok) = write_jpeg(rgb.as_slice(), width, height, JPEG_QUALITY);
    jpeg
}

/// Encodes an RGB picture of `width` x `height` pixels as a JPEG frame,
/// or gives `None` where the encoder refuses the dimensions.
pub fn encode_jpeg(rgb: &[u8], width: u32, height: u32) -> (jpeg: Option<Vec<u8>>)
    requires
        rgb@.len() == width * height * 3,
    ensures
        jpeg.is_some() == jpeg_dimensions_ok(width, height),
        jpeg matches Some(j) ==> j@ == jpeg_encoding(rgb@, width, height, JPEG_QUALITY),
{
    let (out, ok) = write_jpeg(rgb, width, height, JPEG_QUALITY);
    if ok {
        Some(out)
    } else {
        None
    }
}

/// The JPEG frame for a frame from the camera: decoded to RGB, then encoded.
/// `None` where the frame does not decode, decodes to a buffer that is not
/// exactly three bytes a pixel, or has dimensions the encoder refuses.
pub fn camera_frame_jpeg(frame: &CameraFrame) -> (jpeg: Option<Vec<u8>>)
    requires
        decoder_returns(frame.encoding, frame.width, frame.height, frame.data@),
    ensures
        jpeg.is_some() == camera_jpeg(frame.encoding, frame.width, frame.height, frame.data@).is_some(),
        jpeg matches Some(j) ==> j@ == camera_jpeg(
            frame.encoding,
            frame.width,
            frame.height,
            frame.data@,
        )->Some_0,
{
    let rgb = match decode_rgb(frame.encoding, frame.width, frame.height, frame.data.as_slice()) {
        Some(rgb) => rgb,
        None => return None,
    };
    proof {
        let w = frame.width as int;
        let h = frame.height as int;
        assert(0 <= w * h * 3 <= 3 * 0xffff_ffff * 0xffff_ffff) by (nonlinear_arith)
            requires
                0 <= w <= 0xffff_ffff,
                0 <= h <= 0xffff_ffff,
        ;
    }
    let expected: u128 = frame.width as u128 * frame.height as u128 * 3;
    if rgb.len() as u128 != expected {
        return None;
    }
    encode_jpeg(rgb.as_slice(), frame.width, frame.height)
}

/// Law: the JPEG frame served for a camera frame is the encoding of the
/// frame's decoded pixels at the frame's own width and height, in that order:
/// exactly what `encode_jpeg` gives for those pixels with the same width and
/// height, and nothing where the frame does not decode to three bytes a pixel.
pub proof fn lemma_camera_jpeg_keeps_dimensions(
    encoding: FrameEncoding,
    width: u32,
    height: u32,
    data: Seq<u8>,
    rgb: Seq<u8>,
)
    requires
        rgb_decoding(encoding, width, height, data) == Decoded::Rgb(rgb),
    ensures
        rgb.len() == width * height * 3 && jpeg_dimensions_ok(width, height) ==> camera_jpeg(
            encoding,
            width,
            height,
            data,
        ) == Some(jpeg_encoding(rgb, width, height, JPEG_QUALITY)),
        rgb.len() != width * height * 3 ==> camera_jpeg(encoding, width, height, data).is_none(),
        camera_jpeg(encoding, width, height, data) matches Some(j) ==> j == jpeg_encoding(
            rgb,
            width,
            height,
            JPEG_QUALITY,
        ),
{
}

/// Encodes `rgb` with `image::codecs::jpeg::JpegEncoder::new_with_quality`
/// and `ImageEncoder::write_image` (as `Rgb8`) into a fresh buffer, and tells
/// whether the encoder reported success.
///
/// Trusted: the encoder refuses a picture with a side of 0 or above 65535
/// before it writes anything, and otherwise writes the whole JPEG picture
/// (writing to memory cannot fail); the bytes it writes are named
/// `jpeg_encoding`. It panics where the buffer length is not three bytes a
/// pixel, which `requires` leaves out.
#[verifier::external_body]
fn write_jpeg(rgb: &[u8], width: u32, height: u32, quality: u8) -> (out: (Vec<u8>, bool))
    requires
        rgb@.len() == width * height * 3,
    ensures
        out.1 == jpeg_dimensions_ok(width, height),
        out.1 ==> out.0@ == jpeg_encoding(rgb@, width, height, quality),
        !out.1 ==> out.0@.len() == 0,
{
    let mut out: Vec<u8> = Vec::new();
    let ok = {
        let mut cursor = std::io::Cursor::new(&mut out);
        let encoder = JpegEncoder::new_with_quality(&mut cursor, quality);
        encoder.write_image(rgb, width, height, ExtendedColorType::Rgb8).is_ok()
    };
    (out, ok)
}

/// Decodes a camera frame to RGB bytes with `nokhwa::Buffer::new` and
/// `Buffer::decode_image::<RgbFormat>`, handing out the image's raw bytes.
///
/// Trusted: what it makes of the frame is named `rgb_decoding`; a decoded
/// buffer holds at least three bytes a pixel (the image buffer is refused
/// otherwise). Only Motion JPEG and NV12 decoding can panic: the JPEG
/// library unwinds on a damaged picture, and NV12 decoding overflows its
/// 32-bit size arithmetic or splits rows of zero width (see
/// `nv12_decoder_returns`); `requires` leaves both out.
#[verifier::external_body]
fn decode_rgb(encoding: FrameEncoding, width: u32, height: u32, data: &[u8]) -> (rgb: Option<Vec<u8>>)
    requires
        decoder_returns(encoding, width, height, data@),
    ensures
        rgb is None ==> rgb_decoding(encoding, width, height, data@) is Refused,
        rgb matches Some(v) ==> rgb_decoding(encoding, width, height, data@) == Decoded::Rgb(v@)
            && v@.len() >= width * height * 3,
{
    let format = match encoding {
        FrameEncoding::Mjpeg => FrameFormat::MJPEG,
        FrameEncoding::Yuyv => FrameFormat::YUYV,
        FrameEncoding::Nv12 => FrameFormat::NV12,
        FrameEncoding::Gray => FrameFormat::GRAY,
        FrameEncoding::RawRgb => FrameFormat::RAWRGB,
        FrameEncoding::RawBgr => FrameFormat::RAWBGR,
    };
    match Buffer::new(Resolution::new(width, height), data, format).decode_image::<RgbFormat>() {
        Ok(image) => Some(image.into_raw()),
        Err(_) => None,
    }
}

} // verus!
