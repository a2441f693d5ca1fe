use vstd::prelude::*;

use crate::bitmap::{bitmap_stream, encode_bitmap, InfoHeader, PIXEL_OFFSET};
use crate::capture::{CaptureError, Screenshoter};

verus! {

#[verifier::external_type_specification]
#[verifier::external_body]
pub struct ExImageError(image::ImageError);

/// Mathematical model of an image: its size and its samples, row by row,
/// top row first.
pub struct Raster {
    pub width: nat,
    pub height: nat,
    pub data: Seq<u8>,
}

/// A decoded image, four bytes per pixel (red, green, blue, alpha), rows
/// top to bottom.
pub struct Frame {
    pub width: u32,
    pub height: u32,
    pub pixels: Vec<u8>,
}

/// A single-channel intensity image, one byte per pixel, rows top to bottom.
pub struct GrayFrame {
    pub width: u32,
    pub height: u32,
    pub pixels: Vec<u8>,
}

impl View for Frame {
    type V = Raster;

    open spec fn view(&self) -> Raster {
        Raster { width: self.width as nat, height: self.height as nat, data: self.pixels@ }
    }
}

impl View for GrayFrame {
    type V = Raster;

    open spec fn view(&self) -> Raster {
        Raster { width: self.width as nat, height: self.height as nat, data: self.pixels@ }
    }
}

impl Raster {
    /// Holds `channels` bytes for each pixel.
    pub open spec fn wf(self, channels: nat) -> bool {
        self.data.len() == self.width * self.height * channels
    }
}

impl Frame {
    pub open spec fn wf(&self) -> bool {
        self@.wf(4)
    }
}

impl GrayFrame {
    pub open spec fn wf(&self) -> bool {
        self@.wf(1)
    }
}

/// What the image reader decodes from `bytes`: width, height and the
/// pixels as red, green, blue and alpha bytes, rows top to bottom; `None`
/// where it does not accept the bytes.
pub uninterp spec fn decoded_rgba(bytes: Seq<u8>) -> Option<(u32, u32, Seq<u8>)>;

/// The intensity that the image library assigns to a colour.
pub uninterp spec fn luma_of(r: u8, g: u8, b: u8) -> u8;

/// The rectangle that a crop at `(x, y)` of size `w` by `h` keeps of an
/// image of size `iw` by `ih`: the corner is clamped into the image and the
/// size to what remains of it.
pub open spec fn crop_bounds(iw: nat, ih: nat, x: nat, y: nat, w: nat, h: nat) -> (nat, nat, nat, nat) {
    let cx = if x < iw { x } else { iw };
    let cy = if y < ih { y } else { ih };
    let cw = if w < iw - cx { w } else { (iw - cx) as nat };
    let ch = if h < ih - cy { h } else { (ih - cy) as nat };
    (cx, cy, cw, ch)
}

/// The part of a four-channel image that a crop keeps.
pub open spec fn crop_view(f: Raster, x: nat, y: nat, w: nat, h: nat) -> Raster {
    let (cx, cy, cw, ch) = crop_bounds(f.width, f.height, x, y, w, h);
    Raster {
        width: cw,
        height: ch,
        data: Seq::new(
            cw * ch * 4,
            |i: int| f.data[((cy + (i / 4) / (cw as int)) * f.width + cx + (i / 4) % (cw as int)) * 4 + i % 4],
        ),
    }
}

/// The intensity image of a four-channel image, pixel by pixel.
pub open spec fn luma_view(f: Raster) -> Raster {
    Raster {
        width: f.width,
        height: f.height,
        data: Seq::new(
            f.width * f.height,
            |i: int| luma_of(f.data[4 * i], f.data[4 * i + 1], f.data[4 * i + 2]),
        ),
    }
}

/// The two team sides of a scoreboard strip `region_width` by
/// `region_height`: left of the centre gap and right of it, as intensity.
pub open spec fn split_view(f: Raster, region_width: nat, region_height: nat) -> (Raster, Raster) {
    let half = region_width / 2;
    let offset = region_height / 2;
    (
        luma_view(crop_view(f, 0, 0, (half - offset) as nat, region_height)),
        luma_view(crop_view(f, half + offset, 0, half, region_height)),
    )
}

/// Relies on image::load_from_memory, which guesses the format from the
/// bytes and decodes them; the image is handed back as RGBA bytes.
#[verifier::external_body]
fn decode_rgba(bytes: &Vec<u8>) -> (r: Result<Frame, image::ImageError>)
    ensures
        r is Ok <==> decoded_rgba(bytes@) is Some,
        r matches Ok(f) ==> f.wf() && decoded_rgba(bytes@) == Some((f.width, f.height, f.pixels@)),
{
    let img = image::load_from_memory(bytes)?.to_rgba8();
    Ok(Frame { width: img.width(), height: img.height(), pixels: img.into_raw() })
}

/// Relies on image::imageops::crop_imm: the view of the clamped rectangle,
/// copied out pixel by pixel.
#[verifier::external_body]
fn crop_rgba(f: &Frame, x: u32, y: u32, w: u32, h: u32) -> (r: Frame)
    requires
        f.wf(),
    ensures
        r.wf(),
        r@ == crop_view(f@, x as nat, y as nat, w as nat, h as nat),
{
    let img = image::RgbaImage::from_raw(f.width, f.height, f.pixels.clone()).unwrap();
    let c = image::imageops::crop_imm(&img, x, y, w, h).to_image();
    Frame { width: c.width(), height: c.height(), pixels: c.into_raw() }
}

/// Relies on image::DynamicImage::to_luma8: each pixel's intensity is a
/// function of its red, green and blue samples.
#[verifier::external_body]
fn luma(f: &Frame) -> (r: GrayFrame)
    requires
        f.wf(),
    ensures
        r.width == f.width,
        r.height == f.height,
        r.pixels@.len() == f.width * f.height,
        forall|i: int|
            0 <= i < r.pixels@.len() ==> #[trigger] r.pixels@[i] == luma_of(
                f.pixels@[4 * i],
                f.pixels@[4 * i + 1],
                f.pixels@[4 * i + 2],
            ),
{
    let img = image::RgbaImage::from_raw(f.width, f.height, f.pixels.clone()).unwrap();
    let g = image::DynamicImage::ImageRgba8(img).to_luma8();
    GrayFrame { width: g.width(), height: g.height(), pixels: g.into_raw() }
}

/// Crops a captured scoreboard strip into its two team sides, leaving out
/// the centre gap, and turns each into intensity.
pub fn split(frame: &Frame, region_width: u32, region_height: u32) -> (r: (GrayFrame, GrayFrame))
    requires
        frame.wf(),
        region_width / 2 > region_height / 2,
    ensures
        r.0.wf(),
        r.1.wf(),
        (r.0@, r.1@) == split_view(frame@, region_width as nat, region_height as nat),
{
    let half = region_width / 2;
    let offset = region_height / 2;
    let left = crop_rgba(frame, 0, 0, half - offset, region_height);
    let right = crop_rgba(frame, half + offset, 0, half, region_height);
    let l = luma(&left);
    let r = luma(&right);
    assert(l@.data =~= luma_view(left@).data);
    assert(r@.data =~= luma_view(right@).data);
    (l, r)
}

/// The sides that `split` returns have the strip's height; the left one is
/// narrower by the centre gap, the right one is half the strip, wherever
/// the frame reaches to the end of the right crop: `region_height / 2`
/// columns past the strip, less one for an odd strip width. On a frame of
/// exactly the strip's size the crop is clamped to the frame, and the right
/// side is only `region_width - region_width / 2 - region_height / 2` wide
/// where that is less than half the strip (see `law_split_on_exact_frame`).
pub proof fn law_split_sizes(f: Raster, region_width: nat, region_height: nat)
    requires
        f.wf(4),
        region_width / 2 > region_height / 2,
        f.width >= region_width / 2 + region_height / 2 + region_width / 2,
        f.height >= region_height,
    ensures
        split_view(f, region_width, region_height).0.height == region_height,
        split_view(f, region_width, region_height).1.height == region_height,
        split_view(f, region_width, region_height).0.width == region_width / 2 - region_height / 2,
        split_view(f, region_width, region_height).1.width == region_width / 2,
{
}

/// On a frame of exactly the strip's size the right side is clamped to the
/// columns that remain past the centre gap, where those are fewer than half
/// the strip.
pub proof fn law_split_on_exact_frame(f: Raster, region_width: nat, region_height: nat)
    requires
        f.wf(4),
        region_width / 2 > region_height / 2,
        f.width == region_width,
        f.height == region_height,
    ensures
        split_view(f, region_width, region_height).0.width == region_width / 2 - region_height / 2,
        split_view(f, region_width, region_height).1.width == if region_width - region_width / 2
            - region_height / 2 < region_width / 2 {
            region_width - region_width / 2 - region_height / 2
        } else {
            (region_width / 2) as int
        },
        split_view(f, region_width, region_height).1.height == region_height,
{
}

impl Screenshoter {
    /// Turns read-back pixels into an image: encodes them as a bitmap stream
    /// with their header and decodes that stream.
    pub fn frame_from_readback(&self, header: &InfoHeader, pixels: &Vec<u8>) -> (r: Result<Frame, CaptureError>)
        requires
            pixels.len() + PIXEL_OFFSET <= u32::MAX,
        ensures
            match r {
                Ok(f) => f.wf() && decoded_rgba(bitmap_stream(*header, pixels@)) == Some(
                    (f.width, f.height, f.pixels@),
                ),
                Err(e) => e == CaptureError::DecodeFailed && decoded_rgba(bitmap_stream(*header, pixels@)) is None,
            },
    {
        let stream = encode_bitmap(header, pixels);
        match decode_rgba(&stream) {
            Ok(f) => Ok(f),
            Err(_) => Err(CaptureError::DecodeFailed),
        }
    }
}

} // verus!
