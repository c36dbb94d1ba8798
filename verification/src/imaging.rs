//! Raw RGBA images and the image operations that the `image` crate performs
//! on them: cropping, PNG and JPEG encoding, RGB conversion and GIF animation.
use vstd::prelude::*;

verus! {

/// An 8-bit RGBA image: `width * height` pixels, row by row, four bytes each.
/// `raw` may hold more bytes than the pixels need; they are never read.
pub struct RgbaFrame {
    pub width: u32,
    pub height: u32,
    pub raw: Vec<u8>,
}

impl RgbaFrame {
    /// Number of bytes that the pixels take.
    pub open spec fn byte_len(self) -> int {
        4 * self.width * self.height
    }

    /// `raw` holds at least all the pixels.
    pub open spec fn holds_pixels(self) -> bool {
        self.byte_len() <= self.raw@.len()
    }

    /// `raw` holds exactly the pixels.
    pub open spec fn is_exact(self) -> bool {
        self.byte_len() == self.raw@.len()
    }

    /// A copy of the image.
    pub fn duplicate(&self) -> (copy: RgbaFrame)
        ensures
            copy.width == self.width,
            copy.height == self.height,
            copy.raw@ == self.raw@,
    {
        RgbaFrame { width: self.width, height: self.height, raw: self.raw.clone() }
    }
}

/// Where a crop starts along one axis: `start`, moved back inside the image.
pub open spec fn crop_start(size: u32, start: u32) -> u32 {
    if start < size {
        start
    } else {
        size
    }
}

/// How far a crop reaches along one axis: `extent`, cut at the image's edge.
pub open spec fn crop_extent(size: u32, start: u32, extent: u32) -> u32 {
    let s = crop_start(size, start);
    if extent <= size - s {
        extent
    } else {
        (size - s) as u32
    }
}

/// The pixels of the `w` by `h` block at (`x`, `y`) of an image `width`
/// pixels wide, row by row.
pub open spec fn block_pixels(width: u32, raw: Seq<u8>, x: u32, y: u32, w: u32, h: u32) -> Seq<u8> {
    Seq::new(
        (4 * w * h) as nat,
        |k: int| raw[4 * ((y + (k / 4) / (w as int)) * width + x + (k / 4) % (w as int)) + k % 4],
    )
}

/// What `crop_imm(image, x, y, w, h).to_image()` gives: the requested
/// rectangle, clamped to the image, as width, height and pixels.
pub open spec fn crop_of(width: u32, height: u32, raw: Seq<u8>, x: u32, y: u32, w: u32, h: u32) -> (u32, u32, Seq<u8>) {
    let cx = crop_start(width, x);
    let cy = crop_start(height, y);
    let cw = crop_extent(width, x, w);
    let ch = crop_extent(height, y, h);
    (cw, ch, block_pixels(width, raw, cx, cy, cw, ch))
}

/// A crop never reaches past the image nor past the requested size, holds
/// exactly its pixels, and a rectangle that lies inside the image keeps its
/// size and place.
pub proof fn crop_stays_inside(width: u32, height: u32, raw: Seq<u8>, x: u32, y: u32, w: u32, h: u32)
    ensures
        ({
            let (cw, ch, pixels) = crop_of(width, height, raw, x, y, w, h);
            &&& crop_start(width, x) + cw <= width
            &&& crop_start(height, y) + ch <= height
            &&& cw <= w
            &&& ch <= h
            &&& pixels.len() == 4 * cw * ch
            &&& (x + w <= width && y + h <= height) ==> cw == w && ch == h && crop_start(width, x) == x && crop_start(height, y) == y
        }),
{
}

/// Cropping a whole image from its corner gives back its pixels.
pub proof fn crop_whole_image(width: u32, height: u32, raw: Seq<u8>)
    requires
        4 * width * height <= raw.len(),
    ensures
        crop_of(width, height, raw, 0, 0, width, height) == (width, height, raw.subrange(0, 4 * width * height)),
{
    let (cw, ch, pixels) = crop_of(width, height, raw, 0, 0, width, height);
    assert(cw == width && ch == height);
    let whole = raw.subrange(0, 4 * width * height);
    assert forall|k: int| 0 <= k < pixels.len() implies pixels[k] == whole[k] by {
        let p = k / 4;
        let w = width as int;
        assert(k == 4 * p + k % 4) by {
            vstd::arithmetic::div_mod::lemma_fundamental_div_mod(k, 4);
        }
        assert(w > 0) by {
            if w == 0 {
                assert(4 * width * height == 0) by (nonlinear_arith)
                    requires
                        w == 0,
                        w == width,
                ;
            }
        }
        assert(p == w * (p / w) + p % w) by {
            vstd::arithmetic::div_mod::lemma_fundamental_div_mod(p, w);
        }
        assert((p / w) * w == w * (p / w)) by (nonlinear_arith);
        assert(4 * ((0 + p / w) * width + 0 + p % w) + k % 4 == k);
    }
    assert(pixels =~= whole);
}

/// Cropping a rectangle that lies inside the image keeps its size, and the
/// crop's pixel in row `r`, column `c` (byte `k` of it) is the image's pixel
/// in row `y + r`, column `x + c`: the crop starts at column `x`, row `y`.
pub proof fn crop_pixel(width: u32, height: u32, raw: Seq<u8>, x: u32, y: u32, w: u32, h: u32, r: int, c: int, k: int)
    requires
        x + w <= width,
        y + h <= height,
        0 <= r < h,
        0 <= c < w,
        0 <= k < 4,
    ensures
        crop_of(width, height, raw, x, y, w, h).0 == w,
        crop_of(width, height, raw, x, y, w, h).1 == h,
        crop_of(width, height, raw, x, y, w, h).2.len() == 4 * w * h,
        crop_of(width, height, raw, x, y, w, h).2[4 * (r * w + c) + k] == raw[4 * ((y + r) * width + x + c) + k],
{
    let p = r * w + c;
    let idx = 4 * p + k;
    vstd::arithmetic::div_mod::lemma_fundamental_div_mod_converse(idx, 4, p, k);
    vstd::arithmetic::div_mod::lemma_fundamental_div_mod_converse(p, w as int, r, c);
    assert(p < w * h) by (nonlinear_arith)
        requires
            0 <= r < h,
            0 <= c < w,
            p == r * w + c,
    ;
    assert(4 * w * h == 4 * (w * h)) by (nonlinear_arith);
    assert(idx < 4 * w * h);
}

/// Calls `image::imageops::crop_imm` and `SubImage::to_image` on `frame`.
/// Trusted: the result is the rectangle at (`x`, `y`) of size
/// `width` by `height`, first moved and cut to lie inside the image, with
/// its pixels copied row by row (as `crop_dimms` and `to_image` in the
/// crate's source do).
#[verifier::external_body]
pub(crate) fn crop(frame: &RgbaFrame, x: u32, y: u32, width: u32, height: u32) -> (out: RgbaFrame)
    requires
        frame.holds_pixels(),
    ensures
        (out.width, out.height, out.raw@) == crop_of(frame.width, frame.height, frame.raw@, x, y, width, height),
{
    let image = image::RgbaImage::from_raw(frame.width, frame.height, frame.raw.clone()).unwrap();
    let cropped = image::imageops::crop_imm(&image, x, y, width, height).to_image();
    RgbaFrame { width: cropped.width(), height: cropped.height(), raw: cropped.into_raw() }
}

/// The `image` crate's error type, carried through opaquely.
#[verifier::external_type_specification]
#[verifier::external_body]
pub struct ExImageError(image::ImageError);

/// The PNG file that the `image` crate writes for an RGBA image, or `None`
/// where it reports an error.
pub uninterp spec fn png_encoding(width: u32, height: u32, rgba: Seq<u8>) -> Option<Seq<u8>>;

/// Calls `ImageBuffer::write_to` with `ImageFormat::Png` into memory.
/// Trusted: the bytes, or the failure, are `png_encoding` of the image.
#[verifier::external_body]
pub(crate) fn encode_png(frame: &RgbaFrame) -> (res: Result<Vec<u8>, image::ImageError>)
    requires
        frame.is_exact(),
    ensures
        match res {
            Ok(bytes) => png_encoding(frame.width, frame.height, frame.raw@) == Some(bytes@),
            Err(_) => png_encoding(frame.width, frame.height, frame.raw@) is None,
        },
{
    let image = image::ImageBuffer::<image::Rgba<u8>, &[u8]>::from_raw(frame.width, frame.height, frame.raw.as_slice()).unwrap();
    let mut bytes = Vec::new();
    image.write_to(&mut std::io::Cursor::new(&mut bytes), image::ImageFormat::Png)?;
    Ok(bytes)
}

/// The RGB pixels of an RGBA image: each pixel without its alpha byte.
pub open spec fn rgb_conversion(width: u32, height: u32, rgba: Seq<u8>) -> Seq<u8> {
    Seq::new((3 * width * height) as nat, |k: int| rgba[4 * (k / 3) + k % 3])
}

/// Calls `DynamicImage::into_rgb8` on the image.
/// Trusted: the result is the image's pixels without their alpha bytes, as
/// `subpixel_cast_rgba_to_rgb` in the crate's source copies them between
/// two 8-bit layouts.
#[verifier::external_body]
pub(crate) fn to_rgb(frame: &RgbaFrame) -> (rgb: Vec<u8>)
    requires
        frame.is_exact(),
    ensures
        rgb@ == rgb_conversion(frame.width, frame.height, frame.raw@),
        rgb@.len() == 3 * frame.width * frame.height,
{
    let image = image::RgbaImage::from_raw(frame.width, frame.height, frame.raw.clone()).unwrap();
    image::DynamicImage::from(image).into_rgb8().into_raw()
}

/// The JPEG file that the `image` crate's `JpegEncoder` writes for RGB
/// pixels at a quality, or `None` where it reports an error.
pub uninterp spec fn jpeg_encoding(width: u32, height: u32, rgb: Seq<u8>, quality: u8) -> Option<Seq<u8>>;

/// Calls `JpegEncoder::new_with_quality` and `JpegEncoder::encode` with
/// `ExtendedColorType::Rgb8` into memory.
/// Trusted: the bytes, or the failure, are `jpeg_encoding` of the pixels.
#[verifier::external_body]
pub(crate) fn encode_jpeg(rgb: &[u8], width: u32, height: u32, quality: u8) -> (res: Result<Vec<u8>, image::ImageError>)
    requires
        rgb@.len() == 3 * width * height,
    ensures
        match res {
            Ok(bytes) => jpeg_encoding(width, height, rgb@, quality) == Some(bytes@),
            Err(_) => jpeg_encoding(width, height, rgb@, quality) is None,
        },
{
    let mut bytes = Vec::new();
    image::codecs::jpeg::JpegEncoder::new_with_quality(&mut bytes, quality)
        .encode(rgb, width, height, image::ExtendedColorType::Rgb8)?;
    Ok(bytes)
}

/// Width, height and pixels of each frame.
pub open spec fn frames_view(frames: Seq<RgbaFrame>) -> Seq<(u32, u32, Seq<u8>)> {
    frames.map_values(|f: RgbaFrame| (f.width, f.height, f.raw@))
}

/// The animated GIF, repeating forever, that the `image` crate's
/// `GifEncoder` writes for frames shown `delay_ms` milliseconds each, or
/// `None` where it reports an error.
pub uninterp spec fn gif_animation(frames: Seq<(u32, u32, Seq<u8>)>, delay_ms: u32) -> Option<Seq<u8>>;

/// Calls `GifEncoder::new`, `GifEncoder::set_repeat(Repeat::Infinite)` and
/// `GifEncoder::encode_frames` into memory, each frame placed at (0, 0) with
/// a delay of `delay_ms` milliseconds.
/// Trusted: the bytes, or the failure, are `gif_animation` of the frames.
#[verifier::external_body]
pub(crate) fn encode_gif(frames: &Vec<RgbaFrame>, delay_ms: u32) -> (res: Result<Vec<u8>, image::ImageError>)
    requires
        forall|i: int| 0 <= i < frames@.len() ==> (#[trigger] frames@[i]).is_exact(),
    ensures
        match res {
            Ok(bytes) => gif_animation(frames_view(frames@), delay_ms) == Some(bytes@),
            Err(_) => gif_animation(frames_view(frames@), delay_ms) is None,
        },
{
    let mut bytes = Vec::new();
    {
        let mut encoder = image::codecs::gif::GifEncoder::new(&mut bytes);
        encoder.set_repeat(image::codecs::gif::Repeat::Infinite)?;
        encoder.encode_frames(frames.iter().map(|f| image::Frame::from_parts(
            image::RgbaImage::from_raw(f.width, f.height, f.raw.clone()).unwrap(), 0, 0,
            image::Delay::from_numer_denom_ms(delay_ms, 1),
        )))?;
    }
    Ok(bytes)
}

} // verus!
