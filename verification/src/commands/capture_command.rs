//! A still capture: the selected rectangle is cut out of its monitor's
//! screenshot, saved as PNG and JPEG, and put on the clipboard as an HTML
//! image with the PNG inlined in base64.
use vstd::prelude::*;
use crate::commands::ShotError;
use crate::imaging::{crop, crop_of, crop_whole_image, encode_jpeg, encode_png, jpeg_encoding, png_encoding, rgb_conversion, to_rgb, RgbaFrame};
use crate::text::{base64_len, base64_standard, encode_base64, html_embed, html_image_embed, timestamped_file_name, timestamped_name};
use crate::ui::{captures_well_formed, find_capture, has_no_capture_of, is_first_capture_of, CapturedMonitor, Selection};

verus! {

/// Quality of the saved JPEG, from 1 to 100.
pub const JPEG_QUALITY: u8 = 85;

/// Stem of the names of saved files.
pub const FILE_STEM: &'static str = "shotmd";

/// The selected rectangle of the first screenshot of the selection's monitor,
/// cut at the screenshot's edges.
pub fn crop_selection(selection: &Selection, all_captures: &Vec<CapturedMonitor>) -> (cropped: Result<RgbaFrame, ShotError>)
    requires
        captures_well_formed(all_captures@),
    ensures
        cropped is Err <==> has_no_capture_of(all_captures@, selection.monitor),
        cropped matches Err(e) ==> e is MonitorNotFound,
        cropped matches Ok(image) ==> exists|i: int| #![trigger all_captures@[i]]
            is_first_capture_of(all_captures@, selection.monitor, i) && (image.width, image.height, image.raw@) == crop_of(
                all_captures@[i].image.width,
                all_captures@[i].image.height,
                all_captures@[i].image.raw@,
                selection.x,
                selection.y,
                selection.width,
                selection.height,
            ),
        cropped matches Ok(image) ==> image.is_exact(),
{
    match find_capture(all_captures, selection.monitor) {
        None => Err(ShotError::MonitorNotFound),
        Some(i) => {
            let captured = &all_captures[i];
            assert(captured.image.is_exact());
            let image = crop(&captured.image, selection.x, selection.y, selection.width, selection.height);
            Ok(image)
        },
    }
}

/// The PNG file of a cut-out image.
pub fn encode_capture_png(image: &RgbaFrame) -> (png: Result<Vec<u8>, ShotError>)
    requires
        image.is_exact(),
    ensures
        match png {
            Ok(bytes) => png_encoding(image.width, image.height, image.raw@) == Some(bytes@),
            Err(e) => e is PngEncoding && png_encoding(image.width, image.height, image.raw@) is None,
        },
{
    match encode_png(image) {
        Ok(bytes) => Ok(bytes),
        Err(cause) => Err(ShotError::PngEncoding(cause)),
    }
}

/// The JPEG file, at `JPEG_QUALITY`, of a cut-out image without its alpha
/// channel.
pub fn encode_capture_jpeg(image: &RgbaFrame) -> (jpeg: Result<Vec<u8>, ShotError>)
    requires
        image.is_exact(),
    ensures
        match jpeg {
            Ok(bytes) => jpeg_encoding(image.width, image.height, rgb_conversion(image.width, image.height, image.raw@), JPEG_QUALITY) == Some(bytes@),
            Err(e) => e is JpegEncoding && jpeg_encoding(image.width, image.height, rgb_conversion(image.width, image.height, image.raw@), JPEG_QUALITY) is None,
        },
{
    let rgb = to_rgb(image);
    match encode_jpeg(rgb.as_slice(), image.width, image.height, JPEG_QUALITY) {
        Ok(bytes) => Ok(bytes),
        Err(cause) => Err(ShotError::JpegEncoding(cause)),
    }
}

/// The HTML image that inlines a file of type `mime` in base64.
pub fn embed_file(mime: &str, file: &Vec<u8>) -> (html: String)
    requires
        base64_len(file@.len()) <= usize::MAX,
    ensures
        html@ == html_embed(mime@, base64_standard(file@)),
{
    let payload = encode_base64(file.as_slice());
    html_image_embed(mime, payload.as_str())
}

/// The HTML image that inlines a PNG file, as a capture puts it on the
/// clipboard.
pub fn png_embed(png: &Vec<u8>) -> (html: String)
    requires
        base64_len(png@.len()) <= usize::MAX,
    ensures
        html@ == html_embed("image/png"@, base64_standard(png@)),
{
    embed_file("image/png", png)
}

/// `shotmd-<timestamp>.<extension>`, the name under which a capture or a
/// recording is saved.
pub fn capture_file_name(timestamp: u64, extension: &str) -> (name: String)
    ensures
        name@ == timestamped_name(FILE_STEM@, timestamp as nat, extension@),
{
    timestamped_file_name(FILE_STEM, timestamp, extension)
}

/// Capturing a whole monitor (the `f` key, `--full-screen`) keeps the
/// entire screenshot: the selection of a whole screenshot cuts out all its
/// pixels.
pub proof fn whole_monitor_capture_keeps_everything(all_captures: Seq<CapturedMonitor>, i: int)
    requires
        captures_well_formed(all_captures),
        0 <= i < all_captures.len(),
    ensures
        ({
            let c = all_captures[i];
            crop_of(c.image.width, c.image.height, c.image.raw@, 0, 0, c.image.width, c.image.height)
                == (c.image.width, c.image.height, c.image.raw@)
        }),
{
    let c = all_captures[i];
    assert(c.image.is_exact());
    crop_whole_image(c.image.width, c.image.height, c.image.raw@);
    assert(c.image.raw@.subrange(0, 4 * c.image.width * c.image.height) =~= c.image.raw@);
}

} // verus!
