//! Turning a selection into files and a clipboard snippet: the computing
//! steps of capturing a still image and of recording an animation.
pub mod capture_command;
pub mod record_command;
pub mod record_utils;

use vstd::prelude::*;

verus! {

/// Why a capture or a recording failed, with the outside crate's error
/// where one caused it.
#[derive(Debug)]
pub enum ShotError {
    MonitorNotFound,
    PngEncoding(image::ImageError),
    JpegEncoding(image::ImageError),
    NoFrames,
    FrameBuffer,
    GifEncoding(image::ImageError),
    WebpEncoderCreate(webp_animation::Error),
    WebpAddFrame(webp_animation::Error),
    WebpFinalize(webp_animation::Error),
}

/// The text that reports an error.
pub open spec fn error_message(e: ShotError) -> Seq<char> {
    match e {
        ShotError::MonitorNotFound => "Selection monitor not found in captures"@,
        ShotError::PngEncoding(_) => "Failed to encode PNG bytes"@,
        ShotError::JpegEncoding(_) => "Failed to encode JPEG"@,
        ShotError::NoFrames => "No frames captured"@,
        ShotError::FrameBuffer => "Failed to create RgbaImage from frame"@,
        ShotError::GifEncoding(_) => "Failed to encode GIF frame"@,
        ShotError::WebpEncoderCreate(_) => "Failed to create WebP animation encoder"@,
        ShotError::WebpAddFrame(_) => "Failed to add frame to WebP encoder"@,
        ShotError::WebpFinalize(_) => "Failed to finalize WebP animation"@,
    }
}

impl ShotError {
    /// The text that reports the error.
    pub fn message(&self) -> (text: &'static str)
        ensures
            text@ == error_message(*self),
    {
        match self {
            ShotError::MonitorNotFound => "Selection monitor not found in captures",
            ShotError::PngEncoding(_) => "Failed to encode PNG bytes",
            ShotError::JpegEncoding(_) => "Failed to encode JPEG",
            ShotError::NoFrames => "No frames captured",
            ShotError::FrameBuffer => "Failed to create RgbaImage from frame",
            ShotError::GifEncoding(_) => "Failed to encode GIF frame",
            ShotError::WebpEncoderCreate(_) => "Failed to create WebP animation encoder",
            ShotError::WebpAddFrame(_) => "Failed to add frame to WebP encoder",
            ShotError::WebpFinalize(_) => "Failed to finalize WebP animation",
        }
    }
}

} // verus!
