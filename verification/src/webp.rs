//! Animated WebP encoding with the `webp_animation` crate.
use vstd::prelude::*;

verus! {

/// The `webp_animation` crate's animation encoder, held opaquely.
#[verifier::external_type_specification]
#[verifier::external_body]
pub struct ExWebpEncoder(webp_animation::Encoder);

/// The `webp_animation` crate's error type, carried through opaquely.
#[verifier::external_type_specification]
#[verifier::external_body]
pub struct ExWebpError(webp_animation::Error);

/// Canvas width and height that an encoder was made with.
pub uninterp spec fn webp_canvas(encoder: webp_animation::Encoder) -> (u32, u32);

/// The frames that an encoder holds so far, with their timestamps, in the
/// order in which they were added.
pub uninterp spec fn webp_frames(encoder: webp_animation::Encoder) -> Seq<(Seq<u8>, i32)>;

/// Whether `Encoder::new` (default options) makes an encoder for a canvas.
pub uninterp spec fn webp_encoder_created(width: u32, height: u32) -> bool;

/// Whether `Encoder::add_frame` takes in RGBA pixels at a timestamp, on an
/// encoder with the given canvas that holds the given frames.
pub uninterp spec fn webp_frame_added(width: u32, height: u32, frames: Seq<(Seq<u8>, i32)>, data: Seq<u8>, timestamp_ms: i32) -> bool;

/// The animated WebP file that `Encoder::finalize` assembles for RGBA frames
/// on a canvas, the animation ending at `end_ms`, or `None` where it fails.
pub uninterp spec fn webp_file(width: u32, height: u32, frames: Seq<(Seq<u8>, i32)>, end_ms: i32) -> Option<Seq<u8>>;

/// Calls `webp_animation::Encoder::new` with default options.
/// Trusted: it succeeds as `webp_encoder_created` says; a new encoder has the
/// given canvas and no frames; a canvas is only taken when both sides are
/// above 0 and at most `i32::MAX` and its area is below 2^32 (the crate
/// refuses an empty side, and passes the sides as `i32` to libwebp's
/// `WebPAnimEncoderNew`, which refuses sides of 0 or less and larger areas).
#[verifier::external_body]
pub(crate) fn webp_encoder_new(width: u32, height: u32) -> (res: Result<webp_animation::Encoder, webp_animation::Error>)
    ensures
        res is Ok == webp_encoder_created(width, height),
        res matches Ok(encoder) ==> webp_canvas(encoder) == (width, height) && webp_frames(encoder) == Seq::<(Seq<u8>, i32)>::empty(),
        res is Ok ==> 0 < width <= i32::MAX && 0 < height <= i32::MAX && width * height < 0x1_0000_0000,
{
    webp_animation::Encoder::new((width, height))
}

/// Calls `Encoder::add_frame` with RGBA pixels and a timestamp in
/// milliseconds.
/// Trusted: it succeeds as `webp_frame_added` says; on success the frame is
/// appended; the canvas never changes; a frame whose byte count is not that
/// of the canvas, or whose timestamp is not above the last one (the first
/// must be at least 0), is refused (as `set_data` and `add_frame_internal`
/// in the crate's source check). The crate computes the canvas's byte count
/// in `usize` and, for a frame of that size, the row's byte count in `i32`,
/// both without overflow check.
#[verifier::external_body]
pub(crate) fn webp_add_frame(encoder: &mut webp_animation::Encoder, data: &[u8], timestamp_ms: i32) -> (res: Result<(), webp_animation::Error>)
    requires
        4 * webp_canvas(*old(encoder)).0 * webp_canvas(*old(encoder)).1 <= usize::MAX,
        webp_canvas(*old(encoder)).0 <= i32::MAX,
        webp_canvas(*old(encoder)).1 <= i32::MAX,
        4 * webp_canvas(*old(encoder)).0 <= i32::MAX || data@.len() != 4 * webp_canvas(*old(encoder)).0 * webp_canvas(*old(encoder)).1,
    ensures
        webp_canvas(*final(encoder)) == webp_canvas(*old(encoder)),
        res is Ok == webp_frame_added(webp_canvas(*old(encoder)).0, webp_canvas(*old(encoder)).1, webp_frames(*old(encoder)), data@, timestamp_ms),
        res is Ok ==> webp_frames(*final(encoder)) == webp_frames(*old(encoder)).push((data@, timestamp_ms)),
        res is Ok ==> data@.len() == 4 * webp_canvas(*old(encoder)).0 * webp_canvas(*old(encoder)).1,
        res is Ok && webp_frames(*old(encoder)).len() == 0 ==> timestamp_ms >= 0,
        res is Ok && webp_frames(*old(encoder)).len() > 0 ==> timestamp_ms > webp_frames(*old(encoder)).last().1,
{
    encoder.add_frame(data, timestamp_ms)
}

/// Calls `Encoder::finalize` and copies out the assembled file.
/// Trusted: the bytes, or the failure, are `webp_file` of the canvas
/// and frames; an encoder without frames, or an end before the last frame's
/// timestamp, is refused (`NoFramesAdded`,
/// `TimestampMustBeEqualOrHigherThanPrevious`).
#[verifier::external_body]
pub(crate) fn webp_finalize(encoder: webp_animation::Encoder, end_ms: i32) -> (res: Result<Vec<u8>, webp_animation::Error>)
    ensures
        match res {
            Ok(bytes) => webp_file(webp_canvas(encoder).0, webp_canvas(encoder).1, webp_frames(encoder), end_ms) == Some(bytes@),
            Err(_) => webp_file(webp_canvas(encoder).0, webp_canvas(encoder).1, webp_frames(encoder), end_ms) is None,
        },
        res is Ok ==> webp_frames(encoder).len() > 0 && end_ms >= webp_frames(encoder).last().1,
{
    Ok(encoder.finalize(end_ms)?.to_vec())
}

} // verus!
