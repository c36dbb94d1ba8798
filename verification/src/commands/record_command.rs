//! Recording: frames of a monitor, cut to the selection, encoded as an
//! animation (WebP, or GIF at an even frame rate).
use vstd::prelude::*;
use crate::commands::capture_command::embed_file;
use crate::commands::record_utils::RecordFrame;
use crate::commands::ShotError;
use crate::imaging::{crop, crop_of, crop_pixel, encode_gif, frames_view, gif_animation, RgbaFrame};
use crate::text::{base64_len, base64_standard, html_embed};
use crate::ui::Selection;
use crate::webp::{webp_add_frame, webp_canvas, webp_file, webp_encoder_created, webp_encoder_new, webp_finalize, webp_frame_added, webp_frames};

verus! {

/// The pixels of a recorded frame inside the selection.
pub open spec fn cropped_frame(selection: Selection, f: RecordFrame) -> Seq<u8> {
    crop_of(f.frame.width, f.frame.height, f.frame.raw@, selection.x, selection.y, selection.width, selection.height).2
}

/// The frames handed to the WebP encoder: the selected pixels of each
/// recorded frame, at its timestamp read as an `i32`.
pub open spec fn webp_input(selection: Selection, frames: Seq<RecordFrame>) -> Seq<(Seq<u8>, i32)> {
    frames.map_values(|f: RecordFrame| (cropped_frame(selection, f), f.timestamp_ms as i32))
}

/// Each frame handed to the WebP encoder is the selected block of the
/// recorded frame at that frame's timestamp: for a selection inside the
/// frame, it is as large as the selection, and its pixel in row `r`,
/// column `c` is the recorded pixel in row `selection.y + r`, column
/// `selection.x + c`.
pub proof fn webp_frames_are_the_selection(selection: Selection, frames: Seq<RecordFrame>, i: int, r: int, c: int, k: int)
    requires
        0 <= i < frames.len(),
        selection.x + selection.width <= frames[i].frame.width,
        selection.y + selection.height <= frames[i].frame.height,
        0 <= r < selection.height,
        0 <= c < selection.width,
        0 <= k < 4,
    ensures
        webp_input(selection, frames).len() == frames.len(),
        webp_input(selection, frames)[i].1 == frames[i].timestamp_ms as i32,
        webp_input(selection, frames)[i].0.len() == 4 * selection.width * selection.height,
        webp_input(selection, frames)[i].0[4 * (r * selection.width + c) + k]
            == frames[i].frame.raw@[4 * ((selection.y + r) * frames[i].frame.width + selection.x + c) + k],
{
    let f = frames[i].frame;
    crop_pixel(f.width, f.height, f.raw@, selection.x, selection.y, selection.width, selection.height, r, c, k);
}

/// Every recorded frame holds all its pixels.
pub open spec fn frames_hold_pixels(frames: Seq<RecordFrame>) -> bool {
    forall|i: int| 0 <= i < frames.len() ==> (#[trigger] frames[i]).frame.holds_pixels()
}

/// The first `n` frames can go into a WebP animation of the selection's
/// size: each is as large as the selection, and their timestamps start at
/// 0 or later and rise strictly.
pub open spec fn webp_prefix_encodable(selection: Selection, frames: Seq<RecordFrame>, n: int) -> bool {
    &&& forall|i: int| 0 <= i < n ==> (#[trigger] cropped_frame(selection, frames[i])).len() == 4 * selection.width * selection.height
    &&& n > 0 ==> frames[0].timestamp_ms as i32 >= 0
    &&& forall|i: int| 0 < i < n ==> (frames[i - 1].timestamp_ms as i32) < (#[trigger] frames[i].timestamp_ms as i32)
}

/// All frames can go into a WebP animation of the selection's size.
pub open spec fn webp_encodable(selection: Selection, frames: Seq<RecordFrame>) -> bool {
    webp_prefix_encodable(selection, frames, frames.len() as int)
}

/// Every frame from the first to the last is taken in by the WebP encoder
/// after the ones before it.
pub open spec fn webp_all_added(width: u32, height: u32, input: Seq<(Seq<u8>, i32)>) -> bool {
    forall|i: int| 0 <= i < input.len() ==> #[trigger] webp_frame_added(width, height, input.take(i), input[i].0, input[i].1)
}

/// The WebP encoder would panic on a frame: one of the canvas's size whose
/// row is too long for an `i32`.
pub open spec fn webp_row_overflows(selection: Selection, frames: Seq<RecordFrame>) -> bool {
    4 * selection.width > i32::MAX && exists|i: int| 0 <= i < frames.len()
        && (#[trigger] cropped_frame(selection, frames[i])).len() == 4 * selection.width * selection.height
}

/// The animated WebP of a recording: each frame cut to the selection, shown
/// from its timestamp on, the animation ending at the last timestamp. The
/// encoder is made for the selection's size; the first step that fails
/// gives the error.
#[verifier::rlimit(60)]
pub fn encode_recording(selection: &Selection, frames: &Vec<RecordFrame>) -> (webp: Result<Vec<u8>, ShotError>)
    requires
        frames_hold_pixels(frames@),
        frames@.len() > 0 && selection.width * selection.height < 0x1_0000_0000 ==> 4 * selection.width * selection.height <= usize::MAX,
        !webp_row_overflows(*selection, frames@),
    ensures
        frames@.len() == 0 ==> (webp matches Err(e) && e is NoFrames),
        frames@.len() > 0 ==> ({
            let w = selection.width;
            let h = selection.height;
            let input = webp_input(*selection, frames@);
            let end = frames@.last().timestamp_ms as i32;
            if !webp_encoder_created(w, h) {
                webp matches Err(e) && e is WebpEncoderCreate
            } else if !webp_all_added(w, h, input) {
                webp matches Err(e) && e is WebpAddFrame
            } else {
                match webp_file(w, h, input, end) {
                    Some(bytes) => webp matches Ok(v) && v@ == bytes,
                    None => webp matches Err(e) && e is WebpFinalize,
                }
            }
        }),
        webp is Ok ==> webp_encodable(*selection, frames@),
{
    let n = frames.len();
    let mut cropped: Vec<Vec<u8>> = Vec::new();
    for i in 0..n
        invariant
            n == frames@.len(),
            frames_hold_pixels(frames@),
            cropped@.len() == i,
            forall|j: int| 0 <= j < i ==> (#[trigger] cropped@[j])@ == cropped_frame(*selection, frames@[j]),
    {
        assert(frames@[i as int].frame.holds_pixels());
        let image = crop(&frames[i].frame, selection.x, selection.y, selection.width, selection.height);
        cropped.push(image.raw);
    }
    if n == 0 {
        return Err(ShotError::NoFrames);
    }
    let mut encoder = match webp_encoder_new(selection.width, selection.height) {
        Ok(encoder) => encoder,
        Err(cause) => return Err(ShotError::WebpEncoderCreate(cause)),
    };
    let ghost input = webp_input(*selection, frames@);
    for i in 0..n
        invariant
            n == frames@.len(),
            n > 0,
            input == webp_input(*selection, frames@),
            webp_encoder_created(selection.width, selection.height),
            0 < selection.width <= i32::MAX,
            0 < selection.height <= i32::MAX,
            selection.width * selection.height < 0x1_0000_0000,
            selection.width * selection.height < 0x1_0000_0000 ==> 4 * selection.width * selection.height <= usize::MAX,
            !webp_row_overflows(*selection, frames@),
            cropped@.len() == n,
            forall|j: int| 0 <= j < n ==> (#[trigger] cropped@[j])@ == cropped_frame(*selection, frames@[j]),
            webp_canvas(encoder) == (selection.width, selection.height),
            webp_frames(encoder) == input.take(i as int),
            webp_prefix_encodable(*selection, frames@, i as int),
            forall|j: int| 0 <= j < i ==> #[trigger] webp_frame_added(selection.width, selection.height, input.take(j), input[j].0, input[j].1),
    {
        let timestamp = frames[i].timestamp_ms as i32;
        let ghost before = webp_frames(encoder);
        proof {
            assert(input[i as int] == (cropped_frame(*selection, frames@[i as int]), timestamp));
            assert(cropped@[i as int]@ == cropped_frame(*selection, frames@[i as int]));
            if 4 * selection.width > i32::MAX && cropped@[i as int]@.len() == 4 * selection.width * selection.height {
                assert(webp_row_overflows(*selection, frames@));
            }
        }
        match webp_add_frame(&mut encoder, cropped[i].as_slice(), timestamp) {
            Ok(()) => {},
            Err(cause) => {
                proof {
                    assert(!webp_frame_added(selection.width, selection.height, input.take(i as int), input[i as int].0, input[i as int].1));
                }
                return Err(ShotError::WebpAddFrame(cause));
            },
        }
        proof {
            assert(input.take(i as int).push(input[i as int]) =~= input.take(i + 1));
            if i > 0 {
                assert(before.last() == input[i - 1]);
            }
        }
    }
    let end_ms = frames[n - 1].timestamp_ms as i32;
    proof {
        assert(input.take(n as int) =~= input);
        assert(webp_all_added(selection.width, selection.height, input));
    }
    match webp_finalize(encoder, end_ms) {
        Ok(bytes) => Ok(bytes),
        Err(cause) => Err(ShotError::WebpFinalize(cause)),
    }
}

/// The HTML image that inlines an animated WebP, as a recording puts it on
/// the clipboard; an empty file means that nothing was recorded.
pub fn recording_embed(webp: &Vec<u8>) -> (html: Result<String, ShotError>)
    requires
        base64_len(webp@.len()) <= usize::MAX,
    ensures
        webp@.len() == 0 ==> (html matches Err(e) && e is NoFrames),
        webp@.len() > 0 ==> (html matches Ok(text) && text@ == html_embed("image/webp"@, base64_standard(webp@))),
{
    if webp.len() == 0 {
        return Err(ShotError::NoFrames);
    }
    Ok(embed_file("image/webp", webp))
}

/// Milliseconds that each GIF frame is shown so that the frames fill the
/// recording's duration: `(duration_secs * 1000) as u32 / frame_count as u32`.
pub fn gif_frame_delay_ms(duration_secs: u64, frame_count: usize) -> (delay: u32)
    requires
        duration_secs * 1000 <= u64::MAX,
        frame_count as u32 != 0,
    ensures
        delay == ((duration_secs * 1000) as u32) / (frame_count as u32),
{
    ((duration_secs * 1000) as u32) / (frame_count as u32)
}

/// The frames of a GIF fill the recording: their delays add up to at most
/// its duration, and one more millisecond each would exceed it (where the
/// duration in milliseconds and the frame count fit 32 bits).
pub proof fn gif_delays_fill_duration(duration_secs: u64, frame_count: nat)
    requires
        0 < frame_count <= u32::MAX,
        duration_secs * 1000 <= u32::MAX,
    ensures
        gif_frame_delay_ms_spec(duration_secs, frame_count) * frame_count <= duration_secs * 1000,
        duration_secs * 1000 < (gif_frame_delay_ms_spec(duration_secs, frame_count) + 1) * frame_count,
{
    let total = (duration_secs * 1000) as int;
    let n = frame_count as int;
    assert((duration_secs * 1000) as u32 == total);
    assert((frame_count as u32) == n);
    let q = total / n;
    assert(gif_frame_delay_ms_spec(duration_secs, frame_count) == q);
    vstd::arithmetic::div_mod::lemma_fundamental_div_mod(total, n);
    vstd::arithmetic::div_mod::lemma_mod_bound(total, n);
    assert(q * n <= total && total < (q + 1) * n) by (nonlinear_arith)
        requires
            total == n * q + total % n,
            0 <= total % n < n,
    ;
}

/// The selected part of each whole-monitor frame, with its size.
pub open spec fn gif_frames(selection: Selection, frames: Seq<RgbaFrame>) -> Seq<(u32, u32, Seq<u8>)> {
    frames.map_values(|f: RgbaFrame| crop_of(f.width, f.height, f.raw@, selection.x, selection.y, selection.width, selection.height))
}

/// Each GIF frame is the selected block of the recorded frame: for a
/// selection inside the frame, it has the selection's size, and its pixel
/// in row `r`, column `c` is the recorded pixel in row `selection.y + r`,
/// column `selection.x + c`.
pub proof fn gif_frames_are_the_selection(selection: Selection, frames: Seq<RgbaFrame>, i: int, r: int, c: int, k: int)
    requires
        0 <= i < frames.len(),
        selection.x + selection.width <= frames[i].width,
        selection.y + selection.height <= frames[i].height,
        0 <= r < selection.height,
        0 <= c < selection.width,
        0 <= k < 4,
    ensures
        gif_frames(selection, frames).len() == frames.len(),
        gif_frames(selection, frames)[i].0 == selection.width,
        gif_frames(selection, frames)[i].1 == selection.height,
        gif_frames(selection, frames)[i].2.len() == 4 * selection.width * selection.height,
        gif_frames(selection, frames)[i].2[4 * (r * selection.width + c) + k]
            == frames[i].raw@[4 * ((selection.y + r) * frames[i].width + selection.x + c) + k],
{
    let f = frames[i];
    crop_pixel(f.width, f.height, f.raw@, selection.x, selection.y, selection.width, selection.height, r, c, k);
}

/// Every frame holds all its pixels.
pub open spec fn rgba_frames_hold_pixels(frames: Seq<RgbaFrame>) -> bool {
    forall|i: int| 0 <= i < frames.len() ==> (#[trigger] frames[i]).holds_pixels()
}

/// `j` is the first frame whose buffer lacks some of its pixels.
pub open spec fn is_first_short_frame(frames: Seq<RgbaFrame>, j: int) -> bool {
    &&& 0 <= j < frames.len()
    &&& !frames[j].holds_pixels()
    &&& forall|k: int| 0 <= k < j ==> (#[trigger] frames[k]).holds_pixels()
}

/// The animated GIF of a recording that lasted `duration_secs`: each frame
/// cut to the selection and shown for an equal share of the duration. The
/// frames go to the encoder one after another, so a frame without all its
/// pixels fails the recording only where the frames before it encode.
pub fn encode_gif_recording(selection: &Selection, frames: &Vec<RgbaFrame>, duration_secs: u64) -> (gif: Result<Vec<u8>, ShotError>)
    requires
        frames@.len() > 0 ==> duration_secs * 1000 <= u64::MAX,
        frames@.len() == 0 || frames@.len() as u32 != 0,
    ensures
        frames@.len() == 0 ==> (gif matches Err(e) && e is NoFrames),
        frames@.len() > 0 && rgba_frames_hold_pixels(frames@) ==> match gif_animation(gif_frames(*selection, frames@), gif_frame_delay_ms_spec(duration_secs, frames@.len())) {
            Some(bytes) => gif matches Ok(v) && v@ == bytes,
            None => gif matches Err(e) && e is GifEncoding,
        },
        frames@.len() > 0 && !rgba_frames_hold_pixels(frames@) ==> exists|j: int| #[trigger] is_first_short_frame(frames@, j) && if gif_animation(
            gif_frames(*selection, frames@.take(j)),
            gif_frame_delay_ms_spec(duration_secs, frames@.len()),
        ) is None {
            gif matches Err(e) && e is GifEncoding
        } else {
            gif matches Err(e) && e is FrameBuffer
        },
{
    let n = frames.len();
    if n == 0 {
        return Err(ShotError::NoFrames);
    }
    let delay_ms = gif_frame_delay_ms(duration_secs, n);
    let mut cropped: Vec<RgbaFrame> = Vec::new();
    let mut short: Option<usize> = None;
    let mut i: usize = 0;
    while i < n && short.is_none()
        invariant
            n == frames@.len(),
            i <= n,
            cropped@.len() == i,
            short matches Some(j) ==> j == i && is_first_short_frame(frames@, j as int),
            short is None ==> forall|j: int| 0 <= j < i ==> (#[trigger] frames@[j]).holds_pixels(),
            forall|j: int| 0 <= j < i ==> (#[trigger] cropped@[j]).is_exact(),
            forall|j: int| 0 <= j < i ==> ((#[trigger] cropped@[j]).width, cropped@[j].height, cropped@[j].raw@) == crop_of(
                frames@[j].width,
                frames@[j].height,
                frames@[j].raw@,
                selection.x,
                selection.y,
                selection.width,
                selection.height,
            ),
        decreases n - i, (if short is None { 1int } else { 0int }),
    {
        let frame = &frames[i];
        if !fits_pixels(frame) {
            short = Some(i);
        } else {
            let image = crop(frame, selection.x, selection.y, selection.width, selection.height);
            cropped.push(image);
            i = i + 1;
        }
    }
    proof {
        assert(frames_view(cropped@) =~= gif_frames(*selection, frames@.take(i as int)));
        if short is None {
            assert(frames@.take(i as int) =~= frames@);
        }
    }
    match encode_gif(&cropped, delay_ms) {
        Ok(bytes) => match short {
            None => Ok(bytes),
            Some(_) => Err(ShotError::FrameBuffer),
        },
        Err(cause) => Err(ShotError::GifEncoding(cause)),
    }
}

/// The frame delay, as `gif_frame_delay_ms` computes it.
pub open spec fn gif_frame_delay_ms_spec(duration_secs: u64, frame_count: nat) -> u32 {
    ((duration_secs * 1000) as u32) / (frame_count as u32)
}

/// The frame's buffer holds all its pixels.
pub fn fits_pixels(frame: &RgbaFrame) -> (fits: bool)
    ensures
        fits == frame.holds_pixels(),
{
    let w = frame.width as u128;
    let h = frame.height as u128;
    assert(0 <= w * h <= 0xffff_ffff * 0xffff_ffff) by (nonlinear_arith)
        requires
            0 <= w <= 0xffff_ffff,
            0 <= h <= 0xffff_ffff,
    ;
    let area = w * h;
    assert(4 * w * h == 4 * area) by (nonlinear_arith)
        requires
            area == w * h,
    ;
    4 * area <= frame.raw.len() as u128
}

} // verus!
