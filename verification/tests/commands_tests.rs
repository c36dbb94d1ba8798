use shotmd::commands::capture_command::{capture_file_name, crop_selection, embed_file, encode_capture_jpeg, encode_capture_png, png_embed, JPEG_QUALITY};
use shotmd::commands::record_command::{encode_gif_recording, encode_recording, gif_frame_delay_ms, recording_embed};
use shotmd::commands::record_utils::{FrameClock, RecordFrame};
use shotmd::commands::ShotError;
use shotmd::imaging::RgbaFrame;
use shotmd::ui::{CapturedMonitor, MonitorKey, Selection};

fn key() -> MonitorKey {
    MonitorKey { x: 0, y: 0, width: 4, height: 4 }
}

fn gradient(width: u32, height: u32, shift: u8) -> RgbaFrame {
    let mut raw = Vec::new();
    for y in 0..height {
        for x in 0..width {
            raw.extend_from_slice(&[(x * 40) as u8 + shift, (y * 40) as u8, shift, 255]);
        }
    }
    RgbaFrame { width, height, raw }
}

fn selection(x: u32, y: u32, width: u32, height: u32) -> Selection {
    Selection { x, y, width, height, monitor: key() }
}

#[test]
fn capture_cuts_the_selected_rectangle() {
    let all = vec![CapturedMonitor { key: key(), image: gradient(4, 4, 0) }];
    let cut = crop_selection(&selection(1, 2, 2, 2), &all).unwrap();
    assert_eq!((cut.width, cut.height), (2, 2));
    assert_eq!(&cut.raw[..4], &[40, 80, 0, 255]);
}

#[test]
fn capture_of_unknown_monitor_fails() {
    let other = MonitorKey { x: 5, y: 0, width: 4, height: 4 };
    let all = vec![CapturedMonitor { key: other, image: gradient(4, 4, 0) }];
    let err = crop_selection(&selection(0, 0, 1, 1), &all).err().unwrap();
    assert!(matches!(err, ShotError::MonitorNotFound));
    assert_eq!(err.message(), "Selection monitor not found in captures");
}

#[test]
fn capture_files_and_clipboard_text() {
    let all = vec![CapturedMonitor { key: key(), image: gradient(4, 4, 0) }];
    let cut = crop_selection(&selection(0, 0, 4, 4), &all).unwrap();
    let png = encode_capture_png(&cut).unwrap();
    let decoded = image::load_from_memory(&png).unwrap().into_rgba8();
    assert_eq!(decoded.into_raw(), cut.raw);
    let jpeg = encode_capture_jpeg(&cut).unwrap();
    assert_eq!(&jpeg[..2], &[0xff, 0xd8]);
    assert_eq!(JPEG_QUALITY, 85);
    let html = png_embed(&png);
    let payload = html
        .strip_prefix("<img src=\"data:image/png;base64,")
        .and_then(|rest| rest.strip_suffix("\" />"))
        .expect("html image");
    assert_eq!(payload.len(), (png.len() + 2) / 3 * 4);
    assert!(payload.starts_with("iVBORw0KGgo"));
    assert!(html.len() > png.len());
    assert_eq!(capture_file_name(1700000000, "png"), "shotmd-1700000000.png");
    assert_eq!(capture_file_name(5, "jpg"), "shotmd-5.jpg");
}

#[test]
fn embed_inlines_the_file() {
    assert_eq!(embed_file("image/gif", &b"abc".to_vec()), "<img src=\"data:image/gif;base64,YWJj\" />");
}

#[test]
fn png_of_empty_cut_is_refused() {
    let empty = RgbaFrame { width: 0, height: 0, raw: Vec::new() };
    assert!(matches!(encode_capture_png(&empty), Err(ShotError::PngEncoding(_))));
}

fn record_frame(shift: u8, timestamp_ms: u32) -> RecordFrame {
    RecordFrame { frame: gradient(4, 4, shift), delay_ms: 0, timestamp_ms }
}

#[test]
fn recording_becomes_an_animated_webp() {
    let frames = vec![record_frame(0, 0), record_frame(30, 40), record_frame(60, 90)];
    let webp = encode_recording(&selection(1, 1, 2, 2), &frames).unwrap();
    assert_eq!(&webp[..4], b"RIFF");
    assert_eq!(&webp[8..12], b"WEBP");
    let html = recording_embed(&webp).unwrap();
    assert!(html.starts_with("<img src=\"data:image/webp;base64,UklGR"));
}

#[test]
fn recording_without_frames_fails() {
    assert!(matches!(encode_recording(&selection(0, 0, 2, 2), &Vec::new()), Err(ShotError::NoFrames)));
    assert!(matches!(recording_embed(&Vec::new()), Err(ShotError::NoFrames)));
    assert_eq!(ShotError::NoFrames.message(), "No frames captured");
}

#[test]
fn recording_of_empty_selection_fails() {
    let frames = vec![record_frame(0, 0)];
    assert!(matches!(encode_recording(&selection(0, 0, 0, 2), &frames), Err(ShotError::WebpEncoderCreate(_))));
}

#[test]
fn recording_with_repeated_timestamp_fails() {
    let frames = vec![record_frame(0, 10), record_frame(1, 10)];
    assert!(matches!(encode_recording(&selection(0, 0, 2, 2), &frames), Err(ShotError::WebpAddFrame(_))));
}

#[test]
fn recording_past_the_frame_edge_fails() {
    let frames = vec![record_frame(0, 0)];
    assert!(matches!(encode_recording(&selection(3, 3, 2, 2), &frames), Err(ShotError::WebpAddFrame(_))));
}

#[test]
fn gif_delay_shares_the_duration() {
    assert_eq!(gif_frame_delay_ms(3, 10), 300);
    assert_eq!(gif_frame_delay_ms(1, 3), 333);
    assert_eq!(gif_frame_delay_ms(0, 5), 0);
}

#[test]
fn gif_delays_fill_the_duration() {
    for (secs, frames) in [(1u64, 3usize), (3, 7), (10, 600), (2, 2000)] {
        let delay = gif_frame_delay_ms(secs, frames) as u64;
        let total = secs * 1000;
        assert!(delay * frames as u64 <= total);
        assert!(total < (delay + 1) * frames as u64);
    }
}

#[test]
fn gif_recording_and_its_errors() {
    let frames = vec![gradient(4, 4, 0), gradient(4, 4, 50)];
    let gif = encode_gif_recording(&selection(0, 0, 2, 2), &frames, 1).unwrap();
    assert_eq!(&gif[..6], b"GIF89a");
    assert!(matches!(encode_gif_recording(&selection(0, 0, 2, 2), &Vec::new(), 1), Err(ShotError::NoFrames)));
    let short = RgbaFrame { width: 4, height: 4, raw: vec![0; 10] };
    assert!(matches!(encode_gif_recording(&selection(0, 0, 2, 2), &vec![short], 1), Err(ShotError::FrameBuffer)));
}

#[test]
fn first_frame_has_no_delay() {
    let mut clock = FrameClock::new();
    let now = std::time::Instant::now();
    let (timestamp, delay) = clock.tick(now);
    assert_eq!(timestamp, 0);
    assert_eq!(delay, 0);
    let (later, _) = clock.tick(now);
    assert_eq!(later, 0);
}

#[test]
fn error_messages() {
    assert_eq!(ShotError::FrameBuffer.message(), "Failed to create RgbaImage from frame");
    let empty = RgbaFrame { width: 0, height: 0, raw: Vec::new() };
    let err = encode_capture_png(&empty).err().unwrap();
    assert_eq!(err.message(), "Failed to encode PNG bytes");
    let gif_err = encode_gif_recording(
        &selection(0, 0, 70000, 1),
        &vec![RgbaFrame { width: 70000, height: 1, raw: vec![7; 280000] }],
        1,
    )
    .err()
    .unwrap();
    assert_eq!(gif_err.message(), "Failed to encode GIF frame");
    assert!(matches!(gif_err, ShotError::GifEncoding(_)));
}

#[test]
fn gif_reports_the_first_failing_step() {
    // The wide first frame fails to encode before the short second frame is reached.
    let wide = RgbaFrame { width: 70000, height: 1, raw: vec![7; 280000] };
    let short = RgbaFrame { width: 4, height: 4, raw: vec![0; 10] };
    let result = encode_gif_recording(&selection(0, 0, 70000, 1), &vec![wide, short], 1);
    assert!(matches!(result, Err(ShotError::GifEncoding(_))));
    // A good first frame lets the short second frame fail as a buffer error.
    let result = encode_gif_recording(&selection(0, 0, 2, 2), &vec![gradient(4, 4, 0), RgbaFrame { width: 4, height: 4, raw: vec![0; 10] }], 1);
    assert!(matches!(result, Err(ShotError::FrameBuffer)));
}

#[test]
fn later_frames_are_stamped_from_the_first() {
    let mut clock = FrameClock::new();
    let first = std::time::Instant::now();
    clock.tick(first);
    let later = first + std::time::Duration::from_millis(250);
    let (timestamp, delay) = clock.tick(later);
    assert_eq!(timestamp, 250);
    assert_eq!(delay, 250);
    let last = later + std::time::Duration::from_millis(40);
    assert_eq!(clock.tick(last), (290, 40));
}

#[test]
fn jpeg_of_empty_cut_is_refused() {
    let empty = RgbaFrame { width: 0, height: 0, raw: Vec::new() };
    assert!(matches!(encode_capture_jpeg(&empty), Err(ShotError::JpegEncoding(_))));
}

#[test]
fn gif_wider_than_the_format_allows_fails() {
    let wide = RgbaFrame { width: 70000, height: 1, raw: vec![7; 280000] };
    assert!(matches!(encode_gif_recording(&selection(0, 0, 70000, 1), &vec![wide], 1), Err(ShotError::GifEncoding(_))));
}
