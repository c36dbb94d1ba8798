use shotmd::commands::capture_command::{crop_selection, encode_capture_jpeg, encode_capture_png};
use shotmd::commands::record_command::encode_gif_recording;
use shotmd::imaging::RgbaFrame;
use shotmd::ui::{CapturedMonitor, MonitorKey, Selection};

fn key() -> MonitorKey {
    MonitorKey { x: 0, y: 0, width: 3, height: 2 }
}

/// A 3 by 2 image whose pixel (x, y) is [x, y, 10 * x + y, 255].
fn sample() -> RgbaFrame {
    let mut raw = Vec::new();
    for y in 0..2u8 {
        for x in 0..3u8 {
            raw.extend_from_slice(&[x, y, 10 * x + y, 255]);
        }
    }
    RgbaFrame { width: 3, height: 2, raw }
}

fn cut(x: u32, y: u32, width: u32, height: u32) -> RgbaFrame {
    let all = vec![CapturedMonitor { key: key(), image: sample() }];
    crop_selection(&Selection { x, y, width, height, monitor: key() }, &all).unwrap()
}

#[test]
fn crop_inside_copies_rectangle() {
    let out = cut(1, 0, 2, 2);
    assert_eq!((out.width, out.height), (2, 2));
    assert_eq!(
        out.raw,
        vec![1, 0, 10, 255, 2, 0, 20, 255, 1, 1, 11, 255, 2, 1, 21, 255]
    );
}

#[test]
fn crop_is_cut_at_the_edges() {
    let out = cut(2, 1, 5, 5);
    assert_eq!((out.width, out.height), (1, 1));
    assert_eq!(out.raw, vec![2, 1, 21, 255]);
    let outside = cut(9, 9, 4, 4);
    assert_eq!((outside.width, outside.height), (0, 0));
    assert!(outside.raw.is_empty());
}

#[test]
fn crop_of_whole_image_is_the_image() {
    let out = cut(0, 0, 3, 2);
    assert_eq!(out.raw, sample().raw);
}

#[test]
fn png_round_trips_through_decoder() {
    let image = sample();
    let png = encode_capture_png(&image).expect("png");
    assert_eq!(&png[..8], &[0x89, b'P', b'N', b'G', 0x0d, 0x0a, 0x1a, 0x0a]);
    let decoded = image::load_from_memory(&png).unwrap().into_rgba8();
    assert_eq!(decoded.dimensions(), (3, 2));
    assert_eq!(decoded.into_raw(), image.raw);
}

#[test]
fn jpeg_has_markers_and_size() {
    let jpeg = encode_capture_jpeg(&sample()).expect("jpeg");
    assert_eq!(&jpeg[..2], &[0xff, 0xd8]);
    assert_eq!(&jpeg[jpeg.len() - 2..], &[0xff, 0xd9]);
    let decoded = image::load_from_memory(&jpeg).unwrap();
    assert_eq!((decoded.width(), decoded.height()), (3, 2));
    assert_eq!(decoded.color(), image::ColorType::Rgb8);
}

#[test]
fn gif_has_header_and_frames() {
    let frames = vec![sample(), sample()];
    let selection = Selection { x: 0, y: 0, width: 3, height: 2, monitor: key() };
    let gif = encode_gif_recording(&selection, &frames, 1).expect("gif");
    assert_eq!(&gif[..6], b"GIF89a");
    assert_eq!(*gif.last().unwrap(), 0x3b);
    let decoded = image::load_from_memory(&gif).unwrap();
    assert_eq!((decoded.width(), decoded.height()), (3, 2));
}
