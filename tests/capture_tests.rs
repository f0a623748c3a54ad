use cleanshitx::backend::{CaptureData, CursorData, PixelFormat};
use cleanshitx::capture::{
    capture_to_rgb_image, capture_to_rgba_image, composite_cursor, file_name, generate_filename,
    render_rgba, ImageFormat, RgbImage, RgbaImage, SaveConfig, SaveError,
};
use image::{Rgb, Rgba};

fn as_rgb(img: RgbImage) -> image::RgbImage {
    image::ImageBuffer::from_raw(img.width, img.height, img.pixels).unwrap()
}

fn as_rgba(img: &RgbaImage) -> image::RgbaImage {
    image::ImageBuffer::from_raw(img.width, img.height, img.pixels.clone()).unwrap()
}

fn white(width: u32, height: u32) -> RgbaImage {
    RgbaImage::from_raw(width, height, vec![255u8; (width * height * 4) as usize]).unwrap()
}

#[test]
fn test_image_format_extension() {
    assert_eq!(ImageFormat::Png.extension(), "png");
    assert_eq!(ImageFormat::Jpeg { quality: 90 }.extension(), "jpg");
}

#[test]
fn test_jpeg_quality_validation() {
    assert!(ImageFormat::validate_jpeg_quality(1).is_ok());
    assert!(ImageFormat::validate_jpeg_quality(100).is_ok());
    assert!(ImageFormat::validate_jpeg_quality(0).is_err());
    assert!(ImageFormat::validate_jpeg_quality(101).is_err());
}

#[test]
fn test_save_config_default() {
    let config = SaveConfig::default();
    assert!(config.output_dir.is_none());
    assert_eq!(config.format, ImageFormat::Png);
    assert!(config.include_cursor);
    assert!(config.filename_prefix.is_none());
}

#[test]
fn test_save_config_builder() {
    let config = SaveConfig::default()
        .with_format(ImageFormat::Jpeg { quality: 85 })
        .with_cursor(false)
        .with_prefix("test");

    assert_eq!(config.format, ImageFormat::Jpeg { quality: 85 });
    assert!(!config.include_cursor);
    assert_eq!(config.filename_prefix, Some("test".to_string()));
}

#[test]
fn output_dir_choice() {
    let config = SaveConfig::default().with_output_dir("/tmp/shots");
    assert_eq!(config.get_output_dir(Some("/home/u/Pictures".into())).unwrap(), "/tmp/shots");
    let config = SaveConfig::default();
    assert_eq!(config.get_output_dir(Some("/home/u/Pictures".into())).unwrap(), "/home/u/Pictures");
    match config.get_output_dir(None) {
        Err(SaveError::FilenameError(m)) => assert_eq!(m, "Could not determine Pictures directory"),
        other => panic!("unexpected {:?}", other),
    }
}

#[test]
fn file_names() {
    let config = SaveConfig::default();
    assert_eq!(file_name(&config, "-x-"), "screenshot-x-.png");
    let config = SaveConfig::default().with_prefix("shot_").with_format(ImageFormat::Jpeg { quality: 80 });
    assert_eq!(generate_filename(&config, 0, 0).unwrap(), "shot_1970-01-01_00-00-00.jpg");
    assert_eq!(
        generate_filename(&SaveConfig::default(), 1431648000, 5).unwrap(),
        "screenshot2015-05-15_00-00-00.png"
    );
    assert_eq!(generate_filename(&SaveConfig::default(), i64::MAX, 0), None);
    let custom = SaveConfig { timestamp_format: Some("%s".into()), ..SaveConfig::default() };
    assert_eq!(generate_filename(&custom, 0, 0).unwrap(), "screenshotcustom.png");
}

#[test]
fn test_rgb24_conversion() {
    let pixels = vec![
        255, 0, 0, // Red
        0, 255, 0, // Green
        0, 0, 255, // Blue
        255, 255, 0, // Yellow
    ];
    let capture = CaptureData::new(pixels, 2, 2, PixelFormat::RGB24());
    let img = as_rgb(capture_to_rgb_image(&capture).unwrap());

    assert_eq!(img.dimensions(), (2, 2));
    assert_eq!(img.get_pixel(0, 0), &Rgb([255, 0, 0]));
    assert_eq!(img.get_pixel(1, 0), &Rgb([0, 255, 0]));
    assert_eq!(img.get_pixel(0, 1), &Rgb([0, 0, 255]));
    assert_eq!(img.get_pixel(1, 1), &Rgb([255, 255, 0]));
}

#[test]
fn test_bgr24_conversion() {
    let pixels = vec![
        0, 0, 255, // Red (stored as BGR)
        0, 255, 0, // Green
        255, 0, 0, // Blue (stored as BGR)
        0, 255, 255, // Yellow (stored as BGR)
    ];
    let capture = CaptureData::new(pixels, 2, 2, PixelFormat::BGR24());
    let img = as_rgb(capture_to_rgb_image(&capture).unwrap());

    assert_eq!(img.dimensions(), (2, 2));
    assert_eq!(img.get_pixel(0, 0), &Rgb([255, 0, 0]));
    assert_eq!(img.get_pixel(1, 0), &Rgb([0, 255, 0]));
    assert_eq!(img.get_pixel(0, 1), &Rgb([0, 0, 255]));
    assert_eq!(img.get_pixel(1, 1), &Rgb([255, 255, 0]));
}

#[test]
fn test_rgba32_conversion() {
    let pixels = vec![
        255, 0, 0, 255, // Opaque red
        0, 255, 0, 128, // Half-transparent green
        0, 0, 255, 255, // Opaque blue
        255, 255, 0, 0, // Fully transparent yellow
    ];
    let capture = CaptureData::new(pixels, 2, 2, PixelFormat::RGBA32());
    let img = as_rgba(&capture_to_rgba_image(&capture).unwrap());

    assert_eq!(img.dimensions(), (2, 2));
    assert_eq!(img.get_pixel(0, 0), &Rgba([255, 0, 0, 255]));
    assert_eq!(img.get_pixel(1, 0), &Rgba([0, 255, 0, 128]));
    assert_eq!(img.get_pixel(0, 1), &Rgba([0, 0, 255, 255]));
    assert_eq!(img.get_pixel(1, 1), &Rgba([255, 255, 0, 0]));
}

#[test]
fn test_rgb32_conversion() {
    let pixels = vec![
        255, 0, 0, 0, // Red + padding
        0, 255, 0, 0, // Green + padding
        0, 0, 255, 0, // Blue + padding
        255, 255, 0, 0, // Yellow + padding
    ];
    let capture = CaptureData::new(pixels, 2, 2, PixelFormat::RGB32());
    let img = as_rgb(capture_to_rgb_image(&capture).unwrap());

    assert_eq!(img.dimensions(), (2, 2));
    assert_eq!(img.get_pixel(0, 0), &Rgb([255, 0, 0]));
    assert_eq!(img.get_pixel(1, 0), &Rgb([0, 255, 0]));
    assert_eq!(img.get_pixel(0, 1), &Rgb([0, 0, 255]));
    assert_eq!(img.get_pixel(1, 1), &Rgb([255, 255, 0]));
}

#[test]
fn rgb24_with_stride_six() {
    let rows = vec![255, 0, 0, 0, 255, 0, 0, 0, 255, 255, 255, 0];
    let capture = CaptureData::new(rows.clone(), 2, 2, PixelFormat::RGB24());
    assert_eq!(capture.stride, 6);
    assert_eq!(capture_to_rgb_image(&capture).unwrap().pixels, rows);
    let rgba = capture_to_rgba_image(&capture).unwrap();
    assert_eq!(rgba.pixels, vec![255, 0, 0, 255, 0, 255, 0, 255, 0, 0, 255, 255, 255, 255, 0, 255]);
    assert_eq!(rgba.dimensions(), (2, 2));
}

#[test]
fn bgr24_red_pixel_becomes_rgb_red() {
    let capture = CaptureData::new(vec![0, 0, 255, 0, 0, 0, 0, 0, 0, 0, 0, 0], 2, 2, PixelFormat::BGR24());
    let img = capture_to_rgb_image(&capture).unwrap();
    assert_eq!(&img.pixels[0..3], &[255, 0, 0]);
}

#[test]
fn padded_rows_are_skipped() {
    // 2x2 BGR32 with two padding bytes at the end of each row
    let capture = CaptureData {
        pixels: vec![1, 2, 3, 9, 4, 5, 6, 9, 7, 7, 10, 11, 12, 9, 13, 14, 15, 9, 7, 7],
        width: 2,
        height: 2,
        stride: 10,
        format: PixelFormat::BGR32(),
        cursor: None,
    };
    assert_eq!(capture_to_rgb_image(&capture).unwrap().pixels, vec![3, 2, 1, 6, 5, 4, 12, 11, 10, 15, 14, 13]);
    assert_eq!(
        capture_to_rgba_image(&capture).unwrap().pixels,
        vec![3, 2, 1, 255, 6, 5, 4, 255, 12, 11, 10, 255, 15, 14, 13, 255]
    );
}

#[test]
fn bgra32_keeps_alpha_and_swaps() {
    let capture = CaptureData::new(vec![1, 2, 3, 4], 1, 1, PixelFormat::BGRA32());
    assert_eq!(capture_to_rgba_image(&capture).unwrap().pixels, vec![3, 2, 1, 4]);
    assert_eq!(capture_to_rgb_image(&capture).unwrap().pixels, vec![3, 2, 1]);
    let capture = CaptureData::new(vec![1, 2, 3, 4], 1, 1, PixelFormat::RGB32());
    assert_eq!(capture_to_rgba_image(&capture).unwrap().pixels, vec![1, 2, 3, 255]);
}

#[test]
fn short_buffer_is_rejected() {
    let capture = CaptureData {
        pixels: vec![0; 11],
        width: 2,
        height: 2,
        stride: 6,
        format: PixelFormat::RGB24(),
        cursor: None,
    };
    match capture_to_rgb_image(&capture) {
        Err(SaveError::BufferTooShort { required, available }) => assert_eq!((required, available), (12, 11)),
        other => panic!("unexpected {:?}", other),
    }
    assert!(matches!(capture_to_rgba_image(&capture), Err(SaveError::BufferTooShort { .. })));
    let wide = CaptureData { stride: 8, pixels: vec![0; 12], ..capture };
    assert!(matches!(capture_to_rgba_image(&wide), Err(SaveError::BufferTooShort { .. })));
}

#[test]
fn unsupported_format_is_rejected() {
    let odd = PixelFormat { bits_per_pixel: 32, bytes_per_pixel: 4, red_mask: 0xFF, green_mask: 0xFF00, blue_mask: 0xFF00_0000 };
    let capture = CaptureData::new(vec![0; 4], 1, 1, odd);
    match capture_to_rgb_image(&capture) {
        Err(SaveError::InvalidPixelFormat(f)) => assert_eq!(f, odd),
        other => panic!("unexpected {:?}", other),
    }
    assert!(matches!(capture_to_rgba_image(&capture), Err(SaveError::InvalidPixelFormat(_))));
}

#[test]
fn empty_capture_converts_to_empty_image() {
    let capture = CaptureData::new(vec![], 0, 5, PixelFormat::RGB24());
    let img = capture_to_rgba_image(&capture).unwrap();
    assert!(img.pixels.is_empty());
    assert_eq!(img.dimensions(), (0, 5));
}

#[test]
fn test_cursor_compositing() {
    let mut image = white(10, 10);
    let cursor = CursorData {
        pixels: vec![255, 0, 0, 255, 255, 0, 0, 255, 255, 0, 0, 255, 255, 0, 0, 255],
        width: 2,
        height: 2,
        x: 5,
        y: 5,
        xhot: 0,
        yhot: 0,
    };

    composite_cursor(&mut image, &cursor);
    let image = as_rgba(&image);

    assert_eq!(image.get_pixel(5, 5), &Rgba([255, 0, 0, 255]));
    assert_eq!(image.get_pixel(6, 5), &Rgba([255, 0, 0, 255]));
    assert_eq!(image.get_pixel(5, 6), &Rgba([255, 0, 0, 255]));
    assert_eq!(image.get_pixel(6, 6), &Rgba([255, 0, 0, 255]));

    assert_eq!(image.get_pixel(0, 0), &Rgba([255, 255, 255, 255]));
    assert_eq!(image.get_pixel(9, 9), &Rgba([255, 255, 255, 255]));
}

#[test]
fn opaque_sprite_changes_exactly_four_pixels() {
    let mut image = RgbaImage::from_raw(10, 10, (0..400).map(|i| (i % 7) as u8 * 30).collect::<Vec<u8>>()).unwrap();
    for p in image.pixels.chunks_mut(4) {
        p[3] = 255;
    }
    let before = image.pixels.clone();
    let cursor = CursorData { pixels: [255, 0, 0, 255].repeat(4), width: 2, height: 2, x: 5, y: 5, xhot: 0, yhot: 0 };
    composite_cursor(&mut image, &cursor);
    let mut changed = 0;
    for y in 0..10usize {
        for x in 0..10usize {
            let i = (y * 10 + x) * 4;
            if (5..7).contains(&x) && (5..7).contains(&y) {
                assert_eq!(&image.pixels[i..i + 4], &[255, 0, 0, 255]);
            } else {
                assert_eq!(&image.pixels[i..i + 4], &before[i..i + 4]);
            }
            if image.pixels[i..i + 4] != before[i..i + 4] {
                changed += 1;
            }
        }
    }
    assert_eq!(changed, 4);
}

#[test]
fn test_cursor_alpha_blending() {
    let mut image = white(10, 10);
    let cursor = CursorData {
        pixels: vec![0, 0, 0, 128, 0, 0, 0, 128, 0, 0, 0, 128, 0, 0, 0, 128],
        width: 2,
        height: 2,
        x: 5,
        y: 5,
        xhot: 0,
        yhot: 0,
    };

    composite_cursor(&mut image, &cursor);
    let image = as_rgba(&image);

    let pixel = image.get_pixel(5, 5);
    assert!(pixel[0] < 255 && pixel[0] > 100);
    assert_eq!(pixel[3], 255);
}

#[test]
fn half_alpha_black_on_white_is_grey() {
    let mut image = white(1, 1);
    let cursor = CursorData { pixels: vec![0, 0, 0, 128], width: 1, height: 1, x: 0, y: 0, xhot: 0, yhot: 0 };
    composite_cursor(&mut image, &cursor);
    // (0 * 128 + 255 * 127) / 255 = 127
    assert_eq!(image.pixels, vec![127, 127, 127, 255]);
    for c in &image.pixels[0..3] {
        assert!(*c > 0 && *c < 255);
    }
}

#[test]
fn blend_truncates() {
    let mut image = RgbaImage::from_raw(1, 1, vec![10, 200, 0, 7]).unwrap();
    let cursor = CursorData { pixels: vec![250, 3, 255, 100], width: 1, height: 1, x: 0, y: 0, xhot: 0, yhot: 0 };
    composite_cursor(&mut image, &cursor);
    // (250*100 + 10*155)/255 = 104, (3*100 + 200*155)/255 = 122, (255*100 + 0)/255 = 100
    assert_eq!(image.pixels, vec![104, 122, 100, 255]);
}

#[test]
fn test_cursor_out_of_bounds() {
    let mut image = white(10, 10);
    let mut pixels = vec![255u8; 36 * 4];
    for i in (1..pixels.len()).step_by(4) {
        pixels[i] = 0;
        pixels[i + 1] = 0;
    }
    let cursor = CursorData { pixels, width: 6, height: 6, x: 5, y: 5, xhot: 0, yhot: 0 };

    composite_cursor(&mut image, &cursor);
    let image = as_rgba(&image);

    assert_eq!(image.get_pixel(9, 9), &Rgba([255, 0, 0, 255]));
}

#[test]
fn negative_position_clips_top_left() {
    let mut image = white(4, 4);
    // sprite pixels: red, green / blue, black; all opaque
    let cursor = CursorData {
        pixels: vec![255, 0, 0, 255, 0, 255, 0, 255, 0, 0, 255, 255, 0, 0, 0, 255],
        width: 2,
        height: 2,
        x: -1,
        y: -1,
        xhot: 0,
        yhot: 0,
    };
    composite_cursor(&mut image, &cursor);
    assert_eq!(&image.pixels[0..4], &[0, 0, 0, 255]);
    let mut expected = vec![255u8; 64];
    expected[0..4].copy_from_slice(&[0, 0, 0, 255]);
    assert_eq!(image.pixels, expected);
}

#[test]
fn sprite_wholly_outside_changes_nothing() {
    let mut image = white(3, 3);
    let cursor = CursorData { pixels: [9, 9, 9, 255].repeat(4), width: 2, height: 2, x: -5, y: 1, xhot: 0, yhot: 0 };
    composite_cursor(&mut image, &cursor);
    assert_eq!(image.pixels, vec![255u8; 36]);
    let cursor = CursorData { x: 3, y: 0, ..cursor };
    composite_cursor(&mut image, &cursor);
    assert_eq!(image.pixels, vec![255u8; 36]);
}

#[test]
fn transparent_sprite_leaves_image_unchanged() {
    let before: Vec<u8> = (0..64).map(|i| (i * 3) as u8).collect();
    let mut image = RgbaImage::from_raw(4, 4, before.clone()).unwrap();
    let cursor = CursorData { pixels: [200, 100, 50, 0].repeat(9), width: 3, height: 3, x: 1, y: 1, xhot: 0, yhot: 0 };
    composite_cursor(&mut image, &cursor);
    assert_eq!(image.pixels, before);
}

#[test]
fn from_raw_checks_length() {
    assert!(RgbaImage::from_raw(2, 2, vec![0; 15]).is_none());
    assert!(RgbImage::from_raw(2, 2, vec![0; 12]).is_some());
    assert!(RgbImage::from_raw(2, 2, vec![0; 13]).is_none());
}

#[test]
fn render_draws_cursor_only_when_asked() {
    let cursor = CursorData { pixels: vec![0, 0, 0, 255], width: 1, height: 1, x: 1, y: 0, xhot: 0, yhot: 0 };
    let capture = CaptureData::with_cursor(vec![9, 9, 9, 8, 8, 8], 2, 1, PixelFormat::BGR24(), Some(cursor));
    assert_eq!(render_rgba(&capture, true).unwrap().pixels, vec![9, 9, 9, 255, 0, 0, 0, 255]);
    assert_eq!(render_rgba(&capture, false).unwrap().pixels, vec![9, 9, 9, 255, 8, 8, 8, 255]);
    let plain = CaptureData::new(vec![1, 2, 3], 1, 1, PixelFormat::RGB24());
    assert_eq!(render_rgba(&plain, true).unwrap().pixels, vec![1, 2, 3, 255]);
}
