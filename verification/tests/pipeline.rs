//! Tests for image normalization and the verified pipeline post-processing.

use menu_lens::PipelineError;
use menu_lens::engine::{collect_lines, load_model};
use menu_lens::tensor::read_buffer;

/// Encode a 2x2 RGB image with distinct channel samples as PNG bytes.
fn sample_png() -> Vec<u8> {
    let raw: Vec<u8> = vec![10, 20, 30, 40, 50, 60, 70, 80, 90, 100, 110, 120];
    let img = image::RgbImage::from_raw(2, 2, raw).unwrap();
    let mut buf: Vec<u8> = Vec::new();
    image::DynamicImage::ImageRgb8(img)
        .write_to(&mut std::io::Cursor::new(&mut buf), image::ImageFormat::Png)
        .unwrap();
    buf
}

#[test]
fn test_read_buffer_planar_layout() {
    let png = sample_png();
    let tensor = read_buffer(&png).unwrap();
    assert_eq!(tensor.width, 2);
    assert_eq!(tensor.height, 2);
    assert_eq!(tensor.data.len(), 12);
    // Red plane, then green, then blue, each row-major.
    assert_eq!(tensor.data, vec![10, 40, 70, 100, 20, 50, 80, 110, 30, 60, 90, 120]);
}

#[test]
fn test_read_buffer_single_pixel() {
    let raw: Vec<u8> = vec![1, 2, 3];
    let img = image::RgbImage::from_raw(1, 1, raw).unwrap();
    let mut buf: Vec<u8> = Vec::new();
    image::DynamicImage::ImageRgb8(img)
        .write_to(&mut std::io::Cursor::new(&mut buf), image::ImageFormat::Png)
        .unwrap();
    let tensor = read_buffer(&buf).unwrap();
    assert_eq!((tensor.width, tensor.height), (1, 1));
    assert_eq!(tensor.data, vec![1, 2, 3]);
}

#[test]
fn test_read_buffer_deterministic() {
    let png = sample_png();
    let a = read_buffer(&png).unwrap();
    let b = read_buffer(&png).unwrap();
    assert_eq!(a.data, b.data);
    assert_eq!((a.width, a.height), (b.width, b.height));
}

#[test]
fn test_read_buffer_rejects_garbage() {
    let garbage: Vec<u8> = vec![0, 1, 2, 3, 4, 5, 6, 7];
    match read_buffer(&garbage) {
        Err(e) => assert_eq!(e, PipelineError::Decode),
        Ok(_) => panic!("garbage bytes must not decode"),
    }
}

#[test]
fn test_read_buffer_rejects_empty() {
    let empty: Vec<u8> = Vec::new();
    assert!(read_buffer(&empty).is_err());
}

#[test]
fn test_collect_lines_keeps_content_in_order() {
    let found = vec![
        Some("Bratwurst".to_string()),
        None,
        Some(String::new()),
        Some("Pils".to_string()),
    ];
    let lines = collect_lines(found);
    assert_eq!(lines, vec!["Bratwurst".to_string(), "Pils".to_string()]);
}

#[test]
fn test_collect_lines_no_content_is_empty_not_error() {
    let found: Vec<Option<String>> = vec![None, Some(String::new()), None];
    assert_eq!(collect_lines(found), Vec::<String>::new());
    let nothing: Vec<Option<String>> = Vec::new();
    assert_eq!(collect_lines(nothing), Vec::<String>::new());
}

#[test]
fn test_load_model_rejects_garbage() {
    let garbage: Vec<u8> = vec![9, 9, 9, 9];
    match load_model(garbage) {
        Err(e) => assert_eq!(e, PipelineError::ModelLoad),
        Ok(_) => panic!("garbage bytes must not load as a model"),
    }
}
