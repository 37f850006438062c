use image::ImageEncoder;
use rustimage_core::{
    convert_format, detect_format, ConversionOptionsBuilder, FormatConverter, ImageFormat,
};

fn png_of(width: u32, height: u32, rgba: &[u8]) -> Vec<u8> {
    let mut bytes = Vec::new();
    let encoder = image::codecs::png::PngEncoder::new(&mut bytes);
    encoder
        .write_image(rgba, width, height, image::ColorType::Rgba8)
        .expect("Failed to encode PNG");
    bytes
}

fn two_by_two() -> Vec<u8> {
    vec![
        255, 0, 0, 255, // red
        0, 255, 0, 255, // green
        0, 0, 255, 255, // blue
        255, 255, 255, 255, // white
    ]
}

#[test]
fn test_format_detection() {
    let jpeg_header = vec![0xFF, 0xD8, 0xFF, 0xE0, 0x00, 0x10, 0x4A, 0x46];
    assert_eq!(detect_format(&jpeg_header).unwrap(), ImageFormat::Jpeg);

    let png_header = vec![0x89, 0x50, 0x4E, 0x47, 0x0D, 0x0A, 0x1A, 0x0A];
    assert_eq!(detect_format(&png_header).unwrap(), ImageFormat::Png);

    let webp_header = vec![
        0x52, 0x49, 0x46, 0x46, 0x00, 0x00, 0x00, 0x00, 0x57, 0x45, 0x42, 0x50,
    ];
    assert_eq!(detect_format(&webp_header).unwrap(), ImageFormat::WebP);

    let invalid_data = vec![0x00, 0x01, 0x02, 0x03];
    assert!(detect_format(&invalid_data).is_err());
}

#[test]
fn test_converter_creation() {
    let default_converter = FormatConverter::with_defaults();
    assert!(default_converter.is_ok());

    let hp_converter = FormatConverter::with_high_performance();
    assert!(hp_converter.is_ok());

    let hq_converter = FormatConverter::with_high_quality();
    assert!(hq_converter.is_ok());
}

#[test]
fn test_options_builder() {
    let options = ConversionOptionsBuilder::new()
        .quality(800)
        .compression_level(6)
        .progressive(true)
        .preserve_dimensions(true)
        .preserve_metadata(false)
        .build();

    assert_eq!(options.quality(), Some(800));
    assert_eq!(options.compression_level(), Some(6));
    assert_eq!(options.is_progressive(), Some(true));
    assert!(options.preserves_dimensions());
    assert!(!options.preserves_metadata());
}

#[test]
fn test_simple_png_to_jpeg_conversion() {
    let width = 2u32;
    let height = 2u32;
    let png_data = png_of(width, height, &two_by_two());

    assert_eq!(detect_format(&png_data).unwrap(), ImageFormat::Png);

    let result = convert_format(&png_data, ImageFormat::Png, ImageFormat::Jpeg, None);

    match result {
        Ok(converted) => {
            assert!(converted.converted_size() > 0);
            assert_eq!(converted.format(), ImageFormat::Jpeg);
            assert_eq!(converted.dimensions().width, width);
            assert_eq!(converted.dimensions().height, height);
            assert_eq!(converted.original_size(), png_data.len() as u64);
            assert_eq!(converted.converted_size(), converted.data().len() as u64);

            let output_format = detect_format(converted.data());
            assert!(output_format.is_ok());
            assert_eq!(output_format.unwrap(), ImageFormat::Jpeg);
        }
        Err(e) => {
            panic!("PNG to JPEG conversion failed: {}", e.message());
        }
    }
}

#[test]
fn test_simple_jpeg_to_png_conversion() {
    let width = 2u32;
    let height = 2u32;
    let jpeg_data = {
        let mut jpeg_bytes = Vec::new();
        let encoder = image::codecs::jpeg::JpegEncoder::new_with_quality(&mut jpeg_bytes, 90);
        encoder
            .write_image(&two_by_two(), width, height, image::ColorType::Rgba8)
            .expect("Failed to encode JPEG");
        jpeg_bytes
    };

    assert_eq!(detect_format(&jpeg_data).unwrap(), ImageFormat::Jpeg);

    let result = convert_format(&jpeg_data, ImageFormat::Jpeg, ImageFormat::Png, None);

    match result {
        Ok(converted) => {
            assert!(converted.converted_size() > 0);
            assert_eq!(converted.format(), ImageFormat::Png);
            assert_eq!(converted.dimensions().width, width);
            assert_eq!(converted.dimensions().height, height);

            let output_format = detect_format(converted.data());
            assert!(output_format.is_ok());
            assert_eq!(output_format.unwrap(), ImageFormat::Png);
        }
        Err(e) => {
            panic!("JPEG to PNG conversion failed: {}", e.message());
        }
    }
}

#[test]
fn test_conversion_with_quality_options() {
    let width = 4u32;
    let height = 4u32;
    let mut rgba_data = Vec::with_capacity((width * height * 4) as usize);
    for y in 0..height {
        for x in 0..width {
            let r = ((x as f32 / width as f32) * 255.0) as u8;
            let g = ((y as f32 / height as f32) * 255.0) as u8;
            let b = 128u8;
            let a = 255u8;
            rgba_data.extend_from_slice(&[r, g, b, a]);
        }
    }
    let png_data = png_of(width, height, &rgba_data);

    let qualities = [300, 600, 900];
    let mut results = Vec::new();

    for &quality in &qualities {
        let options = ConversionOptionsBuilder::new().quality(quality).build();

        let result = convert_format(&png_data, ImageFormat::Png, ImageFormat::Jpeg, Some(options));

        match result {
            Ok(converted) => {
                results.push((quality, converted.converted_size()));
                assert_eq!(converted.format(), ImageFormat::Jpeg);
                assert!(converted.converted_size() > 0);
            }
            Err(e) => {
                println!("Quality {} conversion failed (acceptable): {}", quality, e.message());
            }
        }
    }

    if results.len() >= 2 {
        println!("Quality vs Size results: {:?}", results);
    }
}

#[test]
fn basic_conversion_test_error_handling() {
    let empty_data = vec![];
    let result = convert_format(&empty_data, ImageFormat::Jpeg, ImageFormat::Png, None);
    assert!(result.is_err());

    let invalid_data = vec![0x00, 0x01, 0x02, 0x03];
    let result = convert_format(&invalid_data, ImageFormat::Jpeg, ImageFormat::Png, None);
    assert!(result.is_err());

    let png_header = vec![0x89, 0x50, 0x4E, 0x47, 0x0D, 0x0A, 0x1A, 0x0A];
    let result = convert_format(&png_header, ImageFormat::Jpeg, ImageFormat::Png, None);
    assert!(result.is_err());
}

#[test]
fn test_converter_statistics() {
    let mut converter = FormatConverter::with_defaults().unwrap();

    let initial_total = converter.get_conversion_statistics().total_conversions;
    assert_eq!(initial_total, 0);
    assert_eq!(converter.get_conversion_statistics().successful_conversions, 0);

    let test_data = vec![0xFF, 0xD8, 0xFF, 0xE0];
    let _ = converter.convert_format(&test_data, ImageFormat::Jpeg, ImageFormat::Png, None);

    let final_total = converter.get_conversion_statistics().total_conversions;
    assert!(final_total >= initial_total);
    assert_eq!(final_total, 1);
    assert_eq!(converter.get_conversion_statistics().failed_conversions, 1);
}
