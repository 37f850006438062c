use rustimage_core::{
    detect_format, get_format_info, get_performance_metrics, CodecEngine, ConversionOptionsBuilder,
    ErrorCategory, ErrorSeverity, FormatConverter, ImageError, ImageFormat, Luma, MonitorConfig,
    PerformanceMonitor, Pixel, Rgb, Rgba,
};

#[test]
fn test_basic_module_creation() {
    let converter = FormatConverter::with_defaults();
    assert!(converter.is_ok());

    let monitor = PerformanceMonitor::new(MonitorConfig::default());
    assert_eq!(monitor.get_history().len(), 0);

    let _engine = CodecEngine::new();
}

#[test]
fn test_type_definitions() {
    let formats = vec![
        ImageFormat::Jpeg,
        ImageFormat::Png,
        ImageFormat::WebP,
        ImageFormat::Avif,
        ImageFormat::Bmp,
        ImageFormat::Tiff,
        ImageFormat::Gif,
        ImageFormat::Ico,
    ];

    for format in formats {
        let info = format.info();
        assert!(!info.name.is_empty());
        assert!(!info.extensions.is_empty());
    }

    let options = ConversionOptionsBuilder::new()
        .quality(800)
        .compression_level(6)
        .progressive(true)
        .build();

    assert!(options.quality().is_some());
    assert!(options.compression_level().is_some());
    assert!(options.is_progressive().is_some());
}

#[test]
fn test_performance_monitoring() {
    let monitor = PerformanceMonitor::new(MonitorConfig::default());
    let metrics = monitor.get_current_metrics();

    assert_eq!(metrics.timing.total_time_us, 0);
    assert_eq!(metrics.memory.peak_memory_bytes, 0);
    assert_eq!(metrics.throughput.images_processed, 0);
}

#[test]
fn lib_test_error_handling() {
    let format_error = ImageError::invalid_format("test_format");
    assert_eq!(format_error.category(), ErrorCategory::Format);
    assert_eq!(format_error.severity(), ErrorSeverity::Medium);

    let param_error = ImageError::invalid_parameters("invalid parameter");
    assert_eq!(param_error.category(), ErrorCategory::Parameter);
    assert_eq!(param_error.severity(), ErrorSeverity::Low);

    assert!(!format_error.is_retryable());
    assert!(!param_error.is_retryable());
}

#[test]
fn test_pixel_types() {
    let rgb_pixel = Rgb { r: 255u8, g: 128u8, b: 64u8 };
    let rgb_channels = rgb_pixel.to_channels();
    assert_eq!(rgb_channels, vec![255u8, 128u8, 64u8]);

    let reconstructed_rgb = Rgb::from_channels(&rgb_channels);
    assert_eq!(reconstructed_rgb, rgb_pixel);

    let rgba_pixel = Rgba { r: 255u8, g: 128u8, b: 64u8, a: 200u8 };
    let rgba_channels = rgba_pixel.to_channels();
    assert_eq!(rgba_channels, vec![255u8, 128u8, 64u8, 200u8]);

    let luma_pixel = Luma { l: 128u8 };
    let luma_channels = luma_pixel.to_channels();
    assert_eq!(luma_channels, vec![128u8]);
}

#[test]
fn test_convenience_functions() {
    let test_data = vec![
        0xFF, 0xD8, 0xFF, 0xE0, 0x00, 0x10, 0x4A, 0x46, 0x49, 0x46, 0x00, 0x01,
    ];

    let detected_format = detect_format(&test_data);
    match detected_format {
        Ok(format) => {
            assert_eq!(format, ImageFormat::Jpeg);
        }
        Err(_) => {
            panic!("a JPEG header must be detected");
        }
    }

    let jpeg_info = get_format_info(ImageFormat::Jpeg);
    assert_eq!(jpeg_info.name, "JPEG");
    assert!(jpeg_info.extensions.contains(&"jpg"));

    let metrics = get_performance_metrics();
    assert_eq!(metrics.timing.total_time_us, 0);
}
