use image::ImageEncoder;
use rustimage_core::error::{ErrorCollector, ErrorContext};
use rustimage_core::hints::{
    detect_format_from_extension, detect_format_from_mime_type, format_from_string,
    format_to_string, generate_suggested_filename, is_likely_image_data, validate_image_data,
};
use rustimage_core::performance::saturating_micros;
use rustimage_core::pixel::{luma_u8, luminance_u16, luminance_u8, Luma16, Rgb16, Rgba16};
use rustimage_core::text::{decimal_string, join_strings};
use rustimage_core::{
    BmpCodec, Codec, JpegCodec, PngCodec,
    batch_convert, convert_format, detect_format, BatchPolicy, CodecEngine, CodecFactory,
    ConversionOptions, ConversionOptionsBuilder, ConversionStatistics, ConversionTask,
    ConvertedImage, ConverterConfig, ErrorCategory, ErrorChain, ErrorSeverity, FormatCapabilities,
    PngEffort,
    FormatConverter, FormatDetector, ImageBuffer, ImageCodec, ImageDimensions, ImageError,
    ImageFormat, ImageInput, Luma, MonitorConfig, PerformanceMonitor, Pixel, PixelFormat, Psnr,
    QualityAssessor, QualityStrategy, Ratio, Rgb, Rgba,
};

const ALL_FORMATS: [ImageFormat; 8] = [
    ImageFormat::Jpeg,
    ImageFormat::Png,
    ImageFormat::WebP,
    ImageFormat::Avif,
    ImageFormat::Bmp,
    ImageFormat::Tiff,
    ImageFormat::Gif,
    ImageFormat::Ico,
];

fn png_bytes(width: u32, height: u32, rgba: &[u8]) -> Vec<u8> {
    let mut bytes = Vec::new();
    image::codecs::png::PngEncoder::new(&mut bytes)
        .write_image(rgba, width, height, image::ColorType::Rgba8)
        .expect("PNG encoding");
    bytes
}

fn textured(width: u32, height: u32) -> Vec<u8> {
    let mut rgba = Vec::new();
    let mut seed: u32 = 12345;
    for y in 0..height {
        for x in 0..width {
            seed = seed.wrapping_mul(1664525).wrapping_add(1013904223);
            let noise = (seed >> 24) as u8;
            rgba.push(((x * 255) / width) as u8 ^ (noise & 0x3F));
            rgba.push(((y * 255) / height) as u8 ^ (noise & 0x1F));
            rgba.push(noise);
            rgba.push(255);
        }
    }
    rgba
}

fn four_pixels() -> Vec<u8> {
    vec![255, 0, 0, 255, 0, 255, 0, 255, 0, 0, 255, 255, 255, 255, 255, 255]
}

fn rgba_of(bytes: &[u8], format: ImageFormat) -> Vec<u8> {
    let buffer = ImageCodec::decode::<Rgba<u8>>(bytes, format).expect("decoding");
    CodecEngine::flatten(&buffer)
}

#[test]
fn detects_every_canonical_signature() {
    let cases: Vec<(Vec<u8>, ImageFormat)> = vec![
        (vec![0xFF, 0xD8, 0xFF, 0, 0, 0, 0, 0], ImageFormat::Jpeg),
        (vec![0x89, 0x50, 0x4E, 0x47, 0x0D, 0x0A, 0x1A, 0x0A], ImageFormat::Png),
        (b"RIFF\x10\x00\x00\x00WEBP".to_vec(), ImageFormat::WebP),
        (b"\x00\x00\x00\x20ftypavif".to_vec(), ImageFormat::Avif),
        (b"BM\x00\x00\x00\x00\x00\x00".to_vec(), ImageFormat::Bmp),
        (b"II\x2A\x00\x08\x00\x00\x00".to_vec(), ImageFormat::Tiff),
        (b"MM\x00\x2A\x00\x00\x00\x08".to_vec(), ImageFormat::Tiff),
        (b"GIF87a\x01\x00".to_vec(), ImageFormat::Gif),
        (b"GIF89a\x01\x00".to_vec(), ImageFormat::Gif),
        (vec![0x00, 0x00, 0x01, 0x00, 0x01, 0x00, 0x10, 0x10], ImageFormat::Ico),
    ];
    for (bytes, format) in cases {
        assert_eq!(detect_format(&bytes).unwrap(), format);
        assert_eq!(FormatDetector::detect_from_header(&bytes), Some(format));
        assert!(FormatDetector::matches_format(&bytes, format));
        assert!(validate_image_data(&bytes));
    }
}

#[test]
fn detection_fails_on_short_and_unknown_input() {
    assert!(detect_format(&[]).is_err());
    assert!(detect_format(&[0xFF, 0xD8, 0xFF]).is_err());
    assert!(detect_format(&[0xFF, 0xD8, 0xFF, 0xE0, 0, 0, 0]).is_err());
    assert!(detect_format(&[1, 2, 3, 4, 5, 6, 7, 8, 9]).is_err());
    let error = detect_format(&[0u8; 4]).unwrap_err();
    assert!(error.is_invalid_format("unknown"));
    assert!(!validate_image_data(&[]));
    // RIFF without WEBP, and WEBP cut short
    assert!(detect_format(b"RIFF\x00\x00\x00\x00WAVE").is_err());
    assert!(detect_format(b"RIFF\x00\x00\x00\x00WEB").is_err());
}

#[test]
fn avif_signature_is_tried_before_bmp() {
    let both = b"BM\x00\x00ftypavif".to_vec();
    assert!(FormatDetector::has_format_signature(&both, ImageFormat::Bmp));
    assert!(FormatDetector::has_format_signature(&both, ImageFormat::Avif));
    assert_eq!(detect_format(&both).unwrap(), ImageFormat::Avif);
    assert!(!is_likely_image_data(b"\x00\x00\x00\x20ftypavif"));
    assert!(is_likely_image_data(&both));
}

#[test]
fn empty_input_fails_for_every_pair() {
    for from in ALL_FORMATS {
        for to in ALL_FORMATS {
            let error = convert_format(&[], from, to, None).unwrap_err();
            assert!(matches!(error, ImageError::InvalidParameters { .. }));
        }
    }
}

#[test]
fn mismatched_signature_is_not_a_decode_failure() {
    let png = png_bytes(2, 2, &four_pixels());
    let error = convert_format(&png, ImageFormat::Jpeg, ImageFormat::Png, None).unwrap_err();
    assert!(error.is_invalid_format("JPEG"));
    assert_eq!(error.category(), ErrorCategory::Format);

    let broken = vec![0xFF, 0xD8, 0xFF, 0xE0, 0, 0, 0, 0, 0, 0];
    let error = convert_format(&broken, ImageFormat::Jpeg, ImageFormat::Png, None).unwrap_err();
    assert!(matches!(error, ImageError::DecodeError { .. }));
    assert_eq!(error.category(), ErrorCategory::Codec);
}

#[test]
fn lossless_round_trips_keep_every_pixel() {
    let source = textured(7, 5);
    let png = png_bytes(7, 5, &source);
    for middle in [ImageFormat::Bmp, ImageFormat::Tiff, ImageFormat::WebP, ImageFormat::Png] {
        let there = convert_format(&png, ImageFormat::Png, middle, None).unwrap();
        assert_eq!(detect_format(there.data()).unwrap(), middle);
        let back = convert_format(there.data(), middle, ImageFormat::Png, None).unwrap();
        assert_eq!(back.dimensions(), ImageDimensions { width: 7, height: 5 });
        assert_eq!(rgba_of(back.data(), ImageFormat::Png), source);
    }
}

#[test]
fn lossless_conversion_is_assessed_as_identical() {
    let png = png_bytes(2, 2, &four_pixels());
    let converted = convert_format(&png, ImageFormat::Png, ImageFormat::Bmp, None).unwrap();
    let metrics = converted.quality_metrics().expect("assessment is on by default");
    assert_eq!(metrics.psnr(), Psnr::Identical);
    assert_eq!(metrics.ssim(), Ratio { numerator: 16, denominator: 16 });
    assert_eq!(metrics.perceptual_similarity(), Ratio { numerator: 16, denominator: 16 });

    let mut fast = FormatConverter::with_high_performance().unwrap();
    let plain = fast.convert_format(&png, ImageFormat::Png, ImageFormat::Bmp, None).unwrap();
    assert!(plain.quality_metrics().is_none());
}

#[test]
fn compression_ratio_is_converted_over_original() {
    let dims = ImageDimensions { width: 1, height: 1 };
    let image = ConvertedImage::new(vec![1, 2, 3], dims, ImageFormat::Png, 1500, 6);
    assert_eq!(image.compression_ratio(), Ratio { numerator: 3, denominator: 6 });
    assert_eq!(image.converted_size(), 3);
    assert_eq!(image.original_size(), 6);
    assert_eq!(image.bytes_saved(), 3);
    assert_eq!(image.compression_percentage(), 5000);
    assert_eq!(image.conversion_time_ms(), 1);
    assert_eq!(image.conversion_time_us(), 1500);
    assert!(image.quality_metrics().is_none());

    let from_nothing = ConvertedImage::new(vec![1, 2, 3], dims, ImageFormat::Png, 0, 0);
    assert_eq!(from_nothing.compression_ratio(), Ratio { numerator: 1, denominator: 1 });
    assert_eq!(from_nothing.bytes_saved(), -3);
    assert_eq!(from_nothing.compression_percentage(), 0);

    let grown = ConvertedImage::new(vec![0; 10], dims, ImageFormat::Png, 0, 4);
    assert_eq!(grown.compression_ratio(), Ratio { numerator: 10, denominator: 4 });
    assert_eq!(grown.compression_ratio().per_mille(), 2500);
    assert_eq!(grown.bytes_saved(), -6);
    assert_eq!(grown.compression_percentage(), 0);
}

#[test]
fn psnr_sentinel_and_floor() {
    let x = vec![1u8, 2, 3, 250];
    assert_eq!(QualityAssessor::calculate_psnr(&x, &x), Psnr::Identical);
    assert_eq!(QualityAssessor::calculate_psnr(&x, &x[..3]), Psnr::Floor);
    assert_eq!(QualityAssessor::calculate_psnr(&[], &[]), Psnr::Floor);
    assert_eq!(
        QualityAssessor::calculate_psnr(&[0, 0], &[3, 4]),
        Psnr::Finite { squared_error_sum: 25, sample_count: 2 }
    );
    assert_eq!(
        QualityAssessor::calculate_psnr(&[255], &[0]),
        Psnr::Finite { squared_error_sum: 65025, sample_count: 1 }
    );
    assert_eq!(
        QualityAssessor::calculate_ssim(&[1, 2, 3, 4], &[1, 0, 3, 0], 2, 2),
        Ratio { numerator: 2, denominator: 4 }
    );
    assert_eq!(QualityAssessor::calculate_ssim(&x, &x[..2], 2, 2), Ratio { numerator: 0, denominator: 1 });
    assert_eq!(QualityAssessor::calculate_perceptual_similarity(&[], &[]), Ratio::zero());
    let dims = ImageDimensions { width: 2, height: 2 };
    let metrics = QualityAssessor::assess_quality(&x, &x, dims);
    assert_eq!(metrics.psnr(), Psnr::Identical);
    assert_eq!(metrics.ssim(), Ratio { numerator: 4, denominator: 4 });
    let floor = QualityAssessor::assess_quality(&x, &[], dims);
    assert_eq!(floor.psnr(), Psnr::Floor);
    assert_eq!(floor.ssim(), Ratio::zero());
}

#[test]
fn batch_with_mismatched_lengths_does_nothing() {
    let png = png_bytes(2, 2, &four_pixels());
    let mut converter = FormatConverter::with_defaults().unwrap();
    let images = vec![ImageInput::new(png.clone(), ImageFormat::Png), ImageInput::new(png, ImageFormat::Png)];
    let tasks = vec![ConversionTask { from_format: ImageFormat::Png, to_format: ImageFormat::Bmp, options: None }];
    let error = converter.batch_convert(images, tasks).unwrap_err();
    assert!(matches!(error, ImageError::InvalidParameters { .. }));
    assert_eq!(converter.get_conversion_statistics().total_conversions, 0);
    assert_eq!(converter.get_performance_metrics().timing.total_time_us, 0);

    let error = batch_convert(Vec::new(), vec![ConversionTask {
        from_format: ImageFormat::Png,
        to_format: ImageFormat::Bmp,
        options: None,
    }])
    .unwrap_err();
    assert!(error.is_invalid_parameters("differ"));
}

#[test]
fn batch_keeps_order_and_counts() {
    let small = png_bytes(2, 2, &four_pixels());
    let large = png_bytes(7, 5, &textured(7, 5));
    let images = vec![
        ImageInput::new(small.clone(), ImageFormat::Png),
        ImageInput::with_filename(large.clone(), ImageFormat::Png, "large.png".to_string()),
    ];
    let tasks = vec![
        ConversionTask { from_format: ImageFormat::Png, to_format: ImageFormat::Bmp, options: None },
        ConversionTask { from_format: ImageFormat::Png, to_format: ImageFormat::Tiff, options: None },
    ];
    let mut converter = FormatConverter::with_defaults().unwrap();
    let results = converter.batch_convert(images, tasks).unwrap();
    assert_eq!(results.len(), 2);
    assert_eq!(results[0].format(), ImageFormat::Bmp);
    assert_eq!(results[0].dimensions(), ImageDimensions { width: 2, height: 2 });
    assert_eq!(results[1].format(), ImageFormat::Tiff);
    assert_eq!(results[1].dimensions(), ImageDimensions { width: 7, height: 5 });
    let stats = converter.get_conversion_statistics();
    assert_eq!(stats.total_conversions, 2);
    assert_eq!(stats.successful_conversions, 2);
    assert_eq!(stats.failed_conversions, 0);
    assert_eq!(stats.pair_count(ImageFormat::Png, ImageFormat::Bmp), 1);
    assert_eq!(stats.pair_count(ImageFormat::Png, ImageFormat::Tiff), 1);
    assert_eq!(stats.pair_count(ImageFormat::Bmp, ImageFormat::Png), 0);
    assert_eq!(stats.success_rate(), Ratio { numerator: 2, denominator: 2 });
    assert_eq!(stats.total_bytes_processed, (small.len() + large.len()) as u64);
}

fn failing_batch() -> (Vec<ImageInput>, Vec<ConversionTask>) {
    let good = png_bytes(2, 2, &four_pixels());
    let bad = vec![0u8; 12];
    let images = vec![
        ImageInput::new(good.clone(), ImageFormat::Png),
        ImageInput::new(bad.clone(), ImageFormat::Png),
        ImageInput::new(good, ImageFormat::Png),
        ImageInput::new(Vec::new(), ImageFormat::Png),
    ];
    let task = ConversionTask { from_format: ImageFormat::Png, to_format: ImageFormat::Bmp, options: None };
    (images, vec![task.clone(), task.clone(), task.clone(), task])
}

#[test]
fn all_or_nothing_batch_reports_counts_and_first_error() {
    let (images, tasks) = failing_batch();
    let mut converter = FormatConverter::with_defaults().unwrap();
    let error = converter.batch_convert(images, tasks).unwrap_err();
    assert_eq!(error.category(), ErrorCategory::Batch);
    assert_eq!(error.severity(), ErrorSeverity::High);
    match &error {
        ImageError::BatchProcessingFailed { successful_count, failed_count, first_error } => {
            assert_eq!(*successful_count, 2);
            assert_eq!(*failed_count, 2);
            assert!(first_error.is_invalid_format("PNG"));
        }
        _ => panic!("a failed batch"),
    }
    assert!(error.root_cause().is_invalid_format("PNG"));
    assert_eq!(
        error.error_chain(),
        vec!["Batch processing failed: 2 successful".to_string(), "Invalid image format: PNG".to_string()]
    );
    assert_eq!(converter.get_conversion_statistics().total_conversions, 4);
    assert_eq!(converter.get_conversion_statistics().failed_conversions, 2);
}

#[test]
fn fail_fast_batch_stops_at_first_failure() {
    let (images, tasks) = failing_batch();
    let config = ConverterConfig { batch_policy: BatchPolicy::FailFast, ..ConverterConfig::default() };
    let mut converter = FormatConverter::new(config).unwrap();
    let error = converter.batch_convert(images, tasks).unwrap_err();
    match error {
        ImageError::BatchProcessingFailed { successful_count, failed_count, first_error } => {
            assert_eq!(successful_count, 1);
            assert_eq!(failed_count, 1);
            assert!(first_error.is_invalid_format("PNG"));
        }
        _ => panic!("a failed batch"),
    }
    assert_eq!(converter.get_conversion_statistics().total_conversions, 2);
}

#[test]
fn collected_batch_gives_every_outcome_in_place() {
    let (images, tasks) = failing_batch();
    let mut converter = FormatConverter::with_defaults().unwrap();
    let outcomes = converter.batch_collect(&images, &tasks).unwrap();
    assert_eq!(outcomes.len(), 4);
    assert!(outcomes[0].is_ok());
    assert!(matches!(outcomes[1], Err(ImageError::InvalidFormat { .. })));
    assert!(outcomes[2].is_ok());
    assert!(matches!(outcomes[3], Err(ImageError::InvalidParameters { .. })));
    let aggregated = FormatConverter::aggregate(outcomes);
    assert!(matches!(
        aggregated,
        Err(ImageError::BatchProcessingFailed { successful_count: 2, failed_count: 2, .. })
    ));
    let all_good = FormatConverter::aggregate(vec![
        Ok(ConvertedImage::new(vec![1], ImageDimensions { width: 1, height: 1 }, ImageFormat::Png, 0, 1)),
        Ok(ConvertedImage::new(vec![2, 3], ImageDimensions { width: 1, height: 1 }, ImageFormat::Bmp, 0, 1)),
    ])
    .unwrap();
    assert_eq!(all_good.len(), 2);
    assert_eq!(all_good[0].data(), &[1]);
    assert_eq!(all_good[1].data(), &[2, 3]);
    assert!(FormatConverter::aggregate(Vec::new()).unwrap().is_empty());
}

#[test]
fn png_to_jpeg_scenario() {
    let png = png_bytes(2, 2, &four_pixels());
    let converted = convert_format(&png, ImageFormat::Png, ImageFormat::Jpeg, None).unwrap();
    assert_eq!(converted.format(), ImageFormat::Jpeg);
    assert_eq!(converted.dimensions(), ImageDimensions { width: 2, height: 2 });
    assert!(converted.converted_size() > 0);
    assert_eq!(detect_format(converted.data()).unwrap(), ImageFormat::Jpeg);
    assert_ne!(converted.data(), &png[..]);
}

#[test]
fn jpeg_size_grows_with_quality() {
    let png = png_bytes(64, 64, &textured(64, 64));
    let mut sizes = Vec::new();
    for quality in [300, 600, 900] {
        let options = ConversionOptionsBuilder::new().quality(quality).build();
        let converted = convert_format(&png, ImageFormat::Png, ImageFormat::Jpeg, Some(options)).unwrap();
        sizes.push(converted.converted_size());
    }
    assert!(sizes[0] <= sizes[1]);
    assert!(sizes[1] <= sizes[2]);
    assert!(sizes[0] < sizes[2]);
}

#[test]
fn builder_clamps_what_it_is_given() {
    assert_eq!(ConversionOptionsBuilder::new().quality(1500).build().quality(), Some(1000));
    assert_eq!(ConversionOptionsBuilder::new().quality(-1).build().quality(), Some(0));
    assert_eq!(ConversionOptionsBuilder::new().quality(1000).build().quality(), Some(1000));
    assert_eq!(ConversionOptionsBuilder::new().quality(0).build().quality(), Some(0));
    assert_eq!(ConversionOptionsBuilder::new().compression_level(12).build().compression_level(), Some(9));
    assert_eq!(ConversionOptionsBuilder::new().compression_level(0).build().compression_level(), Some(0));
    let defaults = ConversionOptions::default();
    assert_eq!(defaults.quality(), Some(800));
    assert_eq!(defaults.compression_level(), Some(6));
    assert_eq!(defaults.is_progressive(), Some(false));
    assert!(defaults.preserves_dimensions());
    assert!(defaults.preserves_color_space());
    assert!(!defaults.preserves_metadata());
    let flags = ConversionOptionsBuilder::default()
        .preserve_dimensions(false)
        .preserve_color_space(false)
        .preserve_metadata(true)
        .build();
    assert!(!flags.preserves_dimensions());
    assert!(!flags.preserves_color_space());
    assert!(flags.preserves_metadata());
}

#[test]
fn builder_can_start_from_options() {
    let bare = ConversionOptions::from_parts(None, Some(3), None, false, true, true);
    let built = ConversionOptionsBuilder::from_options(bare).quality(2000).build();
    assert_eq!(built.quality(), Some(1000));
    assert_eq!(built.compression_level(), Some(3));
    assert_eq!(built.is_progressive(), None);
    assert!(!built.preserves_dimensions());
    assert!(built.preserves_metadata());
}

#[test]
fn custom_parameters_are_kept_by_name() {
    let options = ConversionOptionsBuilder::new()
        .custom_param("a".to_string(), "1".to_string())
        .custom_param("b".to_string(), "2".to_string())
        .custom_param("a".to_string(), "3".to_string())
        .build();
    assert_eq!(options.custom_param("a"), Some("3"));
    assert_eq!(options.custom_param("b"), Some("2"));
    assert_eq!(options.custom_param("c"), None);
    assert_eq!(options.custom_param_keys(), vec!["a", "b"]);
}

#[test]
fn strategies_give_their_options() {
    let cases = [
        (QualityStrategy::PreserveOriginal, 950, 6),
        (QualityStrategy::OptimizeSize, 750, 9),
        (QualityStrategy::Balanced, 850, 6),
        (QualityStrategy::MaxQuality, 1000, 0),
    ];
    for (strategy, quality, level) in cases {
        let options = strategy.default_options();
        assert_eq!(options.quality(), Some(quality));
        assert_eq!(options.compression_level(), Some(level));
        assert_eq!(strategy.quality(), quality);
        assert_eq!(strategy.compression_level(), level);
    }
    assert_eq!(CodecEngine::jpeg_quality(&QualityStrategy::Balanced.default_options()), 85);
    let exact = |q: i32| CodecEngine::jpeg_quality(&ConversionOptionsBuilder::new().quality(q).build());
    assert_eq!(exact(800), 80);
    assert_eq!(exact(844), 84);
    assert_eq!(exact(845), 85);
    assert_eq!(exact(0), 1);
    assert_eq!(exact(4), 1);
    assert_eq!(exact(1000), 100);
    assert_eq!(CodecEngine::jpeg_quality(&ConversionOptions::from_parts(None, None, None, true, true, false)), 75);
}

#[test]
fn options_out_of_range_are_refused_at_encoding() {
    let buffer = ImageBuffer::<Rgba<u8>>::new(2, 2, PixelFormat::Rgba8);
    let engine = CodecEngine::new();
    let too_good = ConversionOptions::from_parts(Some(1500), Some(6), None, true, true, false);
    let error = engine.encode(&buffer, ImageFormat::Jpeg, &too_good).unwrap_err();
    assert!(matches!(error, ImageError::InvalidParameters { .. }));
    assert!(engine.encode(&buffer, ImageFormat::Png, &too_good).is_ok());
    let too_deep = ConversionOptions::from_parts(Some(500), Some(10), None, true, true, false);
    let error = engine.encode(&buffer, ImageFormat::Png, &too_deep).unwrap_err();
    assert!(error.is_invalid_parameters("compression level"));
    assert!(engine.encode(&buffer, ImageFormat::Jpeg, &too_deep).is_ok());
    assert!(too_good.validate_for(ImageFormat::WebP).is_err());
    assert!(too_deep.validate_for(ImageFormat::Bmp).is_err());
    assert!(ConversionOptions::default().validate_for(ImageFormat::Jpeg).is_ok());
}

#[test]
fn dimensions_outside_the_limits_are_refused() {
    let engine = CodecEngine::new();
    let options = ConversionOptions::default();
    let empty = ImageBuffer::<Rgba<u8>>::new(0, 0, PixelFormat::Rgba8);
    let error = engine.encode(&empty, ImageFormat::Png, &options).unwrap_err();
    assert!(matches!(error, ImageError::InvalidDimensions { width: 0, height: 0, .. }));
    let wide = ImageBuffer::<Rgba<u8>>::new(257, 1, PixelFormat::Rgba8);
    let error = engine.encode(&wide, ImageFormat::Ico, &options).unwrap_err();
    assert!(matches!(error, ImageError::InvalidDimensions { width: 257, height: 1, .. }));
    assert_eq!(error.category(), ErrorCategory::Parameter);
    let fits = ImageBuffer::<Rgba<u8>>::new(256, 1, PixelFormat::Rgba8);
    let icon = engine.encode(&fits, ImageFormat::Ico, &options).unwrap();
    assert_eq!(detect_format(&icon).unwrap(), ImageFormat::Ico);
    assert_eq!(CodecEngine::dimension_limit(ImageFormat::Ico), 256);
    assert_eq!(CodecEngine::dimension_limit(ImageFormat::WebP), 16383);
    assert_eq!(CodecEngine::dimension_limit(ImageFormat::Png), 65535);
}

#[test]
fn what_the_codec_refuses_is_a_codec_error() {
    let buffer = ImageBuffer::<Rgba<u8>>::new(2, 2, PixelFormat::Rgba8);
    let error = CodecEngine::new()
        .encode(&buffer, ImageFormat::Avif, &ConversionOptions::default())
        .unwrap_err();
    assert!(matches!(error, ImageError::EncodeError { .. }));
    assert_eq!(error.severity(), ErrorSeverity::Medium);
    let error = ImageCodec::decode::<Rgba<u8>>(b"\x00\x00\x00\x20ftypavif\x00\x00", ImageFormat::Avif).unwrap_err();
    assert!(matches!(error, ImageError::DecodeError { .. }));
}

#[test]
fn every_format_that_encodes_is_detected_again() {
    let buffer = ImageCodec::decode::<Rgba<u8>>(&png_bytes(3, 2, &textured(3, 2)), ImageFormat::Png).unwrap();
    for format in [
        ImageFormat::Jpeg,
        ImageFormat::Png,
        ImageFormat::WebP,
        ImageFormat::Bmp,
        ImageFormat::Tiff,
        ImageFormat::Gif,
        ImageFormat::Ico,
    ] {
        let bytes = ImageCodec::encode(&buffer, format, Some(90)).unwrap();
        assert_eq!(detect_format(&bytes).unwrap(), format);
        let again = ImageCodec::decode::<Rgba<u8>>(&bytes, format).unwrap();
        assert_eq!(again.dimensions(), ImageDimensions { width: 3, height: 2 });
    }
}

#[test]
fn decoding_reduces_to_the_pixel_type() {
    let png = png_bytes(2, 2, &four_pixels());
    let rgba = ImageCodec::decode::<Rgba<u8>>(&png, ImageFormat::Png).unwrap();
    assert_eq!(rgba.pixel_format(), PixelFormat::Rgba8);
    assert_eq!(rgba.as_slice()[0], Rgba { r: 255, g: 0, b: 0, a: 255 });
    assert_eq!(rgba.get_pixel(1, 1), Some(&Rgba { r: 255, g: 255, b: 255, a: 255 }));
    let rgb = ImageCodec::decode::<Rgb<u8>>(&png, ImageFormat::Png).unwrap();
    assert_eq!(rgb.pixel_format(), PixelFormat::Rgb8);
    assert_eq!(rgb.as_slice()[1], Rgb { r: 0, g: 255, b: 0 });
    let grey = ImageCodec::decode::<Luma<u8>>(&png, ImageFormat::Png).unwrap();
    assert_eq!(grey.pixel_format(), PixelFormat::Gray8);
    assert_eq!(grey.as_slice(), &[Luma { l: 76 }, Luma { l: 150 }, Luma { l: 29 }, Luma { l: 255 }]);
    assert_eq!(CodecEngine::flatten(&grey), vec![76, 76, 76, 255, 150, 150, 150, 255, 29, 29, 29, 255, 255, 255, 255, 255]);
    assert_eq!(CodecEngine::flatten(&rgb)[..8], [255, 0, 0, 255, 0, 255, 0, 255]);
}

#[test]
fn luminance_formulas() {
    assert_eq!(luma_u8(255, 0, 0), 76);
    assert_eq!(luma_u8(0, 255, 0), 150);
    assert_eq!(luma_u8(0, 0, 255), 29);
    assert_eq!(luma_u8(255, 255, 255), 255);
    assert_eq!(luma_u8(10, 20, 30), 18);
    assert_eq!(luminance_u8(255, 0, 0), 54);
    assert_eq!(luminance_u8(0, 255, 0), 182);
    assert_eq!(luminance_u8(0, 0, 255), 18);
    assert_eq!(luminance_u8(255, 255, 255), 255);
    assert_eq!(Rgb { r: 255u8, g: 128, b: 64 }.luminance(), 150);
    assert_eq!(Rgba { r: 255u8, g: 128, b: 64, a: 0 }.luminance(), 150);
    assert_eq!(Luma { l: 99u8 }.luminance(), 99);
    assert_eq!(<Rgb<u8> as Pixel>::channel_count(), 3);
    assert_eq!(<Rgba<u8> as Pixel>::channel_count(), 4);
    assert_eq!(<Luma<u8> as Pixel>::channel_count(), 1);
    assert!(<Rgba<u8> as Pixel>::has_alpha());
    assert!(!<Rgb<u8> as Pixel>::has_alpha());
    assert_eq!(<Luma<u8> as Pixel>::bits_per_channel(), 8);
}

#[test]
fn buffer_keeps_its_grid() {
    let mut buffer = ImageBuffer::<Rgb<u8>>::new(3, 2, PixelFormat::Rgb8);
    assert_eq!(buffer.dimensions(), ImageDimensions { width: 3, height: 2 });
    assert_eq!(buffer.as_slice().len(), 6);
    assert_eq!(buffer.get_pixel(2, 1), Some(&Rgb { r: 0, g: 0, b: 0 }));
    assert_eq!(buffer.get_pixel(3, 0), None);
    assert_eq!(buffer.get_pixel(0, 2), None);
    let red = Rgb { r: 200, g: 10, b: 20 };
    assert!(buffer.put_pixel(2, 1, red).is_ok());
    assert_eq!(buffer.as_slice()[5], red);
    assert_eq!(buffer.get_pixel(2, 1), Some(&red));
    let error = buffer.put_pixel(3, 1, red).unwrap_err();
    assert!(error.is_invalid_parameters("pixel out of bounds"));
    buffer.as_mut_slice()[0] = red;
    assert_eq!(buffer.get_pixel(0, 0), Some(&red));

    let error = ImageBuffer::from_raw(2, 2, vec![red; 3], PixelFormat::Rgb8).err().unwrap();
    assert!(error.is_invalid_parameters("data length does not match dimensions"));
    let made = ImageBuffer::from_raw(1, 3, vec![red; 3], PixelFormat::Rgb8).unwrap();
    assert_eq!(made.pixel_format(), PixelFormat::Rgb8);

    let rgba = buffer.convert_pixel_format::<Rgba<u8>>(PixelFormat::Rgba8).unwrap();
    assert_eq!(rgba.as_slice()[5], Rgba { r: 200, g: 10, b: 20, a: 255 });
    assert_eq!(rgba.pixel_format(), PixelFormat::Rgba8);
    let grey = rgba.convert_pixel_format::<Luma<u8>>(PixelFormat::Gray8).unwrap();
    assert_eq!(grey.as_slice()[5], Luma { l: 68 });
    let back = grey.convert_pixel_format::<Rgb<u8>>(PixelFormat::Rgb8).unwrap();
    assert_eq!(back.as_slice()[5], Rgb { r: 68, g: 0, b: 0 });
    assert_eq!(buffer.as_slice()[5], red);
}

#[test]
fn registry_entries() {
    let jpeg = ImageFormat::Jpeg.info();
    assert_eq!(jpeg.mime_type, "image/jpeg");
    assert_eq!(jpeg.extensions, vec!["jpg", "jpeg"]);
    assert_eq!(jpeg.limits.max_width, Some(65535));
    assert_eq!(jpeg.limits.supported_bit_depths, vec![8]);
    assert!(jpeg.capabilities.supports_lossy());
    assert!(jpeg.capabilities.supports_progressive());
    assert!(jpeg.capabilities.supports_metadata());
    assert!(!jpeg.capabilities.supports_transparency());
    assert!(!jpeg.capabilities.supports_animation());
    assert!(!jpeg.capabilities.supports_hdr());
    let avif = ImageFormat::Avif.info();
    assert!(avif.capabilities.supports_hdr());
    assert_eq!(avif.limits.supported_bit_depths, vec![8, 10, 12]);
    let bmp = ImageFormat::Bmp.info();
    assert_eq!(bmp.limits.max_file_size, Some(4294967296));
    assert!(!bmp.capabilities.supports_lossy() && !bmp.capabilities.supports_transparency());
    let ico = ImageFormat::Ico.info();
    assert_eq!(ico.limits.max_height, Some(256));
    assert_eq!(ico.limits.max_file_size, Some(1048576));
    assert_eq!(ImageFormat::Tiff.extension(), "tiff");
    assert_eq!(ImageFormat::Jpeg.extension(), "jpg");
    assert_eq!(ImageFormat::Ico.mime_type(), "image/x-icon");
    assert_eq!(ImageFormat::WebP.name(), "WebP");
    assert!(ImageFormat::WebP.supports_lossy());
    assert!(!ImageFormat::Png.supports_lossy());
    assert!(ImageFormat::Gif.supports_animation());
    assert!(!ImageFormat::Jpeg.supports_transparency());
    assert!(ImageFormat::Png.supports_transparency());
    let caps = FormatCapabilities::new().with_hdr().with_animation();
    assert!(caps.supports_hdr() && caps.supports_animation());
    assert!(!caps.supports_lossy() && !caps.supports_metadata());
    assert_eq!(CodecFactory::supported_formats(), ALL_FORMATS.to_vec());
    for format in ALL_FORMATS {
        assert!(CodecFactory::is_format_supported(format));
        assert!(FormatDetector::is_supported(format));
        assert_eq!(detect_format_from_mime_type(format.mime_type()), Some(format));
        assert_eq!(detect_format_from_extension(format.extension()), Some(format));
        assert_eq!(format_from_string(&format_to_string(format)).unwrap(), format);
    }
    let info = CodecEngine::get_codec_info(ImageFormat::Png);
    assert_eq!(info.name, "PNG");
    assert!(info.quality_features.supports_lossless && !info.quality_features.supports_lossy);
}

#[test]
fn names_are_only_hints() {
    assert_eq!(detect_format_from_extension("photo.JPG"), Some(ImageFormat::Jpeg));
    assert_eq!(detect_format_from_extension("archive.tar.Png"), Some(ImageFormat::Png));
    assert_eq!(detect_format_from_extension("scan.tif"), Some(ImageFormat::Tiff));
    assert_eq!(detect_format_from_extension("png"), Some(ImageFormat::Png));
    assert_eq!(detect_format_from_extension("notes.txt"), None);
    assert_eq!(detect_format_from_extension("trailing."), None);
    assert_eq!(detect_format_from_extension(""), None);
    assert_eq!(detect_format_from_extension("x.jpgg"), None);
    assert_eq!(detect_format_from_mime_type("image/vnd.microsoft.icon"), Some(ImageFormat::Ico));
    assert_eq!(detect_format_from_mime_type("IMAGE/PNG"), None);
    assert_eq!(detect_format_from_mime_type("text/plain"), None);
    assert_eq!(format_from_string("JPG").unwrap(), ImageFormat::Jpeg);
    assert_eq!(format_from_string("Tif").unwrap(), ImageFormat::Tiff);
    let error = format_from_string("heic").unwrap_err();
    assert!(matches!(error, ImageError::UnsupportedFormat { .. }));
    assert_eq!(generate_suggested_filename(Some("photo.old.png".to_string()), ImageFormat::Jpeg), "photo.jpg");
    assert_eq!(generate_suggested_filename(Some("plain".to_string()), ImageFormat::Tiff), "plain.tiff");
    assert_eq!(generate_suggested_filename(Some(".hidden".to_string()), ImageFormat::Gif), ".gif");
    assert_eq!(generate_suggested_filename(None, ImageFormat::WebP), "converted_image.webp");
}

#[test]
fn error_messages_and_context() {
    assert_eq!(ImageError::invalid_format("xyz").message(), "Invalid image format: xyz");
    assert_eq!(
        ImageError::InvalidDimensions { width: 0, height: 70000, reason: "too tall".to_string() }.message(),
        "Invalid image dimensions: 0×70000 (reason: too tall)"
    );
    assert_eq!(
        ImageError::MemoryError { requested: 4096, available: 1024 }.message(),
        "Memory allocation failed: requested 4096 bytes, available 1024 bytes"
    );
    assert_eq!(
        ImageError::UnsupportedFormat { format: "x".to_string(), supported: vec!["a".to_string(), "b".to_string()] }.message(),
        "Unsupported image format: x (supported formats: a, b)"
    );
    assert_eq!(
        ImageError::OperationTimeout { operation: "convert".to_string(), timeout_ms: 30 }.message(),
        "Operation timeout: convert exceeded 30ms"
    );
    let decode = ImageError::DecodeError { format: "PNG".to_string(), message: "bad".to_string() };
    assert_eq!(decode.with_context("reading").message(), "Image decode failed for format PNG: reading: bad");
    let failed: Result<u8, ImageError> = Err(ImageError::invalid_parameters("quality"));
    let with = failed.with_format_context("png", "jpeg").unwrap_err();
    assert_eq!(with.message(), "Invalid parameters: Converting from png to jpeg: quality");
    let failed: Result<u8, ImageError> = Err(ImageError::invalid_parameters("quality"));
    assert!(failed.with_operation_context("encode").unwrap_err().is_invalid_parameters("During operation: encode: quality"));
    let failed: Result<u8, ImageError> = Err(ImageError::invalid_parameters("quality"));
    assert!(failed.with_file_context("a.png").unwrap_err().is_invalid_parameters("Processing file: a.png: quality"));
    let failed: Result<u8, ImageError> = Err(ImageError::unsupported_operation("fly"));
    let same = failed.with_context(|| "unused".to_string()).unwrap_err();
    assert!(same.is_unsupported_operation("fly"));
    assert_eq!(same.message(), "Unsupported operation: fly");
    let fine: Result<u8, ImageError> = Ok(7);
    assert_eq!(fine.with_context(|| "unused".to_string()).unwrap(), 7);
    let failed: Result<u8, ImageError> = Err(ImageError::EncodeError { format: "GIF".to_string(), message: "m".to_string() });
    assert_eq!(failed.with_context(|| "ctx".to_string()).unwrap_err().message(), "Image encode failed for format GIF: ctx: m");
}

#[test]
fn error_classes() {
    let timeout = ImageError::OperationTimeout { operation: "x".to_string(), timeout_ms: 1 };
    assert!(timeout.is_retryable());
    assert_eq!(timeout.severity(), ErrorSeverity::High);
    assert_eq!(timeout.category(), ErrorCategory::Operation);
    let exhausted = ImageError::resource_exhausted("memory");
    assert!(exhausted.is_retryable());
    assert_eq!(exhausted.category(), ErrorCategory::Resource);
    let limit = ImageError::SystemLimitExceeded { limit_type: "files".to_string(), current: 2, limit: 1 };
    assert_eq!(limit.severity(), ErrorSeverity::Critical);
    assert!(!limit.is_retryable());
    let quality = ImageError::QualityAssessmentFailed { metric: "psnr".to_string(), reason: "r".to_string() };
    assert_eq!(quality.severity(), ErrorSeverity::Medium);
    assert_eq!(quality.category(), ErrorCategory::Performance);
    assert!(ErrorSeverity::Low < ErrorSeverity::Medium && ErrorSeverity::High < ErrorSeverity::Critical);
    assert_eq!(ImageError::IoError { operation: "read".to_string() }.category(), ErrorCategory::Io);
    assert_eq!(ImageError::WasmBindingError { details: "d".to_string() }.category(), ErrorCategory::Wasm);
    assert_eq!(
        ImageError::ExternalLibraryError { library: "l".to_string(), message: "m".to_string() }.category(),
        ErrorCategory::System
    );
    assert_eq!(
        ImageError::MemoryError { requested: 3 * 1024 * 1024, available: 1024 * 1024 }.suggested_solution(),
        Some("请减少图像尺寸或释放内存。当前需要 3MB，可用 1MB".to_string())
    );
    assert_eq!(
        ImageError::UnsupportedFormat { format: "x".to_string(), supported: vec!["png".to_string(), "gif".to_string()] }
            .suggested_solution(),
        Some("请使用支持的格式之一: png, gif".to_string())
    );
    assert!(ImageError::invalid_format("x").suggested_solution().is_some());
    assert!(ImageError::unsupported_operation("x").suggested_solution().is_none());
}

#[test]
fn error_collector_counts() {
    let mut collector = ErrorCollector::new(true);
    collector.record_error(&ImageError::invalid_format("a"));
    collector.record_error(&ImageError::invalid_parameters("b"));
    collector.record_error(&ImageError::invalid_format("c"));
    let stats = collector.get_statistics();
    assert_eq!(stats.total_errors, 3);
    assert_eq!(stats.count_by_category(ErrorCategory::Format), 2);
    assert_eq!(stats.count_by_category(ErrorCategory::Parameter), 1);
    assert_eq!(stats.count_by_category(ErrorCategory::Codec), 0);
    assert_eq!(stats.count_by_severity(ErrorSeverity::Medium), 2);
    assert_eq!(stats.count_by_severity(ErrorSeverity::Low), 1);
    assert_eq!(stats.recent_error_timestamps.len(), 3);
    for _ in 0..150 {
        collector.record_error(&ImageError::invalid_format("d"));
    }
    assert_eq!(collector.get_statistics().recent_error_timestamps.len(), 100);
    assert_eq!(collector.get_statistics().total_errors, 153);
    collector.reset();
    assert_eq!(collector.get_statistics().total_errors, 0);
    assert_eq!(collector.get_statistics().count_by_category(ErrorCategory::Format), 0);

    let mut off = ErrorCollector::new(false);
    off.record_error(&ImageError::invalid_format("a"));
    assert_eq!(off.get_statistics().total_errors, 0);
}

#[test]
fn monitor_keeps_the_newest_snapshots() {
    let config = MonitorConfig { max_history_entries: 2, ..MonitorConfig::default() };
    let mut monitor = PerformanceMonitor::new(config);
    monitor.record_measurement("a".to_string(), 10, 1);
    monitor.record_measurement("b".to_string(), 5, 2);
    monitor.record_measurement("c".to_string(), 7, 3);
    let history = monitor.get_history();
    assert_eq!(history.len(), 2);
    assert_eq!(history[0].operation, "b");
    assert_eq!(history[0].metrics.timing.total_time_us, 15);
    assert_eq!(history[1].operation, "c");
    assert_eq!(history[1].elapsed_us, 3);
    assert_eq!(monitor.get_current_metrics().timing.total_time_us, 22);
    let report = monitor.generate_report();
    assert_eq!(report.summary.total_processing_time_us, 22);
    assert_eq!(report.summary.average_processing_time_us, 11);
    assert_eq!(report.summary.fastest_processing_time_us, 15);
    assert_eq!(report.summary.slowest_processing_time_us, 22);

    monitor.record_result("encode", 4, true);
    monitor.record_result("decode", 6, false);
    monitor.record_result("encode", 8, false);
    let operations = monitor.get_operation_stats();
    assert_eq!(operations.len(), 2);
    assert_eq!(operations[0].operation_name, "encode");
    assert_eq!(operations[0].execution_count, 2);
    assert_eq!(operations[0].error_count, 1);
    assert_eq!(operations[0].total_time_us, 12);
    assert_eq!(operations[0].average_time_us(), 6);
    assert_eq!(operations[1].operation_name, "decode");
    assert_eq!(operations[1].error_count, 1);

    monitor.record_memory_usage(100);
    monitor.record_memory_usage(50);
    assert_eq!(monitor.get_current_metrics().memory.peak_memory_bytes, 100);
    monitor.record_pixels_processed(6);
    let metrics = monitor.get_current_metrics();
    assert_eq!(metrics.throughput.images_processed, 1);
    assert_eq!(metrics.throughput.bytes_processed, 24);
    assert_eq!(metrics.throughput.pixels_processed, 6);
    assert_eq!(metrics.images_per_microsecond(0), Ratio::zero());
    assert_eq!(metrics.images_per_microsecond(4), Ratio { numerator: 1, denominator: 4 });

    let handle = monitor.start_measurement("timed");
    assert_eq!(handle.operation(), "timed");
    let _ = handle.elapsed();
    assert!(monitor.end_measurement(handle).is_ok());
    assert_eq!(monitor.get_history().len(), 2);
    assert_eq!(monitor.get_history()[1].operation, "timed");

    monitor.reset();
    assert_eq!(monitor.get_history().len(), 0);
    assert_eq!(monitor.get_operation_stats().len(), 0);
    assert_eq!(monitor.get_current_metrics().timing.total_time_us, 0);
    assert_eq!(monitor.generate_report().summary.fastest_processing_time_us, 0);
}

#[test]
fn statistics_derive_their_rates() {
    let mut stats = ConversionStatistics::new();
    assert_eq!(stats.success_rate(), Ratio::zero());
    assert_eq!(stats.average_processing_time_us(), 0);
    assert_eq!(stats.compression_ratio(), Ratio::one());
    assert_eq!(stats.throughput(), Ratio::zero());
    stats.record(ImageFormat::Png, ImageFormat::Jpeg, 100, 1000, 250, true);
    stats.record(ImageFormat::Png, ImageFormat::Jpeg, 51, 77, 0, false);
    stats.record(ImageFormat::Gif, ImageFormat::Png, 9, 10, 20, true);
    assert_eq!(stats.total_conversions, 3);
    assert_eq!(stats.successful_conversions, 2);
    assert_eq!(stats.failed_conversions, 1);
    assert_eq!(stats.total_processing_time_us, 160);
    assert_eq!(stats.total_bytes_processed, 1010);
    assert_eq!(stats.total_bytes_produced, 270);
    assert_eq!(stats.pair_count(ImageFormat::Png, ImageFormat::Jpeg), 2);
    assert_eq!(stats.pair_count(ImageFormat::Gif, ImageFormat::Png), 1);
    assert_eq!(stats.pair_count(ImageFormat::Jpeg, ImageFormat::Png), 0);
    assert_eq!(stats.success_rate(), Ratio { numerator: 2, denominator: 3 });
    assert_eq!(stats.average_processing_time_us(), 53);
    assert_eq!(stats.compression_ratio(), Ratio { numerator: 270, denominator: 1010 });
    assert_eq!(stats.throughput(), Ratio { numerator: 1010, denominator: 160 });
}

#[test]
fn converter_records_every_call_once() {
    let png = png_bytes(2, 2, &four_pixels());
    let mut converter = FormatConverter::with_defaults().unwrap();
    assert!(converter.convert_format(&png, ImageFormat::Png, ImageFormat::Bmp, None).is_ok());
    assert!(converter.convert_format(&[], ImageFormat::Png, ImageFormat::Bmp, None).is_err());
    let stats = converter.get_conversion_statistics();
    assert_eq!(stats.total_conversions, 2);
    assert_eq!(stats.successful_conversions, 1);
    assert_eq!(stats.failed_conversions, 1);
    assert_eq!(stats.pair_count(ImageFormat::Png, ImageFormat::Bmp), 2);
    assert_eq!(stats.total_bytes_processed, png.len() as u64);
    assert_eq!(converter.detect_format(&png).unwrap(), ImageFormat::Png);
    assert_eq!(converter.get_format_info(ImageFormat::Gif).name, "GIF");
    assert_eq!(converter.get_supported_formats().len(), 8);
    assert!(converter.is_conversion_supported(ImageFormat::Ico, ImageFormat::Avif));
    assert!(converter.warmup().is_ok());
    assert!(converter.update_config(ConverterConfig::default()).is_ok());
    converter.reset_performance_metrics();
    assert_eq!(converter.get_conversion_statistics().total_conversions, 0);
    assert_eq!(converter.get_performance_metrics().timing.total_time_us, 0);
}

#[test]
fn decimal_and_joined_text() {
    assert_eq!(decimal_string(0), "0");
    assert_eq!(decimal_string(7), "7");
    assert_eq!(decimal_string(10), "10");
    assert_eq!(decimal_string(1234567890), "1234567890");
    assert_eq!(decimal_string(u64::MAX), "18446744073709551615");
    assert_eq!(join_strings(&vec![], ", "), "");
    assert_eq!(join_strings(&vec!["a".to_string()], ", "), "a");
    assert_eq!(join_strings(&vec!["a".to_string(), "b".to_string(), "c".to_string()], "-"), "a-b-c");
}

#[test]
fn png_effort_follows_the_compression_level() {
    let effort = |level: u8| CodecEngine::png_effort(&ConversionOptionsBuilder::new().compression_level(level).build());
    assert_eq!(effort(0), PngEffort::Fast);
    assert_eq!(effort(3), PngEffort::Fast);
    assert_eq!(effort(4), PngEffort::Default);
    assert_eq!(effort(6), PngEffort::Default);
    assert_eq!(effort(7), PngEffort::Best);
    assert_eq!(effort(9), PngEffort::Best);
    assert_eq!(
        CodecEngine::png_effort(&ConversionOptions::from_parts(None, None, None, true, true, false)),
        PngEffort::Fast
    );

    let mut flat = Vec::new();
    for i in 0..(96 * 96) {
        let v = ((i / 7) % 251) as u8;
        flat.extend_from_slice(&[v, v / 2, 255 - v, 255]);
    }
    let source = png_bytes(96, 96, &flat);
    let buffer = ImageCodec::decode::<Rgba<u8>>(&source, ImageFormat::Png).unwrap();
    let engine = CodecEngine::new();
    let fast = engine.encode(&buffer, ImageFormat::Png, &ConversionOptionsBuilder::new().compression_level(1).build()).unwrap();
    let best = engine.encode(&buffer, ImageFormat::Png, &ConversionOptionsBuilder::new().compression_level(9).build()).unwrap();
    assert!(best.len() <= fast.len());
    assert_eq!(rgba_of(&fast, ImageFormat::Png), flat);
    assert_eq!(rgba_of(&best, ImageFormat::Png), flat);
}

#[test]
fn sixteen_bit_pixels() {
    let rgb = Rgb16 { r: 65535, g: 32768, b: 0 };
    assert_eq!(rgb.to_channels(), vec![65535u16, 32768, 0]);
    assert_eq!(Rgb16::from_channels(&[1, 2, 3, 4]), Rgb16 { r: 1, g: 2, b: 3 });
    assert_eq!(rgb.luminance(), 37368);
    assert_eq!(luminance_u16(65535, 65535, 65535), 65535);
    let rgba = Rgba16 { r: 1, g: 2, b: 3, a: 4 };
    assert_eq!(Rgba16::from_channels(&rgba.to_channels()), rgba);
    assert_eq!(Luma16 { l: 700 }.luminance(), 700);
    assert_eq!(<Rgb16 as Pixel>::bits_per_channel(), 16);
    assert_eq!(<Rgba16 as Pixel>::channel_count(), 4);
    assert_eq!(<Luma16 as Pixel>::channel_count(), 1);
}

#[test]
fn error_chain_through_the_trait() {
    let inner = ImageError::invalid_parameters("p");
    let outer = ImageError::BatchProcessingFailed { successful_count: 0, failed_count: 1, first_error: Box::new(inner) };
    assert_eq!(
        ErrorChain::error_chain(&outer),
        vec!["Batch processing failed: 0 successful".to_string(), "Invalid parameters: p".to_string()]
    );
    assert!(ErrorChain::root_cause(&outer).is_invalid_parameters("p"));
    let plain = ImageError::invalid_format("f");
    assert_eq!(plain.error_chain(), vec!["Invalid image format: f".to_string()]);
    assert!(plain.root_cause().is_invalid_format("f"));
}

#[test]
fn each_format_has_its_codec() {
    let png = png_bytes(2, 2, &four_pixels());
    let codec = PngCodec::new();
    assert!(<PngCodec as Codec<Rgba<u8>>>::validate_format(&codec, &png));
    let buffer: ImageBuffer<Rgba<u8>> = codec.decode(&png).unwrap();
    assert_eq!(buffer.dimensions(), ImageDimensions { width: 2, height: 2 });
    let info = <PngCodec as Codec<Rgba<u8>>>::info(&codec);
    assert_eq!(info.format, ImageFormat::Png);
    let options = <PngCodec as Codec<Rgba<u8>>>::default_options(&codec);
    assert_eq!(options.quality(), Some(800));

    let mut jpeg = JpegCodec::new();
    assert!(!<JpegCodec as Codec<Rgba<u8>>>::validate_format(&jpeg, &png));
    let error = <JpegCodec as Codec<Rgba<u8>>>::decode(&jpeg, &png).unwrap_err();
    assert!(error.is_invalid_format("JPEG"));
    let bytes = jpeg.encode(&buffer, &options).unwrap();
    assert_eq!(detect_format(&bytes).unwrap(), ImageFormat::Jpeg);
    assert!(<JpegCodec as Codec<Rgba<u8>>>::preprocess(&mut jpeg, buffer.dimensions()).is_ok());
    assert!(<JpegCodec as Codec<Rgba<u8>>>::postprocess(&mut jpeg).is_ok());

    let bmp = BmpCodec::new().encode(&buffer, &options).unwrap();
    assert_eq!(detect_format(&bmp).unwrap(), ImageFormat::Bmp);
    assert_eq!(rgba_of(&bmp, ImageFormat::Bmp), four_pixels());
}

#[test]
fn microseconds_stop_at_the_largest_u64() {
    assert_eq!(saturating_micros(0), 0);
    assert_eq!(saturating_micros(1_500_000), 1_500_000);
    assert_eq!(saturating_micros(u64::MAX as u128), u64::MAX);
    assert_eq!(saturating_micros(u64::MAX as u128 + 1), u64::MAX);
    assert_eq!(saturating_micros(u128::MAX), u64::MAX);
}
