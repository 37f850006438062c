//! Image format conversion engine: format detection, a canonical pixel
//! buffer, codec dispatch, conversion options, batch coordination, quality
//! assessment and telemetry, with each function's behaviour stated as a
//! contract and proved.

pub mod buffer;
pub mod codecs;
pub mod converter;
pub mod detector;
pub mod error;
pub mod formats;
pub mod hints;
pub mod options;
pub mod performance;
pub mod pixel;
pub mod processor;
pub mod quality;
pub mod text;
pub mod types;

pub use buffer::{ImageBuffer, PixelFormat};
pub use codecs::{
    CodecEngine, CodecFactory, CodecInfo, PerformanceLevel, PngEffort, QualityFeatures,
};
pub use converter::{BatchPolicy, ConvertedImage, ConverterConfig, FormatConverter};
pub use detector::FormatDetector;
pub use formats::{
    AvifCodec, AvifEncoderSettings, BmpCodec, Codec, CompressionStrategy, GifCodec, IcoCodec,
    JpegCodec, PngCodec, PngFilter, TiffCodec, TiffCompression, TilingMode, WebPCodec, WebPMode,
    WebPPreprocessing,
};
pub use error::{
    ErrorCategory, ErrorChain, ErrorCollector, ErrorContext, ErrorSeverity, ErrorStatistics,
    ImageError,
};
pub use options::{ConversionOptions, ConversionOptionsBuilder, QualityStrategy};
pub use performance::{
    ConversionStatistics, MeasurementHandle, MemoryMetrics, MemoryStats, MonitorConfig,
    OperationStats, PerformanceMetrics, PerformanceMonitor, PerformanceReport,
    PerformanceSnapshot, PerformanceSummary, RecommendationType, SystemMetrics,
    ThroughputMetrics, TimingMetrics,
};
pub use pixel::{Luma, Luma8, Pixel, Rgb, Rgb8, Rgba, Rgba8};
pub use processor::{ImageCodec, ProcessorConfig};
pub use quality::{Psnr, QualityAssessor, QualityMetrics, Ratio};
pub use types::{
    ConversionTask, FormatCapabilities, FormatInfo, FormatLimits, ImageDimensions, ImageFormat,
    ImageInput,
};

use converter::{batch_outcome, conversion_outcome, effective_options};
use detector::detected_format;
use vstd::prelude::*;

verus! {

/// Converts `image_data`, declared to be in `from_format`, to `to_format`,
/// with a converter of the default configuration.
pub fn convert_format(
    image_data: &[u8],
    from_format: ImageFormat,
    to_format: ImageFormat,
    options: Option<ConversionOptions>,
) -> (r: Result<ConvertedImage, ImageError>)
    ensures
        conversion_outcome(
            image_data@,
            from_format,
            to_format,
            effective_options(options, QualityStrategy::Balanced),
            true,
            r,
        ),
{
    match FormatConverter::with_defaults() {
        Ok(converter) => {
            let mut converter = converter;
            converter.convert_format(image_data, from_format, to_format, options)
        },
        Err(e) => Err(e),
    }
}

/// Converts each input under its task, with a converter configured for
/// speed. Inputs and tasks that differ in number are refused.
pub fn batch_convert(images: Vec<ImageInput>, conversion_tasks: Vec<ConversionTask>) -> (r: Result<
    Vec<ConvertedImage>,
    ImageError,
>)
    ensures
        images@.len() != conversion_tasks@.len() ==> r matches Err(
            ImageError::InvalidParameters { .. },
        ),
        images@.len() == conversion_tasks@.len() ==> batch_outcome(
            ConverterConfig::spec_high_performance(),
            images@,
            conversion_tasks@,
            r,
        ),
{
    match FormatConverter::with_high_performance() {
        Ok(converter) => {
            let mut converter = converter;
            converter.batch_convert(images, conversion_tasks)
        },
        Err(e) => Err(e),
    }
}

/// The format of `image_data`, told from its signature.
pub fn detect_format(image_data: &[u8]) -> (r: Result<ImageFormat, ImageError>)
    ensures
        match r {
            Ok(format) => detected_format(image_data@) == Some(format),
            Err(e) => detected_format(image_data@) is None && (e matches ImageError::InvalidFormat {
                format,
            } && format@ == "unknown"@),
        },
{
    FormatDetector::detect_format(image_data)
}

/// The registry entry of `format`.
pub fn get_format_info(format: ImageFormat) -> (info: FormatInfo)
    ensures
        info.describes(format),
{
    format.info()
}

/// The counters of a monitor that has seen nothing.
pub fn get_performance_metrics() -> (metrics: PerformanceMetrics)
    ensures
        metrics == PerformanceMetrics::initial(),
{
    PerformanceMonitor::new(MonitorConfig::default()).get_current_metrics()
}

} // verus!
