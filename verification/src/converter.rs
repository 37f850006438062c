//! The conversion orchestrator: decode, encode, measure, and record, for
//! one image or for a batch.

use crate::codecs::{
    codec_output, decoded_rgba, encodable, lemma_flattened_raster, CodecEngine, CodecFactory,
};
use crate::detector::{detected_format, matches_format, FormatDetector};
use crate::error::ImageError;
use crate::options::{ConversionOptions, OptionsModel, QualityStrategy};
use crate::performance::{
    is_result_recorded, micros_of, ConversionStatistics, MonitorConfig, PerformanceMetrics,
    PerformanceMonitor,
};
use crate::pixel::Rgba;
use crate::quality::{psnr_of, similarity_of, QualityAssessor, QualityMetrics, Ratio};
use crate::types::{ConversionTask, FormatInfo, ImageDimensions, ImageFormat, ImageInput};
use std::time::Instant;
use vstd::prelude::*;

verus! {

/// What a batch does when an item fails.
#[derive(Debug, Clone, Copy, PartialEq, Eq, Structural)]
pub enum BatchPolicy {
    /// Every item is converted; the batch fails if any item failed.
    AllOrNothing,
    /// The batch stops at the first item that fails.
    FailFast,
}

/// How a converter works.
#[derive(Debug, Clone, Copy)]
pub struct ConverterConfig {
    pub enable_parallel: bool,
    pub thread_pool_size: Option<usize>,
    pub enable_simd: bool,
    pub memory_limit: Option<u64>,
    pub enable_performance_monitoring: bool,
    /// Whether each conversion measures its output against its source.
    pub enable_quality_assessment: bool,
    /// The options of a conversion that is given none.
    pub quality_strategy: QualityStrategy,
    /// What a batch does when an item fails.
    pub batch_policy: BatchPolicy,
}

impl ConverterConfig {
    /// The default configuration: the balanced strategy, quality
    /// assessment on, and batches that convert every item.
    pub open spec fn spec_default() -> ConverterConfig {
        ConverterConfig {
            enable_parallel: true,
            thread_pool_size: None,
            enable_simd: true,
            memory_limit: None,
            enable_performance_monitoring: true,
            enable_quality_assessment: true,
            quality_strategy: QualityStrategy::Balanced,
            batch_policy: BatchPolicy::AllOrNothing,
        }
    }

    /// The configuration for speed and small output.
    pub open spec fn spec_high_performance() -> ConverterConfig {
        ConverterConfig {
            enable_quality_assessment: false,
            quality_strategy: QualityStrategy::OptimizeSize,
            ..Self::spec_default()
        }
    }

    /// The configuration for fidelity.
    pub open spec fn spec_high_quality() -> ConverterConfig {
        ConverterConfig { quality_strategy: QualityStrategy::MaxQuality, ..Self::spec_default() }
    }
}

impl Default for ConverterConfig {
    fn default() -> (config: Self)
        ensures
            config == Self::spec_default(),
    {
        ConverterConfig {
            enable_parallel: true,
            thread_pool_size: None,
            enable_simd: true,
            memory_limit: None,
            enable_performance_monitoring: true,
            enable_quality_assessment: true,
            quality_strategy: QualityStrategy::Balanced,
            batch_policy: BatchPolicy::AllOrNothing,
        }
    }
}

/// The result of one conversion.
#[derive(Debug, Clone)]
pub struct ConvertedImage {
    data: Vec<u8>,
    dimensions: ImageDimensions,
    format: ImageFormat,
    conversion_time_us: u64,
    original_size: u64,
    quality_metrics: Option<QualityMetrics>,
}

/// The compression ratio of `converted` bytes made from `original` bytes:
/// their quotient, and one where there were no original bytes.
pub open spec fn compression_ratio_of(converted: u64, original: u64) -> Ratio {
    if original > 0 {
        Ratio { numerator: converted, denominator: original }
    } else {
        Ratio { numerator: 1, denominator: 1 }
    }
}

/// The compression ratio is the converted size over the original size,
/// except that it is one where the original size is zero.
pub proof fn lemma_compression_ratio(converted: u64, original: u64)
    ensures
        original > 0 ==> compression_ratio_of(converted, original).is(
            converted as int,
            original as int,
        ),
        original == 0 ==> compression_ratio_of(converted, original).is_one(),
        converted == original ==> compression_ratio_of(converted, original).is_one(),
{
}

/// `value` brought into the range of `i64`.
pub open spec fn clamp_i64(value: int) -> i64 {
    if value < i64::MIN {
        i64::MIN
    } else if value > i64::MAX {
        i64::MAX
    } else {
        value as i64
    }
}

impl ConvertedImage {
    /// The encoded bytes.
    pub closed spec fn spec_data(&self) -> Seq<u8> {
        self.data@
    }

    pub closed spec fn spec_dimensions(&self) -> ImageDimensions {
        self.dimensions
    }

    pub closed spec fn spec_format(&self) -> ImageFormat {
        self.format
    }

    /// The time the conversion took, in microseconds.
    pub closed spec fn spec_conversion_time_us(&self) -> u64 {
        self.conversion_time_us
    }

    /// The number of bytes the conversion was given.
    pub closed spec fn spec_original_size(&self) -> u64 {
        self.original_size
    }

    pub closed spec fn spec_quality_metrics(&self) -> Option<QualityMetrics> {
        self.quality_metrics
    }

    /// The number of encoded bytes.
    pub open spec fn spec_converted_size(&self) -> u64 {
        self.spec_data().len() as u64
    }

    /// The result of a conversion that made `data` out of `original_size`
    /// bytes in `conversion_time_us`. No quality metrics are attached.
    pub fn new(
        data: Vec<u8>,
        dimensions: ImageDimensions,
        format: ImageFormat,
        conversion_time_us: u64,
        original_size: u64,
    ) -> (image: Self)
        ensures
            image.spec_data() == data@,
            image.spec_dimensions() == dimensions,
            image.spec_format() == format,
            image.spec_conversion_time_us() == conversion_time_us,
            image.spec_original_size() == original_size,
            image.spec_quality_metrics() is None,
    {
        ConvertedImage {
            data,
            dimensions,
            format,
            conversion_time_us,
            original_size,
            quality_metrics: None,
        }
    }

    /// The same result with `metrics` attached.
    pub fn with_quality_metrics(self, metrics: QualityMetrics) -> (image: Self)
        ensures
            image.spec_data() == self.spec_data(),
            image.spec_dimensions() == self.spec_dimensions(),
            image.spec_format() == self.spec_format(),
            image.spec_conversion_time_us() == self.spec_conversion_time_us(),
            image.spec_original_size() == self.spec_original_size(),
            image.spec_quality_metrics() == Some(metrics),
    {
        ConvertedImage {
            data: self.data,
            dimensions: self.dimensions,
            format: self.format,
            conversion_time_us: self.conversion_time_us,
            original_size: self.original_size,
            quality_metrics: Some(metrics),
        }
    }

    pub fn data(&self) -> (data: &[u8])
        ensures
            data@ == self.spec_data(),
    {
        self.data.as_slice()
    }

    pub fn dimensions(&self) -> (d: ImageDimensions)
        ensures
            d == self.spec_dimensions(),
    {
        self.dimensions
    }

    pub fn format(&self) -> (f: ImageFormat)
        ensures
            f == self.spec_format(),
    {
        self.format
    }

    /// The time the conversion took, in whole milliseconds.
    pub fn conversion_time_ms(&self) -> (ms: u64)
        ensures
            ms == self.spec_conversion_time_us() / 1000,
    {
        self.conversion_time_us / 1000
    }

    /// The time the conversion took, in microseconds.
    pub fn conversion_time_us(&self) -> (us: u64)
        ensures
            us == self.spec_conversion_time_us(),
    {
        self.conversion_time_us
    }

    pub fn original_size(&self) -> (n: u64)
        ensures
            n == self.spec_original_size(),
    {
        self.original_size
    }

    pub fn converted_size(&self) -> (n: u64)
        ensures
            n == self.spec_converted_size(),
            n == self.spec_data().len(),
    {
        self.data.len() as u64
    }

    /// The converted size over the original size, and one where the
    /// original size is zero.
    pub fn compression_ratio(&self) -> (ratio: Ratio)
        ensures
            ratio == compression_ratio_of(self.spec_converted_size(), self.spec_original_size()),
    {
        if self.original_size > 0 {
            Ratio { numerator: self.data.len() as u64, denominator: self.original_size }
        } else {
            Ratio { numerator: 1, denominator: 1 }
        }
    }

    pub fn quality_metrics(&self) -> (m: Option<QualityMetrics>)
        ensures
            m == self.spec_quality_metrics(),
    {
        self.quality_metrics
    }

    /// How many bytes the conversion saved: negative where the output is
    /// larger than the input. A difference outside `i64` is brought to its
    /// nearest bound.
    pub fn bytes_saved(&self) -> (saved: i64)
        ensures
            saved == clamp_i64(self.spec_original_size() - self.spec_converted_size()),
    {
        let converted: u64 = self.data.len() as u64;
        if self.original_size >= converted {
            let d: u64 = self.original_size - converted;
            if d > i64::MAX as u64 {
                i64::MAX
            } else {
                d as i64
            }
        } else {
            let d: u64 = converted - self.original_size;
            if d > i64::MAX as u64 {
                i64::MIN
            } else {
                -(d as i64)
            }
        }
    }

    /// The share of the original size that was saved, in hundredths of
    /// a percent, rounded down: 0 where the original size is zero or the
    /// output is not smaller.
    pub fn compression_percentage(&self) -> (basis_points: u64)
        ensures
            basis_points == if self.spec_original_size() > 0 && self.spec_converted_size()
                < self.spec_original_size() {
                (self.spec_original_size() - self.spec_converted_size()) * 10000 / (
                self.spec_original_size() as int)
            } else {
                0
            },
            basis_points <= 10000,
    {
        let converted: u64 = self.data.len() as u64;
        if self.original_size > 0 && converted < self.original_size {
            let saved: u128 = (self.original_size - converted) as u128;
            let original: u128 = self.original_size as u128;
            assert(saved * 10000 / (original as int) <= 10000) by (nonlinear_arith)
                requires
                    0 <= saved <= original,
                    original > 0,
            ;
            (saved * 10000 / original) as u64
        } else {
            0
        }
    }
}

/// The options that a conversion works with: those it is given, or those
/// of the strategy.
pub open spec fn effective_options(
    options: Option<ConversionOptions>,
    strategy: QualityStrategy,
) -> OptionsModel {
    match options {
        Some(o) => o@,
        None => strategy.spec_options(),
    }
}

/// What assessing the encoded `bytes` against the source `samples` gives:
/// nothing where assessment is off or the bytes cannot be read back, and
/// else the measures of the decoded bytes against the samples.
pub open spec fn quality_outcome(
    assess: bool,
    samples: Seq<u8>,
    bytes: Seq<u8>,
    format: ImageFormat,
    q: Option<QualityMetrics>,
) -> bool {
    if !assess || !matches_format(bytes, format) {
        q is None
    } else {
        match decoded_rgba(bytes, format) {
            Ok((width, height, decoded)) => if decoded.len() == 4 * (width * height) {
                q matches Some(m) && m.spec_psnr() == psnr_of(samples, decoded) && m.spec_ssim()
                    == similarity_of(samples, decoded) && m.spec_perceptual_similarity()
                    == similarity_of(samples, decoded)
            } else {
                q is None
            },
            Err(_) => q is None,
        }
    }
}

/// What becomes of a conversion.
pub enum ConversionModel {
    /// There is no input.
    EmptyInput,
    /// The input does not carry the signature of the declared format.
    SignatureMismatch,
    /// The decoder refused the input, with this message.
    DecoderRefused(Seq<char>),
    /// The decoder gave samples that do not fill its dimensions.
    BadRaster,
    /// The target format does not admit the options.
    InvalidOptions,
    /// The target format cannot hold an image of these dimensions.
    InvalidDimensions,
    /// The encoder refused the image, with this message.
    EncoderRefused(Seq<char>),
    /// The input decoded to `samples`, which encoded to `bytes`.
    Converted { bytes: Seq<u8>, width: u32, height: u32, samples: Seq<u8> },
}

/// What becomes of converting `data` from `from` to `to` under `options`:
/// the checks in the order in which they are made, and the codec's results
/// between them.
pub open spec fn conversion_model(
    data: Seq<u8>,
    from: ImageFormat,
    to: ImageFormat,
    options: OptionsModel,
) -> ConversionModel {
    if data.len() == 0 {
        ConversionModel::EmptyInput
    } else if !matches_format(data, from) {
        ConversionModel::SignatureMismatch
    } else {
        match decoded_rgba(data, from) {
            Err(message) => ConversionModel::DecoderRefused(message),
            Ok((width, height, samples)) => if samples.len() != 4 * (width * height) {
                ConversionModel::BadRaster
            } else if !options.valid_for(to) {
                ConversionModel::InvalidOptions
            } else if !encodable(width as nat, height as nat, to) {
                ConversionModel::InvalidDimensions
            } else {
                match codec_output(samples, width, height, to, options) {
                    Err(message) => ConversionModel::EncoderRefused(message),
                    Ok(bytes) => ConversionModel::Converted { bytes, width, height, samples },
                }
            },
        }
    }
}

/// The error that each failure of a conversion from `from` is reported as.
pub open spec fn reports(e: ImageError, model: ConversionModel, from: ImageFormat) -> bool {
    match model {
        ConversionModel::EmptyInput => e is InvalidParameters,
        ConversionModel::SignatureMismatch => e matches ImageError::InvalidFormat { format }
            && format@ == from.spec_name(),
        ConversionModel::DecoderRefused(message) => e matches ImageError::DecodeError {
            message: m,
            ..
        } && m@ == message,
        ConversionModel::BadRaster => e is DecodeError,
        ConversionModel::InvalidOptions => e is InvalidParameters,
        ConversionModel::InvalidDimensions => e is InvalidDimensions,
        ConversionModel::EncoderRefused(message) => e matches ImageError::EncodeError {
            message: m,
            ..
        } && m@ == message,
        ConversionModel::Converted { .. } => false,
    }
}

/// What converting `data` from `from` to `to` under `options` gives: the
/// error of the first check that fails, or else the encoded bytes of the
/// decoded samples with their dimensions, the target format, the size of
/// the input and, where asked, the quality of the output.
pub open spec fn conversion_outcome(
    data: Seq<u8>,
    from: ImageFormat,
    to: ImageFormat,
    options: OptionsModel,
    assess: bool,
    r: Result<ConvertedImage, ImageError>,
) -> bool {
    match r {
        Err(e) => reports(e, conversion_model(data, from, to, options), from),
        Ok(image) => conversion_model(data, from, to, options) matches ConversionModel::Converted {
            bytes,
            width,
            height,
            samples,
        } && image.spec_data() == bytes && image.spec_dimensions() == (ImageDimensions {
            width,
            height,
        }) && image.spec_format() == to && image.spec_original_size() == data.len()
            && quality_outcome(assess, samples, bytes, to, image.spec_quality_metrics()),
    }
}

/// The same, of a conversion that is not yet timed.
pub open spec fn transcode_outcome(
    data: Seq<u8>,
    from: ImageFormat,
    to: ImageFormat,
    options: OptionsModel,
    assess: bool,
    r: Result<(Vec<u8>, ImageDimensions, Option<QualityMetrics>), ImageError>,
) -> bool {
    match r {
        Err(e) => reports(e, conversion_model(data, from, to, options), from),
        Ok((out, dimensions, quality)) => conversion_model(
            data,
            from,
            to,
            options,
        ) matches ConversionModel::Converted { bytes, width, height, samples } && out@ == bytes
            && dimensions == (ImageDimensions { width, height }) && quality_outcome(
            assess,
            samples,
            bytes,
            to,
            quality,
        ),
    }
}

/// `after` is `before` with one conversion recorded: one more conversion
/// in the statistics, unless they are full; the time added to the total
/// of the telemetry, with a snapshot in its history; and one more run of
/// the operation `convert`.
pub open spec fn is_recorded_as(
    before: &FormatConverter,
    after: &FormatConverter,
    from: ImageFormat,
    to: ImageFormat,
    duration_us: u64,
    elapsed_us: u64,
    operation: String,
    input_bytes: u64,
    output_bytes: u64,
    success: bool,
) -> bool {
    &&& operation@ == "convert"@
    &&& before.statistics().total_conversions < u64::MAX ==> after.statistics().is_next(
        &before.statistics(),
        from,
        to,
        duration_us,
        input_bytes,
        output_bytes,
        success,
    )
    &&& before.statistics().total_conversions == u64::MAX ==> after.statistics()
        == before.statistics()
    &&& after.monitor().capacity() == before.monitor().capacity()
    &&& after.monitor().is_measured(&before.monitor(), operation, duration_us, elapsed_us)
    &&& is_result_recorded(
        after.monitor().operations(),
        before.monitor().operations(),
        operation@,
        duration_us,
        success,
    )
}

/// `after` is `before` after `attempts` more conversions, `successes` of
/// which succeeded: the number of conversions has grown by the attempts,
/// stopping at the largest `u64`, and, where it did not stop, the
/// successes and the failures have grown by theirs.
pub open spec fn tallied(
    before: ConversionStatistics,
    after: ConversionStatistics,
    attempts: nat,
    successes: nat,
) -> bool {
    &&& after.total_conversions == counted(before.total_conversions, attempts)
    &&& before.total_conversions + attempts <= u64::MAX ==> after.successful_conversions
        == before.successful_conversions + successes && after.failed_conversions
        == before.failed_conversions + attempts - successes
}

/// A count of `before` after `n` more conversions: the count stops at the
/// largest `u64`.
pub open spec fn counted(before: u64, n: nat) -> u64 {
    if before + n > u64::MAX {
        u64::MAX
    } else {
        (before + n) as u64
    }
}

/// `after` is `before` with the conversion that gave `r` recorded once,
/// whatever time it took.
pub open spec fn is_recorded(
    before: &FormatConverter,
    after: &FormatConverter,
    from: ImageFormat,
    to: ImageFormat,
    input_bytes: nat,
    r: Result<ConvertedImage, ImageError>,
) -> bool {
    exists|duration_us: u64, elapsed_us: u64, operation: String| #[trigger]
        is_recorded_as(
            before,
            after,
            from,
            to,
            duration_us,
            elapsed_us,
            operation,
            input_bytes as u64,
            output_size(r),
            r is Ok,
        )
}

/// The number of bytes that a conversion gave: none where it failed.
pub open spec fn output_size(r: Result<ConvertedImage, ImageError>) -> u64 {
    match r {
        Ok(image) => image.spec_converted_size(),
        Err(_) => 0u64,
    }
}

/// What becomes of the conversion of `image` under `task`, by a converter
/// configured as `config`.
pub open spec fn item_model(
    config: ConverterConfig,
    image: ImageInput,
    task: ConversionTask,
) -> ConversionModel {
    conversion_model(
        image.spec_data(),
        task.from_format,
        task.to_format,
        effective_options(task.options, config.quality_strategy),
    )
}

/// What converting `image` under `task` gives.
pub open spec fn item_outcome(
    config: ConverterConfig,
    image: ImageInput,
    task: ConversionTask,
    r: Result<ConvertedImage, ImageError>,
) -> bool {
    conversion_outcome(
        image.spec_data(),
        task.from_format,
        task.to_format,
        effective_options(task.options, config.quality_strategy),
        config.enable_quality_assessment,
        r,
    )
}

/// How many of the flags from position `k` on are set.
pub open spec fn count_from(flags: Seq<bool>, k: int) -> nat
    decreases flags.len() - k,
{
    if k < 0 || k >= flags.len() {
        0
    } else {
        count_from(flags, k + 1) + if flags[k] {
            1nat
        } else {
            0nat
        }
    }
}

/// The position of the first flag from position `k` on that is set, or the
/// number of flags where none is.
pub open spec fn first_from(flags: Seq<bool>, k: int) -> int
    decreases flags.len() - k,
{
    if k < 0 || k >= flags.len() {
        flags.len() as int
    } else if flags[k] {
        k
    } else {
        first_from(flags, k + 1)
    }
}

/// The first set flag lies at or after `k`, is set, and has no set flag
/// between `k` and itself; there is one exactly where some flag is
/// counted, and at most as many flags are counted as there are.
pub proof fn lemma_first_from(flags: Seq<bool>, k: int)
    requires
        0 <= k <= flags.len(),
    ensures
        k <= first_from(flags, k) <= flags.len(),
        first_from(flags, k) < flags.len() ==> flags[first_from(flags, k)],
        forall|j: int| k <= j < first_from(flags, k) ==> !flags[j],
        count_from(flags, k) == 0 <==> first_from(flags, k) == flags.len(),
        count_from(flags, k) <= flags.len() - k,
    decreases flags.len() - k,
{
    if k < flags.len() {
        lemma_first_from(flags, k + 1);
    }
}

/// Where no flag before `i` is set and the flag at `i` is, `i` is the
/// first set flag; where no flag at all is set, none is counted.
pub proof fn lemma_first_is(flags: Seq<bool>, k: int, i: int)
    requires
        0 <= k <= i <= flags.len(),
        forall|j: int| k <= j < i ==> !flags[j],
        i < flags.len() ==> flags[i],
    ensures
        first_from(flags, k) == i,
        i == flags.len() ==> count_from(flags, k) == 0,
    decreases i - k,
{
    if k < i {
        lemma_first_is(flags, k + 1, i);
    }
}

/// One more flag adds to the count exactly where it is set.
pub proof fn lemma_count_push(flags: Seq<bool>, flag: bool, k: int)
    requires
        0 <= k <= flags.len(),
    ensures
        count_from(flags.push(flag), k) == count_from(flags, k) + if flag {
            1nat
        } else {
            0nat
        },
    decreases flags.len() - k,
{
    if k < flags.len() {
        lemma_count_push(flags, flag, k + 1);
        assert(flags.push(flag)[k] == flags[k]);
    } else {
        assert(flags.push(flag)[k] == flag);
        assert(count_from(flags.push(flag), k + 1) == 0);
    }
}

/// For each outcome, whether it is a failure.
pub open spec fn failure_flags(outcomes: Seq<Result<ConvertedImage, ImageError>>) -> Seq<bool> {
    Seq::new(outcomes.len(), |i: int| outcomes[i] is Err)
}

/// For each input of a batch, whether its conversion fails.
pub open spec fn item_failures(
    config: ConverterConfig,
    images: Seq<ImageInput>,
    tasks: Seq<ConversionTask>,
) -> Seq<bool> {
    Seq::new(images.len(), |i: int| !(item_model(config, images[i], tasks[i]) is Converted))
}

/// What the outcomes of a batch aggregate to: all the images, in order,
/// where every outcome is one; and else a failure that counts the images
/// and the failures and carries the first failure.
pub open spec fn aggregated(
    outcomes: Seq<Result<ConvertedImage, ImageError>>,
    r: Result<Vec<ConvertedImage>, ImageError>,
) -> bool {
    let flags = failure_flags(outcomes);
    if count_from(flags, 0) == 0 {
        r matches Ok(images) && images@.len() == outcomes.len() && forall|i: int|
            0 <= i < outcomes.len() ==> outcomes[i] == Ok::<ConvertedImage, ImageError>(
                #[trigger] images@[i],
            )
    } else {
        r matches Err(
            ImageError::BatchProcessingFailed { successful_count, failed_count, first_error },
        ) && failed_count == count_from(flags, 0) && successful_count + failed_count
            == outcomes.len() && first_from(flags, 0) < outcomes.len() && outcomes[first_from(
            flags,
            0,
        )] == Err::<ConvertedImage, ImageError>(*first_error)
    }
}

/// What a batch gives under `policy`: all the images, in the order of the
/// inputs, where no conversion fails; and else a failure that carries the
/// error of the first conversion that fails, with the numbers of
/// conversions that succeeded and failed: among all of them where every
/// item is converted, and up to the first failure where the batch stops
/// there.
pub open spec fn batch_outcome(
    config: ConverterConfig,
    images: Seq<ImageInput>,
    tasks: Seq<ConversionTask>,
    r: Result<Vec<ConvertedImage>, ImageError>,
) -> bool {
    let flags = item_failures(config, images, tasks);
    let first = first_from(flags, 0);
    if count_from(flags, 0) == 0 {
        r matches Ok(converted) && converted@.len() == images.len() && forall|i: int|
            0 <= i < images.len() ==> #[trigger] item_outcome(
                config,
                images[i],
                tasks[i],
                Ok(converted@[i]),
            )
    } else {
        r matches Err(
            ImageError::BatchProcessingFailed { successful_count, failed_count, first_error },
        ) && first < images.len() && reports(
            *first_error,
            item_model(config, images[first], tasks[first]),
            tasks[first].from_format,
        ) && match config.batch_policy {
            BatchPolicy::AllOrNothing => failed_count == count_from(flags, 0) && successful_count
                + failed_count == images.len(),
            BatchPolicy::FailFast => successful_count == first && failed_count == 1,
        }
    }
}

/// How many conversions a batch attempts: all of them, or, where it stops
/// at the first failure, those up to it.
pub open spec fn attempted(
    config: ConverterConfig,
    images: Seq<ImageInput>,
    tasks: Seq<ConversionTask>,
) -> nat {
    let flags = item_failures(config, images, tasks);
    if config.batch_policy == BatchPolicy::FailFast && count_from(flags, 0) > 0 {
        (first_from(flags, 0) + 1) as nat
    } else {
        images.len()
    }
}

/// A conversion of no bytes fails, whatever the formats and the options.
pub proof fn lemma_empty_input_fails(
    from: ImageFormat,
    to: ImageFormat,
    options: OptionsModel,
    assess: bool,
    r: Result<ConvertedImage, ImageError>,
)
    requires
        conversion_outcome(Seq::empty(), from, to, options, assess, r),
    ensures
        r matches Err(ImageError::InvalidParameters { .. }),
{
}

/// A conversion of bytes that do not carry the signature of the declared
/// format fails as a format error that names the declared format, not as a
/// decode error.
pub proof fn lemma_signature_mismatch_fails(
    data: Seq<u8>,
    from: ImageFormat,
    to: ImageFormat,
    options: OptionsModel,
    assess: bool,
    r: Result<ConvertedImage, ImageError>,
)
    requires
        data.len() > 0,
        !matches_format(data, from),
        conversion_outcome(data, from, to, options, assess, r),
    ensures
        r matches Err(ImageError::InvalidFormat { format }) && format@ == from.spec_name(),
        !(r matches Err(ImageError::DecodeError { .. })),
        r->Err_0.spec_category() == crate::error::ErrorCategory::Format,
{
}

/// A conversion succeeds exactly where its model is a converted image,
/// and then its size is that of the encoded bytes.
pub proof fn lemma_success_follows_model(
    data: Seq<u8>,
    from: ImageFormat,
    to: ImageFormat,
    options: OptionsModel,
    assess: bool,
    r: Result<ConvertedImage, ImageError>,
)
    requires
        conversion_outcome(data, from, to, options, assess, r),
    ensures
        r is Ok <==> conversion_model(data, from, to, options) is Converted,
        r matches Ok(image) ==> image.spec_converted_size() == image.spec_data().len() as u64,
{
}

/// The engine adds no loss of its own. Take a conversion from `a` to `b`
/// that succeeds, and suppose that the codec reads back from its output
/// exactly the samples it was given, as a lossless format does. Then a
/// conversion of that output from `b` to any format hands the encoder
/// exactly those samples again, at the same dimensions, and an assessment
/// of the first conversion finds the output identical to its source.
pub proof fn lemma_round_trip_keeps_samples(
    data: Seq<u8>,
    a: ImageFormat,
    b: ImageFormat,
    c: ImageFormat,
    first_options: OptionsModel,
    second_options: OptionsModel,
    quality: Option<QualityMetrics>,
)
    requires
        conversion_model(data, a, b, first_options) is Converted,
        ({
            let first = conversion_model(data, a, b, first_options);
            &&& matches_format(first->bytes, b)
            &&& decoded_rgba(first->bytes, b) == Ok::<(u32, u32, Seq<u8>), Seq<char>>(
                (first->width, first->height, first->samples),
            )
            &&& second_options.valid_for(c)
            &&& encodable(first->width as nat, first->height as nat, c)
            &&& quality_outcome(true, first->samples, first->bytes, b, quality)
        }),
    ensures
        ({
            let first = conversion_model(data, a, b, first_options);
            let second = conversion_model(first->bytes, b, c, second_options);
            &&& second is Converted ==> second->samples == first->samples && second->width
                == first->width && second->height == first->height
            &&& second is Converted || second is EncoderRefused
            &&& quality matches Some(m) && m.spec_psnr() == crate::quality::Psnr::Identical
        }),
{
    let first = conversion_model(data, a, b, first_options);
    assert(first->samples.len() == 4 * (first->width * first->height));
    assert(first->bytes.len() >= 8);
    assert(first->samples.len() > 0) by {
        assert(encodable(first->width as nat, first->height as nat, b));
        assert(first->width * first->height >= 1) by (nonlinear_arith)
            requires
                first->width >= 1,
                first->height >= 1,
        ;
    }
    crate::quality::lemma_squared_error_sum(
        first->samples,
        first->samples,
        first->samples.len() as int,
    );
}

/// How many conversions of a batch succeed: all that do not fail, or,
/// where the batch stops at the first failure, those before it.
pub open spec fn succeeded(
    config: ConverterConfig,
    images: Seq<ImageInput>,
    tasks: Seq<ConversionTask>,
) -> nat {
    let flags = item_failures(config, images, tasks);
    if config.batch_policy == BatchPolicy::FailFast && count_from(flags, 0) > 0 {
        first_from(flags, 0) as nat
    } else {
        (images.len() - count_from(flags, 0)) as nat
    }
}

/// Converts images from one format to another, and keeps count.
pub struct FormatConverter {
    codec_engine: CodecEngine,
    performance_monitor: PerformanceMonitor,
    statistics: ConversionStatistics,
    config: ConverterConfig,
}

impl FormatConverter {
    /// The statistics of the converter.
    pub closed spec fn statistics(&self) -> ConversionStatistics {
        self.statistics
    }

    /// The configuration of the converter.
    pub closed spec fn config(&self) -> ConverterConfig {
        self.config
    }

    /// The telemetry of the converter.
    pub closed spec fn monitor(&self) -> PerformanceMonitor {
        self.performance_monitor
    }

    /// The invariant of a converter: its statistics are consistent.
    pub open spec fn wf(&self) -> bool {
        self.statistics().wf()
    }

    /// A converter with the given configuration, which has converted nothing.
    pub fn new(config: ConverterConfig) -> (r: Result<Self, ImageError>)
        ensures
            r matches Ok(converter) && converter.wf() && converter.config() == config
                && converter.statistics().is_initial(),
    {
        Ok(
            FormatConverter {
                codec_engine: CodecEngine::new(),
                performance_monitor: PerformanceMonitor::new(MonitorConfig::default()),
                statistics: ConversionStatistics::new(),
                config,
            },
        )
    }

    /// A converter with the default configuration.
    pub fn with_defaults() -> (r: Result<Self, ImageError>)
        ensures
            r matches Ok(converter) && converter.wf() && converter.statistics().is_initial()
                && converter.config() == ConverterConfig::spec_default(),
    {
        Self::new(ConverterConfig::default())
    }

    /// A converter set for speed and small output: it gives conversions
    /// without options those of `OptimizeSize`, and does not assess quality.
    pub fn with_high_performance() -> (r: Result<Self, ImageError>)
        ensures
            r matches Ok(converter) && converter.wf() && converter.statistics().is_initial()
                && converter.config() == ConverterConfig::spec_high_performance(),
    {
        let base = ConverterConfig::default();
        Self::new(
            ConverterConfig {
                enable_parallel: true,
                thread_pool_size: base.thread_pool_size,
                enable_simd: true,
                memory_limit: base.memory_limit,
                enable_performance_monitoring: base.enable_performance_monitoring,
                enable_quality_assessment: false,
                quality_strategy: QualityStrategy::OptimizeSize,
                batch_policy: base.batch_policy,
            },
        )
    }

    /// A converter set for fidelity: it gives conversions without options
    /// those of `MaxQuality`, and assesses quality.
    pub fn with_high_quality() -> (r: Result<Self, ImageError>)
        ensures
            r matches Ok(converter) && converter.wf() && converter.statistics().is_initial()
                && converter.config() == ConverterConfig::spec_high_quality(),
    {
        let base = ConverterConfig::default();
        Self::new(
            ConverterConfig {
                enable_parallel: base.enable_parallel,
                thread_pool_size: base.thread_pool_size,
                enable_simd: base.enable_simd,
                memory_limit: base.memory_limit,
                enable_performance_monitoring: base.enable_performance_monitoring,
                enable_quality_assessment: true,
                quality_strategy: QualityStrategy::MaxQuality,
                batch_policy: base.batch_policy,
            },
        )
    }

    /// The format of `image_data`, told from its signature.
    pub fn detect_format(&self, image_data: &[u8]) -> (r: Result<ImageFormat, ImageError>)
        ensures
            match r {
                Ok(format) => detected_format(image_data@) == Some(format),
                Err(e) => detected_format(image_data@) is None && (
                e matches ImageError::InvalidFormat { format } && format@ == "unknown"@),
            },
    {
        FormatDetector::detect_format(image_data)
    }

    /// The registry entry of `format`.
    pub fn get_format_info(&self, format: ImageFormat) -> (info: FormatInfo)
        ensures
            info.describes(format),
    {
        format.info()
    }

    /// The formats the converter handles.
    pub fn get_supported_formats(&self) -> (formats: Vec<ImageFormat>)
        ensures
            formats@ == crate::codecs::supported_formats_spec(),
    {
        CodecFactory::supported_formats()
    }

    /// Whether the converter converts from `from` to `to`: it does for
    /// every pair of formats.
    pub fn is_conversion_supported(&self, from: ImageFormat, to: ImageFormat) -> (b: bool)
        ensures
            b,
    {
        CodecFactory::is_format_supported(from) && CodecFactory::is_format_supported(to)
    }

    /// The raw counters of the telemetry.
    pub fn get_performance_metrics(&self) -> (metrics: PerformanceMetrics)
        ensures
            metrics == self.monitor().metrics(),
    {
        self.performance_monitor.get_current_metrics()
    }

    /// The statistics of the conversions so far.
    pub fn get_conversion_statistics(&self) -> (stats: &ConversionStatistics)
        ensures
            *stats == self.statistics(),
    {
        &self.statistics
    }

    /// Returns the telemetry and the statistics to their initial state.
    pub fn reset_performance_metrics(&mut self)
        ensures
            final(self).wf(),
            final(self).config() == old(self).config(),
            final(self).statistics().is_initial(),
            final(self).monitor().metrics() == PerformanceMetrics::initial(),
            final(self).monitor().history().len() == 0,
    {
        self.performance_monitor.reset();
        self.statistics = ConversionStatistics::new();
    }

    /// Replaces the configuration.
    pub fn update_config(&mut self, config: ConverterConfig) -> (r: Result<(), ImageError>)
        ensures
            r is Ok,
            final(self).config() == config,
            final(self).statistics() == old(self).statistics(),
            final(self).monitor() == old(self).monitor(),
    {
        self.config = config;
        Ok(())
    }

    /// Prepares the converter for work. There is nothing to prepare.
    pub fn warmup(&mut self) -> (r: Result<(), ImageError>)
        ensures
            r is Ok,
            *final(self) == *old(self),
    {
        Ok(())
    }

    /// Converts `image_data`, declared to be in `from_format`, to
    /// `to_format`, under the options given or, where none are given, those
    /// of the configured strategy. Whether it succeeds or fails, the
    /// conversion is recorded once.
    pub fn convert_format(
        &mut self,
        image_data: &[u8],
        from_format: ImageFormat,
        to_format: ImageFormat,
        options: Option<ConversionOptions>,
    ) -> (r: Result<ConvertedImage, ImageError>)
        requires
            old(self).wf(),
        ensures
            final(self).wf(),
            final(self).config() == old(self).config(),
            conversion_outcome(
                image_data@,
                from_format,
                to_format,
                effective_options(options, old(self).config().quality_strategy),
                old(self).config().enable_quality_assessment,
                r,
            ),
            is_recorded(old(self), final(self), from_format, to_format, image_data@.len(), r),
            tallied(
                old(self).statistics(),
                final(self).statistics(),
                1,
                if r is Ok {
                    1nat
                } else {
                    0nat
                },
            ),
    {
        match options {
            Some(given) => self.convert_with(image_data, from_format, to_format, &given),
            None => {
                let chosen = self.config.quality_strategy.default_options();
                self.convert_with(image_data, from_format, to_format, &chosen)
            },
        }
    }

    /// Converts `image_data`, declared to be in `from_format`, to
    /// `to_format` under `options`. Whether it succeeds or fails, the
    /// conversion is recorded once.
    pub fn convert_with(
        &mut self,
        image_data: &[u8],
        from_format: ImageFormat,
        to_format: ImageFormat,
        options: &ConversionOptions,
    ) -> (r: Result<ConvertedImage, ImageError>)
        requires
            old(self).wf(),
        ensures
            final(self).wf(),
            final(self).config() == old(self).config(),
            conversion_outcome(
                image_data@,
                from_format,
                to_format,
                options@,
                old(self).config().enable_quality_assessment,
                r,
            ),
            is_recorded(old(self), final(self), from_format, to_format, image_data@.len(), r),
            tallied(
                old(self).statistics(),
                final(self).statistics(),
                1,
                if r is Ok {
                    1nat
                } else {
                    0nat
                },
            ),
    {
        let start = Instant::now();
        let outcome = Self::transcode(
            &self.codec_engine,
            self.config.enable_quality_assessment,
            image_data,
            from_format,
            to_format,
            options,
        );
        let duration_us = micros_of(&start.elapsed());
        let original_size = image_data.len() as u64;
        let result = Self::finish(outcome, to_format, duration_us, original_size);
        let output_bytes: u64 = match &result {
            Ok(image) => image.converted_size(),
            Err(_) => 0,
        };
        let success = result.is_ok();
        self.record(from_format, to_format, duration_us, original_size, output_bytes, success);
        proof {
            assert(output_bytes == output_size(result));
            assert(success == (result is Ok));
            assert(original_size == image_data@.len() as u64);
            let (elapsed_us, operation) = choose|elapsed_us: u64, operation: String| #[trigger]
                is_recorded_as(
                    old(self),
                    self,
                    from_format,
                    to_format,
                    duration_us,
                    elapsed_us,
                    operation,
                    original_size,
                    output_bytes,
                    success,
                );
            assert(is_recorded_as(
                old(self),
                self,
                from_format,
                to_format,
                duration_us,
                elapsed_us,
                operation,
                image_data@.len() as u64,
                output_size(result),
                result is Ok,
            ));
        }
        result
    }

    /// The result of a conversion that took `duration_us`, made of what
    /// the conversion gave.
    pub fn finish(
        outcome: Result<(Vec<u8>, ImageDimensions, Option<QualityMetrics>), ImageError>,
        to_format: ImageFormat,
        duration_us: u64,
        original_size: u64,
    ) -> (r: Result<ConvertedImage, ImageError>)
        ensures
            match outcome {
                Ok((bytes, dimensions, quality)) => r matches Ok(image) && image.spec_data()
                    == bytes@ && image.spec_dimensions() == dimensions && image.spec_format()
                    == to_format && image.spec_conversion_time_us() == duration_us
                    && image.spec_original_size() == original_size
                    && image.spec_quality_metrics() == quality,
                Err(e) => r == Err::<ConvertedImage, ImageError>(e),
            },
    {
        match outcome {
            Ok((bytes, dimensions, quality)) => {
                let image = ConvertedImage::new(
                    bytes,
                    dimensions,
                    to_format,
                    duration_us,
                    original_size,
                );
                match quality {
                    Some(metrics) => Ok(image.with_quality_metrics(metrics)),
                    None => Ok(image),
                }
            },
            Err(e) => Err(e),
        }
    }

    /// Records one conversion in the statistics and in the telemetry.
    fn record(
        &mut self,
        from_format: ImageFormat,
        to_format: ImageFormat,
        duration_us: u64,
        input_bytes: u64,
        output_bytes: u64,
        success: bool,
    )
        requires
            old(self).wf(),
        ensures
            final(self).wf(),
            final(self).config() == old(self).config(),
            exists|elapsed_us: u64, operation: String| #[trigger]
                is_recorded_as(
                    old(self),
                    final(self),
                    from_format,
                    to_format,
                    duration_us,
                    elapsed_us,
                    operation,
                    input_bytes,
                    output_bytes,
                    success,
                ),
    {
        self.statistics.record(
            from_format,
            to_format,
            duration_us,
            input_bytes,
            output_bytes,
            success,
        );
        let elapsed_us = duration_us;
        let operation = "convert".to_owned();
        let ghost name = operation;
        self.performance_monitor.record_measurement(operation, duration_us, elapsed_us);
        self.performance_monitor.record_result("convert", duration_us, success);
        assert(is_recorded_as(
            old(self),
            final(self),
            from_format,
            to_format,
            duration_us,
            elapsed_us,
            name,
            input_bytes,
            output_bytes,
            success,
        ));
    }

    /// Converts each input under its task, in order, and gives every
    /// outcome, success or failure, at the position of its input. Inputs
    /// and tasks that differ in number are refused before anything is
    /// converted or recorded.
    pub fn batch_collect(&mut self, images: &Vec<ImageInput>, tasks: &Vec<ConversionTask>) -> (r:
        Result<Vec<Result<ConvertedImage, ImageError>>, ImageError>)
        requires
            old(self).wf(),
        ensures
            final(self).wf(),
            final(self).config() == old(self).config(),
            images@.len() != tasks@.len() ==> (r matches Err(ImageError::InvalidParameters { .. })
                && *final(self) == *old(self)),
            images@.len() == tasks@.len() ==> (r matches Ok(outcomes) && outcomes@.len()
                == images@.len() && (forall|i: int|
                0 <= i < images@.len() ==> #[trigger] item_outcome(
                    old(self).config(),
                    images@[i],
                    tasks@[i],
                    outcomes@[i],
                )) && tallied(
                old(self).statistics(),
                final(self).statistics(),
                images@.len(),
                (images@.len() - count_from(failure_flags(outcomes@), 0)) as nat,
            )),
    {
        if images.len() != tasks.len() {
            return Err(
                ImageError::invalid_parameters("the numbers of images and of tasks differ"),
            );
        }
        let n = images.len();
        let mut outcomes: Vec<Result<ConvertedImage, ImageError>> = Vec::new();
        let mut i: usize = 0;
        while i < n
            invariant
                i <= n,
                n == images@.len(),
                n == tasks@.len(),
                self.wf(),
                self.config() == old(self).config(),
                outcomes@.len() == i,
                forall|k: int|
                    0 <= k < i ==> #[trigger] item_outcome(
                        old(self).config(),
                        images@[k],
                        tasks@[k],
                        outcomes@[k],
                    ),
                count_from(failure_flags(outcomes@), 0) <= i,
                tallied(
                    old(self).statistics(),
                    self.statistics(),
                    i as nat,
                    (i - count_from(failure_flags(outcomes@), 0)) as nat,
                ),
            decreases n - i,
        {
            let ghost so_far = outcomes@;
            let outcome = self.convert_item(&images[i], &tasks[i]);
            outcomes.push(outcome);
            proof {
                assert(failure_flags(outcomes@) =~= failure_flags(so_far).push(outcome is Err));
                lemma_count_push(failure_flags(so_far), outcome is Err, 0);
            }
            i += 1;
        }
        Ok(outcomes)
    }

    /// Converts one input under its task.
    pub fn convert_item(&mut self, image: &ImageInput, task: &ConversionTask) -> (r: Result<
        ConvertedImage,
        ImageError,
    >)
        requires
            old(self).wf(),
        ensures
            final(self).wf(),
            final(self).config() == old(self).config(),
            item_outcome(old(self).config(), *image, *task, r),
            tallied(
                old(self).statistics(),
                final(self).statistics(),
                1,
                if r is Ok {
                    1nat
                } else {
                    0nat
                },
            ),
    {
        match &task.options {
            Some(given) => self.convert_with(image.data(), task.from_format, task.to_format, given),
            None => {
                let chosen = self.config.quality_strategy.default_options();
                self.convert_with(image.data(), task.from_format, task.to_format, &chosen)
            },
        }
    }

    /// Gathers the outcomes of a batch into one result: all the images
    /// where every outcome is one, and else a `BatchProcessingFailed` with
    /// the counts and the first failure.
    pub fn aggregate(outcomes: Vec<Result<ConvertedImage, ImageError>>) -> (r: Result<
        Vec<ConvertedImage>,
        ImageError,
    >)
        ensures
            aggregated(outcomes@, r),
    {
        let ghost all = outcomes@;
        let ghost flags = failure_flags(all);
        let n = outcomes.len();
        let mut rest = outcomes;
        let mut reversed: Vec<ConvertedImage> = Vec::new();
        let mut first_error: Option<ImageError> = None;
        let mut failed: usize = 0;
        while rest.len() > 0
            invariant
                n == all.len(),
                flags == failure_flags(all),
                rest@.len() <= n,
                rest@ == all.subrange(0, rest@.len() as int),
                failed == count_from(flags, rest@.len() as int),
                failed <= n - rest@.len(),
                (first_error is Some) == (failed > 0),
                first_error matches Some(e) ==> first_from(flags, rest@.len() as int) < n
                    && all[first_from(flags, rest@.len() as int)] == Err::<
                    ConvertedImage,
                    ImageError,
                >(e),
                failed == 0 ==> reversed@.len() == n - rest@.len(),
                failed == 0 ==> forall|j: int|
                    0 <= j < reversed@.len() ==> all[n - 1 - j] == Ok::<ConvertedImage, ImageError>(
                        #[trigger] reversed@[j],
                    ),
            decreases rest@.len(),
        {
            let ghost k = rest@.len() - 1;
            let item = rest.pop();
            proof {
                assert(rest@ =~= all.subrange(0, k));
                assert(flags[k] == (all[k] is Err));
                lemma_first_from(flags, k + 1);
            }
            match item {
                Some(Ok(image)) => {
                    if failed == 0 {
                        reversed.push(image);
                    }
                },
                Some(Err(e)) => {
                    failed = failed + 1;
                    first_error = Some(e);
                },
                None => {},
            }
        }
        proof {
            assert(rest@.len() == 0);
        }
        match first_error {
            Some(e) => Err(
                ImageError::BatchProcessingFailed {
                    successful_count: n - failed,
                    failed_count: failed,
                    first_error: Box::new(e),
                },
            ),
            None => {
                let mut images: Vec<ConvertedImage> = Vec::new();
                while reversed.len() > 0
                    invariant
                        n == all.len(),
                        images@.len() + reversed@.len() == n,
                        forall|j: int|
                            0 <= j < reversed@.len() ==> all[n - 1 - j] == Ok::<
                                ConvertedImage,
                                ImageError,
                            >(#[trigger] reversed@[j]),
                        forall|i: int|
                            0 <= i < images@.len() ==> all[i] == Ok::<ConvertedImage, ImageError>(
                                #[trigger] images@[i],
                            ),
                    decreases reversed@.len(),
                {
                    let ghost top = reversed@.len() - 1;
                    let ghost last = reversed@[top];
                    assert(all[n - 1 - top] == Ok::<ConvertedImage, ImageError>(last));
                    match reversed.pop() {
                        Some(image) => {
                            images.push(image);
                        },
                        None => {},
                    }
                }
                Ok(images)
            },
        }
    }

    /// Converts each input under its task. Inputs and tasks that differ in
    /// number are refused before anything is converted or recorded. Where
    /// every conversion succeeds the images come back in the order of the
    /// inputs; where one fails the batch fails as a whole, after all items
    /// or at the first failure, as the configured policy says.
    pub fn batch_convert(&mut self, images: Vec<ImageInput>, conversion_tasks: Vec<ConversionTask>) -> (r:
        Result<Vec<ConvertedImage>, ImageError>)
        requires
            old(self).wf(),
        ensures
            final(self).wf(),
            final(self).config() == old(self).config(),
            images@.len() != conversion_tasks@.len() ==> (r matches Err(
                ImageError::InvalidParameters { .. },
            ) && *final(self) == *old(self)),
            images@.len() == conversion_tasks@.len() ==> batch_outcome(
                old(self).config(),
                images@,
                conversion_tasks@,
                r,
            ) && tallied(
                old(self).statistics(),
                final(self).statistics(),
                attempted(old(self).config(), images@, conversion_tasks@),
                succeeded(old(self).config(), images@, conversion_tasks@),
            ),
    {
        if images.len() != conversion_tasks.len() {
            return Err(
                ImageError::invalid_parameters("the numbers of images and of tasks differ"),
            );
        }
        let ghost flags = item_failures(self.config(), images@, conversion_tasks@);
        match self.config.batch_policy {
            BatchPolicy::AllOrNothing => {
                let outcomes = match self.batch_collect(&images, &conversion_tasks) {
                    Ok(outcomes) => outcomes,
                    Err(e) => {
                        return Err(e);
                    },
                };
                proof {
                    assert forall|i: int| 0 <= i < images@.len() implies failure_flags(
                        outcomes@,
                    )[i] == flags[i] by {
                        assert(item_outcome(
                            old(self).config(),
                            images@[i],
                            conversion_tasks@[i],
                            outcomes@[i],
                        ));
                    }
                    assert(failure_flags(outcomes@) =~= flags);
                    lemma_first_from(flags, 0);
                    let first = first_from(flags, 0);
                    if first < images@.len() {
                        assert(item_outcome(
                            old(self).config(),
                            images@[first],
                            conversion_tasks@[first],
                            outcomes@[first],
                        ));
                    }
                }
                let r = Self::aggregate(outcomes);
                proof {
                    if r is Ok {
                        assert forall|i: int| 0 <= i < images@.len() implies #[trigger] item_outcome(
                            old(self).config(),
                            images@[i],
                            conversion_tasks@[i],
                            Ok(r->Ok_0@[i]),
                        ) by {
                            assert(item_outcome(
                                old(self).config(),
                                images@[i],
                                conversion_tasks@[i],
                                outcomes@[i],
                            ));
                        }
                    }
                }
                r
            },
            BatchPolicy::FailFast => {
                let n = images.len();
                let mut converted: Vec<ConvertedImage> = Vec::new();
                let mut i: usize = 0;
                while i < n
                    invariant
                        i <= n,
                        n == images@.len(),
                        n == conversion_tasks@.len(),
                        self.wf(),
                        self.config() == old(self).config(),
                        self.config().batch_policy == BatchPolicy::FailFast,
                        flags == item_failures(old(self).config(), images@, conversion_tasks@),
                        converted@.len() == i,
                        forall|k: int| 0 <= k < i ==> !flags[k],
                        forall|k: int|
                            0 <= k < i ==> #[trigger] item_outcome(
                                old(self).config(),
                                images@[k],
                                conversion_tasks@[k],
                                Ok(converted@[k]),
                            ),
                        tallied(old(self).statistics(), self.statistics(), i as nat, i as nat),
                    decreases n - i,
                {
                    let outcome = self.convert_item(&images[i], &conversion_tasks[i]);
                    proof {
                        assert(flags[i as int] == (outcome is Err));
                    }
                    match outcome {
                        Ok(image) => {
                            converted.push(image);
                        },
                        Err(e) => {
                            proof {
                                lemma_first_is(flags, 0, i as int);
                                lemma_first_from(flags, 0);
                            }
                            return Err(
                                ImageError::BatchProcessingFailed {
                                    successful_count: i,
                                    failed_count: 1,
                                    first_error: Box::new(e),
                                },
                            );
                        },
                    }
                    i += 1;
                }
                proof {
                    lemma_first_is(flags, 0, n as int);
                }
                Ok(converted)
            },
        }
    }

    /// Decodes, encodes and, where asked, assesses, without timing or
    /// recording anything.
    fn transcode(
        engine: &CodecEngine,
        assess: bool,
        image_data: &[u8],
        from_format: ImageFormat,
        to_format: ImageFormat,
        options: &ConversionOptions,
    ) -> (r: Result<(Vec<u8>, ImageDimensions, Option<QualityMetrics>), ImageError>)
        ensures
            transcode_outcome(image_data@, from_format, to_format, options@, assess, r),
    {
        if image_data.len() == 0 {
            return Err(ImageError::invalid_parameters("image data is empty"));
        }
        if !(CodecFactory::is_format_supported(from_format) && CodecFactory::is_format_supported(
            to_format,
        )) {
            return Err(ImageError::unsupported_operation("conversion between these formats"));
        }
        let decoded = engine.decode::<Rgba<u8>>(image_data, from_format);
        let buffer = match decoded {
            Ok(buffer) => buffer,
            Err(e) => {
                return Err(e);
            },
        };
        let dimensions = buffer.dimensions();
        proof {
            let d = decoded_rgba(image_data@, from_format);
            assert(d is Ok);
            lemma_flattened_raster(buffer, d->Ok_0.0, d->Ok_0.1, d->Ok_0.2);
        }
        let encoded = engine.encode(&buffer, to_format, options);
        let bytes = match encoded {
            Ok(bytes) => bytes,
            Err(e) => {
                return Err(e);
            },
        };
        let quality = if assess {
            match engine.decode::<Rgba<u8>>(bytes.as_slice(), to_format) {
                Ok(again) => {
                    proof {
                        let d = decoded_rgba(bytes@, to_format);
                        lemma_flattened_raster(again, d->Ok_0.0, d->Ok_0.1, d->Ok_0.2);
                    }
                    let source = CodecEngine::flatten(&buffer);
                    let target = CodecEngine::flatten(&again);
                    Some(
                        QualityAssessor::assess_quality(
                            source.as_slice(),
                            target.as_slice(),
                            dimensions,
                        ),
                    )
                },
                Err(_) => None,
            }
        } else {
            None
        };
        Ok((bytes, dimensions, quality))
    }
}

} // verus!
