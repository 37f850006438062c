//! The static face of codec dispatch, for callers that hold no engine.

use crate::buffer::ImageBuffer;
use crate::codecs::{decode_outcome, encode_outcome, CodecEngine};
use crate::error::ImageError;
use crate::options::{clamp_to, ConversionOptionsBuilder, OptionsModel, QUALITY_SCALE};
use crate::pixel::Pixel;
use crate::types::ImageFormat;
use vstd::prelude::*;

verus! {

/// How a processor works.
#[derive(Debug, Clone, Copy)]
pub struct ProcessorConfig {
    pub enable_parallel: bool,
    pub thread_pool_size: Option<usize>,
    pub enable_simd: bool,
    pub memory_limit: Option<u64>,
    pub enable_performance_monitoring: bool,
}

impl Default for ProcessorConfig {
    fn default() -> (config: Self)
        ensures
            config.enable_parallel,
            config.thread_pool_size is None,
            config.enable_simd,
            config.memory_limit is None,
            config.enable_performance_monitoring,
    {
        ProcessorConfig {
            enable_parallel: true,
            thread_pool_size: None,
            enable_simd: true,
            memory_limit: None,
            enable_performance_monitoring: true,
        }
    }
}

/// The options that stand for a quality given in percent: the quality in
/// thousandths, at most 1000, beside the default options.
pub open spec fn percent_options(quality: Option<u8>) -> OptionsModel {
    match quality {
        Some(q) => OptionsModel {
            quality: Some(clamp_to(q * 10, 0, QUALITY_SCALE as int) as u16),
            ..OptionsModel::initial()
        },
        None => OptionsModel::initial(),
    }
}

/// Decodes and encodes without an engine at hand.
pub struct ImageCodec;

impl ImageCodec {
    /// Decodes `data`, declared to be in `format`, into a buffer of pixels
    /// of type `P`.
    pub fn decode<P: Pixel<Subpixel = u8>>(data: &[u8], format: ImageFormat) -> (r: Result<
        ImageBuffer<P>,
        ImageError,
    >)
        ensures
            decode_outcome(data@, format, r),
    {
        CodecEngine::new().decode(data, format)
    }

    /// Encodes `buffer` in `format`, at a quality given in percent where
    /// one is given.
    pub fn encode<P: Pixel<Subpixel = u8>>(
        buffer: &ImageBuffer<P>,
        format: ImageFormat,
        quality: Option<u8>,
    ) -> (r: Result<Vec<u8>, ImageError>)
        requires
            buffer.wf(),
        ensures
            encode_outcome(*buffer, format, percent_options(quality), r),
    {
        let builder = ConversionOptionsBuilder::new();
        let options = match quality {
            Some(q) => builder.quality((q as i32) * 10).build(),
            None => builder.build(),
        };
        CodecEngine::new().encode(buffer, format, &options)
    }
}

} // verus!
