//! One codec for each format: the settings it carries, and decoding and
//! encoding in that format through the codec engine.

use crate::buffer::ImageBuffer;
use crate::codecs::{decode_outcome, encode_outcome, quality_features_of, CodecEngine, CodecInfo, PerformanceLevel};
use crate::detector::{matches_format, FormatDetector};
use crate::error::ImageError;
use crate::options::{ConversionOptions, OptionsModel};
use crate::pixel::Pixel;
use crate::types::{ImageDimensions, ImageFormat};
use vstd::prelude::*;

verus! {

/// The row filter of a PNG encoder.
#[derive(Debug, Clone, Copy, PartialEq, Eq, Structural)]
pub enum PngFilter {
    NoFilter,
    Sub,
    Up,
    Average,
    Paeth,
    /// The best filter for each row.
    Adaptive,
}

/// The strategy of a deflate compressor.
#[derive(Debug, Clone, Copy, PartialEq, Eq, Structural)]
pub enum CompressionStrategy {
    Default,
    Filtered,
    HuffmanOnly,
    Rle,
    Fixed,
}

/// How WebP encodes.
#[derive(Debug, Clone, Copy, PartialEq, Eq, Structural)]
pub enum WebPMode {
    Lossy,
    Lossless,
    /// Whichever suits the image.
    Mixed,
}

/// What WebP does before it encodes.
#[derive(Debug, Clone, Copy, PartialEq, Eq, Structural)]
pub struct WebPPreprocessing {
    pub sharp_yuv: bool,
    pub auto_filter: bool,
    pub alpha_compression: bool,
}

/// How AVIF splits an image into tiles.
#[derive(Debug, Clone, Copy, PartialEq, Eq, Structural)]
pub enum TilingMode {
    Disabled,
    Auto,
    Custom { cols: u8, rows: u8 },
}

/// The settings of an AVIF encoder.
#[derive(Debug, Clone, Copy, PartialEq, Eq, Structural)]
pub struct AvifEncoderSettings {
    /// From 0, slowest and best, to 10.
    pub speed: u8,
    /// From 0 to 100.
    pub quality: u8,
    /// The quality of the alpha channel.
    pub quality_alpha: u8,
    pub tiling: TilingMode,
}

/// How TIFF compresses.
#[derive(Debug, Clone, Copy, PartialEq, Eq, Structural)]
pub enum TiffCompression {
    Uncompressed,
    Lzw,
    Deflate,
    PackBits,
    Jpeg,
}

/// A codec of one format, for pixels of type `P`.
pub trait Codec<P: Pixel<Subpixel = u8>> {
    /// The format of the codec.
    spec fn spec_format(&self) -> ImageFormat;

    /// Decodes `data` into a buffer of pixels of type `P`.
    fn decode(&self, data: &[u8]) -> (r: Result<ImageBuffer<P>, ImageError>)
        ensures
            decode_outcome(data@, self.spec_format(), r),
    ;

    /// Encodes `buffer` under `options`.
    fn encode(&self, buffer: &ImageBuffer<P>, options: &ConversionOptions) -> (r: Result<
        Vec<u8>,
        ImageError,
    >)
        requires
            buffer.wf(),
        ensures
            encode_outcome(*buffer, self.spec_format(), options@, r),
    ;

    /// What is known of the codec.
    fn info(&self) -> (info: CodecInfo)
        ensures
            info.format == self.spec_format(),
            info.name@ == self.spec_format().spec_name(),
            info.supports_decode,
            info.supports_encode,
            info.performance_level == PerformanceLevel::Balanced,
            info.quality_features == quality_features_of(self.spec_format()),
    ;

    /// Whether `data` is long enough to tell a format from and begins with
    /// the signature of the codec's format.
    fn validate_format(&self, data: &[u8]) -> (b: bool)
        ensures
            b == matches_format(data@, self.spec_format()),
    ;

    /// The options the codec works with where it is given none.
    fn default_options(&self) -> (options: ConversionOptions)
        ensures
            options@ == OptionsModel::initial(),
    ;

    /// Prepares the codec for an image of the given dimensions. There is
    /// nothing to prepare.
    fn preprocess(&mut self, dimensions: ImageDimensions) -> (r: Result<(), ImageError>)
        ensures
            r is Ok,
            final(self).spec_format() == old(self).spec_format(),
    ;

    /// Releases what the codec holds. There is nothing to release.
    fn postprocess(&mut self) -> (r: Result<(), ImageError>)
        ensures
            r is Ok,
            final(self).spec_format() == old(self).spec_format(),
    ;
}

/// JPEG: lossy, with a quality table and an optimisation level.
#[derive(Debug, Clone)]
pub struct JpegCodec {
    quality_table: Option<Vec<u8>>,
    optimization_level: u8,
}

impl JpegCodec {
    /// The codec with its usual settings.
    pub fn new() -> (codec: Self)
        ensures
            codec.has_usual_settings(),
    {
        JpegCodec {
            quality_table: None,
            optimization_level: 0,
        }
    }

    /// The quality table, where the codec holds one.
    pub closed spec fn spec_quality_table(&self) -> Option<Seq<u8>> {
        match self.quality_table {
            Some(table) => Some(table@),
            None => None,
        }
    }

    /// The optimisation level.
    pub closed spec fn spec_optimization_level(&self) -> u8 {
        self.optimization_level
    }

    /// The usual settings of the codec: no quality table, and no
    /// optimisation.
    pub open spec fn has_usual_settings(&self) -> bool {
        self.spec_quality_table() is None && self.spec_optimization_level() == 0
    }
}

impl<P: Pixel<Subpixel = u8>> Codec<P> for JpegCodec {
    open spec fn spec_format(&self) -> ImageFormat {
        ImageFormat::Jpeg
    }

    fn decode(&self, data: &[u8]) -> (r: Result<ImageBuffer<P>, ImageError>) {
        CodecEngine::decode_as(data, ImageFormat::Jpeg)
    }

    fn encode(&self, buffer: &ImageBuffer<P>, options: &ConversionOptions) -> (r: Result<
        Vec<u8>,
        ImageError,
    >) {
        CodecEngine::encode_as(buffer, ImageFormat::Jpeg, options)
    }

    fn info(&self) -> (info: CodecInfo) {
        CodecEngine::get_codec_info(ImageFormat::Jpeg)
    }

    fn validate_format(&self, data: &[u8]) -> (b: bool) {
        FormatDetector::matches_format(data, ImageFormat::Jpeg)
    }

    fn default_options(&self) -> (options: ConversionOptions) {
        ConversionOptions::default()
    }

    fn preprocess(&mut self, dimensions: ImageDimensions) -> (r: Result<(), ImageError>) {
        Ok(())
    }

    fn postprocess(&mut self) -> (r: Result<(), ImageError>) {
        Ok(())
    }
}

/// PNG: lossless, with a compression strategy and a row filter.
#[derive(Debug, Clone)]
pub struct PngCodec {
    compression_strategy: CompressionStrategy,
    filter_type: PngFilter,
}

impl PngCodec {
    /// The codec with its usual settings.
    pub fn new() -> (codec: Self)
        ensures
            codec.has_usual_settings(),
    {
        PngCodec {
            compression_strategy: CompressionStrategy::Default,
            filter_type: PngFilter::Adaptive,
        }
    }

    /// The compression strategy.
    pub closed spec fn spec_compression_strategy(&self) -> CompressionStrategy {
        self.compression_strategy
    }

    /// The row filter.
    pub closed spec fn spec_filter_type(&self) -> PngFilter {
        self.filter_type
    }

    /// The usual settings of the codec: the default compression strategy
    /// and the adaptive row filter.
    pub open spec fn has_usual_settings(&self) -> bool {
        self.spec_compression_strategy() == CompressionStrategy::Default && self.spec_filter_type()
            == PngFilter::Adaptive
    }
}

impl<P: Pixel<Subpixel = u8>> Codec<P> for PngCodec {
    open spec fn spec_format(&self) -> ImageFormat {
        ImageFormat::Png
    }

    fn decode(&self, data: &[u8]) -> (r: Result<ImageBuffer<P>, ImageError>) {
        CodecEngine::decode_as(data, ImageFormat::Png)
    }

    fn encode(&self, buffer: &ImageBuffer<P>, options: &ConversionOptions) -> (r: Result<
        Vec<u8>,
        ImageError,
    >) {
        CodecEngine::encode_as(buffer, ImageFormat::Png, options)
    }

    fn info(&self) -> (info: CodecInfo) {
        CodecEngine::get_codec_info(ImageFormat::Png)
    }

    fn validate_format(&self, data: &[u8]) -> (b: bool) {
        FormatDetector::matches_format(data, ImageFormat::Png)
    }

    fn default_options(&self) -> (options: ConversionOptions) {
        ConversionOptions::default()
    }

    fn preprocess(&mut self, dimensions: ImageDimensions) -> (r: Result<(), ImageError>) {
        Ok(())
    }

    fn postprocess(&mut self) -> (r: Result<(), ImageError>) {
        Ok(())
    }
}

/// WebP: lossy or lossless, with preprocessing.
#[derive(Debug, Clone)]
pub struct WebPCodec {
    encoding_mode: WebPMode,
    preprocessing: WebPPreprocessing,
}

impl WebPCodec {
    /// The codec with its usual settings.
    pub fn new() -> (codec: Self)
        ensures
            codec.has_usual_settings(),
    {
        WebPCodec {
            encoding_mode: WebPMode::Mixed,
            preprocessing: WebPPreprocessing { sharp_yuv: true, auto_filter: true, alpha_compression: true },
        }
    }

    /// How the codec encodes.
    pub closed spec fn spec_encoding_mode(&self) -> WebPMode {
        self.encoding_mode
    }

    /// What the codec does before it encodes.
    pub closed spec fn spec_preprocessing(&self) -> WebPPreprocessing {
        self.preprocessing
    }

    /// The usual settings of the codec: the mixed mode, with every
    /// preprocessing step on.
    pub open spec fn has_usual_settings(&self) -> bool {
        self.spec_encoding_mode() == WebPMode::Mixed && self.spec_preprocessing() == (
        WebPPreprocessing { sharp_yuv: true, auto_filter: true, alpha_compression: true })
    }
}

impl<P: Pixel<Subpixel = u8>> Codec<P> for WebPCodec {
    open spec fn spec_format(&self) -> ImageFormat {
        ImageFormat::WebP
    }

    fn decode(&self, data: &[u8]) -> (r: Result<ImageBuffer<P>, ImageError>) {
        CodecEngine::decode_as(data, ImageFormat::WebP)
    }

    fn encode(&self, buffer: &ImageBuffer<P>, options: &ConversionOptions) -> (r: Result<
        Vec<u8>,
        ImageError,
    >) {
        CodecEngine::encode_as(buffer, ImageFormat::WebP, options)
    }

    fn info(&self) -> (info: CodecInfo) {
        CodecEngine::get_codec_info(ImageFormat::WebP)
    }

    fn validate_format(&self, data: &[u8]) -> (b: bool) {
        FormatDetector::matches_format(data, ImageFormat::WebP)
    }

    fn default_options(&self) -> (options: ConversionOptions) {
        ConversionOptions::default()
    }

    fn preprocess(&mut self, dimensions: ImageDimensions) -> (r: Result<(), ImageError>) {
        Ok(())
    }

    fn postprocess(&mut self) -> (r: Result<(), ImageError>) {
        Ok(())
    }
}

/// AVIF, with the settings of its encoder.
#[derive(Debug, Clone)]
pub struct AvifCodec {
    encoder_settings: AvifEncoderSettings,
}

impl AvifCodec {
    /// The codec with its usual settings.
    pub fn new() -> (codec: Self)
        ensures
            codec.has_usual_settings(),
    {
        AvifCodec {
            encoder_settings: AvifEncoderSettings { speed: 6, quality: 80, quality_alpha: 80, tiling: TilingMode::Auto },
        }
    }

    /// The settings of the encoder.
    pub closed spec fn spec_encoder_settings(&self) -> AvifEncoderSettings {
        self.encoder_settings
    }

    /// The usual settings of the codec: speed 6, quality 80 for colour
    /// and for alpha, and tiles chosen by the encoder.
    pub open spec fn has_usual_settings(&self) -> bool {
        self.spec_encoder_settings() == (AvifEncoderSettings {
            speed: 6,
            quality: 80,
            quality_alpha: 80,
            tiling: TilingMode::Auto,
        })
    }
}

impl<P: Pixel<Subpixel = u8>> Codec<P> for AvifCodec {
    open spec fn spec_format(&self) -> ImageFormat {
        ImageFormat::Avif
    }

    fn decode(&self, data: &[u8]) -> (r: Result<ImageBuffer<P>, ImageError>) {
        CodecEngine::decode_as(data, ImageFormat::Avif)
    }

    fn encode(&self, buffer: &ImageBuffer<P>, options: &ConversionOptions) -> (r: Result<
        Vec<u8>,
        ImageError,
    >) {
        CodecEngine::encode_as(buffer, ImageFormat::Avif, options)
    }

    fn info(&self) -> (info: CodecInfo) {
        CodecEngine::get_codec_info(ImageFormat::Avif)
    }

    fn validate_format(&self, data: &[u8]) -> (b: bool) {
        FormatDetector::matches_format(data, ImageFormat::Avif)
    }

    fn default_options(&self) -> (options: ConversionOptions) {
        ConversionOptions::default()
    }

    fn preprocess(&mut self, dimensions: ImageDimensions) -> (r: Result<(), ImageError>) {
        Ok(())
    }

    fn postprocess(&mut self) -> (r: Result<(), ImageError>) {
        Ok(())
    }
}

/// BMP: uncompressed.
#[derive(Debug, Clone)]
pub struct BmpCodec {
    support_compression: bool,
}

impl BmpCodec {
    /// The codec with its usual settings.
    pub fn new() -> (codec: Self)
        ensures
            codec.has_usual_settings(),
    {
        BmpCodec {
            support_compression: false,
        }
    }

    /// Whether the codec compresses.
    pub closed spec fn spec_support_compression(&self) -> bool {
        self.support_compression
    }

    /// The usual settings of the codec: no compression.
    pub open spec fn has_usual_settings(&self) -> bool {
        !self.spec_support_compression()
    }
}

impl<P: Pixel<Subpixel = u8>> Codec<P> for BmpCodec {
    open spec fn spec_format(&self) -> ImageFormat {
        ImageFormat::Bmp
    }

    fn decode(&self, data: &[u8]) -> (r: Result<ImageBuffer<P>, ImageError>) {
        CodecEngine::decode_as(data, ImageFormat::Bmp)
    }

    fn encode(&self, buffer: &ImageBuffer<P>, options: &ConversionOptions) -> (r: Result<
        Vec<u8>,
        ImageError,
    >) {
        CodecEngine::encode_as(buffer, ImageFormat::Bmp, options)
    }

    fn info(&self) -> (info: CodecInfo) {
        CodecEngine::get_codec_info(ImageFormat::Bmp)
    }

    fn validate_format(&self, data: &[u8]) -> (b: bool) {
        FormatDetector::matches_format(data, ImageFormat::Bmp)
    }

    fn default_options(&self) -> (options: ConversionOptions) {
        ConversionOptions::default()
    }

    fn preprocess(&mut self, dimensions: ImageDimensions) -> (r: Result<(), ImageError>) {
        Ok(())
    }

    fn postprocess(&mut self) -> (r: Result<(), ImageError>) {
        Ok(())
    }
}

/// TIFF, with a compression type.
#[derive(Debug, Clone)]
pub struct TiffCodec {
    compression_type: TiffCompression,
}

impl TiffCodec {
    /// The codec with its usual settings.
    pub fn new() -> (codec: Self)
        ensures
            codec.has_usual_settings(),
    {
        TiffCodec {
            compression_type: TiffCompression::Uncompressed,
        }
    }

    /// How the codec compresses.
    pub closed spec fn spec_compression_type(&self) -> TiffCompression {
        self.compression_type
    }

    /// The usual settings of the codec: no compression.
    pub open spec fn has_usual_settings(&self) -> bool {
        self.spec_compression_type() == TiffCompression::Uncompressed
    }
}

impl<P: Pixel<Subpixel = u8>> Codec<P> for TiffCodec {
    open spec fn spec_format(&self) -> ImageFormat {
        ImageFormat::Tiff
    }

    fn decode(&self, data: &[u8]) -> (r: Result<ImageBuffer<P>, ImageError>) {
        CodecEngine::decode_as(data, ImageFormat::Tiff)
    }

    fn encode(&self, buffer: &ImageBuffer<P>, options: &ConversionOptions) -> (r: Result<
        Vec<u8>,
        ImageError,
    >) {
        CodecEngine::encode_as(buffer, ImageFormat::Tiff, options)
    }

    fn info(&self) -> (info: CodecInfo) {
        CodecEngine::get_codec_info(ImageFormat::Tiff)
    }

    fn validate_format(&self, data: &[u8]) -> (b: bool) {
        FormatDetector::matches_format(data, ImageFormat::Tiff)
    }

    fn default_options(&self) -> (options: ConversionOptions) {
        ConversionOptions::default()
    }

    fn preprocess(&mut self, dimensions: ImageDimensions) -> (r: Result<(), ImageError>) {
        Ok(())
    }

    fn postprocess(&mut self) -> (r: Result<(), ImageError>) {
        Ok(())
    }
}

/// GIF: palette based, with animation.
#[derive(Debug, Clone)]
pub struct GifCodec {
    animation_support: bool,
    palette_optimization: bool,
}

impl GifCodec {
    /// The codec with its usual settings.
    pub fn new() -> (codec: Self)
        ensures
            codec.has_usual_settings(),
    {
        GifCodec {
            animation_support: true,
            palette_optimization: true,
        }
    }

    /// Whether the codec handles animation.
    pub closed spec fn spec_animation_support(&self) -> bool {
        self.animation_support
    }

    /// Whether the codec optimises the palette.
    pub closed spec fn spec_palette_optimization(&self) -> bool {
        self.palette_optimization
    }

    /// The usual settings of the codec: animation and palette
    /// optimisation are on.
    pub open spec fn has_usual_settings(&self) -> bool {
        self.spec_animation_support() && self.spec_palette_optimization()
    }
}

impl<P: Pixel<Subpixel = u8>> Codec<P> for GifCodec {
    open spec fn spec_format(&self) -> ImageFormat {
        ImageFormat::Gif
    }

    fn decode(&self, data: &[u8]) -> (r: Result<ImageBuffer<P>, ImageError>) {
        CodecEngine::decode_as(data, ImageFormat::Gif)
    }

    fn encode(&self, buffer: &ImageBuffer<P>, options: &ConversionOptions) -> (r: Result<
        Vec<u8>,
        ImageError,
    >) {
        CodecEngine::encode_as(buffer, ImageFormat::Gif, options)
    }

    fn info(&self) -> (info: CodecInfo) {
        CodecEngine::get_codec_info(ImageFormat::Gif)
    }

    fn validate_format(&self, data: &[u8]) -> (b: bool) {
        FormatDetector::matches_format(data, ImageFormat::Gif)
    }

    fn default_options(&self) -> (options: ConversionOptions) {
        ConversionOptions::default()
    }

    fn preprocess(&mut self, dimensions: ImageDimensions) -> (r: Result<(), ImageError>) {
        Ok(())
    }

    fn postprocess(&mut self) -> (r: Result<(), ImageError>) {
        Ok(())
    }
}

/// ICO, with the icon sizes it offers.
#[derive(Debug, Clone)]
pub struct IcoCodec {
    supported_sizes: Vec<u32>,
}

impl IcoCodec {
    /// The codec with its usual settings.
    pub fn new() -> (codec: Self)
        ensures
            codec.has_usual_settings(),
    {
        let codec = IcoCodec {
            supported_sizes: vec![16, 24, 32, 48, 64, 128, 256],
        };
        assert(codec.supported_sizes@ =~= seq![16u32, 24u32, 32u32, 48u32, 64u32, 128u32, 256u32]);
        codec
    }

    /// The sides of the icons the codec offers, in pixels.
    pub closed spec fn spec_supported_sizes(&self) -> Seq<u32> {
        self.supported_sizes@
    }

    /// The usual settings of the codec: icons of 16, 24, 32, 48, 64, 128
    /// and 256 pixels a side.
    pub open spec fn has_usual_settings(&self) -> bool {
        self.spec_supported_sizes() == seq![16u32, 24u32, 32u32, 48u32, 64u32, 128u32, 256u32]
    }
}

impl<P: Pixel<Subpixel = u8>> Codec<P> for IcoCodec {
    open spec fn spec_format(&self) -> ImageFormat {
        ImageFormat::Ico
    }

    fn decode(&self, data: &[u8]) -> (r: Result<ImageBuffer<P>, ImageError>) {
        CodecEngine::decode_as(data, ImageFormat::Ico)
    }

    fn encode(&self, buffer: &ImageBuffer<P>, options: &ConversionOptions) -> (r: Result<
        Vec<u8>,
        ImageError,
    >) {
        CodecEngine::encode_as(buffer, ImageFormat::Ico, options)
    }

    fn info(&self) -> (info: CodecInfo) {
        CodecEngine::get_codec_info(ImageFormat::Ico)
    }

    fn validate_format(&self, data: &[u8]) -> (b: bool) {
        FormatDetector::matches_format(data, ImageFormat::Ico)
    }

    fn default_options(&self) -> (options: ConversionOptions) {
        ConversionOptions::default()
    }

    fn preprocess(&mut self, dimensions: ImageDimensions) -> (r: Result<(), ImageError>) {
        Ok(())
    }

    fn postprocess(&mut self) -> (r: Result<(), ImageError>) {
        Ok(())
    }
}

} // verus!
