//! Codec dispatch: the registry of handled formats, and decoding and
//! encoding through the canonical 8-bit RGBA raster.

use crate::buffer::{converted_channels, ImageBuffer, PixelFormat};
use crate::detector::{matches_format, FormatDetector};
use crate::formats::{
    AvifCodec, BmpCodec, Codec, GifCodec, IcoCodec, JpegCodec, PngCodec, TiffCodec, WebPCodec,
};
use crate::error::ImageError;
use crate::options::{clamp_to, ConversionOptions, OptionsModel};
use crate::pixel::{luma_u8, Pixel};
use crate::types::ImageFormat;
use image::codecs::png::CompressionType;
use image::codecs::png::FilterType;
use image::codecs::png::PngEncoder;
use image::io::Reader;
use image::ColorType;
use image::ImageEncoder;
use image::ImageFormat as Container;
use image::ImageOutputFormat;
use std::io::Cursor;
use vstd::prelude::*;

verus! {

/// The formats the engine handles, in registry order.
pub open spec fn supported_formats_spec() -> Seq<ImageFormat> {
    seq![
        ImageFormat::Jpeg,
        ImageFormat::Png,
        ImageFormat::WebP,
        ImageFormat::Avif,
        ImageFormat::Bmp,
        ImageFormat::Tiff,
        ImageFormat::Gif,
        ImageFormat::Ico,
    ]
}

/// Every format is in the registry.
pub proof fn lemma_every_format_supported(format: ImageFormat)
    ensures
        supported_formats_spec().contains(format),
{
    let s = supported_formats_spec();
    match format {
        ImageFormat::Jpeg => assert(s[0] == format),
        ImageFormat::Png => assert(s[1] == format),
        ImageFormat::WebP => assert(s[2] == format),
        ImageFormat::Avif => assert(s[3] == format),
        ImageFormat::Bmp => assert(s[4] == format),
        ImageFormat::Tiff => assert(s[5] == format),
        ImageFormat::Gif => assert(s[6] == format),
        ImageFormat::Ico => assert(s[7] == format),
    }
}

/// The registry of codecs.
pub struct CodecFactory;

impl CodecFactory {
    /// The formats the engine handles.
    pub fn supported_formats() -> (formats: Vec<ImageFormat>)
        ensures
            formats@ == supported_formats_spec(),
    {
        let formats = vec![
            ImageFormat::Jpeg,
            ImageFormat::Png,
            ImageFormat::WebP,
            ImageFormat::Avif,
            ImageFormat::Bmp,
            ImageFormat::Tiff,
            ImageFormat::Gif,
            ImageFormat::Ico,
        ];
        assert(formats@ =~= supported_formats_spec());
        formats
    }

    /// Whether `format` is in the registry, which holds every format.
    pub fn is_format_supported(format: ImageFormat) -> (b: bool)
        ensures
            b == supported_formats_spec().contains(format),
            b,
    {
        let formats = Self::supported_formats();
        proof {
            lemma_every_format_supported(format);
        }
        let mut i: usize = 0;
        while i < formats.len()
            invariant
                i <= formats@.len(),
                formats@ == supported_formats_spec(),
                forall|k: int| 0 <= k < i ==> formats@[k] != format,
            decreases formats@.len() - i,
        {
            if formats[i] == format {
                return true;
            }
            i += 1;
        }
        false
    }
}


/// The largest width or height that the engine encodes in a format whose
/// registry entry sets no limit.
pub const MAX_ENCODE_DIMENSION: u32 = 65535;

/// The JPEG quality the codec library uses where the options give none.
pub const DEFAULT_JPEG_QUALITY: u8 = 75;

/// What the codec library makes of `data` read as `format`: width, height
/// and the 8-bit RGBA samples of the image, row after row, or the
/// library's message where it cannot decode.
pub uninterp spec fn decoded_rgba(data: Seq<u8>, format: ImageFormat) -> Result<
    (u32, u32, Seq<u8>),
    Seq<char>,
>;

/// What the codec library writes for an image of `width` by `height`
/// 8-bit RGBA samples in `format`, JPEG being written at `jpeg_quality`:
/// the encoded bytes, or the library's message where it cannot encode.
pub uninterp spec fn encoded_bytes(
    samples: Seq<u8>,
    width: u32,
    height: u32,
    format: ImageFormat,
    jpeg_quality: u8,
) -> Result<Seq<u8>, Seq<char>>;

/// Decodes with the `image` crate: `image::io::Reader::with_format` over the
/// bytes, `decode`, and `DynamicImage::to_rgba8` on what comes out. The
/// contract only names the outcome, as a function of the bytes and the
/// format; nothing is claimed of what the library decodes.
#[verifier::external_body]
fn image_decode(data: &[u8], format: ImageFormat) -> (r: Result<(u32, u32, Vec<u8>), String>)
    ensures
        match r {
            Ok((width, height, samples)) => decoded_rgba(data@, format) == Ok::<
                (u32, u32, Seq<u8>),
                Seq<char>,
            >((width, height, samples@)),
            Err(message) => decoded_rgba(data@, format) == Err::<(u32, u32, Seq<u8>), Seq<char>>(
                message@,
            ),
        },
{
    let container = match format {
        ImageFormat::Jpeg => Container::Jpeg,
        ImageFormat::Png => Container::Png,
        ImageFormat::WebP => Container::WebP,
        ImageFormat::Avif => Container::Avif,
        ImageFormat::Bmp => Container::Bmp,
        ImageFormat::Tiff => Container::Tiff,
        ImageFormat::Gif => Container::Gif,
        ImageFormat::Ico => Container::Ico,
    };
    match Reader::with_format(Cursor::new(data), container).decode() {
        Ok(image) => { let b = image.to_rgba8(); Ok((b.width(), b.height(), b.into_raw())) },
        Err(e) => Err(e.to_string()),
    }
}

/// Encodes with the `image` crate: `image::write_buffer_with_format` on the
/// samples as `ColorType::Rgba8`, into a buffer in memory. That function
/// panics where the samples are not four per pixel, hence the first
/// precondition; the bounds on width and height keep the encoders' 32-bit
/// size arithmetic from overflowing. The contract only names the outcome,
/// as a function of the arguments.
#[verifier::external_body]
fn image_encode(samples: &[u8], width: u32, height: u32, format: ImageFormat, jpeg_quality: u8) -> (r:
    Result<Vec<u8>, String>)
    requires
        samples@.len() == 4 * (width * height),
        1 <= width <= MAX_ENCODE_DIMENSION,
        1 <= height <= MAX_ENCODE_DIMENSION,
    ensures
        match r {
            Ok(bytes) => encoded_bytes(samples@, width, height, format, jpeg_quality) == Ok::<
                Seq<u8>,
                Seq<char>,
            >(bytes@),
            Err(message) => encoded_bytes(samples@, width, height, format, jpeg_quality) == Err::<
                Seq<u8>,
                Seq<char>,
            >(message@),
        },
{
    let output = match format {
        ImageFormat::Jpeg => ImageOutputFormat::Jpeg(jpeg_quality),
        ImageFormat::Png => Container::Png.into(),
        ImageFormat::WebP => Container::WebP.into(),
        ImageFormat::Avif => Container::Avif.into(),
        ImageFormat::Bmp => Container::Bmp.into(),
        ImageFormat::Tiff => Container::Tiff.into(),
        ImageFormat::Gif => Container::Gif.into(),
        ImageFormat::Ico => Container::Ico.into(),
    };
    let mut cursor = Cursor::new(Vec::new());
    match image::write_buffer_with_format(&mut cursor, samples, width, height, ColorType::Rgba8, output) {
        Ok(()) => Ok(cursor.into_inner()),
        Err(e) => Err(e.to_string()),
    }
}

/// How hard the PNG encoder works for a small output.
#[derive(Debug, Clone, Copy, PartialEq, Eq, Structural)]
pub enum PngEffort {
    /// Little work, larger output.
    Fast,
    /// The middle ground.
    Default,
    /// Most work, smallest output.
    Best,
}

/// What the codec library writes as PNG for an image of `width` by
/// `height` 8-bit RGBA samples at the given effort: the encoded bytes, or
/// the library's message where it cannot encode.
pub uninterp spec fn png_encoded(samples: Seq<u8>, width: u32, height: u32, effort: PngEffort) -> Result<
    Seq<u8>,
    Seq<char>,
>;

/// Encodes PNG with the `image` crate: `PngEncoder::new_with_quality`, with
/// the compression type that stands for `effort` and the crate's default
/// filter, and `write_image` on the samples as `ColorType::Rgba8`. That
/// method panics where the samples are not four per pixel, hence the first
/// precondition. The contract only names the outcome, as a function of the
/// arguments.
#[verifier::external_body]
fn image_encode_png(samples: &[u8], width: u32, height: u32, effort: PngEffort) -> (r: Result<
    Vec<u8>,
    String,
>)
    requires
        samples@.len() == 4 * (width * height),
        1 <= width <= MAX_ENCODE_DIMENSION,
        1 <= height <= MAX_ENCODE_DIMENSION,
    ensures
        match r {
            Ok(bytes) => png_encoded(samples@, width, height, effort) == Ok::<Seq<u8>, Seq<char>>(
                bytes@,
            ),
            Err(message) => png_encoded(samples@, width, height, effort) == Err::<
                Seq<u8>,
                Seq<char>,
            >(message@),
        },
{
    let compression = match effort {
        PngEffort::Fast => CompressionType::Fast,
        PngEffort::Default => CompressionType::Default,
        PngEffort::Best => CompressionType::Best,
    };
    let mut bytes = Vec::new();
    let encoder = PngEncoder::new_with_quality(&mut bytes, compression, FilterType::default());
    match encoder.write_image(samples, width, height, ColorType::Rgba8) {
        Ok(()) => Ok(bytes),
        Err(e) => Err(e.to_string()),
    }
}

/// The four samples of pixel `i` in a row of RGBA samples.
pub open spec fn samples_of(samples: Seq<u8>, i: int) -> Seq<u8> {
    samples.subrange(4 * i, 4 * i + 4)
}

/// The layout tag of a buffer of pixels with `count` channels.
pub open spec fn tag_of(count: nat) -> PixelFormat {
    if count == 4 {
        PixelFormat::Rgba8
    } else if count == 3 {
        PixelFormat::Rgb8
    } else {
        PixelFormat::Gray8
    }
}

/// `buffer` holds the image of `width` by `height` RGBA `samples`, each
/// pixel reduced to the channels of `P`.
pub open spec fn holds_raster<P: Pixel<Subpixel = u8>>(
    buffer: ImageBuffer<P>,
    width: u32,
    height: u32,
    samples: Seq<u8>,
) -> bool {
    &&& buffer.wf()
    &&& buffer.width() == width
    &&& buffer.height() == height
    &&& buffer.format() == tag_of(P::spec_channel_count())
    &&& buffer@.len() == width * height
    &&& forall|i: int|
        0 <= i < buffer@.len() ==> #[trigger] buffer@[i].channels() == converted_channels(
            samples_of(samples, i),
            P::spec_channel_count(),
        )
}

/// The RGBA form of a pixel's channels: four channels stand as they are,
/// three get an opaque alpha, and one is a grey of that value, opaque.
pub open spec fn canonical_rgba(channels: Seq<u8>) -> Seq<u8> {
    if channels.len() == 4 {
        channels
    } else if channels.len() == 3 {
        seq![channels[0], channels[1], channels[2], 255u8]
    } else {
        seq![channels[0], channels[0], channels[0], 255u8]
    }
}

/// The RGBA samples of a row of pixels, four for each pixel.
pub open spec fn flattened<P: Pixel<Subpixel = u8>>(pixels: Seq<P>) -> Seq<u8> {
    Seq::new(4 * pixels.len(), |j: int| canonical_rgba(pixels[j / 4].channels())[j % 4])
}

/// The JPEG quality, from 1 to 100, that stands for the quality of the
/// options: the nearest hundredth, and the library's default where the
/// options give none.
pub open spec fn jpeg_quality_of(options: OptionsModel) -> u8 {
    match options.quality {
        Some(q) => clamp_to((q + 5) / 10, 1, 100) as u8,
        None => DEFAULT_JPEG_QUALITY,
    }
}

/// The effort of the PNG encoder that stands for the compression level of
/// the options: little for the levels up to 3 and where the options give
/// none, middling for the levels 4 to 6, and most from level 7 on.
pub open spec fn png_effort_of(options: OptionsModel) -> PngEffort {
    match options.compression_level {
        Some(level) => if level <= 3 {
            PngEffort::Fast
        } else if level <= 6 {
            PngEffort::Default
        } else {
            PngEffort::Best
        },
        None => PngEffort::Fast,
    }
}

/// What the codec library writes for an image under `options`: PNG at the
/// effort of the options, JPEG at their quality, and any other format as
/// the library writes it.
pub open spec fn codec_output(
    samples: Seq<u8>,
    width: u32,
    height: u32,
    format: ImageFormat,
    options: OptionsModel,
) -> Result<Seq<u8>, Seq<char>> {
    if format == ImageFormat::Png {
        png_encoded(samples, width, height, png_effort_of(options))
    } else {
        encoded_bytes(samples, width, height, format, jpeg_quality_of(options))
    }
}

/// The largest width and height that the engine writes in `format`: the
/// limit of the registry, or 65535 where it sets none.
pub open spec fn encode_limit(format: ImageFormat) -> u32 {
    match format.spec_max_width() {
        Some(limit) => limit,
        None => MAX_ENCODE_DIMENSION,
    }
}

/// Whether an image of `width` by `height` can be written in `format`.
pub open spec fn encodable(width: nat, height: nat, format: ImageFormat) -> bool {
    1 <= width <= encode_limit(format) && 1 <= height <= encode_limit(format)
}

/// What decoding `data` as `format` into pixels of type `P` gives.
pub open spec fn decode_outcome<P: Pixel<Subpixel = u8>>(
    data: Seq<u8>,
    format: ImageFormat,
    r: Result<ImageBuffer<P>, ImageError>,
) -> bool {
    if !matches_format(data, format) {
        r matches Err(ImageError::InvalidFormat { format: f }) && f@ == format.spec_name()
    } else {
        match decoded_rgba(data, format) {
            Err(message) => r matches Err(ImageError::DecodeError { format: f, message: m }) && f@
                == format.spec_name() && m@ == message,
            Ok((width, height, samples)) => if samples.len() == 4 * (width * height) {
                r matches Ok(buffer) && holds_raster(buffer, width, height, samples)
            } else {
                r matches Err(ImageError::DecodeError { format: f, message: m }) && f@
                    == format.spec_name()
            },
        }
    }
}

/// What encoding `buffer` in `format` under `options` gives.
pub open spec fn encode_outcome<P: Pixel<Subpixel = u8>>(
    buffer: ImageBuffer<P>,
    format: ImageFormat,
    options: OptionsModel,
    r: Result<Vec<u8>, ImageError>,
) -> bool {
    if !options.valid_for(format) {
        r matches Err(ImageError::InvalidParameters { .. })
    } else if !encodable(buffer.width(), buffer.height(), format) {
        r matches Err(ImageError::InvalidDimensions { width, height, .. }) && width
            == buffer.width() && height == buffer.height()
    } else {
        match codec_output(
            flattened(buffer@),
            buffer.width() as u32,
            buffer.height() as u32,
            format,
            options,
        ) {
            Ok(bytes) => r matches Ok(out) && out@ == bytes,
            Err(message) => r matches Err(ImageError::EncodeError { format: f, message: m })
                && f@ == format.spec_name() && m@ == message,
        }
    }
}

/// Four channels pass through the canonical form unchanged: the RGBA
/// samples of a decoded RGBA buffer are the decoded samples themselves.
pub proof fn lemma_flattened_raster<P: Pixel<Subpixel = u8>>(
    buffer: ImageBuffer<P>,
    width: u32,
    height: u32,
    samples: Seq<u8>,
)
    requires
        P::spec_channel_count() == 4,
        samples.len() == 4 * (width * height),
        holds_raster(buffer, width, height, samples),
    ensures
        flattened(buffer@) == samples,
{
    let flat = flattened(buffer@);
    assert(flat.len() == samples.len());
    assert forall|j: int| 0 <= j < flat.len() implies flat[j] == samples[j] by {
        let i = j / 4;
        let c = j % 4;
        assert(j == 4 * i + c);
        assert(0 <= i < buffer@.len());
        let px = samples_of(samples, i);
        assert(buffer@[i].channels() == converted_channels(px, 4));
        assert(px.len() == 4);
        assert(converted_channels(px, 4) =~= px);
        assert(px[c] == samples[4 * i + c]);
    }
    assert(flat =~= samples);
}

/// The JPEG quality of options in range lies between 1 and 100 and grows
/// with the quality.
pub proof fn lemma_jpeg_quality_monotonic(low: OptionsModel, high: OptionsModel)
    requires
        low.quality is Some,
        high.quality is Some,
        low.quality->0 <= high.quality->0,
    ensures
        1 <= jpeg_quality_of(low) <= jpeg_quality_of(high) <= 100,
{
}

/// How a codec trades speed for quality.
#[derive(Debug, Clone, Copy, PartialEq, Eq, Structural)]
pub enum PerformanceLevel {
    Fast,
    Balanced,
    HighQuality,
}

/// What a codec can do for quality.
#[derive(Debug, Clone, Copy, PartialEq, Eq, Structural)]
pub struct QualityFeatures {
    pub supports_lossless: bool,
    pub supports_lossy: bool,
    pub supports_progressive: bool,
    pub supports_transparency: bool,
    pub supports_animation: bool,
    pub max_quality_level: u8,
}

/// What is known of the codec of one format.
#[derive(Debug, Clone)]
pub struct CodecInfo {
    pub format: ImageFormat,
    pub name: String,
    pub version: String,
    pub supports_decode: bool,
    pub supports_encode: bool,
    pub performance_level: PerformanceLevel,
    pub quality_features: QualityFeatures,
}

/// Whether the codec of `format` can encode without loss.
pub open spec fn codec_is_lossless(format: ImageFormat) -> bool {
    format == ImageFormat::Png || format == ImageFormat::WebP || format == ImageFormat::Avif
        || format == ImageFormat::Bmp || format == ImageFormat::Tiff
}

/// What the codec of `format` can do for quality.
pub open spec fn quality_features_of(format: ImageFormat) -> QualityFeatures {
    QualityFeatures {
        supports_lossless: codec_is_lossless(format),
        supports_lossy: format.is_lossy(),
        supports_progressive: format.is_progressive(),
        supports_transparency: format.has_transparency(),
        supports_animation: format.has_animation(),
        max_quality_level: 100,
    }
}

/// Decodes and encodes through the codec library, with one codec for each
/// format.
pub struct CodecEngine {
    jpeg_codec: JpegCodec,
    png_codec: PngCodec,
    webp_codec: WebPCodec,
    avif_codec: AvifCodec,
    bmp_codec: BmpCodec,
    tiff_codec: TiffCodec,
    gif_codec: GifCodec,
    ico_codec: IcoCodec,
}

impl CodecEngine {
    /// An engine that holds the codec of each format, each with its usual
    /// settings.
    pub fn new() -> (engine: Self)
        ensures
            engine.spec_jpeg_codec().has_usual_settings(),
            engine.spec_png_codec().has_usual_settings(),
            engine.spec_webp_codec().has_usual_settings(),
            engine.spec_avif_codec().has_usual_settings(),
            engine.spec_bmp_codec().has_usual_settings(),
            engine.spec_tiff_codec().has_usual_settings(),
            engine.spec_gif_codec().has_usual_settings(),
            engine.spec_ico_codec().has_usual_settings(),
    {
        CodecEngine {
            jpeg_codec: JpegCodec::new(),
            png_codec: PngCodec::new(),
            webp_codec: WebPCodec::new(),
            avif_codec: AvifCodec::new(),
            bmp_codec: BmpCodec::new(),
            tiff_codec: TiffCodec::new(),
            gif_codec: GifCodec::new(),
            ico_codec: IcoCodec::new(),
        }
    }

    /// The codec of JPEG that the engine holds.
    pub closed spec fn spec_jpeg_codec(&self) -> JpegCodec {
        self.jpeg_codec
    }

    /// The codec of PNG that the engine holds.
    pub closed spec fn spec_png_codec(&self) -> PngCodec {
        self.png_codec
    }

    /// The codec of WebP that the engine holds.
    pub closed spec fn spec_webp_codec(&self) -> WebPCodec {
        self.webp_codec
    }

    /// The codec of AVIF that the engine holds.
    pub closed spec fn spec_avif_codec(&self) -> AvifCodec {
        self.avif_codec
    }

    /// The codec of BMP that the engine holds.
    pub closed spec fn spec_bmp_codec(&self) -> BmpCodec {
        self.bmp_codec
    }

    /// The codec of TIFF that the engine holds.
    pub closed spec fn spec_tiff_codec(&self) -> TiffCodec {
        self.tiff_codec
    }

    /// The codec of GIF that the engine holds.
    pub closed spec fn spec_gif_codec(&self) -> GifCodec {
        self.gif_codec
    }

    /// The codec of ICO that the engine holds.
    pub closed spec fn spec_ico_codec(&self) -> IcoCodec {
        self.ico_codec
    }

    /// What is known of the codec of `format`.
    pub fn get_codec_info(format: ImageFormat) -> (info: CodecInfo)
        ensures
            info.format == format,
            info.name@ == format.spec_name(),
            info.version@ == "image-crate-backend"@,
            info.supports_decode,
            info.supports_encode,
            info.performance_level == PerformanceLevel::Balanced,
            info.quality_features == quality_features_of(format),
    {
        let lossless = match format {
            ImageFormat::Png
            | ImageFormat::WebP
            | ImageFormat::Avif
            | ImageFormat::Bmp
            | ImageFormat::Tiff => true,
            _ => false,
        };
        let progressive = match format {
            ImageFormat::Jpeg => true,
            _ => false,
        };
        CodecInfo {
            format,
            name: format.name().to_owned(),
            version: "image-crate-backend".to_owned(),
            supports_decode: true,
            supports_encode: true,
            performance_level: PerformanceLevel::Balanced,
            quality_features: QualityFeatures {
                supports_lossless: lossless,
                supports_lossy: format.supports_lossy(),
                supports_progressive: progressive,
                supports_transparency: format.supports_transparency(),
                supports_animation: format.supports_animation(),
                max_quality_level: 100,
            },
        }
    }

    /// Decodes `data`, declared to be in `format`, into a buffer of pixels
    /// of type `P`. Bytes that do not carry the signature of `format` are
    /// refused as `InvalidFormat` before the codec sees them; what the codec
    /// refuses is a `DecodeError`.
    pub fn decode<P: Pixel<Subpixel = u8>>(&self, data: &[u8], format: ImageFormat) -> (r: Result<
        ImageBuffer<P>,
        ImageError,
    >)
        ensures
            decode_outcome(data@, format, r),
    {
        match format {
            ImageFormat::Jpeg => self.jpeg_codec.decode(data),
            ImageFormat::Png => self.png_codec.decode(data),
            ImageFormat::WebP => self.webp_codec.decode(data),
            ImageFormat::Avif => self.avif_codec.decode(data),
            ImageFormat::Bmp => self.bmp_codec.decode(data),
            ImageFormat::Tiff => self.tiff_codec.decode(data),
            ImageFormat::Gif => self.gif_codec.decode(data),
            ImageFormat::Ico => self.ico_codec.decode(data),
        }
    }

    /// Decodes `data` as `format`, whichever codec that is.
    pub fn decode_as<P: Pixel<Subpixel = u8>>(data: &[u8], format: ImageFormat) -> (r: Result<
        ImageBuffer<P>,
        ImageError,
    >)
        ensures
            decode_outcome(data@, format, r),
    {
        if !FormatDetector::matches_format(data, format) {
            return Err(ImageError::invalid_format(format.name()));
        }
        match image_decode(data, format) {
            Err(message) => Err(
                ImageError::DecodeError { format: format.name().to_owned(), message },
            ),
            Ok((width, height, samples)) => {
                assert(width * height <= 0xffff_ffff * 0xffff_ffff) by (nonlinear_arith)
                    requires
                        0 <= width <= 0xffff_ffff,
                        0 <= height <= 0xffff_ffff,
                ;
                let expected: u128 = 4 * ((width as u128) * (height as u128));
                if samples.len() as u128 != expected {
                    return Err(
                        ImageError::DecodeError {
                            format: format.name().to_owned(),
                            message: "decoded samples do not match the dimensions".to_owned(),
                        },
                    );
                }
                let count = P::channel_count();
                let len: usize = samples.len() / 4;
                let mut pixels: Vec<P> = Vec::new();
                let mut i: usize = 0;
                while i < len
                    invariant
                        i <= len,
                        len == width * height,
                        samples@.len() == 4 * len,
                        samples@.len() <= usize::MAX,
                        pixels@.len() == i,
                        count == P::spec_channel_count(),
                        count == 1 || count == 3 || count == 4,
                        forall|k: int|
                            0 <= k < i ==> #[trigger] pixels@[k].channels() == converted_channels(
                                samples_of(samples@, k),
                                P::spec_channel_count(),
                            ),
                    decreases len - i,
                {
                    let r = samples[4 * i];
                    let g = samples[4 * i + 1];
                    let b = samples[4 * i + 2];
                    let a = samples[4 * i + 3];
                    proof {
                        let px = samples_of(samples@, i as int);
                        assert(px.len() == 4);
                        assert(px[0] == r && px[1] == g && px[2] == b && px[3] == a);
                    }
                    let pixel = if count == 4 {
                        let arr: [u8; 4] = [r, g, b, a];
                        assert(arr@.subrange(0, 4) =~= seq![r, g, b, a]);
                        P::from_channels(arr.as_slice())
                    } else if count == 3 {
                        let arr: [u8; 3] = [r, g, b];
                        assert(arr@.subrange(0, 3) =~= seq![r, g, b]);
                        P::from_channels(arr.as_slice())
                    } else {
                        let y = luma_u8(r, g, b);
                        let arr: [u8; 1] = [y];
                        assert(arr@.subrange(0, 1) =~= seq![y]);
                        P::from_channels(arr.as_slice())
                    };
                    pixels.push(pixel);
                    i += 1;
                }
                let tag = if count == 4 {
                    PixelFormat::Rgba8
                } else if count == 3 {
                    PixelFormat::Rgb8
                } else {
                    PixelFormat::Gray8
                };
                ImageBuffer::from_raw(width, height, pixels, tag)
            },
        }
    }

    /// Encodes `buffer` in `format`. The options are checked against the
    /// format first and the dimensions against its limits; what the codec
    /// refuses is an `EncodeError`.
    pub fn encode<P: Pixel<Subpixel = u8>>(
        &self,
        buffer: &ImageBuffer<P>,
        format: ImageFormat,
        options: &ConversionOptions,
    ) -> (r: Result<Vec<u8>, ImageError>)
        requires
            buffer.wf(),
        ensures
            encode_outcome(*buffer, format, options@, r),
    {
        match format {
            ImageFormat::Jpeg => self.jpeg_codec.encode(buffer, options),
            ImageFormat::Png => self.png_codec.encode(buffer, options),
            ImageFormat::WebP => self.webp_codec.encode(buffer, options),
            ImageFormat::Avif => self.avif_codec.encode(buffer, options),
            ImageFormat::Bmp => self.bmp_codec.encode(buffer, options),
            ImageFormat::Tiff => self.tiff_codec.encode(buffer, options),
            ImageFormat::Gif => self.gif_codec.encode(buffer, options),
            ImageFormat::Ico => self.ico_codec.encode(buffer, options),
        }
    }

    /// Encodes `buffer` in `format`, whichever codec that is.
    pub fn encode_as<P: Pixel<Subpixel = u8>>(
        buffer: &ImageBuffer<P>,
        format: ImageFormat,
        options: &ConversionOptions,
    ) -> (r: Result<Vec<u8>, ImageError>)
        requires
            buffer.wf(),
        ensures
            encode_outcome(*buffer, format, options@, r),
    {
        match options.validate_for(format) {
            Err(e) => {
                return Err(e);
            },
            Ok(()) => {},
        }
        let dims = buffer.dimensions();
        let limit = Self::dimension_limit(format);
        if dims.width < 1 || dims.width > limit || dims.height < 1 || dims.height > limit {
            return Err(
                ImageError::InvalidDimensions {
                    width: dims.width,
                    height: dims.height,
                    reason: "outside the limits of the target format".to_owned(),
                },
            );
        }
        let flat = Self::flatten(buffer);
        proof {
            buffer.lemma_length();
        }
        let written = match format {
            ImageFormat::Png => image_encode_png(
                flat.as_slice(),
                dims.width,
                dims.height,
                Self::png_effort(options),
            ),
            _ => image_encode(
                flat.as_slice(),
                dims.width,
                dims.height,
                format,
                Self::jpeg_quality(options),
            ),
        };
        match written {
            Ok(bytes) => Ok(bytes),
            Err(message) => Err(ImageError::EncodeError { format: format.name().to_owned(), message }),
        }
    }

    /// The effort of the PNG encoder that stands for the compression level
    /// of `options`.
    pub fn png_effort(options: &ConversionOptions) -> (effort: PngEffort)
        ensures
            effort == png_effort_of(options@),
    {
        match options.compression_level() {
            Some(level) => {
                if level <= 3 {
                    PngEffort::Fast
                } else if level <= 6 {
                    PngEffort::Default
                } else {
                    PngEffort::Best
                }
            },
            None => PngEffort::Fast,
        }
    }

    /// The largest width and height written in `format`.
    pub fn dimension_limit(format: ImageFormat) -> (limit: u32)
        ensures
            limit == encode_limit(format),
            limit <= MAX_ENCODE_DIMENSION,
    {
        match format.info().limits.max_width {
            Some(limit) => limit,
            None => MAX_ENCODE_DIMENSION,
        }
    }

    /// The JPEG quality that stands for the quality of `options`.
    pub fn jpeg_quality(options: &ConversionOptions) -> (quality: u8)
        ensures
            quality == jpeg_quality_of(options@),
            1 <= quality <= 100,
    {
        match options.quality() {
            Some(q) => {
                let percent: u16 = (q / 10) + (if q % 10 >= 5 { 1u16 } else { 0u16 });
                if percent < 1 {
                    1
                } else if percent > 100 {
                    100
                } else {
                    percent as u8
                }
            },
            None => DEFAULT_JPEG_QUALITY,
        }
    }

    /// The RGBA samples of `buffer`, four for each pixel.
    pub fn flatten<P: Pixel<Subpixel = u8>>(buffer: &ImageBuffer<P>) -> (flat: Vec<u8>)
        ensures
            flat@ == flattened(buffer@),
            flat@.len() == 4 * buffer@.len(),
    {
        let pixels = buffer.as_slice();
        let count = P::channel_count();
        let mut flat: Vec<u8> = Vec::new();
        let mut i: usize = 0;
        while i < pixels.len()
            invariant
                i <= pixels@.len(),
                pixels@ == buffer@,
                count == P::spec_channel_count(),
                count == 1 || count == 3 || count == 4,
                flat@.len() == 4 * i,
                forall|k: int, c: int|
                    0 <= k < i && 0 <= c < 4 ==> #[trigger] flat@[4 * k + c] == canonical_rgba(
                        pixels@[k].channels(),
                    )[c],
            decreases pixels@.len() - i,
        {
            let ch = pixels[i].to_channels();
            let ghost before = flat@;
            if count == 4 {
                flat.push(ch[0]);
                flat.push(ch[1]);
                flat.push(ch[2]);
                flat.push(ch[3]);
            } else if count == 3 {
                flat.push(ch[0]);
                flat.push(ch[1]);
                flat.push(ch[2]);
                flat.push(255);
            } else {
                flat.push(ch[0]);
                flat.push(ch[0]);
                flat.push(ch[0]);
                flat.push(255);
            }
            proof {
                let rgba = canonical_rgba(pixels@[i as int].channels());
                assert(flat@ =~= before + rgba);
                assert forall|k: int, c: int| 0 <= k < i + 1 && 0 <= c < 4 implies #[trigger] flat@[4
                    * k + c] == canonical_rgba(pixels@[k].channels())[c] by {
                    if k < i {
                        assert(flat@[4 * k + c] == before[4 * k + c]);
                    }
                }
            }
            i += 1;
        }
        proof {
            let target = flattened(buffer@);
            assert forall|j: int| 0 <= j < flat@.len() implies flat@[j] == target[j] by {
                let k = j / 4;
                let c = j % 4;
                assert(j == 4 * k + c);
            }
            assert(flat@ =~= target);
        }
        flat
    }
}

} // verus!
