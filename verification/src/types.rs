//! The format registry: the closed set of container formats with their
//! static capabilities and limits, and the small value types shared by the
//! rest of the crate.

use crate::options::ConversionOptions;
use vstd::prelude::*;

verus! {

/// A supported container format.
#[derive(Debug, Clone, Copy, PartialEq, Eq, Hash, Structural)]
pub enum ImageFormat {
    /// JPEG: lossy, suited to photographs.
    Jpeg,
    /// PNG: lossless, with transparency.
    Png,
    /// WebP: lossy or lossless, with transparency and animation.
    WebP,
    /// AVIF: lossy, with transparency, animation and high dynamic range.
    Avif,
    /// BMP: uncompressed.
    Bmp,
    /// TIFF: lossless, with transparency.
    Tiff,
    /// GIF: palette based, with animation.
    Gif,
    /// ICO: icon container.
    Ico,
}

/// Width and height of an image, in pixels.
#[derive(Debug, Clone, Copy, PartialEq, Eq, Structural)]
pub struct ImageDimensions {
    pub width: u32,
    pub height: u32,
}

/// The capability flags of a format, packed into one byte.
#[derive(Debug, Clone, Copy)]
pub struct FormatCapabilities {
    flags: u8,
}

/// Static limits of a format. `None` means that the format sets no limit.
#[derive(Debug, Clone)]
pub struct FormatLimits {
    pub max_width: Option<u32>,
    pub max_height: Option<u32>,
    pub max_file_size: Option<u64>,
    pub supported_bit_depths: Vec<u8>,
}

/// Everything the registry knows about one format.
pub struct FormatInfo {
    pub name: &'static str,
    pub description: &'static str,
    pub extensions: Vec<&'static str>,
    pub mime_type: &'static str,
    pub capabilities: FormatCapabilities,
    pub limits: FormatLimits,
}

pub const CAP_LOSSY: u8 = 1;

pub const CAP_TRANSPARENCY: u8 = 2;

pub const CAP_ANIMATION: u8 = 4;

pub const CAP_PROGRESSIVE: u8 = 8;

pub const CAP_METADATA: u8 = 16;

pub const CAP_HDR: u8 = 32;

/// Whether `bit` is one of the six capability bits.
pub open spec fn is_capability_bit(bit: u8) -> bool {
    bit == CAP_LOSSY || bit == CAP_TRANSPARENCY || bit == CAP_ANIMATION || bit == CAP_PROGRESSIVE
        || bit == CAP_METADATA || bit == CAP_HDR
}

/// Setting one capability bit sets that capability and changes no other.
pub proof fn lemma_set_capability(flags: u8, bit: u8, other: u8)
    requires
        is_capability_bit(bit),
        is_capability_bit(other),
    ensures
        (flags | bit) & bit != 0,
        other != bit ==> ((flags | bit) & other != 0) == (flags & other != 0),
        flags & bit != 0 ==> flags | bit == flags,
{
    assert((flags | bit) & bit != 0) by (bit_vector)
        requires
            bit == 1 || bit == 2 || bit == 4 || bit == 8 || bit == 16 || bit == 32,
    ;
    assert(other != bit ==> ((flags | bit) & other != 0) == (flags & other != 0)) by (bit_vector)
        requires
            bit == 1 || bit == 2 || bit == 4 || bit == 8 || bit == 16 || bit == 32,
            other == 1 || other == 2 || other == 4 || other == 8 || other == 16 || other == 32,
    ;
    assert(flags & bit != 0 ==> flags | bit == flags) by (bit_vector)
        requires
            bit == 1 || bit == 2 || bit == 4 || bit == 8 || bit == 16 || bit == 32,
    ;
}

impl FormatCapabilities {
    /// The model of a capability set: which of the six capabilities it holds.
    pub closed spec fn has(self, bit: u8) -> bool {
        self.flags & bit != 0
    }

    /// No capability at all.
    pub closed spec fn is_empty(self) -> bool {
        self.flags == 0
    }

    /// `self` holds what `before` held, and `bit` besides.
    pub open spec fn is_with(self, before: Self, bit: u8) -> bool {
        &&& self.has(bit)
        &&& forall|other: u8|
            is_capability_bit(other) && other != bit ==> self.has(other) == before.has(other)
    }

    pub proof fn lemma_empty_has_none(self, bit: u8)
        requires
            self.is_empty(),
        ensures
            !self.has(bit),
    {
        assert(0u8 & bit == 0) by (bit_vector);
    }

    pub fn new() -> (caps: Self)
        ensures
            caps.is_empty(),
            forall|bit: u8| !caps.has(bit),
    {
        let caps = FormatCapabilities { flags: 0 };
        assert forall|bit: u8| !caps.has(bit) by {
            caps.lemma_empty_has_none(bit);
        }
        caps
    }

    fn with_bit(self, bit: u8) -> (caps: Self)
        requires
            is_capability_bit(bit),
        ensures
            caps.is_with(self, bit),
            self.has(bit) ==> caps == self,
    {
        let caps = FormatCapabilities { flags: self.flags | bit };
        proof {
            lemma_set_capability(self.flags, bit, bit);
            assert forall|other: u8| is_capability_bit(other) && other != bit implies caps.has(
                other,
            ) == self.has(other) by {
                lemma_set_capability(self.flags, bit, other);
            }
        }
        caps
    }

    pub fn with_lossy(self) -> (caps: Self)
        ensures
            caps.is_with(self, CAP_LOSSY),
            self.has(CAP_LOSSY) ==> caps == self,
    {
        self.with_bit(CAP_LOSSY)
    }

    pub fn with_transparency(self) -> (caps: Self)
        ensures
            caps.is_with(self, CAP_TRANSPARENCY),
            self.has(CAP_TRANSPARENCY) ==> caps == self,
    {
        self.with_bit(CAP_TRANSPARENCY)
    }

    pub fn with_animation(self) -> (caps: Self)
        ensures
            caps.is_with(self, CAP_ANIMATION),
            self.has(CAP_ANIMATION) ==> caps == self,
    {
        self.with_bit(CAP_ANIMATION)
    }

    pub fn with_progressive(self) -> (caps: Self)
        ensures
            caps.is_with(self, CAP_PROGRESSIVE),
            self.has(CAP_PROGRESSIVE) ==> caps == self,
    {
        self.with_bit(CAP_PROGRESSIVE)
    }

    pub fn with_metadata(self) -> (caps: Self)
        ensures
            caps.is_with(self, CAP_METADATA),
            self.has(CAP_METADATA) ==> caps == self,
    {
        self.with_bit(CAP_METADATA)
    }

    pub fn with_hdr(self) -> (caps: Self)
        ensures
            caps.is_with(self, CAP_HDR),
            self.has(CAP_HDR) ==> caps == self,
    {
        self.with_bit(CAP_HDR)
    }

    pub fn supports_lossy(&self) -> (b: bool)
        ensures
            b == self.has(CAP_LOSSY),
    {
        self.flags & CAP_LOSSY != 0
    }

    pub fn supports_transparency(&self) -> (b: bool)
        ensures
            b == self.has(CAP_TRANSPARENCY),
    {
        self.flags & CAP_TRANSPARENCY != 0
    }

    pub fn supports_animation(&self) -> (b: bool)
        ensures
            b == self.has(CAP_ANIMATION),
    {
        self.flags & CAP_ANIMATION != 0
    }

    pub fn supports_progressive(&self) -> (b: bool)
        ensures
            b == self.has(CAP_PROGRESSIVE),
    {
        self.flags & CAP_PROGRESSIVE != 0
    }

    pub fn supports_metadata(&self) -> (b: bool)
        ensures
            b == self.has(CAP_METADATA),
    {
        self.flags & CAP_METADATA != 0
    }

    pub fn supports_hdr(&self) -> (b: bool)
        ensures
            b == self.has(CAP_HDR),
    {
        self.flags & CAP_HDR != 0
    }
}


/// The views of a list of string slices.
pub open spec fn str_views(v: Seq<&'static str>) -> Seq<Seq<char>> {
    Seq::new(v.len(), |i: int| v[i]@)
}

impl ImageFormat {
    /// The display name of the format.
    pub open spec fn spec_name(self) -> Seq<char> {
        match self {
            ImageFormat::Jpeg => "JPEG"@,
            ImageFormat::Png => "PNG"@,
            ImageFormat::WebP => "WebP"@,
            ImageFormat::Avif => "AVIF"@,
            ImageFormat::Bmp => "BMP"@,
            ImageFormat::Tiff => "TIFF"@,
            ImageFormat::Gif => "GIF"@,
            ImageFormat::Ico => "ICO"@,
        }
    }

    /// What the format is, in a few words.
    pub open spec fn spec_description(self) -> Seq<char> {
        match self {
            ImageFormat::Jpeg => "Joint Photographic Experts Group - 有损压缩，适合照片"@,
            ImageFormat::Png => "Portable Network Graphics - 无损压缩，支持透明度"@,
            ImageFormat::WebP => "Web Picture Format - 现代格式，支持有损和无损"@,
            ImageFormat::Avif => "AV1 Image File Format - 新一代格式，最高压缩比"@,
            ImageFormat::Bmp => "Windows Bitmap - 无压缩，兼容性好"@,
            ImageFormat::Tiff => "Tagged Image File Format - 专业格式，支持多页"@,
            ImageFormat::Gif => "Graphics Interchange Format - 支持动画，256色"@,
            ImageFormat::Ico => "Windows Icon Format - 图标格式，多尺寸"@,
        }
    }

    /// The file extensions of the format, the default one first.
    pub open spec fn spec_extensions(self) -> Seq<Seq<char>> {
        match self {
            ImageFormat::Jpeg => seq!["jpg"@, "jpeg"@],
            ImageFormat::Png => seq!["png"@],
            ImageFormat::WebP => seq!["webp"@],
            ImageFormat::Avif => seq!["avif"@],
            ImageFormat::Bmp => seq!["bmp"@],
            ImageFormat::Tiff => seq!["tiff"@, "tif"@],
            ImageFormat::Gif => seq!["gif"@],
            ImageFormat::Ico => seq!["ico"@],
        }
    }

    /// The MIME type of the format.
    pub open spec fn spec_mime_type(self) -> Seq<char> {
        match self {
            ImageFormat::Jpeg => "image/jpeg"@,
            ImageFormat::Png => "image/png"@,
            ImageFormat::WebP => "image/webp"@,
            ImageFormat::Avif => "image/avif"@,
            ImageFormat::Bmp => "image/bmp"@,
            ImageFormat::Tiff => "image/tiff"@,
            ImageFormat::Gif => "image/gif"@,
            ImageFormat::Ico => "image/x-icon"@,
        }
    }

    /// Whether the format encodes with loss.
    pub open spec fn is_lossy(self) -> bool {
        self == ImageFormat::Jpeg || self == ImageFormat::WebP || self == ImageFormat::Avif
    }

    /// Whether the format carries an alpha channel.
    pub open spec fn has_transparency(self) -> bool {
        self != ImageFormat::Jpeg && self != ImageFormat::Bmp
    }

    /// Whether the format holds more than one frame.
    pub open spec fn has_animation(self) -> bool {
        self == ImageFormat::WebP || self == ImageFormat::Avif || self == ImageFormat::Gif
    }

    /// Whether the format can be written progressively.
    pub open spec fn is_progressive(self) -> bool {
        self == ImageFormat::Jpeg
    }

    /// Whether the format carries metadata.
    pub open spec fn has_metadata(self) -> bool {
        self == ImageFormat::Jpeg || self == ImageFormat::Png || self == ImageFormat::WebP || self
            == ImageFormat::Avif || self == ImageFormat::Tiff
    }

    /// Whether the format holds high dynamic range samples.
    pub open spec fn has_hdr(self) -> bool {
        self == ImageFormat::Avif
    }

    /// The capability table: whether the format has the capability `bit`.
    pub open spec fn spec_capability(self, bit: u8) -> bool {
        if bit == CAP_LOSSY {
            self.is_lossy()
        } else if bit == CAP_TRANSPARENCY {
            self.has_transparency()
        } else if bit == CAP_ANIMATION {
            self.has_animation()
        } else if bit == CAP_PROGRESSIVE {
            self.is_progressive()
        } else if bit == CAP_METADATA {
            self.has_metadata()
        } else if bit == CAP_HDR {
            self.has_hdr()
        } else {
            false
        }
    }

    /// The largest width the format can hold, if it sets one.
    pub open spec fn spec_max_width(self) -> Option<u32> {
        match self {
            ImageFormat::Jpeg => Some(65535u32),
            ImageFormat::WebP => Some(16383u32),
            ImageFormat::Gif => Some(65535u32),
            ImageFormat::Ico => Some(256u32),
            _ => None,
        }
    }

    /// The largest height the format can hold, if it sets one. Every format
    /// here limits height as it limits width.
    pub open spec fn spec_max_height(self) -> Option<u32> {
        self.spec_max_width()
    }

    /// The largest file the format can hold, in bytes, if it sets a limit.
    pub open spec fn spec_max_file_size(self) -> Option<u64> {
        match self {
            ImageFormat::Bmp => Some(4294967296u64),
            ImageFormat::Ico => Some(1048576u64),
            _ => None,
        }
    }

    /// The bit depths per channel that the format supports.
    pub open spec fn spec_bit_depths(self) -> Seq<u8> {
        match self {
            ImageFormat::Jpeg => seq![8u8],
            ImageFormat::Png => seq![8u8, 16u8],
            ImageFormat::WebP => seq![8u8],
            ImageFormat::Avif => seq![8u8, 10u8, 12u8],
            ImageFormat::Bmp => seq![8u8, 16u8, 24u8, 32u8],
            ImageFormat::Tiff => seq![8u8, 16u8, 32u8],
            ImageFormat::Gif => seq![8u8],
            ImageFormat::Ico => seq![8u8, 16u8, 24u8, 32u8],
        }
    }
}

impl FormatLimits {
    /// `self` holds the limits that the registry gives for `format`.
    pub open spec fn describes(self, format: ImageFormat) -> bool {
        &&& self.max_width == format.spec_max_width()
        &&& self.max_height == format.spec_max_height()
        &&& self.max_file_size == format.spec_max_file_size()
        &&& self.supported_bit_depths@ == format.spec_bit_depths()
    }
}

impl FormatInfo {
    /// `self` is the registry entry of `format`.
    pub open spec fn describes(self, format: ImageFormat) -> bool {
        &&& self.name@ == format.spec_name()
        &&& self.description@ == format.spec_description()
        &&& str_views(self.extensions@) == format.spec_extensions()
        &&& self.mime_type@ == format.spec_mime_type()
        &&& forall|bit: u8| #[trigger]
            is_capability_bit(bit) ==> self.capabilities.has(bit) == format.spec_capability(bit)
        &&& self.limits.describes(format)
    }
}

impl ImageFormat {
    /// Looks the format up in the registry.
    pub fn info(&self) -> (info: FormatInfo)
        ensures
            info.describes(*self),
    {
        let info = match self {
            ImageFormat::Jpeg => FormatInfo {
                name: "JPEG",
                description: "Joint Photographic Experts Group - 有损压缩，适合照片",
                extensions: vec!["jpg", "jpeg"],
                mime_type: "image/jpeg",
                capabilities: FormatCapabilities::new().with_lossy().with_progressive().with_metadata(),
                limits: FormatLimits {
                    max_width: Some(65535),
                    max_height: Some(65535),
                    max_file_size: None,
                    supported_bit_depths: vec![8],
                },
            },
            ImageFormat::Png => FormatInfo {
                name: "PNG",
                description: "Portable Network Graphics - 无损压缩，支持透明度",
                extensions: vec!["png"],
                mime_type: "image/png",
                capabilities: FormatCapabilities::new().with_transparency().with_metadata(),
                limits: FormatLimits {
                    max_width: None,
                    max_height: None,
                    max_file_size: None,
                    supported_bit_depths: vec![8, 16],
                },
            },
            ImageFormat::WebP => FormatInfo {
                name: "WebP",
                description: "Web Picture Format - 现代格式，支持有损和无损",
                extensions: vec!["webp"],
                mime_type: "image/webp",
                capabilities: FormatCapabilities::new().with_lossy().with_transparency().with_animation().with_metadata(),
                limits: FormatLimits {
                    max_width: Some(16383),
                    max_height: Some(16383),
                    max_file_size: None,
                    supported_bit_depths: vec![8],
                },
            },
            ImageFormat::Avif => FormatInfo {
                name: "AVIF",
                description: "AV1 Image File Format - 新一代格式，最高压缩比",
                extensions: vec!["avif"],
                mime_type: "image/avif",
                capabilities: FormatCapabilities::new().with_lossy().with_transparency().with_animation().with_hdr().with_metadata(),
                limits: FormatLimits {
                    max_width: None,
                    max_height: None,
                    max_file_size: None,
                    supported_bit_depths: vec![8, 10, 12],
                },
            },
            ImageFormat::Bmp => FormatInfo {
                name: "BMP",
                description: "Windows Bitmap - 无压缩，兼容性好",
                extensions: vec!["bmp"],
                mime_type: "image/bmp",
                capabilities: FormatCapabilities::new(),
                limits: FormatLimits {
                    max_width: None,
                    max_height: None,
                    max_file_size: Some(4294967296),
                    supported_bit_depths: vec![8, 16, 24, 32],
                },
            },
            ImageFormat::Tiff => FormatInfo {
                name: "TIFF",
                description: "Tagged Image File Format - 专业格式，支持多页",
                extensions: vec!["tiff", "tif"],
                mime_type: "image/tiff",
                capabilities: FormatCapabilities::new().with_transparency().with_metadata(),
                limits: FormatLimits {
                    max_width: None,
                    max_height: None,
                    max_file_size: None,
                    supported_bit_depths: vec![8, 16, 32],
                },
            },
            ImageFormat::Gif => FormatInfo {
                name: "GIF",
                description: "Graphics Interchange Format - 支持动画，256色",
                extensions: vec!["gif"],
                mime_type: "image/gif",
                capabilities: FormatCapabilities::new().with_transparency().with_animation(),
                limits: FormatLimits {
                    max_width: Some(65535),
                    max_height: Some(65535),
                    max_file_size: None,
                    supported_bit_depths: vec![8],
                },
            },
            ImageFormat::Ico => FormatInfo {
                name: "ICO",
                description: "Windows Icon Format - 图标格式，多尺寸",
                extensions: vec!["ico"],
                mime_type: "image/x-icon",
                capabilities: FormatCapabilities::new().with_transparency(),
                limits: FormatLimits {
                    max_width: Some(256),
                    max_height: Some(256),
                    max_file_size: Some(1048576),
                    supported_bit_depths: vec![8, 16, 24, 32],
                },
            },
        };
        assert(str_views(info.extensions@) =~= self.spec_extensions());
        assert(info.limits.supported_bit_depths@ =~= self.spec_bit_depths());
        info
    }

    /// The display name of the format.
    pub fn name(&self) -> (name: &'static str)
        ensures
            name@ == self.spec_name(),
    {
        match self {
            ImageFormat::Jpeg => "JPEG",
            ImageFormat::Png => "PNG",
            ImageFormat::WebP => "WebP",
            ImageFormat::Avif => "AVIF",
            ImageFormat::Bmp => "BMP",
            ImageFormat::Tiff => "TIFF",
            ImageFormat::Gif => "GIF",
            ImageFormat::Ico => "ICO",
        }
    }

    /// The default file extension of the format.
    pub fn extension(&self) -> (ext: &'static str)
        ensures
            ext@ == self.spec_extensions()[0],
    {
        let info = self.info();
        assert(self.spec_extensions().len() >= 1);
        assert(str_views(info.extensions@).len() == info.extensions@.len());
        assert(str_views(info.extensions@)[0] == info.extensions@[0]@);
        info.extensions[0]
    }

    /// The MIME type of the format.
    pub fn mime_type(&self) -> (mime: &'static str)
        ensures
            mime@ == self.spec_mime_type(),
    {
        self.info().mime_type
    }

    pub fn supports_lossy(&self) -> (b: bool)
        ensures
            b == self.is_lossy(),
    {
        assert(is_capability_bit(CAP_LOSSY));
        self.info().capabilities.supports_lossy()
    }

    pub fn supports_transparency(&self) -> (b: bool)
        ensures
            b == self.has_transparency(),
    {
        assert(is_capability_bit(CAP_TRANSPARENCY));
        self.info().capabilities.supports_transparency()
    }

    pub fn supports_animation(&self) -> (b: bool)
        ensures
            b == self.has_animation(),
    {
        assert(is_capability_bit(CAP_ANIMATION));
        self.info().capabilities.supports_animation()
    }
}


impl ImageFormat {
    /// The position of the format in the registry.
    pub open spec fn rank(self) -> nat {
        match self {
            ImageFormat::Jpeg => 0,
            ImageFormat::Png => 1,
            ImageFormat::WebP => 2,
            ImageFormat::Avif => 3,
            ImageFormat::Bmp => 4,
            ImageFormat::Tiff => 5,
            ImageFormat::Gif => 6,
            ImageFormat::Ico => 7,
        }
    }

    /// The position of the format in the registry.
    pub fn index(self) -> (i: usize)
        ensures
            i == self.rank(),
            i < 8,
    {
        match self {
            ImageFormat::Jpeg => 0,
            ImageFormat::Png => 1,
            ImageFormat::WebP => 2,
            ImageFormat::Avif => 3,
            ImageFormat::Bmp => 4,
            ImageFormat::Tiff => 5,
            ImageFormat::Gif => 6,
            ImageFormat::Ico => 7,
        }
    }
}

/// One request of a batch: the declared source format, the target format,
/// and the options, if the caller gives any.
#[derive(Debug, Clone)]
pub struct ConversionTask {
    pub from_format: ImageFormat,
    pub to_format: ImageFormat,
    pub options: Option<ConversionOptions>,
}

/// Encoded bytes with their declared format and, where known, the name of
/// the file they came from.
#[derive(Debug, Clone)]
pub struct ImageInput {
    data: Vec<u8>,
    format: ImageFormat,
    filename: Option<String>,
}

impl ImageInput {
    /// The encoded bytes.
    pub closed spec fn spec_data(&self) -> Seq<u8> {
        self.data@
    }

    /// The declared format.
    pub closed spec fn spec_format(&self) -> ImageFormat {
        self.format
    }

    /// The file name, if there is one.
    pub closed spec fn spec_filename(&self) -> Option<Seq<char>> {
        match self.filename {
            Some(name) => Some(name@),
            None => None,
        }
    }

    /// An input without a file name.
    pub fn new(data: Vec<u8>, format: ImageFormat) -> (input: Self)
        ensures
            input.spec_data() == data@,
            input.spec_format() == format,
            input.spec_filename() is None,
    {
        ImageInput { data, format, filename: None }
    }

    /// An input that came from the file `filename`.
    pub fn with_filename(data: Vec<u8>, format: ImageFormat, filename: String) -> (input: Self)
        ensures
            input.spec_data() == data@,
            input.spec_format() == format,
            input.spec_filename() == Some(filename@),
    {
        ImageInput { data, format, filename: Some(filename) }
    }

    /// The encoded bytes.
    pub fn data(&self) -> (data: &[u8])
        ensures
            data@ == self.spec_data(),
    {
        self.data.as_slice()
    }

    /// The declared format.
    pub fn format(&self) -> (format: ImageFormat)
        ensures
            format == self.spec_format(),
    {
        self.format
    }

    /// The file name, if there is one.
    pub fn filename(&self) -> (name: Option<&str>)
        ensures
            match name {
                Some(n) => self.spec_filename() == Some(n@),
                None => self.spec_filename() is None,
            },
    {
        match &self.filename {
            Some(name) => Some(name.as_str()),
            None => None,
        }
    }

    /// The number of encoded bytes.
    pub fn size(&self) -> (n: usize)
        ensures
            n == self.spec_data().len(),
    {
        self.data.len()
    }
}

} // verus!
