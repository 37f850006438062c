//! Format detection: the container format of a byte sequence, told from its
//! leading bytes alone.

use crate::codecs::CodecFactory;
use crate::error::ImageError;
use crate::types::ImageFormat;
use vstd::prelude::*;

verus! {

/// The fewest bytes from which a format is told.
pub const MIN_HEADER_LEN: usize = 8;

/// Whether `bytes` holds `pattern` at `offset`.
pub open spec fn has_at(bytes: Seq<u8>, offset: int, pattern: Seq<u8>) -> bool {
    &&& offset + pattern.len() <= bytes.len()
    &&& forall|i: int| 0 <= i < pattern.len() ==> bytes[offset + i] == #[trigger] pattern[i]
}

pub open spec fn jpeg_magic() -> Seq<u8> {
    seq![0xFFu8, 0xD8u8, 0xFFu8]
}

pub open spec fn png_magic() -> Seq<u8> {
    seq![0x89u8, 0x50u8, 0x4Eu8, 0x47u8, 0x0Du8, 0x0Au8, 0x1Au8, 0x0Au8]
}

/// `RIFF`.
pub open spec fn riff_magic() -> Seq<u8> {
    seq![0x52u8, 0x49u8, 0x46u8, 0x46u8]
}

/// `WEBP`.
pub open spec fn webp_magic() -> Seq<u8> {
    seq![0x57u8, 0x45u8, 0x42u8, 0x50u8]
}

/// `ftypavif`.
pub open spec fn avif_magic() -> Seq<u8> {
    seq![0x66u8, 0x74u8, 0x79u8, 0x70u8, 0x61u8, 0x76u8, 0x69u8, 0x66u8]
}

/// `BM`.
pub open spec fn bmp_magic() -> Seq<u8> {
    seq![0x42u8, 0x4Du8]
}

/// `II*\0`, little-endian TIFF.
pub open spec fn tiff_le_magic() -> Seq<u8> {
    seq![0x49u8, 0x49u8, 0x2Au8, 0x00u8]
}

/// `MM\0*`, big-endian TIFF.
pub open spec fn tiff_be_magic() -> Seq<u8> {
    seq![0x4Du8, 0x4Du8, 0x00u8, 0x2Au8]
}

/// `GIF87a`.
pub open spec fn gif87_magic() -> Seq<u8> {
    seq![0x47u8, 0x49u8, 0x46u8, 0x38u8, 0x37u8, 0x61u8]
}

/// `GIF89a`.
pub open spec fn gif89_magic() -> Seq<u8> {
    seq![0x47u8, 0x49u8, 0x46u8, 0x38u8, 0x39u8, 0x61u8]
}

pub open spec fn ico_magic() -> Seq<u8> {
    seq![0x00u8, 0x00u8, 0x01u8, 0x00u8]
}

/// Whether `bytes` begins with the signature of `format`. In WebP four
/// bytes of any value stand between `RIFF` and `WEBP`; in AVIF four bytes
/// of any value come before `ftypavif`.
pub open spec fn has_signature(bytes: Seq<u8>, format: ImageFormat) -> bool {
    match format {
        ImageFormat::Jpeg => has_at(bytes, 0, jpeg_magic()),
        ImageFormat::Png => has_at(bytes, 0, png_magic()),
        ImageFormat::WebP => has_at(bytes, 0, riff_magic()) && has_at(bytes, 8, webp_magic()),
        ImageFormat::Avif => has_at(bytes, 4, avif_magic()),
        ImageFormat::Bmp => has_at(bytes, 0, bmp_magic()),
        ImageFormat::Tiff => has_at(bytes, 0, tiff_le_magic()) || has_at(bytes, 0, tiff_be_magic()),
        ImageFormat::Gif => has_at(bytes, 0, gif87_magic()) || has_at(bytes, 0, gif89_magic()),
        ImageFormat::Ico => has_at(bytes, 0, ico_magic()),
    }
}

/// Whether `bytes` can be read as `format`: it holds at least eight bytes
/// and begins with the signature of `format`.
pub open spec fn matches_format(bytes: Seq<u8>, format: ImageFormat) -> bool {
    bytes.len() >= MIN_HEADER_LEN && has_signature(bytes, format)
}

/// The format detected in `bytes`: that of the first signature found, the
/// signatures being tried in the order JPEG, PNG, WebP, AVIF, BMP, TIFF,
/// GIF, ICO. Fewer than eight bytes hold no format.
pub open spec fn detected_format(bytes: Seq<u8>) -> Option<ImageFormat> {
    if bytes.len() < MIN_HEADER_LEN {
        None
    } else if has_signature(bytes, ImageFormat::Jpeg) {
        Some(ImageFormat::Jpeg)
    } else if has_signature(bytes, ImageFormat::Png) {
        Some(ImageFormat::Png)
    } else if has_signature(bytes, ImageFormat::WebP) {
        Some(ImageFormat::WebP)
    } else if has_signature(bytes, ImageFormat::Avif) {
        Some(ImageFormat::Avif)
    } else if has_signature(bytes, ImageFormat::Bmp) {
        Some(ImageFormat::Bmp)
    } else if has_signature(bytes, ImageFormat::Tiff) {
        Some(ImageFormat::Tiff)
    } else if has_signature(bytes, ImageFormat::Gif) {
        Some(ImageFormat::Gif)
    } else if has_signature(bytes, ImageFormat::Ico) {
        Some(ImageFormat::Ico)
    } else {
        None
    }
}

/// Whether `data` holds `pattern` at `offset`.
fn bytes_at(data: &[u8], offset: usize, pattern: &[u8]) -> (found: bool)
    requires
        offset + pattern@.len() <= usize::MAX,
    ensures
        found == has_at(data@, offset as int, pattern@),
{
    if pattern.len() > data.len() || offset > data.len() - pattern.len() {
        return false;
    }
    let mut i: usize = 0;
    while i < pattern.len()
        invariant
            i <= pattern@.len(),
            offset + pattern@.len() <= data@.len() <= usize::MAX,
            forall|k: int| 0 <= k < i ==> data@[offset + k] == #[trigger] pattern@[k],
        decreases pattern@.len() - i,
    {
        if data[offset + i] != pattern[i] {
            return false;
        }
        i += 1;
    }
    true
}

/// Tells formats from leading bytes.
pub struct FormatDetector;

impl FormatDetector {
    /// The format of `data`, told from its signature. Fails on fewer than
    /// eight bytes and on bytes that carry no known signature.
    pub fn detect_format(data: &[u8]) -> (r: Result<ImageFormat, ImageError>)
        ensures
            match r {
                Ok(format) => detected_format(data@) == Some(format),
                Err(e) => detected_format(data@) is None && (e matches ImageError::InvalidFormat {
                    format,
                } && format@ == "unknown"@),
            },
    {
        match Self::detect_from_header(data) {
            Some(format) => Ok(format),
            None => Err(ImageError::invalid_format("unknown")),
        }
    }

    /// The format whose signature `header` begins with, if any.
    pub fn detect_from_header(header: &[u8]) -> (r: Option<ImageFormat>)
        ensures
            r == detected_format(header@),
    {
        if header.len() < MIN_HEADER_LEN {
            None
        } else if Self::has_format_signature(header, ImageFormat::Jpeg) {
            Some(ImageFormat::Jpeg)
        } else if Self::has_format_signature(header, ImageFormat::Png) {
            Some(ImageFormat::Png)
        } else if Self::has_format_signature(header, ImageFormat::WebP) {
            Some(ImageFormat::WebP)
        } else if Self::has_format_signature(header, ImageFormat::Avif) {
            Some(ImageFormat::Avif)
        } else if Self::has_format_signature(header, ImageFormat::Bmp) {
            Some(ImageFormat::Bmp)
        } else if Self::has_format_signature(header, ImageFormat::Tiff) {
            Some(ImageFormat::Tiff)
        } else if Self::has_format_signature(header, ImageFormat::Gif) {
            Some(ImageFormat::Gif)
        } else if Self::has_format_signature(header, ImageFormat::Ico) {
            Some(ImageFormat::Ico)
        } else {
            None
        }
    }

    /// Whether `data` begins with the signature of `format`.
    pub fn has_format_signature(data: &[u8], format: ImageFormat) -> (b: bool)
        ensures
            b == has_signature(data@, format),
    {
        match format {
            ImageFormat::Jpeg => {
                let magic: [u8; 3] = [0xFF, 0xD8, 0xFF];
                assert(magic@ =~= jpeg_magic());
                bytes_at(data, 0, magic.as_slice())
            },
            ImageFormat::Png => {
                let magic: [u8; 8] = [0x89, 0x50, 0x4E, 0x47, 0x0D, 0x0A, 0x1A, 0x0A];
                assert(magic@ =~= png_magic());
                bytes_at(data, 0, magic.as_slice())
            },
            ImageFormat::WebP => {
                let riff: [u8; 4] = [0x52, 0x49, 0x46, 0x46];
                let webp: [u8; 4] = [0x57, 0x45, 0x42, 0x50];
                assert(riff@ =~= riff_magic());
                assert(webp@ =~= webp_magic());
                bytes_at(data, 0, riff.as_slice()) && bytes_at(data, 8, webp.as_slice())
            },
            ImageFormat::Avif => {
                let magic: [u8; 8] = [0x66, 0x74, 0x79, 0x70, 0x61, 0x76, 0x69, 0x66];
                assert(magic@ =~= avif_magic());
                bytes_at(data, 4, magic.as_slice())
            },
            ImageFormat::Bmp => {
                let magic: [u8; 2] = [0x42, 0x4D];
                assert(magic@ =~= bmp_magic());
                bytes_at(data, 0, magic.as_slice())
            },
            ImageFormat::Tiff => {
                let little: [u8; 4] = [0x49, 0x49, 0x2A, 0x00];
                let big: [u8; 4] = [0x4D, 0x4D, 0x00, 0x2A];
                assert(little@ =~= tiff_le_magic());
                assert(big@ =~= tiff_be_magic());
                bytes_at(data, 0, little.as_slice()) || bytes_at(data, 0, big.as_slice())
            },
            ImageFormat::Gif => {
                let gif87: [u8; 6] = [0x47, 0x49, 0x46, 0x38, 0x37, 0x61];
                let gif89: [u8; 6] = [0x47, 0x49, 0x46, 0x38, 0x39, 0x61];
                assert(gif87@ =~= gif87_magic());
                assert(gif89@ =~= gif89_magic());
                bytes_at(data, 0, gif87.as_slice()) || bytes_at(data, 0, gif89.as_slice())
            },
            ImageFormat::Ico => {
                let magic: [u8; 4] = [0x00, 0x00, 0x01, 0x00];
                assert(magic@ =~= ico_magic());
                bytes_at(data, 0, magic.as_slice())
            },
        }
    }

    /// Whether `data` is long enough to tell a format from and begins with
    /// the signature of `format`.
    pub fn matches_format(data: &[u8], format: ImageFormat) -> (b: bool)
        ensures
            b == matches_format(data@, format),
    {
        data.len() >= MIN_HEADER_LEN && Self::has_format_signature(data, format)
    }

    /// Whether the engine handles `format`.
    pub fn is_supported(format: ImageFormat) -> (b: bool)
        ensures
            b,
    {
        CodecFactory::is_format_supported(format)
    }
}

/// What is detected carries the signature of the detected format, in at
/// least eight bytes.
pub proof fn lemma_detected_has_signature(bytes: Seq<u8>, format: ImageFormat)
    requires
        detected_format(bytes) == Some(format),
    ensures
        has_signature(bytes, format),
        bytes.len() >= MIN_HEADER_LEN,
{
}

/// Nothing is detected in fewer than eight bytes, the empty sequence
/// included, and such bytes match no format.
pub proof fn lemma_short_input_undetected(bytes: Seq<u8>)
    requires
        bytes.len() < MIN_HEADER_LEN,
    ensures
        detected_format(bytes) is None,
        forall|format: ImageFormat| !matches_format(bytes, format),
{
}

/// Apart from AVIF, whose signature leaves the first four bytes open, no
/// two formats share a signature.
pub proof fn lemma_signatures_exclusive(bytes: Seq<u8>, f: ImageFormat, g: ImageFormat)
    requires
        has_signature(bytes, f),
        has_signature(bytes, g),
        f != ImageFormat::Avif,
        g != ImageFormat::Avif,
    ensures
        f == g,
{
    lemma_first_byte(bytes, f);
    lemma_first_byte(bytes, g);
}

/// The first byte of a sequence with the signature of a format other than
/// AVIF: no two of these formats begin with the same byte.
proof fn lemma_first_byte(bytes: Seq<u8>, f: ImageFormat)
    requires
        has_signature(bytes, f),
        f != ImageFormat::Avif,
    ensures
        bytes.len() >= 2,
        match f {
            ImageFormat::Jpeg => bytes[0] == 0xFF,
            ImageFormat::Png => bytes[0] == 0x89,
            ImageFormat::WebP => bytes[0] == 0x52,
            ImageFormat::Avif => true,
            ImageFormat::Bmp => bytes[0] == 0x42,
            ImageFormat::Tiff => bytes[0] == 0x49 || bytes[0] == 0x4D,
            ImageFormat::Gif => bytes[0] == 0x47,
            ImageFormat::Ico => bytes[0] == 0x00,
        },
{
    match f {
        ImageFormat::Jpeg => {
            assert(jpeg_magic()[0] == 0xFF);
        },
        ImageFormat::Png => {
            assert(png_magic()[0] == 0x89);
        },
        ImageFormat::WebP => {
            assert(riff_magic()[0] == 0x52);
        },
        ImageFormat::Avif => {},
        ImageFormat::Bmp => {
            assert(bmp_magic()[0] == 0x42);
        },
        ImageFormat::Tiff => {
            assert(tiff_le_magic()[0] == 0x49);
            assert(tiff_be_magic()[0] == 0x4D);
        },
        ImageFormat::Gif => {
            assert(gif87_magic()[0] == 0x47);
            assert(gif89_magic()[0] == 0x47);
        },
        ImageFormat::Ico => {
            assert(ico_magic()[0] == 0x00);
        },
    }
}

/// A sequence of at least eight bytes that begins with the signature of a
/// format is detected as that format, unless it also carries the signature
/// of AVIF, or, for AVIF itself, that of JPEG or PNG, which are tried first.
pub proof fn lemma_signature_detected(bytes: Seq<u8>, format: ImageFormat)
    requires
        bytes.len() >= MIN_HEADER_LEN,
        has_signature(bytes, format),
        format != ImageFormat::Avif ==> !has_signature(bytes, ImageFormat::Avif),
        format == ImageFormat::Avif ==> !has_signature(bytes, ImageFormat::Jpeg) && !has_signature(
            bytes,
            ImageFormat::Png,
        ),
    ensures
        detected_format(bytes) == Some(format),
{
    if format == ImageFormat::Avif {
        // WebP holds `WEBP` where AVIF holds `avif`.
        if has_signature(bytes, ImageFormat::WebP) {
            assert(webp_magic()[0] == 0x57);
            assert(avif_magic()[4] == 0x61);
            assert(bytes[8int + 0] == 0x57);
            assert(bytes[4int + 4] == 0x61);
        }
    } else {
        let d = detected_format(bytes);
        assert(d is Some);
        let g = d->0;
        lemma_detected_has_signature(bytes, g);
        lemma_signatures_exclusive(bytes, format, g);
    }
}

} // verus!
