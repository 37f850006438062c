//! Format hints: what a file name or a MIME type suggests about a format.
//! These are guesses for callers who hold no bytes; detection proper reads
//! signatures and never looks at names.

use crate::detector::{detected_format, has_signature, FormatDetector, MIN_HEADER_LEN};
use crate::error::{str_eq, ImageError};
use crate::types::ImageFormat;
use vstd::prelude::*;
use vstd::string::StrSliceExecFns;
use vstd::string::StringExecFns;
use vstd::string::StringSliceAdditionalSpecFns;

verus! {

/// The byte of a full stop.
pub const DOT: u8 = 0x2E;

/// The small form of a letter from `A` to `Z`; any other byte is itself.
pub open spec fn lower_byte(b: u8) -> u8 {
    if 0x41 <= b <= 0x5A {
        (b + 32) as u8
    } else {
        b
    }
}

/// `bytes` with its letters from `A` to `Z` made small.
pub open spec fn lowered(bytes: Seq<u8>) -> Seq<u8> {
    Seq::new(bytes.len(), |i: int| lower_byte(bytes[i]))
}

/// The position just after the last full stop among the first `n` bytes,
/// or 0 where there is none.
pub open spec fn extension_start(bytes: Seq<u8>, n: int) -> int
    decreases n,
{
    if n <= 0 {
        0
    } else if bytes[n - 1] == DOT {
        n
    } else {
        extension_start(bytes, n - 1)
    }
}

/// What follows the last full stop of a name, and the whole name where it
/// has none.
pub open spec fn extension_of(name: Seq<u8>) -> Seq<u8> {
    name.subrange(extension_start(name, name.len() as int), name.len() as int)
}

/// The format that a small-letter extension or format name stands for,
/// the name being given as its bytes: `jpg` and `jpeg`, `png`, `webp`,
/// `avif`, `bmp`, `tiff` and `tif`, `gif`, `ico`.
pub open spec fn named_format(name: Seq<u8>) -> Option<ImageFormat> {
    if name == seq![0x6Au8, 0x70u8, 0x67u8] || name == seq![0x6Au8, 0x70u8, 0x65u8, 0x67u8] {
        Some(ImageFormat::Jpeg)
    } else if name == seq![0x70u8, 0x6Eu8, 0x67u8] {
        Some(ImageFormat::Png)
    } else if name == seq![0x77u8, 0x65u8, 0x62u8, 0x70u8] {
        Some(ImageFormat::WebP)
    } else if name == seq![0x61u8, 0x76u8, 0x69u8, 0x66u8] {
        Some(ImageFormat::Avif)
    } else if name == seq![0x62u8, 0x6Du8, 0x70u8] {
        Some(ImageFormat::Bmp)
    } else if name == seq![0x74u8, 0x69u8, 0x66u8, 0x66u8] || name == seq![0x74u8, 0x69u8, 0x66u8] {
        Some(ImageFormat::Tiff)
    } else if name == seq![0x67u8, 0x69u8, 0x66u8] {
        Some(ImageFormat::Gif)
    } else if name == seq![0x69u8, 0x63u8, 0x6Fu8] {
        Some(ImageFormat::Ico)
    } else {
        None
    }
}

/// The start of the extension lies within the name, no full stop follows
/// it, and one comes just before it unless it is the start of the name.
pub proof fn lemma_extension_start(bytes: Seq<u8>, n: int)
    requires
        0 <= n <= bytes.len(),
    ensures
        0 <= extension_start(bytes, n) <= n,
        forall|i: int| extension_start(bytes, n) <= i < n ==> bytes[i] != DOT,
        extension_start(bytes, n) > 0 ==> bytes[extension_start(bytes, n) - 1] == DOT,
    decreases n,
{
    if n > 0 && bytes[n - 1] != DOT {
        lemma_extension_start(bytes, n - 1);
    }
}

/// Whether `data`, from `start` on, is `word` but for the size of its
/// letters.
fn tail_is(data: &[u8], start: usize, word: &[u8]) -> (same: bool)
    requires
        start <= data@.len(),
    ensures
        same == (lowered(data@.subrange(start as int, data@.len() as int)) == word@),
{
    let ghost tail = data@.subrange(start as int, data@.len() as int);
    if data.len() - start != word.len() {
        assert(lowered(tail).len() != word@.len());
        return false;
    }
    let mut i: usize = 0;
    while i < word.len()
        invariant
            i <= word@.len(),
            start + word@.len() == data@.len(),
            data@.len() <= usize::MAX,
            tail == data@.subrange(start as int, data@.len() as int),
            forall|k: int| 0 <= k < i ==> lowered(tail)[k] == word@[k],
        decreases word@.len() - i,
    {
        let b = data[start + i];
        let low = if 0x41 <= b && b <= 0x5A {
            b + 32
        } else {
            b
        };
        assert(lowered(tail)[i as int] == low);
        if low != word[i] {
            return false;
        }
        i += 1;
    }
    assert(lowered(tail) =~= word@);
    true
}

/// The format that the text from `start` on names, but for the size of
/// its letters.
fn named_format_at(data: &[u8], start: usize) -> (r: Option<ImageFormat>)
    requires
        start <= data@.len(),
    ensures
        r == named_format(lowered(data@.subrange(start as int, data@.len() as int))),
{
    let jpg: [u8; 3] = [0x6A, 0x70, 0x67];
    let jpeg: [u8; 4] = [0x6A, 0x70, 0x65, 0x67];
    let png: [u8; 3] = [0x70, 0x6E, 0x67];
    let webp: [u8; 4] = [0x77, 0x65, 0x62, 0x70];
    let avif: [u8; 4] = [0x61, 0x76, 0x69, 0x66];
    let bmp: [u8; 3] = [0x62, 0x6D, 0x70];
    let tiff: [u8; 4] = [0x74, 0x69, 0x66, 0x66];
    let tif: [u8; 3] = [0x74, 0x69, 0x66];
    let gif: [u8; 3] = [0x67, 0x69, 0x66];
    let ico: [u8; 3] = [0x69, 0x63, 0x6F];
    assert(jpg@ =~= seq![0x6Au8, 0x70u8, 0x67u8]);
    assert(jpeg@ =~= seq![0x6Au8, 0x70u8, 0x65u8, 0x67u8]);
    assert(png@ =~= seq![0x70u8, 0x6Eu8, 0x67u8]);
    assert(webp@ =~= seq![0x77u8, 0x65u8, 0x62u8, 0x70u8]);
    assert(avif@ =~= seq![0x61u8, 0x76u8, 0x69u8, 0x66u8]);
    assert(bmp@ =~= seq![0x62u8, 0x6Du8, 0x70u8]);
    assert(tiff@ =~= seq![0x74u8, 0x69u8, 0x66u8, 0x66u8]);
    assert(tif@ =~= seq![0x74u8, 0x69u8, 0x66u8]);
    assert(gif@ =~= seq![0x67u8, 0x69u8, 0x66u8]);
    assert(ico@ =~= seq![0x69u8, 0x63u8, 0x6Fu8]);
    if tail_is(data, start, jpg.as_slice()) || tail_is(data, start, jpeg.as_slice()) {
        Some(ImageFormat::Jpeg)
    } else if tail_is(data, start, png.as_slice()) {
        Some(ImageFormat::Png)
    } else if tail_is(data, start, webp.as_slice()) {
        Some(ImageFormat::WebP)
    } else if tail_is(data, start, avif.as_slice()) {
        Some(ImageFormat::Avif)
    } else if tail_is(data, start, bmp.as_slice()) {
        Some(ImageFormat::Bmp)
    } else if tail_is(data, start, tiff.as_slice()) || tail_is(data, start, tif.as_slice()) {
        Some(ImageFormat::Tiff)
    } else if tail_is(data, start, gif.as_slice()) {
        Some(ImageFormat::Gif)
    } else if tail_is(data, start, ico.as_slice()) {
        Some(ImageFormat::Ico)
    } else {
        None
    }
}

/// The format that the extension of `filename` suggests: the extension is
/// what follows the last full stop, or the whole name where there is none,
/// and the size of its letters does not count.
pub fn detect_format_from_extension(filename: &str) -> (r: Option<ImageFormat>)
    ensures
        r == named_format(lowered(extension_of(filename.spec_bytes()))),
{
    let bytes = filename.as_bytes();
    let mut start: usize = bytes.len();
    while start > 0 && bytes[start - 1] != DOT
        invariant
            start <= bytes@.len(),
            extension_start(bytes@, bytes@.len() as int) == extension_start(bytes@, start as int),
        decreases start,
    {
        start -= 1;
    }
    named_format_at(bytes, start)
}

/// The format that `format_str` names, the size of its letters not
/// counting; a name that stands for no format is refused.
pub fn format_from_string(format_str: &str) -> (r: Result<ImageFormat, ImageError>)
    ensures
        match r {
            Ok(format) => named_format(lowered(format_str.spec_bytes())) == Some(format),
            Err(e) => named_format(lowered(format_str.spec_bytes())) is None && (
            e matches ImageError::UnsupportedFormat { format, .. } && format@ == format_str@),
        },
{
    let bytes = format_str.as_bytes();
    assert(bytes@.subrange(0, bytes@.len() as int) =~= bytes@);
    match named_format_at(bytes, 0) {
        Some(format) => Ok(format),
        None => Err(
            ImageError::UnsupportedFormat { format: format_str.to_owned(), supported: Vec::new() },
        ),
    }
}

/// The small-letter name of each format.
pub open spec fn format_name(format: ImageFormat) -> Seq<char> {
    match format {
        ImageFormat::Jpeg => "jpeg"@,
        ImageFormat::Png => "png"@,
        ImageFormat::WebP => "webp"@,
        ImageFormat::Avif => "avif"@,
        ImageFormat::Bmp => "bmp"@,
        ImageFormat::Tiff => "tiff"@,
        ImageFormat::Gif => "gif"@,
        ImageFormat::Ico => "ico"@,
    }
}

/// The small-letter name of `format`.
pub fn format_to_string(format: ImageFormat) -> (name: String)
    ensures
        name@ == format_name(format),
{
    match format {
        ImageFormat::Jpeg => "jpeg".to_owned(),
        ImageFormat::Png => "png".to_owned(),
        ImageFormat::WebP => "webp".to_owned(),
        ImageFormat::Avif => "avif".to_owned(),
        ImageFormat::Bmp => "bmp".to_owned(),
        ImageFormat::Tiff => "tiff".to_owned(),
        ImageFormat::Gif => "gif".to_owned(),
        ImageFormat::Ico => "ico".to_owned(),
    }
}

/// The format of each MIME type.
pub open spec fn mime_format(mime_type: Seq<char>) -> Option<ImageFormat> {
    if mime_type == "image/jpeg"@ {
        Some(ImageFormat::Jpeg)
    } else if mime_type == "image/png"@ {
        Some(ImageFormat::Png)
    } else if mime_type == "image/webp"@ {
        Some(ImageFormat::WebP)
    } else if mime_type == "image/avif"@ {
        Some(ImageFormat::Avif)
    } else if mime_type == "image/bmp"@ {
        Some(ImageFormat::Bmp)
    } else if mime_type == "image/tiff"@ {
        Some(ImageFormat::Tiff)
    } else if mime_type == "image/gif"@ {
        Some(ImageFormat::Gif)
    } else if mime_type == "image/x-icon"@ || mime_type == "image/vnd.microsoft.icon"@ {
        Some(ImageFormat::Ico)
    } else {
        None
    }
}

/// The format that `mime_type` stands for, if it is the MIME type of one.
pub fn detect_format_from_mime_type(mime_type: &str) -> (r: Option<ImageFormat>)
    ensures
        r == mime_format(mime_type@),
{
    if str_eq(mime_type, "image/jpeg") {
        Some(ImageFormat::Jpeg)
    } else if str_eq(mime_type, "image/png") {
        Some(ImageFormat::Png)
    } else if str_eq(mime_type, "image/webp") {
        Some(ImageFormat::WebP)
    } else if str_eq(mime_type, "image/avif") {
        Some(ImageFormat::Avif)
    } else if str_eq(mime_type, "image/bmp") {
        Some(ImageFormat::Bmp)
    } else if str_eq(mime_type, "image/tiff") {
        Some(ImageFormat::Tiff)
    } else if str_eq(mime_type, "image/gif") {
        Some(ImageFormat::Gif)
    } else if str_eq(mime_type, "image/x-icon") || str_eq(mime_type, "image/vnd.microsoft.icon") {
        Some(ImageFormat::Ico)
    } else {
        None
    }
}

/// The MIME type of a format is a MIME type that stands for the format.
pub proof fn lemma_mime_type_round_trip(format: ImageFormat)
    ensures
        mime_format(format.spec_mime_type()) == Some(format),
{
    reveal_strlit("image/jpeg");
    reveal_strlit("image/png");
    reveal_strlit("image/webp");
    reveal_strlit("image/avif");
    reveal_strlit("image/bmp");
    reveal_strlit("image/tiff");
    reveal_strlit("image/gif");
    reveal_strlit("image/x-icon");
    assert("image/jpeg"@[6] == 'j');
    assert("image/png"@[6] == 'p');
    assert("image/webp"@[6] == 'w');
    assert("image/avif"@[6] == 'a');
    assert("image/bmp"@[6] == 'b');
    assert("image/tiff"@[6] == 't');
    assert("image/gif"@[6] == 'g');
    assert("image/x-icon"@[6] == 'x');
}

/// Whether `data` looks like an image: at least eight bytes that begin
/// with the signature of a format other than AVIF.
pub open spec fn likely_image(data: Seq<u8>) -> bool {
    data.len() >= MIN_HEADER_LEN && (has_signature(data, ImageFormat::Jpeg) || has_signature(
        data,
        ImageFormat::Png,
    ) || has_signature(data, ImageFormat::WebP) || has_signature(data, ImageFormat::Bmp)
        || has_signature(data, ImageFormat::Tiff) || has_signature(data, ImageFormat::Gif)
        || has_signature(data, ImageFormat::Ico))
}

/// Whether `data` looks like an image.
pub fn is_likely_image_data(data: &[u8]) -> (b: bool)
    ensures
        b == likely_image(data@),
{
    data.len() >= MIN_HEADER_LEN && (FormatDetector::has_format_signature(data, ImageFormat::Jpeg)
        || FormatDetector::has_format_signature(data, ImageFormat::Png)
        || FormatDetector::has_format_signature(data, ImageFormat::WebP)
        || FormatDetector::has_format_signature(data, ImageFormat::Bmp)
        || FormatDetector::has_format_signature(data, ImageFormat::Tiff)
        || FormatDetector::has_format_signature(data, ImageFormat::Gif)
        || FormatDetector::has_format_signature(data, ImageFormat::Ico))
}

/// Whether a format is detected in `image_data`.
pub fn validate_image_data(image_data: &[u8]) -> (b: bool)
    ensures
        b == (detected_format(image_data@) is Some),
{
    if image_data.len() == 0 {
        return false;
    }
    match FormatDetector::detect_format(image_data) {
        Ok(_) => true,
        Err(_) => false,
    }
}

/// What looks like an image is detected as one.
pub proof fn lemma_likely_image_is_detected(data: Seq<u8>)
    requires
        likely_image(data),
    ensures
        detected_format(data) is Some,
{
}

/// The position of the first full stop among the characters from `k` on,
/// or the number of characters where there is none.
pub open spec fn first_dot(name: Seq<char>, k: int) -> int
    decreases name.len() - k,
{
    if k < 0 || k >= name.len() {
        name.len() as int
    } else if name[k] == '.' {
        k
    } else {
        first_dot(name, k + 1)
    }
}

/// The name suggested for a file converted to `format`: what comes before
/// the first full stop of the original name, or `converted_image` where
/// there is no original name, then a full stop and the default extension
/// of the format.
pub open spec fn suggested_filename(original: Option<Seq<char>>, format: ImageFormat) -> Seq<char> {
    let base = match original {
        Some(name) => name.subrange(0, first_dot(name, 0)),
        None => "converted_image"@,
    };
    base + "."@ + format.spec_extensions()[0]
}

/// The name suggested for a file converted to `target_format`.
pub fn generate_suggested_filename(original_filename: Option<String>, target_format: ImageFormat) -> (name:
    String)
    ensures
        name@ == suggested_filename(
            match original_filename {
                Some(n) => Some(n@),
                None => None,
            },
            target_format,
        ),
{
    let base: String = match &original_filename {
        Some(original) => {
            let text = original.as_str();
            let n = text.unicode_len();
            let mut k: usize = 0;
            while k < n && text.get_char(k) != '.'
                invariant
                    k <= n,
                    n == text@.len(),
                    first_dot(text@, 0) == first_dot(text@, k as int),
                decreases n - k,
            {
                k += 1;
            }
            text.substring_char(0, k).to_owned()
        },
        None => "converted_image".to_owned(),
    };
    base.concat(".").concat(target_format.extension())
}

} // verus!
