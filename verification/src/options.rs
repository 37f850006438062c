//! Conversion options: quality, compression level and flags, built through
//! a builder that clamps what it is given, and checked again before
//! encoding.

use crate::error::{str_eq, ImageError};
use crate::types::ImageFormat;
use vstd::prelude::*;

verus! {

/// Quality is held in thousandths: 0 stands for 0.0 and 1000 for 1.0.
pub const QUALITY_SCALE: u16 = 1000;

/// The highest compression level.
pub const MAX_COMPRESSION_LEVEL: u8 = 9;

/// `value` clamped to the range from `low` to `high`.
pub open spec fn clamp_to(value: int, low: int, high: int) -> int {
    if value < low {
        low
    } else if value > high {
        high
    } else {
        value
    }
}

/// A clamped value lies in the range, and a value in the range is left as
/// it is.
pub proof fn lemma_clamp_range(value: int, low: int, high: int)
    requires
        low <= high,
    ensures
        low <= clamp_to(value, low, high) <= high,
        low <= value <= high ==> clamp_to(value, low, high) == value,
        clamp_to(clamp_to(value, low, high), low, high) == clamp_to(value, low, high),
{
}

/// What a set of options says.
pub struct OptionsModel {
    /// Quality in thousandths, for lossy formats.
    pub quality: Option<u16>,
    /// Compression level, for lossless formats.
    pub compression_level: Option<u8>,
    pub progressive: Option<bool>,
    pub preserve_dimensions: bool,
    pub preserve_color_space: bool,
    pub preserve_metadata: bool,
    /// Codec-specific parameters by name.
    pub custom: Map<Seq<char>, Seq<char>>,
}

impl OptionsModel {
    /// Quality is at most 1.0 and the compression level at most 9.
    pub open spec fn in_range(self) -> bool {
        &&& self.quality matches Some(q) ==> q <= QUALITY_SCALE
        &&& self.compression_level matches Some(level) ==> level <= MAX_COMPRESSION_LEVEL
    }

    /// What a target format asks of the options: a lossy format a quality
    /// of at most 1.0, where one is given, and any other format a
    /// compression level of at most 9, where one is given.
    pub open spec fn valid_for(self, format: ImageFormat) -> bool {
        if format.is_lossy() {
            self.quality matches Some(q) ==> q <= QUALITY_SCALE
        } else {
            self.compression_level matches Some(level) ==> level <= MAX_COMPRESSION_LEVEL
        }
    }

    /// The options a fresh builder starts from.
    pub open spec fn initial() -> OptionsModel {
        OptionsModel {
            quality: Some(800u16),
            compression_level: Some(6u8),
            progressive: Some(false),
            preserve_dimensions: true,
            preserve_color_space: true,
            preserve_metadata: false,
            custom: Map::empty(),
        }
    }
}

/// The value that the first entry named `key` holds.
pub open spec fn lookup(entries: Seq<(String, String)>, key: Seq<char>) -> Option<Seq<char>>
    decreases entries.len(),
{
    if entries.len() == 0 {
        None
    } else if entries[0].0@ == key {
        Some(entries[0].1@)
    } else {
        lookup(entries.subrange(1, entries.len() as int), key)
    }
}

/// The parameters that a list of entries holds, by name.
pub open spec fn entries_map(entries: Seq<(String, String)>) -> Map<Seq<char>, Seq<char>> {
    Map::new(|k: Seq<char>| lookup(entries, k) is Some, |k: Seq<char>| lookup(entries, k)->0)
}

/// Looking up past a prefix in which no entry is named `key`.
proof fn lemma_lookup_skip(entries: Seq<(String, String)>, key: Seq<char>, n: int)
    requires
        0 <= n <= entries.len(),
        forall|k: int| 0 <= k < n ==> entries[k].0@ != key,
    ensures
        lookup(entries, key) == lookup(entries.subrange(n, entries.len() as int), key),
    decreases n,
{
    if n == 0 {
        assert(entries.subrange(0, entries.len() as int) =~= entries);
    } else {
        let rest = entries.subrange(1, entries.len() as int);
        lemma_lookup_skip(rest, key, n - 1);
        assert(rest.subrange(n - 1, rest.len() as int) =~= entries.subrange(
            n,
            entries.len() as int,
        ));
    }
}

/// Replacing the value of the first entry named `key`, or adding an entry
/// where there is none, binds `key` and changes no other name.
proof fn lemma_lookup_after_set(
    before: Seq<(String, String)>,
    after: Seq<(String, String)>,
    key: Seq<char>,
    value: Seq<char>,
    n: int,
    other: Seq<char>,
)
    requires
        0 <= n <= before.len(),
        forall|k: int| 0 <= k < n ==> before[k].0@ != key,
        n < before.len() ==> before[n].0@ == key && after.len() == before.len() && after[n].0@
            == key && after[n].1@ == value && forall|k: int|
            0 <= k < before.len() && k != n ==> after[k] == before[k],
        n == before.len() ==> after.len() == before.len() + 1 && after[n].0@ == key && after[n].1@
            == value && forall|k: int| 0 <= k < before.len() ==> after[k] == before[k],
    ensures
        lookup(after, other) == if other == key {
            Some(value)
        } else {
            lookup(before, other)
        },
    decreases before.len(),
{
    if n == 0 {
        if before.len() == 0 {
            assert(lookup(after.subrange(1, after.len() as int), other) is None);
        } else {
            assert(after.subrange(1, after.len() as int) =~= before.subrange(
                1,
                before.len() as int,
            ));
        }
    } else {
        let b = before.subrange(1, before.len() as int);
        let a = after.subrange(1, after.len() as int);
        assert(after[0] == before[0]);
        lemma_lookup_after_set(b, a, key, value, n - 1, other);
    }
}

/// Options of one conversion.
#[derive(Debug, Clone)]
pub struct ConversionOptions {
    quality: Option<u16>,
    compression_level: Option<u8>,
    progressive: Option<bool>,
    preserve_dimensions: bool,
    preserve_color_space: bool,
    preserve_metadata: bool,
    custom: Vec<(String, String)>,
}

/// Builds options step by step, clamping each value as it is set.
#[derive(Debug, Clone)]
pub struct ConversionOptionsBuilder {
    options: ConversionOptions,
}

/// A named policy for the options of a conversion that gives none.
#[derive(Debug, Clone, Copy, PartialEq, Eq, Structural)]
pub enum QualityStrategy {
    /// Stay close to the source: quality 0.95.
    PreserveOriginal,
    /// Smallest output: quality 0.75 and the highest compression level.
    OptimizeSize,
    /// Quality 0.85 and compression level 6.
    Balanced,
    /// Quality 1.0 and no compression.
    MaxQuality,
}

impl QualityStrategy {
    /// The quality of the strategy, in thousandths.
    pub open spec fn spec_quality(self) -> u16 {
        match self {
            QualityStrategy::PreserveOriginal => 950,
            QualityStrategy::OptimizeSize => 750,
            QualityStrategy::Balanced => 850,
            QualityStrategy::MaxQuality => 1000,
        }
    }

    /// The compression level of the strategy.
    pub open spec fn spec_compression_level(self) -> u8 {
        match self {
            QualityStrategy::PreserveOriginal => 6,
            QualityStrategy::OptimizeSize => 9,
            QualityStrategy::Balanced => 6,
            QualityStrategy::MaxQuality => 0,
        }
    }

    /// The options that the strategy stands for.
    pub open spec fn spec_options(self) -> OptionsModel {
        OptionsModel {
            quality: Some(self.spec_quality()),
            compression_level: Some(self.spec_compression_level()),
            ..OptionsModel::initial()
        }
    }

    /// The quality of the strategy, in thousandths.
    pub fn quality(self) -> (q: u16)
        ensures
            q == self.spec_quality(),
            q <= QUALITY_SCALE,
    {
        match self {
            QualityStrategy::PreserveOriginal => 950,
            QualityStrategy::OptimizeSize => 750,
            QualityStrategy::Balanced => 850,
            QualityStrategy::MaxQuality => 1000,
        }
    }

    /// The compression level of the strategy.
    pub fn compression_level(self) -> (level: u8)
        ensures
            level == self.spec_compression_level(),
            level <= MAX_COMPRESSION_LEVEL,
    {
        match self {
            QualityStrategy::PreserveOriginal => 6,
            QualityStrategy::OptimizeSize => 9,
            QualityStrategy::Balanced => 6,
            QualityStrategy::MaxQuality => 0,
        }
    }

    /// The options used where a conversion is given none.
    pub fn default_options(self) -> (options: ConversionOptions)
        ensures
            options@ == self.spec_options(),
            options@.in_range(),
    {
        let options = ConversionOptions {
            quality: Some(self.quality()),
            compression_level: Some(self.compression_level()),
            progressive: Some(false),
            preserve_dimensions: true,
            preserve_color_space: true,
            preserve_metadata: false,
            custom: Vec::new(),
        };
        assert(options@.custom =~= Map::empty());
        options
    }
}

impl View for ConversionOptions {
    type V = OptionsModel;

    closed spec fn view(&self) -> OptionsModel {
        OptionsModel {
            quality: self.quality,
            compression_level: self.compression_level,
            progressive: self.progressive,
            preserve_dimensions: self.preserve_dimensions,
            preserve_color_space: self.preserve_color_space,
            preserve_metadata: self.preserve_metadata,
            custom: entries_map(self.custom@),
        }
    }
}

impl View for ConversionOptionsBuilder {
    type V = OptionsModel;

    closed spec fn view(&self) -> OptionsModel {
        self.options@
    }
}

impl Default for ConversionOptions {
    fn default() -> (options: Self)
        ensures
            options@ == OptionsModel::initial(),
    {
        let options = ConversionOptions {
            quality: Some(800),
            compression_level: Some(6),
            progressive: Some(false),
            preserve_dimensions: true,
            preserve_color_space: true,
            preserve_metadata: false,
            custom: Vec::new(),
        };
        assert(options@.custom =~= Map::empty());
        options
    }
}

impl ConversionOptions {
    /// Options made of the given values as they stand, with no clamping and
    /// no custom parameter. Values out of range are kept, and refused when
    /// the options are checked against a format.
    pub fn from_parts(
        quality: Option<u16>,
        compression_level: Option<u8>,
        progressive: Option<bool>,
        preserve_dimensions: bool,
        preserve_color_space: bool,
        preserve_metadata: bool,
    ) -> (options: Self)
        ensures
            options@ == (OptionsModel {
                quality,
                compression_level,
                progressive,
                preserve_dimensions,
                preserve_color_space,
                preserve_metadata,
                custom: Map::empty(),
            }),
    {
        let options = ConversionOptions {
            quality,
            compression_level,
            progressive,
            preserve_dimensions,
            preserve_color_space,
            preserve_metadata,
            custom: Vec::new(),
        };
        assert(options@.custom =~= Map::empty());
        options
    }

    /// Quality in thousandths.
    pub fn quality(&self) -> (q: Option<u16>)
        ensures
            q == self@.quality,
    {
        self.quality
    }

    pub fn compression_level(&self) -> (level: Option<u8>)
        ensures
            level == self@.compression_level,
    {
        self.compression_level
    }

    pub fn is_progressive(&self) -> (p: Option<bool>)
        ensures
            p == self@.progressive,
    {
        self.progressive
    }

    pub fn preserves_dimensions(&self) -> (b: bool)
        ensures
            b == self@.preserve_dimensions,
    {
        self.preserve_dimensions
    }

    pub fn preserves_color_space(&self) -> (b: bool)
        ensures
            b == self@.preserve_color_space,
    {
        self.preserve_color_space
    }

    pub fn preserves_metadata(&self) -> (b: bool)
        ensures
            b == self@.preserve_metadata,
    {
        self.preserve_metadata
    }

    /// The value of the custom parameter `key`, if it is set.
    pub fn custom_param(&self, key: &str) -> (r: Option<&str>)
        ensures
            match r {
                Some(value) => self@.custom.contains_key(key@) && self@.custom[key@] == value@,
                None => !self@.custom.contains_key(key@),
            },
    {
        let mut i: usize = 0;
        while i < self.custom.len()
            invariant
                i <= self.custom@.len(),
                forall|k: int| 0 <= k < i ==> self.custom@[k].0@ != key@,
            decreases self.custom@.len() - i,
        {
            if str_eq(self.custom[i].0.as_str(), key) {
                proof {
                    lemma_lookup_skip(self.custom@, key@, i as int);
                }
                return Some(self.custom[i].1.as_str());
            }
            i += 1;
        }
        proof {
            lemma_lookup_skip(self.custom@, key@, i as int);
        }
        None
    }

    /// The names of the custom parameters, in the order in which they were
    /// first set.
    pub fn custom_param_keys(&self) -> (keys: Vec<&str>)
        ensures
            keys@.len() == self.spec_names().len(),
            forall|i: int| 0 <= i < keys@.len() ==> #[trigger] keys@[i]@ == self.spec_names()[i],
            forall|i: int| 0 <= i < keys@.len() ==> self@.custom.contains_key(#[trigger] keys@[i]@),
    {
        let mut keys: Vec<&str> = Vec::new();
        let mut i: usize = 0;
        while i < self.custom.len()
            invariant
                i <= self.custom@.len(),
                keys@.len() == i,
                forall|k: int| 0 <= k < i ==> #[trigger] keys@[k]@ == self.custom@[k].0@,
            decreases self.custom@.len() - i,
        {
            keys.push(self.custom[i].0.as_str());
            i += 1;
        }
        proof {
            assert forall|k: int| 0 <= k < keys@.len() implies self@.custom.contains_key(
                #[trigger] keys@[k]@,
            ) by {
                lemma_lookup_present(self.custom@, k);
            }
        }
        keys
    }

    /// The names of the custom parameters, in the order in which they were
    /// first set.
    pub closed spec fn spec_names(&self) -> Seq<Seq<char>> {
        Seq::new(self.custom@.len(), |i: int| self.custom@[i].0@)
    }

    /// Checks the options against what `format` asks.
    pub fn validate_for(&self, format: ImageFormat) -> (r: Result<(), ImageError>)
        ensures
            self@.valid_for(format) ==> r is Ok,
            !self@.valid_for(format) ==> r is Err && r->Err_0 is InvalidParameters,
    {
        if format.supports_lossy() {
            match self.quality {
                Some(q) => {
                    if q > QUALITY_SCALE {
                        return Err(ImageError::invalid_parameters("quality must be within [0.0, 1.0]"));
                    }
                },
                None => {},
            }
        } else {
            match self.compression_level {
                Some(level) => {
                    if level > MAX_COMPRESSION_LEVEL {
                        return Err(
                            ImageError::invalid_parameters("compression level must be within [0, 9]"),
                        );
                    }
                },
                None => {},
            }
        }
        Ok(())
    }
}

/// The name of every entry is bound in the map of the entries.
proof fn lemma_lookup_present(entries: Seq<(String, String)>, i: int)
    requires
        0 <= i < entries.len(),
    ensures
        lookup(entries, entries[i].0@) is Some,
        entries_map(entries).contains_key(entries[i].0@),
    decreases i,
{
    if entries[0].0@ != entries[i].0@ {
        let rest = entries.subrange(1, entries.len() as int);
        lemma_lookup_present(rest, i - 1);
    }
}

impl ConversionOptionsBuilder {
    /// A builder that starts from the default options.
    pub fn new() -> (builder: Self)
        ensures
            builder@ == OptionsModel::initial(),
    {
        ConversionOptionsBuilder { options: ConversionOptions::default() }
    }

    /// A builder that starts from `options`.
    pub fn from_options(options: ConversionOptions) -> (builder: Self)
        ensures
            builder@ == options@,
    {
        ConversionOptionsBuilder { options }
    }

    /// Sets the quality, given in thousandths, clamped to the range from
    /// 0 to 1000.
    pub fn quality(self, quality: i32) -> (builder: Self)
        ensures
            builder@ == (OptionsModel {
                quality: Some(clamp_to(quality as int, 0, QUALITY_SCALE as int) as u16),
                ..self@
            }),
    {
        let clamped: u16 = if quality < 0 {
            0
        } else if quality > 1000 {
            1000
        } else {
            quality as u16
        };
        let ConversionOptions {
            quality: _,
            compression_level,
            progressive,
            preserve_dimensions,
            preserve_color_space,
            preserve_metadata,
            custom,
        } = self.options;
        ConversionOptionsBuilder {
            options: ConversionOptions {
                quality: Some(clamped),
                compression_level,
                progressive,
                preserve_dimensions,
                preserve_color_space,
                preserve_metadata,
                custom,
            },
        }
    }

    /// Sets the compression level, clamped to at most 9.
    pub fn compression_level(self, level: u8) -> (builder: Self)
        ensures
            builder@ == (OptionsModel {
                compression_level: Some(
                    clamp_to(level as int, 0, MAX_COMPRESSION_LEVEL as int) as u8,
                ),
                ..self@
            }),
    {
        let clamped: u8 = if level > MAX_COMPRESSION_LEVEL {
            MAX_COMPRESSION_LEVEL
        } else {
            level
        };
        let mut options = self.options;
        options.compression_level = Some(clamped);
        ConversionOptionsBuilder { options }
    }

    pub fn progressive(self, progressive: bool) -> (builder: Self)
        ensures
            builder@ == (OptionsModel { progressive: Some(progressive), ..self@ }),
    {
        let mut options = self.options;
        options.progressive = Some(progressive);
        ConversionOptionsBuilder { options }
    }

    pub fn preserve_dimensions(self, preserve: bool) -> (builder: Self)
        ensures
            builder@ == (OptionsModel { preserve_dimensions: preserve, ..self@ }),
    {
        let mut options = self.options;
        options.preserve_dimensions = preserve;
        ConversionOptionsBuilder { options }
    }

    pub fn preserve_color_space(self, preserve: bool) -> (builder: Self)
        ensures
            builder@ == (OptionsModel { preserve_color_space: preserve, ..self@ }),
    {
        let mut options = self.options;
        options.preserve_color_space = preserve;
        ConversionOptionsBuilder { options }
    }

    pub fn preserve_metadata(self, preserve: bool) -> (builder: Self)
        ensures
            builder@ == (OptionsModel { preserve_metadata: preserve, ..self@ }),
    {
        let mut options = self.options;
        options.preserve_metadata = preserve;
        ConversionOptionsBuilder { options }
    }

    /// Sets the custom parameter `key` to `value`, in place of any value it
    /// had.
    pub fn custom_param(self, key: String, value: String) -> (builder: Self)
        ensures
            builder@ == (OptionsModel { custom: self@.custom.insert(key@, value@), ..self@ }),
    {
        let ghost before = self.options.custom@;
        let ghost old_view = self@;
        let mut options = self.options;
        let mut i: usize = 0;
        let mut found = false;
        while i < options.custom.len() && !found
            invariant
                i <= options.custom@.len(),
                options.custom@ == before,
                forall|k: int| 0 <= k < i ==> before[k].0@ != key@,
                found ==> i < before.len() && before[i as int].0@ == key@,
            decreases options.custom@.len() - i + (if found { 0int } else { 1int }),
        {
            if str_eq(options.custom[i].0.as_str(), key.as_str()) {
                found = true;
            } else {
                i += 1;
            }
        }
        let ghost n = i as int;
        if found {
            options.custom.set(i, (key, value));
        } else {
            options.custom.push((key, value));
        }
        proof {
            let after = options.custom@;
            let target = old_view.custom.insert(key@, value@);
            assert(old_view.custom == entries_map(before));
            assert forall|other: Seq<char>| #[trigger]
                entries_map(after).dom().contains(other) == target.dom().contains(other) by {
                lemma_lookup_after_set(before, after, key@, value@, n, other);
            }
            assert forall|other: Seq<char>| #[trigger]
                entries_map(after).dom().contains(other) implies entries_map(after)[other]
                == target[other] by {
                lemma_lookup_after_set(before, after, key@, value@, n, other);
            }
            assert(entries_map(after) =~= old_view.custom.insert(key@, value@));
        }
        ConversionOptionsBuilder { options }
    }

    /// The options as built.
    pub fn build(self) -> (options: ConversionOptions)
        ensures
            options@ == self@,
    {
        self.options
    }
}

impl Default for ConversionOptionsBuilder {
    fn default() -> (builder: Self)
        ensures
            builder@ == OptionsModel::initial(),
    {
        Self::new()
    }
}

/// Whatever a builder is given, what it holds stays in range: the quality
/// it stores is at most 1.0 and the compression level at most 9.
pub proof fn lemma_setters_keep_range(before: OptionsModel, quality: i32, level: u8)
    requires
        before.in_range(),
    ensures
        (OptionsModel {
            quality: Some(clamp_to(quality as int, 0, QUALITY_SCALE as int) as u16),
            ..before
        }).in_range(),
        (OptionsModel {
            compression_level: Some(clamp_to(level as int, 0, MAX_COMPRESSION_LEVEL as int) as u8),
            ..before
        }).in_range(),
        quality >= QUALITY_SCALE ==> clamp_to(quality as int, 0, QUALITY_SCALE as int)
            == QUALITY_SCALE,
{
}

/// Options in range are valid for every format.
pub proof fn lemma_in_range_is_valid(options: OptionsModel, format: ImageFormat)
    requires
        options.in_range(),
    ensures
        options.valid_for(format),
{
}

} // verus!
