//! Sets of Unicode codepoint ranges used to select font glyphs.
//!
//! A custom range list is a series of pairs of non-zero codepoints,
//! each an inclusive range, followed by a single zero terminating the
//! list; the ranges must not be inverted and must not overlap. The
//! named sets are built into the backend.

use vstd::prelude::*;

verus! {

/// The largest Unicode codepoint.
pub const MAX_CODEPOINT: u32 = 0x10FFFF;

/// Which glyph range data a [`FontGlyphRanges`] stands for.
#[derive(Clone, Eq, PartialEq, Debug)]
enum FontGlyphRangeData {
    ChineseSimplifiedCommon,
    ChineseFull,
    Cyrillic,
    Latin,
    Japanese,
    Korean,
    Thai,
    Vietnamese,
    Custom(Vec<u32>),
}

/// A valid glyph range list: odd length, zero-terminated, all glyphs
/// non-zero codepoints, each pair (at even index) an ordered range,
/// and no two ranges overlapping.
pub open spec fn valid_glyph_ranges(s: Seq<u32>) -> bool {
    &&& s.len() % 2 == 1
    &&& s[s.len() - 1] == 0
    &&& forall|i: int| 0 <= i < s.len() - 1 ==> 0 < #[trigger] s[i] <= MAX_CODEPOINT
    &&& forall|i: int| 0 <= i < s.len() - 1 && i % 2 == 0 ==> #[trigger] s[i] <= s[i + 1]
    &&& forall|i: int, j: int|
        0 <= i < j < s.len() - 1 && i % 2 == 0 && j % 2 == 0 ==> #[trigger] s[i + 1]
            < #[trigger] s[j] || s[j + 1] < s[i]
}

/// The error reported for an ill-formed custom glyph range list.
#[derive(Copy, Clone, Eq, PartialEq, Structural, Debug)]
pub enum GlyphRangeError {
    /// The length of a glyph range list must be odd.
    EvenLength,
    /// A glyph range list must be zero-terminated.
    MissingTerminator,
    /// A glyph in a range cannot be zero.
    ZeroGlyph,
    /// A glyph in a range cannot exceed the maximum codepoint.
    GlyphOutOfRange,
    /// The start of a range cannot be larger than its end.
    InvertedRange,
    /// Two ranges overlap.
    OverlappingRanges,
}

impl GlyphRangeError {
    /// A description of the fault, for diagnostics.
    pub fn message(&self) -> &'static str {
        match self {
            GlyphRangeError::EvenLength => "the length of a glyph range list must be odd",
            GlyphRangeError::MissingTerminator => "a glyph range list must be zero-terminated",
            GlyphRangeError::ZeroGlyph => "a glyph in a range cannot be zero",
            GlyphRangeError::GlyphOutOfRange => "a glyph in a range cannot exceed the maximum codepoint",
            GlyphRangeError::InvertedRange => "the start of a range cannot be larger than its end",
            GlyphRangeError::OverlappingRanges => "two glyph ranges overlap",
        }
    }
}

/// A set of Unicode codepoints to rasterize glyphs for.
#[derive(Clone, Eq, PartialEq, Debug)]
pub struct FontGlyphRanges {
    data: FontGlyphRangeData,
}

impl FontGlyphRanges {
    /// Whether this value is the backend's default (Latin) set.
    pub closed spec fn is_default_set(&self) -> bool {
        self.data == FontGlyphRangeData::Latin
    }

    /// The custom range list, when this value holds one.
    pub closed spec fn custom_view(&self) -> Option<Seq<u32>> {
        match self.data {
            FontGlyphRangeData::Custom(v) => Some(v@),
            _ => None,
        }
    }

    /// The default set of glyph ranges used by the backend.
    pub fn default() -> (r: FontGlyphRanges)
        ensures
            r.is_default_set(),
    {
        FontGlyphRanges { data: FontGlyphRangeData::Latin }
    }

    /// A set of glyph ranges appropriate for use with simplified
    /// common Chinese text.
    pub fn chinese_simplified_common() -> FontGlyphRanges {
        FontGlyphRanges { data: FontGlyphRangeData::ChineseSimplifiedCommon }
    }

    /// A set of glyph ranges appropriate for use with Chinese text.
    pub fn chinese_full() -> FontGlyphRanges {
        FontGlyphRanges { data: FontGlyphRangeData::ChineseFull }
    }

    /// A set of glyph ranges appropriate for use with Cyrillic text.
    pub fn cyrillic() -> FontGlyphRanges {
        FontGlyphRanges { data: FontGlyphRangeData::Cyrillic }
    }

    /// A set of glyph ranges appropriate for use with Japanese text.
    pub fn japanese() -> FontGlyphRanges {
        FontGlyphRanges { data: FontGlyphRangeData::Japanese }
    }

    /// A set of glyph ranges appropriate for use with Korean text.
    pub fn korean() -> FontGlyphRanges {
        FontGlyphRanges { data: FontGlyphRangeData::Korean }
    }

    /// A set of glyph ranges appropriate for use with Thai text.
    pub fn thai() -> FontGlyphRanges {
        FontGlyphRanges { data: FontGlyphRangeData::Thai }
    }

    /// A set of glyph ranges appropriate for use with Vietnamese text.
    pub fn vietnamese() -> FontGlyphRanges {
        FontGlyphRanges { data: FontGlyphRangeData::Vietnamese }
    }

    /// Creates a glyph range set from a custom list: pairs of non-zero
    /// codepoints, each an inclusive range, followed by a single zero.
    /// The ranges must be ordered within themselves and must not
    /// overlap each other; an ill-formed list is rejected with an
    /// error naming the first fault found.
    pub fn from_slice(ranges: Vec<u32>) -> (r: Result<FontGlyphRanges, GlyphRangeError>)
        ensures
            r is Ok <==> valid_glyph_ranges(ranges@),
            r matches Ok(g) ==> g.custom_view() == Some(ranges@),
    {
        let n = ranges.len();
        if n % 2 != 1 {
            proof {
                assert(!valid_glyph_ranges(ranges@));
            }
            return Err(GlyphRangeError::EvenLength);
        }
        if ranges[n - 1] != 0 {
            return Err(GlyphRangeError::MissingTerminator);
        }
        let mut i: usize = 0;
        while i < n - 1
            invariant
                n == ranges@.len(),
                n % 2 == 1,
                i <= n - 1,
                forall|j: int| 0 <= j < i ==> 0 < #[trigger] ranges@[j] <= MAX_CODEPOINT,
            decreases n - i,
        {
            if ranges[i] == 0 {
                return Err(GlyphRangeError::ZeroGlyph);
            }
            if ranges[i] > MAX_CODEPOINT {
                return Err(GlyphRangeError::GlyphOutOfRange);
            }
            i += 1;
        }
        let mut a: usize = 0;
        while a + 1 < n
            invariant
                n == ranges@.len(),
                n % 2 == 1,
                a % 2 == 0,
                a <= n - 1 + 1,
                forall|j: int|
                    0 <= j < a && j % 2 == 0 && j < n - 1 ==> #[trigger] ranges@[j] <= ranges@[j
                        + 1],
            decreases n - a,
        {
            if ranges[a] > ranges[a + 1] {
                return Err(GlyphRangeError::InvertedRange);
            }
            a += 2;
        }
        let mut i: usize = 0;
        while i + 1 < n
            invariant
                n == ranges@.len(),
                n % 2 == 1,
                i % 2 == 0,
                forall|x: int, y: int|
                    0 <= x < y < n - 1 && x % 2 == 0 && y % 2 == 0 && x < i ==> #[trigger] ranges@[x
                        + 1] < #[trigger] ranges@[y] || ranges@[y + 1] < ranges@[x],
            decreases n - i,
        {
            let mut j: usize = i + 2;
            while j + 1 < n
                invariant
                    n == ranges@.len(),
                    n % 2 == 1,
                    i % 2 == 0,
                    j % 2 == 0,
                    i + 1 < n,
                    i + 2 <= j,
                    forall|y: int|
                        i < y < j && y % 2 == 0 ==> ranges@[i as int + 1] < #[trigger] ranges@[y]
                            || ranges@[y + 1] < ranges@[i as int],
                decreases n - j,
            {
                let lo_a = ranges[i];
                let hi_a = ranges[i + 1];
                let lo_b = ranges[j];
                let hi_b = ranges[j + 1];
                if !(hi_a < lo_b || hi_b < lo_a) {
                    proof {
                        assert(!valid_glyph_ranges(ranges@));
                    }
                    return Err(GlyphRangeError::OverlappingRanges);
                }
                j += 2;
            }
            i += 2;
        }
        Ok(FontGlyphRanges { data: FontGlyphRangeData::Custom(ranges) })
    }
}

} // verus!
