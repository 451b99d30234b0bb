//! Slider widgets.

use vstd::prelude::*;

verus! {

/// Clamp the value when using keyboard/gamepad input.
pub const SLIDER_FLAGS_ALWAYS_CLAMP: u32 = 0x10;

/// Use a logarithmic scale.
pub const SLIDER_FLAGS_LOGARITHMIC: u32 = 0x20;

/// Disable rounding the underlying value to match the display format.
pub const SLIDER_FLAGS_NO_ROUND_TO_FORMAT: u32 = 0x40;

/// Disable entering a value directly into the widget.
pub const SLIDER_FLAGS_NO_INPUT: u32 = 0x80;

/// A set of slider flags.
#[derive(Copy, Clone, Eq, PartialEq, Structural, Debug)]
pub struct SliderFlags {
    /// The raw flag bits.
    pub bits: u32,
}

impl SliderFlags {
    /// No flag set.
    pub fn empty() -> (f: SliderFlags)
        ensures
            f.bits == 0,
    {
        SliderFlags { bits: 0 }
    }

    /// The flags with exactly the given bits.
    pub fn from_bits(bits: u32) -> (f: SliderFlags)
        ensures
            f.bits == bits,
    {
        SliderFlags { bits }
    }

    /// Sets or clears the bits of `mask`.
    pub fn set(&mut self, mask: u32, value: bool)
        ensures
            final(self).bits == if value {
                old(self).bits | mask
            } else {
                old(self).bits & !mask
            },
    {
        if value {
            self.bits = self.bits | mask;
        } else {
            self.bits = self.bits & !mask;
        }
    }

    /// Returns whether all bits of `mask` are set.
    pub fn contains(&self, mask: u32) -> (r: bool)
        ensures
            r == (self.bits & mask == mask),
    {
        self.bits & mask == mask
    }
}

impl Default for SliderFlags {
    /// No flag set.
    fn default() -> (f: SliderFlags)
        ensures
            f.bits == 0,
    {
        SliderFlags { bits: 0 }
    }
}

/// Builder for a slider widget over some scalar data type.
#[must_use]
pub struct Slider<Data> {
    label: String,
    min: Data,
    max: Data,
    display_format: Option<String>,
    flags: SliderFlags,
}

impl<Data> Slider<Data> {
    /// The slider's label.
    pub closed spec fn label_view(&self) -> Seq<char> {
        self.label@
    }

    /// The smallest value the slider can be dragged to.
    pub closed spec fn min_spec(&self) -> Data {
        self.min
    }

    /// The largest value the slider can be dragged to.
    pub closed spec fn max_spec(&self) -> Data {
        self.max
    }

    /// The C-style printf display format, if one was set.
    pub closed spec fn display_format_view(&self) -> Option<Seq<char>> {
        match self.display_format {
            Some(s) => Some(s@),
            None => None,
        }
    }

    /// The slider's flags.
    pub closed spec fn flags_spec(&self) -> SliderFlags {
        self.flags
    }

    /// Constructs a new slider builder with the given range.
    pub fn new(label: String, min: Data, max: Data) -> (s: Slider<Data>)
        ensures
            s.label_view() == label@,
            s.min_spec() == min,
            s.max_spec() == max,
            s.display_format_view() is None,
            s.flags_spec().bits == 0,
    {
        Slider { label, min, max, display_format: None, flags: SliderFlags { bits: 0 } }
    }

    /// Sets the range inclusively: both values given are valid values
    /// the slider can be dragged to.
    pub fn range(self, min: Data, max: Data) -> (s: Slider<Data>)
        ensures
            s.label_view() == self.label_view(),
            s.min_spec() == min,
            s.max_spec() == max,
            s.display_format_view() == self.display_format_view(),
            s.flags_spec() == self.flags_spec(),
    {
        Slider { min, max, ..self }
    }

    /// Sets the display format, a C-style printf string.
    pub fn display_format(self, display_format: String) -> (s: Slider<Data>)
        ensures
            s.label_view() == self.label_view(),
            s.min_spec() == self.min_spec(),
            s.max_spec() == self.max_spec(),
            s.display_format_view() == Some(display_format@),
            s.flags_spec() == self.flags_spec(),
    {
        Slider { display_format: Some(display_format), ..self }
    }

    /// Replaces all current settings with the given flags.
    pub fn flags(self, flags: SliderFlags) -> (s: Slider<Data>)
        ensures
            s.label_view() == self.label_view(),
            s.min_spec() == self.min_spec(),
            s.max_spec() == self.max_spec(),
            s.display_format_view() == self.display_format_view(),
            s.flags_spec() == flags,
    {
        Slider { flags, ..self }
    }
}

} // verus!
