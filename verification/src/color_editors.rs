//! Modes and formats for the color editor and picker widgets.

use vstd::prelude::*;

verus! {

/// The color-space the editor works in.
#[derive(Copy, Clone, Eq, PartialEq, Structural, Debug)]
pub enum ColorEditInputMode {
    /// Edit in RGB space.
    Rgb,
    /// Edit in HSV space.
    Hsv,
}

/// The display mode of the color editor's fields.
#[derive(Copy, Clone, Eq, PartialEq, Structural, Debug)]
pub enum ColorEditDisplayMode {
    /// Display the values as RGB fields.
    Rgb,
    /// Display the values as HSV fields.
    Hsv,
    /// Display the value as a hex string.
    Hex,
}

/// The picker style of the color picker widget.
#[derive(Copy, Clone, Eq, PartialEq, Structural, Debug)]
pub enum ColorPickerMode {
    /// A bar for the hue, a rectangle for saturation and value.
    HueBar,
    /// A wheel for the hue, a triangle for saturation and value.
    HueWheel,
}

/// The numeric format of the color editor's fields.
#[derive(Copy, Clone, Eq, PartialEq, Structural, Debug)]
pub enum ColorFormat {
    /// Each channel as an integer from 0 to 255.
    U8,
    /// Each channel as a number from 0.0 to 1.0.
    Float,
}

/// The shape of the color preview button.
#[derive(Copy, Clone, Eq, PartialEq, Structural, Debug)]
pub enum ColorPreview {
    /// An opaque square.
    Opaque,
    /// A half alpha-blended, half opaque square.
    HalfAlpha,
    /// An alpha-blended square.
    Alpha,
}

} // verus!
