//! Style identifiers for the color and style-variable stacks.
//!
//! The numeric values these identifiers map to, and the floating-point
//! payloads of the style variables, live on the backend side; this
//! layer tracks which slot a push targets so the matching pop can be
//! accounted for.

use vstd::prelude::*;

verus! {

/// A color slot of the backend's style.
#[derive(Copy, Clone, Eq, PartialEq, Structural, Debug)]
pub enum StyleColor {
    Text,
    TextDisabled,
    /// Background of normal windows
    WindowBg,
    /// Background of child windows
    ChildBg,
    /// Background of popups, menus, tooltips windows
    PopupBg,
    Border,
    BorderShadow,
    /// Background of checkbox, radio button, plot, slider, text input
    FrameBg,
    FrameBgHovered,
    FrameBgActive,
    TitleBg,
    TitleBgActive,
    TitleBgCollapsed,
    MenuBarBg,
    ScrollbarBg,
    ScrollbarGrab,
    ScrollbarGrabHovered,
    ScrollbarGrabActive,
    CheckMark,
    SliderGrab,
    SliderGrabActive,
    Button,
    ButtonHovered,
    ButtonActive,
    Header,
    HeaderHovered,
    HeaderActive,
    Separator,
    SeparatorHovered,
    SeparatorActive,
    ResizeGrip,
    ResizeGripHovered,
    ResizeGripActive,
    Tab,
    TabHovered,
    TabActive,
    TabUnfocused,
    TabUnfocusedActive,
    PlotLines,
    PlotLinesHovered,
    PlotHistogram,
    PlotHistogramHovered,
    TableHeaderBg,
    TableBorderStrong,
    TableBorderLight,
    TableRowBg,
    TableRowBgAlt,
    TextSelectedBg,
    DragDropTarget,
    /// Gamepad/keyboard: current highlighted item
    NavHighlight,
    /// Highlight window when using CTRL+TAB
    NavWindowingHighlight,
    /// Darken/colorize entire screen behind the CTRL+TAB window list
    NavWindowingDimBg,
    /// Darken/colorize entire screen behind a modal window
    ModalWindowDimBg,
}

/// The number of style color slots.
pub const STYLE_COLOR_COUNT: usize = 53;

/// A style variable of the backend's style.
///
/// The backend takes a floating-point (or two-component) payload with
/// each push; the payload crosses the native boundary directly and is
/// not part of the stack accounting this layer does.
#[derive(Copy, Clone, Eq, PartialEq, Structural, Debug)]
pub enum StyleVar {
    /// Global alpha applied to everything
    Alpha,
    /// Padding within a window
    WindowPadding,
    /// Rounding radius of window corners
    WindowRounding,
    /// Thickness of border around windows
    WindowBorderSize,
    /// Minimum window size
    WindowMinSize,
    /// Alignment for title bar text
    WindowTitleAlign,
    /// Rounding radius of child window corners
    ChildRounding,
    /// Thickness of border around child windows
    ChildBorderSize,
    /// Rounding radius of popup window corners
    PopupRounding,
    /// Thickness of border around popup/tooltip windows
    PopupBorderSize,
    /// Padding within a framed rectangle (used by most widgets)
    FramePadding,
    /// Rounding radius of frame corners (used by most widgets)
    FrameRounding,
    /// Thickness of border around frames
    FrameBorderSize,
    /// Horizontal and vertical spacing between widgets/lines
    ItemSpacing,
    /// Horizontal and vertical spacing between elements of a composed widget
    ItemInnerSpacing,
    /// Horizontal indentation when e.g. entering a tree node
    IndentSpacing,
    /// Width of the vertical scrollbar, height of the horizontal scrollbar
    ScrollbarSize,
    /// Rounding radius of grab corners for scrollbar
    ScrollbarRounding,
    /// Minimum width/height of a grab box for slider/scrollbar
    GrabMinSize,
    /// Rounding radius of grabs corners
    GrabRounding,
    /// Rounding radius of upper corners of tabs
    TabRounding,
    /// Alignment of button text when button is larger than text
    ButtonTextAlign,
    /// Alignment of selectable text when selectable is larger than text
    SelectableTextAlign,
}

} // verus!
