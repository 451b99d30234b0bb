//! Builders, flags, colors, enums and the remaining plain-value API.

use imhex_ui::color::ImColor32;
use imhex_ui::color_editors::{ColorEditInputMode, ColorFormat};
use imhex_ui::combo_box::{
    ComboBox, ComboBoxHeight, ComboBoxPreviewMode, COMBO_BOX_FLAGS_HEIGHT_LARGEST,
    COMBO_BOX_FLAGS_HEIGHT_REGULAR, COMBO_BOX_FLAGS_NO_ARROW_BUTTON,
    COMBO_BOX_FLAGS_POPUP_ALIGN_LEFT,
};
use imhex_ui::context::{Context, ContextHub};
use imhex_ui::drag_drop::{DragDropFlags, DragDropSource, DRAG_DROP_FLAGS_SOURCE_EXTERN};
use imhex_ui::glyph_ranges::{FontGlyphRanges, GlyphRangeError};
use imhex_ui::keyboard::Key;
use imhex_ui::mouse::{MouseButton, MouseCursor};
use imhex_ui::popups::PopupModal;
use imhex_ui::renderer::{TextureId, Textures};
use imhex_ui::slider::Slider;
use imhex_ui::tab::{TabBar, TabItem, TAB_BAR_FLAGS_REORDERABLE};
use imhex_ui::tree::CollapsingHeader;
use imhex_ui::window::{WindowFlags, WINDOW_FLAGS_MENU_BAR, WINDOW_FLAGS_NO_TITLE_BAR};
use imhex_ui::{Condition, Direction};
use imhex_ui::clipboard::{ClipboardBackend, DummyClipboardContext};
use imhex_ui::input_widget::TextCallbackData;

#[test]
fn test_mouse_button_variants() {
    for (idx, value) in MouseButton::variants().iter().enumerate() {
        assert_eq!(idx, *value as usize);
    }
}

#[test]
fn test_mouse_cursor_variants() {
    for (idx, value) in MouseCursor::variants().iter().enumerate() {
        assert_eq!(idx, *value as usize);
    }
}

#[test]
fn test_key_variants() {
    for (idx, value) in Key::variants().iter().enumerate() {
        assert_eq!(idx, *value as usize);
    }
}

#[test]
fn im_color32_packs_little_endian_rgba() {
    let c = ImColor32::from_rgba(0x80, 0xc0, 0x40, 0xff);
    assert_eq!(c.to_bits(), 0xff_40_c0_80);
    let f = c.fields();
    assert_eq!(f.r, 0x80);
    assert_eq!(f.g, 0xc0);
    assert_eq!(f.b, 0x40);
    assert_eq!(f.a, 0xff);
    assert_eq!(c.to_rgba(), [0x80, 0xc0, 0x40, 0xff]);
    assert_eq!(ImColor32::from_rgb(1, 2, 3).to_bits(), 0xff_03_02_01);
    assert_eq!(ImColor32::from_bits(0x12345678).to_bits(), 0x12345678);
    assert_eq!(ImColor32::black().to_bits(), 0xff_00_00_00);
    assert_eq!(ImColor32::white().to_bits(), 0xff_ff_ff_ff);
    assert_eq!(ImColor32::transparent().to_bits(), 0);
}

#[test]
fn host_color_packs_rgba() {
    let c = imhex_ui::imhex_api::Color::new(0x11, 0x22, 0x33, 0x44);
    assert_eq!(c.rgba(), 0x44_33_22_11);
    let r = imhex_ui::imhex_api::Region::new(0x1000, 16);
    assert_eq!(r.address, 0x1000);
    assert_eq!(r.size, 16);
}

#[test]
fn window_flags_set_and_contains() {
    let mut f = WindowFlags::empty();
    assert_eq!(f.bits, 0);
    f.set(WINDOW_FLAGS_NO_TITLE_BAR, true);
    f.set(WINDOW_FLAGS_MENU_BAR, true);
    assert!(f.contains(WINDOW_FLAGS_NO_TITLE_BAR));
    assert_eq!(f.bits, WINDOW_FLAGS_NO_TITLE_BAR | WINDOW_FLAGS_MENU_BAR);
    f.set(WINDOW_FLAGS_NO_TITLE_BAR, false);
    assert!(!f.contains(WINDOW_FLAGS_NO_TITLE_BAR));
    assert_eq!(f.bits, WINDOW_FLAGS_MENU_BAR);
}

#[test]
fn popup_modal_flag_setters() {
    let mut hub = ContextHub::new();
    let mut ctx = Context::create(&mut hub).unwrap();
    let mut ui = ctx.frame(&mut hub);
    // title_bar(false) sets the inverted bit; menu_bar(true) the plain
    // one.
    let popup = PopupModal::new(String::from("modal"))
        .title_bar(false)
        .menu_bar(true);
    let token = popup.begin_popup(&mut ui);
    assert_eq!(ui.open_scope_count(), 1);
    assert!(token.end(&mut ui).is_ok());
    assert!(ui.end_frame(&mut hub).is_ok());

    let popup = PopupModal::new(String::from("modal"))
        .resizable(false)
        .movable(false)
        .always_auto_resize(true);
    // NO_RESIZE (0x2) and NO_MOVE (0x4) from the inverted setters,
    // ALWAYS_AUTO_RESIZE (0x40) from the plain one.
    assert_eq!(popup.current_flags().bits, 0x2 | 0x4 | 0x40);
    let popup = PopupModal::new(String::from("modal")).title_bar(false).menu_bar(true);
    assert_eq!(popup.current_flags().bits, 0x1 | 0x400);
}

#[test]
fn combo_box_height_and_preview_bits() {
    let c = ComboBox::new(String::from("combo"))
        .popup_align_left(true)
        .height(ComboBoxHeight::Regular);
    assert_eq!(
        c.current_flags().bits,
        COMBO_BOX_FLAGS_POPUP_ALIGN_LEFT | COMBO_BOX_FLAGS_HEIGHT_REGULAR
    );
    let c = c.height(ComboBoxHeight::Largest);
    // Exactly one height bit survives, plus the align bit.
    assert_eq!(
        c.current_flags().bits,
        COMBO_BOX_FLAGS_POPUP_ALIGN_LEFT | COMBO_BOX_FLAGS_HEIGHT_LARGEST
    );
    let c = c.preview_mode(ComboBoxPreviewMode::Label);
    assert_eq!(
        c.current_flags().bits,
        COMBO_BOX_FLAGS_POPUP_ALIGN_LEFT | COMBO_BOX_FLAGS_HEIGHT_LARGEST
            | COMBO_BOX_FLAGS_NO_ARROW_BUTTON
    );
    let mut hub = ContextHub::new();
    let mut ctx = Context::create(&mut hub).unwrap();
    let mut ui = ctx.frame(&mut hub);
    let token = c.begin(&mut ui);
    assert!(token.end(&mut ui).is_ok());
    assert!(ui.end_frame(&mut hub).is_ok());
}

#[test]
fn tab_bar_and_items_nest() {
    let mut hub = ContextHub::new();
    let mut ctx = Context::create(&mut hub).unwrap();
    let mut ui = ctx.frame(&mut hub);
    let builder = TabBar::new(String::from("tabs")).reorderable(true);
    assert_eq!(builder.current_flags().bits, TAB_BAR_FLAGS_REORDERABLE);
    let bar = builder.begin(&mut ui);
    let item = TabItem::new(String::from("first")).opened(true).begin(&mut ui);
    assert!(item.end(&mut ui).is_ok());
    let item = TabItem::new(String::from("second")).begin(&mut ui);
    assert!(item.end(&mut ui).is_ok());
    assert!(bar.end(&mut ui).is_ok());
    assert!(ui.end_frame(&mut hub).is_ok());
}

#[test]
fn collapsing_header_builder() {
    let h = CollapsingHeader::new(String::from("section"))
        .default_open(true)
        .open_on_arrow(true)
        .leaf(false)
        .bullet(true)
        .allow_item_overlap(false)
        .open_on_double_click(false)
        .frame_padding(true);
    // DEFAULT_OPEN | OPEN_ON_ARROW | BULLET | FRAME_PADDING
    assert_eq!(h.current_flags().bits, 0x20 | 0x80 | 0x200 | 0x400);
}

#[test]
fn menu_item_and_slider_builders() {
    let _m = imhex_ui::menu::MenuItem::new(String::from("Open"))
        .shortcut(String::from("Ctrl+O"))
        .selected(false)
        .enabled(true);
    let _s = Slider::new(String::from("count"), 0i32, 100i32)
        .range(4, 8)
        .display_format(String::from("%d"));
    let _l = imhex_ui::list_box::ListBox::new(String::from("items"));
}

#[test]
fn drag_drop_source_builder() {
    let s = DragDropSource::new(String::from("BUTTON_DRAG"))
        .flags(DragDropFlags::from_bits(DRAG_DROP_FLAGS_SOURCE_EXTERN))
        .condition(Condition::Once);
    assert_eq!(s.current_flags().bits, DRAG_DROP_FLAGS_SOURCE_EXTERN);
}

#[test]
fn condition_and_direction_values() {
    assert_eq!(Condition::Never.value(), -1);
    assert_eq!(Condition::Always.value(), 1);
    assert_eq!(Condition::Once.value(), 2);
    assert_eq!(Condition::FirstUseEver.value(), 4);
    assert_eq!(Condition::Appearing.value(), 8);
    assert_eq!(Direction::NoDirection.value(), -1);
    assert_eq!(Direction::Left.value(), 0);
    assert_eq!(Direction::Down.value(), 3);
}

#[test]
fn textures_hand_out_fresh_ids() {
    let mut textures: Textures<String> = Textures::new();
    let a = textures.insert(String::from("a"));
    let b = textures.insert(String::from("b"));
    assert_ne!(a.id(), b.id());
    assert_eq!(textures.get(a), Some(&String::from("a")));
    assert_eq!(textures.get(b), Some(&String::from("b")));
    let old = textures.replace(a, String::from("c"));
    assert_eq!(old, Some(String::from("a")));
    assert_eq!(textures.get(a), Some(&String::from("c")));
    let removed = textures.remove(b);
    assert_eq!(removed, Some(String::from("b")));
    assert_eq!(textures.get(b), None);
    assert_eq!(TextureId::new(42).id(), 42);
}

#[test]
fn glyph_ranges_accept_valid_lists() {
    let r = FontGlyphRanges::from_slice(vec![0x20, 0xFF, 0x400, 0x4FF, 0]);
    assert!(r.is_ok());
    let _named = (
        FontGlyphRanges::default(),
        FontGlyphRanges::chinese_simplified_common(),
        FontGlyphRanges::chinese_full(),
        FontGlyphRanges::cyrillic(),
        FontGlyphRanges::japanese(),
        FontGlyphRanges::korean(),
        FontGlyphRanges::thai(),
        FontGlyphRanges::vietnamese(),
    );
}

#[test]
fn glyph_ranges_reject_ill_formed_lists() {
    assert_eq!(
        FontGlyphRanges::from_slice(vec![0x20, 0xFF]),
        Err(GlyphRangeError::EvenLength)
    );
    assert_eq!(
        FontGlyphRanges::from_slice(vec![0x20, 0xFF, 7]),
        Err(GlyphRangeError::MissingTerminator)
    );
    assert_eq!(
        FontGlyphRanges::from_slice(vec![0x20, 0, 0x30, 0x40, 0]),
        Err(GlyphRangeError::ZeroGlyph)
    );
    assert_eq!(
        FontGlyphRanges::from_slice(vec![0x20, 0x110000, 0]),
        Err(GlyphRangeError::GlyphOutOfRange)
    );
    assert_eq!(
        FontGlyphRanges::from_slice(vec![0xFF, 0x20, 0]),
        Err(GlyphRangeError::InvertedRange)
    );
    assert_eq!(
        FontGlyphRanges::from_slice(vec![0x20, 0x30, 0x25, 0x40, 0]),
        Err(GlyphRangeError::OverlappingRanges)
    );
}

#[test]
fn color_editor_enums_exist() {
    assert_ne!(ColorEditInputMode::Rgb, ColorEditInputMode::Hsv);
    assert_ne!(ColorFormat::U8, ColorFormat::Float);
}

#[test]
fn clipboard_dummy_backend() {
    let mut dummy = DummyClipboardContext {};
    dummy.set("ignored");
    assert_eq!(dummy.get(), None);
}

#[test]
fn text_callback_data_edits() {
    let mut data = TextCallbackData::new(String::from("hello"));
    assert_eq!(data.text(), "hello");
    assert!(!data.has_selection());
    data.push_str(" world");
    assert_eq!(data.text(), "hello world");
    data.insert_chars(5, ",");
    assert_eq!(data.text(), "hello, world");
    data.remove_chars(5, 1);
    assert_eq!(data.text(), "hello world");
    data.set_cursor_pos(3);
    assert_eq!(data.cursor_pos(), 3);
    data.select_all();
    assert_eq!(data.selection(), (0, 11));
    assert_eq!(data.selected(), String::from("hello world"));
    data.clear_selection();
    assert_eq!(data.selection(), (3, 3));
    assert!(!data.has_selection());
    *data.selection_start_mut() = 1;
    *data.selection_end_mut() = 4;
    assert_eq!(data.selected(), String::from("ell"));
}

#[test]
fn dear_imgui_version_string() {
    assert_eq!(imhex_ui::dear_imgui_version(), "1.81");
}
