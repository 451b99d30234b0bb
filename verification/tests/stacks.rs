//! Scope nesting, parameter stacks, batched tokens and leak flagging.

use imhex_ui::color::ImColor32;
use imhex_ui::context::{Context, ContextHub};
use imhex_ui::session::{Id, Ui};
use imhex_ui::stacks::ItemFlag;
use imhex_ui::style::{StyleColor, StyleVar};
use imhex_ui::window::Window;

fn frame(hub: &mut ContextHub) -> (Context, Ui) {
    let mut ctx = Context::create(hub).unwrap();
    let ui = ctx.frame(hub);
    (ctx, ui)
}

#[test]
fn window_and_group_nest_in_reverse_order() {
    let mut hub = ContextHub::new();
    let (_ctx, mut ui) = frame(&mut hub);
    let window = Window::new(String::from("main")).begin(&mut ui);
    let group = ui.begin_group();
    assert_eq!(ui.open_scope_count(), 2);
    // Both ends fire in reverse creation order.
    assert!(group.end(&mut ui).is_ok());
    assert!(window.end(&mut ui).is_ok());
    assert_eq!(ui.open_scope_count(), 0);
    assert!(ui.end_frame(&mut hub).is_ok());
}

#[test]
fn ending_window_before_group_is_rejected() {
    let mut hub = ContextHub::new();
    let (_ctx, mut ui) = frame(&mut hub);
    let window = Window::new(String::from("main")).begin(&mut ui);
    let group = ui.begin_group();
    // The window is not the most recently opened scope: misuse is
    // detected before the mismatched end could execute.
    let err = window.end(&mut ui);
    assert!(err.is_err());
    assert_eq!(ui.open_scope_count(), 2);
    // The group can still end normally.
    assert!(group.end(&mut ui).is_ok());
    // The window begin was never matched, so ending the frame reports
    // the leak.
    let leak = ui.end_frame(&mut hub).unwrap_err();
    assert_eq!(leak.open_scopes, 1);
    assert_eq!(
        leak.message(),
        "a scope token was leaked: a begin was never matched by its end"
    );
}

#[test]
fn batched_color_push_pop_restores_depth() {
    let mut hub = ContextHub::new();
    let (_ctx, mut ui) = frame(&mut hub);
    let red = ImColor32::from_rgba(0xff, 0, 0, 0xff);
    let green = ImColor32::from_rgba(0, 0xff, 0, 0xff);
    let colors = vec![(StyleColor::Text, red), (StyleColor::TextDisabled, green)];
    let token = ui.push_style_colors(&colors);
    assert_eq!(ui.color_stack_depth(), 2);
    // One explicit pop closes the whole batch of two.
    assert!(token.pop(&mut ui).is_ok());
    assert_eq!(ui.color_stack_depth(), 0);
    assert!(ui.end_frame(&mut hub).is_ok());
}

#[test]
fn leaked_batch_token_is_flagged() {
    let mut hub = ContextHub::new();
    let (_ctx, mut ui) = frame(&mut hub);
    let red = ImColor32::from_rgba(0xff, 0, 0, 0xff);
    let colors = vec![(StyleColor::Text, red), (StyleColor::Border, red)];
    let _token = ui.push_style_colors(&colors);
    // The batch was never explicitly closed: ending the frame flags
    // the leak.
    let leak = ui.end_frame(&mut hub).unwrap_err();
    assert!(leak.has_open_pushes);
    assert_eq!(
        leak.message(),
        "a stack token was leaked: a push was never popped"
    );
}

#[test]
fn single_color_and_style_pushes_pop_in_reverse() {
    let mut hub = ContextHub::new();
    let (_ctx, mut ui) = frame(&mut hub);
    let c = ImColor32::from_rgb(1, 2, 3);
    let t1 = ui.push_style_color(StyleColor::Text, c);
    let t2 = ui.push_style_color(StyleColor::Border, c);
    // Popping the outer push first is rejected, and changes nothing.
    assert!(t1.pop(&mut ui).is_err());
    assert_eq!(ui.color_stack_depth(), 2);
    assert!(t2.pop(&mut ui).is_ok());
    assert_eq!(ui.color_stack_depth(), 1);
    // The first push stayed open, so the frame reports a leak.
    let s1 = ui.push_style_var(StyleVar::Alpha);
    assert!(s1.pop(&mut ui).is_ok());
    assert!(ui.end_frame(&mut hub).is_err());
}

#[test]
fn id_and_item_stacks_round_trip() {
    let mut hub = ContextHub::new();
    let (_ctx, mut ui) = frame(&mut hub);
    let id1 = ui.push_id(Id::Int(7));
    let id2 = ui.push_id(Id::Str(String::from("node")));
    assert_eq!(ui.id_stack_depth(), 2);
    assert!(id2.pop(&mut ui).is_ok());
    assert!(id1.pop(&mut ui).is_ok());
    assert_eq!(ui.id_stack_depth(), 0);
    let w = ui.push_item_width();
    let p = ui.push_text_wrap_pos();
    let f = ui.push_item_flag(ItemFlag::ButtonRepeat(true));
    assert!(f.pop(&mut ui).is_ok());
    assert!(p.pop(&mut ui).is_ok());
    assert!(w.pop(&mut ui).is_ok());
    assert!(ui.end_frame(&mut hub).is_ok());
}

#[test]
fn font_push_requires_registered_font() {
    let mut hub = ContextHub::new();
    let mut ctx = Context::create(&mut hub).unwrap();
    let font = ctx.add_font(&mut hub);
    let mut ui = ctx.frame(&mut hub);
    assert!(ui.fonts().get_font(font).is_some());
    let token = ui.push_font(font);
    assert_eq!(ui.font_stack_depth(), 1);
    assert!(token.pop(&mut ui).is_ok());
    assert!(ui.end_frame(&mut hub).is_ok());
}

#[test]
fn tree_node_without_push_is_a_no_op_on_pop() {
    let mut hub = ContextHub::new();
    let (_ctx, mut ui) = frame(&mut hub);
    let token = ui.begin_tree_node(false);
    assert_eq!(ui.open_scope_count(), 0);
    assert!(token.pop(&mut ui).is_ok());
    let token = ui.begin_tree_node(true);
    assert_eq!(ui.open_scope_count(), 1);
    assert!(token.pop(&mut ui).is_ok());
    assert!(ui.end_frame(&mut hub).is_ok());
}

#[test]
fn menus_and_child_windows_nest() {
    let mut hub = ContextHub::new();
    let (_ctx, mut ui) = frame(&mut hub);
    let bar = ui.begin_main_menu_bar();
    let menu = ui.begin_menu("File");
    assert!(menu.end(&mut ui).is_ok());
    assert!(bar.end(&mut ui).is_ok());
    let window = Window::new(String::from("outer")).begin(&mut ui);
    let child = ui.begin_child_window("inner");
    // The outer window cannot end while the child is open.
    assert!(child.end(&mut ui).is_ok());
    assert!(window.end(&mut ui).is_ok());
    assert!(ui.end_frame(&mut hub).is_ok());
}

#[test]
fn render_succeeds_only_when_balanced() {
    let mut hub = ContextHub::new();
    let mut ctx = Context::create(&mut hub).unwrap();
    // A balanced frame renders and yields draw data.
    let mut ui = ctx.frame(&mut hub);
    let window = Window::new(String::from("w")).begin(&mut ui);
    assert!(window.end(&mut ui).is_ok());
    assert!(ui.render(&mut hub).is_ok());
    // A frame with an open scope is rejected as a leak instead.
    let mut ui = ctx.frame(&mut hub);
    let _open = ui.begin_group();
    assert!(ui.render(&mut hub).is_err());
}
