//! Draw-surface exclusivity: one live handle per surface kind.

use imhex_ui::context::{Context, ContextHub};
use imhex_ui::draw_list::SurfaceKind;

#[test]
fn window_draw_list_is_exclusive() {
    let mut hub = ContextHub::new();
    let mut ctx = Context::create(&mut hub).unwrap();
    let mut ui = ctx.frame(&mut hub);
    let first = ui.get_window_draw_list().unwrap();
    // A second handle to the same surface kind is refused, with an
    // error naming the surface.
    let second = ui.get_window_draw_list();
    let err = second.err().unwrap();
    assert_eq!(err.kind, SurfaceKind::Window);
    assert!(err.message().contains("window"));
    // Releasing the first handle makes the surface acquirable again.
    first.release(&mut ui);
    let third = ui.get_window_draw_list();
    assert!(third.is_ok());
    third.unwrap().release(&mut ui);
    assert!(ui.end_frame(&mut hub).is_ok());
}

#[test]
fn surface_kinds_are_independent() {
    let mut hub = ContextHub::new();
    let mut ctx = Context::create(&mut hub).unwrap();
    let mut ui = ctx.frame(&mut hub);
    let w = ui.get_window_draw_list().unwrap();
    let b = ui.get_background_draw_list().unwrap();
    let f = ui.get_foreground_draw_list().unwrap();
    assert!(ui.get_background_draw_list().is_err());
    assert!(ui.get_foreground_draw_list().is_err());
    w.release(&mut ui);
    b.release(&mut ui);
    f.release(&mut ui);
    assert!(ui.end_frame(&mut hub).is_ok());
}

#[test]
fn held_surface_is_flagged_as_leak() {
    let mut hub = ContextHub::new();
    let mut ctx = Context::create(&mut hub).unwrap();
    let mut ui = ctx.frame(&mut hub);
    let _handle = ui.get_foreground_draw_list().unwrap();
    let leak = ui.end_frame(&mut hub).unwrap_err();
    assert_eq!(leak.held_surfaces, 1);
    assert_eq!(
        leak.message(),
        "a draw-surface handle was leaked: it was never released"
    );
}

#[test]
fn surface_names() {
    assert_eq!(SurfaceKind::Window.name(), "window");
    assert_eq!(SurfaceKind::Background.name(), "background");
    assert_eq!(SurfaceKind::Foreground.name(), "foreground");
}
