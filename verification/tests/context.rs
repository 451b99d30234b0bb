//! Context lifecycle behaviour: at most one active context, creation,
//! suspension, activation and destruction.

use imhex_ui::context::{Context, ContextHub, SharedFontAtlas, SuspendedContext};

fn no_current_context(hub: &ContextHub) -> bool {
    !hub.has_active()
}

#[test]
fn test_one_context() {
    let mut hub = ContextHub::new();
    let _ctx = Context::create(&mut hub).unwrap();
    assert!(!no_current_context(&hub));
}

#[test]
fn test_drop_clears_current_context() {
    let mut hub = ContextHub::new();
    {
        let ctx1 = Context::create(&mut hub).unwrap();
        assert!(!no_current_context(&hub));
        ctx1.destroy(&mut hub);
    }
    assert!(no_current_context(&hub));
    {
        let ctx2 = Context::create(&mut hub).unwrap();
        assert!(!no_current_context(&hub));
        ctx2.destroy(&mut hub);
    }
    assert!(no_current_context(&hub));
}

#[test]
fn test_new_suspended() {
    let mut hub = ContextHub::new();
    let ctx = Context::create(&mut hub).unwrap();
    let suspended = SuspendedContext::create(&mut hub);
    let current = Context::current(&hub).unwrap();
    assert_eq!(current.context_id(), ctx.context_id());
    suspended.destroy(&mut hub);
    let current = Context::current(&hub).unwrap();
    assert_eq!(current.context_id(), ctx.context_id());
}

#[test]
fn test_suspend() {
    let mut hub = ContextHub::new();
    let ctx = Context::create(&mut hub).unwrap();
    assert!(!no_current_context(&hub));
    let _suspended = ctx.suspend(&mut hub);
    assert!(no_current_context(&hub));
    let _ctx2 = Context::create(&mut hub).unwrap();
}

#[test]
fn test_drop_suspended() {
    let mut hub = ContextHub::new();
    let suspended = Context::create(&mut hub).unwrap().suspend(&mut hub);
    assert!(no_current_context(&hub));
    let ctx2 = Context::create(&mut hub).unwrap();
    suspended.destroy(&mut hub);
    let current = Context::current(&hub).unwrap();
    assert_eq!(current.context_id(), ctx2.context_id());
}

#[test]
fn test_suspend_activate() {
    let mut hub = ContextHub::new();
    let suspended = Context::create(&mut hub).unwrap().suspend(&mut hub);
    assert!(no_current_context(&hub));
    let ctx = suspended.activate(&mut hub).ok().unwrap();
    let current = Context::current(&hub).unwrap();
    assert_eq!(current.context_id(), ctx.context_id());
}

#[test]
fn test_suspend_failure() {
    let mut hub = ContextHub::new();
    let suspended = Context::create(&mut hub).unwrap().suspend(&mut hub);
    let _ctx = Context::create(&mut hub).unwrap();
    assert!(suspended.activate(&mut hub).is_err());
}

#[test]
fn test_shared_font_atlas() {
    let mut hub = ContextHub::new();
    let atlas = SharedFontAtlas::create(&mut hub);
    let suspended1 = SuspendedContext::create_with_shared_font_atlas(&mut hub, atlas);
    let mut ctx2 = Context::create_with_shared_font_atlas(&mut hub, atlas).unwrap();
    {
        let ui = ctx2.frame(&mut hub);
        assert!(ui.end_frame(&mut hub).is_ok());
    }
    let _suspended2 = ctx2.suspend(&mut hub);
    let mut ctx = suspended1.activate(&mut hub).ok().unwrap();
    let ui = ctx.frame(&mut hub);
    assert!(ui.end_frame(&mut hub).is_ok());
}

#[test]
fn test_default_ini_filename() {
    let mut hub = ContextHub::new();
    let ctx = Context::create(&mut hub).unwrap();
    assert_eq!(ctx.ini_filename(), Some(String::from("imgui.ini")));
}

#[test]
fn test_set_ini_filename() {
    let mut hub = ContextHub::new();
    let mut ctx = Context::create(&mut hub).unwrap();
    ctx.set_ini_filename(Some(String::from("test.ini")));
    assert_eq!(ctx.ini_filename(), Some(String::from("test.ini")));
}

#[test]
fn test_default_log_filename() {
    let mut hub = ContextHub::new();
    let ctx = Context::create(&mut hub).unwrap();
    assert_eq!(ctx.log_filename(), Some(String::from("imgui_log.txt")));
}

#[test]
fn test_set_log_filename() {
    let mut hub = ContextHub::new();
    let mut ctx = Context::create(&mut hub).unwrap();
    ctx.set_log_filename(Some(String::from("test.log")));
    assert_eq!(ctx.log_filename(), Some(String::from("test.log")));
}

#[test]
fn second_create_fails_while_active() {
    let mut hub = ContextHub::new();
    let _ctx1 = Context::create(&mut hub).unwrap();
    let second = Context::create(&mut hub);
    assert!(second.is_err());
    assert_eq!(
        second.err().unwrap().message(),
        "a new active context cannot be created, because another one already exists"
    );
}

#[test]
fn create_after_suspend_succeeds_and_activate_fails() {
    let mut hub = ContextHub::new();
    let first = Context::create(&mut hub).unwrap();
    let suspended = first.suspend(&mut hub);
    let second = Context::create(&mut hub).unwrap();
    // Exactly one context is active: the second one.
    let current = Context::current(&hub).unwrap();
    assert_eq!(current.context_id(), second.context_id());
    // The original suspended handle cannot be activated now.
    assert!(suspended.activate(&mut hub).is_err());
}

#[test]
fn destroy_active_then_none_active() {
    let mut hub = ContextHub::new();
    let ctx = Context::create(&mut hub).unwrap();
    ctx.destroy(&mut hub);
    assert!(!hub.has_active());
}

#[test]
fn destroy_suspended_keeps_active_unchanged() {
    let mut hub = ContextHub::new();
    let suspended = Context::create(&mut hub).unwrap().suspend(&mut hub);
    let active = Context::create(&mut hub).unwrap();
    suspended.destroy(&mut hub);
    assert_eq!(
        Context::current(&hub).unwrap().context_id(),
        active.context_id()
    );
}

#[test]
fn platform_and_renderer_names_round_trip() {
    let mut hub = ContextHub::new();
    let mut ctx = Context::create(&mut hub).unwrap();
    assert_eq!(ctx.platform_name(), None);
    assert_eq!(ctx.renderer_name(), None);
    ctx.set_platform_name(Some(String::from("custom-platform")));
    ctx.set_renderer_name(Some(String::from("custom-renderer")));
    assert_eq!(ctx.platform_name(), Some(String::from("custom-platform")));
    assert_eq!(ctx.renderer_name(), Some(String::from("custom-renderer")));
    ctx.set_platform_name(None);
    assert_eq!(ctx.platform_name(), None);
}

#[test]
fn stale_default_font_is_cleared_at_frame_start() {
    let mut hub = ContextHub::new();
    let mut ctx = Context::create(&mut hub).unwrap();
    let font = ctx.add_font(&mut hub);
    ctx.set_default_font(Some(font));
    let ui = ctx.frame(&mut hub);
    assert!(ui.end_frame(&mut hub).is_ok());
    // The font exists, so the selection survives the frame.
    assert_eq!(ctx.default_font(), Some(font));
    // A font identifier the atlas never handed out is cleared.
    ctx.set_default_font(Some(imhex_ui::fonts::FontId(999)));
    let ui = ctx.frame(&mut hub);
    assert!(ui.end_frame(&mut hub).is_ok());
    assert_eq!(ctx.default_font(), None);
}
