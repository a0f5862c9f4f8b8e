use assistant_core::audit::{audit_line, backtrace_warning, AuditLevel};
use assistant_core::shortcut::{HotkeyCommand, ShortcutBinder, ShortcutError};
use assistant_core::window::{toggle_action, WindowAction};

fn bound(spec: &str) -> ShortcutBinder {
    let mut b = ShortcutBinder::new();
    assert_eq!(b.begin_rebind(spec.to_string()), HotkeyCommand::Register(spec.to_string()));
    assert_eq!(b.on_outcome(Ok(())), HotkeyCommand::Finish(Ok(())));
    b
}

#[test]
fn initial_bind_succeeds() {
    let b = bound("Alt+Space");
    assert_eq!(b.bound, Some("Alt+Space".to_string()));
    assert!(b.is_idle());
}

#[test]
fn initial_bind_failure_stays_unbound() {
    let mut b = ShortcutBinder::new();
    b.begin_rebind("Bogus".to_string());
    let r = b.on_outcome(Err("bad key".to_string()));
    assert_eq!(
        r,
        HotkeyCommand::Finish(Err(ShortcutError::RegistrationFailed("bad key".to_string())))
    );
    assert_eq!(b.bound, None);
    assert!(b.is_idle());
}

#[test]
fn rebind_replaces_binding() {
    let mut b = bound("Alt+Space");
    assert_eq!(b.begin_rebind("Ctrl+K".to_string()), HotkeyCommand::Unregister("Alt+Space".to_string()));
    assert_eq!(b.on_outcome(Ok(())), HotkeyCommand::Register("Ctrl+K".to_string()));
    assert_eq!(b.on_outcome(Ok(())), HotkeyCommand::Finish(Ok(())));
    assert_eq!(b.bound, Some("Ctrl+K".to_string()));
}

#[test]
fn failed_rebind_restores_previous() {
    let mut b = bound("Alt+Space");
    assert!(b.on_trigger(1000));
    b.begin_rebind("Invalid++".to_string());
    assert_eq!(b.on_outcome(Err("busy".to_string())), HotkeyCommand::Register("Invalid++".to_string()));
    assert_eq!(
        b.on_outcome(Err("unknown key".to_string())),
        HotkeyCommand::Register("Alt+Space".to_string())
    );
    assert_eq!(
        b.on_outcome(Ok(())),
        HotkeyCommand::Finish(Err(ShortcutError::RegistrationFailed("unknown key".to_string())))
    );
    assert_eq!(b.bound, Some("Alt+Space".to_string()));
    assert!(b.on_trigger(2000));
}

#[test]
fn failed_restore_leaves_nothing_bound() {
    let mut b = bound("Alt+Space");
    b.begin_rebind("Invalid++".to_string());
    b.on_outcome(Ok(()));
    b.on_outcome(Err("unknown key".to_string()));
    assert_eq!(
        b.on_outcome(Err("gone".to_string())),
        HotkeyCommand::Finish(Err(ShortcutError::RegistrationFailed("unknown key".to_string())))
    );
    assert_eq!(b.bound, None);
}

#[test]
fn debounce_within_window() {
    let mut b = bound("Alt+Space");
    let mut toggles = 0;
    if b.on_trigger(5000) {
        toggles += 1;
    }
    if b.on_trigger(5199) {
        toggles += 1;
    }
    assert_eq!(toggles, 1);
}

#[test]
fn debounce_outside_window() {
    let mut b = bound("Alt+Space");
    let mut toggles = 0;
    if b.on_trigger(5000) {
        toggles += 1;
    }
    if b.on_trigger(5200) {
        toggles += 1;
    }
    assert_eq!(toggles, 2);
}

#[test]
fn earlier_clock_reading_is_discarded() {
    let mut b = ShortcutBinder::new();
    assert!(b.on_trigger(1000));
    assert!(!b.on_trigger(500));
    assert_eq!(b.last_trigger_ms, Some(1000));
}

#[test]
fn audit_line_format() {
    assert_eq!(
        audit_line("2024-01-02 03:04:05", AuditLevel::Warning, "Rate limit exceeded"),
        "[2024-01-02 03:04:05] [WARNING] Rate limit exceeded\n"
    );
    assert_eq!(AuditLevel::Info.name(), "INFO");
    assert_eq!(AuditLevel::Error.name(), "ERROR");
}

#[test]
fn window_toggle() {
    assert_eq!(toggle_action(true), WindowAction::Hide);
    assert_eq!(toggle_action(false), WindowAction::ShowAndFocus);
}

#[test]
fn backtrace_setting_warns() {
    assert!(backtrace_warning(Some("1")));
    assert!(backtrace_warning(Some("full")));
    assert!(!backtrace_warning(Some("0")));
    assert!(!backtrace_warning(None));
}
