use tray_shell::command::my_custom_command;
use tray_shell::tray::{ControllerState, TrayController};

#[test]
fn invocation_emits_exactly_one_line() {
    let mut out: Vec<String> = Vec::new();
    my_custom_command(&mut out);
    assert_eq!(out.len(), 1);
    assert_eq!(out[0], "I was invoked from JS!");
}

#[test]
fn two_invocations_emit_same_line_twice() {
    let mut out: Vec<String> = Vec::new();
    my_custom_command(&mut out);
    my_custom_command(&mut out);
    assert_eq!(out.len(), 2);
    assert_eq!(out[0], "I was invoked from JS!");
    assert_eq!(out[1], out[0]);
}

#[test]
fn invocations_never_alter_tray_controller() {
    let c = TrayController::initialize();
    let mut out: Vec<String> = Vec::new();
    assert!(out.is_empty());
    for _ in 0..5 {
        my_custom_command(&mut out);
    }
    assert_eq!(out.len(), 5);
    for line in &out {
        assert_eq!(line, "I was invoked from JS!");
    }
    assert_eq!(c.state, ControllerState::Running);
    assert_eq!(c.menu.len(), 1);
    assert_eq!(c.menu[0].id, "quit");
    assert_eq!(c.menu[0].label, "Quit");
}
