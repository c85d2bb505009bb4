use minimize_ytm::tray::{
    route_message, toggle_action, MessageAction, ToggleAction, WM_APP, WM_TRAY_ICON,
};

#[test]
fn tray_message_is_after_wm_app() {
    assert_eq!(WM_TRAY_ICON, WM_APP + 1);
    assert_eq!(WM_TRAY_ICON, 0x8001);
}

#[test]
fn win_y_hotkey_toggles() {
    assert_eq!(route_message(0x0312, 1, 0), MessageAction::Toggle);
    assert_eq!(route_message(0x0312, 2, 0), MessageAction::Default);
}

#[test]
fn tray_double_click_restores_and_exits() {
    assert_eq!(route_message(0x8001, 0, 0x0203), MessageAction::RestoreAndExit);
    assert_eq!(route_message(0x8001, 1, 0x0203), MessageAction::RestoreAndExit);
}

#[test]
fn tray_mouse_event_uses_low_32_bits() {
    let lparam: isize = ((5i64 << 32) | 0x0203) as isize;
    assert_eq!(route_message(0x8001, 0, lparam), MessageAction::RestoreAndExit);
}

#[test]
fn tray_right_click_opens_menu() {
    assert_eq!(route_message(0x8001, 0, 0x0205), MessageAction::ShowContextMenu);
    assert_eq!(route_message(0x8001, 0, 0x0201), MessageAction::Default);
}

#[test]
fn exit_command_ignores_notification_code() {
    assert_eq!(route_message(0x0111, 1001, 0), MessageAction::Exit);
    assert_eq!(route_message(0x0111, (1 << 16) | 1001, 0), MessageAction::Exit);
    assert_eq!(route_message(0x0111, 1002, 0), MessageAction::Default);
}

#[test]
fn destroy_posts_quit() {
    assert_eq!(route_message(0x0002, 0, 0), MessageAction::PostQuit);
}

#[test]
fn other_messages_go_to_default() {
    assert_eq!(route_message(0x000F, 1, 0x0203), MessageAction::Default);
    assert_eq!(route_message(0x0203, 1001, 0), MessageAction::Default);
}

#[test]
fn toggle_hides_visible_and_shows_hidden() {
    assert_eq!(toggle_action(true), ToggleAction::Hide);
    assert_eq!(toggle_action(false), ToggleAction::Show);
}
