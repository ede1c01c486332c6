use lock_screen::app_actions::{
    parse_setting_key, password_visibility_lock_state, tray_menu_action, unknown_setting_message,
    window_toggle_action, SettingKey, TrayAction, WindowAction,
};
use lock_screen::text::{encode_hex, push_decimal, str_equals};

#[test]
fn setting_keys() {
    assert_eq!(parse_setting_key("auto_hide"), Some(SettingKey::AutoHide));
    assert_eq!(parse_setting_key("overlay_opacity"), Some(SettingKey::OverlayOpacity));
    assert_eq!(parse_setting_key("dimmed_opacity"), Some(SettingKey::DimmedOpacity));
    assert_eq!(parse_setting_key("breathing_light"), Some(SettingKey::BreathingLight));
    assert_eq!(parse_setting_key("Auto_hide"), None);
    assert_eq!(parse_setting_key("auto_hide "), None);
    assert_eq!(parse_setting_key(""), None);
    assert!(SettingKey::AutoHide.is_switch());
    assert!(!SettingKey::DimmedOpacity.is_switch());
}

#[test]
fn unknown_setting_error() {
    assert_eq!(unknown_setting_message("volume"), "未知设置项: volume");
}

#[test]
fn password_box_lock_states() {
    assert_eq!(password_visibility_lock_state(true), 2);
    assert_eq!(password_visibility_lock_state(false), 1);
}

#[test]
fn tray_and_window() {
    assert_eq!(tray_menu_action("show"), TrayAction::ToggleMainWindow);
    assert_eq!(tray_menu_action("quit"), TrayAction::Quit);
    assert_eq!(tray_menu_action("about"), TrayAction::Ignore);
    assert_eq!(window_toggle_action(true), WindowAction::Hide);
    assert_eq!(window_toggle_action(false), WindowAction::ShowAndFocus);
}

#[test]
fn text_helpers() {
    assert_eq!(encode_hex(&[0x00, 0x0f, 0xa5, 0xff]), "000fa5ff");
    assert_eq!(encode_hex(&[]), "");
    let mut s = String::from("n=");
    push_decimal(&mut s, 1030);
    assert_eq!(s, "n=1030");
    assert!(str_equals("é", "é"));
    assert!(!str_equals("ab", "abc"));
    assert!(!str_equals("ab", "ac"));
}
