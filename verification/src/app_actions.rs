//! Decisions of the lock screen application around its window and tray:
//! which setting a settings key names, which lock state a password-box
//! toggle selects, and what the tray menu and the window toggle do.

use vstd::prelude::*;
use crate::hook_state::{LOCK_PASSWORD_HIDDEN, LOCK_PASSWORD_VISIBLE};
use crate::text::str_equals;

verus! {

/// A setting that the settings window may change.
#[derive(Clone, Copy, PartialEq, Eq, Structural, Debug)]
pub enum SettingKey {
    AutoHide,
    OverlayOpacity,
    DimmedOpacity,
    BreathingLight,
}

/// The setting that `key` names, if any.
pub open spec fn spec_setting_key(key: Seq<char>) -> Option<SettingKey> {
    if key == "auto_hide"@ {
        Some(SettingKey::AutoHide)
    } else if key == "overlay_opacity"@ {
        Some(SettingKey::OverlayOpacity)
    } else if key == "dimmed_opacity"@ {
        Some(SettingKey::DimmedOpacity)
    } else if key == "breathing_light"@ {
        Some(SettingKey::BreathingLight)
    } else {
        None
    }
}

/// Reads a settings key; `None` for a key that names no setting.
pub fn parse_setting_key(key: &str) -> (setting: Option<SettingKey>)
    ensures
        setting == spec_setting_key(key@),
{
    if str_equals(key, "auto_hide") {
        Some(SettingKey::AutoHide)
    } else if str_equals(key, "overlay_opacity") {
        Some(SettingKey::OverlayOpacity)
    } else if str_equals(key, "dimmed_opacity") {
        Some(SettingKey::DimmedOpacity)
    } else if str_equals(key, "breathing_light") {
        Some(SettingKey::BreathingLight)
    } else {
        None
    }
}

impl SettingKey {
    /// Whether the setting is a switch (set by values above one half) rather
    /// than an opacity (clamped to the unit interval).
    pub fn is_switch(&self) -> (r: bool)
        ensures
            r == (*self == SettingKey::AutoHide || *self == SettingKey::BreathingLight),
    {
        match self {
            SettingKey::AutoHide | SettingKey::BreathingLight => true,
            _ => false,
        }
    }
}

pub open spec fn spec_unknown_setting_message(key: Seq<char>) -> Seq<char> {
    "未知设置项: "@ + key
}

/// The error for a key that names no setting.
pub fn unknown_setting_message(key: &str) -> (m: String)
    ensures
        m@ == spec_unknown_setting_message(key@),
{
    let mut m = "未知设置项: ".to_owned();
    m.append(key);
    m
}

/// The lock state for a shown or hidden password box.
pub fn password_visibility_lock_state(visible: bool) -> (state: u8)
    ensures
        state == (if visible { LOCK_PASSWORD_VISIBLE } else { LOCK_PASSWORD_HIDDEN }),
{
    if visible {
        LOCK_PASSWORD_VISIBLE
    } else {
        LOCK_PASSWORD_HIDDEN
    }
}

/// What a tray menu entry does.
#[derive(Clone, Copy, PartialEq, Eq, Structural, Debug)]
pub enum TrayAction {
    ToggleMainWindow,
    Quit,
    Ignore,
}

pub open spec fn spec_tray_action(id: Seq<char>) -> TrayAction {
    if id == "show"@ {
        TrayAction::ToggleMainWindow
    } else if id == "quit"@ {
        TrayAction::Quit
    } else {
        TrayAction::Ignore
    }
}

/// What the tray menu entry `id` does.
pub fn tray_menu_action(id: &str) -> (action: TrayAction)
    ensures
        action == spec_tray_action(id@),
{
    if str_equals(id, "show") {
        TrayAction::ToggleMainWindow
    } else if str_equals(id, "quit") {
        TrayAction::Quit
    } else {
        TrayAction::Ignore
    }
}

/// What toggling the main window does.
#[derive(Clone, Copy, PartialEq, Eq, Structural, Debug)]
pub enum WindowAction {
    Hide,
    ShowAndFocus,
}

/// Toggling hides a visible window and shows and focuses a hidden one.
pub fn window_toggle_action(is_visible: bool) -> (action: WindowAction)
    ensures
        action == (if is_visible { WindowAction::Hide } else { WindowAction::ShowAndFocus }),
{
    if is_visible {
        WindowAction::Hide
    } else {
        WindowAction::ShowAndFocus
    }
}

} // verus!
