use lock_screen::hook_state::{
    begin_hook_install, caps_lock_off_inputs, caps_lock_toggled, hook_thread_started,
    hook_thread_stopped, hook_thread_to_quit, is_allowed_key, keyboard_proc_blocks, log_line,
    mouse_proc_blocks, poll_mouse_click, remember_layout, set_lock_state, HookState, KeyInput,
    LayoutChange, LOCK_PASSWORD_HIDDEN, LOCK_PASSWORD_VISIBLE, LOCK_UNLOCKED, WM_KEYDOWN,
    WM_KEYUP, WM_LBUTTONDOWN, WM_MOUSEMOVE, WM_SYSKEYDOWN,
};

fn locked(state: u8) -> HookState {
    let mut hooks = HookState::new();
    set_lock_state(&mut hooks, state);
    hooks
}

#[test]
fn unlocked_screen_passes_everything() {
    let mut hooks = HookState::new();
    assert_eq!(hooks.lock_state(), LOCK_UNLOCKED);
    assert!(!keyboard_proc_blocks(&hooks, 0, WM_KEYDOWN as usize, 0x5B));
    assert!(!mouse_proc_blocks(&mut hooks, 0, WM_LBUTTONDOWN as usize));
    assert!(!poll_mouse_click(&mut hooks));
}

#[test]
fn hidden_box_passes_only_escape() {
    let hooks = locked(LOCK_PASSWORD_HIDDEN);
    assert!(!keyboard_proc_blocks(&hooks, 0, WM_KEYDOWN as usize, 0x1B));
    assert!(keyboard_proc_blocks(&hooks, 0, WM_KEYDOWN as usize, 0x41));
    assert!(keyboard_proc_blocks(&hooks, 0, WM_SYSKEYDOWN as usize, 0x0D));
    assert!(!keyboard_proc_blocks(&hooks, 0, WM_KEYUP as usize, 0x41));
    assert!(!keyboard_proc_blocks(&hooks, -1, WM_KEYDOWN as usize, 0x41));
}

#[test]
fn shown_box_passes_input_keys() {
    let hooks = locked(LOCK_PASSWORD_VISIBLE);
    for vk in [0x41u32, 0x5A, 0x30, 0x65, 0x08, 0x0D, 0x25, 0x1B, 0x14] {
        assert!(!keyboard_proc_blocks(&hooks, 0, WM_KEYDOWN as usize, vk), "{vk:#x}");
    }
    for vk in [0x5Bu32, 0x09, 0x70, 0xA4, 0x6A] {
        assert!(keyboard_proc_blocks(&hooks, 0, WM_KEYDOWN as usize, vk), "{vk:#x}");
    }
}

#[test]
fn unknown_lock_state_passes_keys_but_not_clicks() {
    let mut hooks = locked(7);
    assert!(!keyboard_proc_blocks(&hooks, 0, WM_KEYDOWN as usize, 0x5B));
    assert!(mouse_proc_blocks(&mut hooks, 0, 0x20A));
}

#[test]
fn allowed_keys_of_the_password_box() {
    assert!(is_allowed_key(0x60));
    assert!(is_allowed_key(0x69));
    assert!(is_allowed_key(0x2D));
    assert!(!is_allowed_key(0x6A));
    assert!(!is_allowed_key(0xBE));
    assert!(!is_allowed_key(-1));
}

#[test]
fn clicks_are_blocked_and_reported_once() {
    let mut hooks = locked(LOCK_PASSWORD_HIDDEN);
    assert!(!mouse_proc_blocks(&mut hooks, 0, WM_MOUSEMOVE as usize));
    assert!(!poll_mouse_click(&mut hooks));
    assert!(mouse_proc_blocks(&mut hooks, 0, 0x20A));
    assert!(!poll_mouse_click(&mut hooks));
    assert!(mouse_proc_blocks(&mut hooks, 0, WM_LBUTTONDOWN as usize));
    assert!(poll_mouse_click(&mut hooks));
    assert!(!poll_mouse_click(&mut hooks));
}

#[test]
fn layout_is_switched_and_restored() {
    let mut hooks = HookState::new();
    assert_eq!(set_lock_state(&mut hooks, LOCK_UNLOCKED), LayoutChange::Keep);
    assert_eq!(
        set_lock_state(&mut hooks, LOCK_PASSWORD_VISIBLE),
        LayoutChange::RecordAndSwitchToEnglish
    );
    remember_layout(&mut hooks, 0x0804_0804);
    assert_eq!(hooks.lock_state(), LOCK_PASSWORD_VISIBLE);
    // Hiding and showing the password box keeps the layout recorded at locking.
    assert_eq!(set_lock_state(&mut hooks, LOCK_PASSWORD_HIDDEN), LayoutChange::SwitchToEnglish);
    assert_eq!(set_lock_state(&mut hooks, LOCK_PASSWORD_VISIBLE), LayoutChange::SwitchToEnglish);
    assert_eq!(
        set_lock_state(&mut hooks, LOCK_UNLOCKED),
        LayoutChange::Restore { layout: 0x0804_0804 }
    );
}

#[test]
fn caps_lock_bits() {
    assert!(caps_lock_toggled(1));
    assert!(caps_lock_toggled(-127));
    assert!(!caps_lock_toggled(0));
    assert!(!caps_lock_toggled(-128));
    assert!(caps_lock_off_inputs(false).is_empty());
    assert_eq!(
        caps_lock_off_inputs(true),
        vec![
            KeyInput { vk: 0x14, scan: 0x3A, key_up: false },
            KeyInput { vk: 0x14, scan: 0x3A, key_up: true },
        ]
    );
}

#[test]
fn one_hook_thread_at_a_time() {
    let mut hooks = HookState::new();
    assert_eq!(hook_thread_to_quit(&hooks), None);
    assert!(begin_hook_install(&mut hooks));
    assert!(!begin_hook_install(&mut hooks));
    hook_thread_started(&mut hooks, 4242);
    assert_eq!(hook_thread_to_quit(&hooks), Some(4242));
    hook_thread_stopped(&mut hooks);
    assert_eq!(hook_thread_to_quit(&hooks), None);
    assert!(begin_hook_install(&mut hooks));
}

#[test]
fn log_lines() {
    assert_eq!(log_line(0, "x"), "[0] x\n");
    assert_eq!(log_line(1700000000, "set_lock_state: 2"), "[1700000000] set_lock_state: 2\n");
    assert_eq!(log_line(u64::MAX, ""), "[18446744073709551615] \n");
}

#[test]
fn click_survives_later_mouse_events_until_polled() {
    let mut hooks = locked(LOCK_PASSWORD_VISIBLE);
    assert!(mouse_proc_blocks(&mut hooks, 0, WM_LBUTTONDOWN as usize));
    assert!(!mouse_proc_blocks(&mut hooks, 0, WM_MOUSEMOVE as usize));
    assert!(mouse_proc_blocks(&mut hooks, 0, 0x20A));
    assert!(!mouse_proc_blocks(&mut hooks, -1, WM_LBUTTONDOWN as usize));
    assert!(poll_mouse_click(&mut hooks));
    assert!(!mouse_proc_blocks(&mut hooks, 0, WM_MOUSEMOVE as usize));
    assert!(mouse_proc_blocks(&mut hooks, 0, 0x20A));
    assert!(!poll_mouse_click(&mut hooks));
}
