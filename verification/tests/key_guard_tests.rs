use lock_screen::key_guard::{
    check_and_block_accessibility, is_allowed_key, is_suspect, keyboard_hook_blocks,
    keyboard_hook_blocks_at, record_key_press, AccessibilityGuard, HC_ACTION, REPEAT_WINDOW_NANOS,
    WM_KEYDOWN, WM_SYSKEYDOWN,
};

const MS: u128 = 1_000_000;

#[test]
fn fifth_rapid_shift_press_is_blocked() {
    let mut guard = AccessibilityGuard::new();
    for i in 0..4u128 {
        assert!(!record_key_press(&mut guard, 0xA0, i * 50 * MS));
    }
    assert_eq!(guard.pending_presses(), 4);
    assert!(record_key_press(&mut guard, 0xA0, 200 * MS));
    assert_eq!(guard.pending_presses(), 0);
}

#[test]
fn press_after_block_starts_a_new_run() {
    let mut guard = AccessibilityGuard::new();
    for i in 0..5u128 {
        record_key_press(&mut guard, 0xA4, i * MS);
    }
    assert!(!record_key_press(&mut guard, 0xA4, 6 * MS));
    assert_eq!(guard.pending_presses(), 1);
}

#[test]
fn slow_presses_never_block() {
    let mut guard = AccessibilityGuard::new();
    for i in 0..20u128 {
        assert!(!record_key_press(&mut guard, 0xA1, i * 401 * MS));
        assert_eq!(guard.pending_presses(), 1);
    }
}

#[test]
fn window_boundary_is_inclusive() {
    // A press exactly 400 ms old still counts; one older than that expires.
    let mut guard = AccessibilityGuard::new();
    for t in [0u128, 100, 200, 300] {
        record_key_press(&mut guard, 0xA2, t * MS);
    }
    assert!(record_key_press(&mut guard, 0xA2, REPEAT_WINDOW_NANOS));

    let mut guard = AccessibilityGuard::new();
    for t in [0u128, 100, 200, 300] {
        record_key_press(&mut guard, 0xA2, t * MS);
    }
    assert!(!record_key_press(&mut guard, 0xA2, REPEAT_WINDOW_NANOS + 1));
    assert_eq!(guard.pending_presses(), 4);
}

#[test]
fn other_key_resets_the_run() {
    let mut guard = AccessibilityGuard::new();
    for i in 0..4u128 {
        record_key_press(&mut guard, 0xA0, i * MS);
    }
    assert!(!record_key_press(&mut guard, 0xA1, 5 * MS));
    assert_eq!(guard.pending_presses(), 1);
    assert!(!record_key_press(&mut guard, 0xA0, 6 * MS));
    assert_eq!(guard.pending_presses(), 1);
}

#[test]
fn ordinary_keys_are_not_counted() {
    let mut guard = AccessibilityGuard::new();
    for i in 0..10u128 {
        assert!(!record_key_press(&mut guard, 0x41, i * MS));
    }
    assert_eq!(guard.pending_presses(), 0);
}

#[test]
fn clock_driven_burst_is_blocked() {
    let mut guard = AccessibilityGuard::new();
    let mut blocked = false;
    for _ in 0..5 {
        blocked |= check_and_block_accessibility(&mut guard, 0xA3);
    }
    assert!(blocked);
    assert!(!check_and_block_accessibility(&mut guard, 0x20));
}

#[test]
fn suspect_keys_are_shift_ctrl_alt() {
    for vk in 0xA0..=0xA5u32 {
        assert!(is_suspect(vk));
    }
    assert!(!is_suspect(0x9F));
    assert!(!is_suspect(0xA6));
    assert!(!is_suspect(0x5B));
}

#[test]
fn allowed_keys_of_the_guard() {
    for vk in [0x08u32, 0x0D, 0x20, 0x2E, 0xBE, 0x1B, 0x14, 0x30, 0x39, 0x41, 0x5A] {
        assert!(is_allowed_key(vk), "{vk:#x}");
    }
    for vk in [0x5Bu32, 0x5C, 0x09, 0x2F, 0x3A, 0x40, 0x5B, 0x60, 0x70, 0xA0, 0x12] {
        assert!(!is_allowed_key(vk), "{vk:#x}");
    }
}

#[test]
fn hook_blocks_windows_key_and_passes_letters() {
    let mut guard = AccessibilityGuard::new();
    assert!(keyboard_hook_blocks_at(&mut guard, HC_ACTION, WM_KEYDOWN, 0x5B, 0));
    assert!(keyboard_hook_blocks_at(&mut guard, HC_ACTION, WM_SYSKEYDOWN, 0x09, 0));
    assert!(!keyboard_hook_blocks_at(&mut guard, HC_ACTION, WM_KEYDOWN, 0x41, 0));
    // Shift is not an input key: every press of it is swallowed.
    assert!(keyboard_hook_blocks_at(&mut guard, HC_ACTION, WM_KEYDOWN, 0xA0, 0));
    assert_eq!(guard.pending_presses(), 1);
}

#[test]
fn hook_passes_releases_and_other_codes() {
    let mut guard = AccessibilityGuard::new();
    assert!(!keyboard_hook_blocks_at(&mut guard, HC_ACTION, 0x101, 0x5B, 0));
    assert!(!keyboard_hook_blocks_at(&mut guard, 3, WM_KEYDOWN, 0x5B, 0));
    assert!(!keyboard_hook_blocks(&mut guard, -1, WM_KEYDOWN, 0xA0));
    assert_eq!(guard.pending_presses(), 0);
    assert!(keyboard_hook_blocks(&mut guard, HC_ACTION, WM_KEYDOWN, 0x5B));
}

#[test]
fn other_keys_between_repeats_do_not_break_the_run() {
    let mut guard = AccessibilityGuard::new();
    let presses = [(0xA0u32, 0u128), (0xA0, 10), (0x41, 20), (0xA0, 30), (0x0D, 35), (0xA0, 40)];
    for (vk, t) in presses {
        assert!(!record_key_press(&mut guard, vk, t * MS));
    }
    assert!(record_key_press(&mut guard, 0xA0, 50 * MS));
}
