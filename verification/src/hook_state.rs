//! State shared by the lock screen's low-level keyboard and mouse hooks, and
//! the decisions they take from it: what a locked screen lets through, when
//! the keyboard layout is switched and restored, and the life of the thread
//! that owns the hooks.

use vstd::prelude::*;
use crate::text::{decimal_text, push_decimal};

verus! {

/// The screen is not locked: the hooks let everything through.
pub const LOCK_UNLOCKED: u8 = 0;

/// The screen is locked and the password box is hidden.
pub const LOCK_PASSWORD_HIDDEN: u8 = 1;

/// The screen is locked and the password box is shown.
pub const LOCK_PASSWORD_VISIBLE: u8 = 2;

pub const VK_BACK: i32 = 0x08;
pub const VK_RETURN: i32 = 0x0D;
pub const VK_CAPITAL: i32 = 0x14;
pub const VK_ESCAPE: i32 = 0x1B;
pub const VK_SPACE: i32 = 0x20;
pub const VK_PRIOR: i32 = 0x21;
pub const VK_NEXT: i32 = 0x22;
pub const VK_END: i32 = 0x23;
pub const VK_HOME: i32 = 0x24;
pub const VK_LEFT: i32 = 0x25;
pub const VK_UP: i32 = 0x26;
pub const VK_RIGHT: i32 = 0x27;
pub const VK_DOWN: i32 = 0x28;
pub const VK_INSERT: i32 = 0x2D;
pub const VK_DELETE: i32 = 0x2E;

pub const WM_KEYDOWN: u32 = 0x100;
pub const WM_KEYUP: u32 = 0x101;
pub const WM_SYSKEYDOWN: u32 = 0x104;
pub const WM_SYSKEYUP: u32 = 0x105;
pub const WM_MOUSEMOVE: u32 = 0x200;
pub const WM_LBUTTONDOWN: u32 = 0x201;
pub const WM_LBUTTONUP: u32 = 0x202;
pub const WM_RBUTTONDOWN: u32 = 0x204;
pub const WM_RBUTTONUP: u32 = 0x205;
pub const WM_MBUTTONDOWN: u32 = 0x207;
pub const WM_MBUTTONUP: u32 = 0x208;

/// Scan code of Caps Lock.
pub const CAPS_LOCK_SCAN: u16 = 0x3A;

/// What the hooks know.
pub struct HookState {
    lock_state: u8,
    mouse_clicked: bool,
    hook_installed: bool,
    hook_thread_id: Option<u32>,
    saved_layout: isize,
}

/// The contents of a `HookState`.
pub struct HookStateView {
    /// One of the `LOCK_*` values, or any other byte that was set.
    pub lock_state: u8,
    /// A mouse click was swallowed and not yet reported.
    pub mouse_clicked: bool,
    /// A hook thread has been asked for and has not stopped.
    pub hook_installed: bool,
    /// The thread that runs the hooks' message loop, once it runs.
    pub hook_thread_id: Option<u32>,
    /// The keyboard layout that was active when the screen was locked; zero
    /// if none was recorded.
    pub saved_layout: isize,
}

impl View for HookState {
    type V = HookStateView;

    closed spec fn view(&self) -> HookStateView {
        HookStateView {
            lock_state: self.lock_state,
            mouse_clicked: self.mouse_clicked,
            hook_installed: self.hook_installed,
            hook_thread_id: self.hook_thread_id,
            saved_layout: self.saved_layout,
        }
    }
}

/// What to do with the keyboard layout after the lock state changed.
#[derive(Clone, Copy, PartialEq, Eq, Structural, Debug)]
pub enum LayoutChange {
    /// The screen has just been locked: record the active layout, then
    /// activate US English (`00000409`).
    RecordAndSwitchToEnglish,
    /// The screen was locked already: activate US English and keep the
    /// layout recorded when it was locked.
    SwitchToEnglish,
    /// Activate the layout recorded when the screen was locked.
    Restore { layout: isize },
    /// Leave the layout alone: none was recorded.
    Keep,
}

/// One synthesized keyboard event.
#[derive(Clone, Copy, PartialEq, Eq, Structural, Debug)]
pub struct KeyInput {
    pub vk: u16,
    pub scan: u16,
    pub key_up: bool,
}

pub open spec fn spec_layout_change(state: HookStateView, lock_state: u8) -> LayoutChange {
    if lock_state != LOCK_UNLOCKED && state.lock_state == LOCK_UNLOCKED {
        LayoutChange::RecordAndSwitchToEnglish
    } else if lock_state != LOCK_UNLOCKED {
        LayoutChange::SwitchToEnglish
    } else if state.saved_layout != 0 {
        LayoutChange::Restore { layout: state.saved_layout }
    } else {
        LayoutChange::Keep
    }
}

pub open spec fn with_lock_state(state: HookStateView, lock_state: u8) -> HookStateView {
    HookStateView { lock_state, ..state }
}

pub open spec fn with_saved_layout(state: HookStateView, layout: isize) -> HookStateView {
    HookStateView { saved_layout: layout, ..state }
}

/// The state after a click report.
pub open spec fn after_poll(state: HookStateView) -> HookStateView {
    HookStateView { mouse_clicked: false, ..state }
}

/// The state after a mouse hook call.
pub open spec fn after_mouse_event(state: HookStateView, n_code: i32, w_param: usize) -> HookStateView {
    HookStateView {
        mouse_clicked: state.mouse_clicked || (spec_mouse_blocks(state.lock_state, n_code, w_param)
            && is_click_message(w_param as u32)),
        ..state
    }
}

/// The state after the hook thread was asked for.
pub open spec fn after_install_request(state: HookStateView) -> HookStateView {
    HookStateView { hook_installed: true, ..state }
}

/// The state after the hook thread ended.
pub open spec fn after_thread_stopped(state: HookStateView) -> HookStateView {
    HookStateView { hook_installed: false, hook_thread_id: None, ..state }
}

/// Keys that a locked screen lets through while the password box is shown:
/// the digits (main row and keypad), the letters, and the editing and
/// navigation keys.
pub open spec fn spec_is_allowed_key(vk: i32) -> bool {
    ||| 0x30 <= vk <= 0x39
    ||| 0x41 <= vk <= 0x5A
    ||| 0x60 <= vk <= 0x69
    ||| vk == VK_BACK || vk == VK_RETURN || vk == VK_SPACE || vk == VK_CAPITAL
    ||| vk == VK_DELETE || vk == VK_HOME || vk == VK_END || vk == VK_LEFT
    ||| vk == VK_RIGHT || vk == VK_UP || vk == VK_DOWN || vk == VK_INSERT
    ||| vk == VK_PRIOR || vk == VK_NEXT || vk == VK_ESCAPE
}

/// Whether the keyboard hook swallows an event: only key presses on a
/// locked screen are swallowed; with the password box hidden every press
/// but Esc, with it shown every press but the allowed keys.
pub open spec fn spec_keyboard_blocks(lock_state: u8, n_code: i32, w_param: usize, vk: u32) -> bool {
    let message = w_param as u32;
    &&& n_code >= 0
    &&& lock_state != LOCK_UNLOCKED
    &&& message != WM_KEYUP && message != WM_SYSKEYUP
    &&& message == WM_KEYDOWN || message == WM_SYSKEYDOWN
    &&& {
        ||| lock_state == LOCK_PASSWORD_HIDDEN && vk != VK_ESCAPE as u32
        ||| lock_state == LOCK_PASSWORD_VISIBLE && !spec_is_allowed_key(vk as i32)
    }
}

/// Mouse button messages, down or up.
pub open spec fn is_click_message(message: u32) -> bool {
    ||| message == WM_LBUTTONDOWN || message == WM_RBUTTONDOWN || message == WM_MBUTTONDOWN
    ||| message == WM_LBUTTONUP || message == WM_RBUTTONUP || message == WM_MBUTTONUP
}

/// Whether the mouse hook swallows an event: on a locked screen everything
/// but moves is swallowed.
pub open spec fn spec_mouse_blocks(lock_state: u8, n_code: i32, w_param: usize) -> bool {
    n_code >= 0 && lock_state != LOCK_UNLOCKED && (w_param as u32) != WM_MOUSEMOVE
}

impl HookState {
    /// Unlocked, no click, no hook thread, no recorded layout.
    pub fn new() -> (hooks: Self)
        ensures
            hooks@ == (HookStateView {
                lock_state: LOCK_UNLOCKED,
                mouse_clicked: false,
                hook_installed: false,
                hook_thread_id: None,
                saved_layout: 0,
            }),
    {
        HookState {
            lock_state: LOCK_UNLOCKED,
            mouse_clicked: false,
            hook_installed: false,
            hook_thread_id: None,
            saved_layout: 0,
        }
    }

    /// The current lock state.
    pub fn lock_state(&self) -> (s: u8)
        ensures
            s == self@.lock_state,
    {
        self.lock_state
    }
}

/// Sets the lock state, and says what becomes of the keyboard layout:
/// locking records the active layout and switches to English, a change
/// between locked states only switches to English, unlocking restores the
/// layout recorded when the screen was locked.
pub fn set_lock_state(hooks: &mut HookState, state: u8) -> (change: LayoutChange)
    ensures
        final(hooks)@ == with_lock_state(old(hooks)@, state),
        change == spec_layout_change(old(hooks)@, state),
{
    let was_unlocked = hooks.lock_state == LOCK_UNLOCKED;
    hooks.lock_state = state;
    if state != LOCK_UNLOCKED && was_unlocked {
        LayoutChange::RecordAndSwitchToEnglish
    } else if state != LOCK_UNLOCKED {
        LayoutChange::SwitchToEnglish
    } else if hooks.saved_layout != 0 {
        LayoutChange::Restore { layout: hooks.saved_layout }
    } else {
        LayoutChange::Keep
    }
}

/// Records the layout that was active before the switch to English.
pub fn remember_layout(hooks: &mut HookState, layout: isize)
    ensures
        final(hooks)@ == with_saved_layout(old(hooks)@, layout),
{
    hooks.saved_layout = layout;
}

/// Reports whether a click was swallowed since the last report, and forgets
/// it.
pub fn poll_mouse_click(hooks: &mut HookState) -> (clicked: bool)
    ensures
        clicked == old(hooks)@.mouse_clicked,
        final(hooks)@ == after_poll(old(hooks)@),
{
    let clicked = hooks.mouse_clicked;
    hooks.mouse_clicked = false;
    clicked
}

/// Whether a press of `vk` may be typed into the shown password box.
pub fn is_allowed_key(vk: i32) -> (r: bool)
    ensures
        r == spec_is_allowed_key(vk),
{
    (vk >= 0x30 && vk <= 0x39) || (vk >= 0x41 && vk <= 0x5A) || (vk >= 0x60 && vk <= 0x69) || vk
        == VK_BACK || vk == VK_RETURN || vk == VK_SPACE || vk == VK_CAPITAL || vk == VK_DELETE
        || vk == VK_HOME || vk == VK_END || vk == VK_LEFT || vk == VK_RIGHT || vk == VK_UP || vk
        == VK_DOWN || vk == VK_INSERT || vk == VK_PRIOR || vk == VK_NEXT || vk == VK_ESCAPE
}

/// The keyboard hook's decision: true swallows the event, false passes it
/// on to the next hook.
pub fn keyboard_proc_blocks(hooks: &HookState, n_code: i32, w_param: usize, vk: u32) -> (blocked: bool)
    ensures
        blocked == spec_keyboard_blocks(hooks@.lock_state, n_code, w_param, vk),
{
    if n_code < 0 {
        return false;
    }
    let message = w_param as u32;
    let state = hooks.lock_state;
    if state == LOCK_UNLOCKED {
        return false;
    }
    if message == WM_KEYUP || message == WM_SYSKEYUP {
        return false;
    }
    if message == WM_KEYDOWN || message == WM_SYSKEYDOWN {
        if state == LOCK_PASSWORD_HIDDEN {
            return vk != VK_ESCAPE as u32;
        }
        if state == LOCK_PASSWORD_VISIBLE {
            return !is_allowed_key(vk as i32);
        }
    }
    false
}

/// The mouse hook's decision: true swallows the event. A swallowed click is
/// recorded for `poll_mouse_click`.
pub fn mouse_proc_blocks(hooks: &mut HookState, n_code: i32, w_param: usize) -> (blocked: bool)
    ensures
        blocked == spec_mouse_blocks(old(hooks)@.lock_state, n_code, w_param),
        final(hooks)@ == after_mouse_event(old(hooks)@, n_code, w_param),
{
    if n_code < 0 {
        return false;
    }
    if hooks.lock_state == LOCK_UNLOCKED {
        return false;
    }
    let message = w_param as u32;
    if message == WM_MOUSEMOVE {
        return false;
    }
    if message == WM_LBUTTONDOWN || message == WM_RBUTTONDOWN || message == WM_MBUTTONDOWN
        || message == WM_LBUTTONUP || message == WM_RBUTTONUP || message == WM_MBUTTONUP {
        hooks.mouse_clicked = true;
        return true;
    }
    true
}

/// Whether Caps Lock is on, given the key state that `GetKeyState` reports
/// for it: its low-order bit is the toggle.
pub fn caps_lock_toggled(key_state: i16) -> (on: bool)
    ensures
        on == (key_state & 1i16 != 0),
{
    (key_state & 0x0001) != 0
}

/// The events that turn Caps Lock off: a press and a release of it where it
/// is on, nothing where it is off.
pub fn caps_lock_off_inputs(caps_on: bool) -> (inputs: Vec<KeyInput>)
    ensures
        caps_on ==> inputs@ == seq![
            KeyInput { vk: VK_CAPITAL as u16, scan: CAPS_LOCK_SCAN, key_up: false },
            KeyInput { vk: VK_CAPITAL as u16, scan: CAPS_LOCK_SCAN, key_up: true },
        ],
        !caps_on ==> inputs@.len() == 0,
{
    let mut inputs: Vec<KeyInput> = Vec::new();
    if caps_on {
        inputs.push(KeyInput { vk: VK_CAPITAL as u16, scan: CAPS_LOCK_SCAN, key_up: false });
        inputs.push(KeyInput { vk: VK_CAPITAL as u16, scan: CAPS_LOCK_SCAN, key_up: true });
        assert(inputs@ =~= seq![
            KeyInput { vk: VK_CAPITAL as u16, scan: CAPS_LOCK_SCAN, key_up: false },
            KeyInput { vk: VK_CAPITAL as u16, scan: CAPS_LOCK_SCAN, key_up: true },
        ]);
    }
    inputs
}

/// Claims the hook thread: true where none was running, so one is to be
/// started; false where one already runs.
pub fn begin_hook_install(hooks: &mut HookState) -> (start: bool)
    ensures
        start == !old(hooks)@.hook_installed,
        final(hooks)@ == after_install_request(old(hooks)@),
{
    let was_installed = hooks.hook_installed;
    hooks.hook_installed = true;
    !was_installed
}

/// Records the thread that runs the hooks' message loop.
pub fn hook_thread_started(hooks: &mut HookState, thread_id: u32)
    ensures
        final(hooks)@ == (HookStateView { hook_thread_id: Some(thread_id), ..old(hooks)@ }),
{
    hooks.hook_thread_id = Some(thread_id);
}

/// Records that the hook thread has ended, or failed to set its hooks: a new
/// one may be started.
pub fn hook_thread_stopped(hooks: &mut HookState)
    ensures
        final(hooks)@ == after_thread_stopped(old(hooks)@),
{
    hooks.hook_installed = false;
    hooks.hook_thread_id = None;
}

/// The thread to ask to quit when the hooks are to be removed.
pub fn hook_thread_to_quit(hooks: &HookState) -> (thread: Option<u32>)
    ensures
        thread == hooks@.hook_thread_id,
{
    hooks.hook_thread_id
}

/// A line of the hook log: `[<seconds since the epoch>] <message>` and a
/// line break.
pub open spec fn spec_log_line(now_secs: u64, msg: Seq<char>) -> Seq<char> {
    "["@ + decimal_text(now_secs as nat) + "] "@ + msg + "\n"@
}

/// Formats a line of the hook log.
pub fn log_line(now_secs: u64, msg: &str) -> (line: String)
    ensures
        line@ == spec_log_line(now_secs, msg@),
{
    let mut line = String::new();
    line.append("[");
    push_decimal(&mut line, now_secs);
    line.append("] ");
    line.append(msg);
    line.append("\n");
    assert(line@ =~= spec_log_line(now_secs, msg@));
    line
}

/// The state after the lock state was set to each of `locks`, in order,
/// with no layout recorded on the way.
pub open spec fn after_lock_states(state: HookStateView, locks: Seq<u8>) -> HookStateView
    decreases locks.len(),
{
    if locks.len() == 0 {
        state
    } else {
        with_lock_state(after_lock_states(state, locks.drop_last()), locks.last())
    }
}

/// Changes between locked states keep the screen locked and the recorded
/// layout in place.
proof fn lemma_locked_changes_keep_layout(state: HookStateView, locks: Seq<u8>)
    requires
        state.lock_state != LOCK_UNLOCKED,
        forall|i: int| 0 <= i < locks.len() ==> locks[i] != LOCK_UNLOCKED,
    ensures
        after_lock_states(state, locks).lock_state != LOCK_UNLOCKED,
        after_lock_states(state, locks).saved_layout == state.saved_layout,
    decreases locks.len(),
{
    if locks.len() > 0 {
        lemma_locked_changes_keep_layout(state, locks.drop_last());
    }
}

/// Locking records the layout in use and switches to English; however often
/// the password box is then shown or hidden, each change only switches to
/// English again; unlocking restores the layout recorded at locking.
pub proof fn lemma_unlock_restores_layout(state: HookStateView, lock: u8, layout: isize, locks: Seq<u8>)
    requires
        state.lock_state == LOCK_UNLOCKED,
        lock != LOCK_UNLOCKED,
        layout != 0,
        forall|i: int| 0 <= i < locks.len() ==> locks[i] != LOCK_UNLOCKED,
    ensures
        spec_layout_change(state, lock) == LayoutChange::RecordAndSwitchToEnglish,
        forall|i: int|
            0 <= i < locks.len() ==> spec_layout_change(
                after_lock_states(with_saved_layout(with_lock_state(state, lock), layout), locks.take(i)),
                #[trigger] locks[i],
            ) == LayoutChange::SwitchToEnglish,
        spec_layout_change(
            after_lock_states(with_saved_layout(with_lock_state(state, lock), layout), locks),
            LOCK_UNLOCKED,
        ) == (LayoutChange::Restore { layout }),
{
    let locked = with_saved_layout(with_lock_state(state, lock), layout);
    assert forall|i: int| 0 <= i < locks.len() implies spec_layout_change(
        after_lock_states(locked, locks.take(i)),
        #[trigger] locks[i],
    ) == LayoutChange::SwitchToEnglish by {
        lemma_locked_changes_keep_layout(locked, locks.take(i));
    }
    lemma_locked_changes_keep_layout(locked, locks);
}

/// An unlocked screen lets every keyboard and mouse event through.
pub proof fn lemma_unlocked_passes_everything(n_code: i32, w_param: usize, vk: u32)
    ensures
        !spec_keyboard_blocks(LOCK_UNLOCKED, n_code, w_param, vk),
        !spec_mouse_blocks(LOCK_UNLOCKED, n_code, w_param),
{
}

/// Key releases always pass, so no key stays held down in Windows.
pub proof fn lemma_key_release_passes(lock: u8, n_code: i32, w_param: usize, vk: u32)
    requires
        (w_param as u32) == WM_KEYUP || (w_param as u32) == WM_SYSKEYUP,
    ensures
        !spec_keyboard_blocks(lock, n_code, w_param, vk),
{
}

/// With the password box hidden, Esc (which shows it) is the one key press
/// that passes.
pub proof fn lemma_hidden_box_passes_only_escape(n_code: i32, w_param: usize, vk: u32)
    requires
        n_code >= 0,
        (w_param as u32) == WM_KEYDOWN || (w_param as u32) == WM_SYSKEYDOWN,
    ensures
        spec_keyboard_blocks(LOCK_PASSWORD_HIDDEN, n_code, w_param, vk) == (vk != VK_ESCAPE as u32),
{
}

/// The state after the mouse hook was called with each of `events`
/// (`n_code`, `w_param`), in order.
pub open spec fn after_mouse_events(state: HookStateView, events: Seq<(i32, usize)>) -> HookStateView
    decreases events.len(),
{
    if events.len() == 0 {
        state
    } else {
        after_mouse_event(
            after_mouse_events(state, events.drop_last()),
            events.last().0,
            events.last().1,
        )
    }
}

/// Mouse events that include no swallowed click under `lock_state`.
pub open spec fn no_swallowed_click(lock_state: u8, events: Seq<(i32, usize)>) -> bool {
    forall|i: int|
        0 <= i < events.len() ==> !(spec_mouse_blocks(lock_state, #[trigger] events[i].0, events[i].1)
            && is_click_message(events[i].1 as u32))
}

/// Mouse events leave the lock state alone, keep a pending click, and add
/// one only for a swallowed click.
proof fn lemma_mouse_events(state: HookStateView, events: Seq<(i32, usize)>)
    ensures
        after_mouse_events(state, events).lock_state == state.lock_state,
        state.mouse_clicked ==> after_mouse_events(state, events).mouse_clicked,
        !state.mouse_clicked && no_swallowed_click(state.lock_state, events)
            ==> !after_mouse_events(state, events).mouse_clicked,
    decreases events.len(),
{
    if events.len() > 0 {
        let prefix = events.drop_last();
        lemma_mouse_events(state, prefix);
        if no_swallowed_click(state.lock_state, events) {
            assert forall|i: int| 0 <= i < prefix.len() implies !(spec_mouse_blocks(
                state.lock_state,
                #[trigger] prefix[i].0,
                prefix[i].1,
            ) && is_click_message(prefix[i].1 as u32)) by {
                assert(prefix[i] == events[i]);
            }
            assert(events.last() == events[events.len() - 1]);
        }
    }
}

/// A click swallowed on a locked screen is reported by the next poll,
/// whatever mouse events come between; that poll clears it, and later polls
/// report nothing as long as no further click is swallowed.
pub proof fn lemma_click_reported_once(
    state: HookStateView,
    n_code: i32,
    w_param: usize,
    before_poll: Seq<(i32, usize)>,
    after_first_poll: Seq<(i32, usize)>,
)
    requires
        state.lock_state != LOCK_UNLOCKED,
        n_code >= 0,
        is_click_message(w_param as u32),
        no_swallowed_click(state.lock_state, after_first_poll),
    ensures
        spec_mouse_blocks(state.lock_state, n_code, w_param),
        after_mouse_events(after_mouse_event(state, n_code, w_param), before_poll).mouse_clicked,
        !after_mouse_events(
            after_poll(after_mouse_events(after_mouse_event(state, n_code, w_param), before_poll)),
            after_first_poll,
        ).mouse_clicked,
{
    let clicked = after_mouse_event(state, n_code, w_param);
    lemma_mouse_events(clicked, before_poll);
    let polled = after_poll(after_mouse_events(clicked, before_poll));
    lemma_mouse_events(polled, after_first_poll);
}

/// A second request for the hook thread, while the first one runs, starts
/// nothing; once the thread has stopped, a request starts one again.
pub proof fn lemma_single_hook_thread(state: HookStateView)
    ensures
        after_install_request(state).hook_installed,
        !after_thread_stopped(after_install_request(state)).hook_installed,
{
}

/// The keys that may be typed into the shown password box are exactly the
/// main-row digits 0x30..=0x39, the letters 0x41..=0x5A, the keypad digits
/// 0x60..=0x69, Backspace (0x08), Enter (0x0D), Caps Lock (0x14), Esc
/// (0x1B), Space (0x20), Page Up and Down (0x21, 0x22), End (0x23), Home
/// (0x24), the arrows (0x25..=0x28), Insert (0x2D) and Delete (0x2E). Tab,
/// the Windows keys, the function keys and the modifiers are not.
pub proof fn lemma_password_box_keys(vk: i32)
    ensures
        spec_is_allowed_key(vk) <==> {
            ||| 0x30 <= vk && vk <= 0x39
            ||| 0x41 <= vk && vk <= 0x5A
            ||| 0x60 <= vk && vk <= 0x69
            ||| vk == 0x08
            ||| vk == 0x0D
            ||| vk == 0x14
            ||| vk == 0x1B
            ||| 0x20 <= vk && vk <= 0x28
            ||| vk == 0x2D
            ||| vk == 0x2E
        },
        vk == 0x09 || vk == 0x5B || vk == 0x5C || (0x70 <= vk && vk <= 0x87) || (0xA0 <= vk && vk
            <= 0xA5) || vk == 0x2C ==> !spec_is_allowed_key(vk),
{
}

/// With the password box shown, a key press is swallowed exactly when its
/// key is not an allowed key, alike with and without Alt held (WM_KEYDOWN
/// 0x100 and WM_SYSKEYDOWN 0x104): Alt+Tab and Alt+F4 are swallowed.
pub proof fn lemma_shown_box_filters_presses(n_code: i32, vk: u32)
    requires
        n_code >= 0,
    ensures
        spec_keyboard_blocks(LOCK_PASSWORD_VISIBLE, n_code, 0x100usize, vk) == !spec_is_allowed_key(
            vk as i32,
        ),
        spec_keyboard_blocks(LOCK_PASSWORD_VISIBLE, n_code, 0x104usize, vk) == !spec_is_allowed_key(
            vk as i32,
        ),
        spec_keyboard_blocks(LOCK_PASSWORD_VISIBLE, n_code, 0x104usize, 0x09),
        spec_keyboard_blocks(LOCK_PASSWORD_VISIBLE, n_code, 0x104usize, 0x73),
        spec_keyboard_blocks(LOCK_PASSWORD_VISIBLE, n_code, 0x100usize, 0x5B),
{
    assert((0x100usize as u32) == 0x100u32);
    assert((0x104usize as u32) == 0x104u32);
}

/// On a locked screen, a press or release of the left (0x201, 0x202), right
/// (0x204, 0x205) or middle (0x207, 0x208) button with a non-negative code
/// is swallowed and recorded for the next poll; a move (0x200) passes and
/// records nothing; any other mouse event (wheel, extra buttons) is
/// swallowed and records nothing.
pub proof fn lemma_locked_mouse(state: HookStateView, n_code: i32, w_param: usize)
    requires
        state.lock_state != LOCK_UNLOCKED,
        n_code >= 0,
        w_param <= 0xFFFF,
    ensures
        w_param == 0x201 || w_param == 0x202 || w_param == 0x204 || w_param == 0x205 || w_param
            == 0x207 || w_param == 0x208 ==> spec_mouse_blocks(state.lock_state, n_code, w_param)
            && after_mouse_event(state, n_code, w_param).mouse_clicked,
        w_param == 0x200 ==> !spec_mouse_blocks(state.lock_state, n_code, w_param)
            && after_mouse_event(state, n_code, w_param) == state,
        !(w_param == 0x200 || w_param == 0x201 || w_param == 0x202 || w_param == 0x204 || w_param
            == 0x205 || w_param == 0x207 || w_param == 0x208) ==> spec_mouse_blocks(
            state.lock_state,
            n_code,
            w_param,
        ) && after_mouse_event(state, n_code, w_param) == state,
        after_mouse_event(state, n_code, w_param).lock_state == state.lock_state,
{
    assert((w_param as u32) == w_param);
}

} // verus!
