//! Decision logic of a keyboard-locking screen guard: which keys and mouse
//! events a locked screen lets through, when a burst of modifier presses must
//! be swallowed before it opens an accessibility dialog, how the
//! accessibility registry values are saved and put back, and how the unlock
//! password is stored and checked.

pub mod key_guard;
pub mod registry_backup;
pub mod text;
pub mod password;
pub mod hook_state;
pub mod app_actions;
