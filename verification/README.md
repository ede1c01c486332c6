# lock_screen

Verified decision logic of a Windows lock screen: a keyboard guard that
swallows every key the password box does not need and bursts of Shift, Ctrl or
Alt presses that would open an accessibility dialog; the registry plan that
switches the accessibility shortcuts off and puts them back; the lock states
that the keyboard and mouse hooks obey; and the unlock password, stored as the
hexadecimal SHA-256 digest of its bytes.

- `src/` — the library, checked by Verus: `key_guard`, `registry_backup`,
  `hook_state`, `password`, `app_actions`, `text`.
- `tests/` — tests of the library on concrete values.
- `app/` — the Windows side (registry, hooks, Tauri window and tray), which
  reads and acts while the library decides.
