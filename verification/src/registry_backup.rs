//! The accessibility settings that the keyboard guard switches off while it
//! runs, and the plan that puts each of them back as it was found.

use vstd::prelude::*;

verus! {

/// A registry value under `HKEY_CURRENT_USER` that the guard changes.
#[derive(Clone, Copy, PartialEq, Eq, Structural, Debug, Hash)]
pub enum RegistryTarget {
    StickyKeys,
    FilterKeys,
    ToggleKeys,
    MouseKeys,
    Narrator,
}

/// A change of one registry value: write a DWORD, or delete the value.
#[derive(Clone, Copy, PartialEq, Eq, Structural, Debug)]
pub enum RegistryAction {
    Write { target: RegistryTarget, value: u32 },
    Remove { target: RegistryTarget },
}

/// Flags that switch an accessibility feature's hotkey off.
pub const HOTKEY_OFF_FLAGS: u32 = 0x3A;

pub open spec fn spec_subkey(target: RegistryTarget) -> Seq<char> {
    match target {
        RegistryTarget::StickyKeys => "Control Panel\\Accessibility\\StickyKeys"@,
        RegistryTarget::FilterKeys => "Control Panel\\Accessibility\\FilterKeys"@,
        RegistryTarget::ToggleKeys => "Control Panel\\Accessibility\\ToggleKeys"@,
        RegistryTarget::MouseKeys => "Control Panel\\Accessibility\\MouseKeys"@,
        RegistryTarget::Narrator => "SOFTWARE\\Microsoft\\Narrator\\NoRoam"@,
    }
}

pub open spec fn spec_value_name(target: RegistryTarget) -> Seq<char> {
    match target {
        RegistryTarget::Narrator => "WinEnterLaunchEnabled"@,
        _ => "Flags"@,
    }
}

/// The value written while the guard runs: the hotkey-off flags for the four
/// keyboard features, 0 (Win+Enter does not start the Narrator) for the last.
pub open spec fn spec_disabled_value(target: RegistryTarget) -> u32 {
    match target {
        RegistryTarget::Narrator => 0,
        _ => HOTKEY_OFF_FLAGS,
    }
}

impl RegistryTarget {
    /// Path of the key, under `HKEY_CURRENT_USER`, that holds the value.
    pub fn subkey(&self) -> (s: &'static str)
        ensures
            s@ == spec_subkey(*self),
    {
        match self {
            RegistryTarget::StickyKeys => "Control Panel\\Accessibility\\StickyKeys",
            RegistryTarget::FilterKeys => "Control Panel\\Accessibility\\FilterKeys",
            RegistryTarget::ToggleKeys => "Control Panel\\Accessibility\\ToggleKeys",
            RegistryTarget::MouseKeys => "Control Panel\\Accessibility\\MouseKeys",
            RegistryTarget::Narrator => "SOFTWARE\\Microsoft\\Narrator\\NoRoam",
        }
    }

    /// Name of the value inside the key.
    pub fn value_name(&self) -> (s: &'static str)
        ensures
            s@ == spec_value_name(*self),
    {
        match self {
            RegistryTarget::Narrator => "WinEnterLaunchEnabled",
            _ => "Flags",
        }
    }

    /// The value that switches the feature's shortcut off.
    pub fn disabled_value(&self) -> (v: u32)
        ensures
            v == spec_disabled_value(*self),
    {
        match self {
            RegistryTarget::Narrator => 0,
            _ => HOTKEY_OFF_FLAGS,
        }
    }
}

/// The changed values, in the order in which they are switched off and
/// restored.
pub open spec fn spec_targets() -> Seq<RegistryTarget> {
    seq![
        RegistryTarget::StickyKeys,
        RegistryTarget::FilterKeys,
        RegistryTarget::ToggleKeys,
        RegistryTarget::MouseKeys,
        RegistryTarget::Narrator,
    ]
}

/// The changed values, in order.
pub fn accessibility_targets() -> (targets: Vec<RegistryTarget>)
    ensures
        targets@ == spec_targets(),
{
    let targets = vec![
        RegistryTarget::StickyKeys,
        RegistryTarget::FilterKeys,
        RegistryTarget::ToggleKeys,
        RegistryTarget::MouseKeys,
        RegistryTarget::Narrator,
    ];
    assert(targets@ =~= spec_targets());
    targets
}

/// The writes that switch every shortcut off, in order.
pub open spec fn spec_disable_actions() -> Seq<RegistryAction> {
    spec_targets().map_values(
        |t: RegistryTarget| RegistryAction::Write { target: t, value: spec_disabled_value(t) },
    )
}

/// The writes that switch every shortcut off, in order.
pub fn disable_actions() -> (actions: Vec<RegistryAction>)
    ensures
        actions@ == spec_disable_actions(),
{
    let targets = accessibility_targets();
    let mut actions: Vec<RegistryAction> = Vec::new();
    let mut i: usize = 0;
    while i < targets.len()
        invariant
            targets@ == spec_targets(),
            i <= targets.len(),
            actions@ == spec_disable_actions().take(i as int),
        decreases targets.len() - i,
    {
        let t = targets[i];
        actions.push(RegistryAction::Write { target: t, value: t.disabled_value() });
        assert(actions@ =~= spec_disable_actions().take(i + 1));
        i = i + 1;
    }
    assert(actions@ =~= spec_disable_actions());
    actions
}

/// What each changed value held before the guard changed it: `None` where
/// the value did not exist (or could not be read).
pub struct AccessibilityBackup {
    pub sticky_keys_orig: Option<u32>,
    pub filter_keys_orig: Option<u32>,
    pub toggle_keys_orig: Option<u32>,
    pub mouse_keys_orig: Option<u32>,
    pub narrator_orig: Option<u32>,
}

impl AccessibilityBackup {
    pub open spec fn spec_original(&self, target: RegistryTarget) -> Option<u32> {
        match target {
            RegistryTarget::StickyKeys => self.sticky_keys_orig,
            RegistryTarget::FilterKeys => self.filter_keys_orig,
            RegistryTarget::ToggleKeys => self.toggle_keys_orig,
            RegistryTarget::MouseKeys => self.mouse_keys_orig,
            RegistryTarget::Narrator => self.narrator_orig,
        }
    }

    /// A backup in which no value has been recorded yet.
    pub fn nothing_recorded() -> (b: Self)
        ensures
            forall|t: RegistryTarget| b.spec_original(t) is None,
    {
        AccessibilityBackup {
            sticky_keys_orig: None,
            filter_keys_orig: None,
            toggle_keys_orig: None,
            mouse_keys_orig: None,
            narrator_orig: None,
        }
    }

    /// What the backup holds for `target`.
    pub fn original(&self, target: RegistryTarget) -> (v: Option<u32>)
        ensures
            v == self.spec_original(target),
    {
        match target {
            RegistryTarget::StickyKeys => self.sticky_keys_orig,
            RegistryTarget::FilterKeys => self.filter_keys_orig,
            RegistryTarget::ToggleKeys => self.toggle_keys_orig,
            RegistryTarget::MouseKeys => self.mouse_keys_orig,
            RegistryTarget::Narrator => self.narrator_orig,
        }
    }

    /// Records what `target` held before it was changed.
    pub fn record_original(&mut self, target: RegistryTarget, value: Option<u32>)
        ensures
            final(self).spec_original(target) == value,
            forall|t: RegistryTarget| t != target ==> final(self).spec_original(t) == old(
                self,
            ).spec_original(t),
    {
        match target {
            RegistryTarget::StickyKeys => self.sticky_keys_orig = value,
            RegistryTarget::FilterKeys => self.filter_keys_orig = value,
            RegistryTarget::ToggleKeys => self.toggle_keys_orig = value,
            RegistryTarget::MouseKeys => self.mouse_keys_orig = value,
            RegistryTarget::Narrator => self.narrator_orig = value,
        }
    }

    /// The change that puts `target` back: write the recorded value, or
    /// delete the value where none existed.
    pub open spec fn spec_restore_action(&self, target: RegistryTarget) -> RegistryAction {
        match self.spec_original(target) {
            Some(v) => RegistryAction::Write { target, value: v },
            None => RegistryAction::Remove { target },
        }
    }

    pub open spec fn spec_restore_actions(&self) -> Seq<RegistryAction> {
        spec_targets().map_values(|t: RegistryTarget| self.spec_restore_action(t))
    }

    /// The changes that put every value back as recorded, in order.
    pub fn restore_actions(&self) -> (actions: Vec<RegistryAction>)
        ensures
            actions@ == self.spec_restore_actions(),
    {
        let targets = accessibility_targets();
        let mut actions: Vec<RegistryAction> = Vec::new();
        let mut i: usize = 0;
        while i < targets.len()
            invariant
                targets@ == spec_targets(),
                i <= targets.len(),
                actions@ == self.spec_restore_actions().take(i as int),
            decreases targets.len() - i,
        {
            let t = targets[i];
            let action = match self.original(t) {
                Some(v) => RegistryAction::Write { target: t, value: v },
                None => RegistryAction::Remove { target: t },
            };
            actions.push(action);
            assert(actions@ =~= self.spec_restore_actions().take(i + 1));
            i = i + 1;
        }
        assert(actions@ =~= self.spec_restore_actions());
        actions
    }
}

/// The changed values as a map: a target is present where its value exists.
pub type RegistryModel = Map<RegistryTarget, u32>;

/// The registry after one change.
pub open spec fn apply_action(registry: RegistryModel, action: RegistryAction) -> RegistryModel {
    match action {
        RegistryAction::Write { target, value } => registry.insert(target, value),
        RegistryAction::Remove { target } => registry.remove(target),
    }
}

/// The registry after a series of changes, in order.
pub open spec fn apply_actions(registry: RegistryModel, actions: Seq<RegistryAction>) -> RegistryModel
    decreases actions.len(),
{
    if actions.len() == 0 {
        registry
    } else {
        apply_action(apply_actions(registry, actions.drop_last()), actions.last())
    }
}

/// The backup recorded by reading each value of `registry`.
pub open spec fn backup_of(registry: RegistryModel) -> AccessibilityBackup {
    AccessibilityBackup {
        sticky_keys_orig: registry.get(RegistryTarget::StickyKeys),
        filter_keys_orig: registry.get(RegistryTarget::FilterKeys),
        toggle_keys_orig: registry.get(RegistryTarget::ToggleKeys),
        mouse_keys_orig: registry.get(RegistryTarget::MouseKeys),
        narrator_orig: registry.get(RegistryTarget::Narrator),
    }
}

/// Switching off sets every changed value to its shortcut-off value.
pub proof fn lemma_disable_switches_every_shortcut_off(registry: RegistryModel)
    ensures
        forall|t: RegistryTarget|
            #![trigger apply_actions(registry, spec_disable_actions())[t]]
            apply_actions(registry, spec_disable_actions()).contains_key(t) && apply_actions(
                registry,
                spec_disable_actions(),
            )[t] == spec_disabled_value(t),
{
    reveal_with_fuel(apply_actions, 6);
    let acts = spec_disable_actions();
    assert(acts.drop_last().drop_last().drop_last().drop_last().drop_last().len() == 0);
}

/// Restoring from the backup read before switching off gives back the
/// registry as it was: values that existed hold their old data again, and
/// values that did not exist are gone again.
pub proof fn lemma_restore_undoes_disable(registry: RegistryModel)
    ensures
        apply_actions(
            apply_actions(registry, spec_disable_actions()),
            backup_of(registry).spec_restore_actions(),
        ) == registry,
{
    reveal_with_fuel(apply_actions, 6);
    let disabled = apply_actions(registry, spec_disable_actions());
    let restore = backup_of(registry).spec_restore_actions();
    assert(spec_disable_actions().drop_last().drop_last().drop_last().drop_last().drop_last().len()
        == 0);
    assert(restore.drop_last().drop_last().drop_last().drop_last().drop_last().len() == 0);
    let result = apply_actions(disabled, restore);
    assert forall|t: RegistryTarget| #[trigger] result.contains_key(t) == registry.contains_key(t)
        && (registry.contains_key(t) ==> result[t] == registry[t]) by {
        match t {
            RegistryTarget::StickyKeys => {},
            RegistryTarget::FilterKeys => {},
            RegistryTarget::ToggleKeys => {},
            RegistryTarget::MouseKeys => {},
            RegistryTarget::Narrator => {},
        }
    }
    assert(result =~= registry);
}

/// The registry location of a target: its key path and value name.
pub open spec fn location(target: RegistryTarget) -> (Seq<char>, Seq<char>) {
    (spec_subkey(target), spec_value_name(target))
}

/// The keyboard features lie under `Control Panel\Accessibility\`, each in
/// the key named after it, and the Narrator value under
/// `SOFTWARE\Microsoft\Narrator\NoRoam`; no two targets share a location.
pub proof fn lemma_locations_are_distinct(a: RegistryTarget, b: RegistryTarget)
    ensures
        a != b ==> location(a) != location(b),
        spec_subkey(RegistryTarget::StickyKeys) == "Control Panel\\Accessibility\\"@ + "StickyKeys"@,
        spec_subkey(RegistryTarget::FilterKeys) == "Control Panel\\Accessibility\\"@ + "FilterKeys"@,
        spec_subkey(RegistryTarget::ToggleKeys) == "Control Panel\\Accessibility\\"@ + "ToggleKeys"@,
        spec_subkey(RegistryTarget::MouseKeys) == "Control Panel\\Accessibility\\"@ + "MouseKeys"@,
{
    reveal_strlit("Control Panel\\Accessibility\\StickyKeys");
    reveal_strlit("Control Panel\\Accessibility\\FilterKeys");
    reveal_strlit("Control Panel\\Accessibility\\ToggleKeys");
    reveal_strlit("Control Panel\\Accessibility\\MouseKeys");
    reveal_strlit("SOFTWARE\\Microsoft\\Narrator\\NoRoam");
    reveal_strlit("Control Panel\\Accessibility\\");
    reveal_strlit("StickyKeys");
    reveal_strlit("FilterKeys");
    reveal_strlit("ToggleKeys");
    reveal_strlit("MouseKeys");
    assert(spec_subkey(RegistryTarget::StickyKeys) =~= "Control Panel\\Accessibility\\"@
        + "StickyKeys"@);
    assert(spec_subkey(RegistryTarget::FilterKeys) =~= "Control Panel\\Accessibility\\"@
        + "FilterKeys"@);
    assert(spec_subkey(RegistryTarget::ToggleKeys) =~= "Control Panel\\Accessibility\\"@
        + "ToggleKeys"@);
    assert(spec_subkey(RegistryTarget::MouseKeys) =~= "Control Panel\\Accessibility\\"@
        + "MouseKeys"@);
    if a != b {
        let sa = spec_subkey(a);
        let sb = spec_subkey(b);
        if a == RegistryTarget::Narrator || b == RegistryTarget::Narrator {
            assert(sa[0] != sb[0]);
        } else {
            assert(sa[28] != sb[28]);
        }
    }
}

/// The registry as values at locations.
pub type LocatedRegistry = Map<(Seq<char>, Seq<char>), u32>;

/// The registry after one change, written at the target's location.
pub open spec fn apply_at_location(registry: LocatedRegistry, action: RegistryAction) -> LocatedRegistry {
    match action {
        RegistryAction::Write { target, value } => registry.insert(location(target), value),
        RegistryAction::Remove { target } => registry.remove(location(target)),
    }
}

/// The registry after a series of changes at their locations.
pub open spec fn apply_at_locations(registry: LocatedRegistry, actions: Seq<RegistryAction>) -> LocatedRegistry
    decreases actions.len(),
{
    if actions.len() == 0 {
        registry
    } else {
        apply_at_location(apply_at_locations(registry, actions.drop_last()), actions.last())
    }
}

/// The backup recorded by reading each target's location in `registry`.
pub open spec fn backup_at_locations(registry: LocatedRegistry) -> AccessibilityBackup {
    AccessibilityBackup {
        sticky_keys_orig: registry.get(location(RegistryTarget::StickyKeys)),
        filter_keys_orig: registry.get(location(RegistryTarget::FilterKeys)),
        toggle_keys_orig: registry.get(location(RegistryTarget::ToggleKeys)),
        mouse_keys_orig: registry.get(location(RegistryTarget::MouseKeys)),
        narrator_orig: registry.get(location(RegistryTarget::Narrator)),
    }
}

/// On the registry as it is addressed, by key path and value name: while the
/// guard runs, each of the five locations holds its shortcut-off value, and
/// restoring from the backup read before gives back the whole registry,
/// every other location included.
pub proof fn lemma_restore_undoes_disable_at_locations(registry: LocatedRegistry)
    ensures
        forall|t: RegistryTarget|
            #![trigger apply_at_locations(registry, spec_disable_actions())[location(t)]]
            apply_at_locations(registry, spec_disable_actions()).contains_key(location(t))
                && apply_at_locations(registry, spec_disable_actions())[location(t)]
                == spec_disabled_value(t),
        apply_at_locations(
            apply_at_locations(registry, spec_disable_actions()),
            backup_at_locations(registry).spec_restore_actions(),
        ) == registry,
{
    reveal_with_fuel(apply_at_locations, 6);
    lemma_locations_are_distinct(RegistryTarget::StickyKeys, RegistryTarget::FilterKeys);
    lemma_locations_are_distinct(RegistryTarget::StickyKeys, RegistryTarget::ToggleKeys);
    lemma_locations_are_distinct(RegistryTarget::StickyKeys, RegistryTarget::MouseKeys);
    lemma_locations_are_distinct(RegistryTarget::StickyKeys, RegistryTarget::Narrator);
    lemma_locations_are_distinct(RegistryTarget::FilterKeys, RegistryTarget::ToggleKeys);
    lemma_locations_are_distinct(RegistryTarget::FilterKeys, RegistryTarget::MouseKeys);
    lemma_locations_are_distinct(RegistryTarget::FilterKeys, RegistryTarget::Narrator);
    lemma_locations_are_distinct(RegistryTarget::ToggleKeys, RegistryTarget::MouseKeys);
    lemma_locations_are_distinct(RegistryTarget::ToggleKeys, RegistryTarget::Narrator);
    lemma_locations_are_distinct(RegistryTarget::MouseKeys, RegistryTarget::Narrator);
    let disable = spec_disable_actions();
    let restore = backup_at_locations(registry).spec_restore_actions();
    assert(disable.drop_last().drop_last().drop_last().drop_last().drop_last().len() == 0);
    assert(restore.drop_last().drop_last().drop_last().drop_last().drop_last().len() == 0);
    let disabled = apply_at_locations(registry, disable);
    assert forall|t: RegistryTarget|
        #![trigger apply_at_locations(registry, spec_disable_actions())[location(t)]]
        disabled.contains_key(location(t)) && disabled[location(t)] == spec_disabled_value(t) by {
        match t {
            RegistryTarget::StickyKeys => {},
            RegistryTarget::FilterKeys => {},
            RegistryTarget::ToggleKeys => {},
            RegistryTarget::MouseKeys => {},
            RegistryTarget::Narrator => {},
        }
    }
    let result = apply_at_locations(disabled, restore);
    assert forall|k: (Seq<char>, Seq<char>)| #[trigger] result.contains_key(k)
        == registry.contains_key(k) && (registry.contains_key(k) ==> result[k] == registry[k]) by {
        if k == location(RegistryTarget::StickyKeys) {
        } else if k == location(RegistryTarget::FilterKeys) {
        } else if k == location(RegistryTarget::ToggleKeys) {
        } else if k == location(RegistryTarget::MouseKeys) {
        } else if k == location(RegistryTarget::Narrator) {
        } else {
        }
    }
    assert(result =~= registry);
}

} // verus!
