use std::collections::HashMap;

use lock_screen::registry_backup::{
    accessibility_targets, disable_actions, AccessibilityBackup, RegistryAction, RegistryTarget,
    HOTKEY_OFF_FLAGS,
};

fn apply(registry: &mut HashMap<RegistryTarget, u32>, actions: &[RegistryAction]) {
    for action in actions {
        match *action {
            RegistryAction::Write { target, value } => {
                registry.insert(target, value);
            }
            RegistryAction::Remove { target } => {
                registry.remove(&target);
            }
        }
    }
}

fn backup_of(registry: &HashMap<RegistryTarget, u32>) -> AccessibilityBackup {
    let mut backup = AccessibilityBackup::nothing_recorded();
    for target in accessibility_targets() {
        backup.record_original(target, registry.get(&target).copied());
    }
    backup
}

#[test]
fn targets_and_paths() {
    let targets = accessibility_targets();
    assert_eq!(
        targets,
        vec![
            RegistryTarget::StickyKeys,
            RegistryTarget::FilterKeys,
            RegistryTarget::ToggleKeys,
            RegistryTarget::MouseKeys,
            RegistryTarget::Narrator,
        ]
    );
    assert_eq!(RegistryTarget::StickyKeys.subkey(), r"Control Panel\Accessibility\StickyKeys");
    assert_eq!(RegistryTarget::MouseKeys.subkey(), r"Control Panel\Accessibility\MouseKeys");
    assert_eq!(RegistryTarget::Narrator.subkey(), r"SOFTWARE\Microsoft\Narrator\NoRoam");
    assert_eq!(RegistryTarget::FilterKeys.value_name(), "Flags");
    assert_eq!(RegistryTarget::Narrator.value_name(), "WinEnterLaunchEnabled");
}

#[test]
fn disable_writes_off_values() {
    let actions = disable_actions();
    assert_eq!(actions.len(), 5);
    assert_eq!(actions[0], RegistryAction::Write { target: RegistryTarget::StickyKeys, value: 0x3A });
    assert_eq!(actions[3], RegistryAction::Write { target: RegistryTarget::MouseKeys, value: HOTKEY_OFF_FLAGS });
    assert_eq!(actions[4], RegistryAction::Write { target: RegistryTarget::Narrator, value: 0 });
}

#[test]
fn restore_writes_back_or_removes() {
    let mut backup = AccessibilityBackup::nothing_recorded();
    backup.record_original(RegistryTarget::StickyKeys, Some(510));
    backup.record_original(RegistryTarget::Narrator, Some(1));
    assert_eq!(backup.original(RegistryTarget::StickyKeys), Some(510));
    assert_eq!(backup.original(RegistryTarget::FilterKeys), None);
    let actions = backup.restore_actions();
    assert_eq!(
        actions,
        vec![
            RegistryAction::Write { target: RegistryTarget::StickyKeys, value: 510 },
            RegistryAction::Remove { target: RegistryTarget::FilterKeys },
            RegistryAction::Remove { target: RegistryTarget::ToggleKeys },
            RegistryAction::Remove { target: RegistryTarget::MouseKeys },
            RegistryAction::Write { target: RegistryTarget::Narrator, value: 1 },
        ]
    );
}

#[test]
fn restore_undoes_disable_on_a_registry() {
    let mut registry = HashMap::new();
    registry.insert(RegistryTarget::StickyKeys, 510u32);
    registry.insert(RegistryTarget::ToggleKeys, 62u32);
    registry.insert(RegistryTarget::Narrator, 1u32);
    let before = registry.clone();
    let backup = backup_of(&registry);
    apply(&mut registry, &disable_actions());
    for target in accessibility_targets() {
        assert_eq!(registry.get(&target).copied(), Some(target.disabled_value()));
    }
    apply(&mut registry, &backup.restore_actions());
    assert_eq!(registry, before);
}
