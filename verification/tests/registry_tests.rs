use hotkey_core::registry::OsHookOutcome;
use hotkey_core::registry::RegistrationError;
use hotkey_core::registry::ShortcutRegistry;

#[test]
fn register_free_combo_succeeds() {
    let mut registry = ShortcutRegistry::new();
    assert_eq!(registry.register(String::from("Ctrl+L"), OsHookOutcome::Accepted), Ok(()));
    assert!(registry.is_bound(&String::from("Ctrl+L")));
}

#[test]
fn second_registration_of_same_combo_is_already_bound() {
    let mut registry = ShortcutRegistry::new();
    assert_eq!(registry.register(String::from("Ctrl+Shift+Space"), OsHookOutcome::Accepted), Ok(()));
    assert_eq!(
        registry.register(String::from("Ctrl+Shift+Space"), OsHookOutcome::Accepted),
        Err(RegistrationError::AlreadyBound)
    );
}

#[test]
fn os_denied_hook_is_platform_rejected() {
    let mut registry = ShortcutRegistry::new();
    assert_eq!(
        registry.register(String::from("Ctrl+L"), OsHookOutcome::Denied),
        Err(RegistrationError::PlatformRejected)
    );
    assert!(!registry.is_bound(&String::from("Ctrl+L")));
}

#[test]
fn failed_registration_leaves_registry_unchanged() {
    let mut registry = ShortcutRegistry::new();
    assert_eq!(registry.register(String::from("Ctrl+L"), OsHookOutcome::Accepted), Ok(()));
    assert_eq!(
        registry.register(String::from("Ctrl+L"), OsHookOutcome::Accepted),
        Err(RegistrationError::AlreadyBound)
    );
    assert_eq!(
        registry.register(String::from("Command+L"), OsHookOutcome::Denied),
        Err(RegistrationError::PlatformRejected)
    );
    assert!(registry.is_bound(&String::from("Ctrl+L")));
    assert!(!registry.is_bound(&String::from("Command+L")));
}

#[test]
fn os_conflict_is_already_bound() {
    let mut registry = ShortcutRegistry::new();
    assert_eq!(
        registry.register(String::from("Ctrl+L"), OsHookOutcome::Conflict),
        Err(RegistrationError::AlreadyBound)
    );
    assert!(!registry.is_bound(&String::from("Ctrl+L")));
}

#[test]
fn unregistered_combo_is_not_bound() {
    let registry = ShortcutRegistry::new();
    assert!(!registry.is_bound(&String::from("Ctrl+L")));
}
