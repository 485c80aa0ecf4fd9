use hotkey_core::window::WindowAction;
use hotkey_core::window::WindowError;
use hotkey_core::window::WindowModel;

#[test]
fn toggle_cycles_with_period_two() {
    let mut window = WindowModel::new(false);
    assert!(!window.visible);
    assert!(!window.focused);

    assert_eq!(window.toggle_visibility(), Ok(WindowAction::ShowAndFocus));
    assert!(window.visible);
    assert!(window.focused);

    assert_eq!(window.toggle_visibility(), Ok(WindowAction::Hide));
    assert!(!window.visible);
    assert!(!window.focused);

    assert_eq!(window.toggle_visibility(), Ok(WindowAction::ShowAndFocus));
    assert!(window.visible);
    assert!(window.focused);
}

#[test]
fn bring_to_front_on_visible_window_keeps_visibility_and_asserts_focus() {
    let mut window = WindowModel::new(true);
    assert!(window.visible);
    assert!(!window.focused);

    assert_eq!(window.bring_to_front(), Ok(WindowAction::ShowAndFocus));
    assert!(window.visible);
    assert!(window.focused);

    // A second call changes nothing further.
    assert_eq!(window.bring_to_front(), Ok(WindowAction::ShowAndFocus));
    assert!(window.visible);
    assert!(window.focused);
}

#[test]
fn bring_to_front_shows_hidden_window() {
    let mut window = WindowModel::new(false);
    assert_eq!(window.bring_to_front(), Ok(WindowAction::ShowAndFocus));
    assert!(window.visible);
    assert!(window.focused);
}

#[test]
fn is_visible_reports_current_state() {
    let window = WindowModel::new(true);
    assert_eq!(window.is_visible(), Ok(true));
    let hidden = WindowModel::new(false);
    assert_eq!(hidden.is_visible(), Ok(false));
}

#[test]
fn destroyed_window_fails_every_operation() {
    let mut window = WindowModel::new(true);
    window.window_destroyed();
    assert_eq!(window.is_visible(), Err(WindowError::WindowUnavailable));
    assert_eq!(window.toggle_visibility(), Err(WindowError::WindowUnavailable));
    assert_eq!(window.bring_to_front(), Err(WindowError::WindowUnavailable));
}

#[test]
fn rapid_toggles_match_count_modulo_two() {
    let mut window = WindowModel::new(false);
    for count in 1u32..=10u32 {
        window.toggle_visibility().unwrap();
        assert_eq!(window.visible, count % 2 == 1);
    }
}
