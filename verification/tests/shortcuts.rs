//! The shortcut debouncer: activation rules, priority, and the
//! documented level-triggered re-firing on key repeats.

use whisgo::shortcut::KeyEvent;
use whisgo::shortcut::ShortcutDetector;
use whisgo::shortcut::ShortcutType;
use whisgo::shortcut::TrackedKey;

#[test]
fn modifier_then_key_yields_toggle() {
    let mut d = ShortcutDetector::new();
    assert_eq!(d.handle_event(KeyEvent::Press(TrackedKey::Alt)), None);
    assert_eq!(
        d.handle_event(KeyEvent::Press(TrackedKey::Space)),
        Some(ShortcutType::ToggleRecording)
    );
}

#[test]
fn key_repeat_refires_the_toggle() {
    let mut d = ShortcutDetector::new();
    assert_eq!(d.handle_event(KeyEvent::Press(TrackedKey::Alt)), None);
    assert_eq!(
        d.handle_event(KeyEvent::Press(TrackedKey::Space)),
        Some(ShortcutType::ToggleRecording)
    );
    // A simulated OS key repeat: the level-triggered rules fire again.
    assert_eq!(
        d.handle_event(KeyEvent::Press(TrackedKey::Space)),
        Some(ShortcutType::ToggleRecording)
    );
}

#[test]
fn modifier_with_menu_key_yields_menu() {
    let mut d = ShortcutDetector::new();
    assert_eq!(d.handle_event(KeyEvent::Press(TrackedKey::Alt)), None);
    assert_eq!(d.handle_event(KeyEvent::Press(TrackedKey::KeyH)), Some(ShortcutType::ShowMenu));
}

#[test]
fn toggle_takes_priority_over_menu() {
    let mut d = ShortcutDetector::new();
    assert_eq!(d.handle_event(KeyEvent::Press(TrackedKey::KeyH)), None);
    assert_eq!(d.handle_event(KeyEvent::Press(TrackedKey::Space)), None);
    assert_eq!(
        d.handle_event(KeyEvent::Press(TrackedKey::Alt)),
        Some(ShortcutType::ToggleRecording)
    );
}

#[test]
fn release_disarms_the_shortcut() {
    let mut d = ShortcutDetector::new();
    assert_eq!(d.handle_event(KeyEvent::Press(TrackedKey::Alt)), None);
    assert_eq!(
        d.handle_event(KeyEvent::Press(TrackedKey::Space)),
        Some(ShortcutType::ToggleRecording)
    );
    assert_eq!(d.handle_event(KeyEvent::Release(TrackedKey::Space)), None);
    assert_eq!(d.handle_event(KeyEvent::Release(TrackedKey::Alt)), None);
    assert_eq!(d.handle_event(KeyEvent::Press(TrackedKey::Space)), None);
}

#[test]
fn unrelated_events_change_nothing() {
    let mut d = ShortcutDetector::new();
    assert_eq!(d.handle_event(KeyEvent::Press(TrackedKey::Alt)), None);
    assert_eq!(d.handle_event(KeyEvent::Other), None);
    assert_eq!(
        d.handle_event(KeyEvent::Press(TrackedKey::Space)),
        Some(ShortcutType::ToggleRecording)
    );
}
