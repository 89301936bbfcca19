use mqtt_tray::events::LogLevel;
use mqtt_tray::hotkey::HotkeyManager;
use mqtt_tray::interval::IntervalManager;
use mqtt_tray::interval::TimerTask;

#[test]
fn hotkey_select_then_other_leaves_only_latest() {
    let mut m = HotkeyManager::new();
    let log = m.apply_select(Some(String::from("Ctrl+Shift+2")), true);
    assert!(log.is_none());
    assert_eq!(m.to_deregister().as_deref(), Some("Ctrl+Shift+2"));
    let log = m.apply_select(Some(String::from("Ctrl+Shift+0")), true);
    assert!(log.is_none());
    assert_eq!(m.to_deregister().as_deref(), Some("Ctrl+Shift+0"));
}

#[test]
fn hotkey_select_same_twice_is_noop() {
    let mut m = HotkeyManager::new();
    m.apply_select(Some(String::from("Ctrl+Shift+1")), true);
    let before = m.to_deregister().clone();
    let log = m.apply_select(Some(String::from("Ctrl+Shift+1")), true);
    assert!(log.is_none());
    assert_eq!(m.to_deregister().clone(), before);
}

#[test]
fn hotkey_failed_registration_leaves_unregistered() {
    let mut m = HotkeyManager::new();
    m.apply_select(Some(String::from("Ctrl+Shift+1")), true);
    let log = m.apply_select(Some(String::from("Ctrl+Shift+9")), false);
    let e = log.expect("failed registration must produce one error event");
    assert_eq!(e.level, LogLevel::Error);
    assert_eq!(e.message, "failed to register shortcut Ctrl+Shift+9");
    assert!(m.to_deregister().is_none());
}

#[test]
fn hotkey_select_none_unregisters() {
    let mut m = HotkeyManager::new();
    m.apply_select(Some(String::from("Ctrl+Shift+1")), true);
    let log = m.apply_select(None, true);
    assert!(log.is_none());
    assert!(m.to_deregister().is_none());
}

#[test]
fn interval_select_then_off_delivers_no_tick() {
    let mut m = IntervalManager::new();
    let task = m.select(60);
    assert_eq!(task, Some(TimerTask { period_secs: 60, epoch: 1 }));
    assert!(m.on_tick(1).is_some());
    let task = m.select(0);
    assert!(task.is_none());
    assert!(m.on_tick(1).is_none());
    assert!(m.on_tick(2).is_none());
}

#[test]
fn interval_stale_tick_is_dropped() {
    let mut m = IntervalManager::new();
    m.select(60);
    m.select(30);
    assert!(m.on_tick(1).is_none());
    let cmd = m.on_tick(2).expect("current task's tick must deliver");
    assert_eq!(cmd.name, "windows/autoplace");
}

#[test]
fn interval_starts_off() {
    let m = IntervalManager::new();
    assert!(m.on_tick(0).is_none());
}
