use mqtt_tray::paths::resolve_resource_dir;
use mqtt_tray::paths::unresolved_dir_message;
use mqtt_tray::paths::worker_entry_path;
use mqtt_tray::tray::MenuAction;
use mqtt_tray::tray::WindowAction;
use mqtt_tray::tray::left_click_action;
use mqtt_tray::tray::menu_action;

#[test]
fn left_click_toggles_window() {
    assert_eq!(left_click_action(true), WindowAction::Hide);
    assert_eq!(left_click_action(false), WindowAction::ShowAndFocus);
}

#[test]
fn menu_identifiers_resolve_once() {
    assert_eq!(menu_action("quit"), MenuAction::Quit);
    assert_eq!(menu_action("show"), MenuAction::ShowWindow);
    assert_eq!(menu_action("unknown-item"), MenuAction::Ignore);
    assert_eq!(menu_action(""), MenuAction::Ignore);
}

#[test]
fn resource_dir_resolution_order() {
    let r = resolve_resource_dir(
        Some(String::from("/opt/app/resources")),
        Some(String::from("/home/u/.data")),
        Some(String::from("/tmp")),
    );
    assert_eq!(r.as_deref(), Some("/opt/app/resources"));
    let r = resolve_resource_dir(None, Some(String::from("/home/u/.data")), Some(String::from("/tmp")));
    assert_eq!(r.as_deref(), Some("/home/u/.data"));
    let r = resolve_resource_dir(None, None, Some(String::from("/tmp")));
    assert_eq!(r.as_deref(), Some("/tmp"));
    let r = resolve_resource_dir(None, None, None);
    assert!(r.is_none());
    assert_eq!(unresolved_dir_message(), "unable to resolve resource directory");
}

#[test]
fn entry_path_is_under_resource_dir() {
    assert_eq!(worker_entry_path("/opt/app"), "/opt/app/src/index.js");
}
