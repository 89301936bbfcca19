use mqtt_tray::command::ActionCommand;
use mqtt_tray::command::autoplace_action;
use mqtt_tray::numfmt::format_i32;
use mqtt_tray::numfmt::format_u32;

#[test]
fn restart_action_serializes_to_exact_line() {
    let c = ActionCommand::new(String::from("windows/restart"));
    assert_eq!(c.encode(), "{\"action\":\"windows/restart\"}\n");
}

#[test]
fn autoplace_action_has_fixed_name() {
    let c = autoplace_action();
    assert_eq!(c.name, "windows/autoplace");
    assert_eq!(c.encode(), "{\"action\":\"windows/autoplace\"}\n");
}

#[test]
fn empty_action_name_still_frames() {
    let c = ActionCommand::new(String::new());
    assert_eq!(c.encode(), "{\"action\":\"\"}\n");
}

#[test]
fn unsigned_decimal_rendering() {
    assert_eq!(format_u32(0), "0");
    assert_eq!(format_u32(7), "7");
    assert_eq!(format_u32(207), "207");
    assert_eq!(format_u32(u32::MAX), "4294967295");
}

#[test]
fn signed_decimal_rendering() {
    assert_eq!(format_i32(0), "0");
    assert_eq!(format_i32(42), "42");
    assert_eq!(format_i32(-1), "-1");
    assert_eq!(format_i32(i32::MIN), "-2147483648");
    assert_eq!(format_i32(i32::MAX), "2147483647");
}
