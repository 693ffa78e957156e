use gnome_mcp::{
    i32_to_decimal, i64_to_decimal, str_contains, str_equals, u64_to_decimal, window_id_is_valid, Action, Param,
};

#[test]
fn decimal_of_unsigned_numbers() {
    assert_eq!(u64_to_decimal(0), "0");
    assert_eq!(u64_to_decimal(7), "7");
    assert_eq!(u64_to_decimal(10), "10");
    assert_eq!(u64_to_decimal(1234567890), "1234567890");
    assert_eq!(u64_to_decimal(u64::MAX), u64::MAX.to_string());
}

#[test]
fn decimal_of_signed_numbers() {
    assert_eq!(i32_to_decimal(0), "0");
    assert_eq!(i32_to_decimal(42), "42");
    assert_eq!(i32_to_decimal(-1), "-1");
    assert_eq!(i32_to_decimal(-42), "-42");
    assert_eq!(i32_to_decimal(i32::MIN), "-2147483648");
    assert_eq!(i32_to_decimal(i32::MAX), "2147483647");
}

#[test]
fn decimal_agrees_with_display() {
    for n in [-1000000, -99, -10, -9, 0, 9, 10, 99, 100, 65535, 1 << 30] {
        assert_eq!(i32_to_decimal(n), n.to_string());
    }
}

#[test]
fn contains_finds_pieces() {
    assert!(str_contains("org.freedesktop.DBus.Error.AccessDenied: no", "AccessDenied"));
    assert!(str_contains("abc", ""));
    assert!(str_contains("", ""));
    assert!(str_contains("abc", "abc"));
    assert!(str_contains("abc", "c"));
    assert!(!str_contains("abc", "abcd"));
    assert!(!str_contains("AccessDenie", "AccessDenied"));
    assert!(!str_contains("accessdenied", "AccessDenied"));
    assert!(str_contains("é not authorized ü", "not authorized"));
}

#[test]
fn equality_of_texts() {
    assert!(str_equals("snap", "snap"));
    assert!(str_equals("", ""));
    assert!(!str_equals("snap", "snaps"));
    assert!(!str_equals("Snap", "snap"));
}

#[test]
fn every_action_name_selects_its_action() {
    let all = [
        Action::List,
        Action::Focus,
        Action::Close,
        Action::Minimize,
        Action::Maximize,
        Action::SwitchWorkspace,
        Action::MoveToWorkspace,
        Action::GetGeometry,
        Action::SetGeometry,
        Action::SetPosition,
        Action::SetSize,
        Action::Snap,
    ];
    for a in all {
        assert_eq!(Action::parse(a.name()), Some(a));
    }
    let names: Vec<&str> = all.iter().map(|a| a.name()).collect();
    assert_eq!(
        names.join(", "),
        "list, focus, close, minimize, maximize, switch_workspace, move_to_workspace, get_geometry, set_geometry, set_position, set_size, snap"
    );
}

#[test]
fn other_texts_select_no_action() {
    assert_eq!(Action::parse("List"), None);
    assert_eq!(Action::parse(""), None);
    assert_eq!(Action::parse("snap "), None);
    assert_eq!(Action::parse("resize"), None);
}

#[test]
fn parameter_names() {
    assert_eq!(Param::WindowId.name(), "window_id");
    assert_eq!(Param::Workspace.name(), "workspace");
    assert_eq!(Param::X.name(), "x");
    assert_eq!(Param::Y.name(), "y");
    assert_eq!(Param::Width.name(), "width");
    assert_eq!(Param::Height.name(), "height");
    assert_eq!(Param::Position.name(), "position");
}

#[test]
fn decimal_of_64_bit_numbers() {
    assert_eq!(i64_to_decimal(i64::MIN), "-9223372036854775808");
    assert_eq!(i64_to_decimal(i64::MAX), "9223372036854775807");
    assert_eq!(i64_to_decimal(-4294967296), "-4294967296");
    assert_eq!(i64_to_decimal(0), "0");
}

#[test]
fn window_ids() {
    assert!(window_id_is_valid("0"));
    assert!(window_id_is_valid("42"));
    assert!(window_id_is_valid("999999999999999"));
    assert!(window_id_is_valid("1000000000000000"));
    assert!(window_id_is_valid("9007199254740991"));
    assert!(!window_id_is_valid("9007199254740992"));
    assert!(!window_id_is_valid("10000000000000000"));
    assert!(!window_id_is_valid("123456789012345678901234567890"));
    assert!(!window_id_is_valid("007"));
    assert!(!window_id_is_valid(""));
    assert!(!window_id_is_valid("4 2"));
    assert!(!window_id_is_valid("٤٢"));
}
