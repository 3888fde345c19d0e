use wowint::registry::EnumWowKey;

#[test]
fn every_entry_derives_codes_from_platform_code() {
    let registry = EnumWowKey::new();
    assert_eq!(registry.len(), 162);
    let mut i = 0;
    while i < registry.len() {
        let entry = registry.entry_at(i);
        assert_eq!(entry.release_integer, entry.press_integer + 1000);
        assert_eq!(entry.press_integer, 1000 + entry.window_decimal as u16);
        assert_eq!(entry.window_hexadecimal, entry.window_decimal as u16);
        i += 1;
    }
}

#[test]
fn table_keeps_definition_order() {
    let registry = EnumWowKey::new();
    assert_eq!(registry.entry_at(0).key_name, "Backspace");
    assert_eq!(registry.entry_at(1).key_name, "Tab");
    assert_eq!(registry.entry_at(16).key_name, "LeftArrow");
    assert_eq!(registry.entry_at(17).key_name, "Left");
    assert_eq!(registry.entry_at(161).key_name, "PA1");
}

#[test]
fn lookup_by_name_is_exact() {
    let registry = EnumWowKey::new();
    let entry = registry.get_key_info("Enter").expect("Enter is in the table");
    assert_eq!(entry.key_name, "Enter");
    assert_eq!(entry.window_decimal, 13);
    assert_eq!(entry.press_integer, 1013);
    assert_eq!(entry.release_integer, 2013);
}

#[test]
fn lookup_by_name_is_case_sensitive() {
    let registry = EnumWowKey::new();
    assert!(registry.get_key_info("enter").is_none());
    assert!(registry.get_key_info("LEFTARROW").is_none());
    assert!(registry.get_key_info("NoSuchKey").is_none());
}

#[test]
fn aliases_share_one_press_code() {
    let registry = EnumWowKey::new();
    let left = registry.get_key_info("Left").expect("Left is in the table");
    let left_arrow = registry.get_key_info("LeftArrow").expect("LeftArrow is in the table");
    assert_eq!(left.press_integer, 1037);
    assert_eq!(left_arrow.press_integer, 1037);
}

#[test]
fn code_lookups_return_first_definition_order_match() {
    let registry = EnumWowKey::new();
    // "LeftArrow" precedes its alias "Left" in the table.
    let by_press = registry.get_key_info_by_press(1037).expect("press 1037 is in the table");
    assert_eq!(by_press.key_name, "LeftArrow");
    let by_release = registry.get_key_info_by_release(2037).expect("release 2037 is in the table");
    assert_eq!(by_release.key_name, "LeftArrow");
    // "Esc" precedes its alias "Escape".
    let by_decimal = registry.get_key_info_by_decimal(27).expect("decimal 27 is in the table");
    assert_eq!(by_decimal.key_name, "Esc");
    let by_hexadecimal =
        registry.get_key_info_by_hexadecimal(0x25).expect("hexadecimal 0x25 is in the table");
    assert_eq!(by_hexadecimal.key_name, "LeftArrow");
}

#[test]
fn lookup_by_codes_of_numpad8() {
    let registry = EnumWowKey::new();
    let entry = registry.get_key_info_by_decimal(104).expect("decimal 104 is in the table");
    assert_eq!(entry.key_name, "Numpad8");
    assert_eq!(entry.press_integer, 1104);
    let entry = registry.get_key_info_by_press(1104).expect("press 1104 is in the table");
    assert_eq!(entry.key_name, "Numpad8");
}

#[test]
fn absent_codes_find_nothing() {
    let registry = EnumWowKey::new();
    assert!(registry.get_key_info_by_decimal(0).is_none());
    assert!(registry.get_key_info_by_press(999).is_none());
    assert!(registry.get_key_info_by_press(3000).is_none());
    assert!(registry.get_key_info_by_release(1037).is_none());
    assert!(registry.get_key_info_by_hexadecimal(0xFFFF).is_none());
}

#[test]
fn high_platform_codes_keep_the_offset_formula() {
    let registry = EnumWowKey::new();
    let num_lock = registry.get_key_info("NumLock").expect("NumLock is in the table");
    assert_eq!(num_lock.window_decimal, 144);
    assert_eq!(num_lock.press_integer, 1144);
    let left_shift = registry.get_key_info("LeftShift").expect("LeftShift is in the table");
    assert_eq!(left_shift.window_decimal, 160);
    assert_eq!(left_shift.press_integer, 1160);
    let oem102 = registry.get_key_info("OEM102").expect("OEM102 is in the table");
    assert_eq!(oem102.window_decimal, 226);
    assert_eq!(oem102.press_integer, 1226);
    assert_eq!(oem102.release_integer, 2226);
}
