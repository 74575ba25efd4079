use focus_shell::text::str_eq;

#[test]
fn equal_strings_compare_equal() {
    assert!(str_eq("", ""));
    assert!(str_eq("overlay", "overlay"));
}

#[test]
fn different_strings_compare_unequal() {
    assert!(!str_eq("overlay", "main"));
    assert!(!str_eq("tray_show", "tray_shot"));
    assert!(!str_eq("tray_show", "tray_show "));
}

#[test]
fn comparison_counts_characters_not_bytes() {
    assert!(str_eq("coração", "coração"));
    assert!(!str_eq("coração", "coracao"));
}
