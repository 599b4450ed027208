use macro_manager::paths::{macro_prefix, pid_file_name_for_stem};
use macro_manager::text::same_text;

#[test]
fn same_text_compares_characters() {
    assert!(same_text("default", "default"));
    assert!(!same_text("default", "Default"));
    assert!(!same_text("default", "defaults"));
    assert!(same_text("", ""));
    assert!(same_text("ünï", "ünï"));
}

#[test]
fn macro_prefix_joins_parts() {
    assert_eq!(macro_prefix("firefox", "m1", "g13"), "macro-manager/firefox/m1/g13");
}

#[test]
fn pid_file_name_appends_extension() {
    assert_eq!(pid_file_name_for_stem("autoclicker"), "autoclicker.pid");
}
