use macro_manager::config::{read_config, ConfigError, ConfigLookup, Manager};

const DOCUMENTED_CONFIG: &str = r#"
[default.set1.id3]
script = ["autoclicker.sh"]
toggle = true

["program.exe".set1]
default_fallback = true

["program.exe".set1.id8]
script = ["awesome_script1.sh"]

[firefox.m1]
g13.script = ["awesome_script2.sh", "arg1", "arg2"]
g14 = { script = ["subfolder/awesome_script3.sh"], toggle = true }
"#;

fn documented_manager() -> Manager {
    Manager::new(DOCUMENTED_CONFIG, "/data/macro-manager").expect("documented config")
}

#[test]
fn documented_default_macro_toggles_autoclicker() {
    let m = documented_manager().get_macro("set1".to_string(), "id3".to_string(), "default").unwrap();
    assert!(m.toggle);
    assert_eq!(m.script, "/data/macro-manager/autoclicker.sh");
    assert!(m.args.is_empty());
    assert_eq!(m.executable, "default");
    assert_eq!(m.entry, "default");
    assert_eq!(m.prefix, "macro-manager/default/set1/id3");
}

#[test]
fn documented_program_macro_is_found() {
    let m = documented_manager()
        .get_macro("set1".to_string(), "id8".to_string(), "program.exe")
        .unwrap();
    assert!(!m.toggle);
    assert_eq!(m.script, "/data/macro-manager/awesome_script1.sh");
    assert_eq!(m.executable, "program.exe");
    assert_eq!(m.entry, "program.exe");
    assert_eq!(m.prefix, "macro-manager/program.exe/set1/id8");
}

#[test]
fn allowed_fallback_uses_default_entry() {
    let m = documented_manager()
        .get_macro("set1".to_string(), "id3".to_string(), "program.exe")
        .unwrap();
    assert!(m.toggle);
    assert_eq!(m.script, "/data/macro-manager/autoclicker.sh");
    assert_eq!(m.executable, "program.exe");
    assert_eq!(m.entry, "default");
    assert_eq!(m.prefix, "macro-manager/default/set1/id3");
}

#[test]
fn unconfigured_executable_falls_back_to_default() {
    let m = documented_manager().get_macro("set1".to_string(), "id3".to_string(), "xterm").unwrap();
    assert_eq!(m.executable, "xterm");
    assert_eq!(m.entry, "default");
    assert_eq!(m.script, "/data/macro-manager/autoclicker.sh");
}

#[test]
fn documented_firefox_macro_has_arguments() {
    let m = documented_manager().get_macro("m1".to_string(), "g13".to_string(), "firefox").unwrap();
    assert!(!m.toggle);
    assert_eq!(m.script, "/data/macro-manager/awesome_script2.sh");
    assert_eq!(m.args, vec!["arg1".to_string(), "arg2".to_string()]);
}

#[test]
fn documented_inline_table_macro_toggles() {
    let m = documented_manager().get_macro("m1".to_string(), "g14".to_string(), "firefox").unwrap();
    assert!(m.toggle);
    assert_eq!(m.script, "/data/macro-manager/subfolder/awesome_script3.sh");
}

#[test]
fn missing_macro_is_an_error() {
    let e = documented_manager().get_macro("m1".to_string(), "g99".to_string(), "firefox");
    assert_eq!(e.err(), Some("No macro found for SET and ID.".to_string()));
    let e = documented_manager().get_macro("set9".to_string(), "id3".to_string(), "default");
    assert_eq!(e.err(), Some("No macro found for SET and ID.".to_string()));
}

#[test]
fn refused_fallback_is_respected() {
    let text = r#"
[default.s.a]
script = "fallback.sh"

[editor.s]
default_fallback = false
b.script = "own.sh"
"#;
    let manager = Manager::new(text, "/d").unwrap();
    assert!(manager.get_macro("s".to_string(), "a".to_string(), "editor").is_err());
    let own = manager.get_macro("s".to_string(), "b".to_string(), "editor").unwrap();
    assert_eq!(own.script, "/d/own.sh");
    let other = manager.get_macro("s".to_string(), "a".to_string(), "viewer").unwrap();
    assert_eq!(other.script, "/d/fallback.sh");
}

#[test]
fn string_script_and_absolute_path() {
    let text = r#"
[default.s]
a = { script = "/usr/local/bin/run.sh" }
b = { script = "rel.sh", toggle = "yes" }
c = { script = 5 }
d = { script = [] }
e = { script = ["x.sh", 3] }
f = { toggle = true }
"#;
    let manager = Manager::new(text, "/d").unwrap();
    let a = manager.get_macro("s".to_string(), "a".to_string(), "default").unwrap();
    assert_eq!(a.script, "/usr/local/bin/run.sh");
    assert!(!a.toggle_unreadable);
    let b = manager.get_macro("s".to_string(), "b".to_string(), "default").unwrap();
    assert_eq!(b.script, "/d/rel.sh");
    assert!(!b.toggle);
    assert!(b.toggle_unreadable);
    for id in ["c", "d", "e", "f"] {
        assert!(manager.get_macro("s".to_string(), id.to_string(), "default").is_err(), "{}", id);
    }
}

#[test]
fn unparsable_config_is_refused() {
    assert_eq!(Manager::new("this is = = not toml", "/d").err(), Some(ConfigError::Unparsable));
}

#[test]
fn datetime_document_root_is_not_a_table() {
    let text = "\"$__toml_private_datetime\" = \"1979-05-27T07:32:00Z\"\n";
    assert_eq!(Manager::new(text, "/d").err(), Some(ConfigError::RootNotTable));
}

#[test]
fn data_home_forms_join_as_paths_do() {
    let text = "[default.s.a]\nscript = \"run.sh\"\n";
    for (home, expected) in [("", "run.sh"), ("/d/", "/d/run.sh"), ("/d", "/d/run.sh")] {
        let m = Manager::new(text, home).unwrap().get_macro("s".to_string(), "a".to_string(), "default").unwrap();
        assert_eq!(m.script, expected);
    }
}

#[test]
fn manager_read_config_reports_each_outcome() {
    let manager = Manager::new("[default.s.a]\nscript = \"x.sh\"\n[e.s]\ndefault_fallback = false\n", "/d").unwrap();
    match manager.read_config("s", "a", "default") {
        ConfigLookup::Found(r) => assert_eq!(r.script_file, "/d/x.sh"),
        _ => panic!("expected an entry"),
    }
    assert!(matches!(manager.read_config("s", "a", "e"), ConfigLookup::FallbackRefused));
    assert!(matches!(manager.read_config("s", "a", "f"), ConfigLookup::Missing));
}

#[test]
fn config_root_must_be_a_table() {
    let value = toml::Value::Integer(3);
    assert_eq!(Manager::from_document(&value, "/d").err(), Some(ConfigError::RootNotTable));
}

#[test]
fn read_config_reports_refusal() {
    let table: toml::Table = r#"
[e.s]
default_fallback = false
"#
    .parse()
    .unwrap();
    assert!(matches!(read_config(&table, "s", "x", "e", "/d"), ConfigLookup::FallbackRefused));
    assert!(matches!(read_config(&table, "s", "x", "other", "/d"), ConfigLookup::Missing));
}

#[test]
fn confirm_script_checks_existence() {
    let m = documented_manager().get_macro("set1".to_string(), "id3".to_string(), "default").unwrap();
    let m = m.confirm_script(true).unwrap();
    assert_eq!(m.confirm_script(false).err(), Some("Can't find script file.".to_string()));
}
