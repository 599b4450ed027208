use macro_manager::config::Manager;
use macro_manager::run::{pid_from_file_text, termination_outcome, RunError, RunStart};

fn macro_with(toggle: bool) -> macro_manager::config::Macro {
    let text = format!("[default.s.a]\nscript = \"tools/clicker.sh\"\ntoggle = {}\n", toggle);
    Manager::new(&text, "/data").unwrap().get_macro("s".to_string(), "a".to_string(), "default").unwrap()
}

#[test]
fn toggling_macro_stops_a_running_script() {
    let m = macro_with(true);
    assert_eq!(m.run(true), RunStart::StopRunning);
    assert_eq!(m.run(false), RunStart::Launch);
}

#[test]
fn plain_macro_always_launches() {
    let m = macro_with(false);
    assert_eq!(m.run(true), RunStart::Launch);
    assert_eq!(m.run(false), RunStart::Launch);
    assert_eq!(m.pid_file_text(4321), None);
}

#[test]
fn pid_file_is_named_after_script_stem() {
    assert_eq!(macro_with(true).pid_file_name(), Ok("clicker.pid".to_string()));
}

#[test]
fn pid_file_of_root_path_has_no_name() {
    let text = "[default.s.a]\nscript = \"/\"\n";
    let m = Manager::new(text, "/data").unwrap().get_macro("s".to_string(), "a".to_string(), "default").unwrap();
    assert_eq!(m.pid_file_name(), Err(RunError::NoScriptName));
}

#[test]
fn pid_file_round_trip() {
    let m = macro_with(true);
    for id in [1u32, 42, 32768, 4194304, i32::MAX as u32] {
        let text = m.pid_file_text(id).unwrap();
        assert_eq!(text, id.to_string());
        let pid = pid_from_file_text(&text).unwrap();
        assert_eq!(rustix::process::Pid::as_raw(Some(pid)), id as i32);
    }
}

#[test]
fn pid_file_errors() {
    assert_eq!(pid_from_file_text("abc").err(), Some(RunError::PidNotANumber));
    assert_eq!(pid_from_file_text("12\n").err(), Some(RunError::PidNotANumber));
    assert_eq!(pid_from_file_text("3000000000").err(), Some(RunError::PidNotANumber));
    assert_eq!(pid_from_file_text("0").err(), Some(RunError::PidNotPositive));
    assert_eq!(pid_from_file_text("-5").err(), Some(RunError::PidNotPositive));
}

#[test]
fn termination_of_vanished_process_is_fine() {
    assert_eq!(termination_outcome(None), Ok(()));
    assert_eq!(termination_outcome(Some(3)), Ok(()));
    assert_eq!(termination_outcome(Some(1)), Err(RunError::TerminateFailed));
}

#[test]
fn pid_file_stem_follows_documented_rules() {
    let text = "[default.s]\na.script = \"/opt/.hidden\"\nb.script = \"/opt/archive.tar.gz\"\nc.script = \"/opt/plain\"\n";
    let manager = Manager::new(text, "/data").unwrap();
    let name = |id: &str| manager.get_macro("s".to_string(), id.to_string(), "default").unwrap().pid_file_name();
    assert_eq!(name("a"), Ok(".hidden.pid".to_string()));
    assert_eq!(name("b"), Ok("archive.tar.pid".to_string()));
    assert_eq!(name("c"), Ok("plain.pid".to_string()));
}

#[test]
fn pid_file_stem_of_trailing_components() {
    let text = "[default.s]\na.script = \"/opt/tool.sh/\"\nb.script = \"/opt/x.sh/.\"\nc.script = \"/opt/..\"\nd.script = \"/opt/../y.sh//\"\n";
    let manager = Manager::new(text, "/data").unwrap();
    let name = |id: &str| manager.get_macro("s".to_string(), id.to_string(), "default").unwrap().pid_file_name();
    assert_eq!(name("a"), Ok("tool.pid".to_string()));
    assert_eq!(name("b"), Ok("x.pid".to_string()));
    assert_eq!(name("c"), Err(RunError::NoScriptName));
    assert_eq!(name("d"), Ok("y.pid".to_string()));
}
