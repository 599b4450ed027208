use macro_manager::config::Manager;
use macro_manager::environment::{wayland_variables, x11_variables, X11Window};
use macro_manager::window::{FocusedWindow, Geometry};

fn pairs(v: &[(&str, &str)]) -> Vec<(String, String)> {
    v.iter().map(|(a, b)| (a.to_string(), b.to_string())).collect()
}

#[test]
fn x11_variables_with_everything_known() {
    let w = X11Window { window: 81788929, pid: 4242, size: Some((1920, 1080)), mouse: Some((-3, 15, 0)) };
    assert_eq!(
        x11_variables(&w),
        pairs(&[
            ("MACRO_MANAGER_WINDOW", "81788929"),
            ("MACRO_MANAGER_WINDOW_PID", "4242"),
            ("MACRO_MANAGER_WINDOW_WIDTH", "1920"),
            ("MACRO_MANAGER_WINDOW_HEIGHT", "1080"),
            ("MACRO_MANAGER_MOUSE_X", "-3"),
            ("MACRO_MANAGER_MOUSE_Y", "15"),
            ("MACRO_MANAGER_MOUSE_SCREEN", "0"),
        ])
    );
}

#[test]
fn x11_variables_skip_what_is_unknown() {
    let w = X11Window { window: 5, pid: 0, size: None, mouse: None };
    assert_eq!(x11_variables(&w), pairs(&[("MACRO_MANAGER_WINDOW", "5")]));
}

#[test]
fn wayland_variables_describe_window() {
    let w = FocusedWindow { id: 3000000001, pid: 77, wm_class: "firefox".to_string() };
    let g = Geometry { width: 640, height: 480, x: 0, y: -20 };
    assert_eq!(
        wayland_variables(&w, &g),
        pairs(&[
            ("MACRO_MANAGER_WINDOW", "3000000001"),
            ("MACRO_MANAGER_WINDOW_PID", "77"),
            ("MACRO_MANAGER_WINDOW_WIDTH", "640"),
            ("MACRO_MANAGER_WINDOW_HEIGHT", "480"),
            ("MACRO_MANAGER_WINDOW_X", "0"),
            ("MACRO_MANAGER_WINDOW_Y", "-20"),
        ])
    );
}

#[test]
fn bin_variable_names_applied_executable() {
    let manager = Manager::new("[default.s.a]\nscript = \"x.sh\"\n", "/d").unwrap();
    let m = manager.get_macro("s".to_string(), "a".to_string(), "firefox").unwrap();
    assert_eq!(
        m.bin_variable(),
        ("MACRO_MANAGER_WINDOW_BIN".to_string(), "firefox".to_string())
    );
    assert_eq!(m.entry, "default");
    assert_eq!(m.prefix, "macro-manager/default/s/a");
    let unknown = manager.get_macro("s".to_string(), "a".to_string(), "default").unwrap();
    assert_eq!(unknown.bin_variable().1, "default");
}
