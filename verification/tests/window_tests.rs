use macro_manager::window::{
    executable_or_default, find_window_process, focused_window, window_geometry, Geometry,
    WindowError,
};

#[test]
fn first_focused_window_is_chosen() {
    let reply = r#"[
        {"id": 11, "pid": 100, "wm_class": "xterm", "focus": false},
        {"id": 22, "pid": 200, "wm_class": "firefox", "focus": true},
        {"id": 33, "pid": 300, "wm_class": "gimp", "focus": true}
    ]"#;
    let w = focused_window(reply).unwrap().unwrap();
    assert_eq!(w.id, 22);
    assert_eq!(w.pid, 200);
    assert_eq!(w.wm_class, "firefox");
    assert_eq!(w.details_id(), Ok(22));
}

#[test]
fn no_focused_window() {
    let reply = r#"[{"id": 1, "pid": 2, "wm_class": "a", "focus": false}]"#;
    assert!(focused_window(reply).unwrap().is_none());
    assert!(focused_window("[]").unwrap().is_none());
}

#[test]
fn window_list_errors() {
    assert_eq!(focused_window("not json").err(), Some(WindowError::NotJson));
    assert_eq!(focused_window("{}").err(), Some(WindowError::Malformed));
    assert_eq!(focused_window(r#"[{"id": 1}]"#).err(), Some(WindowError::Malformed));
    assert_eq!(focused_window(r#"[{"focus": "yes"}]"#).err(), Some(WindowError::Malformed));
    assert_eq!(
        focused_window(r#"[{"id": 1, "pid": 2, "focus": true}]"#).err(),
        Some(WindowError::Malformed)
    );
    assert_eq!(
        focused_window(r#"[{"id": -1, "pid": 2, "wm_class": "a", "focus": true}]"#).err(),
        Some(WindowError::Malformed)
    );
}

#[test]
fn windows_after_the_focused_one_are_not_read() {
    let reply = r#"[{"id": 5, "pid": 6, "wm_class": "a", "focus": true}, 17]"#;
    assert_eq!(focused_window(reply).unwrap().unwrap().id, 5);
}

#[test]
fn large_window_id_does_not_fit_details_request() {
    let reply = r#"[{"id": 4294967296, "pid": 6, "wm_class": "a", "focus": true}]"#;
    let w = focused_window(reply).unwrap().unwrap();
    assert_eq!(w.details_id(), Err(WindowError::IdOutOfRange));
}

#[test]
fn geometry_is_read_from_details() {
    let g = window_geometry(r#"{"width": 800, "height": 600, "x": -5, "y": 10, "title": "t"}"#);
    assert_eq!(g, Ok(Geometry { width: 800, height: 600, x: -5, y: 10 }));
    assert_eq!(window_geometry(r#"{"width": 800}"#), Err(WindowError::Malformed));
    assert_eq!(window_geometry("[1]"), Err(WindowError::Malformed));
    assert_eq!(window_geometry("{"), Err(WindowError::NotJson));
}

#[test]
fn window_process_is_the_first_with_its_pid() {
    let pids = vec![1, 7, 42, 7];
    assert_eq!(find_window_process(&pids, 7), Some(1));
    assert_eq!(find_window_process(&pids, 9), None);
    assert_eq!(find_window_process(&Vec::new(), 1), None);
}

#[test]
fn unknown_process_name_is_default() {
    assert_eq!(executable_or_default(Some("firefox".to_string())), "firefox");
    assert_eq!(executable_or_default(None), "default");
}
