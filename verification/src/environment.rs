//! The environment variables that describe the focused window to the
//! scripts: their names and their decimal values.

use vstd::prelude::*;

use crate::config::Macro;
use crate::numtext::{decimal_int, decimal_nat, i64_text, u64_text};
use crate::window::{FocusedWindow, Geometry};

verus! {

/// A list of variables, each as a name and a value.
pub open spec fn variables_view(vars: Seq<(String, String)>) -> Seq<(Seq<char>, Seq<char>)> {
    vars.map_values(|p: (String, String)| (p.0@, p.1@))
}

fn push_variable(vars: &mut Vec<(String, String)>, name: &str, value: String)
    ensures
        variables_view(final(vars)@) == variables_view(old(vars)@).push((name@, value@)),
{
    vars.push((name.to_owned(), value));
    assert(variables_view(vars@) =~= variables_view(old(vars)@).push((name@, value@)));
}

/// What the X server told of the focused window: its id; the process id of
/// its owner, `0` where unknown; its size, where known; and the pointer's
/// position and screen, where known.
pub struct X11Window {
    pub window: u64,
    pub pid: i32,
    pub size: Option<(u32, u32)>,
    pub mouse: Option<(i32, i32, i32)>,
}

/// The variables for a window on X11, in the order they are set.
pub open spec fn x11_variables_spec(w: X11Window) -> Seq<(Seq<char>, Seq<char>)> {
    seq![("MACRO_MANAGER_WINDOW"@, decimal_nat(w.window as nat))] + (if w.pid != 0 {
        seq![("MACRO_MANAGER_WINDOW_PID"@, decimal_int(w.pid as int))]
    } else {
        Seq::empty()
    }) + match w.size {
        Some((width, height)) => seq![
            ("MACRO_MANAGER_WINDOW_WIDTH"@, decimal_nat(width as nat)),
            ("MACRO_MANAGER_WINDOW_HEIGHT"@, decimal_nat(height as nat)),
        ],
        None => Seq::empty(),
    } + match w.mouse {
        Some((x, y, screen)) => seq![
            ("MACRO_MANAGER_MOUSE_X"@, decimal_int(x as int)),
            ("MACRO_MANAGER_MOUSE_Y"@, decimal_int(y as int)),
            ("MACRO_MANAGER_MOUSE_SCREEN"@, decimal_int(screen as int)),
        ],
        None => Seq::empty(),
    }
}

/// The variables that describe a window on X11.
pub fn x11_variables(w: &X11Window) -> (r: Vec<(String, String)>)
    ensures
        variables_view(r@) == x11_variables_spec(*w),
{
    let mut vars: Vec<(String, String)> = Vec::new();
    push_variable(&mut vars, "MACRO_MANAGER_WINDOW", u64_text(w.window));
    let ghost after_window = variables_view(vars@);
    if w.pid != 0 {
        push_variable(&mut vars, "MACRO_MANAGER_WINDOW_PID", i64_text(w.pid as i64));
    }
    let ghost after_pid = variables_view(vars@);
    match w.size {
        Some((width, height)) => {
            push_variable(&mut vars, "MACRO_MANAGER_WINDOW_WIDTH", u64_text(width as u64));
            push_variable(&mut vars, "MACRO_MANAGER_WINDOW_HEIGHT", u64_text(height as u64));
        },
        None => {},
    }
    let ghost after_size = variables_view(vars@);
    match w.mouse {
        Some((x, y, screen)) => {
            push_variable(&mut vars, "MACRO_MANAGER_MOUSE_X", i64_text(x as i64));
            push_variable(&mut vars, "MACRO_MANAGER_MOUSE_Y", i64_text(y as i64));
            push_variable(&mut vars, "MACRO_MANAGER_MOUSE_SCREEN", i64_text(screen as i64));
        },
        None => {},
    }
    assert(variables_view(vars@) =~= x11_variables_spec(*w));
    vars
}

/// The variables for a window on Wayland, in the order they are set.
pub open spec fn wayland_variables_spec(id: u64, pid: i64, g: Geometry) -> Seq<
    (Seq<char>, Seq<char>),
> {
    seq![
        ("MACRO_MANAGER_WINDOW"@, decimal_nat(id as nat)),
        ("MACRO_MANAGER_WINDOW_PID"@, decimal_int(pid as int)),
        ("MACRO_MANAGER_WINDOW_WIDTH"@, decimal_int(g.width as int)),
        ("MACRO_MANAGER_WINDOW_HEIGHT"@, decimal_int(g.height as int)),
        ("MACRO_MANAGER_WINDOW_X"@, decimal_int(g.x as int)),
        ("MACRO_MANAGER_WINDOW_Y"@, decimal_int(g.y as int)),
    ]
}

/// The variables that describe the focused window on Wayland.
pub fn wayland_variables(window: &FocusedWindow, geometry: &Geometry) -> (r: Vec<(String, String)>)
    ensures
        variables_view(r@) == wayland_variables_spec(window.id, window.pid, *geometry),
{
    let mut vars: Vec<(String, String)> = Vec::new();
    push_variable(&mut vars, "MACRO_MANAGER_WINDOW", u64_text(window.id));
    push_variable(&mut vars, "MACRO_MANAGER_WINDOW_PID", i64_text(window.pid));
    push_variable(&mut vars, "MACRO_MANAGER_WINDOW_WIDTH", i64_text(geometry.width));
    push_variable(&mut vars, "MACRO_MANAGER_WINDOW_HEIGHT", i64_text(geometry.height));
    push_variable(&mut vars, "MACRO_MANAGER_WINDOW_X", i64_text(geometry.x));
    push_variable(&mut vars, "MACRO_MANAGER_WINDOW_Y", i64_text(geometry.y));
    assert(variables_view(vars@) =~= wayland_variables_spec(window.id, window.pid, *geometry));
    vars
}

/// Whether a list of variables gives `name` exactly the value `value`: it
/// holds that pair, and every variable of that name has that value.
pub open spec fn sets_variable(
    vars: Seq<(Seq<char>, Seq<char>)>,
    name: Seq<char>,
    value: Seq<char>,
) -> bool {
    &&& vars.contains((name, value))
    &&& forall|k: int| 0 <= k < vars.len() && (#[trigger] vars[k]).0 == name ==> vars[k].1 == value
}

/// Whether a list of variables has none of that name.
pub open spec fn lacks_variable(vars: Seq<(Seq<char>, Seq<char>)>, name: Seq<char>) -> bool {
    forall|k: int| 0 <= k < vars.len() ==> (#[trigger] vars[k]).0 != name
}

/// The names of the variables differ from one another.
proof fn lemma_variable_names_differ()
    ensures
        "MACRO_MANAGER_WINDOW"@ != "MACRO_MANAGER_WINDOW_PID"@,
        "MACRO_MANAGER_WINDOW"@ != "MACRO_MANAGER_WINDOW_WIDTH"@,
        "MACRO_MANAGER_WINDOW"@ != "MACRO_MANAGER_WINDOW_HEIGHT"@,
        "MACRO_MANAGER_WINDOW"@ != "MACRO_MANAGER_WINDOW_X"@,
        "MACRO_MANAGER_WINDOW"@ != "MACRO_MANAGER_WINDOW_Y"@,
        "MACRO_MANAGER_WINDOW"@ != "MACRO_MANAGER_MOUSE_X"@,
        "MACRO_MANAGER_WINDOW"@ != "MACRO_MANAGER_MOUSE_Y"@,
        "MACRO_MANAGER_WINDOW"@ != "MACRO_MANAGER_MOUSE_SCREEN"@,
        "MACRO_MANAGER_WINDOW_PID"@ != "MACRO_MANAGER_WINDOW_WIDTH"@,
        "MACRO_MANAGER_WINDOW_PID"@ != "MACRO_MANAGER_WINDOW_HEIGHT"@,
        "MACRO_MANAGER_WINDOW_PID"@ != "MACRO_MANAGER_WINDOW_X"@,
        "MACRO_MANAGER_WINDOW_PID"@ != "MACRO_MANAGER_WINDOW_Y"@,
        "MACRO_MANAGER_WINDOW_PID"@ != "MACRO_MANAGER_MOUSE_X"@,
        "MACRO_MANAGER_WINDOW_PID"@ != "MACRO_MANAGER_MOUSE_Y"@,
        "MACRO_MANAGER_WINDOW_PID"@ != "MACRO_MANAGER_MOUSE_SCREEN"@,
        "MACRO_MANAGER_WINDOW_WIDTH"@ != "MACRO_MANAGER_WINDOW_HEIGHT"@,
        "MACRO_MANAGER_WINDOW_WIDTH"@ != "MACRO_MANAGER_WINDOW_X"@,
        "MACRO_MANAGER_WINDOW_WIDTH"@ != "MACRO_MANAGER_WINDOW_Y"@,
        "MACRO_MANAGER_WINDOW_WIDTH"@ != "MACRO_MANAGER_MOUSE_X"@,
        "MACRO_MANAGER_WINDOW_WIDTH"@ != "MACRO_MANAGER_MOUSE_Y"@,
        "MACRO_MANAGER_WINDOW_WIDTH"@ != "MACRO_MANAGER_MOUSE_SCREEN"@,
        "MACRO_MANAGER_WINDOW_HEIGHT"@ != "MACRO_MANAGER_WINDOW_X"@,
        "MACRO_MANAGER_WINDOW_HEIGHT"@ != "MACRO_MANAGER_WINDOW_Y"@,
        "MACRO_MANAGER_WINDOW_HEIGHT"@ != "MACRO_MANAGER_MOUSE_X"@,
        "MACRO_MANAGER_WINDOW_HEIGHT"@ != "MACRO_MANAGER_MOUSE_Y"@,
        "MACRO_MANAGER_WINDOW_HEIGHT"@ != "MACRO_MANAGER_MOUSE_SCREEN"@,
        "MACRO_MANAGER_WINDOW_X"@ != "MACRO_MANAGER_WINDOW_Y"@,
        "MACRO_MANAGER_MOUSE_X"@ != "MACRO_MANAGER_MOUSE_Y"@,
        "MACRO_MANAGER_MOUSE_X"@ != "MACRO_MANAGER_MOUSE_SCREEN"@,
        "MACRO_MANAGER_MOUSE_Y"@ != "MACRO_MANAGER_MOUSE_SCREEN"@,
{
    reveal_strlit("MACRO_MANAGER_WINDOW");
    reveal_strlit("MACRO_MANAGER_WINDOW_PID");
    reveal_strlit("MACRO_MANAGER_WINDOW_WIDTH");
    reveal_strlit("MACRO_MANAGER_WINDOW_HEIGHT");
    reveal_strlit("MACRO_MANAGER_WINDOW_X");
    reveal_strlit("MACRO_MANAGER_WINDOW_Y");
    reveal_strlit("MACRO_MANAGER_MOUSE_X");
    reveal_strlit("MACRO_MANAGER_MOUSE_Y");
    reveal_strlit("MACRO_MANAGER_MOUSE_SCREEN");
    assert("MACRO_MANAGER_WINDOW"@.len() == 20);
    assert("MACRO_MANAGER_WINDOW_PID"@.len() == 24);
    assert("MACRO_MANAGER_WINDOW_WIDTH"@.len() == 26);
    assert("MACRO_MANAGER_WINDOW_HEIGHT"@.len() == 27);
    assert("MACRO_MANAGER_WINDOW_X"@.len() == 22);
    assert("MACRO_MANAGER_WINDOW_Y"@.len() == 22);
    assert("MACRO_MANAGER_MOUSE_X"@.len() == 21);
    assert("MACRO_MANAGER_MOUSE_Y"@.len() == 21);
    assert("MACRO_MANAGER_MOUSE_SCREEN"@.len() == 26);
    assert("MACRO_MANAGER_WINDOW_X"@[21] != "MACRO_MANAGER_WINDOW_Y"@[21]);
    assert("MACRO_MANAGER_WINDOW_WIDTH"@[21] != "MACRO_MANAGER_WINDOW_X"@[21]);
    assert("MACRO_MANAGER_WINDOW_WIDTH"@[21] != "MACRO_MANAGER_WINDOW_Y"@[21]);
    assert("MACRO_MANAGER_WINDOW_HEIGHT"@[21] != "MACRO_MANAGER_WINDOW_X"@[21]);
    assert("MACRO_MANAGER_WINDOW_HEIGHT"@[21] != "MACRO_MANAGER_WINDOW_Y"@[21]);
    assert("MACRO_MANAGER_WINDOW_PID"@[21] != "MACRO_MANAGER_WINDOW_X"@[21]);
    assert("MACRO_MANAGER_WINDOW_PID"@[21] != "MACRO_MANAGER_WINDOW_Y"@[21]);
    assert("MACRO_MANAGER_MOUSE_X"@[14] != "MACRO_MANAGER_WINDOW"@[14]);
    assert("MACRO_MANAGER_MOUSE_Y"@[14] != "MACRO_MANAGER_WINDOW"@[14]);
    assert("MACRO_MANAGER_MOUSE_X"@[20] != "MACRO_MANAGER_MOUSE_Y"@[20]);
    assert("MACRO_MANAGER_MOUSE_X"@[14] != "MACRO_MANAGER_WINDOW_X"@[14]);
    assert("MACRO_MANAGER_MOUSE_Y"@[14] != "MACRO_MANAGER_WINDOW_Y"@[14]);
    assert("MACRO_MANAGER_MOUSE_X"@[14] != "MACRO_MANAGER_WINDOW_PID"@[14]);
    assert("MACRO_MANAGER_MOUSE_Y"@[14] != "MACRO_MANAGER_WINDOW_PID"@[14]);
    assert("MACRO_MANAGER_MOUSE_X"@[14] != "MACRO_MANAGER_WINDOW_Y"@[14]);
    assert("MACRO_MANAGER_MOUSE_Y"@[14] != "MACRO_MANAGER_WINDOW_X"@[14]);
    assert("MACRO_MANAGER_WINDOW_PID"@[21] != "MACRO_MANAGER_WINDOW_WIDTH"@[21]);
    assert("MACRO_MANAGER_MOUSE_SCREEN"@[14] != "MACRO_MANAGER_WINDOW_WIDTH"@[14]);
    assert("MACRO_MANAGER_MOUSE_SCREEN"@[14] != "MACRO_MANAGER_WINDOW_HEIGHT"@[14]);
}

/// Law: on X11 each variable carries its own quantity, for every value: the
/// window id; the owner's process id where known (and no such variable
/// where it is not); the width and the height as the X server gives them;
/// the pointer's position and screen.
pub proof fn lemma_x11_variables_values(w: X11Window)
    ensures
        sets_variable(x11_variables_spec(w), "MACRO_MANAGER_WINDOW"@, decimal_nat(w.window as nat)),
        w.pid != 0 ==> sets_variable(
            x11_variables_spec(w),
            "MACRO_MANAGER_WINDOW_PID"@,
            decimal_int(w.pid as int),
        ),
        w.pid == 0 ==> lacks_variable(x11_variables_spec(w), "MACRO_MANAGER_WINDOW_PID"@),
        w.size matches Some((width, height)) ==> sets_variable(
            x11_variables_spec(w),
            "MACRO_MANAGER_WINDOW_WIDTH"@,
            decimal_nat(width as nat),
        ) && sets_variable(
            x11_variables_spec(w),
            "MACRO_MANAGER_WINDOW_HEIGHT"@,
            decimal_nat(height as nat),
        ),
        w.mouse matches Some((x, y, screen)) ==> sets_variable(
            x11_variables_spec(w),
            "MACRO_MANAGER_MOUSE_X"@,
            decimal_int(x as int),
        ) && sets_variable(x11_variables_spec(w), "MACRO_MANAGER_MOUSE_Y"@, decimal_int(y as int))
            && sets_variable(
            x11_variables_spec(w),
            "MACRO_MANAGER_MOUSE_SCREEN"@,
            decimal_int(screen as int),
        ),
{
    lemma_variable_names_differ();
    let v = x11_variables_spec(w);
    assert(v[0] == ("MACRO_MANAGER_WINDOW"@, decimal_nat(w.window as nat)));
    let p: int = if w.pid != 0 { 1 } else { 0 };
    if w.pid != 0 {
        assert(v[1] == ("MACRO_MANAGER_WINDOW_PID"@, decimal_int(w.pid as int)));
    }
    let q: int = if w.size is Some { 2 } else { 0 };
    match w.size {
        Some((width, height)) => {
            assert(v[1 + p] == ("MACRO_MANAGER_WINDOW_WIDTH"@, decimal_nat(width as nat)));
            assert(v[2 + p] == ("MACRO_MANAGER_WINDOW_HEIGHT"@, decimal_nat(height as nat)));
        },
        None => {},
    }
    match w.mouse {
        Some((x, y, screen)) => {
            assert(v[1 + p + q] == ("MACRO_MANAGER_MOUSE_X"@, decimal_int(x as int)));
            assert(v[2 + p + q] == ("MACRO_MANAGER_MOUSE_Y"@, decimal_int(y as int)));
            assert(v[3 + p + q] == ("MACRO_MANAGER_MOUSE_SCREEN"@, decimal_int(screen as int)));
        },
        None => {},
    }
}

/// Law: on Wayland each variable carries its own quantity, for every value:
/// the window id, the owner's process id, the width and height as the
/// details give them, and the position.
pub proof fn lemma_wayland_variables_values(id: u64, pid: i64, g: Geometry)
    ensures
        sets_variable(wayland_variables_spec(id, pid, g), "MACRO_MANAGER_WINDOW"@, decimal_nat(id as nat)),
        sets_variable(wayland_variables_spec(id, pid, g), "MACRO_MANAGER_WINDOW_PID"@, decimal_int(pid as int)),
        sets_variable(wayland_variables_spec(id, pid, g), "MACRO_MANAGER_WINDOW_WIDTH"@, decimal_int(g.width as int)),
        sets_variable(wayland_variables_spec(id, pid, g), "MACRO_MANAGER_WINDOW_HEIGHT"@, decimal_int(g.height as int)),
        sets_variable(wayland_variables_spec(id, pid, g), "MACRO_MANAGER_WINDOW_X"@, decimal_int(g.x as int)),
        sets_variable(wayland_variables_spec(id, pid, g), "MACRO_MANAGER_WINDOW_Y"@, decimal_int(g.y as int)),
{
    lemma_variable_names_differ();
    let v = wayland_variables_spec(id, pid, g);
    assert(v[0] == ("MACRO_MANAGER_WINDOW"@, decimal_nat(id as nat)));
    assert(v[1] == ("MACRO_MANAGER_WINDOW_PID"@, decimal_int(pid as int)));
    assert(v[2] == ("MACRO_MANAGER_WINDOW_WIDTH"@, decimal_int(g.width as int)));
    assert(v[3] == ("MACRO_MANAGER_WINDOW_HEIGHT"@, decimal_int(g.height as int)));
    assert(v[4] == ("MACRO_MANAGER_WINDOW_X"@, decimal_int(g.x as int)));
    assert(v[5] == ("MACRO_MANAGER_WINDOW_Y"@, decimal_int(g.y as int)));
}

impl Macro {
    /// The variable that names the executable of the focused window: its
    /// process name where known, `default` otherwise (also after a fallback
    /// to the entry of `default`, it names the window's own executable).
    pub fn bin_variable(&self) -> (r: (String, String))
        ensures
            r.0@ == "MACRO_MANAGER_WINDOW_BIN"@,
            r.1@ == self.executable@,
    {
        ("MACRO_MANAGER_WINDOW_BIN".to_owned(), self.executable.clone())
    }
}

} // verus!
