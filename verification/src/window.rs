//! Which window has the focus, and which executable it belongs to: read from
//! the replies of GNOME's window list on Wayland, and from the process table
//! on X11.

use vstd::prelude::*;

use crate::json_model::{
    json_as_array, json_as_bool, json_as_i64, json_as_object, json_as_str, json_as_u64,
    json_document, json_fields, json_get, json_item, parse_json, JsonItem,
};

verus! {

/// Why a reply about the windows could not be read.
#[derive(PartialEq, Eq, Structural, Debug)]
pub enum WindowError {
    /// The reply is not JSON.
    NotJson,
    /// The reply is JSON but not of the expected shape.
    Malformed,
    /// The window id does not fit the `u32` that the details request takes.
    IdOutOfRange,
}

/// What a window entry says of the focus: its `focus` field where it is an
/// object whose `focus` is a boolean, `None` otherwise.
pub open spec fn focus_of(window: JsonItem) -> Option<bool> {
    match window {
        JsonItem::Object(fields) => if fields.contains_key("focus"@) {
            match fields["focus"@] {
                JsonItem::Flag(b) => Some(b),
                _ => None,
            }
        } else {
            None
        },
        _ => None,
    }
}

/// Scans the windows from index `from` on, in order: `Ok(Some(i))` for the
/// first window that has the focus, `Err(i)` for a window without a boolean
/// `focus` met before any focused one, `Ok(None)` when no window has it.
pub open spec fn focused_index(windows: Seq<JsonItem>, from: int) -> Result<Option<int>, int>
    decreases windows.len() - from,
{
    if from < 0 || from >= windows.len() {
        Ok(None)
    } else {
        match focus_of(windows[from]) {
            None => Err(from),
            Some(true) => Ok(Some(from)),
            Some(false) => focused_index(windows, from + 1),
        }
    }
}

/// The integer of a field, where it fits in a `u64`.
pub open spec fn u64_field(fields: Map<Seq<char>, JsonItem>, name: Seq<char>) -> Option<u64> {
    if fields.contains_key(name) {
        match fields[name] {
            JsonItem::Integer(n) => if 0 <= n <= u64::MAX {
                Some(n as u64)
            } else {
                None
            },
            _ => None,
        }
    } else {
        None
    }
}

/// The integer of a field, where it fits in an `i64`.
pub open spec fn i64_field(fields: Map<Seq<char>, JsonItem>, name: Seq<char>) -> Option<i64> {
    if fields.contains_key(name) {
        match fields[name] {
            JsonItem::Integer(n) => if i64::MIN <= n <= i64::MAX {
                Some(n as i64)
            } else {
                None
            },
            _ => None,
        }
    } else {
        None
    }
}

/// The string of a field.
pub open spec fn text_field(fields: Map<Seq<char>, JsonItem>, name: Seq<char>) -> Option<
    Seq<char>,
> {
    if fields.contains_key(name) {
        match fields[name] {
            JsonItem::Text(s) => Some(s),
            _ => None,
        }
    } else {
        None
    }
}

/// The focused window: its id, its process id, and its window class, which
/// names its executable.
pub struct FocusedWindow {
    pub id: u64,
    pub pid: i64,
    pub wm_class: String,
}

/// The id, process id and window class of a window entry, where it has all
/// three.
pub open spec fn window_fields(window: JsonItem) -> Option<(u64, i64, Seq<char>)> {
    match window {
        JsonItem::Object(fields) => match (
            u64_field(fields, "id"@),
            i64_field(fields, "pid"@),
            text_field(fields, "wm_class"@),
        ) {
            (Some(id), Some(pid), Some(class)) => Some((id, pid, class)),
            _ => None,
        },
        _ => None,
    }
}

/// What the window list says of the focused window.
pub open spec fn focused_window_spec(list: JsonItem) -> Result<
    Option<(u64, i64, Seq<char>)>,
    WindowError,
> {
    match list {
        JsonItem::List(windows) => match focused_index(windows, 0) {
            Err(_) => Err(WindowError::Malformed),
            Ok(None) => Ok(None),
            Ok(Some(i)) => match window_fields(windows[i]) {
                Some(w) => Ok(Some(w)),
                None => Err(WindowError::Malformed),
            },
        },
        _ => Err(WindowError::Malformed),
    }
}

/// Whether a result of reading the focused window is the one that the model
/// gives.
pub open spec fn focused_agrees(
    r: Result<Option<FocusedWindow>, WindowError>,
    expected: Result<Option<(u64, i64, Seq<char>)>, WindowError>,
) -> bool {
    match (r, expected) {
        (Ok(Some(w)), Ok(Some((id, pid, class)))) => w.id == id && w.pid == pid && w.wm_class@
            == class,
        (Ok(None), Ok(None)) => true,
        (Err(e), Err(f)) => e == f,
        _ => false,
    }
}

/// Whether a window entry is an object whose `focus` is the boolean `b`.
pub open spec fn has_focus_flag(window: JsonItem, b: bool) -> bool {
    window matches JsonItem::Object(fields) && fields.contains_key("focus"@) && fields["focus"@]
        == JsonItem::Flag(b)
}

proof fn lemma_first_focused_from(windows: Seq<JsonItem>, i: int, from: int)
    requires
        0 <= from <= i < windows.len(),
        has_focus_flag(windows[i], true),
        forall|j: int| 0 <= j < i ==> has_focus_flag(#[trigger] windows[j], false),
    ensures
        focused_index(windows, from) == Ok::<Option<int>, int>(Some(i)),
    decreases i - from,
{
    if from < i {
        assert(has_focus_flag(windows[from], false));
        lemma_first_focused_from(windows, i, from + 1);
    }
}

/// Law: a window list in which window `i` has the focus and every earlier
/// window says it has not, at whatever position `i` stands, gives window
/// `i`.
pub proof fn lemma_first_focused_window(windows: Seq<JsonItem>, i: int)
    requires
        0 <= i < windows.len(),
        has_focus_flag(windows[i], true),
        forall|j: int| 0 <= j < i ==> has_focus_flag(#[trigger] windows[j], false),
    ensures
        focused_index(windows, 0) == Ok::<Option<int>, int>(Some(i)),
{
    lemma_first_focused_from(windows, i, 0);
}

/// Law: where window `i` is the first with the focus, and has an `id`, a
/// `pid` and a `wm_class` of the right kinds, the focused window read from
/// the list is that window, at whatever position it stands.
pub proof fn lemma_focused_window_fields(
    windows: Seq<JsonItem>,
    i: int,
    fields: Map<Seq<char>, JsonItem>,
    id: int,
    pid: int,
    class: Seq<char>,
)
    requires
        0 <= i < windows.len(),
        windows[i] == JsonItem::Object(fields),
        fields.contains_key("focus"@),
        fields["focus"@] == JsonItem::Flag(true),
        forall|j: int| 0 <= j < i ==> has_focus_flag(#[trigger] windows[j], false),
        fields.contains_key("id"@),
        fields["id"@] == JsonItem::Integer(id),
        0 <= id <= u64::MAX,
        fields.contains_key("pid"@),
        fields["pid"@] == JsonItem::Integer(pid),
        i64::MIN <= pid <= i64::MAX,
        fields.contains_key("wm_class"@),
        fields["wm_class"@] == JsonItem::Text(class),
    ensures
        focused_window_spec(JsonItem::List(windows)) == Ok::<
            Option<(u64, i64, Seq<char>)>,
            WindowError,
        >(Some((id as u64, pid as i64, class))),
{
    lemma_first_focused_window(windows, i);
}

proof fn lemma_no_focus_from(windows: Seq<JsonItem>, from: int)
    requires
        0 <= from,
        focused_index(windows, from) == Ok::<Option<int>, int>(None),
    ensures
        forall|j: int| from <= j < windows.len() ==> has_focus_flag(#[trigger] windows[j], false),
    decreases windows.len() - from,
{
    if from < windows.len() {
        lemma_no_focus_from(windows, from + 1);
        assert forall|j: int| from <= j < windows.len() implies has_focus_flag(
            #[trigger] windows[j],
            false,
        ) by {
            if j == from {
                assert(focus_of(windows[from]) == Some(false));
            }
        }
    }
}

/// Law: the window list gives no focused window only where every window in
/// the whole list says it does not have the focus.
pub proof fn lemma_no_focused_window(windows: Seq<JsonItem>)
    requires
        focused_window_spec(JsonItem::List(windows)) == Ok::<
            Option<(u64, i64, Seq<char>)>,
            WindowError,
        >(None),
    ensures
        forall|j: int| 0 <= j < windows.len() ==> has_focus_flag(#[trigger] windows[j], false),
{
    lemma_no_focus_from(windows, 0);
}

/// Reads the focused window from a parsed window list: the first entry whose
/// `focus` is true, with its `id`, `pid` and `wm_class`.
pub fn focused_window_in(list: &serde_json::Value) -> (r: Result<Option<FocusedWindow>, WindowError>)
    ensures
        focused_agrees(r, focused_window_spec(json_item(*list))),
{
    let windows = match json_as_array(list) {
        Some(w) => w,
        None => {
            return Err(WindowError::Malformed);
        },
    };
    let ghost items = json_item(*list)->List_0;
    let n = windows.len();
    let mut i: usize = 0;
    while i < n
        invariant
            i <= n,
            n == windows@.len(),
            n == items.len(),
            json_item(*list) == JsonItem::List(items),
            forall|j: int| 0 <= j < n ==> json_item(#[trigger] windows@[j]) == items[j],
            focused_index(items, 0) == focused_index(items, i as int),
        decreases n - i,
    {
        let window = &windows[i];
        let object = match json_as_object(window) {
            Some(o) => o,
            None => {
                return Err(WindowError::Malformed);
            },
        };
        let focus = match json_get(object, "focus") {
            Some(f) => match json_as_bool(f) {
                Some(b) => b,
                None => {
                    return Err(WindowError::Malformed);
                },
            },
            None => {
                return Err(WindowError::Malformed);
            },
        };
        if focus {
            let id = match json_get(object, "id") {
                Some(v) => json_as_u64(v),
                None => None,
            };
            let pid = match json_get(object, "pid") {
                Some(v) => json_as_i64(v),
                None => None,
            };
            let class = match json_get(object, "wm_class") {
                Some(v) => json_as_str(v),
                None => None,
            };
            return match (id, pid, class) {
                (Some(id), Some(pid), Some(class)) => Ok(
                    Some(FocusedWindow { id, pid, wm_class: class.to_owned() }),
                ),
                _ => Err(WindowError::Malformed),
            };
        }
        i = i + 1;
    }
    Ok(None)
}

/// Reads the focused window from the text of the window list that GNOME's
/// `Windows.List` call replies.
pub fn focused_window(list_reply: &str) -> (r: Result<Option<FocusedWindow>, WindowError>)
    ensures
        match json_document(list_reply@) {
            None => r is Err && r == Err::<Option<FocusedWindow>, WindowError>(WindowError::NotJson),
            Some(list) => focused_agrees(r, focused_window_spec(list)),
        },
{
    match parse_json(list_reply) {
        Ok(list) => focused_window_in(&list),
        Err(_) => Err(WindowError::NotJson),
    }
}

impl FocusedWindow {
    /// The window id as the `u32` that GNOME's `Windows.Details` call takes.
    pub fn details_id(&self) -> (r: Result<u32, WindowError>)
        ensures
            self.id <= u32::MAX ==> r == Ok::<u32, WindowError>(self.id as u32),
            self.id > u32::MAX ==> r == Err::<u32, WindowError>(WindowError::IdOutOfRange),
    {
        if self.id <= 4294967295 {
            Ok(self.id as u32)
        } else {
            Err(WindowError::IdOutOfRange)
        }
    }
}

/// The size and position of a window.
#[derive(PartialEq, Eq, Structural, Debug)]
pub struct Geometry {
    pub width: i64,
    pub height: i64,
    pub x: i64,
    pub y: i64,
}

/// What a window's details say of its size and position: an object whose
/// `width`, `height`, `x` and `y` are integers that fit in an `i64`.
pub open spec fn geometry_spec(details: JsonItem) -> Option<Geometry> {
    match details {
        JsonItem::Object(fields) => match (
            i64_field(fields, "width"@),
            i64_field(fields, "height"@),
            i64_field(fields, "x"@),
            i64_field(fields, "y"@),
        ) {
            (Some(width), Some(height), Some(x), Some(y)) => Some(Geometry { width, height, x, y }),
            _ => None,
        },
        _ => None,
    }
}

/// Law: a window's geometry is read field by field: its width is the
/// details' `width`, its height their `height`, its position their `x` and
/// `y`; and where all four are integers that fit in an `i64`, the geometry
/// is read.
pub proof fn lemma_geometry_fields(details: JsonItem)
    ensures
        geometry_spec(details) is Some ==> (details is Object && details->Object_0.contains_key(
            "width"@,
        ) && details->Object_0["width"@] == JsonItem::Integer(
            geometry_spec(details)->Some_0.width as int,
        ) && details->Object_0.contains_key("height"@) && details->Object_0["height"@]
            == JsonItem::Integer(geometry_spec(details)->Some_0.height as int)
            && details->Object_0.contains_key("x"@) && details->Object_0["x"@] == JsonItem::Integer(
            geometry_spec(details)->Some_0.x as int,
        ) && details->Object_0.contains_key("y"@) && details->Object_0["y"@] == JsonItem::Integer(
            geometry_spec(details)->Some_0.y as int,
        )),
        (details is Object && i64_field(details->Object_0, "width"@) is Some && i64_field(
            details->Object_0,
            "height"@,
        ) is Some && i64_field(details->Object_0, "x"@) is Some && i64_field(
            details->Object_0,
            "y"@,
        ) is Some) ==> geometry_spec(details) is Some,
{
}

fn i64_of(object: &serde_json::Map<String, serde_json::Value>, key: &str) -> (r: Option<i64>)
    ensures
        r == i64_field(json_fields(*object), key@),
{
    match json_get(object, key) {
        Some(v) => json_as_i64(v),
        None => None,
    }
}

/// Reads a window's size and position from a parsed details reply.
pub fn geometry_in(details: &serde_json::Value) -> (r: Result<Geometry, WindowError>)
    ensures
        match geometry_spec(json_item(*details)) {
            Some(g) => r == Ok::<Geometry, WindowError>(g),
            None => r == Err::<Geometry, WindowError>(WindowError::Malformed),
        },
{
    let object = match json_as_object(details) {
        Some(o) => o,
        None => {
            return Err(WindowError::Malformed);
        },
    };
    match (i64_of(object, "width"), i64_of(object, "height"), i64_of(object, "x"), i64_of(object, "y")) {
        (Some(width), Some(height), Some(x), Some(y)) => Ok(Geometry { width, height, x, y }),
        _ => Err(WindowError::Malformed),
    }
}

/// Reads a window's size and position from the text that GNOME's
/// `Windows.Details` call replies.
pub fn window_geometry(details_reply: &str) -> (r: Result<Geometry, WindowError>)
    ensures
        match json_document(details_reply@) {
            None => r == Err::<Geometry, WindowError>(WindowError::NotJson),
            Some(details) => match geometry_spec(details) {
                Some(g) => r == Ok::<Geometry, WindowError>(g),
                None => r == Err::<Geometry, WindowError>(WindowError::Malformed),
            },
        },
{
    match parse_json(details_reply) {
        Ok(details) => geometry_in(&details),
        Err(_) => Err(WindowError::NotJson),
    }
}

/// Finds the process of the focused window among the process ids of the
/// process table: the first entry with that id.
pub fn find_window_process(pids: &Vec<i32>, window_pid: i32) -> (r: Option<usize>)
    ensures
        match r {
            Some(i) => i < pids@.len() && pids@[i as int] == window_pid && forall|j: int|
                0 <= j < i ==> pids@[j] != window_pid,
            None => forall|j: int| 0 <= j < pids@.len() ==> pids@[j] != window_pid,
        },
{
    let n = pids.len();
    let mut i: usize = 0;
    while i < n
        invariant
            i <= n,
            n == pids@.len(),
            forall|j: int| 0 <= j < i ==> pids@[j] != window_pid,
        decreases n - i,
    {
        if pids[i] == window_pid {
            return Some(i);
        }
        i = i + 1;
    }
    None
}

/// The executable name of the focused window's process, and `default` where
/// it could not be read.
pub fn executable_or_default(process_name: Option<String>) -> (r: String)
    ensures
        match process_name {
            Some(name) => r@ == name@,
            None => r@ == "default"@,
        },
{
    match process_name {
        Some(name) => name,
        None => "default".to_owned(),
    }
}

} // verus!
