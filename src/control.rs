//! Requests to the window manager's command endpoint, and the lookup of the
//! overlay's own window in its window table.
use vstd::prelude::*;
use vstd::string::*;
use vstd::utf8::encode_utf8;
use crate::json::{JsonValue, json_parse, parse_json};
use crate::notification::{windows_of, windows_from_json};
use crate::window::{WindowDescriptor, WindowView, attribute, windows_view};

verus! {

/// The name under which the window manager lists the overlay's own window.
pub const PROCESS_NAME: &'static str = "qalttab";

/// Evaluated by the window manager, this serialises its window table as a
/// JSON list of `{"name", "wid"}` records.
pub const WINDOW_TABLE_QUERY: &'static str = "__import__(\"json\").dumps([{\"name\": self.windows_map[wid].name, \"wid\": str(self.windows_map[wid].wid)} for wid in self.windows_map if hasattr(self.windows_map[wid], \"name\") and hasattr(self.windows_map[wid], \"wid\")])";

/// One request: the object path, the method called on it, its arguments,
/// and the endpoint's `lazy` flag.
#[derive(Debug, PartialEq, Eq)]
pub struct WmCommand {
    pub selectors: Vec<String>,
    pub method: String,
    pub args: Vec<String>,
    pub lazy: bool,
}

/// What a request is.
pub struct CommandView {
    pub selectors: Seq<Seq<char>>,
    pub method: Seq<char>,
    pub args: Seq<Seq<char>>,
    pub lazy: bool,
}

pub open spec fn strings_view(v: Seq<String>) -> Seq<Seq<char>> {
    v.map_values(|s: String| s@)
}

impl View for WmCommand {
    type V = CommandView;

    open spec fn view(&self) -> CommandView {
        CommandView {
            selectors: strings_view(self.selectors@),
            method: self.method@,
            args: strings_view(self.args@),
            lazy: self.lazy,
        }
    }
}

pub open spec fn commands_view(v: Seq<WmCommand>) -> Seq<CommandView> {
    v.map_values(|c: WmCommand| c@)
}

/// A call of `method` on the window whose handle is `id`.
pub open spec fn window_call(id: Seq<char>, method: Seq<char>, args: Seq<Seq<char>>) -> CommandView {
    CommandView { selectors: seq!["window"@, id], method, args, lazy: false }
}

/// An expression evaluated in the window manager's own scope.
pub open spec fn eval_call(expr: Seq<char>) -> CommandView {
    CommandView { selectors: Seq::empty(), method: "eval"@, args: seq![expr], lazy: false }
}

/// The expression that makes the group of window `id` the current one.
pub open spec fn set_group_expr(id: Seq<char>) -> Seq<char> {
    "self.current_screen.set_group(self.windows_map["@ + id + "].group)"@
}

/// Focusing window `id`: switch to its group, focus it without moving the
/// pointer, raise it. Each step needs the one before it.
pub open spec fn focus_plan(id: Seq<char>) -> Seq<CommandView> {
    seq![
        eval_call(set_group_expr(id)),
        window_call(id, "focus"@, Seq::empty()),
        window_call(id, "bring_to_front"@, Seq::empty()),
    ]
}

/// Why a request could not be built.
#[derive(Debug, PartialEq, Eq)]
pub enum ControlError {
    /// The descriptor lacks the named attribute.
    MissingField(String),
}

impl View for ControlError {
    type V = Seq<char>;

    open spec fn view(&self) -> Seq<char> {
        match self {
            ControlError::MissingField(f) => f@,
        }
    }
}

fn strings1(a: String) -> (r: Vec<String>)
    ensures
        strings_view(r@) == seq![a@],
{
    let mut v: Vec<String> = Vec::new();
    v.push(a);
    assert(strings_view(v@) =~= seq![a@]);
    v
}

fn window_selector(id: &String) -> (r: Vec<String>)
    ensures
        strings_view(r@) == seq!["window"@, id@],
{
    let mut v: Vec<String> = Vec::new();
    v.push(String::from_str("window"));
    v.push(id.clone());
    assert(strings_view(v@) =~= seq!["window"@, id@]);
    v
}

fn no_strings() -> (r: Vec<String>)
    ensures
        strings_view(r@) == Seq::<Seq<char>>::empty(),
{
    let v: Vec<String> = Vec::new();
    assert(strings_view(v@) =~= Seq::<Seq<char>>::empty());
    v
}

fn call_on_window(id: &String, method: &str, args: Vec<String>) -> (r: WmCommand)
    ensures
        r@ == window_call(id@, method@, strings_view(args@)),
{
    WmCommand {
        selectors: window_selector(id),
        method: method.to_owned(),
        args,
        lazy: false,
    }
}

fn eval(expr: String) -> (r: WmCommand)
    ensures
        r@ == eval_call(expr@),
{
    WmCommand { selectors: no_strings(), method: String::from_str("eval"), args: strings1(expr), lazy: false }
}

/// The handle of the window a descriptor describes.
fn handle_of(target: &WindowDescriptor) -> (r: Result<String, ControlError>)
    ensures
        match attribute(target@, "id"@) {
            Some(id) => r matches Ok(h) && h@ == id,
            None => r matches Err(e) && e@ == "id"@,
        },
{
    match target.get(&String::from_str("id")) {
        Some(id) => Ok(id),
        None => Err(ControlError::MissingField(String::from_str("id"))),
    }
}

/// The three requests that focus the window `target` describes. Without an
/// `id` attribute no request is built.
pub fn focus_commands(target: &WindowDescriptor) -> (r: Result<Vec<WmCommand>, ControlError>)
    ensures
        match attribute(target@, "id"@) {
            Some(id) => r matches Ok(v) && commands_view(v@) == focus_plan(id),
            None => r matches Err(e) && e@ == "id"@,
        },
{
    let id = handle_of(target)?;
    let expr = String::from_str("self.current_screen.set_group(self.windows_map[").concat(
        id.as_str(),
    ).concat("].group)");
    let mut v: Vec<WmCommand> = Vec::new();
    v.push(eval(expr));
    v.push(call_on_window(&id, "focus", no_strings()));
    v.push(call_on_window(&id, "bring_to_front", no_strings()));
    assert(commands_view(v@) =~= focus_plan(id@));
    Ok(v)
}

/// The request that closes the window `target` describes.
pub fn close_command(target: &WindowDescriptor) -> (r: Result<WmCommand, ControlError>)
    ensures
        match attribute(target@, "id"@) {
            Some(id) => r matches Ok(c) && c@ == window_call(id, "kill"@, Seq::empty()),
            None => r matches Err(e) && e@ == "id"@,
        },
{
    let id = handle_of(target)?;
    Ok(call_on_window(&id, "kill", no_strings()))
}

/// The request that hides the overlay; none while its handle is unknown.
pub fn hide_command(handle: &Option<String>) -> (r: Option<WmCommand>)
    ensures
        match handle {
            Some(h) => r matches Some(c) && c@ == window_call(h@, "hide"@, Seq::empty()),
            None => r is None,
        },
{
    match handle {
        Some(h) => Some(call_on_window(h, "hide", no_strings())),
        None => None,
    }
}

/// The request that shows the overlay; none while its handle is unknown.
pub fn show_command(handle: &Option<String>) -> (r: Option<WmCommand>)
    ensures
        match handle {
            Some(h) => r matches Some(c) && c@ == window_call(h@, "unhide"@, Seq::empty()),
            None => r is None,
        },
{
    match handle {
        Some(h) => Some(call_on_window(h, "unhide", no_strings())),
        None => None,
    }
}

/// Resizing the overlay's floating window, then centring it; nothing while
/// its handle is unknown.
pub fn place_commands(handle: &Option<String>, width: &String, height: &String) -> (r: Vec<
    WmCommand,
>)
    ensures
        match handle {
            Some(h) => commands_view(r@) == seq![
                window_call(h@, "set_size_floating"@, seq![width@, height@]),
                window_call(h@, "center"@, Seq::empty()),
            ],
            None => r@.len() == 0,
        },
{
    let mut v: Vec<WmCommand> = Vec::new();
    match handle {
        Some(h) => {
            let mut args: Vec<String> = Vec::new();
            args.push(width.clone());
            args.push(height.clone());
            assert(strings_view(args@) =~= seq![width@, height@]);
            v.push(call_on_window(h, "set_size_floating", args));
            v.push(call_on_window(h, "center", no_strings()));
            assert(commands_view(v@) =~= seq![
                window_call(h@, "set_size_floating"@, seq![width@, height@]),
                window_call(h@, "center"@, Seq::empty()),
            ]);
        },
        None => {},
    }
    v
}

/// The request that asks for the window table.
pub fn window_table_query() -> (r: WmCommand)
    ensures
        r@ == eval_call(WINDOW_TABLE_QUERY@),
{
    eval(WINDOW_TABLE_QUERY.to_owned())
}

/// The handle of the first window named `name` in a window table.
pub open spec fn handle_in_table(rows: Seq<WindowView>, name: Seq<char>) -> Option<Seq<char>>
    decreases rows.len(),
{
    if rows.len() == 0 {
        None
    } else if attribute(rows[0], "name"@) == Some(name) {
        attribute(rows[0], "wid"@)
    } else {
        handle_in_table(rows.drop_first(), name)
    }
}

/// The window table that a reply to `window_table_query` carries: a
/// successful `(true, text)` pair whose text is a JSON list of records of
/// strings. `None` when the reply has another shape.
pub open spec fn table_of_reply(reply: Seq<u8>) -> Option<Seq<WindowView>> {
    match json_parse(reply) {
        Some(JsonValue::Array(items)) => if items@.len() == 2 && items@[0] == JsonValue::Bool(true)
            && items@[1] is Str {
            match json_parse(encode_utf8(items@[1]->Str_0@)) {
                Some(JsonValue::Array(rows)) => windows_of(rows@),
                _ => None,
            }
        } else {
            None
        },
        _ => None,
    }
}

/// The handle of the first window named `name` among `rows`.
pub fn handle_from_table(rows: &Vec<WindowDescriptor>, name: &String) -> (r: Option<String>)
    ensures
        match r {
            Some(h) => handle_in_table(windows_view(rows@), name@) == Some(h@),
            None => handle_in_table(windows_view(rows@), name@) is None,
        },
{
    let name_key = String::from_str("name");
    let wid_key = String::from_str("wid");
    let ghost all = windows_view(rows@);
    let mut i: usize = 0;
    assert(all.subrange(0, all.len() as int) =~= all);
    while i < rows.len()
        invariant
            name_key@ == "name"@,
            wid_key@ == "wid"@,
            all == windows_view(rows@),
            i <= rows@.len(),
            handle_in_table(all, name@) == handle_in_table(
                all.subrange(i as int, all.len() as int),
                name@,
            ),
        decreases rows.len() - i,
    {
        let matched = match rows[i].get(&name_key) {
            Some(n) => n == *name,
            None => false,
        };
        assert(all.subrange(i as int, all.len() as int).drop_first() =~= all.subrange(
            i + 1,
            all.len() as int,
        ));
        if matched {
            return rows[i].get(&wid_key);
        }
        i += 1;
    }
    None
}

/// The overlay's own handle, from the reply to `window_table_query`.
/// `None` when the reply is not a window table, or no window in it bears
/// the overlay's name (its window may not exist yet).
pub fn self_handle_from_reply(reply: &[u8]) -> (r: Option<String>)
    ensures
        match table_of_reply(reply@) {
            Some(rows) => match r {
                Some(h) => handle_in_table(rows, PROCESS_NAME@) == Some(h@),
                None => handle_in_table(rows, PROCESS_NAME@) is None,
            },
            None => r is None,
        },
{
    let outer = match parse_json(reply) {
        Some(JsonValue::Array(items)) => items,
        _ => {
            return None;
        },
    };
    if outer.len() != 2 {
        return None;
    }
    match &outer[0] {
        JsonValue::Bool(true) => {},
        _ => {
            return None;
        },
    }
    let text = match &outer[1] {
        JsonValue::Str(s) => s,
        _ => {
            return None;
        },
    };
    let rows = match parse_json(text.as_str().as_bytes()) {
        Some(JsonValue::Array(rows)) => rows,
        _ => {
            return None;
        },
    };
    match windows_from_json(&rows) {
        Some(table) => handle_from_table(&table, &PROCESS_NAME.to_owned()),
        None => None,
    }
}

/// A window table with no window bearing `name` yields no handle.
pub proof fn lemma_absent_name_no_handle(rows: Seq<WindowView>, name: Seq<char>)
    requires
        forall|i: int| 0 <= i < rows.len() ==> attribute(#[trigger] rows[i], "name"@) != Some(name),
    ensures
        handle_in_table(rows, name) is None,
    decreases rows.len(),
{
    if rows.len() > 0 {
        assert(attribute(rows[0], "name"@) != Some(name));
        let rest = rows.drop_first();
        assert forall|i: int| 0 <= i < rest.len() implies attribute(#[trigger] rest[i], "name"@)
            != Some(name) by {
            assert(rest[i] == rows[i + 1]);
        }
        lemma_absent_name_no_handle(rest, name);
    }
}

/// A window table with exactly one window bearing `name` yields that
/// window's handle.
pub proof fn lemma_unique_name_handle(rows: Seq<WindowView>, name: Seq<char>, k: int)
    requires
        0 <= k < rows.len(),
        attribute(rows[k], "name"@) == Some(name),
        forall|i: int|
            0 <= i < rows.len() && i != k ==> attribute(#[trigger] rows[i], "name"@) != Some(name),
    ensures
        handle_in_table(rows, name) == attribute(rows[k], "wid"@),
    decreases rows.len(),
{
    if k > 0 {
        assert(attribute(rows[0], "name"@) != Some(name));
        let rest = rows.drop_first();
        assert forall|i: int| 0 <= i < rest.len() && i != k - 1 implies attribute(
            #[trigger] rest[i],
            "name"@,
        ) != Some(name) by {
            assert(rest[i] == rows[i + 1]);
        }
        lemma_unique_name_handle(rest, name, k - 1);
    }
}

} // verus!
