//! Decoding of window-manager notifications received by the listener.
use vstd::prelude::*;
use vstd::string::*;
use crate::json::{JsonValue, json_parse, parse_json, member, get_member};
use crate::window::{
    WindowDescriptor, WindowView, MessageType, Response, ResponseView, AppEvent, EventView,
};

verus! {

/// How many bytes of one message the listener reads; the rest is cut off.
pub const READ_LIMIT: usize = 4096;

/// A required key of a notification.
#[derive(Clone, Copy, Debug, PartialEq, Eq, Structural)]
pub enum Field {
    MessageType,
    Windows,
}

/// Why a notification was rejected.
#[derive(Debug, PartialEq, Eq)]
pub enum NotificationError {
    /// The bytes are not JSON.
    Malformed,
    /// The document is not a JSON object.
    NotAnObject,
    MissingField(Field),
    /// The key is there with a value of the wrong JSON type.
    WrongType(Field),
    UnknownMessageType(String),
    /// A window entry is not an object of string values.
    BadWindowEntry,
}

/// What a rejection is.
pub enum DecodeError {
    Malformed,
    NotAnObject,
    MissingField(Field),
    WrongType(Field),
    UnknownMessageType(Seq<char>),
    BadWindowEntry,
}

impl View for NotificationError {
    type V = DecodeError;

    open spec fn view(&self) -> DecodeError {
        match self {
            NotificationError::Malformed => DecodeError::Malformed,
            NotificationError::NotAnObject => DecodeError::NotAnObject,
            NotificationError::MissingField(f) => DecodeError::MissingField(*f),
            NotificationError::WrongType(f) => DecodeError::WrongType(*f),
            NotificationError::UnknownMessageType(s) => DecodeError::UnknownMessageType(s@),
            NotificationError::BadWindowEntry => DecodeError::BadWindowEntry,
        }
    }
}

/// Whether every member of an object holds a string.
pub open spec fn is_flat(members: Seq<(String, JsonValue)>) -> bool {
    forall|i: int| 0 <= i < members.len() ==> #[trigger] members[i].1 is Str
}

/// The descriptor that a JSON value stands for, if it is an object of strings.
pub open spec fn window_of(j: JsonValue) -> Option<WindowView> {
    match j {
        JsonValue::Object(m) => if is_flat(m@) {
            Some(m@.map_values(|p: (String, JsonValue)| (p.0@, p.1->Str_0@)))
        } else {
            None
        },
        _ => None,
    }
}

/// The descriptors that a JSON array stands for, if each entry is one.
pub open spec fn windows_of(items: Seq<JsonValue>) -> Option<Seq<WindowView>> {
    if forall|i: int| 0 <= i < items.len() ==> #[trigger] window_of(items[i]) is Some {
        Some(items.map_values(|j: JsonValue| window_of(j)->Some_0))
    } else {
        None
    }
}

/// The message kind that a `message_type` string names.
pub open spec fn kind_of(s: Seq<char>) -> Option<MessageType> {
    if s == "client_focus"@ {
        Some(MessageType::ClientFocus)
    } else if s == "cycle_windows"@ {
        Some(MessageType::CycleWindows)
    } else {
        None
    }
}

/// The notification that a JSON document stands for, or why it is rejected.
pub open spec fn decode(j: JsonValue) -> Result<ResponseView, DecodeError> {
    match j {
        JsonValue::Object(m) => match member(m@, "message_type"@) {
            None => Err(DecodeError::MissingField(Field::MessageType)),
            Some(JsonValue::Str(s)) => match kind_of(s@) {
                None => Err(DecodeError::UnknownMessageType(s@)),
                Some(k) => match member(m@, "windows"@) {
                    None => Err(DecodeError::MissingField(Field::Windows)),
                    Some(JsonValue::Array(items)) => match windows_of(items@) {
                        None => Err(DecodeError::BadWindowEntry),
                        Some(ws) => Ok(ResponseView { message_type: k, windows: ws }),
                    },
                    Some(_) => Err(DecodeError::WrongType(Field::Windows)),
                },
            },
            Some(_) => Err(DecodeError::WrongType(Field::MessageType)),
        },
        _ => Err(DecodeError::NotAnObject),
    }
}

/// The notification that a byte string stands for, or why it is rejected.
pub open spec fn decode_bytes(b: Seq<u8>) -> Result<ResponseView, DecodeError> {
    match json_parse(b) {
        None => Err(DecodeError::Malformed),
        Some(j) => decode(j),
    }
}

/// What a decoding result is.
pub open spec fn outcome_view(r: Result<Response, NotificationError>) -> Result<ResponseView, DecodeError> {
    match r {
        Ok(x) => Ok(x@),
        Err(e) => Err(e@),
    }
}

/// The reply written back on every connection.
pub open spec fn acknowledgement() -> Seq<char> {
    "{\"message\":\"success\"}"@
}

/// Reads a JSON object of strings as a window descriptor.
pub fn window_from_json(j: &JsonValue) -> (r: Option<WindowDescriptor>)
    ensures
        match r {
            Some(w) => window_of(*j) == Some(w@),
            None => window_of(*j) is None,
        },
{
    match j {
        JsonValue::Object(m) => {
            let mut entries: Vec<(String, String)> = Vec::new();
            let mut i: usize = 0;
            while i < m.len()
                invariant
                    *j == JsonValue::Object(*m),
                    i <= m@.len(),
                    entries@.len() == i,
                    forall|k: int| 0 <= k < i ==> #[trigger] m@[k].1 is Str,
                    forall|k: int| 0 <= k < i ==> (#[trigger] entries@[k]).0@ == m@[k].0@,
                    forall|k: int| 0 <= k < i ==> (#[trigger] entries@[k]).1@ == m@[k].1->Str_0@,
                decreases m.len() - i,
            {
                match &m[i].1 {
                    JsonValue::Str(s) => {
                        let key = m[i].0.clone();
                        let value = s.clone();
                        entries.push((key, value));
                        assert(entries@[i as int].0@ == m@[i as int].0@);
                        assert(entries@[i as int].1@ == m@[i as int].1->Str_0@);
                    },
                    _ => {
                        assert(!(m@[i as int].1 is Str));
                        return None;
                    },
                }
                i += 1;
            }
            let w = WindowDescriptor { entries };
            assert(w@ =~= m@.map_values(|p: (String, JsonValue)| (p.0@, p.1->Str_0@)));
            Some(w)
        },
        _ => None,
    }
}

/// Reads a JSON array of window objects, rejecting the whole list at the first bad entry.
pub fn windows_from_json(items: &Vec<JsonValue>) -> (r: Option<Vec<WindowDescriptor>>)
    ensures
        match r {
            Some(ws) => windows_of(items@) == Some(crate::window::windows_view(ws@)),
            None => windows_of(items@) is None,
        },
{
    let mut ws: Vec<WindowDescriptor> = Vec::new();
    let mut i: usize = 0;
    while i < items.len()
        invariant
            i <= items@.len(),
            ws@.len() == i,
            forall|k: int| 0 <= k < i ==> #[trigger] window_of(items@[k]) == Some(ws@[k]@),
        decreases items.len() - i,
    {
        match window_from_json(&items[i]) {
            Some(w) => ws.push(w),
            None => {
                return None;
            },
        }
        i += 1;
    }
    assert(items@.map_values(|j: JsonValue| window_of(j)->Some_0) =~= crate::window::windows_view(
        ws@,
    ));
    Some(ws)
}

/// Decodes a parsed notification.
pub fn message_from_json(j: &JsonValue) -> (r: Result<Response, NotificationError>)
    ensures
        outcome_view(r) == decode(*j),
{
    match j {
        JsonValue::Object(m) => {
            let type_key = String::from_str("message_type");
            let kind = match get_member(m, &type_key) {
                None => {
                    return Err(NotificationError::MissingField(Field::MessageType));
                },
                Some(JsonValue::Str(s)) => {
                    if *s == String::from_str("client_focus") {
                        MessageType::ClientFocus
                    } else if *s == String::from_str("cycle_windows") {
                        MessageType::CycleWindows
                    } else {
                        return Err(NotificationError::UnknownMessageType(s.clone()));
                    }
                },
                Some(_) => {
                    return Err(NotificationError::WrongType(Field::MessageType));
                },
            };
            let windows_key = String::from_str("windows");
            match get_member(m, &windows_key) {
                None => Err(NotificationError::MissingField(Field::Windows)),
                Some(JsonValue::Array(items)) => match windows_from_json(items) {
                    None => Err(NotificationError::BadWindowEntry),
                    Some(windows) => Ok(Response { message_type: kind, windows }),
                },
                Some(_) => Err(NotificationError::WrongType(Field::Windows)),
            }
        },
        _ => Err(NotificationError::NotAnObject),
    }
}

/// Decodes the bytes of one notification.
pub fn decode_notification(bytes: &[u8]) -> (r: Result<Response, NotificationError>)
    ensures
        outcome_view(r) == decode_bytes(bytes@),
{
    match parse_json(bytes) {
        None => Err(NotificationError::Malformed),
        Some(j) => message_from_json(&j),
    }
}

/// What one connection produces: the reply to write back, then either the
/// event to forward or the reason the message was dropped.
pub struct Exchange {
    pub reply: String,
    pub event: Option<AppEvent>,
    pub error: Option<NotificationError>,
}

/// Handles the bytes read from one connection. The acknowledgement is owed
/// whatever the bytes hold; an event comes only from a valid notification.
pub fn serve_message(bytes: &[u8]) -> (r: Exchange)
    ensures
        r.reply@ == acknowledgement(),
        match decode_bytes(bytes@) {
            Ok(rv) => r.error is None && (r.event matches Some(e) && e@ == EventView::Message(rv)),
            Err(d) => r.event is None && (r.error matches Some(e) && e@ == d),
        },
{
    let reply = String::from_str("{\"message\":\"success\"}");
    match decode_notification(bytes) {
        Ok(response) => Exchange { reply, event: Some(AppEvent::UnixSocketMsg(response)), error: None },
        Err(e) => Exchange { reply, event: None, error: Some(e) },
    }
}

/// A notification whose `message_type` is known and whose `windows` is an
/// array of objects of strings decodes to exactly one message of that kind,
/// listing those windows in the order they were sent.
pub proof fn lemma_well_formed_notification(j: JsonValue)
    requires
        j is Object,
        member(j->Object_0@, "message_type"@) matches Some(JsonValue::Str(s)) && kind_of(s@) is Some,
        member(j->Object_0@, "windows"@) matches Some(JsonValue::Array(items)) && forall|i: int|
            0 <= i < items@.len() ==> #[trigger] window_of(items@[i]) is Some,
    ensures
        decode(j) matches Ok(rv) && {
            &&& Some(rv.message_type) == kind_of(member(j->Object_0@, "message_type"@)->Some_0->Str_0@)
            &&& rv.windows.len() == member(j->Object_0@, "windows"@)->Some_0->Array_0@.len()
            &&& forall|i: int| 0 <= i < rv.windows.len() ==> Some(#[trigger] rv.windows[i])
                == window_of(member(j->Object_0@, "windows"@)->Some_0->Array_0@[i])
        },
{
}

/// A notification with a window entry that is not an object of strings
/// produces no event, and the acknowledgement is still written.
pub proof fn lemma_bad_window_entry_rejected(j: JsonValue, i: int)
    requires
        j is Object,
        member(j->Object_0@, "message_type"@) matches Some(JsonValue::Str(s)) && kind_of(s@) is Some,
        member(j->Object_0@, "windows"@) matches Some(JsonValue::Array(items)) && 0 <= i
            < items@.len() && window_of(items@[i]) is None,
    ensures
        decode(j) == Err::<ResponseView, DecodeError>(DecodeError::BadWindowEntry),
{
}

} // verus!
