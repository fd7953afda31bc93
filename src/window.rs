//! Window descriptors and the messages that carry them.
use vstd::prelude::*;
use vstd::string::*;

verus! {

/// What a window descriptor is: attribute names and values, in order.
pub type WindowView = Seq<(Seq<char>, Seq<char>)>;

/// A flat record describing one managed window (`id`, `class`, `name`,
/// `group_name`, `group_label`, ...), as an ordered list of attributes.
#[derive(Debug, PartialEq, Eq)]
pub struct WindowDescriptor {
    pub entries: Vec<(String, String)>,
}

impl View for WindowDescriptor {
    type V = WindowView;

    open spec fn view(&self) -> WindowView {
        self.entries@.map_values(|p: (String, String)| (p.0@, p.1@))
    }
}

/// The value of the first attribute named `key`.
pub open spec fn attribute(w: WindowView, key: Seq<char>) -> Option<Seq<char>>
    decreases w.len(),
{
    if w.len() == 0 {
        None
    } else if w[0].0 == key {
        Some(w[0].1)
    } else {
        attribute(w.drop_first(), key)
    }
}

proof fn lemma_attribute_step(w: WindowView, key: Seq<char>, i: int)
    requires
        0 <= i < w.len(),
        w[i].0 != key,
    ensures
        attribute(w.subrange(i, w.len() as int), key) == attribute(
            w.subrange(i + 1, w.len() as int),
            key,
        ),
{
    assert(w.subrange(i, w.len() as int).drop_first() =~= w.subrange(i + 1, w.len() as int));
}

/// The views of a list of descriptors.
pub open spec fn windows_view(ws: Seq<WindowDescriptor>) -> Seq<WindowView> {
    ws.map_values(|w: WindowDescriptor| w@)
}

impl WindowDescriptor {
    /// The value of the first attribute named `key`, if any.
    pub fn get(&self, key: &String) -> (r: Option<String>)
        ensures
            match r {
                Some(v) => attribute(self@, key@) == Some(v@),
                None => attribute(self@, key@) is None,
            },
    {
        let mut i: usize = 0;
        assert(self@.subrange(0, self@.len() as int) =~= self@);
        while i < self.entries.len()
            invariant
                i <= self@.len(),
                self@.len() == self.entries@.len(),
                attribute(self@, key@) == attribute(self@.subrange(i as int, self@.len() as int), key@),
            decreases self.entries.len() - i,
        {
            if self.entries[i].0 == *key {
                return Some(self.entries[i].1.clone());
            }
            proof {
                lemma_attribute_step(self@, key@, i as int);
            }
            i += 1;
        }
        None
    }

    /// A copy with the same attributes.
    pub fn copy(&self) -> (r: WindowDescriptor)
        ensures
            r@ == self@,
    {
        let mut entries: Vec<(String, String)> = Vec::new();
        let mut i: usize = 0;
        while i < self.entries.len()
            invariant
                i <= self.entries@.len(),
                entries@.len() == i,
                forall|j: int|
                    0 <= j < i ==> #[trigger] entries@[j].0@ == self.entries@[j].0@
                        && entries@[j].1@ == self.entries@[j].1@,
            decreases self.entries.len() - i,
        {
            let k = self.entries[i].0.clone();
            let v = self.entries[i].1.clone();
            entries.push((k, v));
            i += 1;
        }
        let r = WindowDescriptor { entries };
        assert(r@ =~= self@);
        r
    }

    /// Whether two descriptors hold the same attributes in the same order.
    pub fn same_as(&self, other: &WindowDescriptor) -> (r: bool)
        ensures
            r == (self@ == other@),
    {
        if self.entries.len() != other.entries.len() {
            proof {
                assert(self@.len() != other@.len());
            }
            return false;
        }
        let mut i: usize = 0;
        while i < self.entries.len()
            invariant
                i <= self.entries@.len(),
                self.entries@.len() == other.entries@.len(),
                forall|j: int| 0 <= j < i ==> #[trigger] self@[j] == other@[j],
            decreases self.entries.len() - i,
        {
            if self.entries[i].0 != other.entries[i].0 || self.entries[i].1 != other.entries[i].1 {
                proof {
                    assert(self@[i as int] != other@[i as int]);
                }
                return false;
            }
            i += 1;
        }
        assert(self@ =~= other@);
        true
    }
}

/// Copies a list of descriptors.
pub fn copy_windows(ws: &Vec<WindowDescriptor>) -> (r: Vec<WindowDescriptor>)
    ensures
        windows_view(r@) == windows_view(ws@),
{
    let mut out: Vec<WindowDescriptor> = Vec::new();
    let mut i: usize = 0;
    while i < ws.len()
        invariant
            i <= ws@.len(),
            out@.len() == i,
            forall|j: int| 0 <= j < i ==> #[trigger] out@[j]@ == ws@[j]@,
        decreases ws.len() - i,
    {
        out.push(ws[i].copy());
        i += 1;
    }
    assert(windows_view(out@) =~= windows_view(ws@));
    out
}

/// Whether two lists of descriptors are equal, entry by entry.
pub fn same_windows(a: &Vec<WindowDescriptor>, b: &Vec<WindowDescriptor>) -> (r: bool)
    ensures
        r == (windows_view(a@) == windows_view(b@)),
{
    if a.len() != b.len() {
        proof {
            assert(windows_view(a@).len() != windows_view(b@).len());
        }
        return false;
    }
    let mut i: usize = 0;
    while i < a.len()
        invariant
            i <= a@.len(),
            a@.len() == b@.len(),
            forall|j: int| 0 <= j < i ==> #[trigger] a@[j]@ == b@[j]@,
        decreases a.len() - i,
    {
        if !a[i].same_as(&b[i]) {
            proof {
                assert(windows_view(a@)[i as int] != windows_view(b@)[i as int]);
            }
            return false;
        }
        i += 1;
    }
    assert(windows_view(a@) =~= windows_view(b@));
    true
}

/// The kind of a window-manager notification.
#[derive(Clone, Copy, Debug, PartialEq, Eq, Structural)]
pub enum MessageType {
    ClientFocus,
    CycleWindows,
}

/// A notification: its kind and the windows it lists, in order.
#[derive(Debug, PartialEq, Eq)]
pub struct Response {
    pub message_type: MessageType,
    pub windows: Vec<WindowDescriptor>,
}

/// What a notification is: its kind and the views of its windows.
pub struct ResponseView {
    pub message_type: MessageType,
    pub windows: Seq<WindowView>,
}

impl View for Response {
    type V = ResponseView;

    open spec fn view(&self) -> ResponseView {
        ResponseView { message_type: self.message_type, windows: windows_view(self.windows@) }
    }
}

impl Response {
    /// A copy with the same kind and windows.
    pub fn copy(&self) -> (r: Response)
        ensures
            r@ == self@,
    {
        Response { message_type: self.message_type, windows: copy_windows(&self.windows) }
    }
}

/// An event on the channel that feeds the overlay.
#[derive(Debug, PartialEq, Eq)]
pub enum AppEvent {
    /// A notification from the window manager.
    UnixSocketMsg(Response),
    /// The alt key was released.
    AltReleased,
}

/// What an event is.
pub enum EventView {
    Message(ResponseView),
    AltReleased,
}

impl View for AppEvent {
    type V = EventView;

    open spec fn view(&self) -> EventView {
        match self {
            AppEvent::UnixSocketMsg(r) => EventView::Message(r@),
            AppEvent::AltReleased => EventView::AltReleased,
        }
    }
}

/// Longer names than this many bytes are shortened for display.
pub const NAME_BYTES_MAX: usize = 31;

/// How many characters a shortened name keeps.
pub const NAME_CHARS_KEPT: usize = 30;

/// A window name as shown: one longer than `NAME_BYTES_MAX` bytes keeps its
/// first `NAME_CHARS_KEPT` characters, if it has more than that.
pub fn shortened_name(name: &str) -> (r: String)
    ensures
        r@ == (if name.len() > NAME_BYTES_MAX && name@.len() > NAME_CHARS_KEPT {
            name@.subrange(0, NAME_CHARS_KEPT as int)
        } else {
            name@
        }),
{
    if name.len() > NAME_BYTES_MAX && name.unicode_len() > NAME_CHARS_KEPT {
        name.substring_char(0, NAME_CHARS_KEPT).to_owned()
    } else {
        name.to_owned()
    }
}

} // verus!
