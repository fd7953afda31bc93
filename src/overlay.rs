//! The overlay's visibility state machine, fed by the event channel.
use vstd::prelude::*;
use crate::window::{AppEvent, EventView, MessageType, Response, ResponseView, same_windows};

verus! {

/// What the aggregator keeps between events.
pub struct OverlayState {
    /// The last notification, whose windows are on screen.
    pub current: Option<Response>,
    /// The notification that the next cycle list is compared with.
    pub previous: Option<Response>,
    pub visible: bool,
}

/// What the aggregator's state is.
pub struct OverlayView {
    pub current: Option<ResponseView>,
    pub previous: Option<ResponseView>,
    pub visible: bool,
}

pub open spec fn response_option_view(o: Option<Response>) -> Option<ResponseView> {
    match o {
        Some(r) => Some(r@),
        None => None,
    }
}

impl View for OverlayState {
    type V = OverlayView;

    open spec fn view(&self) -> OverlayView {
        OverlayView {
            current: response_option_view(self.current),
            previous: response_option_view(self.previous),
            visible: self.visible,
        }
    }
}

/// The state at start: nothing seen, hidden.
pub open spec fn initial() -> OverlayView {
    OverlayView { current: None, previous: None, visible: false }
}

/// One transition: the next state, and the visibility that the overlay is
/// commanded to take (`None` when no command is issued).
///
/// A focus change hides the overlay. A cycle list shows it, unless its
/// windows equal those of the previous notification. The alt-key release
/// changes nothing here.
pub open spec fn step(s: OverlayView, e: EventView) -> (OverlayView, Option<bool>) {
    match e {
        EventView::AltReleased => (s, None),
        EventView::Message(r) => match r.message_type {
            MessageType::ClientFocus => (
                OverlayView { current: Some(r), previous: Some(r), visible: false },
                Some(false),
            ),
            MessageType::CycleWindows => if s.previous matches Some(p) && p.windows == r.windows {
                (OverlayView { current: Some(r), previous: s.previous, visible: s.visible }, None)
            } else {
                (OverlayView { current: Some(r), previous: Some(r), visible: true }, Some(true))
            },
        },
    }
}

/// The transitions of a drained batch, in arrival order: the final state,
/// and the last visibility command issued, if any.
pub open spec fn run(s: OverlayView, evs: Seq<EventView>) -> (OverlayView, Option<bool>)
    decreases evs.len(),
{
    if evs.len() == 0 {
        (s, None)
    } else {
        let (p, earlier) = run(s, evs.drop_last());
        let (n, cmd) = step(p, evs.last());
        (n, if cmd is Some { cmd } else { earlier })
    }
}

pub open spec fn events_view(evs: Seq<AppEvent>) -> Seq<EventView> {
    evs.map_values(|e: AppEvent| e@)
}

impl OverlayState {
    pub fn new() -> (r: OverlayState)
        ensures
            r@ == initial(),
    {
        OverlayState { current: None, previous: None, visible: false }
    }

    /// Applies one event; returns the visibility commanded, if any.
    pub fn apply(&mut self, event: &AppEvent) -> (cmd: Option<bool>)
        ensures
            (final(self)@, cmd) == step(old(self)@, event@),
    {
        match event {
            AppEvent::AltReleased => None,
            AppEvent::UnixSocketMsg(r) => match r.message_type {
                MessageType::ClientFocus => {
                    self.current = Some(r.copy());
                    self.previous = Some(r.copy());
                    self.visible = false;
                    Some(false)
                },
                MessageType::CycleWindows => {
                    let unchanged = match &self.previous {
                        Some(p) => same_windows(&p.windows, &r.windows),
                        None => false,
                    };
                    self.current = Some(r.copy());
                    if unchanged {
                        None
                    } else {
                        self.previous = Some(r.copy());
                        self.visible = true;
                        Some(true)
                    }
                },
            },
        }
    }

    /// Applies every event of a drained batch in order. Returns the
    /// visibility to act upon once, or `None` when no event commanded one.
    pub fn apply_all(&mut self, events: &Vec<AppEvent>) -> (cmd: Option<bool>)
        ensures
            (final(self)@, cmd) == run(old(self)@, events_view(events@)),
    {
        let mut cmd: Option<bool> = None;
        let mut i: usize = 0;
        while i < events.len()
            invariant
                i <= events@.len(),
                (self@, cmd) == run(old(self)@, events_view(events@).subrange(0, i as int)),
            decreases events.len() - i,
        {
            let c = self.apply(&events[i]);
            if c.is_some() {
                cmd = c;
            }
            proof {
                let evs = events_view(events@);
                assert(evs.subrange(0, i + 1).drop_last() =~= evs.subrange(0, i as int));
            }
            i += 1;
        }
        proof {
            let evs = events_view(events@);
            assert(evs.subrange(0, events@.len() as int) =~= evs);
        }
        cmd
    }
}

/// The overlay's height: the content's height capped at `max`, plus the
/// fixed margins and border around it.
pub fn placement_height(content: u32, max: u32, chrome: u32) -> (r: u64)
    ensures
        r == (if content < max { content } else { max }) + chrome,
{
    let shown = if content < max { content } else { max };
    shown as u64 + chrome as u64
}

/// Receiving the same cycle list twice in a row commands the overlay at
/// most once: the second copy changes nothing and commands nothing.
pub proof fn lemma_repeated_cycle_idempotent(s: OverlayView, r: ResponseView)
    requires
        r.message_type == MessageType::CycleWindows,
    ensures
        step(step(s, EventView::Message(r)).0, EventView::Message(r)) == (
            step(s, EventView::Message(r)).0,
            None::<bool>,
        ),
        run(s, seq![EventView::Message(r), EventView::Message(r)]) == step(s, EventView::Message(r)),
        step(s, EventView::Message(r)).1 == (if s.previous matches Some(p) && p.windows == r.windows {
            None
        } else {
            Some(true)
        }),
{
    let evs = seq![EventView::Message(r), EventView::Message(r)];
    assert(evs.drop_last() =~= seq![EventView::Message(r)]);
    assert(seq![EventView::Message(r)].drop_last() =~= Seq::<EventView>::empty());
    assert(run(s, Seq::<EventView>::empty()) == (s, None::<bool>));
    assert(run(s, seq![EventView::Message(r)]) == step(s, EventView::Message(r)));
}

/// After any non-empty batch of focus notifications the overlay is hidden,
/// whatever state it was in.
pub proof fn lemma_focus_events_hide(s: OverlayView, rs: Seq<ResponseView>)
    requires
        rs.len() > 0,
        forall|i: int| 0 <= i < rs.len() ==> (#[trigger] rs[i]).message_type == MessageType::ClientFocus,
    ensures
        !run(s, rs.map_values(|r: ResponseView| EventView::Message(r))).0.visible,
        run(s, rs.map_values(|r: ResponseView| EventView::Message(r))).1 == Some(false),
{
    let evs = rs.map_values(|r: ResponseView| EventView::Message(r));
    assert(evs.last() == EventView::Message(rs[rs.len() - 1]));
}

} // verus!
