//! The protocol prelude: stream-start, format and segment events that must
//! precede the first item of each session.

use vstd::prelude::*;

use crate::items::{stream_id, stream_id_spec, Event, StartIds};

verus! {

/// What the prelude still has to emit, and the formats it knows.
pub struct AppSrcPadHandlerState {
    pub need_initial_events: bool,
    pub need_segment: bool,
    /// The format announced at the start of a session, if any.
    pub caps: Option<String>,
}

impl Default for AppSrcPadHandlerState {
    fn default() -> (r: Self)
        ensures
            r.need_initial_events,
            r.need_segment,
            r.caps.is_none(),
    {
        AppSrcPadHandlerState { need_initial_events: true, need_segment: true, caps: None }
    }
}

/// The prelude emitter of the source pad.
pub struct AppSrcPadHandler {
    pub state: AppSrcPadHandlerState,
    /// The format last announced downstream in this session.
    pub configured_caps: Option<String>,
}

/// The prelude's state as plain values: what is owed, and the formats as text.
pub struct PreludeView {
    pub need_initial_events: bool,
    pub need_segment: bool,
    pub caps: Option<Seq<char>>,
    pub configured_caps: Option<Seq<char>>,
}

/// The text of an optional format.
pub open spec fn caps_view(c: Option<String>) -> Option<Seq<char>> {
    match c {
        Some(s) => Some(s@),
        None => None,
    }
}

/// Whether `e` is the stream-start event for `ids`.
pub open spec fn is_start_event(e: Event, ids: StartIds) -> bool {
    match e {
        Event::StreamStart { stream_id, group_id } => stream_id@ == stream_id_spec(
            ids.stream_hi,
            ids.stream_lo,
        ) && group_id == ids.group_id,
        _ => false,
    }
}

/// Whether `e` announces the format `c`.
pub open spec fn is_caps_event(e: Event, c: Seq<char>) -> bool {
    match e {
        Event::Caps { caps } => caps@ == c,
        _ => false,
    }
}

/// How many events the prelude emits from state `h`.
pub open spec fn prelude_len(h: PreludeView) -> nat {
    (if h.need_initial_events {
        1nat + if h.caps.is_some() { 1nat } else { 0nat }
    } else {
        0nat
    }) + if h.need_segment { 1nat } else { 0nat }
}

/// Whether `es` is what the prelude emits from state `h` with identifiers `ids`:
/// a stream-start event and the format, if one is set, while the initial events
/// are owed; then a segment event while a segment is owed.
pub open spec fn is_prelude(es: Seq<Event>, h: PreludeView, ids: StartIds) -> bool {
    let n_init: int = if h.need_initial_events {
        1 + if h.caps.is_some() { 1int } else { 0int }
    } else {
        0
    };
    &&& es.len() == prelude_len(h)
    &&& h.need_initial_events ==> is_start_event(es[0], ids)
    &&& h.need_initial_events && h.caps.is_some() ==> is_caps_event(es[1], h.caps.unwrap())
    &&& h.need_segment ==> es[n_init] == Event::Segment
}

/// The prelude state once the prelude has run: nothing more is owed, and the
/// announced format is recorded.
pub open spec fn after_prelude(h: PreludeView) -> PreludeView {
    PreludeView {
        need_initial_events: false,
        need_segment: false,
        caps: h.caps,
        configured_caps: if h.need_initial_events && h.caps.is_some() {
            h.caps
        } else {
            h.configured_caps
        },
    }
}

/// A prelude that owes everything and knows no format.
pub open spec fn fresh_prelude() -> PreludeView {
    PreludeView { need_initial_events: true, need_segment: true, caps: None, configured_caps: None }
}

pub(crate) fn clone_caps(c: &Option<String>) -> (r: Option<String>)
    ensures
        caps_view(r) == caps_view(*c),
{
    match c {
        Some(s) => Some(s.clone()),
        None => None,
    }
}

impl View for AppSrcPadHandler {
    type V = PreludeView;

    open spec fn view(&self) -> PreludeView {
        PreludeView {
            need_initial_events: self.state.need_initial_events,
            need_segment: self.state.need_segment,
            caps: caps_view(self.state.caps),
            configured_caps: caps_view(self.configured_caps),
        }
    }
}

impl AppSrcPadHandler {
    /// A handler that owes the whole prelude and knows no format.
    pub fn new() -> (r: Self)
        ensures
            r@ == fresh_prelude(),
    {
        AppSrcPadHandler { state: AppSrcPadHandlerState::default(), configured_caps: None }
    }

    /// Stores the format to announce; emits nothing.
    pub fn prepare(&mut self, caps: Option<String>)
        ensures
            final(self)@ == (PreludeView { caps: caps_view(caps), ..old(self)@ }),
    {
        self.state.caps = caps;
    }

    /// Owes the whole prelude again and forgets the formats.
    pub fn reset(&mut self)
        ensures
            final(self)@ == fresh_prelude(),
    {
        self.state = AppSrcPadHandlerState::default();
        self.configured_caps = None;
    }

    /// Owes a fresh segment event before the next item.
    pub fn set_need_segment(&mut self)
        ensures
            final(self)@ == (PreludeView { need_segment: true, ..old(self)@ }),
    {
        self.state.need_segment = true;
    }

    /// The events still owed before the next item, in order; afterwards none are owed.
    pub fn push_prelude(&mut self, ids: StartIds) -> (r: Vec<Event>)
        ensures
            is_prelude(r@, old(self)@, ids),
            final(self)@ == after_prelude(old(self)@),
    {
        let mut events: Vec<Event> = Vec::new();
        if self.state.need_initial_events {
            let id = stream_id(ids.stream_hi, ids.stream_lo);
            events.push(Event::StreamStart { stream_id: id, group_id: ids.group_id });
            if let Some(caps) = &self.state.caps {
                events.push(Event::Caps { caps: caps.clone() });
                self.configured_caps = clone_caps(&self.state.caps);
            }
            self.state.need_initial_events = false;
        }
        if self.state.need_segment {
            events.push(Event::Segment);
            self.state.need_segment = false;
        }
        events
    }

    /// The format announced downstream in this session, if any.
    pub fn negotiated_caps(&self) -> (r: Option<String>)
        ensures
            caps_view(r) == self@.configured_caps,
    {
        clone_caps(&self.configured_caps)
    }
}

} // verus!
