use vstd::prelude::*;

verus! {

/// A notification published to the host interface.
pub enum HostEvent {
    /// The handshake succeeded and the relay is connected.
    ConnectionStatus,
    /// A text frame arrived; the payload is its text.
    ChatMessage(String),
}

/// What a [`HostEvent`] is, as a mathematical value.
pub ghost enum EventView {
    Connected,
    Chat(Seq<char>),
}

impl View for HostEvent {
    type V = EventView;

    open spec fn view(&self) -> EventView {
        match self {
            HostEvent::ConnectionStatus => EventView::Connected,
            HostEvent::ChatMessage(s) => EventView::Chat(s@),
        }
    }
}

/// The channel name under which the host interface receives an event.
pub open spec fn event_name(e: EventView) -> Seq<char> {
    match e {
        EventView::Connected => "connection-status"@,
        EventView::Chat(_) => "chat-message"@,
    }
}

/// The payload that the host interface receives with an event.
pub open spec fn event_payload(e: EventView) -> Seq<char> {
    match e {
        EventView::Connected => "connected"@,
        EventView::Chat(text) => text,
    }
}

impl HostEvent {
    /// The channel name of this event.
    pub fn name(&self) -> (r: String)
        ensures
            r@ == event_name(self@),
    {
        match self {
            HostEvent::ConnectionStatus => "connection-status".to_owned(),
            HostEvent::ChatMessage(_) => "chat-message".to_owned(),
        }
    }

    /// The payload of this event.
    pub fn payload(&self) -> (r: String)
        ensures
            r@ == event_payload(self@),
    {
        match self {
            HostEvent::ConnectionStatus => "connected".to_owned(),
            HostEvent::ChatMessage(text) => text.clone(),
        }
    }
}

} // verus!
