use vstd::prelude::*;

use crate::event::{EventView, HostEvent};
use crate::frame::Frame;

verus! {

/// Where the connection task stands.
#[derive(Clone, Copy, Debug, PartialEq, Eq, Structural)]
pub enum Phase {
    /// Waiting for the outcome of the one handshake.
    Connecting,
    /// Connected and reading frames.
    Pumping,
    /// The handshake failed or the read loop ended; nothing happens any more.
    Finished,
}

/// An outcome that the connection task observes on the socket.
pub enum Input {
    /// The handshake with the server succeeded.
    HandshakeSucceeded,
    /// The handshake with the server failed.
    HandshakeFailed,
    /// A frame was read.
    Received(Frame),
    /// Reading the next frame reported an error.
    ReadFailed,
    /// The stream of frames ended.
    StreamEnded,
}

/// The relay's state as a mathematical value.
pub ghost struct RelayView {
    pub phase: Phase,
    /// Whether the connection's writer has been stored for the send command.
    /// Once stored it is never cleared, even after the read loop has ended.
    pub linked: bool,
}

/// The state of the connection task.
pub struct Relay {
    phase: Phase,
    linked: bool,
}

impl View for Relay {
    type V = RelayView;

    closed spec fn view(&self) -> RelayView {
        RelayView { phase: self.phase, linked: self.linked }
    }
}

/// What the connection task does in answer to one input.
pub struct Reaction {
    /// The event to publish to the host interface, if any.
    pub event: Option<HostEvent>,
    /// Whether the writer half of the connection is now to be stored.
    pub store_writer: bool,
    /// Whether to read the next frame.
    pub read_next: bool,
}

/// A [`Reaction`] as a mathematical value.
pub ghost struct ReactionView {
    pub event: Option<EventView>,
    pub store_writer: bool,
    pub read_next: bool,
}

impl View for Reaction {
    type V = ReactionView;

    open spec fn view(&self) -> ReactionView {
        ReactionView {
            event: match self.event {
                Some(e) => Some(e@),
                None => None,
            },
            store_writer: self.store_writer,
            read_next: self.read_next,
        }
    }
}

/// A writer is stored while pumping, and none before the handshake succeeded.
pub open spec fn wf(s: RelayView) -> bool {
    &&& s.phase == Phase::Pumping ==> s.linked
    &&& s.phase == Phase::Connecting ==> !s.linked
}

/// The state at process start: connecting, with no writer stored.
pub open spec fn initial() -> RelayView {
    RelayView { phase: Phase::Connecting, linked: false }
}

/// The state after one input.
pub open spec fn next_state(s: RelayView, i: Input) -> RelayView {
    match s.phase {
        Phase::Connecting => match i {
            Input::HandshakeSucceeded => RelayView { phase: Phase::Pumping, linked: true },
            Input::HandshakeFailed => RelayView { phase: Phase::Finished, linked: false },
            _ => s,
        },
        Phase::Pumping => {
            if i is ReadFailed || i is StreamEnded {
                RelayView { phase: Phase::Finished, linked: s.linked }
            } else {
                s
            }
        },
        Phase::Finished => s,
    }
}

/// The event that one input publishes, if any.
pub open spec fn emitted(s: RelayView, i: Input) -> Option<EventView> {
    match s.phase {
        Phase::Connecting => {
            if i is HandshakeSucceeded {
                Some(EventView::Connected)
            } else {
                None
            }
        },
        Phase::Pumping => match i {
            Input::Received(f) => match f.text_view() {
                Some(text) => Some(EventView::Chat(text)),
                None => None,
            },
            _ => None,
        },
        Phase::Finished => None,
    }
}

/// The whole answer to one input.
pub open spec fn reaction(s: RelayView, i: Input) -> ReactionView {
    ReactionView {
        event: emitted(s, i),
        store_writer: !s.linked && next_state(s, i).linked,
        read_next: next_state(s, i).phase == Phase::Pumping,
    }
}

/// The events published over a sequence of inputs, in order.
pub open spec fn run_events(s: RelayView, inputs: Seq<Input>) -> Seq<EventView>
    decreases inputs.len(),
{
    if inputs.len() == 0 {
        Seq::empty()
    } else {
        let rest = run_events(next_state(s, inputs[0]), inputs.drop_first());
        match emitted(s, inputs[0]) {
            Some(e) => seq![e] + rest,
            None => rest,
        }
    }
}

/// The state after a sequence of inputs.
pub open spec fn run_state(s: RelayView, inputs: Seq<Input>) -> RelayView
    decreases inputs.len(),
{
    if inputs.len() == 0 {
        s
    } else {
        run_state(next_state(s, inputs[0]), inputs.drop_first())
    }
}

impl Relay {
    /// A relay at process start.
    pub fn new() -> (r: Relay)
        ensures
            r@ == initial(),
    {
        Relay { phase: Phase::Connecting, linked: false }
    }

    /// Where the connection task stands.
    pub fn phase(&self) -> (r: Phase)
        ensures
            r == self@.phase,
    {
        self.phase
    }

    /// Whether the writer of the connection has been stored.
    pub fn is_linked(&self) -> (r: bool)
        ensures
            r == self@.linked,
    {
        self.linked
    }

    /// Takes one input and says what to do about it.
    pub fn step(&mut self, input: Input) -> (r: Reaction)
        requires
            wf(old(self)@),
        ensures
            final(self)@ == next_state(old(self)@, input),
            r@ == reaction(old(self)@, input),
            wf(final(self)@),
    {
        let was_linked = self.linked;
        let event = match self.phase {
            Phase::Connecting => match input {
                Input::HandshakeSucceeded => {
                    self.phase = Phase::Pumping;
                    self.linked = true;
                    Some(HostEvent::ConnectionStatus)
                },
                Input::HandshakeFailed => {
                    self.phase = Phase::Finished;
                    None
                },
                _ => None,
            },
            Phase::Pumping => match input {
                Input::Received(Frame::Text(text)) => Some(HostEvent::ChatMessage(text)),
                Input::ReadFailed | Input::StreamEnded => {
                    self.phase = Phase::Finished;
                    None
                },
                _ => None,
            },
            Phase::Finished => None,
        };
        Reaction {
            event,
            store_writer: !was_linked && self.linked,
            read_next: self.phase == Phase::Pumping,
        }
    }
}

/// The inputs that reading the given frames one after another produces.
pub open spec fn received(frames: Seq<Frame>) -> Seq<Input> {
    frames.map_values(|f: Frame| Input::Received(f))
}

/// The chat events for the text frames among `frames`, in order.
pub open spec fn chats_of(frames: Seq<Frame>) -> Seq<EventView>
    decreases frames.len(),
{
    if frames.len() == 0 {
        Seq::empty()
    } else {
        let rest = chats_of(frames.drop_first());
        match frames[0].text_view() {
            Some(text) => seq![EventView::Chat(text)] + rest,
            None => rest,
        }
    }
}

/// The outcome of the first handshake among `inputs`: `Some(true)` for
/// success, `Some(false)` for failure, `None` where there is none.
pub open spec fn handshake_outcome(inputs: Seq<Input>) -> Option<bool>
    decreases inputs.len(),
{
    if inputs.len() == 0 {
        None
    } else if inputs[0] is HandshakeSucceeded {
        Some(true)
    } else if inputs[0] is HandshakeFailed {
        Some(false)
    } else {
        handshake_outcome(inputs.drop_first())
    }
}

/// How many connection-status events `events` holds.
pub open spec fn connected_count(events: Seq<EventView>) -> nat
    decreases events.len(),
{
    if events.len() == 0 {
        0
    } else {
        (if events[0] is Connected { 1nat } else { 0nat }) + connected_count(events.drop_first())
    }
}

proof fn lemma_received_drop_first(frames: Seq<Frame>)
    requires
        frames.len() > 0,
    ensures
        received(frames).len() == frames.len(),
        received(frames)[0] == Input::Received(frames[0]),
        received(frames).drop_first() == received(frames.drop_first()),
{
    assert(received(frames).drop_first() =~= received(frames.drop_first()));
}

proof fn lemma_connected_count_append(a: Seq<EventView>, b: Seq<EventView>)
    ensures
        connected_count(a + b) == connected_count(a) + connected_count(b),
    decreases a.len(),
{
    if a.len() == 0 {
        assert(a + b =~= b);
    } else {
        assert((a + b).drop_first() =~= a.drop_first() + b);
        lemma_connected_count_append(a.drop_first(), b);
    }
}

/// Once finished, the relay publishes nothing more and keeps its state,
/// whatever it is handed.
pub proof fn lemma_finished_is_silent(s: RelayView, inputs: Seq<Input>)
    requires
        s.phase == Phase::Finished,
    ensures
        run_events(s, inputs) == Seq::<EventView>::empty(),
        run_state(s, inputs) == s,
    decreases inputs.len(),
{
    if inputs.len() > 0 {
        lemma_finished_is_silent(s, inputs.drop_first());
    }
}

/// While connected, reading frames publishes one chat event per text frame,
/// carrying its text, in the order the frames arrived; other frames publish
/// nothing, and the relay stays connected.
pub proof fn lemma_pump_relays_text_frames(s: RelayView, frames: Seq<Frame>)
    requires
        s.phase == Phase::Pumping,
    ensures
        run_events(s, received(frames)) == chats_of(frames),
        run_state(s, received(frames)) == s,
    decreases frames.len(),
{
    if frames.len() == 0 {
        assert(received(frames) =~= Seq::<Input>::empty());
    } else {
        lemma_received_drop_first(frames);
        lemma_pump_relays_text_frames(s, frames.drop_first());
    }
}

/// While connected, a sequence of text frames publishes exactly as many chat
/// events, in the same order, each carrying the text of its frame.
pub proof fn lemma_text_frames_relayed_in_order(s: RelayView, frames: Seq<Frame>)
    requires
        s.phase == Phase::Pumping,
        forall|i: int| 0 <= i < frames.len() ==> (#[trigger] frames[i]) is Text,
    ensures
        run_events(s, received(frames)).len() == frames.len(),
        forall|i: int|
            0 <= i < frames.len() ==> run_events(s, received(frames))[i] == EventView::Chat(
                (#[trigger] frames[i])->Text_0@,
            ),
{
    lemma_pump_relays_text_frames(s, frames);
    lemma_text_chats(frames);
}

proof fn lemma_text_chats(frames: Seq<Frame>)
    requires
        forall|i: int| 0 <= i < frames.len() ==> (#[trigger] frames[i]) is Text,
    ensures
        chats_of(frames).len() == frames.len(),
        forall|i: int|
            0 <= i < frames.len() ==> chats_of(frames)[i] == EventView::Chat(
                (#[trigger] frames[i])->Text_0@,
            ),
    decreases frames.len(),
{
    if frames.len() > 0 {
        let rest = frames.drop_first();
        assert forall|i: int| 0 <= i < rest.len() implies (#[trigger] rest[i]) is Text by {
            assert(rest[i] == frames[i + 1]);
        }
        lemma_text_chats(rest);
        assert forall|i: int|
            0 <= i < frames.len() implies chats_of(frames)[i] == EventView::Chat(
                (#[trigger] frames[i])->Text_0@,
            ) by {
            if i > 0 {
                assert(frames[i] == rest[i - 1]);
            }
        }
    }
}

/// While connected, frames that are not text frames publish no event.
pub proof fn lemma_non_text_frames_silent(s: RelayView, frames: Seq<Frame>)
    requires
        s.phase == Phase::Pumping,
        forall|i: int| 0 <= i < frames.len() ==> !((#[trigger] frames[i]) is Text),
    ensures
        run_events(s, received(frames)) == Seq::<EventView>::empty(),
{
    lemma_pump_relays_text_frames(s, frames);
    lemma_no_chats(frames);
}

proof fn lemma_no_chats(frames: Seq<Frame>)
    requires
        forall|i: int| 0 <= i < frames.len() ==> !((#[trigger] frames[i]) is Text),
    ensures
        chats_of(frames) == Seq::<EventView>::empty(),
    decreases frames.len(),
{
    if frames.len() > 0 {
        let rest = frames.drop_first();
        assert forall|i: int| 0 <= i < rest.len() implies !((#[trigger] rest[i]) is Text) by {
            assert(rest[i] == frames[i + 1]);
        }
        lemma_no_chats(rest);
        assert(!(frames[0] is Text));
    }
}

proof fn lemma_connected_only_from_connecting(s: RelayView, inputs: Seq<Input>)
    requires
        wf(s),
    ensures
        wf(run_state(s, inputs)),
        s.phase == Phase::Connecting ==> {
            &&& connected_count(run_events(s, inputs)) == (if handshake_outcome(inputs) == Some(
                true,
            ) {
                1nat
            } else {
                0nat
            })
            &&& run_events(s, inputs).len() > 0 ==> run_events(s, inputs)[0] is Connected
            &&& run_state(s, inputs).linked == (handshake_outcome(inputs) == Some(true))
        },
        s.phase != Phase::Connecting ==> {
            &&& connected_count(run_events(s, inputs)) == 0
            &&& run_state(s, inputs).linked == s.linked
        },
    decreases inputs.len(),
{
    if inputs.len() > 0 {
        let i = inputs[0];
        let t = next_state(s, i);
        let rest = inputs.drop_first();
        lemma_connected_only_from_connecting(t, rest);
        let tail = run_events(t, rest);
        match emitted(s, i) {
            Some(e) => {
                lemma_connected_count_append(seq![e], tail);
                assert(connected_count(seq![e]) == (if e is Connected { 1nat } else { 0nat })) by {
                    assert(seq![e].drop_first() =~= Seq::<EventView>::empty());
                    assert(connected_count(Seq::<EventView>::empty()) == 0);
                }
            },
            None => {},
        }
        if s.phase == Phase::Connecting && i is HandshakeFailed {
            lemma_finished_is_silent(t, rest);
        }
    }
}

/// From process start, whatever the socket reports: the connection-status
/// event is published once if the handshake succeeds and never otherwise, it
/// comes before every other event, and the writer is stored exactly when the
/// handshake succeeded.
pub proof fn lemma_connected_announced_once(inputs: Seq<Input>)
    ensures
        connected_count(run_events(initial(), inputs)) == (if handshake_outcome(inputs) == Some(
            true,
        ) {
            1nat
        } else {
            0nat
        }),
        run_events(initial(), inputs).len() > 0 ==> run_events(initial(), inputs)[0] is Connected,
        run_state(initial(), inputs).linked == (handshake_outcome(inputs) == Some(true)),
        wf(run_state(initial(), inputs)),
{
    lemma_connected_only_from_connecting(initial(), inputs);
}

} // verus!
