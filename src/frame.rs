use vstd::prelude::*;

verus! {

/// One WebSocket message as read from the connection.
pub enum Frame {
    /// A text frame with its UTF-8 payload.
    Text(String),
    /// A binary frame.
    Binary(Vec<u8>),
    /// A ping control frame.
    Ping(Vec<u8>),
    /// A pong control frame.
    Pong(Vec<u8>),
    /// A close control frame.
    Close,
    /// A raw frame that carries no decoded message.
    Raw(Vec<u8>),
}

impl Frame {
    /// The payload of a text frame; `None` for every other kind of frame.
    pub open spec fn text_view(&self) -> Option<Seq<char>> {
        match self {
            Frame::Text(s) => Some(s@),
            _ => None,
        }
    }

    /// Whether this is a text frame.
    pub fn is_text(&self) -> (r: bool)
        ensures
            r == self.text_view() is Some,
    {
        match self {
            Frame::Text(_) => true,
            _ => false,
        }
    }
}

} // verus!
