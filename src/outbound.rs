use vstd::prelude::*;

use crate::pump::{handshake_outcome, initial, lemma_connected_announced_once, run_state, Input};

verus! {

/// Why the send command failed.
pub enum SendError {
    /// No writer has been stored: the handshake has not succeeded.
    NotConnected,
    /// Writing the frame failed; the transport's diagnostic text.
    Transport(String),
}

/// A [`SendError`] as a mathematical value.
pub ghost enum SendErrorView {
    NotConnected,
    Transport(Seq<char>),
}

impl View for SendError {
    type V = SendErrorView;

    open spec fn view(&self) -> SendErrorView {
        match self {
            SendError::NotConnected => SendErrorView::NotConnected,
            SendError::Transport(d) => SendErrorView::Transport(d@),
        }
    }
}

/// The text that the host interface receives for an error.
pub open spec fn error_message(e: SendErrorView) -> Seq<char> {
    match e {
        SendErrorView::NotConnected => "No hay conexión con el servidor"@,
        SendErrorView::Transport(diagnostic) => diagnostic,
    }
}

impl SendError {
    /// The text that the host interface receives for this error.
    pub fn message(&self) -> (r: String)
        ensures
            r@ == error_message(self@),
    {
        match self {
            SendError::NotConnected => "No hay conexión con el servidor".to_owned(),
            SendError::Transport(diagnostic) => diagnostic.clone(),
        }
    }
}

/// What the send command does with a message.
pub enum SendPlan {
    /// Write the text as one text frame.
    Write(String),
    /// Fail at once, writing nothing.
    Refuse(SendError),
}

/// A [`SendPlan`] as a mathematical value.
pub ghost enum SendPlanView {
    Write(Seq<char>),
    Refuse(SendErrorView),
}

impl View for SendPlan {
    type V = SendPlanView;

    open spec fn view(&self) -> SendPlanView {
        match self {
            SendPlan::Write(text) => SendPlanView::Write(text@),
            SendPlan::Refuse(e) => SendPlanView::Refuse(e@),
        }
    }
}

/// With a writer stored, the message is written as it is, in one frame;
/// without one, the command fails as not connected.
pub open spec fn send_plan(writer_present: bool, msg: Seq<char>) -> SendPlanView {
    if writer_present {
        SendPlanView::Write(msg)
    } else {
        SendPlanView::Refuse(SendErrorView::NotConnected)
    }
}

/// What the command reports once the frame was handed to the transport.
pub open spec fn send_reply(written: Result<(), Seq<char>>) -> Result<(), SendErrorView> {
    match written {
        Ok(()) => Ok(()),
        Err(diagnostic) => Err(SendErrorView::Transport(diagnostic)),
    }
}

/// What the transport reported, as a mathematical value.
pub open spec fn written_view(written: Result<(), String>) -> Result<(), Seq<char>> {
    match written {
        Ok(()) => Ok(()),
        Err(diagnostic) => Err(diagnostic@),
    }
}

/// The command's result, as a mathematical value.
pub open spec fn reply_view(r: Result<(), SendError>) -> Result<(), SendErrorView> {
    match r {
        Ok(()) => Ok(()),
        Err(e) => Err(e@),
    }
}

/// Decides what the send command does with `msg`, given whether a writer has
/// been stored.
pub fn plan_send(writer_present: bool, msg: String) -> (r: SendPlan)
    ensures
        r@ == send_plan(writer_present, msg@),
{
    if writer_present {
        SendPlan::Write(msg)
    } else {
        SendPlan::Refuse(SendError::NotConnected)
    }
}

/// Turns what the transport reported for the written frame into the command's
/// result: success, or the transport's diagnostic.
pub fn finish_send(written: Result<(), String>) -> (r: Result<(), SendError>)
    ensures
        reply_view(r) == send_reply(written_view(written)),
{
    match written {
        Ok(()) => Ok(()),
        Err(diagnostic) => Err(SendError::Transport(diagnostic)),
    }
}

/// While a writer is stored, any message is written exactly as given, as a
/// single frame, and the command succeeds when the transport accepts it.
pub proof fn lemma_connected_send_writes_message(msg: Seq<char>)
    ensures
        send_plan(true, msg) == SendPlanView::Write(msg),
        send_reply(Ok(())) == Ok::<(), SendErrorView>(()),
{
}

/// Before a successful handshake no writer is stored, so the send command
/// fails as not connected and writes nothing, whatever the socket reported.
pub proof fn lemma_send_before_handshake_refused(inputs: Seq<Input>, msg: Seq<char>)
    requires
        handshake_outcome(inputs) != Some(true),
    ensures
        !run_state(initial(), inputs).linked,
        send_plan(run_state(initial(), inputs).linked, msg) == SendPlanView::Refuse(
            SendErrorView::NotConnected,
        ),
{
    lemma_connected_announced_once(inputs);
}

} // verus!
