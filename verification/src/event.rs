//! Domain events, and the mapping from dispatch envelopes to them.

use crate::text::str_eq;
use vstd::prelude::*;

verus! {

/// The name of the channel on which the sink receives every event.
pub open spec fn event_channel() -> Seq<char> {
    "discord-gateway"@
}

/// The name of the channel on which the sink receives every event.
pub fn channel_name() -> (name: &'static str)
    ensures
        name@ == event_channel(),
{
    "discord-gateway"
}

/// An event for the presentation layer. Payloads are the compact JSON text of
/// the dispatch body, handed on as it came.
#[derive(Clone, Debug, PartialEq, Eq)]
pub enum GatewayEvent {
    /// A message was created.
    MessageCreate(String),
    /// A message was updated.
    MessageUpdate(String),
    /// A message was deleted.
    MessageDelete(String),
    /// The server confirmed the session.
    Ready(String),
    /// The session ended on a fault; the text says which.
    GatewayError(String),
    /// The handshake is complete.
    Connected,
    /// The session has ended.
    Disconnected,
}

/// What an event holds.
pub enum GatewayEventView {
    MessageCreate(Seq<char>),
    MessageUpdate(Seq<char>),
    MessageDelete(Seq<char>),
    Ready(Seq<char>),
    GatewayError(Seq<char>),
    Connected,
    Disconnected,
}

impl View for GatewayEvent {
    type V = GatewayEventView;

    open spec fn view(&self) -> GatewayEventView {
        match self {
            GatewayEvent::MessageCreate(data) => GatewayEventView::MessageCreate(data@),
            GatewayEvent::MessageUpdate(data) => GatewayEventView::MessageUpdate(data@),
            GatewayEvent::MessageDelete(data) => GatewayEventView::MessageDelete(data@),
            GatewayEvent::Ready(data) => GatewayEventView::Ready(data@),
            GatewayEvent::GatewayError(reason) => GatewayEventView::GatewayError(reason@),
            GatewayEvent::Connected => GatewayEventView::Connected,
            GatewayEvent::Disconnected => GatewayEventView::Disconnected,
        }
    }
}

/// The view of an optional event.
pub open spec fn event_view(event: Option<GatewayEvent>) -> Option<GatewayEventView> {
    match event {
        Some(event) => Some(event@),
        None => None,
    }
}

/// The event that a dispatch with tag `event_type` and body `data` stands
/// for. A tag outside the four known ones stands for none: such a dispatch is
/// passed over and is no error.
pub open spec fn dispatched(event_type: Seq<char>, data: Seq<char>) -> Option<GatewayEventView> {
    if event_type == "READY"@ {
        Some(GatewayEventView::Ready(data))
    } else if event_type == "MESSAGE_CREATE"@ {
        Some(GatewayEventView::MessageCreate(data))
    } else if event_type == "MESSAGE_UPDATE"@ {
        Some(GatewayEventView::MessageUpdate(data))
    } else if event_type == "MESSAGE_DELETE"@ {
        Some(GatewayEventView::MessageDelete(data))
    } else {
        None
    }
}

/// Maps one dispatch to the event to push to the sink, if its tag is
/// one of the known ones.
pub fn handle_dispatch_event(event_type: &str, data: String) -> (event: Option<GatewayEvent>)
    ensures
        event_view(event) == dispatched(event_type@, data@),
{
    if str_eq(event_type, "READY") {
        Some(GatewayEvent::Ready(data))
    } else if str_eq(event_type, "MESSAGE_CREATE") {
        Some(GatewayEvent::MessageCreate(data))
    } else if str_eq(event_type, "MESSAGE_UPDATE") {
        Some(GatewayEvent::MessageUpdate(data))
    } else if str_eq(event_type, "MESSAGE_DELETE") {
        Some(GatewayEvent::MessageDelete(data))
    } else {
        None
    }
}

} // verus!
