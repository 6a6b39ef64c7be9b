//! The events that streaming hands on, and the names under which it does so.
use vstd::prelude::*;

use crate::json::{Json, JsonV};
use crate::models::{ChatMessage, NormalizedNote, NormalizedNotification};

verus! {

/// A note came in.
#[derive(Debug)]
pub struct StreamNoteEvent {
    pub account_id: String,
    pub subscription_id: String,
    pub note: NormalizedNote,
}

/// A notification came in.
#[derive(Debug)]
pub struct StreamNotificationEvent {
    pub account_id: String,
    pub subscription_id: String,
    pub notification: NormalizedNotification,
}

/// A note that mentions the user, or replies to one of the user's, came in.
#[derive(Debug)]
pub struct StreamMentionEvent {
    pub account_id: String,
    pub subscription_id: String,
    pub note: NormalizedNote,
}

/// A chat message came in.
#[derive(Debug)]
pub struct StreamChatMessageEvent {
    pub account_id: String,
    pub subscription_id: String,
    pub message: ChatMessage,
}

/// A chat message was deleted.
#[derive(Debug)]
pub struct StreamChatMessageDeletedEvent {
    pub account_id: String,
    pub subscription_id: String,
    pub message_id: String,
}

/// Something else came in on the main channel.
#[derive(Debug)]
pub struct StreamMainEvent {
    pub account_id: String,
    pub subscription_id: String,
    pub event_type: String,
    pub body: Json,
}

/// A note of a subscribed channel changed.
#[derive(Debug)]
pub struct StreamNoteUpdatedEvent {
    pub account_id: String,
    pub subscription_id: String,
    pub note_id: String,
    pub update_type: String,
    pub body: Json,
}

/// A captured note changed.
#[derive(Debug)]
pub struct StreamNoteCaptureEvent {
    pub account_id: String,
    pub note_id: String,
    pub update_type: String,
    pub body: Json,
}

/// The state of the connection of an account changed.
#[derive(Debug)]
pub struct StreamStatusEvent {
    pub account_id: String,
    pub state: String,
}

/// What an event tells.
#[derive(Debug)]
pub enum Payload {
    Note(StreamNoteEvent),
    Notification(StreamNotificationEvent),
    Mention(StreamMentionEvent),
    Chat(StreamChatMessageEvent),
    ChatDeleted(StreamChatMessageDeletedEvent),
    Main(StreamMainEvent),
    NoteUpdated(StreamNoteUpdatedEvent),
    NoteCapture(StreamNoteCaptureEvent),
    Status(StreamStatusEvent),
}

/// The mathematical value of a [`Payload`].
pub enum PayloadV {
    Note { account_id: Seq<char>, subscription_id: Seq<char>, note: NormalizedNote },
    Notification {
        account_id: Seq<char>,
        subscription_id: Seq<char>,
        notification: NormalizedNotification,
    },
    Mention { account_id: Seq<char>, subscription_id: Seq<char>, note: NormalizedNote },
    Chat { account_id: Seq<char>, subscription_id: Seq<char>, message: ChatMessage },
    ChatDeleted { account_id: Seq<char>, subscription_id: Seq<char>, message_id: Seq<char> },
    Main {
        account_id: Seq<char>,
        subscription_id: Seq<char>,
        event_type: Seq<char>,
        body: JsonV,
    },
    NoteUpdated {
        account_id: Seq<char>,
        subscription_id: Seq<char>,
        note_id: Seq<char>,
        update_type: Seq<char>,
        body: JsonV,
    },
    NoteCapture {
        account_id: Seq<char>,
        note_id: Seq<char>,
        update_type: Seq<char>,
        body: JsonV,
    },
    Status { account_id: Seq<char>, state: Seq<char> },
}

impl Payload {
    pub open spec fn view(&self) -> PayloadV {
        match *self {
            Payload::Note(e) => PayloadV::Note {
                account_id: e.account_id@,
                subscription_id: e.subscription_id@,
                note: e.note,
            },
            Payload::Notification(e) => PayloadV::Notification {
                account_id: e.account_id@,
                subscription_id: e.subscription_id@,
                notification: e.notification,
            },
            Payload::Mention(e) => PayloadV::Mention {
                account_id: e.account_id@,
                subscription_id: e.subscription_id@,
                note: e.note,
            },
            Payload::Chat(e) => PayloadV::Chat {
                account_id: e.account_id@,
                subscription_id: e.subscription_id@,
                message: e.message,
            },
            Payload::ChatDeleted(e) => PayloadV::ChatDeleted {
                account_id: e.account_id@,
                subscription_id: e.subscription_id@,
                message_id: e.message_id@,
            },
            Payload::Main(e) => PayloadV::Main {
                account_id: e.account_id@,
                subscription_id: e.subscription_id@,
                event_type: e.event_type@,
                body: e.body@,
            },
            Payload::NoteUpdated(e) => PayloadV::NoteUpdated {
                account_id: e.account_id@,
                subscription_id: e.subscription_id@,
                note_id: e.note_id@,
                update_type: e.update_type@,
                body: e.body@,
            },
            Payload::NoteCapture(e) => PayloadV::NoteCapture {
                account_id: e.account_id@,
                note_id: e.note_id@,
                update_type: e.update_type@,
                body: e.body@,
            },
            Payload::Status(e) => PayloadV::Status { account_id: e.account_id@, state: e.state@ },
        }
    }
}

/// An event on its way out: under `bus_type` to the event bus, where there is
/// one, and under `event` to the frontend.
#[derive(Debug)]
pub struct Emission {
    pub bus_type: Option<String>,
    pub event: String,
    pub payload: Payload,
}

/// The mathematical value of an [`Emission`].
pub struct EmissionV {
    pub bus_type: Option<Seq<char>>,
    pub event: Seq<char>,
    pub payload: PayloadV,
}

impl Emission {
    pub open spec fn view(&self) -> EmissionV {
        EmissionV {
            bus_type: crate::text::opt_text(self.bus_type),
            event: self.event@,
            payload: self.payload@,
        }
    }
}

/// A list of emissions.
pub open spec fn emissions_view(v: Seq<Emission>) -> Seq<EmissionV> {
    Seq::new(v.len(), |i: int| v[i]@)
}

/// An emission to the bus and to the frontend.
pub open spec fn published(bus_type: Seq<char>, event: Seq<char>, payload: PayloadV) -> EmissionV {
    EmissionV { bus_type: Some(bus_type), event, payload }
}

/// An emission to the frontend alone.
pub open spec fn shown(event: Seq<char>, payload: PayloadV) -> EmissionV {
    EmissionV { bus_type: None, event, payload }
}

/// Sends `payload` to the bus under `bus_type` and to the frontend under
/// `event`.
pub fn publish(bus_type: &str, event: &str, payload: Payload) -> (r: Emission)
    ensures
        r@ == published(bus_type@, event@, payload@),
{
    Emission { bus_type: Some(bus_type.to_owned()), event: event.to_owned(), payload }
}

/// Sends `payload` to the frontend alone, under `event`.
pub fn show(event: &str, payload: Payload) -> (r: Emission)
    ensures
        r@ == shown(event@, payload@),
{
    Emission { bus_type: None, event: event.to_owned(), payload }
}

/// The news that the connection of an account is in some state.
pub open spec fn status_event(account_id: Seq<char>, state: Seq<char>) -> EmissionV {
    shown("stream-status"@, PayloadV::Status { account_id, state })
}

/// Tells the frontend the state of the connection of an account.
pub fn status(account_id: &str, state: &str) -> (r: Emission)
    ensures
        r@ == status_event(account_id@, state@),
{
    show(
        "stream-status",
        Payload::Status(
            StreamStatusEvent { account_id: account_id.to_owned(), state: state.to_owned() },
        ),
    )
}

/// What is published reaches the bus and the frontend, each under its name; what
/// is shown reaches the frontend alone. The state of a connection is shown.
pub proof fn law_events_keep_their_names(
    bus_type: Seq<char>,
    event: Seq<char>,
    payload: PayloadV,
    account_id: Seq<char>,
    state: Seq<char>,
)
    ensures
        published(bus_type, event, payload).bus_type == Some(bus_type),
        published(bus_type, event, payload).event == event,
        published(bus_type, event, payload).payload == payload,
        shown(event, payload).bus_type is None,
        shown(event, payload).event == event,
        shown(event, payload).payload == payload,
        status_event(account_id, state).bus_type is None,
        status_event(account_id, state).event == "stream-status"@,
        status_event(account_id, state).payload == (PayloadV::Status { account_id, state }),
{
}

} // verus!
