//! Where events go: to the event bus and to a frontend.
use vstd::prelude::*;

use crate::json;
use crate::json::{Json, JsonV};
use crate::streaming::events::{Emission, Payload, PayloadV};

verus! {

/// An event on the bus.
#[derive(Debug)]
pub struct SseEvent {
    pub event_type: String,
    pub data: Json,
}

/// The events that wait to be delivered to the listeners of the bus, in the
/// order in which they were sent.
#[derive(Debug)]
pub struct EventBus {
    pub pending: Vec<SseEvent>,
}

impl EventBus {
    /// The events that wait: their types and their data.
    pub open spec fn view(&self) -> Seq<(Seq<char>, JsonV)> {
        Seq::new(
            self.pending@.len(),
            |i: int| (self.pending@[i].event_type@, self.pending@[i].data@),
        )
    }

    /// A bus on which nothing waits.
    pub fn new() -> (r: Self)
        ensures
            r@ == Seq::<(Seq<char>, JsonV)>::empty(),
    {
        let r = EventBus { pending: Vec::new() };
        proof {
            assert(r@ =~= Seq::empty());
        }
        r
    }

    /// Sends an event.
    pub fn send(&mut self, event: SseEvent)
        ensures
            final(self)@ == old(self)@.push((event.event_type@, event.data@)),
    {
        self.pending.push(event);
        proof {
            assert(self@ =~= old(self)@.push((event.event_type@, event.data@)));
        }
    }
}

/// What hands events to a frontend.
pub trait FrontendEmitter: Sized {
    /// What it means to an emitter that an event was handed to it.
    spec fn emitted(before: Self, after: Self, event: Seq<char>, payload: JsonV) -> bool;

    /// Hands an event to the frontend.
    fn emit(&mut self, event: &str, payload: Json)
        ensures
            Self::emitted(*old(self), *final(self), event@, payload@),
    ;
}

/// The emitter of a program without a frontend: it drops every event.
#[derive(Debug)]
pub struct NoopEmitter;

impl FrontendEmitter for NoopEmitter {
    open spec fn emitted(before: Self, after: Self, event: Seq<char>, payload: JsonV) -> bool {
        after == before
    }

    fn emit(&mut self, event: &str, payload: Json) {
    }
}

/// An emitter that sends every event to a bus.
#[derive(Debug)]
pub struct EventBusEmitter {
    pub event_bus: EventBus,
}

impl EventBusEmitter {
    /// An emitter for a bus.
    pub fn new(event_bus: EventBus) -> (r: Self)
        ensures
            r.event_bus == event_bus,
    {
        EventBusEmitter { event_bus }
    }
}

impl FrontendEmitter for EventBusEmitter {
    open spec fn emitted(before: Self, after: Self, event: Seq<char>, payload: JsonV) -> bool {
        after.event_bus@ == before.event_bus@.push((event, payload))
    }

    fn emit(&mut self, event: &str, payload: Json) {
        self.event_bus.send(SseEvent { event_type: event.to_owned(), data: payload });
    }
}

/// What waits on the bus once an event has been delivered: one more event, where
/// it is meant for the bus.
pub open spec fn after_delivery(
    waiting: Seq<(Seq<char>, JsonV)>,
    bus_type: Option<Seq<char>>,
    data: JsonV,
) -> Seq<(Seq<char>, JsonV)> {
    match bus_type {
        Some(t) => waiting.push((t, data)),
        None => waiting,
    }
}

/// Delivers an event with its data: to the bus, where it is meant for the bus,
/// and in any case to the frontend.
pub fn deliver<E: FrontendEmitter>(
    emitter: &mut E,
    event_bus: &mut EventBus,
    emission: &Emission,
    data: Json,
)
    ensures
        final(event_bus)@ == after_delivery(old(event_bus)@, emission@.bus_type, data@),
        E::emitted(*old(emitter), *final(emitter), emission@.event, data@),
{
    match &emission.bus_type {
        Some(t) => {
            event_bus.send(SseEvent { event_type: t.clone(), data: data.copy() });
        },
        None => {},
    }
    emitter.emit(emission.event.as_str(), data);
}

/// The data of an event. `inner` stands for the JSON form of the note, the
/// notification or the chat message that it carries, where it carries one.
pub open spec fn event_json(p: PayloadV, inner: JsonV) -> JsonV {
    let o = json::empty_object();
    match p {
        PayloadV::Note { account_id, subscription_id, .. } => o.with(
            "accountId"@,
            JsonV::Str(account_id),
        ).with("subscriptionId"@, JsonV::Str(subscription_id)).with("note"@, inner),
        PayloadV::Notification { account_id, subscription_id, .. } => o.with(
            "accountId"@,
            JsonV::Str(account_id),
        ).with("subscriptionId"@, JsonV::Str(subscription_id)).with("notification"@, inner),
        PayloadV::Mention { account_id, subscription_id, .. } => o.with(
            "accountId"@,
            JsonV::Str(account_id),
        ).with("subscriptionId"@, JsonV::Str(subscription_id)).with("note"@, inner),
        PayloadV::Chat { account_id, subscription_id, .. } => o.with(
            "accountId"@,
            JsonV::Str(account_id),
        ).with("subscriptionId"@, JsonV::Str(subscription_id)).with("message"@, inner),
        PayloadV::ChatDeleted { account_id, subscription_id, message_id } => o.with(
            "accountId"@,
            JsonV::Str(account_id),
        ).with("subscriptionId"@, JsonV::Str(subscription_id)).with(
            "messageId"@,
            JsonV::Str(message_id),
        ),
        PayloadV::Main { account_id, subscription_id, event_type, body } => o.with(
            "accountId"@,
            JsonV::Str(account_id),
        ).with("subscriptionId"@, JsonV::Str(subscription_id)).with(
            "eventType"@,
            JsonV::Str(event_type),
        ).with("body"@, body),
        PayloadV::NoteUpdated { account_id, subscription_id, note_id, update_type, body } => o.with(
            "accountId"@,
            JsonV::Str(account_id),
        ).with("subscriptionId"@, JsonV::Str(subscription_id)).with(
            "noteId"@,
            JsonV::Str(note_id),
        ).with("updateType"@, JsonV::Str(update_type)).with("body"@, body),
        PayloadV::NoteCapture { account_id, note_id, update_type, body } => o.with(
            "accountId"@,
            JsonV::Str(account_id),
        ).with("noteId"@, JsonV::Str(note_id)).with("updateType"@, JsonV::Str(update_type)).with(
            "body"@,
            body,
        ),
        PayloadV::Status { account_id, state } => o.with("accountId"@, JsonV::Str(account_id)).with(
            "state"@,
            JsonV::Str(state),
        ),
    }
}

fn owned_by(account_id: &str, subscription_id: &str) -> (r: Json)
    ensures
        r is Object,
        r@ == json::empty_object().with("accountId"@, JsonV::Str(account_id@)).with(
            "subscriptionId"@,
            JsonV::Str(subscription_id@),
        ),
{
    let mut o = Json::object();
    o.set_str("accountId", account_id);
    o.set_str("subscriptionId", subscription_id);
    o
}

impl Payload {
    /// The data of this event; `inner` is the JSON form of the note, the
    /// notification or the chat message that it carries.
    pub fn to_json(&self, inner: Json) -> (r: Json)
        ensures
            r@ == event_json(self@, inner@),
    {
        match self {
            Payload::Note(e) => {
                let mut o = owned_by(e.account_id.as_str(), e.subscription_id.as_str());
                o.set("note", inner);
                o
            },
            Payload::Notification(e) => {
                let mut o = owned_by(e.account_id.as_str(), e.subscription_id.as_str());
                o.set("notification", inner);
                o
            },
            Payload::Mention(e) => {
                let mut o = owned_by(e.account_id.as_str(), e.subscription_id.as_str());
                o.set("note", inner);
                o
            },
            Payload::Chat(e) => {
                let mut o = owned_by(e.account_id.as_str(), e.subscription_id.as_str());
                o.set("message", inner);
                o
            },
            Payload::ChatDeleted(e) => {
                let mut o = owned_by(e.account_id.as_str(), e.subscription_id.as_str());
                o.set_str("messageId", e.message_id.as_str());
                o
            },
            Payload::Main(e) => {
                let mut o = owned_by(e.account_id.as_str(), e.subscription_id.as_str());
                o.set_str("eventType", e.event_type.as_str());
                o.set("body", e.body.copy());
                o
            },
            Payload::NoteUpdated(e) => {
                let mut o = owned_by(e.account_id.as_str(), e.subscription_id.as_str());
                o.set_str("noteId", e.note_id.as_str());
                o.set_str("updateType", e.update_type.as_str());
                o.set("body", e.body.copy());
                o
            },
            Payload::NoteCapture(e) => {
                let mut o = Json::object();
                o.set_str("accountId", e.account_id.as_str());
                o.set_str("noteId", e.note_id.as_str());
                o.set_str("updateType", e.update_type.as_str());
                o.set("body", e.body.copy());
                o
            },
            Payload::Status(e) => {
                let mut o = Json::object();
                o.set_str("accountId", e.account_id.as_str());
                o.set_str("state", e.state.as_str());
                o
            },
        }
    }
}

proof fn lemma_event_members_differ()
    ensures
        "accountId"@ != "subscriptionId"@,
        "accountId"@ != "note"@,
        "accountId"@ != "notification"@,
        "accountId"@ != "message"@,
        "accountId"@ != "messageId"@,
        "accountId"@ != "eventType"@,
        "accountId"@ != "body"@,
        "accountId"@ != "noteId"@,
        "accountId"@ != "updateType"@,
        "accountId"@ != "state"@,
        "subscriptionId"@ != "note"@,
        "subscriptionId"@ != "notification"@,
        "subscriptionId"@ != "message"@,
        "subscriptionId"@ != "messageId"@,
        "subscriptionId"@ != "eventType"@,
        "subscriptionId"@ != "body"@,
        "subscriptionId"@ != "noteId"@,
        "subscriptionId"@ != "updateType"@,
        "subscriptionId"@ != "state"@,
        "note"@ != "notification"@,
        "note"@ != "message"@,
        "note"@ != "messageId"@,
        "note"@ != "eventType"@,
        "note"@ != "body"@,
        "note"@ != "noteId"@,
        "note"@ != "updateType"@,
        "note"@ != "state"@,
        "notification"@ != "message"@,
        "notification"@ != "messageId"@,
        "notification"@ != "eventType"@,
        "notification"@ != "body"@,
        "notification"@ != "noteId"@,
        "notification"@ != "updateType"@,
        "notification"@ != "state"@,
        "message"@ != "messageId"@,
        "message"@ != "eventType"@,
        "message"@ != "body"@,
        "message"@ != "noteId"@,
        "message"@ != "updateType"@,
        "message"@ != "state"@,
        "messageId"@ != "eventType"@,
        "messageId"@ != "body"@,
        "messageId"@ != "noteId"@,
        "messageId"@ != "updateType"@,
        "messageId"@ != "state"@,
        "eventType"@ != "body"@,
        "eventType"@ != "noteId"@,
        "eventType"@ != "updateType"@,
        "eventType"@ != "state"@,
        "body"@ != "noteId"@,
        "body"@ != "updateType"@,
        "body"@ != "state"@,
        "noteId"@ != "updateType"@,
        "noteId"@ != "state"@,
        "updateType"@ != "state"@,
{
    reveal_strlit("accountId");
    reveal_strlit("subscriptionId");
    reveal_strlit("note");
    reveal_strlit("notification");
    reveal_strlit("message");
    reveal_strlit("messageId");
    reveal_strlit("eventType");
    reveal_strlit("body");
    reveal_strlit("noteId");
    reveal_strlit("updateType");
    reveal_strlit("state");
    assert("accountId"@.len() == 9);
    assert("subscriptionId"@.len() == 14);
    assert("note"@.len() == 4);
    assert("notification"@.len() == 12);
    assert("message"@.len() == 7);
    assert("messageId"@.len() == 9);
    assert("eventType"@.len() == 9);
    assert("body"@.len() == 4);
    assert("noteId"@.len() == 6);
    assert("updateType"@.len() == 10);
    assert("state"@.len() == 5);
    assert("accountId"@[0] != "messageId"@[0]);
    assert("accountId"@[0] != "eventType"@[0]);
    assert("note"@[0] != "body"@[0]);
    assert("messageId"@[0] != "eventType"@[0]);
}

/// The data of an event names the account and everything that the event tells,
/// each under its own name, and nothing else.
pub proof fn law_event_data_tells_the_event(p: PayloadV, inner: JsonV, key: Seq<char>)
    ensures
        ({
            let d = event_json(p, inner);
            match p {
                PayloadV::Note { account_id, subscription_id, .. } => {
                    &&& d.member("accountId"@) == Some(JsonV::Str(account_id))
                    &&& d.member("subscriptionId"@) == Some(JsonV::Str(subscription_id))
                    &&& d.member("note"@) == Some(inner)
                    &&& key != "accountId"@ && key != "subscriptionId"@ && key != "note"@ ==> d.member(key) is None
                },
                PayloadV::Notification { account_id, subscription_id, .. } => {
                    &&& d.member("accountId"@) == Some(JsonV::Str(account_id))
                    &&& d.member("subscriptionId"@) == Some(JsonV::Str(subscription_id))
                    &&& d.member("notification"@) == Some(inner)
                    &&& key != "accountId"@ && key != "subscriptionId"@ && key != "notification"@ ==> d.member(key) is None
                },
                PayloadV::Mention { account_id, subscription_id, .. } => {
                    &&& d.member("accountId"@) == Some(JsonV::Str(account_id))
                    &&& d.member("subscriptionId"@) == Some(JsonV::Str(subscription_id))
                    &&& d.member("note"@) == Some(inner)
                    &&& key != "accountId"@ && key != "subscriptionId"@ && key != "note"@ ==> d.member(key) is None
                },
                PayloadV::Chat { account_id, subscription_id, .. } => {
                    &&& d.member("accountId"@) == Some(JsonV::Str(account_id))
                    &&& d.member("subscriptionId"@) == Some(JsonV::Str(subscription_id))
                    &&& d.member("message"@) == Some(inner)
                    &&& key != "accountId"@ && key != "subscriptionId"@ && key != "message"@ ==> d.member(key) is None
                },
                PayloadV::ChatDeleted { account_id, subscription_id, message_id } => {
                    &&& d.member("accountId"@) == Some(JsonV::Str(account_id))
                    &&& d.member("subscriptionId"@) == Some(JsonV::Str(subscription_id))
                    &&& d.member("messageId"@) == Some(JsonV::Str(message_id))
                    &&& key != "accountId"@ && key != "subscriptionId"@ && key != "messageId"@ ==> d.member(key) is None
                },
                PayloadV::Main { account_id, subscription_id, event_type, body } => {
                    &&& d.member("accountId"@) == Some(JsonV::Str(account_id))
                    &&& d.member("subscriptionId"@) == Some(JsonV::Str(subscription_id))
                    &&& d.member("eventType"@) == Some(JsonV::Str(event_type))
                    &&& d.member("body"@) == Some(body)
                    &&& key != "accountId"@ && key != "subscriptionId"@ && key != "eventType"@ && key != "body"@ ==> d.member(key) is None
                },
                PayloadV::NoteUpdated { account_id, subscription_id, note_id, update_type, body } => {
                    &&& d.member("accountId"@) == Some(JsonV::Str(account_id))
                    &&& d.member("subscriptionId"@) == Some(JsonV::Str(subscription_id))
                    &&& d.member("noteId"@) == Some(JsonV::Str(note_id))
                    &&& d.member("updateType"@) == Some(JsonV::Str(update_type))
                    &&& d.member("body"@) == Some(body)
                    &&& key != "accountId"@ && key != "subscriptionId"@ && key != "noteId"@ && key != "updateType"@ && key != "body"@ ==> d.member(key) is None
                },
                PayloadV::NoteCapture { account_id, note_id, update_type, body } => {
                    &&& d.member("accountId"@) == Some(JsonV::Str(account_id))
                    &&& d.member("noteId"@) == Some(JsonV::Str(note_id))
                    &&& d.member("updateType"@) == Some(JsonV::Str(update_type))
                    &&& d.member("body"@) == Some(body)
                    &&& key != "accountId"@ && key != "noteId"@ && key != "updateType"@ && key != "body"@ ==> d.member(key) is None
                },
                PayloadV::Status { account_id, state } => {
                    &&& d.member("accountId"@) == Some(JsonV::Str(account_id))
                    &&& d.member("state"@) == Some(JsonV::Str(state))
                    &&& key != "accountId"@ && key != "state"@ ==> d.member(key) is None
                },
            }
        }),
{
    broadcast use json::lemma_member_of_with;

    lemma_event_members_differ();
}

/// What is meant for the bus waits there behind what waited before, under its
/// type and with its data; what is not leaves the bus alone.
pub proof fn law_bus_gets_what_is_meant_for_it(
    waiting: Seq<(Seq<char>, JsonV)>,
    bus_type: Option<Seq<char>>,
    data: JsonV,
)
    ensures
        waiting.is_prefix_of(after_delivery(waiting, bus_type, data)),
        bus_type matches Some(t) ==> after_delivery(waiting, bus_type, data).len() == waiting.len()
            + 1 && after_delivery(waiting, bus_type, data).last() == (t, data),
        bus_type is None ==> after_delivery(waiting, bus_type, data) == waiting,
{
}

/// An emitter with a bus puts every event there, behind what waits, under its name and with its
/// data; one without lets the event pass.
pub proof fn law_emitters_do_as_they_are_named(
    before: EventBusEmitter,
    after: EventBusEmitter,
    event: Seq<char>,
    payload: JsonV,
    silent: NoopEmitter,
    later: NoopEmitter,
)
    requires
        EventBusEmitter::emitted(before, after, event, payload),
        NoopEmitter::emitted(silent, later, event, payload),
    ensures
        after.event_bus@.len() == before.event_bus@.len() + 1,
        after.event_bus@.last() == (event, payload),
        before.event_bus@.is_prefix_of(after.event_bus@),
        later == silent,
{
}

} // verus!
