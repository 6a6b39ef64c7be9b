//! What a text message of a server means to the subscriptions at hand.
use vstd::prelude::*;

use crate::json;
use crate::json::{Json, JsonV};
use crate::models::{ChatMessage, NormalizedNote, NormalizedNotification};
use crate::streaming::events;
use crate::streaming::events::{
    Emission, EmissionV, Payload, PayloadV, StreamChatMessageDeletedEvent, StreamChatMessageEvent,
    StreamMainEvent, StreamMentionEvent, StreamNoteCaptureEvent, StreamNoteEvent,
    StreamNoteUpdatedEvent, StreamNotificationEvent,
};
use crate::streaming::subscription;
use crate::streaming::subscription::{SubscriptionInfo, SubscriptionKind, SubscriptionV};
use crate::table::Table;
use crate::text;

verus! {

/// What is to be done about a message.
#[derive(Debug)]
pub enum WsDecision {
    /// Nothing.
    Ignore,
    /// A captured note changed.
    NoteCapture(StreamNoteCaptureEvent),
    /// `body` is a note, to be cached under `timeline_type` and handed on.
    Note { subscription_id: String, host: String, timeline_type: String, body: Json },
    /// A note of a subscribed channel changed.
    NoteUpdated(StreamNoteUpdatedEvent),
    /// `body` is a notification.
    Notification { subscription_id: String, host: String, body: Json },
    /// `body` is a note that mentions the user or replies to one of the user's.
    Mention { subscription_id: String, host: String, event_type: String, body: Json },
    /// Something else on the main channel.
    Main(StreamMainEvent),
    /// `body` is a chat message.
    Chat { subscription_id: String, body: Json },
    /// A chat message was deleted.
    ChatDeleted(StreamChatMessageDeletedEvent),
}

/// The mathematical value of a [`WsDecision`].
pub enum WsDecisionV {
    Ignore,
    NoteCapture(PayloadV),
    Note {
        subscription_id: Seq<char>,
        host: Seq<char>,
        timeline_type: Seq<char>,
        body: JsonV,
    },
    NoteUpdated(PayloadV),
    Notification { subscription_id: Seq<char>, host: Seq<char>, body: JsonV },
    Mention { subscription_id: Seq<char>, host: Seq<char>, event_type: Seq<char>, body: JsonV },
    Main(PayloadV),
    Chat { subscription_id: Seq<char>, body: JsonV },
    ChatDeleted(PayloadV),
}

impl WsDecision {
    pub open spec fn view(&self) -> WsDecisionV {
        match *self {
            WsDecision::Ignore => WsDecisionV::Ignore,
            WsDecision::NoteCapture(e) => WsDecisionV::NoteCapture(Payload::NoteCapture(e)@),
            WsDecision::Note { subscription_id, host, timeline_type, body } => WsDecisionV::Note {
                subscription_id: subscription_id@,
                host: host@,
                timeline_type: timeline_type@,
                body: body@,
            },
            WsDecision::NoteUpdated(e) => WsDecisionV::NoteUpdated(Payload::NoteUpdated(e)@),
            WsDecision::Notification { subscription_id, host, body } => WsDecisionV::Notification {
                subscription_id: subscription_id@,
                host: host@,
                body: body@,
            },
            WsDecision::Mention { subscription_id, host, event_type, body } => WsDecisionV::Mention {
                subscription_id: subscription_id@,
                host: host@,
                event_type: event_type@,
                body: body@,
            },
            WsDecision::Main(e) => WsDecisionV::Main(Payload::Main(e)@),
            WsDecision::Chat { subscription_id, body } => WsDecisionV::Chat {
                subscription_id: subscription_id@,
                body: body@,
            },
            WsDecision::ChatDeleted(e) => WsDecisionV::ChatDeleted(Payload::ChatDeleted(e)@),
        }
    }
}

/// The text, or the empty text where there is none.
pub open spec fn or_empty(o: Option<Seq<char>>) -> Seq<char> {
    match o {
        Some(s) => s,
        None => Seq::empty(),
    }
}

/// The value, or `null` where there is none.
pub open spec fn or_null(o: Option<JsonV>) -> JsonV {
    match o {
        Some(j) => j,
        None => JsonV::Null,
    }
}

/// What a message of type `event_type` with the body `body` means to a
/// subscription.
pub open spec fn routed_event(
    account_id: Seq<char>,
    subscription_id: Seq<char>,
    info: SubscriptionV,
    event_type: Seq<char>,
    body: JsonV,
) -> WsDecisionV {
    if info.kind.carries_notes() {
        if event_type == "note"@ {
            WsDecisionV::Note {
                subscription_id,
                host: info.host,
                timeline_type: info.timeline_type,
                body,
            }
        } else if event_type == "noteUpdated"@ {
            WsDecisionV::NoteUpdated(
                PayloadV::NoteUpdated {
                    account_id,
                    subscription_id,
                    note_id: or_empty(body.text_member("id"@)),
                    update_type: or_empty(body.text_member("type"@)),
                    body: or_null(body.member("body"@)),
                },
            )
        } else {
            WsDecisionV::Ignore
        }
    } else if info.kind is Main {
        if event_type == "notification"@ {
            WsDecisionV::Notification { subscription_id, host: info.host, body }
        } else if event_type == "mention"@ || event_type == "reply"@ {
            WsDecisionV::Mention { subscription_id, host: info.host, event_type, body }
        } else {
            WsDecisionV::Main(PayloadV::Main { account_id, subscription_id, event_type, body })
        }
    } else if event_type == "message"@ {
        WsDecisionV::Chat { subscription_id, body }
    } else if event_type == "deleted"@ && body is Str {
        WsDecisionV::ChatDeleted(
            PayloadV::ChatDeleted { account_id, subscription_id, message_id: body->Str_0 },
        )
    } else {
        WsDecisionV::Ignore
    }
}

/// What the body of a channel message means.
pub open spec fn routed_channel(
    account_id: Seq<char>,
    body: JsonV,
    subs: Map<Seq<char>, SubscriptionV>,
) -> WsDecisionV {
    match (body.text_member("id"@), body.text_member("type"@), body.member("body"@)) {
        (Some(id), Some(event_type), Some(inner)) => if !(inner is Null) && subs.contains_key(id) {
            routed_event(account_id, id, subs[id], event_type, inner)
        } else {
            WsDecisionV::Ignore
        },
        _ => WsDecisionV::Ignore,
    }
}

/// What a message means.
pub open spec fn routed(
    account_id: Seq<char>,
    msg: JsonV,
    subs: Map<Seq<char>, SubscriptionV>,
) -> WsDecisionV {
    match (msg.text_member("type"@), msg.member("body"@)) {
        (Some(t), Some(body)) => if t == "noteUpdated"@ {
            WsDecisionV::NoteCapture(
                PayloadV::NoteCapture {
                    account_id,
                    note_id: or_empty(body.text_member("id"@)),
                    update_type: or_empty(body.text_member("type"@)),
                    body: or_null(body.member("body"@)),
                },
            )
        } else if t == "channel"@ && !(body is Null) {
            routed_channel(account_id, body, subs)
        } else {
            WsDecisionV::Ignore
        },
        _ => WsDecisionV::Ignore,
    }
}

fn text_or_empty(j: &Json, key: &str) -> (r: String)
    ensures
        r@ == or_empty(j@.text_member(key@)),
{
    match j.str_at(key) {
        Some(s) => s.to_owned(),
        None => String::new(),
    }
}

fn member_or_null(j: &Json, key: &str) -> (r: Json)
    ensures
        r@ == or_null(j@.member(key@)),
{
    match j.get(key) {
        Some(v) => v.copy(),
        None => Json::Null,
    }
}

fn route_event(
    account_id: &str,
    subscription_id: &str,
    info: &SubscriptionInfo,
    event_type: &str,
    body: &Json,
) -> (r: WsDecision)
    ensures
        r@ == routed_event(account_id@, subscription_id@, info@, event_type@, body@),
{
    match info.kind {
        SubscriptionKind::Timeline
        | SubscriptionKind::Antenna
        | SubscriptionKind::Channel
        | SubscriptionKind::Role => {
            if text::same(event_type, "note") {
                WsDecision::Note {
                    subscription_id: subscription_id.to_owned(),
                    host: info.host.clone(),
                    timeline_type: info.timeline_type.clone(),
                    body: body.copy(),
                }
            } else if text::same(event_type, "noteUpdated") {
                WsDecision::NoteUpdated(
                    StreamNoteUpdatedEvent {
                        account_id: account_id.to_owned(),
                        subscription_id: subscription_id.to_owned(),
                        note_id: text_or_empty(body, "id"),
                        update_type: text_or_empty(body, "type"),
                        body: member_or_null(body, "body"),
                    },
                )
            } else {
                WsDecision::Ignore
            }
        },
        SubscriptionKind::Main => {
            if text::same(event_type, "notification") {
                WsDecision::Notification {
                    subscription_id: subscription_id.to_owned(),
                    host: info.host.clone(),
                    body: body.copy(),
                }
            } else if text::same(event_type, "mention") || text::same(event_type, "reply") {
                WsDecision::Mention {
                    subscription_id: subscription_id.to_owned(),
                    host: info.host.clone(),
                    event_type: event_type.to_owned(),
                    body: body.copy(),
                }
            } else {
                WsDecision::Main(
                    StreamMainEvent {
                        account_id: account_id.to_owned(),
                        subscription_id: subscription_id.to_owned(),
                        event_type: event_type.to_owned(),
                        body: body.copy(),
                    },
                )
            }
        },
        SubscriptionKind::Chat => {
            if text::same(event_type, "message") {
                WsDecision::Chat {
                    subscription_id: subscription_id.to_owned(),
                    body: body.copy(),
                }
            } else if text::same(event_type, "deleted") {
                match body.as_str() {
                    Some(id) => WsDecision::ChatDeleted(
                        StreamChatMessageDeletedEvent {
                            account_id: account_id.to_owned(),
                            subscription_id: subscription_id.to_owned(),
                            message_id: id.to_owned(),
                        },
                    ),
                    None => WsDecision::Ignore,
                }
            } else {
                WsDecision::Ignore
            }
        },
    }
}

/// Decides what a message means, given what it holds.
pub fn route_message(
    account_id: &str,
    msg: &Json,
    subscriptions: &Table<SubscriptionInfo>,
) -> (r: WsDecision)
    requires
        subscriptions.wf(),
    ensures
        r@ == routed(account_id@, msg@, subscription::subs_view(subscriptions@)),
{
    let msg_type = match msg.str_at("type") {
        Some(t) => t,
        None => {
            return WsDecision::Ignore;
        },
    };
    let body = match msg.get("body") {
        Some(b) => b,
        None => {
            return WsDecision::Ignore;
        },
    };
    if text::same(msg_type, "noteUpdated") {
        return WsDecision::NoteCapture(
            StreamNoteCaptureEvent {
                account_id: account_id.to_owned(),
                note_id: text_or_empty(body, "id"),
                update_type: text_or_empty(body, "type"),
                body: member_or_null(body, "body"),
            },
        );
    }
    if !text::same(msg_type, "channel") || body.is_null() {
        return WsDecision::Ignore;
    }
    let sub_id = match body.str_at("id") {
        Some(id) => id,
        None => {
            return WsDecision::Ignore;
        },
    };
    let event_type = match body.str_at("type") {
        Some(t) => t,
        None => {
            return WsDecision::Ignore;
        },
    };
    let inner = match body.get("body") {
        Some(b) => b,
        None => {
            return WsDecision::Ignore;
        },
    };
    if inner.is_null() {
        return WsDecision::Ignore;
    }
    match subscriptions.get(sub_id) {
        Some(info) => route_event(account_id, sub_id, info, event_type, inner),
        None => WsDecision::Ignore,
    }
}

/// Decides what a text message means. A text that is no JSON is ignored.
pub fn handle_ws_message(
    account_id: &str,
    text: &str,
    subscriptions: &Table<SubscriptionInfo>,
) -> (r: WsDecision)
    requires
        subscriptions.wf(),
    ensures
        match json::parsed_json(text@) {
            Some(msg) => r@ == routed(account_id@, msg, subscription::subs_view(subscriptions@)),
            None => r@ is Ignore,
        },
{
    match Json::parse(text) {
        Ok(msg) => route_message(account_id, &msg, subscriptions),
        Err(_) => WsDecision::Ignore,
    }
}

/// What the reader of notes, notifications and chat messages made of the body
/// of a decision.
#[derive(Debug)]
pub enum ParsedBody {
    /// It took nothing from it, or there was nothing to read.
    Nothing,
    Note(NormalizedNote),
    Notification(NormalizedNotification),
    Chat(ChatMessage),
}

/// What is handed on for a decision, given what its body was read as.
pub open spec fn handed_on(
    account_id: Seq<char>,
    decision: WsDecisionV,
    parsed: ParsedBody,
) -> Seq<EmissionV> {
    match decision {
        WsDecisionV::Ignore => Seq::empty(),
        WsDecisionV::NoteCapture(p) => seq![
            events::published("note-capture-updated"@, "stream-note-capture-updated"@, p),
        ],
        WsDecisionV::Note { subscription_id, .. } => match parsed {
            ParsedBody::Note(note) => seq![
                events::published(
                    "note"@,
                    "stream-note"@,
                    PayloadV::Note { account_id, subscription_id, note },
                ),
            ],
            _ => Seq::empty(),
        },
        WsDecisionV::NoteUpdated(p) => seq![
            events::published("note-updated"@, "stream-note-updated"@, p),
        ],
        WsDecisionV::Notification { subscription_id, .. } => match parsed {
            ParsedBody::Notification(notification) => seq![
                events::published(
                    "notification"@,
                    "stream-notification"@,
                    PayloadV::Notification { account_id, subscription_id, notification },
                ),
            ],
            _ => Seq::empty(),
        },
        WsDecisionV::Mention { subscription_id, event_type, body, .. } => {
            let main = events::shown(
                "stream-main-event"@,
                PayloadV::Main { account_id, subscription_id, event_type, body },
            );
            match parsed {
                ParsedBody::Note(note) => seq![
                    main,
                    events::published(
                        "mention"@,
                        "stream-mention"@,
                        PayloadV::Mention { account_id, subscription_id, note },
                    ),
                ],
                _ => seq![main],
            }
        },
        WsDecisionV::Main(p) => match p {
            PayloadV::Main { event_type, .. } => seq![
                events::published("main-"@ + event_type, "stream-main-event"@, p),
            ],
            _ => Seq::empty(),
        },
        WsDecisionV::Chat { subscription_id, .. } => match parsed {
            ParsedBody::Chat(message) => seq![
                events::published(
                    "chat"@,
                    "stream-chat-message"@,
                    PayloadV::Chat { account_id, subscription_id, message },
                ),
            ],
            _ => Seq::empty(),
        },
        WsDecisionV::ChatDeleted(p) => seq![
            events::published("chat-deleted"@, "stream-chat-message-deleted"@, p),
        ],
    }
}

fn one(e: Emission) -> (r: Vec<Emission>)
    ensures
        events::emissions_view(r@) == seq![e@],
{
    let mut v: Vec<Emission> = Vec::new();
    v.push(e);
    proof {
        assert(events::emissions_view(v@) =~= seq![e@]);
    }
    v
}

fn none() -> (r: Vec<Emission>)
    ensures
        events::emissions_view(r@) == Seq::<EmissionV>::empty(),
{
    let v: Vec<Emission> = Vec::new();
    proof {
        assert(events::emissions_view(v@) =~= Seq::empty());
    }
    v
}

/// Makes the events for a decision, given what its body was read as.
pub fn emissions_for(account_id: &str, decision: WsDecision, parsed: ParsedBody) -> (r: Vec<Emission>)
    ensures
        events::emissions_view(r@) == handed_on(account_id@, decision@, parsed),
{
    match decision {
        WsDecision::Ignore => none(),
        WsDecision::NoteCapture(e) => one(
            events::publish(
                "note-capture-updated",
                "stream-note-capture-updated",
                Payload::NoteCapture(e),
            ),
        ),
        WsDecision::Note { subscription_id, .. } => match parsed {
            ParsedBody::Note(note) => one(
                events::publish(
                    "note",
                    "stream-note",
                    Payload::Note(
                        StreamNoteEvent { account_id: account_id.to_owned(), subscription_id, note },
                    ),
                ),
            ),
            _ => none(),
        },
        WsDecision::NoteUpdated(e) => one(
            events::publish("note-updated", "stream-note-updated", Payload::NoteUpdated(e)),
        ),
        WsDecision::Notification { subscription_id, .. } => match parsed {
            ParsedBody::Notification(notification) => one(
                events::publish(
                    "notification",
                    "stream-notification",
                    Payload::Notification(
                        StreamNotificationEvent {
                            account_id: account_id.to_owned(),
                            subscription_id,
                            notification,
                        },
                    ),
                ),
            ),
            _ => none(),
        },
        WsDecision::Mention { subscription_id, event_type, body, .. } => {
            let main = events::show(
                "stream-main-event",
                Payload::Main(
                    StreamMainEvent {
                        account_id: account_id.to_owned(),
                        subscription_id: subscription_id.clone(),
                        event_type,
                        body,
                    },
                ),
            );
            let mut v = one(main);
            match parsed {
                ParsedBody::Note(note) => {
                    let mention = events::publish(
                        "mention",
                        "stream-mention",
                        Payload::Mention(
                            StreamMentionEvent {
                                account_id: account_id.to_owned(),
                                subscription_id,
                                note,
                            },
                        ),
                    );
                    let ghost before = v@;
                    v.push(mention);
                    proof {
                        let shown = events::emissions_view(before);
                        assert(before.len() == shown.len());
                        assert(events::emissions_view(v@) =~= shown.push(mention@));
                    }
                },
                _ => {},
            }
            v
        },
        WsDecision::Main(e) => {
            let mut bus_type = "main-".to_owned();
            bus_type.append(e.event_type.as_str());
            one(events::publish(bus_type.as_str(), "stream-main-event", Payload::Main(e)))
        },
        WsDecision::Chat { subscription_id, .. } => match parsed {
            ParsedBody::Chat(message) => one(
                events::publish(
                    "chat",
                    "stream-chat-message",
                    Payload::Chat(
                        StreamChatMessageEvent {
                            account_id: account_id.to_owned(),
                            subscription_id,
                            message,
                        },
                    ),
                ),
            ),
            _ => none(),
        },
        WsDecision::ChatDeleted(e) => one(
            events::publish("chat-deleted", "stream-chat-message-deleted", Payload::ChatDeleted(e)),
        ),
    }
}

/// A message for a subscription that is not there is dropped: it is ignored,
/// and nothing is handed on, whatever its body may be read as.
pub proof fn law_unknown_subscription_is_ignored(
    account_id: Seq<char>,
    msg: JsonV,
    subs: Map<Seq<char>, SubscriptionV>,
    parsed: ParsedBody,
)
    requires
        msg.text_member("type"@) == Some("channel"@),
        msg.member("body"@) matches Some(body) && (body.text_member("id"@) matches Some(id)
            ==> !subs.contains_key(id)),
    ensures
        routed(account_id, msg, subs) is Ignore,
        handed_on(account_id, routed(account_id, msg, subs), parsed).len() == 0,
{
    reveal_strlit("channel");
    reveal_strlit("noteUpdated");
    assert("channel"@.len() != "noteUpdated"@.len());
}

/// A note is read, cached and handed on only for a subscription that is there
/// and whose channel carries notes, and it is cached under the server and the
/// kind of timeline of that subscription.
pub proof fn law_notes_come_from_note_channels(
    account_id: Seq<char>,
    msg: JsonV,
    subs: Map<Seq<char>, SubscriptionV>,
)
    requires
        routed(account_id, msg, subs) is Note,
    ensures
        ({
            let d = routed(account_id, msg, subs);
            let id = d->Note_subscription_id;
            &&& subs.contains_key(id)
            &&& subs[id].kind.carries_notes()
            &&& d->Note_host == subs[id].host
            &&& d->Note_timeline_type == subs[id].timeline_type
        }),
{
}

/// A notification that was read is handed on, once: to the bus as `notification`
/// and to the frontend as `stream-notification`, with the account, the
/// subscription and the notification itself.
pub proof fn law_notification_is_handed_on(
    account_id: Seq<char>,
    subscription_id: Seq<char>,
    host: Seq<char>,
    body: JsonV,
    notification: NormalizedNotification,
)
    ensures
        ({
            let out = handed_on(
                account_id,
                WsDecisionV::Notification { subscription_id, host, body },
                ParsedBody::Notification(notification),
            );
            &&& out.len() == 1
            &&& out[0].bus_type == Some("notification"@)
            &&& out[0].event == "stream-notification"@
            &&& out[0].payload == (PayloadV::Notification {
                account_id,
                subscription_id,
                notification,
            })
        }),
{
}

/// A note that was read is handed on, once: to the bus as `note` and to the
/// frontend as `stream-note`.
pub proof fn law_note_is_handed_on(
    account_id: Seq<char>,
    subscription_id: Seq<char>,
    host: Seq<char>,
    timeline_type: Seq<char>,
    body: JsonV,
    note: NormalizedNote,
)
    ensures
        ({
            let out = handed_on(
                account_id,
                WsDecisionV::Note { subscription_id, host, timeline_type, body },
                ParsedBody::Note(note),
            );
            &&& out.len() == 1
            &&& out[0].bus_type == Some("note"@)
            &&& out[0].event == "stream-note"@
            &&& out[0].payload == (PayloadV::Note { account_id, subscription_id, note })
        }),
{
}

/// A mention is handed on twice: to the frontend alone as an event of the main
/// channel, as the server sent it, and then to the bus as `mention` and to the
/// frontend as `stream-mention`, with the note that was read. Where no note was
/// read the first of them is handed on all the same.
pub proof fn law_mention_is_handed_on(
    account_id: Seq<char>,
    subscription_id: Seq<char>,
    host: Seq<char>,
    event_type: Seq<char>,
    body: JsonV,
    note: NormalizedNote,
)
    ensures
        ({
            let d = WsDecisionV::Mention { subscription_id, host, event_type, body };
            let out = handed_on(account_id, d, ParsedBody::Note(note));
            let unread = handed_on(account_id, d, ParsedBody::Nothing);
            &&& out.len() == 2
            &&& out[0].bus_type is None
            &&& out[0].event == "stream-main-event"@
            &&& out[0].payload == (PayloadV::Main { account_id, subscription_id, event_type, body })
            &&& out[1].bus_type == Some("mention"@)
            &&& out[1].event == "stream-mention"@
            &&& out[1].payload == (PayloadV::Mention { account_id, subscription_id, note })
            &&& unread.len() == 1
            &&& unread[0] == out[0]
        }),
{
}

/// A chat message that was read is handed on, once: to the bus as `chat` and to
/// the frontend as `stream-chat-message`.
pub proof fn law_chat_message_is_handed_on(
    account_id: Seq<char>,
    subscription_id: Seq<char>,
    body: JsonV,
    message: ChatMessage,
)
    ensures
        ({
            let out = handed_on(
                account_id,
                WsDecisionV::Chat { subscription_id, body },
                ParsedBody::Chat(message),
            );
            &&& out.len() == 1
            &&& out[0].bus_type == Some("chat"@)
            &&& out[0].event == "stream-chat-message"@
            &&& out[0].payload == (PayloadV::Chat { account_id, subscription_id, message })
        }),
{
}

/// What needs no reading is handed on as it is, once, to the bus and to the
/// frontend.
pub proof fn law_changes_are_handed_on(account_id: Seq<char>, p: PayloadV, parsed: ParsedBody)
    ensures
        ({
            let out = handed_on(account_id, WsDecisionV::NoteCapture(p), parsed);
            &&& out.len() == 1
            &&& out[0].bus_type == Some("note-capture-updated"@)
            &&& out[0].event == "stream-note-capture-updated"@
            &&& out[0].payload == p
        }),
        ({
            let out = handed_on(account_id, WsDecisionV::NoteUpdated(p), parsed);
            &&& out.len() == 1
            &&& out[0].bus_type == Some("note-updated"@)
            &&& out[0].event == "stream-note-updated"@
            &&& out[0].payload == p
        }),
        ({
            let out = handed_on(account_id, WsDecisionV::ChatDeleted(p), parsed);
            &&& out.len() == 1
            &&& out[0].bus_type == Some("chat-deleted"@)
            &&& out[0].event == "stream-chat-message-deleted"@
            &&& out[0].payload == p
        }),
        p matches PayloadV::Main { event_type, .. } ==> {
            let out = handed_on(account_id, WsDecisionV::Main(p), parsed);
            &&& out.len() == 1
            &&& out[0].bus_type == Some("main-"@ + event_type)
            &&& out[0].event == "stream-main-event"@
            &&& out[0].payload == p
        },
{
}

/// Whether a body was read as what the decision announces.
pub open spec fn read_as_announced(d: WsDecisionV, parsed: ParsedBody) -> bool {
    match d {
        WsDecisionV::Note { .. } => parsed is Note,
        WsDecisionV::Mention { .. } => parsed is Note,
        WsDecisionV::Notification { .. } => parsed is Notification,
        WsDecisionV::Chat { .. } => parsed is Chat,
        WsDecisionV::Main(p) => p is Main,
        WsDecisionV::Ignore => false,
        _ => true,
    }
}

/// What was read as what it announces is never dropped, and the last thing that
/// is handed on for it reaches the bus. What is not handed on to the bus was
/// ignored, or could not be read.
pub proof fn law_nothing_that_was_read_is_dropped(
    account_id: Seq<char>,
    d: WsDecisionV,
    parsed: ParsedBody,
)
    ensures
        read_as_announced(d, parsed) ==> handed_on(account_id, d, parsed).len() > 0 && handed_on(
            account_id,
            d,
            parsed,
        ).last().bus_type is Some,
        d is Ignore ==> handed_on(account_id, d, parsed).len() == 0,
        d is Note && !(parsed is Note) || d is Notification && !(parsed is Notification) || d is Chat
            && !(parsed is Chat) ==> handed_on(account_id, d, parsed).len() == 0,
{
}

/// Whether `msg` is a message on the channel of a subscription: of type `channel`,
/// with the id of the subscription, the type of the event and its body.
pub open spec fn is_channel_message(
    msg: JsonV,
    id: Seq<char>,
    event_type: Seq<char>,
    inner: JsonV,
) -> bool {
    &&& msg.member("type"@) == Some(JsonV::Str("channel"@))
    &&& msg.member("body"@) matches Some(body) && {
        &&& body.member("id"@) == Some(JsonV::Str(id))
        &&& body.member("type"@) == Some(JsonV::Str(event_type))
        &&& body.member("body"@) == Some(inner)
    }
    &&& !(inner is Null)
}

proof fn lemma_event_types_differ()
    ensures
        "channel"@ != "noteUpdated"@,
        "channel"@ != "note"@,
        "channel"@ != "notification"@,
        "channel"@ != "mention"@,
        "channel"@ != "reply"@,
        "channel"@ != "message"@,
        "channel"@ != "deleted"@,
        "noteUpdated"@ != "note"@,
        "noteUpdated"@ != "notification"@,
        "noteUpdated"@ != "mention"@,
        "noteUpdated"@ != "reply"@,
        "noteUpdated"@ != "message"@,
        "noteUpdated"@ != "deleted"@,
        "note"@ != "notification"@,
        "note"@ != "mention"@,
        "note"@ != "reply"@,
        "note"@ != "message"@,
        "note"@ != "deleted"@,
        "notification"@ != "mention"@,
        "notification"@ != "reply"@,
        "notification"@ != "message"@,
        "notification"@ != "deleted"@,
        "mention"@ != "reply"@,
        "mention"@ != "message"@,
        "mention"@ != "deleted"@,
        "reply"@ != "message"@,
        "reply"@ != "deleted"@,
        "message"@ != "deleted"@,
{
    reveal_strlit("channel");
    reveal_strlit("noteUpdated");
    reveal_strlit("note");
    reveal_strlit("notification");
    reveal_strlit("mention");
    reveal_strlit("reply");
    reveal_strlit("message");
    reveal_strlit("deleted");
    assert("channel"@.len() == 7);
    assert("noteUpdated"@.len() == 11);
    assert("note"@.len() == 4);
    assert("notification"@.len() == 12);
    assert("mention"@.len() == 7);
    assert("reply"@.len() == 5);
    assert("message"@.len() == 7);
    assert("deleted"@.len() == 7);
    assert("channel"@[0] != "mention"@[0]);
    assert("channel"@[0] != "message"@[0]);
    assert("channel"@[0] != "deleted"@[0]);
    assert("mention"@[2] != "message"@[2]);
    assert("mention"@[0] != "deleted"@[0]);
    assert("message"@[0] != "deleted"@[0]);
}

/// A message on the channel of a subscription is routed by what the subscription
/// is for: notes and their changes from the channels that carry notes,
/// notifications, mentions, replies and everything else from the main channel,
/// and messages and their deletion from a chat.
pub proof fn law_messages_are_routed_by_channel(
    account_id: Seq<char>,
    msg: JsonV,
    subs: Map<Seq<char>, SubscriptionV>,
    id: Seq<char>,
    event_type: Seq<char>,
    inner: JsonV,
)
    requires
        subs.contains_key(id),
        is_channel_message(msg, id, event_type, inner),
    ensures
        ({
            let info = subs[id];
            let d = routed(account_id, msg, subs);
            match info.kind {
                SubscriptionKind::Timeline
                | SubscriptionKind::Antenna
                | SubscriptionKind::Channel
                | SubscriptionKind::Role => {
                    &&& event_type == "note"@ ==> d == (WsDecisionV::Note {
                        subscription_id: id,
                        host: info.host,
                        timeline_type: info.timeline_type,
                        body: inner,
                    })
                    &&& event_type == "noteUpdated"@ ==> (d matches WsDecisionV::NoteUpdated(p) && (
                    p matches PayloadV::NoteUpdated {
                        account_id: a,
                        subscription_id: s,
                        note_id,
                        update_type,
                        body,
                    } && a == account_id && s == id && (inner.member("id"@) matches Some(
                        JsonV::Str(n),
                    ) ==> note_id == n) && (inner.member("type"@) matches Some(JsonV::Str(t))
                        ==> update_type == t) && (inner.member("body"@) matches Some(b) ==> body == b)
                        && (inner.member("id"@) is None ==> note_id.len() == 0) && (inner.member(
                        "type"@,
                    ) is None ==> update_type.len() == 0) && (inner.member("body"@) is None ==> body is Null)))
                    &&& event_type != "note"@ && event_type != "noteUpdated"@ ==> d is Ignore
                },
                SubscriptionKind::Main => {
                    &&& event_type == "notification"@ ==> d == (WsDecisionV::Notification {
                        subscription_id: id,
                        host: info.host,
                        body: inner,
                    })
                    &&& event_type == "mention"@ || event_type == "reply"@ ==> d == (
                    WsDecisionV::Mention {
                        subscription_id: id,
                        host: info.host,
                        event_type,
                        body: inner,
                    })
                    &&& event_type != "notification"@ && event_type != "mention"@ && event_type
                        != "reply"@ ==> d == WsDecisionV::Main(
                        PayloadV::Main { account_id, subscription_id: id, event_type, body: inner },
                    )
                },
                SubscriptionKind::Chat => {
                    &&& event_type == "message"@ ==> d == (WsDecisionV::Chat {
                        subscription_id: id,
                        body: inner,
                    })
                    &&& event_type == "deleted"@ ==> (inner matches JsonV::Str(message_id) ==> d
                        == WsDecisionV::ChatDeleted(
                        PayloadV::ChatDeleted { account_id, subscription_id: id, message_id },
                    ))
                    &&& event_type == "deleted"@ && !(inner is Str) ==> d is Ignore
                    &&& event_type != "message"@ && event_type != "deleted"@ ==> d is Ignore
                },
            }
        }),
{
    lemma_event_types_differ();
}

/// A change of a captured note needs no subscription: it is told with the note,
/// the kind of change and what changed.
pub proof fn law_captured_note_is_told(
    account_id: Seq<char>,
    msg: JsonV,
    subs: Map<Seq<char>, SubscriptionV>,
    note_id: Seq<char>,
    update_type: Seq<char>,
    change: JsonV,
)
    requires
        msg.member("type"@) == Some(JsonV::Str("noteUpdated"@)),
        msg.member("body"@) matches Some(body) && body.member("id"@) == Some(JsonV::Str(note_id))
            && body.member("type"@) == Some(JsonV::Str(update_type)) && body.member("body"@) == Some(
            change,
        ),
    ensures
        routed(account_id, msg, subs) == WsDecisionV::NoteCapture(
            PayloadV::NoteCapture { account_id, note_id, update_type, body: change },
        ),
{
}

/// A message that is neither of a channel nor of a captured note, one without a body, and
/// one of a channel that does not tell its subscription, its type or its body is ignored.
pub proof fn law_incomplete_messages_are_ignored(
    account_id: Seq<char>,
    msg: JsonV,
    subs: Map<Seq<char>, SubscriptionV>,
)
    ensures
        msg.member("type"@) is None || msg.member("body"@) is None ==> routed(
            account_id,
            msg,
            subs,
        ) is Ignore,
        (msg.member("type"@) matches Some(JsonV::Str(t)) && t != "channel"@ && t != "noteUpdated"@)
            ==> routed(account_id, msg, subs) is Ignore,
        msg.member("type"@) == Some(JsonV::Str("channel"@)) ==> (msg.member("body"@) matches Some(b) ==> (
        b.member("id"@) is None || b.member("type"@) is None || b.member("body"@) is None || b.member(
            "body"@,
        ) == Some(JsonV::Null) ==> routed(account_id, msg, subs) is Ignore)),
        routed(account_id, msg, subs) is NoteCapture <==> msg.member("type"@) == Some(
            JsonV::Str("noteUpdated"@),
        ) && msg.member("body"@) is Some,
{
    lemma_event_types_differ();
}

} // verus!
