use notecli::error::NoteDeckError;
use notecli::json::Json;
use notecli::models::{ChatMessage, NormalizedNote, NormalizedUser, TimelineType};
use notecli::streaming::emitter::{
    deliver, EventBus, EventBusEmitter, FrontendEmitter, NoopEmitter, SseEvent,
};
use notecli::streaming::events::{status, Emission, Payload};
use notecli::streaming::manager::{ConnectOutcome, StreamingManager};
use notecli::streaming::message::{
    emissions_for, handle_ws_message, ParsedBody, WsDecision,
};
use notecli::streaming::polling::{batches, diff_reactions, poll_targets, PollState};
use notecli::streaming::session::{
    after_turn, ws_config, ws_loop, ConnectionTask, TaskAction, TaskEvent, WsAction,
    WsExitReason, WsInput, WsNext,
};
use notecli::streaming::subscription::{resubscribe_messages, SubscriptionKind, WsCommand};

fn json(text: &str) -> Json {
    Json::parse(text).unwrap()
}

fn note(id: &str) -> NormalizedNote {
    NormalizedNote {
        id: id.into(),
        account_id: "acc".into(),
        server_host: "h".into(),
        created_at: "2025-01-02T03:04:05Z".into(),
        text: None,
        cw: None,
        user: NormalizedUser {
            id: "u".into(),
            username: "alice".into(),
            host: None,
            name: None,
            avatar_url: None,
            emojis: Vec::new(),
            is_bot: false,
            avatar_decorations: Vec::new(),
            instance: None,
        },
        visibility: "public".into(),
        emojis: Vec::new(),
        reaction_emojis: Vec::new(),
        reactions: Vec::new(),
        my_reaction: None,
        renote_count: 0,
        replies_count: 0,
        files: Vec::new(),
        poll: None,
        reply_id: None,
        renote_id: None,
        channel_id: None,
        reaction_acceptance: None,
        uri: None,
        url: None,
        updated_at: None,
        local_only: false,
        visible_user_ids: Vec::new(),
        is_favorited: false,
        mode_flags: Vec::new(),
        reply: None,
        renote: None,
    }
}

fn connected() -> StreamingManager {
    let mut m = StreamingManager::new();
    m.connect("acc", "misskey.io", ConnectOutcome::Ready).unwrap();
    m
}

fn state_of(e: &Emission) -> String {
    match &e.payload {
        Payload::Status(s) => format!("{}:{}:{}", e.event, s.account_id, s.state),
        _ => panic!("not a status"),
    }
}

#[test]
fn connecting_is_idempotent() {
    let mut m = StreamingManager::new();
    assert_eq!(
        m.connect_url("acc", "misskey.io", "tok").unwrap(),
        "wss://misskey.io/streaming?i=tok"
    );
    let e = m
        .connect("acc", "misskey.io", ConnectOutcome::Ready)
        .unwrap()
        .unwrap();
    assert_eq!(state_of(&e), "stream-status:acc:connected");
    assert!(e.bus_type.is_none());
    assert!(m.connect_url("acc", "misskey.io", "tok").is_none());
    assert!(m
        .connect("acc", "other.io", ConnectOutcome::TimedOut)
        .unwrap()
        .is_none());
    assert_eq!(m.get_host("acc").unwrap(), "misskey.io");
}

#[test]
fn failed_connections_are_reported() {
    let mut m = StreamingManager::new();
    assert_eq!(
        m.connect("acc", "h", ConnectOutcome::TimedOut)
            .unwrap_err()
            .message(),
        "WebSocket: Connection timeout"
    );
    assert_eq!(
        m.connect("acc", "h", ConnectOutcome::Failed("refused".into()))
            .unwrap_err()
            .message(),
        "WebSocket: refused"
    );
    assert!(matches!(
        m.get_host("acc"),
        Err(NoteDeckError::NoConnection(id)) if id == "acc"
    ));
}

#[test]
fn subscriptions_need_an_open_connection() {
    let mut m = StreamingManager::new();
    assert_eq!(
        m.subscribe_main("acc").unwrap_err().code(),
        "NO_CONNECTION"
    );
    m.connect("acc", "h", ConnectOutcome::Ready).unwrap();
    let id = m.subscribe_main("acc").unwrap();
    assert_eq!(id.len(), 36);
    assert_eq!(&id[14..15], "4");
    assert_ne!(id, m.subscribe_main("acc").unwrap());
    m.connection_over("acc");
    assert_eq!(
        m.subscribe_main("acc").unwrap_err().code(),
        "CONNECTION_CLOSED"
    );
    assert_eq!(m.subscriptions().len(), 2);
}

#[test]
fn subscriptions_by_kind() {
    let mut m = connected();
    let ids = vec![
        m.subscribe_timeline("acc", TimelineType::new("home"), None).unwrap(),
        m.subscribe_timeline("acc", TimelineType::new("list"), Some("l1".into())).unwrap(),
        m.subscribe_antenna("acc", "a1").unwrap(),
        m.subscribe_channel("acc", "c1").unwrap(),
        m.subscribe_role("acc", "r1").unwrap(),
        m.subscribe_chat_user("acc", "u1").unwrap(),
        m.subscribe_chat_room("acc", "m1").unwrap(),
        m.subscribe_main("acc").unwrap(),
    ];
    let expected = vec![
        (SubscriptionKind::Timeline, "homeTimeline", None),
        (SubscriptionKind::Timeline, "userList", Some("{\"listId\":\"l1\"}")),
        (SubscriptionKind::Antenna, "antenna", Some("{\"antennaId\":\"a1\"}")),
        (SubscriptionKind::Channel, "channel", Some("{\"channelId\":\"c1\"}")),
        (SubscriptionKind::Role, "roleTimeline", Some("{\"roleId\":\"r1\"}")),
        (SubscriptionKind::Chat, "chatUser", Some("{\"otherId\":\"u1\"}")),
        (SubscriptionKind::Chat, "chatRoom", Some("{\"roomId\":\"m1\"}")),
        (SubscriptionKind::Main, "main", None),
    ];
    for (id, (kind, channel, params)) in ids.iter().zip(expected) {
        let info = m.subscriptions().get(id).unwrap();
        assert_eq!(info.kind, kind);
        assert_eq!(info.channel, channel);
        assert_eq!(info.host, "misskey.io");
        assert_eq!(info.params.as_ref().map(|p| p.render()), params.map(|p| p.to_string()));
    }
    let commands = m.take_commands("acc");
    assert_eq!(commands.len(), 8);
    assert!(matches!(&commands[0], WsCommand::Subscribe { channel, .. } if channel == "homeTimeline"));
    assert!(m.take_commands("acc").is_empty());
    let again = resubscribe_messages(m.subscriptions(), "acc");
    assert_eq!(again.len(), 8);
    assert_eq!(again[2].str_at("type"), Some("connect"));
    assert_eq!(
        again[2].get("body").unwrap(),
        &json(&format!(
            "{{\"channel\":\"antenna\",\"id\":\"{}\",\"params\":{{\"antennaId\":\"a1\"}}}}",
            ids[2]
        ))
    );
    assert!(resubscribe_messages(m.subscriptions(), "other").is_empty());
}

#[test]
fn unsubscribing_drops_one_subscription() {
    let mut m = connected();
    let a = m.subscribe_main("acc").unwrap();
    let b = m.subscribe_main("acc").unwrap();
    m.take_commands("acc");
    m.unsubscribe("acc", &a).unwrap();
    assert!(m.subscriptions().get(&a).is_none());
    assert!(m.subscriptions().get(&b).is_some());
    let commands = m.take_commands("acc");
    assert!(matches!(&commands[..], [WsCommand::Unsubscribe { id }] if *id == a));
}

#[test]
fn disconnecting_drops_what_is_of_the_account() {
    let mut m = connected();
    m.connect("other", "h2", ConnectOutcome::Ready).unwrap();
    m.subscribe_main("acc").unwrap();
    let kept = m.subscribe_main("other").unwrap();
    m.subscribe_antenna("acc", "a").unwrap();
    let stopped = m.disconnect("acc");
    assert_eq!(
        state_of(&stopped.status.unwrap()),
        "stream-status:acc:disconnected"
    );
    let queue = stopped.connection.unwrap().queue;
    assert!(matches!(queue.last(), Some(WsCommand::Shutdown)));
    assert!(!stopped.polling);
    assert_eq!(m.subscriptions().len(), 1);
    assert!(m.subscriptions().get(&kept).is_some());
    assert!(m.get_host("acc").is_err());
}

#[test]
fn modes_keep_subscriptions() {
    let mut m = connected();
    let id = m.subscribe_timeline("acc", TimelineType::new("home"), None).unwrap();
    let change = m
        .set_mode("acc", "misskey.io", "tok", "polling", None)
        .unwrap();
    assert!(change.stopped.connection.is_some());
    assert_eq!(change.poll_interval_ms, Some(15_000));
    assert!(m.subscriptions().get(&id).is_some());
    assert_eq!(m.get_host("acc").unwrap(), "misskey.io");
    let more = m.subscribe_timeline("acc", TimelineType::new("local"), None).unwrap();
    assert!(m.take_commands("acc").is_empty());
    let change = m
        .set_mode("acc", "misskey.io", "tok", "polling", Some(5))
        .unwrap();
    assert!(change.stopped.polling);
    assert_eq!(change.poll_interval_ms, Some(5));
    let change = m
        .set_mode("acc", "misskey.io", "tok", "realtime", None)
        .unwrap();
    assert!(change.stopped.polling);
    assert!(change.stopped.status.is_none());
    assert_eq!(
        change.connect_url.as_deref(),
        Some("wss://misskey.io/streaming?i=tok")
    );
    assert!(m.get_host("acc").is_err());
    assert!(m
        .connect("acc", "misskey.io", ConnectOutcome::TimedOut)
        .is_err());
    assert!(m.get_host("acc").is_err());
    let status = m
        .connect("acc", "misskey.io", ConnectOutcome::Ready)
        .unwrap()
        .unwrap();
    assert_eq!(state_of(&status), "stream-status:acc:connected");
    let again = m
        .set_mode("acc", "misskey.io", "tok", "realtime", None)
        .unwrap();
    assert!(again.connect_url.is_none());
    assert!(!again.stopped.polling);
    assert!(m.subscriptions().get(&more).is_some());
    assert_eq!(
        m.set_mode("acc", "h", "t", "turbo", None)
            .unwrap_err()
            .message(),
        "Invalid input: unknown mode: turbo"
    );
}

#[test]
fn notes_are_captured_while_polling() {
    let mut m = StreamingManager::new();
    m.set_mode("acc", "h", "t", "polling", None)
        .unwrap();
    m.sub_note("acc", "n1").unwrap();
    m.sub_note("acc", "n2").unwrap();
    m.sub_note("acc", "n1").unwrap();
    assert_eq!(m.captured_notes("acc"), vec!["n1", "n2"]);
    m.unsub_note("acc", "n1").unwrap();
    assert_eq!(m.captured_notes("acc"), vec!["n2"]);
    m.unsub_note("nobody", "n1").unwrap();
    assert!(m.captured_notes("nobody").is_empty());
    let mut c = connected();
    c.sub_note("acc", "n9").unwrap();
    assert!(c.captured_notes("acc").is_empty());
    assert!(matches!(&c.take_commands("acc")[..], [WsCommand::SubNote { id }] if id == "n9"));
    c.connection_over("acc");
    assert_eq!(
        c.unsub_note("acc", "n9").unwrap_err().code(),
        "CONNECTION_CLOSED"
    );
}

#[test]
fn captured_notes_are_reported() {
    let m = connected();
    let text = "{\"type\":\"noteUpdated\",\"body\":{\"id\":\"n1\",\"type\":\"reacted\",\"body\":{\"reaction\":\":star:\"}}}";
    let d = handle_ws_message("acc", text, m.subscriptions());
    let e = emissions_for("acc", d, ParsedBody::Nothing);
    assert_eq!(e.len(), 1);
    assert_eq!(e[0].bus_type.as_deref(), Some("note-capture-updated"));
    assert_eq!(e[0].event, "stream-note-capture-updated");
    assert_eq!(
        json(&e[0].payload.to_json(Json::Null).render()),
        json("{\"accountId\":\"acc\",\"noteId\":\"n1\",\"updateType\":\"reacted\",\"body\":{\"reaction\":\":star:\"}}")
    );
}

fn channel(id: &str, kind: &str, body: &str) -> String {
    format!("{{\"type\":\"channel\",\"body\":{{\"id\":\"{id}\",\"type\":\"{kind}\",\"body\":{body}}}}}")
}

#[test]
fn notes_of_channels_are_handed_on() {
    let mut m = connected();
    let id = m.subscribe_timeline("acc", TimelineType::new("home"), None).unwrap();
    let d = handle_ws_message("acc", &channel(&id, "note", "{\"id\":\"n1\"}"), m.subscriptions());
    match &d {
        WsDecision::Note {
            subscription_id,
            host,
            timeline_type,
            body,
        } => {
            assert_eq!(*subscription_id, id);
            assert_eq!(host, "misskey.io");
            assert_eq!(timeline_type, "home");
            assert_eq!(body.str_at("id"), Some("n1"));
        }
        _ => panic!("a note was expected"),
    }
    let e = emissions_for("acc", d, ParsedBody::Note(note("n1")));
    assert_eq!(e[0].bus_type.as_deref(), Some("note"));
    assert_eq!(e[0].event, "stream-note");
    let unread = handle_ws_message("acc", &channel(&id, "note", "{}"), m.subscriptions());
    assert!(emissions_for("acc", unread, ParsedBody::Nothing).is_empty());
    let updated = handle_ws_message(
        "acc",
        &channel(&id, "noteUpdated", "{\"id\":\"n1\",\"type\":\"deleted\"}"),
        m.subscriptions(),
    );
    let e = emissions_for("acc", updated, ParsedBody::Nothing);
    assert_eq!(e[0].event, "stream-note-updated");
    match &e[0].payload {
        Payload::NoteUpdated(u) => {
            assert_eq!(u.note_id, "n1");
            assert_eq!(u.update_type, "deleted");
            assert_eq!(u.body, Json::Null);
        }
        _ => panic!("an update was expected"),
    }
    let other = handle_ws_message("acc", &channel(&id, "stats", "{}"), m.subscriptions());
    assert!(matches!(other, WsDecision::Ignore));
}

#[test]
fn main_and_chat_channels() {
    let mut m = connected();
    let main = m.subscribe_main("acc").unwrap();
    let chat = m.subscribe_chat_user("acc", "u1").unwrap();
    let d = handle_ws_message("acc", &channel(&main, "mention", "{\"id\":\"n1\"}"), m.subscriptions());
    let e = emissions_for("acc", d, ParsedBody::Note(note("n1")));
    assert_eq!(e.len(), 2);
    assert_eq!(e[0].event, "stream-main-event");
    assert!(e[0].bus_type.is_none());
    assert_eq!(e[1].bus_type.as_deref(), Some("mention"));
    let d = handle_ws_message("acc", &channel(&main, "unreadNotification", "{}"), m.subscriptions());
    let e = emissions_for("acc", d, ParsedBody::Nothing);
    assert_eq!(e[0].bus_type.as_deref(), Some("main-unreadNotification"));
    let d = handle_ws_message("acc", &channel(&main, "notification", "{}"), m.subscriptions());
    assert!(matches!(d, WsDecision::Notification { .. }));
    let d = handle_ws_message("acc", &channel(&chat, "message", "{\"text\":\"hi\"}"), m.subscriptions());
    let e = emissions_for(
        "acc",
        d,
        ParsedBody::Chat(ChatMessage {
            body: json("{\"text\":\"hi\"}"),
        }),
    );
    assert_eq!(e[0].event, "stream-chat-message");
    let d = handle_ws_message("acc", &channel(&chat, "deleted", "\"m1\""), m.subscriptions());
    let e = emissions_for("acc", d, ParsedBody::Nothing);
    assert_eq!(e[0].event, "stream-chat-message-deleted");
    let d = handle_ws_message("acc", &channel(&chat, "deleted", "{}"), m.subscriptions());
    assert!(matches!(d, WsDecision::Ignore));
}

#[test]
fn odd_messages_are_ignored() {
    let mut m = connected();
    let id = m.subscribe_main("acc").unwrap();
    let texts = vec![
        "".to_string(),
        "not json".to_string(),
        "{}".to_string(),
        "{\"type\":\"other\",\"body\":{}}".to_string(),
        "{\"type\":\"noteUpdated\"}".to_string(),
        "{\"type\":\"channel\",\"body\":null}".to_string(),
        channel("unknown", "note", "{}"),
        channel(&id, "notification", "null"),
    ];
    for text in texts {
        assert!(matches!(
            handle_ws_message("acc", &text, m.subscriptions()),
            WsDecision::Ignore
        ));
    }
}

#[test]
fn session_turns() {
    let (a, n) = ws_loop(WsInput::Text("x".into()));
    assert!(matches!(a, WsAction::Handle(t) if t == "x"));
    assert_eq!(after_turn(n, true), None);
    let (a, n) = ws_loop(WsInput::Ping(vec![1, 2]));
    assert!(matches!(a, WsAction::SendPong(d) if d == vec![1, 2]));
    assert_eq!(after_turn(n, false), Some(WsExitReason::Disconnected));
    assert_eq!(after_turn(n, true), None);
    let (_, n) = ws_loop(WsInput::Closed);
    assert_eq!(after_turn(n, true), Some(WsExitReason::Disconnected));
    let (a, n) = ws_loop(WsInput::Tick);
    assert!(matches!(a, WsAction::SendPing));
    assert_eq!(n, WsNext::GoOnIfSent);
    let (a, n) = ws_loop(WsInput::Command(None));
    assert!(matches!(a, WsAction::Close));
    assert_eq!(after_turn(n, true), Some(WsExitReason::Shutdown));
    let sent = |cmd: WsCommand| match ws_loop(WsInput::Command(Some(cmd))) {
        (WsAction::SendText(t), WsNext::GoOn) => json(&t),
        _ => panic!("a message was expected"),
    };
    assert_eq!(
        sent(WsCommand::Unsubscribe { id: "s".into() }),
        json("{\"type\":\"disconnect\",\"body\":{\"id\":\"s\"}}")
    );
    assert_eq!(
        sent(WsCommand::SubNote { id: "n".into() }),
        json("{\"type\":\"subNote\",\"body\":{\"id\":\"n\"}}")
    );
    assert_eq!(
        sent(WsCommand::UnsubNote { id: "n".into() }),
        json("{\"type\":\"unsubNote\",\"body\":{\"id\":\"n\"}}")
    );
    assert_eq!(
        sent(WsCommand::Subscribe {
            channel: "main".into(),
            id: "s".into(),
            params: None
        }),
        json("{\"type\":\"connect\",\"body\":{\"channel\":\"main\",\"id\":\"s\"}}")
    );
    assert_eq!(ws_config().max_message_size, 10 * 1024 * 1024);
    assert_eq!(ws_config().max_frame_size, 2 * 1024 * 1024);
}

#[test]
fn reconnecting_backs_off() {
    let mut t = ConnectionTask::new();
    let lost = t.step("acc", TaskEvent::SessionEnded(WsExitReason::Disconnected));
    assert_eq!(lost.action, TaskAction::Wait(1));
    assert_eq!(
        state_of(&lost.status.unwrap()),
        "stream-status:acc:reconnecting"
    );
    let mut waits = Vec::new();
    for _ in 0..7 {
        assert_eq!(t.step("acc", TaskEvent::WaitOver).action, TaskAction::Connect);
        match t.step("acc", TaskEvent::ConnectFailed).action {
            TaskAction::Wait(s) => waits.push(s),
            _ => panic!("a wait was expected"),
        }
    }
    assert_eq!(waits, vec![2, 4, 8, 16, 30, 30, 30]);
    let ignored = t.step(
        "acc",
        TaskEvent::Command(Some(WsCommand::SubNote { id: "n".into() })),
    );
    assert_eq!(ignored.action, TaskAction::Nothing);
    t.step("acc", TaskEvent::WaitOver);
    let up = t.step("acc", TaskEvent::Connected);
    assert_eq!(up.action, TaskAction::RunSession);
    assert_eq!(
        t.step("acc", TaskEvent::SessionEnded(WsExitReason::Disconnected))
            .action,
        TaskAction::Wait(1)
    );
    assert_eq!(
        t.step("acc", TaskEvent::Command(Some(WsCommand::Shutdown)))
            .action,
        TaskAction::Stop
    );
    assert_eq!(t.step("acc", TaskEvent::WaitOver).action, TaskAction::Nothing);
}

#[test]
fn polling_tracks_the_newest_note() {
    let mut m = StreamingManager::new();
    m.set_mode("acc", "h", "t", "polling", None)
        .unwrap();
    let id = m.subscribe_timeline("acc", TimelineType::new("list"), Some("l1".into())).unwrap();
    m.subscribe_main("acc").unwrap();
    let targets = poll_targets(m.subscriptions(), "acc");
    assert_eq!(targets.len(), 1);
    assert_eq!(targets[0].id, id);
    assert_eq!(targets[0].list_id.as_deref(), Some("l1"));
    let mut s = PollState::new();
    let o = s.options_for(&targets[0]);
    assert_eq!(o.limit, 30);
    assert_eq!(o.since_id, None);
    assert_eq!(o.list_id.as_deref(), Some("l1"));
    let e = s.timeline_fetched("acc", &id, Some(vec![note("n3"), note("n2"), note("n1")]));
    let ids: Vec<String> = e
        .iter()
        .map(|e| match &e.payload {
            Payload::Note(n) => n.note.id.clone(),
            _ => panic!("a note was expected"),
        })
        .collect();
    assert_eq!(ids, vec!["n1", "n2", "n3"]);
    assert_eq!(s.options_for(&targets[0]).since_id.as_deref(), Some("n3"));
    assert!(s.timeline_fetched("acc", &id, Some(vec![])).is_empty());
    assert_eq!(s.options_for(&targets[0]).since_id.as_deref(), Some("n3"));
}

#[test]
fn failed_polls_back_off() {
    let mut s = PollState::new();
    assert_eq!(s.end_cycle("acc", 15_000).0, 15_000);
    let mut waits = Vec::new();
    for _ in 0..12 {
        assert!(s.timeline_fetched("acc", "s", None).is_empty());
        let (ms, e) = s.end_cycle("acc", 15_000);
        assert_eq!(state_of(&e.unwrap()), "stream-status:acc:reconnecting");
        waits.push(ms / 1000);
    }
    assert_eq!(waits, vec![2, 4, 8, 16, 32, 32, 32, 32, 32, 32, 60, 60]);
    s.timeline_fetched("acc", "s", None);
    s.timeline_fetched("acc", "r", Some(vec![]));
    assert_eq!(s.end_cycle("acc", 15_000).0, 2000);
}

#[test]
fn captured_notes_are_polled_every_second_cycle() {
    let mut s = PollState::new();
    assert!(!s.captures_due());
    assert!(s.captures_due());
    assert!(!s.captures_due());
    let ids: Vec<String> = (0..17).map(|i| format!("n{i}")).collect();
    let cut = batches(&ids);
    let sizes: Vec<usize> = cut.iter().map(|b| b.len()).collect();
    assert_eq!(sizes, vec![8, 8, 1]);
    assert_eq!(cut.concat(), ids);
    assert!(batches(&Vec::new()).is_empty());
}

fn capture(e: &Emission) -> (String, String, bool) {
    match &e.payload {
        Payload::NoteCapture(c) => (
            c.update_type.clone(),
            c.body.str_at("reaction").unwrap().to_string(),
            c.body.get("emoji").is_some(),
        ),
        _ => panic!("a capture was expected"),
    }
}

#[test]
fn reactions_are_compared() {
    let mut s = PollState::new();
    let first = s.note_fetched("acc", "n1", vec![(":a:".into(), 1), (":b:".into(), 2)]);
    assert_eq!(first.len(), 2);
    assert_eq!(capture(&first[0]), ("reacted".into(), ":a:".into(), true));
    assert!(s
        .note_fetched("acc", "n1", vec![(":a:".into(), 1), (":b:".into(), 2)])
        .is_empty());
    let next = s.note_fetched("acc", "n1", vec![(":b:".into(), 3), (":c:".into(), 1)]);
    let got: Vec<(String, String, bool)> = next.iter().map(capture).collect();
    assert_eq!(
        got,
        vec![
            ("reacted".to_string(), ":b:".to_string(), true),
            ("reacted".to_string(), ":c:".to_string(), true),
            ("unreacted".to_string(), ":a:".to_string(), false),
        ]
    );
    let fewer = diff_reactions("acc", "n1", &vec![(":a:".into(), 5)], &vec![(":a:".into(), 4)]);
    assert!(fewer.is_empty());
}

#[test]
fn events_are_delivered() {
    let mut bus = EventBus::new();
    let mut front = EventBusEmitter::new(EventBus::new());
    let e = status("acc", "connected");
    let data = e.payload.to_json(Json::Null);
    deliver(&mut front, &mut bus, &e, data);
    assert!(bus.pending.is_empty());
    assert_eq!(front.event_bus.pending[0].event_type, "stream-status");
    assert_eq!(
        front.event_bus.pending[0].data,
        json("{\"accountId\":\"acc\",\"state\":\"connected\"}")
    );
    let both = Emission {
        bus_type: Some("note".into()),
        event: "stream-note".into(),
        payload: e.payload,
    };
    deliver(&mut NoopEmitter, &mut bus, &both, Json::Int(1));
    assert_eq!(bus.pending[0].event_type, "note");
    NoopEmitter.emit("x", Json::Null);
    bus.send(SseEvent {
        event_type: "y".into(),
        data: Json::Null,
    });
    assert_eq!(bus.pending.len(), 2);
}
