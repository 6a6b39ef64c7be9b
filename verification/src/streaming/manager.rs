//! The connections and subscriptions of all accounts.
use vstd::prelude::*;

use crate::error::NoteDeckError;
use crate::ids;
use crate::models;
use crate::models::TimelineType;
use crate::json;
use crate::json::{Json, JsonV};
use crate::streaming::events;
use crate::streaming::events::Emission;
use crate::streaming::session;
use crate::streaming::subscription;
use crate::streaming::subscription::{
    SubscriptionInfo, SubscriptionKind, SubscriptionV, WsCommand, WsCommandV,
};
use crate::table;
use crate::table::Table;
use crate::text;

verus! {

/// The time between two polls where none is given, in milliseconds.
pub const DEFAULT_POLL_INTERVAL_MS: u64 = 15_000;

/// The end of a connection at which commands are handed in. A command that has
/// been handed in waits in `queue` until the task of the connection takes it;
/// once that task is over, the connection is `closed` and takes no more.
#[derive(Debug)]
pub struct ConnectionHandle {
    pub host: String,
    pub queue: Vec<WsCommand>,
    pub closed: bool,
}

/// The mathematical value of a [`ConnectionHandle`].
pub struct ConnectionV {
    pub host: Seq<char>,
    pub queue: Seq<WsCommandV>,
    pub closed: bool,
}

impl ConnectionV {
    /// The connection once a command has been handed in.
    pub open spec fn told(self, cmd: WsCommandV) -> ConnectionV {
        if self.closed {
            self
        } else {
            ConnectionV { queue: self.queue.push(cmd), ..self }
        }
    }
}

impl ConnectionHandle {
    pub open spec fn view(&self) -> ConnectionV {
        ConnectionV {
            host: self.host@,
            queue: subscription::commands_view(self.queue@),
            closed: self.closed,
        }
    }

    /// Hands in a command. Fails if and only if the connection is closed.
    pub fn send(&mut self, cmd: WsCommand) -> (r: Result<(), NoteDeckError>)
        ensures
            final(self)@ == old(self)@.told(cmd@),
            match r {
                Ok(_) => !old(self)@.closed,
                Err(e) => old(self)@.closed && e is ConnectionClosed,
            },
    {
        if self.closed {
            return Err(NoteDeckError::ConnectionClosed);
        }
        let ghost before = self.queue@;
        self.queue.push(cmd);
        proof {
            assert(subscription::commands_view(self.queue@) =~= subscription::commands_view(
                before,
            ).push(cmd@));
        }
        Ok(())
    }
}

/// An account whose notes are polled.
#[derive(Debug)]
pub struct PollingHandle {
    pub host: String,
    pub token: String,
}

/// The mathematical value of a [`PollingHandle`].
pub struct PollV {
    pub host: Seq<char>,
    pub token: Seq<char>,
}

impl PollingHandle {
    pub open spec fn view(&self) -> PollV {
        PollV { host: self.host@, token: self.token@ }
    }
}

/// The connections by account.
pub open spec fn connections_view(m: Map<Seq<char>, ConnectionHandle>) -> Map<
    Seq<char>,
    ConnectionV,
> {
    m.map_values(|c: ConnectionHandle| c@)
}

/// The polled accounts.
pub open spec fn polls_view(m: Map<Seq<char>, PollingHandle>) -> Map<Seq<char>, PollV> {
    m.map_values(|p: PollingHandle| p@)
}

/// The captured notes by account.
pub open spec fn captured_view(m: Map<Seq<char>, Table<()>>) -> Map<Seq<char>, Set<Seq<char>>> {
    m.map_values(|t: Table<()>| t@.dom())
}

/// How an attempt to connect ended.
#[derive(Debug)]
pub enum ConnectOutcome {
    Ready,
    TimedOut,
    Failed(String),
}

/// What was stopped on a request, and what the frontend is told of it. The
/// commands that were left to a connection are handed on with it.
#[derive(Debug)]
pub struct Stopped {
    pub connection: Option<ConnectionHandle>,
    pub polling: bool,
    pub status: Option<Emission>,
}

/// What a change of mode leads to, once what was stopped is stopped. Where
/// `connect_url` is given the account is to be connected to it, and how that
/// ends is to be handed to [`StreamingManager::connect`]. Where
/// `poll_interval_ms` is given polling is to start. The frontend is told the
/// status after that.
#[derive(Debug)]
pub struct ModeChange {
    pub stopped: Stopped,
    pub connect_url: Option<String>,
    pub poll_interval_ms: Option<u64>,
}

/// The connections and subscriptions of all accounts. An account is connected,
/// or polled, or neither; its subscriptions stay when it changes between them.
#[derive(Debug)]
pub struct StreamingManager {
    connections: Table<ConnectionHandle>,
    poll_connections: Table<PollingHandle>,
    subscriptions: Table<SubscriptionInfo>,
    captured_notes: Table<Table<()>>,
}

/// The mathematical value of a [`StreamingManager`].
#[verifier::ext_equal]
pub struct ManagerV {
    pub connections: Map<Seq<char>, ConnectionV>,
    pub polls: Map<Seq<char>, PollV>,
    pub subscriptions: Map<Seq<char>, SubscriptionV>,
    pub captured: Map<Seq<char>, Set<Seq<char>>>,
}

impl ManagerV {
    /// The server of an account: that of its connection, or else the one it is
    /// polled from.
    pub open spec fn host_of(self, account_id: Seq<char>) -> Option<Seq<char>> {
        if self.connections.contains_key(account_id) {
            Some(self.connections[account_id].host)
        } else if self.polls.contains_key(account_id) {
            Some(self.polls[account_id].host)
        } else {
            None
        }
    }

    /// The state once a command has been handed to the connection of an
    /// account, where there is one.
    pub open spec fn told(self, account_id: Seq<char>, cmd: WsCommandV) -> ManagerV {
        if self.connections.contains_key(account_id) {
            ManagerV {
                connections: self.connections.insert(
                    account_id,
                    self.connections[account_id].told(cmd),
                ),
                ..self
            }
        } else {
            self
        }
    }

    /// The address to connect an account to, if it is not connected yet.
    pub open spec fn connects_to(
        self,
        account_id: Seq<char>,
        host: Seq<char>,
        token: Seq<char>,
    ) -> Option<Seq<char>> {
        if self.connections.contains_key(account_id) {
            None
        } else {
            Some(streaming_url(host, token))
        }
    }

    /// Whether the account has a connection that is closed.
    pub open spec fn is_closed(self, account_id: Seq<char>) -> bool {
        self.connections.contains_key(account_id) && self.connections[account_id].closed
    }

    /// The state once a subscription has been added.
    pub open spec fn subscribed(
        self,
        account_id: Seq<char>,
        sub_id: Seq<char>,
        kind: SubscriptionKind,
        channel: Seq<char>,
        timeline_type: Seq<char>,
        params: Option<JsonV>,
    ) -> ManagerV {
        let told = self.told(account_id, WsCommandV::Subscribe { channel, id: sub_id, params });
        ManagerV {
            subscriptions: told.subscriptions.insert(
                sub_id,
                SubscriptionV {
                    account_id,
                    host: self.host_of(account_id)->0,
                    kind,
                    channel,
                    timeline_type,
                    params,
                },
            ),
            ..told
        }
    }

    /// The subscriptions of the other accounts.
    pub open spec fn subscriptions_of_others(self, account_id: Seq<char>) -> Map<
        Seq<char>,
        SubscriptionV,
    > {
        Map::new(
            |id: Seq<char>|
                self.subscriptions.contains_key(id) && self.subscriptions[id].account_id
                    != account_id,
            |id: Seq<char>| self.subscriptions[id],
        )
    }

    /// The state once everything of an account has been stopped.
    pub open spec fn disconnected(self, account_id: Seq<char>) -> ManagerV {
        ManagerV {
            connections: self.connections.remove(account_id),
            polls: self.polls.remove(account_id),
            subscriptions: self.subscriptions_of_others(account_id),
            ..self
        }
    }

    /// The state once a subscription has been dropped.
    pub open spec fn unsubscribed(self, account_id: Seq<char>, sub_id: Seq<char>) -> ManagerV {
        ManagerV {
            subscriptions: self.subscriptions.remove(sub_id),
            ..self.told(account_id, WsCommandV::Unsubscribe { id: sub_id })
        }
    }

    /// The state once the changes of a note are wanted: the connection is told,
    /// where there is one, and else the note is captured.
    pub open spec fn with_note(self, account_id: Seq<char>, note_id: Seq<char>) -> ManagerV {
        if self.connections.contains_key(account_id) {
            self.told(account_id, WsCommandV::SubNote { id: note_id })
        } else {
            ManagerV {
                captured: self.captured.insert(
                    account_id,
                    self.captured_of(account_id).insert(note_id),
                ),
                ..self
            }
        }
    }

    /// The state once they are wanted no more.
    pub open spec fn without_note(self, account_id: Seq<char>, note_id: Seq<char>) -> ManagerV {
        if self.connections.contains_key(account_id) {
            self.told(account_id, WsCommandV::UnsubNote { id: note_id })
        } else if self.captured.contains_key(account_id) {
            ManagerV {
                captured: self.captured.insert(
                    account_id,
                    self.captured_of(account_id).remove(note_id),
                ),
                ..self
            }
        } else {
            self
        }
    }

    /// The commands that wait at the connection of an account.
    pub open spec fn waiting(self, account_id: Seq<char>) -> Seq<WsCommandV> {
        if self.connections.contains_key(account_id) {
            self.connections[account_id].queue
        } else {
            Seq::empty()
        }
    }

    /// The state once they have been taken.
    pub open spec fn commands_taken(self, account_id: Seq<char>) -> ManagerV {
        if self.connections.contains_key(account_id) {
            ManagerV {
                connections: self.connections.insert(
                    account_id,
                    ConnectionV { queue: Seq::empty(), ..self.connections[account_id] },
                ),
                ..self
            }
        } else {
            self
        }
    }

    /// The state once the task of the connection of an account is over.
    pub open spec fn task_over(self, account_id: Seq<char>) -> ManagerV {
        if self.connections.contains_key(account_id) {
            ManagerV {
                connections: self.connections.insert(
                    account_id,
                    ConnectionV { closed: true, ..self.connections[account_id] },
                ),
                ..self
            }
        } else {
            self
        }
    }

    /// The notes of an account that are captured while it is polled.
    pub open spec fn captured_of(self, account_id: Seq<char>) -> Set<Seq<char>> {
        if self.captured.contains_key(account_id) {
            self.captured[account_id]
        } else {
            Set::empty()
        }
    }
}

/// What a subscription request is answered: `Ok` if and only if the account is
/// connected and the connection is open, or it is polled.
pub open spec fn subscribe_answer(
    m: ManagerV,
    account_id: Seq<char>,
    r: Result<String, NoteDeckError>,
) -> bool {
    match r {
        Ok(_) => m.host_of(account_id) is Some && !m.is_closed(account_id),
        Err(NoteDeckError::NoConnection(id)) => m.host_of(account_id) is None && id@ == account_id,
        Err(NoteDeckError::ConnectionClosed) => m.is_closed(account_id),
        Err(_) => false,
    }
}

/// The answer to a subscription request, and what becomes of the state: it
/// changes only where the request succeeds.
pub open spec fn subscribe_outcome(
    before: ManagerV,
    after: ManagerV,
    account_id: Seq<char>,
    kind: SubscriptionKind,
    channel: Seq<char>,
    timeline_type: Seq<char>,
    params: Option<JsonV>,
    r: Result<String, NoteDeckError>,
) -> bool {
    &&& subscribe_answer(before, account_id, r)
    &&& match r {
        Ok(id) => after == before.subscribed(
            account_id,
            id@,
            kind,
            channel,
            timeline_type,
            params,
        ),
        Err(_) => after == before,
    }
}

/// The parameters of a channel that is about one thing.
pub open spec fn one_param(name: Seq<char>, value: Seq<char>) -> JsonV {
    json::empty_object().with(name, JsonV::Str(value))
}

/// The parameters of a timeline: the list it is of, where it is of one.
pub open spec fn list_params(list_id: Option<Seq<char>>) -> Option<JsonV> {
    match list_id {
        Some(id) => Some(one_param("listId"@, id)),
        None => None,
    }
}

/// What somebody wants to subscribe to.
pub struct WishV {
    pub kind: SubscriptionKind,
    pub channel: Seq<char>,
    pub timeline_type: Seq<char>,
    pub params: Option<JsonV>,
}

/// The answer to a wish, and what becomes of the state.
pub open spec fn answers(
    before: ManagerV,
    after: ManagerV,
    account_id: Seq<char>,
    wish: WishV,
    r: Result<String, NoteDeckError>,
) -> bool {
    subscribe_outcome(
        before,
        after,
        account_id,
        wish.kind,
        wish.channel,
        wish.timeline_type,
        wish.params,
        r,
    )
}

/// A timeline, of a list where one is given.
pub open spec fn timeline_wish(name: Seq<char>, list_id: Option<Seq<char>>) -> WishV {
    WishV {
        kind: SubscriptionKind::Timeline,
        channel: models::timeline_channel(name),
        timeline_type: name,
        params: list_params(list_id),
    }
}

/// A channel about one thing.
pub open spec fn one_thing(
    kind: SubscriptionKind,
    channel: Seq<char>,
    name: Seq<char>,
    value: Seq<char>,
) -> WishV {
    WishV { kind, channel, timeline_type: ""@, params: Some(one_param(name, value)) }
}

/// The notes of an antenna.
pub open spec fn antenna_wish(antenna_id: Seq<char>) -> WishV {
    one_thing(SubscriptionKind::Antenna, "antenna"@, "antennaId"@, antenna_id)
}

/// The notes of a channel.
pub open spec fn channel_wish(channel_id: Seq<char>) -> WishV {
    one_thing(SubscriptionKind::Channel, "channel"@, "channelId"@, channel_id)
}

/// The notes of the users with a role.
pub open spec fn role_wish(role_id: Seq<char>) -> WishV {
    one_thing(SubscriptionKind::Role, "roleTimeline"@, "roleId"@, role_id)
}

/// The chat with a user.
pub open spec fn chat_user_wish(other_id: Seq<char>) -> WishV {
    one_thing(SubscriptionKind::Chat, "chatUser"@, "otherId"@, other_id)
}

/// The chat in a room.
pub open spec fn chat_room_wish(room_id: Seq<char>) -> WishV {
    one_thing(SubscriptionKind::Chat, "chatRoom"@, "roomId"@, room_id)
}

/// What concerns the user of an account.
pub open spec fn main_wish() -> WishV {
    WishV { kind: SubscriptionKind::Main, channel: "main"@, timeline_type: ""@, params: None }
}

/// The address at which an account is streamed.
pub open spec fn streaming_url(host: Seq<char>, token: Seq<char>) -> Seq<char> {
    "wss://"@ + host + "/streaming?i="@ + token
}

fn param(name: &str, value: &str) -> (r: Option<Json>)
    ensures
        json::opt_json(r) == Some(one_param(name@, value@)),
{
    let mut o = Json::object();
    o.set_str(name, value);
    Some(o)
}

fn drop_subscriptions(subs: &mut Table<SubscriptionInfo>, account_id: &str)
    requires
        old(subs).wf(),
    ensures
        final(subs).wf(),
        forall|id: Seq<char>| #[trigger]
            final(subs)@.contains_key(id) <==> old(subs)@.contains_key(id)
                && old(subs)@[id].account_id@ != account_id@,
        forall|id: Seq<char>| #[trigger]
            final(subs)@.contains_key(id) ==> final(subs)@[id] == old(subs)@[id],
{
    let mut i: usize = 0;
    let ghost start = subs@;
    while i < subs.len()
        invariant
            subs.wf(),
            0 <= i <= subs.order().len(),
            forall|j: int|
                0 <= j < i ==> (#[trigger] subs.order()[j]).1.account_id@ != account_id@,
            forall|id: Seq<char>| #[trigger]
                subs@.contains_key(id) ==> start.contains_key(id) && subs@[id] == start[id],
            forall|id: Seq<char>| #[trigger]
                start.contains_key(id) && !subs@.contains_key(id) ==> start[id].account_id@
                    == account_id@,
        decreases subs.order().len() - i,
    {
        proof {
            subs.lemma_order();
        }
        if text::same(subs.value_at(i).account_id.as_str(), account_id) {
            let ghost order = subs.order();
            subs.remove_at(i);
            proof {
                assert forall|j: int| 0 <= j < i implies (#[trigger] subs.order()[j]).1.account_id@
                    != account_id@ by {
                    assert(order[j].1.account_id@ != account_id@);
                }
            }
        } else {
            i += 1;
        }
    }
    proof {
        subs.lemma_order();
    }
}

impl StreamingManager {
    /// The state that the manager is in.
    pub closed spec fn view(&self) -> ManagerV {
        ManagerV {
            connections: connections_view(self.connections@),
            polls: polls_view(self.poll_connections@),
            subscriptions: subscription::subs_view(self.subscriptions@),
            captured: captured_view(self.captured_notes@),
        }
    }

    /// Each account and each subscription occurs once.
    pub closed spec fn wf(&self) -> bool {
        &&& self.connections.wf()
        &&& self.poll_connections.wf()
        &&& self.subscriptions.wf()
        &&& self.captured_notes.wf()
        &&& forall|id: Seq<char>| #[trigger]
            self.captured_notes@.contains_key(id) ==> self.captured_notes@[id].wf()
    }

    /// A manager without connections and subscriptions.
    pub fn new() -> (r: Self)
        ensures
            r.wf(),
            r@ == (ManagerV {
                connections: Map::empty(),
                polls: Map::empty(),
                subscriptions: Map::empty(),
                captured: Map::empty(),
            }),
    {
        let r = StreamingManager {
            connections: Table::new(),
            poll_connections: Table::new(),
            subscriptions: Table::new(),
            captured_notes: Table::new(),
        };
        proof {
            assert(r@ =~= ManagerV {
                connections: Map::empty(),
                polls: Map::empty(),
                subscriptions: Map::empty(),
                captured: Map::empty(),
            });
        }
        r
    }

    /// The subscriptions by their ids.
    pub fn subscriptions(&self) -> (r: &Table<SubscriptionInfo>)
        requires
            self.wf(),
        ensures
            r.wf(),
            subscription::subs_view(r@) == self@.subscriptions,
    {
        &self.subscriptions
    }

    /// The address to connect an account to, if it is not connected yet.
    pub fn connect_url(&self, account_id: &str, host: &str, token: &str) -> (r: Option<String>)
        requires
            self.wf(),
        ensures
            text::opt_text(r) == self@.connects_to(account_id@, host@, token@),
    {
        if self.connections.contains_key(account_id) {
            return None;
        }
        let mut url = "wss://".to_owned();
        url.append(host);
        url.append("/streaming?i=");
        url.append(token);
        Some(url)
    }

    /// Takes in how the attempt to connect an account ended. An account that is
    /// connected already stays as it is, whatever the outcome.
    pub fn connect(&mut self, account_id: &str, host: &str, outcome: ConnectOutcome) -> (r: Result<
        Option<Emission>,
        NoteDeckError,
    >)
        requires
            old(self).wf(),
        ensures
            final(self).wf(),
            connect_outcome(old(self)@, final(self)@, account_id@, host@, outcome, r),
    {
        if self.connections.contains_key(account_id) {
            return Ok(None);
        }
        match outcome {
            ConnectOutcome::TimedOut => {
                return Err(NoteDeckError::WebSocket("Connection timeout".to_owned()));
            },
            ConnectOutcome::Failed(why) => {
                return Err(NoteDeckError::WebSocket(why));
            },
            ConnectOutcome::Ready => {},
        }
        let handle = ConnectionHandle {
            host: host.to_owned(),
            queue: Vec::new(),
            closed: false,
        };
        proof {
            assert(subscription::commands_view(handle.queue@) =~= Seq::empty());
            table::lemma_mapped(
                self.connections@,
                |c: ConnectionHandle| c@,
                account_id@,
                handle,
            );
        }
        self.connections.insert(account_id, handle);
        Ok(Some(events::status(account_id, "connected")))
    }

    fn stop_connection(&mut self, account_id: &str) -> (r: Option<ConnectionHandle>)
        requires
            old(self).wf(),
        ensures
            final(self).wf(),
            final(self)@ == (ManagerV {
                connections: old(self)@.connections.remove(account_id@),
                ..old(self)@
            }),
            match r {
                Some(c) => old(self)@.connections.contains_key(account_id@) && c@
                    == old(self)@.connections[account_id@].told(WsCommandV::Shutdown),
                None => !old(self)@.connections.contains_key(account_id@),
            },
    {
        let removed = self.connections.remove(account_id);
        proof {
            assert(connections_view(self.connections@) =~= old(self)@.connections.remove(
                account_id@,
            ));
        }
        match removed {
            Some(mut handle) => {
                let _ = handle.send(WsCommand::Shutdown);
                Some(handle)
            },
            None => None,
        }
    }

    fn stop_polling(&mut self, account_id: &str) -> (r: bool)
        requires
            old(self).wf(),
        ensures
            final(self).wf(),
            final(self)@ == (ManagerV {
                polls: old(self)@.polls.remove(account_id@),
                ..old(self)@
            }),
            r == old(self)@.polls.contains_key(account_id@),
    {
        let removed = self.poll_connections.remove(account_id);
        proof {
            assert(polls_view(self.poll_connections@) =~= old(self)@.polls.remove(account_id@));
        }
        removed.is_some()
    }

    /// Stops everything of an account and forgets its subscriptions.
    pub fn disconnect(&mut self, account_id: &str) -> (r: Stopped)
        requires
            old(self).wf(),
        ensures
            final(self).wf(),
            final(self)@ == old(self)@.disconnected(account_id@),
            stopped_all(old(self)@, account_id@, r),
    {
        let connection = self.stop_connection(account_id);
        let polling = self.stop_polling(account_id);
        drop_subscriptions(&mut self.subscriptions, account_id);
        proof {
            assert(self@.subscriptions =~= old(self)@.subscriptions_of_others(account_id@));
        }
        Stopped {
            connection,
            polling,
            status: Some(events::status(account_id, "disconnected")),
        }
    }

    /// Changes an account between streaming (`realtime`) and polling
    /// (`polling`). Its subscriptions stay.
    pub fn set_mode(
        &mut self,
        account_id: &str,
        host: &str,
        token: &str,
        mode: &str,
        interval_ms: Option<u64>,
    ) -> (r: Result<ModeChange, NoteDeckError>)
        requires
            old(self).wf(),
        ensures
            final(self).wf(),
            mode_outcome(
                old(self)@,
                final(self)@,
                account_id@,
                host@,
                token@,
                mode@,
                interval_ms,
                r,
            ),
    {
        if text::same(mode, "realtime") {
            let polling = self.stop_polling(account_id);
            let connect_url = self.connect_url(account_id, host, token);
            Ok(
                ModeChange {
                    stopped: Stopped { connection: None, polling, status: None },
                    connect_url,
                    poll_interval_ms: None,
                },
            )
        } else if text::same(mode, "polling") {
            let connection = self.stop_connection(account_id);
            let polling = self.start_polling(account_id, host, token);
            let interval: u64 = match interval_ms {
                Some(ms) => ms,
                None => DEFAULT_POLL_INTERVAL_MS,
            };
            Ok(
                ModeChange {
                    stopped: Stopped {
                        connection,
                        polling,
                        status: Some(events::status(account_id, "connected")),
                    },
                    connect_url: None,
                    poll_interval_ms: Some(interval),
                },
            )
        } else {
            let mut why = "unknown mode: ".to_owned();
            why.append(mode);
            Err(NoteDeckError::InvalidInput(why))
        }
    }

    /// Polls an account from now on; tells whether it was polled before.
    fn start_polling(&mut self, account_id: &str, host: &str, token: &str) -> (r: bool)
        requires
            old(self).wf(),
        ensures
            final(self).wf(),
            final(self)@ == (ManagerV {
                polls: old(self)@.polls.insert(account_id@, PollV { host: host@, token: token@ }),
                ..old(self)@
            }),
            r == old(self)@.polls.contains_key(account_id@),
    {
        let before = self.stop_polling(account_id);
        let handle = PollingHandle { host: host.to_owned(), token: token.to_owned() };
        let ghost stopped = self@.polls;
        self.poll_connections.insert(account_id, handle);
        proof {
            assert(polls_view(self.poll_connections@) =~= stopped.insert(account_id@, handle@));
            assert(stopped.insert(account_id@, handle@) =~= old(self)@.polls.insert(
                account_id@,
                handle@,
            ));
        }
        before
    }

    /// The server of an account that is connected or polled.
    pub fn get_host(&self, account_id: &str) -> (r: Result<String, NoteDeckError>)
        requires
            self.wf(),
        ensures
            match r {
                Ok(host) => self@.host_of(account_id@) == Some(host@),
                Err(NoteDeckError::NoConnection(id)) => self@.host_of(account_id@) is None && id@
                    == account_id@,
                Err(_) => false,
            },
    {
        match self.connections.get(account_id) {
            Some(handle) => {
                return Ok(handle.host.clone());
            },
            None => {},
        }
        match self.poll_connections.get(account_id) {
            Some(handle) => Ok(handle.host.clone()),
            None => Err(NoteDeckError::NoConnection(account_id.to_owned())),
        }
    }

    /// Hands a command to the connection of an account; `None` where it has
    /// none.
    fn tell(&mut self, account_id: &str, cmd: WsCommand) -> (r: Option<Result<(), NoteDeckError>>)
        requires
            old(self).wf(),
        ensures
            final(self).wf(),
            final(self)@ == old(self)@.told(account_id@, cmd@),
            match r {
                Some(Ok(_)) => old(self)@.connections.contains_key(account_id@)
                    && !old(self)@.is_closed(account_id@),
                Some(Err(e)) => old(self)@.is_closed(account_id@) && e is ConnectionClosed,
                None => !old(self)@.connections.contains_key(account_id@),
            },
    {
        match self.connections.remove(account_id) {
            Some(mut handle) => {
                let sent = handle.send(cmd);
                self.connections.insert(account_id, handle);
                proof {
                    assert(connections_view(self.connections@) =~= old(self)@.connections.insert(
                        account_id@,
                        handle@,
                    ));
                }
                Some(sent)
            },
            None => {
                proof {
                    assert(self.connections@ =~= old(self).connections@);
                    assert(connections_view(self.connections@) == connections_view(
                        old(self).connections@,
                    ));
                }
                None
            },
        }
    }

    fn send_subscribe(
        &mut self,
        account_id: &str,
        channel: &str,
        sub_id: &str,
        params: Option<Json>,
    ) -> (r: Result<(), NoteDeckError>)
        requires
            old(self).wf(),
        ensures
            final(self).wf(),
            final(self)@ == old(self)@.told(
                account_id@,
                WsCommandV::Subscribe { channel: channel@, id: sub_id@, params: json::opt_json(params) },
            ),
            match r {
                Ok(_) => old(self)@.host_of(account_id@) is Some && !old(self)@.is_closed(account_id@),
                Err(NoteDeckError::NoConnection(id)) => old(self)@.host_of(account_id@) is None && id@
                    == account_id@,
                Err(NoteDeckError::ConnectionClosed) => old(self)@.is_closed(account_id@),
                Err(_) => false,
            },
    {
        let cmd = WsCommand::Subscribe {
            channel: channel.to_owned(),
            id: sub_id.to_owned(),
            params,
        };
        match self.tell(account_id, cmd) {
            Some(sent) => {
                return sent;
            },
            None => {},
        }
        if self.poll_connections.contains_key(account_id) {
            return Ok(());
        }
        Err(NoteDeckError::NoConnection(account_id.to_owned()))
    }

    /// Adds a subscription under an id.
    pub fn subscribe_as(
        &mut self,
        account_id: &str,
        sub_id: String,
        kind: SubscriptionKind,
        channel: &str,
        timeline_type: &str,
        params: Option<Json>,
    ) -> (r: Result<String, NoteDeckError>)
        requires
            old(self).wf(),
        ensures
            final(self).wf(),
            subscribe_outcome(
                old(self)@,
                final(self)@,
                account_id@,
                kind,
                channel@,
                timeline_type@,
                json::opt_json(params),
                r,
            ),
            r matches Ok(id) ==> id@ == sub_id@,
    {
        let host = match self.get_host(account_id) {
            Ok(host) => host,
            Err(e) => {
                return Err(e);
            },
        };
        let sent = self.send_subscribe(
            account_id,
            channel,
            sub_id.as_str(),
            subscription::copy_opt_json(&params),
        );
        match sent {
            Ok(_) => {},
            Err(e) => {
                proof {
                    let c = old(self)@.connections;
                    assert(c.insert(account_id@, c[account_id@]) =~= c);
                }
                return Err(e);
            },
        }
        let info = SubscriptionInfo {
            account_id: account_id.to_owned(),
            host,
            kind,
            channel: channel.to_owned(),
            timeline_type: timeline_type.to_owned(),
            params,
        };
        let ghost told = self@;
        self.subscriptions.insert(sub_id.as_str(), info);
        proof {
            assert(subscription::subs_view(self.subscriptions@) =~= told.subscriptions.insert(
                sub_id@,
                info@,
            ));
        }
        Ok(sub_id)
    }

    /// Subscribes to a timeline; `list_id` is the list it is of, where it is of
    /// one.
    pub fn subscribe_timeline(
        &mut self,
        account_id: &str,
        timeline_type: TimelineType,
        list_id: Option<String>,
    ) -> (r: Result<String, NoteDeckError>)
        requires
            old(self).wf(),
        ensures
            final(self).wf(),
            answers(
                old(self)@,
                final(self)@,
                account_id@,
                timeline_wish(timeline_type.name@, text::opt_text(list_id)),
                r,
            ),
            r matches Ok(id) ==> ids::is_random_uuid(id@),
    {
        let params = match list_id {
            Some(id) => param("listId", id.as_str()),
            None => None,
        };
        self.subscribe_as(
            account_id,
            ids::new_id(),
            SubscriptionKind::Timeline,
            timeline_type.ws_channel().as_str(),
            timeline_type.as_str(),
            params,
        )
    }

    /// Subscribes to the notes of an antenna.
    pub fn subscribe_antenna(&mut self, account_id: &str, antenna_id: &str) -> (r: Result<
        String,
        NoteDeckError,
    >)
        requires
            old(self).wf(),
        ensures
            final(self).wf(),
            answers(old(self)@, final(self)@, account_id@, antenna_wish(antenna_id@), r),
            r matches Ok(id) ==> ids::is_random_uuid(id@),
    {
        let params = param("antennaId", antenna_id);
        self.subscribe_as(
            account_id,
            ids::new_id(),
            SubscriptionKind::Antenna,
            "antenna",
            "",
            params,
        )
    }

    /// Subscribes to the notes of a channel.
    pub fn subscribe_channel(&mut self, account_id: &str, channel_id: &str) -> (r: Result<
        String,
        NoteDeckError,
    >)
        requires
            old(self).wf(),
        ensures
            final(self).wf(),
            answers(old(self)@, final(self)@, account_id@, channel_wish(channel_id@), r),
            r matches Ok(id) ==> ids::is_random_uuid(id@),
    {
        let params = param("channelId", channel_id);
        self.subscribe_as(
            account_id,
            ids::new_id(),
            SubscriptionKind::Channel,
            "channel",
            "",
            params,
        )
    }

    /// Subscribes to the notes of the users with a role.
    pub fn subscribe_role(&mut self, account_id: &str, role_id: &str) -> (r: Result<
        String,
        NoteDeckError,
    >)
        requires
            old(self).wf(),
        ensures
            final(self).wf(),
            answers(old(self)@, final(self)@, account_id@, role_wish(role_id@), r),
            r matches Ok(id) ==> ids::is_random_uuid(id@),
    {
        let params = param("roleId", role_id);
        self.subscribe_as(
            account_id,
            ids::new_id(),
            SubscriptionKind::Role,
            "roleTimeline",
            "",
            params,
        )
    }

    /// Subscribes to the chat with a user.
    pub fn subscribe_chat_user(&mut self, account_id: &str, other_id: &str) -> (r: Result<
        String,
        NoteDeckError,
    >)
        requires
            old(self).wf(),
        ensures
            final(self).wf(),
            answers(old(self)@, final(self)@, account_id@, chat_user_wish(other_id@), r),
            r matches Ok(id) ==> ids::is_random_uuid(id@),
    {
        let params = param("otherId", other_id);
        self.subscribe_as(
            account_id,
            ids::new_id(),
            SubscriptionKind::Chat,
            "chatUser",
            "",
            params,
        )
    }

    /// Subscribes to the chat in a room.
    pub fn subscribe_chat_room(&mut self, account_id: &str, room_id: &str) -> (r: Result<
        String,
        NoteDeckError,
    >)
        requires
            old(self).wf(),
        ensures
            final(self).wf(),
            answers(old(self)@, final(self)@, account_id@, chat_room_wish(room_id@), r),
            r matches Ok(id) ==> ids::is_random_uuid(id@),
    {
        let params = param("roomId", room_id);
        self.subscribe_as(
            account_id,
            ids::new_id(),
            SubscriptionKind::Chat,
            "chatRoom",
            "",
            params,
        )
    }

    /// Subscribes to what concerns the user of an account.
    pub fn subscribe_main(&mut self, account_id: &str) -> (r: Result<String, NoteDeckError>)
        requires
            old(self).wf(),
        ensures
            final(self).wf(),
            answers(old(self)@, final(self)@, account_id@, main_wish(), r),
            r matches Ok(id) ==> ids::is_random_uuid(id@),
    {
        self.subscribe_as(account_id, ids::new_id(), SubscriptionKind::Main, "main", "", None)
    }

    /// Drops a subscription, and tells the connection of the account so where
    /// there is one. It does not matter whether there was such a subscription.
    pub fn unsubscribe(&mut self, account_id: &str, subscription_id: &str) -> (r: Result<
        (),
        NoteDeckError,
    >)
        requires
            old(self).wf(),
        ensures
            final(self).wf(),
            r is Ok,
            final(self)@ == old(self)@.unsubscribed(account_id@, subscription_id@),
    {
        let _ = self.tell(account_id, WsCommand::Unsubscribe { id: subscription_id.to_owned() });
        let ghost told = self@;
        let _ = self.subscriptions.remove(subscription_id);
        proof {
            assert(subscription::subs_view(self.subscriptions@) =~= told.subscriptions.remove(
                subscription_id@,
            ));
        }
        Ok(())
    }

    /// Asks to be told when a note changes. Where the account is not connected
    /// the note is captured, to be polled.
    pub fn sub_note(&mut self, account_id: &str, note_id: &str) -> (r: Result<(), NoteDeckError>)
        requires
            old(self).wf(),
        ensures
            final(self).wf(),
            final(self)@ == old(self)@.with_note(account_id@, note_id@),
            match r {
                Ok(_) => !old(self)@.is_closed(account_id@),
                Err(e) => old(self)@.is_closed(account_id@) && e is ConnectionClosed,
            },
    {
        match self.tell(account_id, WsCommand::SubNote { id: note_id.to_owned() }) {
            Some(sent) => {
                return sent;
            },
            None => {},
        }
        let mut notes = match self.captured_notes.remove(account_id) {
            Some(notes) => notes,
            None => Table::new(),
        };
        let ghost known = notes@.dom();
        notes.insert(note_id, ());
        proof {
            assert(notes@.dom() =~= known.insert(note_id@));
            assert(known =~= old(self)@.captured_of(account_id@));
        }
        self.captured_notes.insert(account_id, notes);
        proof {
            assert(captured_view(self.captured_notes@) =~= old(self)@.captured.insert(
                account_id@,
                notes@.dom(),
            ));
        }
        Ok(())
    }

    /// Takes that back.
    pub fn unsub_note(&mut self, account_id: &str, note_id: &str) -> (r: Result<(), NoteDeckError>)
        requires
            old(self).wf(),
        ensures
            final(self).wf(),
            final(self)@ == old(self)@.without_note(account_id@, note_id@),
            match r {
                Ok(_) => !old(self)@.is_closed(account_id@),
                Err(e) => old(self)@.is_closed(account_id@) && e is ConnectionClosed,
            },
    {
        match self.tell(account_id, WsCommand::UnsubNote { id: note_id.to_owned() }) {
            Some(sent) => {
                return sent;
            },
            None => {},
        }
        match self.captured_notes.remove(account_id) {
            Some(mut notes) => {
                let ghost known = notes@.dom();
                let _ = notes.remove(note_id);
                proof {
                    assert(notes@.dom() =~= known.remove(note_id@));
                }
                self.captured_notes.insert(account_id, notes);
                proof {
                    assert(captured_view(self.captured_notes@) =~= old(self)@.captured.insert(
                        account_id@,
                        notes@.dom(),
                    ));
                }
            },
            None => {
                proof {
                    assert(captured_view(self.captured_notes@) =~= old(self)@.captured);
                }
            },
        }
        Ok(())
    }

    /// The notes of an account that are to be polled.
    pub fn captured_notes(&self, account_id: &str) -> (r: Vec<String>)
        requires
            self.wf(),
        ensures
            text::texts(r@).to_set() == self@.captured_of(account_id@),
            text::texts(r@).no_duplicates(),
    {
        let mut out: Vec<String> = Vec::new();
        match self.captured_notes.get(account_id) {
            Some(notes) => {
                let mut i: usize = 0;
                while i < notes.len()
                    invariant
                        0 <= i <= notes.order().len(),
                        text::texts(out@).len() == i,
                        forall|j: int|
                            0 <= j < i ==> #[trigger] text::texts(out@)[j] == notes.order()[j].0,
                    decreases notes.order().len() - i,
                {
                    let ghost before = text::texts(out@);
                    let id = notes.key_at(i).to_owned();
                    out.push(id);
                    proof {
                        assert(text::texts(out@) =~= before.push(id@));
                    }
                    i += 1;
                }
                proof {
                    notes.lemma_order();
                    let ids = text::texts(out@);
                    assert(notes@.dom() =~= self@.captured_of(account_id@));
                    assert forall|id: Seq<char>| #[trigger] notes@.contains_key(id) implies ids.contains(id) by {
                        let k = choose|k: int| 0 <= k < notes.order().len() && (#[trigger] notes.order()[k]).0 == id;
                        assert(ids[k] == id);
                    }
                    assert forall|id: Seq<char>| #[trigger] ids.contains(id) implies notes@.contains_key(id) by {
                        let k = choose|k: int| 0 <= k < ids.len() && ids[k] == id;
                        assert(notes.order()[k].0 == id);
                    }
                    assert(ids.to_set() =~= notes@.dom());
                    assert forall|a: int, b: int|
                        0 <= a < ids.len() && 0 <= b < ids.len() && a != b implies ids[a] != ids[b] by {
                        if a < b {
                            assert(notes.order()[a].0 != notes.order()[b].0);
                        } else {
                            assert(notes.order()[b].0 != notes.order()[a].0);
                        }
                    }
                }
            },
            None => {
                proof {
                    assert(text::texts(out@).to_set() =~= self@.captured_of(account_id@));
                }
            },
        }
        out
    }

    /// Takes the commands that wait at the connection of an account.
    pub fn take_commands(&mut self, account_id: &str) -> (r: Vec<WsCommand>)
        requires
            old(self).wf(),
        ensures
            final(self).wf(),
            subscription::commands_view(r@) == old(self)@.waiting(account_id@),
            final(self)@ == old(self)@.commands_taken(account_id@),
    {
        match self.connections.remove(account_id) {
            Some(handle) => {
                let rest = ConnectionHandle {
                    host: handle.host,
                    queue: Vec::new(),
                    closed: handle.closed,
                };
                proof {
                    assert(subscription::commands_view(rest.queue@) =~= Seq::empty());
                }
                self.connections.insert(account_id, rest);
                proof {
                    assert(connections_view(self.connections@) =~= old(self)@.connections.insert(
                        account_id@,
                        rest@,
                    ));
                }
                handle.queue
            },
            None => {
                let none: Vec<WsCommand> = Vec::new();
                proof {
                    assert(subscription::commands_view(none@) =~= Seq::empty());
                    assert(self.connections@ =~= old(self).connections@);
                    assert(connections_view(self.connections@) == old(self)@.connections);
                }
                none
            },
        }
    }

    /// Takes in that the task of the connection of an account is over.
    pub fn connection_over(&mut self, account_id: &str)
        requires
            old(self).wf(),
        ensures
            final(self).wf(),
            final(self)@ == old(self)@.task_over(account_id@),
    {
        match self.connections.remove(account_id) {
            Some(mut handle) => {
                handle.closed = true;
                self.connections.insert(account_id, handle);
                proof {
                    assert(connections_view(self.connections@) =~= old(self)@.connections.insert(
                        account_id@,
                        handle@,
                    ));
                }
            },
            None => {
                proof {
                    assert(self.connections@ =~= old(self).connections@);
                    assert(connections_view(self.connections@) == old(self)@.connections);
                }
            },
        }
    }
}

/// Whether `r` is everything of an account that was running.
pub open spec fn stopped_all(before: ManagerV, account_id: Seq<char>, r: Stopped) -> bool {
    &&& match r.connection {
        Some(c) => before.connections.contains_key(account_id) && c@
            == before.connections[account_id].told(WsCommandV::Shutdown),
        None => !before.connections.contains_key(account_id),
    }
    &&& r.polling == before.polls.contains_key(account_id)
    &&& session::opt_emission(r.status) == session::told(account_id, Some("disconnected"@))
}

/// The answer to an attempt to connect, and what becomes of the state.
pub open spec fn connect_outcome(
    before: ManagerV,
    after: ManagerV,
    account_id: Seq<char>,
    host: Seq<char>,
    outcome: ConnectOutcome,
    r: Result<Option<Emission>, NoteDeckError>,
) -> bool {
    if before.connections.contains_key(account_id) {
        &&& r matches Ok(e) && e is None
        &&& after == before
    } else {
        match outcome {
            ConnectOutcome::Ready => {
                &&& r matches Ok(e) && session::opt_emission(e) == session::told(
                    account_id,
                    Some("connected"@),
                )
                &&& after == (ManagerV {
                    connections: before.connections.insert(
                        account_id,
                        ConnectionV { host, queue: Seq::empty(), closed: false },
                    ),
                    ..before
                })
            },
            ConnectOutcome::TimedOut => {
                &&& r matches Err(NoteDeckError::WebSocket(m)) && m@ == "Connection timeout"@
                &&& after == before
            },
            ConnectOutcome::Failed(why) => {
                &&& r matches Err(NoteDeckError::WebSocket(m)) && m@ == why@
                &&& after == before
            },
        }
    }
}

/// The answer to a change of mode, and what becomes of the state.
pub open spec fn mode_outcome(
    before: ManagerV,
    after: ManagerV,
    account_id: Seq<char>,
    host: Seq<char>,
    token: Seq<char>,
    mode: Seq<char>,
    interval_ms: Option<u64>,
    r: Result<ModeChange, NoteDeckError>,
) -> bool {
    if mode == "realtime"@ {
        &&& after == (ManagerV { polls: before.polls.remove(account_id), ..before })
        &&& r matches Ok(c) && c.stopped.connection is None && c.stopped.polling
            == before.polls.contains_key(account_id) && c.stopped.status is None
            && c.poll_interval_ms is None && text::opt_text(c.connect_url)
            == if before.connections.contains_key(account_id) {
            None
        } else {
            Some(streaming_url(host, token))
        }
    } else if mode == "polling"@ {
        &&& after == (ManagerV {
            connections: before.connections.remove(account_id),
            polls: before.polls.insert(account_id, PollV { host, token }),
            ..before
        })
        &&& r matches Ok(c) && c.stopped.polling == before.polls.contains_key(account_id)
            && session::opt_emission(c.stopped.status) == session::told(
            account_id,
            Some("connected"@),
        ) && c.connect_url is None && c.poll_interval_ms == Some(
            match interval_ms {
                Some(ms) => ms,
                None => DEFAULT_POLL_INTERVAL_MS,
            },
        ) && match c.stopped.connection {
            Some(x) => before.connections.contains_key(account_id) && x@
                == before.connections[account_id].told(WsCommandV::Shutdown),
            None => !before.connections.contains_key(account_id),
        }
    } else {
        &&& after == before
        &&& r matches Err(NoteDeckError::InvalidInput(m)) && m@ == "unknown mode: "@ + mode
    }
}

/// Subscriptions are preserved across a change of mode and the connecting that
/// it may lead to, whatever the outcome. So are those notes that are captured,
/// and everything of other accounts.
pub proof fn law_mode_switch_keeps_subscriptions(
    before: ManagerV,
    between: ManagerV,
    after: ManagerV,
    account_id: Seq<char>,
    host: Seq<char>,
    token: Seq<char>,
    mode: Seq<char>,
    interval_ms: Option<u64>,
    r: Result<ModeChange, NoteDeckError>,
    outcome: ConnectOutcome,
    c: Result<Option<Emission>, NoteDeckError>,
    other: Seq<char>,
)
    requires
        mode_outcome(before, between, account_id, host, token, mode, interval_ms, r),
        connect_outcome(between, after, account_id, host, outcome, c) || after == between,
    ensures
        after.subscriptions == before.subscriptions,
        after.captured == before.captured,
        other != account_id ==> after.host_of(other) == before.host_of(other),
{
}

/// Once an account has changed to polling it is polled from its server and not
/// connected. Once it has changed to streaming it is not polled, even where
/// connecting then fails; and it is connected unless that fails.
pub proof fn law_mode_is_exclusive(
    before: ManagerV,
    between: ManagerV,
    after: ManagerV,
    account_id: Seq<char>,
    host: Seq<char>,
    token: Seq<char>,
    mode: Seq<char>,
    interval_ms: Option<u64>,
    r: Result<ModeChange, NoteDeckError>,
    outcome: ConnectOutcome,
    c: Result<Option<Emission>, NoteDeckError>,
)
    requires
        mode_outcome(before, between, account_id, host, token, mode, interval_ms, r),
        connect_outcome(between, after, account_id, host, outcome, c),
    ensures
        mode == "polling"@ ==> between.host_of(account_id) == Some(host)
            && between.polls.contains_key(account_id) && !between.connections.contains_key(
            account_id,
        ),
        mode == "realtime"@ ==> !after.polls.contains_key(account_id),
        mode == "realtime"@ ==> (after.connections.contains_key(account_id) <==> c is Ok),
{
    reveal_strlit("polling");
    reveal_strlit("realtime");
    assert("polling"@.len() != "realtime"@.len());
}

/// What was subscribed to is known under its id from then on, with the server
/// of the account; every other subscription stays, and to drop it again leaves
/// the subscriptions as they were.
pub proof fn law_subscription_is_kept_until_dropped(
    m: ManagerV,
    account_id: Seq<char>,
    sub_id: Seq<char>,
    kind: SubscriptionKind,
    channel: Seq<char>,
    timeline_type: Seq<char>,
    params: Option<JsonV>,
    other: Seq<char>,
)
    requires
        m.host_of(account_id) is Some,
        !m.subscriptions.contains_key(sub_id),
    ensures
        ({
            let now = m.subscribed(account_id, sub_id, kind, channel, timeline_type, params);
            &&& now.subscriptions.contains_key(sub_id)
            &&& now.subscriptions[sub_id].account_id == account_id
            &&& Some(now.subscriptions[sub_id].host) == m.host_of(account_id)
            &&& other != sub_id ==> (now.subscriptions.contains_key(other)
                <==> m.subscriptions.contains_key(other))
            &&& other != sub_id && m.subscriptions.contains_key(other)
                ==> now.subscriptions[other] == m.subscriptions[other]
            &&& now.subscriptions.remove(sub_id) == m.subscriptions
        }),
{
    let now = m.subscribed(account_id, sub_id, kind, channel, timeline_type, params);
    assert(now.subscriptions.remove(sub_id) =~= m.subscriptions);
}

/// To disconnect an account takes its subscriptions away and no others.
pub proof fn law_disconnect_drops_only_its_own(m: ManagerV, account_id: Seq<char>, id: Seq<char>)
    ensures
        m.subscriptions_of_others(account_id).contains_key(id) <==> m.subscriptions.contains_key(id)
            && m.subscriptions[id].account_id != account_id,
        m.subscriptions_of_others(account_id).contains_key(id) ==> m.subscriptions_of_others(
            account_id,
        )[id] == m.subscriptions[id],
{
}

/// What each kind of subscription asks the server for: its channel, and the one
/// thing it is about under the name that the server knows it by. Only a timeline
/// is cached under a name.
pub proof fn law_subscriptions_ask_for_their_channel(
    id: Seq<char>,
    name: Seq<char>,
    list_id: Option<Seq<char>>,
    key: Seq<char>,
)
    ensures
        ({
            let w = antenna_wish(id);
            &&& w.kind is Antenna && w.channel == "antenna"@ && w.timeline_type == ""@
            &&& w.params matches Some(p) && p.member("antennaId"@) == Some(JsonV::Str(id)) && (key
                != "antennaId"@ ==> p.member(key) is None)
        }),
        ({
            let w = channel_wish(id);
            &&& w.kind is Channel && w.channel == "channel"@ && w.timeline_type == ""@
            &&& w.params matches Some(p) && p.member("channelId"@) == Some(JsonV::Str(id)) && (key
                != "channelId"@ ==> p.member(key) is None)
        }),
        ({
            let w = role_wish(id);
            &&& w.kind is Role && w.channel == "roleTimeline"@ && w.timeline_type == ""@
            &&& w.params matches Some(p) && p.member("roleId"@) == Some(JsonV::Str(id)) && (key
                != "roleId"@ ==> p.member(key) is None)
        }),
        ({
            let w = chat_user_wish(id);
            &&& w.kind is Chat && w.channel == "chatUser"@ && w.timeline_type == ""@
            &&& w.params matches Some(p) && p.member("otherId"@) == Some(JsonV::Str(id)) && (key
                != "otherId"@ ==> p.member(key) is None)
        }),
        ({
            let w = chat_room_wish(id);
            &&& w.kind is Chat && w.channel == "chatRoom"@ && w.timeline_type == ""@
            &&& w.params matches Some(p) && p.member("roomId"@) == Some(JsonV::Str(id)) && (key
                != "roomId"@ ==> p.member(key) is None)
        }),
        ({
            let w = main_wish();
            w.kind is Main && w.channel == "main"@ && w.timeline_type == ""@ && w.params is None
        }),
        ({
            let w = timeline_wish(name, list_id);
            &&& w.kind is Timeline && w.timeline_type == name
            &&& name == "home"@ ==> w.channel == "homeTimeline"@
            &&& name == "local"@ ==> w.channel == "localTimeline"@
            &&& name == "social"@ ==> w.channel == "hybridTimeline"@
            &&& name == "global"@ ==> w.channel == "globalTimeline"@
            &&& name == "list"@ ==> w.channel == "userList"@
            &&& list_id is None ==> w.params is None
            &&& list_id matches Some(l) ==> (w.params matches Some(p) && p.member("listId"@) == Some(
                JsonV::Str(l),
            ) && (key != "listId"@ ==> p.member(key) is None))
        }),
{
    broadcast use json::lemma_member_of_with;

    models::law_timelines_have_their_names(name);
}

/// A subscription is granted if and only if the account is connected by an open
/// connection or polled. Then the connection, where there is one, is told to join
/// the channel under the id that is handed back, and the subscription is known
/// under that id as it was asked for; so it can be taken up again later. What is
/// refused changes nothing.
pub proof fn law_wish_is_granted_and_remembered(
    before: ManagerV,
    after: ManagerV,
    account_id: Seq<char>,
    wish: WishV,
    r: Result<String, NoteDeckError>,
    other: Seq<char>,
)
    requires
        answers(before, after, account_id, wish, r),
    ensures
        r is Ok <==> (before.connections.contains_key(account_id)
            && !before.connections[account_id].closed) || (!before.connections.contains_key(account_id)
            && before.polls.contains_key(account_id)),
        r is Err ==> after == before,
        r matches Err(e) ==> e is NoConnection || e is ConnectionClosed,
        r matches Err(NoteDeckError::NoConnection(id)) ==> id@ == account_id
            && !before.connections.contains_key(account_id) && !before.polls.contains_key(account_id),
        r matches Err(NoteDeckError::ConnectionClosed) ==> before.connections.contains_key(account_id)
            && before.connections[account_id].closed,
        r matches Ok(id) ==> {
            &&& after.subscriptions.contains_key(id@)
            &&& after.subscriptions[id@] == (SubscriptionV {
                account_id,
                host: if before.connections.contains_key(account_id) {
                    before.connections[account_id].host
                } else {
                    before.polls[account_id].host
                },
                kind: wish.kind,
                channel: wish.channel,
                timeline_type: wish.timeline_type,
                params: wish.params,
            })
            &&& before.connections.contains_key(account_id) ==> after.connections.contains_key(account_id)
                && after.connections[account_id].queue == before.connections[account_id].queue.push(
                WsCommandV::Subscribe { channel: wish.channel, id: id@, params: wish.params },
            )
            &&& other != account_id && before.connections.contains_key(other)
                ==> after.connections.contains_key(other) && after.connections[other]
                == before.connections[other]
            &&& after.polls == before.polls && after.captured == before.captured
        },
{
}

/// A subscription that is dropped is gone, and the server is told to leave its
/// channel; all others stay.
pub proof fn law_dropped_subscription_is_left(
    m: ManagerV,
    account_id: Seq<char>,
    sub_id: Seq<char>,
    other: Seq<char>,
)
    ensures
        ({
            let now = m.unsubscribed(account_id, sub_id);
            &&& !now.subscriptions.contains_key(sub_id)
            &&& other != sub_id ==> (now.subscriptions.contains_key(other)
                <==> m.subscriptions.contains_key(other))
            &&& other != sub_id && m.subscriptions.contains_key(other) ==> now.subscriptions[other]
                == m.subscriptions[other]
            &&& m.connections.contains_key(account_id) && !m.connections[account_id].closed ==> (
            now.connections.contains_key(account_id) && now.connections[account_id].queue
                == m.connections[account_id].queue.push(WsCommandV::Unsubscribe { id: sub_id }))
            &&& now.polls == m.polls && now.captured == m.captured
        }),
{
}

/// The changes of a note are asked for at the connection, where there is one, and
/// else the note is captured, to be polled; to take that back leaves the captured
/// notes without it. Everything else stays.
pub proof fn law_note_is_captured_or_asked_for(
    m: ManagerV,
    account_id: Seq<char>,
    note_id: Seq<char>,
    other: Seq<char>,
)
    ensures
        ({
            let on = m.with_note(account_id, note_id);
            let off = on.without_note(account_id, note_id);
            &&& m.connections.contains_key(account_id) && !m.connections[account_id].closed ==> {
                &&& on.connections[account_id].queue == m.connections[account_id].queue.push(
                    WsCommandV::SubNote { id: note_id },
                )
                &&& off.connections[account_id].queue == on.connections[account_id].queue.push(
                    WsCommandV::UnsubNote { id: note_id },
                )
                &&& off.captured == m.captured
            }
            &&& !m.connections.contains_key(account_id) ==> {
                &&& on.captured_of(account_id).contains(note_id)
                &&& !off.captured_of(account_id).contains(note_id)
                &&& other != note_id ==> (on.captured_of(account_id).contains(other)
                    <==> m.captured_of(account_id).contains(other))
                &&& other != note_id ==> (off.captured_of(account_id).contains(other)
                    <==> m.captured_of(account_id).contains(other))
                &&& on.connections == m.connections && off.connections == m.connections
            }
            &&& other != account_id ==> on.captured_of(other) == m.captured_of(other)
                && off.captured_of(other) == m.captured_of(other)
            &&& on.subscriptions == m.subscriptions && off.subscriptions == m.subscriptions
            &&& on.polls == m.polls && off.polls == m.polls
        }),
{
}

/// To disconnect an account stops its connection and its polling and drops what it
/// had subscribed to; the other accounts keep everything.
pub proof fn law_disconnected_account_is_stopped(
    m: ManagerV,
    account_id: Seq<char>,
    other: Seq<char>,
    id: Seq<char>,
)
    ensures
        ({
            let now = m.disconnected(account_id);
            &&& !now.connections.contains_key(account_id)
            &&& !now.polls.contains_key(account_id)
            &&& now.host_of(account_id) is None
            &&& now.subscriptions.contains_key(id) <==> m.subscriptions.contains_key(id)
                && m.subscriptions[id].account_id != account_id
            &&& now.subscriptions.contains_key(id) ==> now.subscriptions[id] == m.subscriptions[id]
            &&& other != account_id ==> now.host_of(other) == m.host_of(other)
            &&& other != account_id ==> (now.connections.contains_key(other)
                <==> m.connections.contains_key(other))
            &&& now.captured == m.captured
        }),
{
}

/// Every command that waits is taken, in order and once; a connection whose task
/// is over takes no more.
pub proof fn law_commands_are_taken_once(m: ManagerV, account_id: Seq<char>, cmd: WsCommandV)
    ensures
        m.connections.contains_key(account_id) ==> m.waiting(account_id)
            == m.connections[account_id].queue,
        !m.connections.contains_key(account_id) ==> m.waiting(account_id).len() == 0,
        m.commands_taken(account_id).waiting(account_id).len() == 0,
        m.commands_taken(account_id).subscriptions == m.subscriptions,
        m.commands_taken(account_id).host_of(account_id) == m.host_of(account_id),
        m.connections.contains_key(account_id) ==> m.task_over(account_id).is_closed(account_id)
            && m.task_over(account_id).told(account_id, cmd).waiting(account_id) == m.waiting(account_id),
        m.task_over(account_id).subscriptions == m.subscriptions,
        m.task_over(account_id).host_of(account_id) == m.host_of(account_id),
{
}

/// An account is streamed from its server with its token, over an encrypted
/// connection, and it is not connected twice.
pub proof fn law_account_is_streamed_from_its_server(
    m: ManagerV,
    account_id: Seq<char>,
    host: Seq<char>,
    token: Seq<char>,
)
    ensures
        streaming_url(host, token) == "wss://"@ + host + "/streaming?i="@ + token,
        m.connects_to(account_id, host, token) == if m.connections.contains_key(account_id) {
            None
        } else {
            Some("wss://"@ + host + "/streaming?i="@ + token)
        },
        m.connections.contains_key(account_id) ==> m.host_of(account_id) == Some(
            m.connections[account_id].host,
        ),
        !m.connections.contains_key(account_id) && m.polls.contains_key(account_id) ==> m.host_of(
            account_id,
        ) == Some(m.polls[account_id].host),
{
}

/// What connecting leads to: a connection that is made is one to the server, open
/// and with nothing waiting, and the frontend is told so; that it took too long or
/// failed is told as an error and changes nothing.
pub proof fn law_connecting_ends_as_it_went(
    before: ManagerV,
    after: ManagerV,
    account_id: Seq<char>,
    host: Seq<char>,
    outcome: ConnectOutcome,
    r: Result<Option<Emission>, NoteDeckError>,
)
    requires
        connect_outcome(before, after, account_id, host, outcome, r),
        !before.connections.contains_key(account_id),
    ensures
        outcome is Ready <==> r is Ok,
        outcome is Ready ==> {
            &&& after.connections.contains_key(account_id)
            &&& after.connections[account_id].host == host
            &&& after.connections[account_id].queue.len() == 0
            &&& !after.connections[account_id].closed
            &&& r matches Ok(Some(e)) && e@.event == "stream-status"@ && e@.bus_type is None && e@.payload
                == (events::PayloadV::Status { account_id, state: "connected"@ })
            &&& after.subscriptions == before.subscriptions && after.polls == before.polls
        },
        !(outcome is Ready) ==> after == before && (r matches Err(e) && e is WebSocket),
        outcome is TimedOut ==> (r matches Err(NoteDeckError::WebSocket(m)) && m@
            == "Connection timeout"@),
        outcome matches ConnectOutcome::Failed(why) ==> (r matches Err(NoteDeckError::WebSocket(m)) && m@
            == why@),
{
}

/// What a change of mode leads to. To stream stops the polling and gives the address
/// to connect to, unless the account is connected; to poll stops the connection and
/// polls as often as was asked, or every fifteen seconds; a mode that is not known
/// is refused by name and changes nothing.
pub proof fn law_mode_change_does_what_it_says(
    before: ManagerV,
    after: ManagerV,
    account_id: Seq<char>,
    host: Seq<char>,
    token: Seq<char>,
    mode: Seq<char>,
    interval_ms: Option<u64>,
    r: Result<ModeChange, NoteDeckError>,
)
    requires
        mode_outcome(before, after, account_id, host, token, mode, interval_ms, r),
    ensures
        mode == "realtime"@ ==> {
            &&& !after.polls.contains_key(account_id)
            &&& after.connections == before.connections
            &&& r matches Ok(c) && c.stopped.polling == before.polls.contains_key(account_id)
                && c.stopped.connection is None && c.poll_interval_ms is None && (
            !before.connections.contains_key(account_id) ==> (c.connect_url matches Some(u) && u@
                == "wss://"@ + host + "/streaming?i="@ + token)) && (before.connections.contains_key(
                account_id,
            ) ==> c.connect_url is None)
        },
        mode == "polling"@ ==> {
            &&& !after.connections.contains_key(account_id)
            &&& after.polls.contains_key(account_id) && after.polls[account_id].host == host
                && after.polls[account_id].token == token
            &&& r matches Ok(c) && c.connect_url is None && c.poll_interval_ms == Some(
                match interval_ms {
                    Some(ms) => ms,
                    None => 15000u64,
                },
            ) && (c.stopped.connection is Some <==> before.connections.contains_key(account_id)) && (
            c.stopped.status matches Some(e) && e@.event == "stream-status"@ && e@.payload == (
            events::PayloadV::Status { account_id, state: "connected"@ }))
            &&& before.connections.contains_key(account_id) && !before.connections[account_id].closed
                ==> (r matches Ok(c) && (c.stopped.connection matches Some(x) && x@.queue
                == before.connections[account_id].queue.push(WsCommandV::Shutdown)))
        },
        mode != "realtime"@ && mode != "polling"@ ==> after == before && (r matches Err(
            NoteDeckError::InvalidInput(m),
        ) && m@ == "unknown mode: "@ + mode),
{
    reveal_strlit("polling");
    reveal_strlit("realtime");
    assert("polling"@.len() != "realtime"@.len());
}

/// What disconnecting an account stops: its connection, which is told to shut down
/// behind what it was told before, and its polling, where there are such; and the
/// frontend is told that it is disconnected.
pub proof fn law_disconnecting_stops_what_runs(before: ManagerV, account_id: Seq<char>, r: Stopped)
    requires
        stopped_all(before, account_id, r),
    ensures
        r.connection is Some <==> before.connections.contains_key(account_id),
        r.polling <==> before.polls.contains_key(account_id),
        r.connection matches Some(c) ==> c@.host == before.connections[account_id].host && (
        !before.connections[account_id].closed ==> c@.queue
            == before.connections[account_id].queue.push(WsCommandV::Shutdown)),
        r.status matches Some(e) && e@.event == "stream-status"@ && e@.bus_type is None && e@.payload == (
        events::PayloadV::Status { account_id, state: "disconnected"@ }),
{
}

} // verus!
