//! How a WebSocket connection is kept: what each thing that happens in a
//! session leads to, and when a lost connection is taken up again.
use vstd::prelude::*;

use crate::json;

use crate::streaming::events;
use crate::streaming::events::{Emission, EmissionV};
use crate::streaming::subscription;
use crate::streaming::subscription::WsCommand;

verus! {

/// How long an attempt to connect may take, in seconds.
pub const WS_CONNECT_TIMEOUT_SECS: u64 = 10;

/// The longest wait between two attempts to connect, in seconds.
pub const MAX_BACKOFF_SECS: u64 = 30;

/// The time between two keepalive pings, in seconds.
pub const PING_INTERVAL_SECS: u64 = 30;

/// What a WebSocket may receive at most, in bytes.
#[derive(Debug, Clone, Copy, PartialEq, Eq, Structural)]
pub struct WsLimits {
    pub max_message_size: usize,
    pub max_frame_size: usize,
}

/// The limits of every connection: ten mebibytes in a message, two in a frame.
pub fn ws_config() -> (r: WsLimits)
    ensures
        r.max_message_size == 10 * 1024 * 1024,
        r.max_frame_size == 2 * 1024 * 1024,
{
    WsLimits { max_message_size: 10 * 1024 * 1024, max_frame_size: 2 * 1024 * 1024 }
}

/// Why a session ended.
#[derive(Debug, Clone, Copy, PartialEq, Eq, Structural)]
pub enum WsExitReason {
    Disconnected,
    Shutdown,
}

/// What can happen in a session.
#[derive(Debug)]
pub enum WsInput {
    /// A text message came in.
    Text(String),
    /// The server sent a ping.
    Ping(Vec<u8>),
    /// The server closed the connection, or it was lost.
    Closed,
    /// A message of another kind came in.
    Other,
    /// A command came in, or none can come any more.
    Command(Option<WsCommand>),
    /// It is time for a keepalive ping.
    Tick,
}

/// What is to be done at once.
#[derive(Debug)]
pub enum WsAction {
    Nothing,
    Handle(String),
    SendText(String),
    SendPong(Vec<u8>),
    SendPing,
    Close,
}

/// What follows once that has been done.
#[derive(Debug, Clone, Copy, PartialEq, Eq, Structural)]
pub enum WsNext {
    /// The session goes on.
    GoOn,
    /// The session goes on if the message could be sent.
    GoOnIfSent,
    /// The session ends.
    End(WsExitReason),
}

/// What something that happens in a session leads to.
pub open spec fn leads_to(input: WsInput, action: WsAction, next: WsNext) -> bool {
    match input {
        WsInput::Text(text) => action == WsAction::Handle(text) && next is GoOn,
        WsInput::Ping(data) => action == WsAction::SendPong(data) && next is GoOnIfSent,
        WsInput::Closed => action is Nothing && next == WsNext::End(WsExitReason::Disconnected),
        WsInput::Other => action is Nothing && next is GoOn,
        WsInput::Tick => action is SendPing && next is GoOnIfSent,
        WsInput::Command(Some(cmd)) => match subscription::message_for(cmd@) {
            Some(msg) => next is GoOn && match action {
                WsAction::SendText(text) => text@ == json::rendered_json(msg),
                _ => false,
            },
            None => action is Close && next == WsNext::End(WsExitReason::Shutdown),
        },
        WsInput::Command(None) => action is Close && next == WsNext::End(WsExitReason::Shutdown),
    }
}

/// One turn of the loop of a session.
pub fn ws_loop(input: WsInput) -> (r: (WsAction, WsNext))
    ensures
        leads_to(input, r.0, r.1),
{
    match input {
        WsInput::Text(text) => (WsAction::Handle(text), WsNext::GoOn),
        WsInput::Ping(data) => (WsAction::SendPong(data), WsNext::GoOnIfSent),
        WsInput::Closed => (WsAction::Nothing, WsNext::End(WsExitReason::Disconnected)),
        WsInput::Other => (WsAction::Nothing, WsNext::GoOn),
        WsInput::Tick => (WsAction::SendPing, WsNext::GoOnIfSent),
        WsInput::Command(cmd) => match cmd {
            Some(cmd) => match subscription::command_message(&cmd) {
                Some(msg) => (WsAction::SendText(msg.render()), WsNext::GoOn),
                None => (WsAction::Close, WsNext::End(WsExitReason::Shutdown)),
            },
            None => (WsAction::Close, WsNext::End(WsExitReason::Shutdown)),
        },
    }
}

/// How the session ends after a turn, if it does.
pub open spec fn ends(next: WsNext, sent: bool) -> Option<WsExitReason> {
    match next {
        WsNext::GoOn => None,
        WsNext::GoOnIfSent => if sent {
            None
        } else {
            Some(WsExitReason::Disconnected)
        },
        WsNext::End(reason) => Some(reason),
    }
}

/// How the session ends after a turn, if it does: `sent` tells whether what
/// was to be sent could be sent.
pub fn after_turn(next: WsNext, sent: bool) -> (r: Option<WsExitReason>)
    ensures
        r == ends(next, sent),
{
    match next {
        WsNext::GoOn => None,
        WsNext::GoOnIfSent => if sent {
            None
        } else {
            Some(WsExitReason::Disconnected)
        },
        WsNext::End(reason) => Some(reason),
    }
}

/// Where the task of a connection stands.
#[derive(Debug, Clone, Copy, PartialEq, Eq, Structural)]
pub enum TaskPhase {
    /// A session is running.
    Session,
    /// The connection was lost; the wait before the next attempt is running.
    Waiting,
    /// An attempt to connect is running.
    Connecting,
    /// The task is over.
    Done,
}

/// The task that keeps a connection.
#[derive(Debug, Clone, Copy, PartialEq, Eq, Structural)]
pub struct ConnectionTask {
    pub phase: TaskPhase,
    pub backoff_secs: u64,
}

/// What can happen to the task.
#[derive(Debug)]
pub enum TaskEvent {
    /// The session ended.
    SessionEnded(WsExitReason),
    /// The wait is over.
    WaitOver,
    /// A command came in, or none can come any more.
    Command(Option<WsCommand>),
    /// The attempt to connect succeeded.
    Connected,
    /// The attempt to connect failed or took too long.
    ConnectFailed,
}

/// What the task is to do next.
#[derive(Debug, Clone, Copy, PartialEq, Eq, Structural)]
pub enum TaskAction {
    /// Go on with what is running.
    Nothing,
    /// Wait that many seconds.
    Wait(u64),
    /// Try to connect.
    Connect,
    /// Run a session.
    RunSession,
    /// End.
    Stop,
}

/// What is asked of the task, and what the frontend is told.
#[derive(Debug)]
pub struct TaskStep {
    pub status: Option<Emission>,
    pub action: TaskAction,
}

/// Whether a command ends the task: a shutdown, or that none can come any more.
pub open spec fn ends_task(cmd: Option<WsCommand>) -> bool {
    match cmd {
        Some(c) => c is Shutdown,
        None => true,
    }
}

/// The wait after another failed attempt.
pub open spec fn longer_wait(secs: int) -> int {
    if secs * 2 < MAX_BACKOFF_SECS {
        secs * 2
    } else {
        MAX_BACKOFF_SECS as int
    }
}

/// The state that follows on an event, the state of the connection that the
/// frontend is told, and the action.
pub open spec fn task_next(t: ConnectionTask, event: TaskEvent) -> (
    ConnectionTask,
    Option<Seq<char>>,
    TaskAction,
) {
    let b = t.backoff_secs;
    match (t.phase, event) {
        (TaskPhase::Session, TaskEvent::SessionEnded(WsExitReason::Shutdown)) => (
            ConnectionTask { phase: TaskPhase::Done, backoff_secs: b },
            None,
            TaskAction::Stop,
        ),
        (TaskPhase::Session, TaskEvent::SessionEnded(WsExitReason::Disconnected)) => (
            ConnectionTask { phase: TaskPhase::Waiting, backoff_secs: b },
            Some("reconnecting"@),
            TaskAction::Wait(b),
        ),
        (TaskPhase::Waiting, TaskEvent::WaitOver) => (
            ConnectionTask { phase: TaskPhase::Connecting, backoff_secs: b },
            None,
            TaskAction::Connect,
        ),
        (TaskPhase::Waiting, TaskEvent::Command(cmd)) => if ends_task(cmd) {
            (
                ConnectionTask { phase: TaskPhase::Done, backoff_secs: b },
                None,
                TaskAction::Stop,
            )
        } else {
            (t, None, TaskAction::Nothing)
        },
        (TaskPhase::Connecting, TaskEvent::Connected) => (
            ConnectionTask { phase: TaskPhase::Session, backoff_secs: 1 },
            Some("connected"@),
            TaskAction::RunSession,
        ),
        (TaskPhase::Connecting, TaskEvent::ConnectFailed) => {
            let w = longer_wait(b as int) as u64;
            (
                ConnectionTask { phase: TaskPhase::Waiting, backoff_secs: w },
                Some("reconnecting"@),
                TaskAction::Wait(w),
            )
        },
        _ => (t, None, TaskAction::Nothing),
    }
}

/// What the frontend is told of a state, where it is told anything.
pub open spec fn told(account_id: Seq<char>, state: Option<Seq<char>>) -> Option<EmissionV> {
    match state {
        Some(s) => Some(events::status_event(account_id, s)),
        None => None,
    }
}

/// The value of an emission, where there is one.
pub open spec fn opt_emission(e: Option<Emission>) -> Option<EmissionV> {
    match e {
        Some(x) => Some(x@),
        None => None,
    }
}

impl ConnectionTask {
    /// The wait is at least a second, and no longer than the longest.
    pub open spec fn wf(self) -> bool {
        1 <= self.backoff_secs <= MAX_BACKOFF_SECS
    }

    /// The task of a connection that has just been made: a session is running.
    pub fn new() -> (r: Self)
        ensures
            r == (ConnectionTask { phase: TaskPhase::Session, backoff_secs: 1 }),
            r.wf(),
    {
        ConnectionTask { phase: TaskPhase::Session, backoff_secs: 1 }
    }

    /// Takes in what happened. An event that does not belong to the phase
    /// changes nothing.
    pub fn step(&mut self, account_id: &str, event: TaskEvent) -> (r: TaskStep)
        requires
            old(self).wf(),
        ensures
            final(self).wf(),
            *final(self) == task_next(*old(self), event).0,
            opt_emission(r.status) == told(account_id@, task_next(*old(self), event).1),
            r.action == task_next(*old(self), event).2,
    {
        match (self.phase, event) {
            (TaskPhase::Session, TaskEvent::SessionEnded(reason)) => match reason {
                WsExitReason::Shutdown => self.stop(),
                WsExitReason::Disconnected => self.wait(account_id),
            },
            (TaskPhase::Waiting, TaskEvent::WaitOver) => {
                self.phase = TaskPhase::Connecting;
                TaskStep { status: None, action: TaskAction::Connect }
            },
            (TaskPhase::Waiting, TaskEvent::Command(cmd)) => match cmd {
                None => self.stop(),
                Some(WsCommand::Shutdown) => self.stop(),
                Some(_) => TaskStep { status: None, action: TaskAction::Nothing },
            },
            (TaskPhase::Connecting, TaskEvent::Connected) => {
                self.phase = TaskPhase::Session;
                self.backoff_secs = 1;
                TaskStep {
                    status: Some(events::status(account_id, "connected")),
                    action: TaskAction::RunSession,
                }
            },
            (TaskPhase::Connecting, TaskEvent::ConnectFailed) => {
                let doubled: u64 = self.backoff_secs * 2;
                self.backoff_secs = if doubled < MAX_BACKOFF_SECS {
                    doubled
                } else {
                    MAX_BACKOFF_SECS
                };
                self.wait(account_id)
            },
            _ => TaskStep { status: None, action: TaskAction::Nothing },
        }
    }

    fn stop(&mut self) -> (r: TaskStep)
        ensures
            *final(self) == (ConnectionTask {
                phase: TaskPhase::Done,
                backoff_secs: old(self).backoff_secs,
            }),
            opt_emission(r.status) is None,
            r.action is Stop,
    {
        self.phase = TaskPhase::Done;
        TaskStep { status: None, action: TaskAction::Stop }
    }

    fn wait(&mut self, account_id: &str) -> (r: TaskStep)
        ensures
            *final(self) == (ConnectionTask {
                phase: TaskPhase::Waiting,
                backoff_secs: old(self).backoff_secs,
            }),
            opt_emission(r.status) == told(account_id@, Some("reconnecting"@)),
            r.action == TaskAction::Wait(old(self).backoff_secs),
    {
        self.phase = TaskPhase::Waiting;
        TaskStep {
            status: Some(events::status(account_id, "reconnecting")),
            action: TaskAction::Wait(self.backoff_secs),
        }
    }
}

/// A state of the task after `n` attempts to connect have failed, each after
/// its wait.
pub open spec fn after_failures(t: ConnectionTask, n: nat) -> ConnectionTask
    decreases n,
{
    if n == 0 {
        t
    } else {
        let before = after_failures(t, (n - 1) as nat);
        task_next(task_next(before, TaskEvent::WaitOver).0, TaskEvent::ConnectFailed).0
    }
}

/// The wait doubles with each failed attempt, from one second up to the
/// longest: after `n` failures it is two to the power of `n`, or the longest
/// wait where that is less.
pub proof fn law_backoff_doubles(n: nat)
    ensures
        ({
            let t = ConnectionTask { phase: TaskPhase::Waiting, backoff_secs: 1 };
            let w = vstd::arithmetic::power2::pow2(n);
            &&& after_failures(t, n).phase is Waiting
            &&& after_failures(t, n).backoff_secs == if w < MAX_BACKOFF_SECS {
                w as int
            } else {
                MAX_BACKOFF_SECS as int
            }
        }),
    decreases n,
{
    vstd::arithmetic::power2::lemma2_to64();
    if n > 0 {
        law_backoff_doubles((n - 1) as nat);
        vstd::arithmetic::power2::lemma_pow2_unfold(n);
    }
}

/// A connection that is made again starts over: the next loss is followed by a
/// wait of one second.
pub proof fn law_success_resets_backoff(t: ConnectionTask)
    requires
        t.phase is Connecting,
    ensures
        ({
            let again = task_next(t, TaskEvent::Connected).0;
            task_next(again, TaskEvent::SessionEnded(WsExitReason::Disconnected)).2
                == TaskAction::Wait(1)
        }),
{
}

/// A shutdown ends the task whether a session or a wait is running, and what
/// is over stays over.
pub proof fn law_shutdown_is_final(t: ConnectionTask, event: TaskEvent)
    ensures
        t.phase is Session ==> task_next(
            t,
            TaskEvent::SessionEnded(WsExitReason::Shutdown),
        ).0.phase is Done,
        t.phase is Waiting ==> task_next(
            t,
            TaskEvent::Command(Some(WsCommand::Shutdown)),
        ).0.phase is Done,
        t.phase is Done ==> task_next(t, event) == (t, None::<Seq<char>>, TaskAction::Nothing),
{
}

/// What a session does with what happens. A text is handled and a ping is answered
/// with its own data; a command is sent as its message. The session ends where the
/// server closes it, where a shutdown comes or no command can come any more, and
/// where a ping or a pong cannot be sent; it goes on in every other case.
pub proof fn law_session_goes_on_until_it_has_to_end(
    input: WsInput,
    action: WsAction,
    next: WsNext,
    sent: bool,
)
    requires
        leads_to(input, action, next),
    ensures
        input matches WsInput::Text(t) ==> action == WsAction::Handle(t) && ends(next, sent) is None,
        input matches WsInput::Ping(d) ==> action == WsAction::SendPong(d),
        input is Tick ==> action is SendPing,
        input is Ping || input is Tick ==> ends(next, true) is None && ends(next, false) == Some(
            WsExitReason::Disconnected,
        ),
        input is Closed ==> ends(next, sent) == Some(WsExitReason::Disconnected),
        input is Other ==> action is Nothing && ends(next, sent) is None,
        input matches WsInput::Command(Some(cmd)) ==> (cmd is Shutdown ==> action is Close && ends(
            next,
            sent,
        ) == Some(WsExitReason::Shutdown)),
        input matches WsInput::Command(Some(cmd)) ==> (!(cmd is Shutdown) ==> ends(next, sent) is None
            && (action matches WsAction::SendText(t) && (subscription::message_for(cmd@) matches Some(m)
            && t@ == json::rendered_json(m)))),
        input matches WsInput::Command(None) ==> action is Close && ends(next, sent) == Some(
            WsExitReason::Shutdown,
        ),
{
}

/// What the frontend is told of a connection, and when: that it is being made
/// again, where it is lost and after each attempt that failed, and that it is there,
/// where it is. It is told nothing else.
pub proof fn law_frontend_is_told_of_the_connection(
    t: ConnectionTask,
    event: TaskEvent,
    account_id: Seq<char>,
)
    requires
        t.wf(),
    ensures
        ({
            let (next, state, action) = task_next(t, event);
            let lost = t.phase is Session && event == TaskEvent::SessionEnded(
                WsExitReason::Disconnected,
            );
            let failed = t.phase is Connecting && event is ConnectFailed;
            let made = t.phase is Connecting && event is Connected;
            &&& lost || failed <==> state == Some("reconnecting"@)
            &&& made <==> state == Some("connected"@)
            &&& state is None <==> !lost && !failed && !made
            &&& lost ==> action == TaskAction::Wait(t.backoff_secs) && next.phase is Waiting
            &&& failed ==> next.phase is Waiting && next.wf() && action == TaskAction::Wait(
                next.backoff_secs,
            )
            &&& made ==> action is RunSession && next.phase is Session && next.backoff_secs == 1
            &&& t.phase is Waiting && event is WaitOver ==> action is Connect && next.phase is Connecting
            &&& action is Stop <==> next.phase is Done && !(t.phase is Done)
        }),
        told(account_id, Some("reconnecting"@)) matches Some(e) && e.event == "stream-status"@
            && e.bus_type is None && e.payload == (events::PayloadV::Status {
            account_id,
            state: "reconnecting"@,
        }),
        told(account_id, Some("connected"@)) matches Some(e) && e.event == "stream-status"@
            && e.bus_type is None && e.payload == (events::PayloadV::Status {
            account_id,
            state: "connected"@,
        }),
        told(account_id, None) is None,
        MAX_BACKOFF_SECS == 30,
{
    reveal_strlit("reconnecting");
    reveal_strlit("connected");
    assert("reconnecting"@.len() != "connected"@.len());
}

/// While a wait is running a command that is no shutdown changes nothing.
pub proof fn law_waiting_is_not_disturbed(t: ConnectionTask, cmd: Option<WsCommand>)
    requires
        t.phase is Waiting,
    ensures
        (cmd matches Some(c) && !(c is Shutdown)) ==> task_next(t, TaskEvent::Command(cmd)) == (
            t,
            None::<Seq<char>>,
            TaskAction::Nothing,
        ),
        cmd is None || cmd == Some(WsCommand::Shutdown) ==> task_next(t, TaskEvent::Command(cmd)).2 is Stop,
{
}

} // verus!
