//! What is subscribed to, and how the server is told.
use vstd::prelude::*;

use crate::json;
use crate::json::{Json, JsonV};
use crate::table::Table;
use crate::text;

verus! {

/// What a subscription is for.
#[derive(Debug, Clone, Copy, PartialEq, Eq, Structural)]
pub enum SubscriptionKind {
    Timeline,
    Antenna,
    Channel,
    Role,
    Main,
    Chat,
}

impl SubscriptionKind {
    /// Whether the channel of such a subscription carries notes.
    pub open spec fn carries_notes(self) -> bool {
        ||| self is Timeline
        ||| self is Antenna
        ||| self is Channel
        ||| self is Role
    }
}

/// A subscription. `channel` is the name of the channel at the server,
/// `timeline_type` the kind of timeline under which its notes are cached.
#[derive(Debug)]
pub struct SubscriptionInfo {
    pub account_id: String,
    pub host: String,
    pub kind: SubscriptionKind,
    pub channel: String,
    pub timeline_type: String,
    pub params: Option<Json>,
}

/// The mathematical value of a [`SubscriptionInfo`].
pub struct SubscriptionV {
    pub account_id: Seq<char>,
    pub host: Seq<char>,
    pub kind: SubscriptionKind,
    pub channel: Seq<char>,
    pub timeline_type: Seq<char>,
    pub params: Option<JsonV>,
}

/// A copy of an optional JSON value.
pub fn copy_opt_json(o: &Option<Json>) -> (r: Option<Json>)
    ensures
        json::opt_json(r) == json::opt_json(*o),
{
    match o {
        Some(j) => Some(j.copy()),
        None => None,
    }
}

impl SubscriptionInfo {
    pub open spec fn view(&self) -> SubscriptionV {
        SubscriptionV {
            account_id: self.account_id@,
            host: self.host@,
            kind: self.kind,
            channel: self.channel@,
            timeline_type: self.timeline_type@,
            params: json::opt_json(self.params),
        }
    }

    /// A copy of this subscription.
    pub fn copy(&self) -> (r: SubscriptionInfo)
        ensures
            r@ == self@,
    {
        SubscriptionInfo {
            account_id: self.account_id.clone(),
            host: self.host.clone(),
            kind: self.kind,
            channel: self.channel.clone(),
            timeline_type: self.timeline_type.clone(),
            params: copy_opt_json(&self.params),
        }
    }
}

/// The subscriptions by their ids.
pub open spec fn subs_view(m: Map<Seq<char>, SubscriptionInfo>) -> Map<Seq<char>, SubscriptionV> {
    m.map_values(|i: SubscriptionInfo| i@)
}

/// What the task of a connection is told.
#[derive(Debug)]
pub enum WsCommand {
    Subscribe { channel: String, id: String, params: Option<Json> },
    Unsubscribe { id: String },
    SubNote { id: String },
    UnsubNote { id: String },
    Shutdown,
}

/// The mathematical value of a [`WsCommand`].
pub enum WsCommandV {
    Subscribe { channel: Seq<char>, id: Seq<char>, params: Option<JsonV> },
    Unsubscribe { id: Seq<char> },
    SubNote { id: Seq<char> },
    UnsubNote { id: Seq<char> },
    Shutdown,
}

impl WsCommand {
    pub open spec fn view(&self) -> WsCommandV {
        match *self {
            WsCommand::Subscribe { channel, id, params } => WsCommandV::Subscribe {
                channel: channel@,
                id: id@,
                params: json::opt_json(params),
            },
            WsCommand::Unsubscribe { id } => WsCommandV::Unsubscribe { id: id@ },
            WsCommand::SubNote { id } => WsCommandV::SubNote { id: id@ },
            WsCommand::UnsubNote { id } => WsCommandV::UnsubNote { id: id@ },
            WsCommand::Shutdown => WsCommandV::Shutdown,
        }
    }
}

/// The commands of a list.
pub open spec fn commands_view(v: Seq<WsCommand>) -> Seq<WsCommandV> {
    Seq::new(v.len(), |i: int| v[i]@)
}

/// A message to the server: its type and its body.
pub open spec fn envelope(kind: Seq<char>, body: JsonV) -> JsonV {
    json::empty_object().with("type"@, JsonV::Str(kind)).with("body"@, body)
}

/// The body of a message that speaks of one thing by its id.
pub open spec fn id_body(id: Seq<char>) -> JsonV {
    json::empty_object().with("id"@, JsonV::Str(id))
}

/// The message that joins a channel under an id.
pub open spec fn connect_message(
    channel: Seq<char>,
    id: Seq<char>,
    params: Option<JsonV>,
) -> JsonV {
    envelope(
        "connect"@,
        json::empty_object().with("channel"@, JsonV::Str(channel)).with(
            "id"@,
            JsonV::Str(id),
        ).with_opt("params"@, params),
    )
}

/// The message that carries out a command, where there is one.
pub open spec fn message_for(cmd: WsCommandV) -> Option<JsonV> {
    match cmd {
        WsCommandV::Subscribe { channel, id, params } => Some(connect_message(channel, id, params)),
        WsCommandV::Unsubscribe { id } => Some(envelope("disconnect"@, id_body(id))),
        WsCommandV::SubNote { id } => Some(envelope("subNote"@, id_body(id))),
        WsCommandV::UnsubNote { id } => Some(envelope("unsubNote"@, id_body(id))),
        WsCommandV::Shutdown => None,
    }
}

fn enveloped(kind: &str, body: Json) -> (r: Json)
    ensures
        r@ == envelope(kind@, body@),
{
    let mut msg = Json::object();
    msg.set_str("type", kind);
    msg.set("body", body);
    msg
}

fn body_with_id(id: &str) -> (r: Json)
    ensures
        r@ == id_body(id@),
{
    let mut body = Json::object();
    body.set_str("id", id);
    body
}

/// Makes the message that joins a channel.
pub fn connect_to(channel: &str, id: &str, params: &Option<Json>) -> (r: Json)
    ensures
        r@ == connect_message(channel@, id@, json::opt_json(*params)),
{
    let mut body = Json::object();
    body.set_str("channel", channel);
    body.set_str("id", id);
    body.set_opt_json("params", params);
    enveloped("connect", body)
}

/// Makes the message that carries out a command. A shutdown has none.
pub fn command_message(cmd: &WsCommand) -> (r: Option<Json>)
    ensures
        json::opt_json(r) == message_for(cmd@),
{
    match cmd {
        WsCommand::Subscribe { channel, id, params } => Some(
            connect_to(channel.as_str(), id.as_str(), params),
        ),
        WsCommand::Unsubscribe { id } => Some(enveloped("disconnect", body_with_id(id.as_str()))),
        WsCommand::SubNote { id } => Some(enveloped("subNote", body_with_id(id.as_str()))),
        WsCommand::UnsubNote { id } => Some(enveloped("unsubNote", body_with_id(id.as_str()))),
        WsCommand::Shutdown => None,
    }
}

/// Whether an entry is of an account.
pub open spec fn is_of(account_id: Seq<char>) -> spec_fn((Seq<char>, SubscriptionInfo)) -> bool {
    |e: (Seq<char>, SubscriptionInfo)| e.1.account_id@ == account_id
}

/// The entries of one account, in order.
pub open spec fn of_account(
    order: Seq<(Seq<char>, SubscriptionInfo)>,
    account_id: Seq<char>,
) -> Seq<(Seq<char>, SubscriptionInfo)> {
    order.filter(is_of(account_id))
}

/// The messages that join the channels of some entries again.
pub open spec fn joins(entries: Seq<(Seq<char>, SubscriptionInfo)>) -> Seq<JsonV> {
    Seq::new(
        entries.len(),
        |i: int|
            connect_message(
                entries[i].1.channel@,
                entries[i].0,
                json::opt_json(entries[i].1.params),
            ),
    )
}

/// Makes the messages with which a new session takes up the subscriptions of
/// an account again: one for each of them, and no other.
pub fn resubscribe_messages(subs: &Table<SubscriptionInfo>, account_id: &str) -> (r: Vec<Json>)
    ensures
        json::items_view(r@) == joins(of_account(subs.order(), account_id@)),
{
    let mut out: Vec<Json> = Vec::new();
    let ghost keep = is_of(account_id@);
    proof {
        assert(json::items_view(out@) =~= joins(subs.order().take(0).filter(keep))) by {
            reveal(Seq::filter);
        }
    }
    let mut i: usize = 0;
    while i < subs.len()
        invariant
            0 <= i <= subs.order().len(),
            keep == is_of(account_id@),
            json::items_view(out@) == joins(subs.order().take(i as int).filter(keep)),
        decreases subs.order().len() - i,
    {
        let info = subs.value_at(i);
        let ghost done = subs.order().take(i as int);
        let ghost before = out@;
        proof {
            assert(subs.order().take(i + 1) =~= done.push(subs.order()[i as int]));
            assert(done.push(subs.order()[i as int]).drop_last() =~= done);
            reveal(Seq::filter);
        }
        if text::same(info.account_id.as_str(), account_id) {
            let msg = connect_to(info.channel.as_str(), subs.key_at(i), &info.params);
            out.push(msg);
            proof {
                assert(json::items_view(out@) =~= json::items_view(before).push(msg@));
                assert(joins(done.filter(keep).push(subs.order()[i as int])) =~= joins(
                    done.filter(keep),
                ).push(msg@));
            }
        }
        i += 1;
    }
    proof {
        assert(subs.order().take(i as int) =~= subs.order());
    }
    out
}

/// What a filter lets through was in the list.
pub proof fn lemma_filter_source<A>(s: Seq<A>, keep: spec_fn(A) -> bool, k: int)
    requires
        0 <= k < s.filter(keep).len(),
    ensures
        s.contains(s.filter(keep)[k]),
        keep(s.filter(keep)[k]),
    decreases s.len(),
{
    reveal(Seq::filter);
    if s.len() > 0 {
        let head = s.drop_last();
        if k < head.filter(keep).len() {
            lemma_filter_source(head, keep, k);
            let i = choose|i: int| 0 <= i < head.len() && head[i] == head.filter(keep)[k];
            assert(s[i] == head[i]);
        } else {
            assert(s[s.len() - 1] == s.filter(keep)[k]);
        }
    }
}

/// A session takes up each subscription of its account, and no other: there is
/// a message for an entry if and only if the entry is of the account.
pub proof fn law_resubscribes_all_and_only(
    order: Seq<(Seq<char>, SubscriptionInfo)>,
    account_id: Seq<char>,
)
    ensures
        forall|i: int|
            0 <= i < order.len() && (#[trigger] order[i]).1.account_id@ == account_id ==> joins(
                of_account(order, account_id),
            ).contains(
                connect_message(order[i].1.channel@, order[i].0, json::opt_json(order[i].1.params)),
            ),
        forall|m: JsonV| #[trigger]
            joins(of_account(order, account_id)).contains(m) ==> exists|i: int|
                0 <= i < order.len() && (#[trigger] order[i]).1.account_id@ == account_id && m
                    == connect_message(
                    order[i].1.channel@,
                    order[i].0,
                    json::opt_json(order[i].1.params),
                ),
{
    let keep = is_of(account_id);
    let kept = of_account(order, account_id);
    broadcast use vstd::seq_lib::group_filter_ensures;

    assert forall|i: int|
        0 <= i < order.len() && (#[trigger] order[i]).1.account_id@ == account_id implies joins(
        kept,
    ).contains(
        connect_message(order[i].1.channel@, order[i].0, json::opt_json(order[i].1.params)),
    ) by {
        assert(keep(order[i]));
        assert(kept.contains(order[i]));
        let k = choose|k: int| 0 <= k < kept.len() && kept[k] == order[i];
        assert(joins(kept)[k] == connect_message(
            order[i].1.channel@,
            order[i].0,
            json::opt_json(order[i].1.params),
        ));
    }
    assert forall|m: JsonV| #[trigger] joins(kept).contains(m) implies exists|i: int|
        0 <= i < order.len() && (#[trigger] order[i]).1.account_id@ == account_id && m
            == connect_message(
            order[i].1.channel@,
            order[i].0,
            json::opt_json(order[i].1.params),
        ) by {
        let k = choose|k: int| 0 <= k < joins(kept).len() && joins(kept)[k] == m;
        lemma_filter_source(order, keep, k);
        assert(keep(kept[k]));
        let i = choose|i: int| 0 <= i < order.len() && order[i] == kept[k];
        assert(order[i].1.account_id@ == account_id);
    }
}

proof fn lemma_message_members_differ()
    ensures
        "type"@ != "body"@,
        "type"@ != "channel"@,
        "type"@ != "id"@,
        "type"@ != "params"@,
        "body"@ != "channel"@,
        "body"@ != "id"@,
        "body"@ != "params"@,
        "channel"@ != "id"@,
        "channel"@ != "params"@,
        "id"@ != "params"@,
{
    reveal_strlit("type");
    reveal_strlit("body");
    reveal_strlit("channel");
    reveal_strlit("id");
    reveal_strlit("params");
    assert("type"@.len() == 4);
    assert("body"@.len() == 4);
    assert("channel"@.len() == 7);
    assert("id"@.len() == 2);
    assert("params"@.len() == 6);
    assert("type"@[0] != "body"@[0]);
}

/// What a command makes the server be sent: a message of the type that is named
/// for it, about the id of the command. To join a channel names the channel too,
/// and sends parameters exactly where there are some. A shutdown sends nothing.
pub proof fn law_command_is_sent_as_its_message(cmd: WsCommandV, key: Seq<char>)
    ensures
        match cmd {
            WsCommandV::Shutdown => message_for(cmd) is None,
            WsCommandV::Subscribe { channel, id, params } => message_for(cmd) matches Some(m) && {
                &&& m.member("type"@) == Some(JsonV::Str("connect"@))
                &&& m.member("body"@) matches Some(b) && {
                    &&& b.member("channel"@) == Some(JsonV::Str(channel))
                    &&& b.member("id"@) == Some(JsonV::Str(id))
                    &&& b.member("params"@) == params
                    &&& key != "channel"@ && key != "id"@ && key != "params"@ ==> b.member(key) is None
                }
                &&& m == connect_message(channel, id, params)
            },
            WsCommandV::Unsubscribe { id } => message_for(cmd) matches Some(m) && {
                &&& m.member("type"@) == Some(JsonV::Str("disconnect"@))
                &&& m.member("body"@) matches Some(b) && b.member("id"@) == Some(JsonV::Str(id)) && (key
                    != "id"@ ==> b.member(key) is None)
            },
            WsCommandV::SubNote { id } => message_for(cmd) matches Some(m) && {
                &&& m.member("type"@) == Some(JsonV::Str("subNote"@))
                &&& m.member("body"@) matches Some(b) && b.member("id"@) == Some(JsonV::Str(id)) && (key
                    != "id"@ ==> b.member(key) is None)
            },
            WsCommandV::UnsubNote { id } => message_for(cmd) matches Some(m) && {
                &&& m.member("type"@) == Some(JsonV::Str("unsubNote"@))
                &&& m.member("body"@) matches Some(b) && b.member("id"@) == Some(JsonV::Str(id)) && (key
                    != "id"@ ==> b.member(key) is None)
            },
        },
        message_for(cmd) matches Some(m) ==> (key != "type"@ && key != "body"@ ==> m.member(key) is None),
{
    broadcast use json::lemma_member_of_with;

    lemma_message_members_differ();
}

/// A subscription that is taken up again is taken up in order, and there are as
/// many messages as subscriptions of the account: what was subscribed to first
/// is joined first.
pub proof fn law_resubscribes_in_order(
    order: Seq<(Seq<char>, SubscriptionInfo)>,
    e: (Seq<char>, SubscriptionInfo),
    account_id: Seq<char>,
)
    ensures
        joins(of_account(order.push(e), account_id)) == if e.1.account_id@ == account_id {
            joins(of_account(order, account_id)).push(
                connect_message(e.1.channel@, e.0, json::opt_json(e.1.params)),
            )
        } else {
            joins(of_account(order, account_id))
        },
        joins(of_account(Seq::<(Seq<char>, SubscriptionInfo)>::empty(), account_id)).len() == 0,
{
    reveal(Seq::filter);
    assert(order.push(e).drop_last() =~= order);
    let a = joins(of_account(order.push(e), account_id));
    if e.1.account_id@ == account_id {
        assert(a =~= joins(of_account(order, account_id)).push(
            connect_message(e.1.channel@, e.0, json::opt_json(e.1.params)),
        ));
    } else {
        assert(a =~= joins(of_account(order, account_id)));
    }
}

} // verus!
