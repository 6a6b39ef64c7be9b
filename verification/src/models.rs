//! The data that the rest of the crate works on.
use vstd::prelude::*;

use crate::json::Json;
use crate::text;

verus! {

/// A copy of an optional string.
pub fn copy_opt(o: &Option<String>) -> (r: Option<String>)
    ensures
        r == *o,
{
    match o {
        Some(s) => Some(s.clone()),
        None => None,
    }
}

/// An account that the user has logged in to.
#[derive(Debug, PartialEq)]
pub struct Account {
    pub id: String,
    pub host: String,
    pub token: String,
    pub user_id: String,
    pub username: String,
    pub display_name: Option<String>,
    pub avatar_url: Option<String>,
    pub software: String,
}

impl Account {
    /// A copy of this account.
    pub fn copy(&self) -> (r: Account)
        ensures
            r == *self,
    {
        Account {
            id: self.id.clone(),
            host: self.host.clone(),
            token: self.token.clone(),
            user_id: self.user_id.clone(),
            username: self.username.clone(),
            display_name: copy_opt(&self.display_name),
            avatar_url: copy_opt(&self.avatar_url),
            software: self.software.clone(),
        }
    }
}

/// What is known of a server.
#[derive(Debug, PartialEq)]
pub struct StoredServer {
    pub host: String,
    pub software: String,
    pub version: String,
    pub features_json: String,
    pub updated_at: i64,
}

/// A user as notes and notifications show one.
#[derive(Debug, PartialEq)]
pub struct NormalizedUser {
    pub id: String,
    pub username: String,
    pub host: Option<String>,
    pub name: Option<String>,
    pub avatar_url: Option<String>,
    pub emojis: Vec<(String, String)>,
    pub is_bot: bool,
    pub avatar_decorations: Vec<Json>,
    pub instance: Option<Json>,
}

/// A user with profile and counts.
#[derive(Debug, PartialEq)]
pub struct NormalizedUserDetail {
    pub id: String,
    pub username: String,
    pub host: Option<String>,
    pub name: Option<String>,
    pub avatar_url: Option<String>,
    pub banner_url: Option<String>,
    pub description: Option<String>,
    pub followers_count: i64,
    pub following_count: i64,
    pub notes_count: i64,
    pub is_bot: bool,
    pub is_cat: bool,
    pub is_following: bool,
    pub is_followed: bool,
    pub created_at: Option<String>,
}

/// A note. Reactions are listed with their counts.
#[derive(Debug, PartialEq)]
pub struct NormalizedNote {
    pub id: String,
    pub account_id: String,
    pub server_host: String,
    pub created_at: String,
    pub text: Option<String>,
    pub cw: Option<String>,
    pub user: NormalizedUser,
    pub visibility: String,
    pub emojis: Vec<(String, String)>,
    pub reaction_emojis: Vec<(String, String)>,
    pub reactions: Vec<(String, i64)>,
    pub my_reaction: Option<String>,
    pub renote_count: i64,
    pub replies_count: i64,
    pub files: Vec<Json>,
    pub poll: Option<Json>,
    pub reply_id: Option<String>,
    pub renote_id: Option<String>,
    pub channel_id: Option<String>,
    pub reaction_acceptance: Option<String>,
    pub uri: Option<String>,
    pub url: Option<String>,
    pub updated_at: Option<String>,
    pub local_only: bool,
    pub visible_user_ids: Vec<String>,
    pub is_favorited: bool,
    pub mode_flags: Vec<(String, bool)>,
    pub reply: Option<Box<NormalizedNote>>,
    pub renote: Option<Box<NormalizedNote>>,
}

/// A notification.
#[derive(Debug, PartialEq)]
pub struct NormalizedNotification {
    pub id: String,
    pub notification_type: String,
    pub user: Option<NormalizedUser>,
    pub note: Option<NormalizedNote>,
    pub reaction: Option<String>,
}

/// A message of a chat, as the server sent it.
#[derive(Debug, PartialEq)]
pub struct ChatMessage {
    pub body: Json,
}

/// A custom emoji of a server.
#[derive(Debug, PartialEq)]
pub struct ServerEmoji {
    pub name: String,
    pub url: String,
    pub category: Option<String>,
    pub aliases: Vec<String>,
}

/// A channel: its id, and the whole of it as the server sent it.
#[derive(Debug, PartialEq)]
pub struct Channel {
    pub id: String,
    pub body: Json,
}

/// The outcome of an authentication.
#[derive(Debug, PartialEq)]
pub struct AuthResult {
    pub token: String,
    pub user: NormalizedUser,
}

/// A timeline, by the name that users give it.
#[derive(Debug, PartialEq)]
pub struct TimelineType {
    pub name: String,
}

/// The endpoint of a timeline.
pub open spec fn timeline_endpoint(name: Seq<char>) -> Seq<char> {
    if name == "home"@ {
        "notes/timeline"@
    } else if name == "social"@ {
        "notes/hybrid-timeline"@
    } else if name == "list"@ {
        "notes/user-list-timeline"@
    } else {
        "notes/"@ + name + "-timeline"@
    }
}

/// The streaming channel of a timeline.
pub open spec fn timeline_channel(name: Seq<char>) -> Seq<char> {
    if name == "social"@ {
        "hybridTimeline"@
    } else if name == "list"@ {
        "userList"@
    } else {
        name + "Timeline"@
    }
}

impl TimelineType {
    /// The timeline with a name.
    pub fn new(name: &str) -> (r: Self)
        ensures
            r.name@ == name@,
    {
        TimelineType { name: name.to_owned() }
    }

    /// The name of this timeline.
    pub fn as_str(&self) -> (r: &str)
        ensures
            r@ == self.name@,
    {
        self.name.as_str()
    }

    /// The endpoint that is asked for this timeline.
    pub fn api_endpoint(&self) -> (r: String)
        ensures
            r@ == timeline_endpoint(self.name@),
    {
        let name = self.name.as_str();
        if text::same(name, "home") {
            "notes/timeline".to_owned()
        } else if text::same(name, "social") {
            "notes/hybrid-timeline".to_owned()
        } else if text::same(name, "list") {
            "notes/user-list-timeline".to_owned()
        } else {
            let mut s = "notes/".to_owned();
            s.append(name);
            s.append("-timeline");
            s
        }
    }

    /// The channel that streams this timeline.
    pub fn ws_channel(&self) -> (r: String)
        ensures
            r@ == timeline_channel(self.name@),
    {
        let name = self.name.as_str();
        if text::same(name, "social") {
            "hybridTimeline".to_owned()
        } else if text::same(name, "list") {
            "userList".to_owned()
        } else {
            let mut s = name.to_owned();
            s.append("Timeline");
            s
        }
    }
}

/// Which notes a timeline is to hold.
#[derive(Debug, Clone, Copy, PartialEq)]
pub struct TimelineFilters {
    pub with_renotes: Option<bool>,
    pub with_replies: Option<bool>,
    pub with_files: Option<bool>,
    pub with_bots: Option<bool>,
    pub with_sensitive: Option<bool>,
}

/// Which part of a timeline is asked for.
#[derive(Debug, PartialEq)]
pub struct TimelineOptions {
    pub limit: i64,
    pub since_id: Option<String>,
    pub until_id: Option<String>,
    pub filters: Option<TimelineFilters>,
    pub list_id: Option<String>,
}

impl TimelineOptions {
    /// A page of at most `limit` notes between two ids, of every kind.
    pub fn new(limit: i64, since_id: Option<String>, until_id: Option<String>) -> (r: Self)
        ensures
            r.limit == limit,
            r.since_id == since_id,
            r.until_id == until_id,
            r.filters is None,
            r.list_id is None,
    {
        TimelineOptions { limit, since_id, until_id, filters: None, list_id: None }
    }
}

/// Which part of the search results is asked for. The dates are sent as they
/// are.
#[derive(Debug, PartialEq)]
pub struct SearchOptions {
    pub limit: i64,
    pub since_id: Option<String>,
    pub until_id: Option<String>,
    pub since_date: Option<Json>,
    pub until_date: Option<Json>,
}

impl SearchOptions {
    /// The first `limit` results.
    pub fn new(limit: i64) -> (r: Self)
        ensures
            r.limit == limit,
            r.since_id is None,
            r.until_id is None,
            r.since_date is None,
            r.until_date is None,
    {
        SearchOptions { limit, since_id: None, until_id: None, since_date: None, until_date: None }
    }
}

/// What a new note is to hold. The poll and the date are sent as they are.
#[derive(Debug, PartialEq)]
pub struct CreateNoteParams {
    pub text: Option<String>,
    pub cw: Option<String>,
    pub visibility: Option<String>,
    pub local_only: Option<bool>,
    pub mode_flags: Option<Vec<(String, bool)>>,
    pub reply_id: Option<String>,
    pub renote_id: Option<String>,
    pub file_ids: Option<Vec<String>>,
    pub poll: Option<Json>,
    pub scheduled_at: Option<Json>,
}

/// The timelines of a server by the names that users give them: what is asked
/// for each, and the channel that streams it.
pub proof fn law_timelines_have_their_names(name: Seq<char>)
    ensures
        name == "home"@ ==> timeline_endpoint(name) == "notes/timeline"@ && timeline_channel(name)
            == "homeTimeline"@,
        name == "local"@ ==> timeline_endpoint(name) == "notes/local-timeline"@ && timeline_channel(
            name,
        ) == "localTimeline"@,
        name == "social"@ ==> timeline_endpoint(name) == "notes/hybrid-timeline"@
            && timeline_channel(name) == "hybridTimeline"@,
        name == "global"@ ==> timeline_endpoint(name) == "notes/global-timeline"@
            && timeline_channel(name) == "globalTimeline"@,
        name == "list"@ ==> timeline_endpoint(name) == "notes/user-list-timeline"@
            && timeline_channel(name) == "userList"@,
        timeline_endpoint(name).len() > 6 && "notes/"@.is_prefix_of(timeline_endpoint(name)),
        "timeline"@.is_suffix_of(timeline_endpoint(name)),
{
    reveal_strlit("home");
    reveal_strlit("local");
    reveal_strlit("social");
    reveal_strlit("global");
    reveal_strlit("list");
    assert("home"@[0] != "list"@[0]);
    assert("social"@[0] != "global"@[0]);
    reveal_strlit("notes/");
    reveal_strlit("timeline");
    reveal_strlit("-timeline");
    reveal_strlit("Timeline");
    reveal_strlit("notes/timeline");
    reveal_strlit("notes/hybrid-timeline");
    reveal_strlit("notes/user-list-timeline");
    reveal_strlit("notes/local-timeline");
    reveal_strlit("notes/global-timeline");
    reveal_strlit("homeTimeline");
    reveal_strlit("localTimeline");
    reveal_strlit("globalTimeline");
    assert("notes/"@ + "local"@ + "-timeline"@ =~= "notes/local-timeline"@);
    assert("notes/"@ + "global"@ + "-timeline"@ =~= "notes/global-timeline"@);
    assert("home"@ + "Timeline"@ =~= "homeTimeline"@);
    assert("local"@ + "Timeline"@ =~= "localTimeline"@);
    assert("global"@ + "Timeline"@ =~= "globalTimeline"@);
    let e = timeline_endpoint(name);
    assert(e.take(6) =~= "notes/"@);
    assert(e.skip(e.len() - 8) =~= "timeline"@);
}

} // verus!
