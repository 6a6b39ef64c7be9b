//! What the commands ask of a server, and what they report.
use vstd::prelude::*;

use crate::api;
use crate::api::{ApiCall, ApiCallV, MisskeyClient};
use crate::cli::Commands;
use crate::error::NoteDeckError;
use crate::format::OutputFormat;
use crate::json;
use crate::json::{Json, JsonV};
use crate::models;
use crate::models::{
    CreateNoteParams, NormalizedNote, NormalizedNotification, NormalizedUserDetail, SearchOptions,
    TimelineOptions, TimelineType,
};
use crate::text;
use crate::theme;
use crate::theme::{Span, Style};

verus! {

/// The parameters of a note without anything.
pub fn blank_note() -> (r: CreateNoteParams)
    ensures
        r.text is None && r.cw is None && r.visibility is None && r.local_only is None,
        r.mode_flags is None && r.reply_id is None && r.renote_id is None,
        r.file_ids is None && r.poll is None && r.scheduled_at is None,
{
    CreateNoteParams {
        text: None,
        cw: None,
        visibility: None,
        local_only: None,
        mode_flags: None,
        reply_id: None,
        renote_id: None,
        file_ids: None,
        poll: None,
        scheduled_at: None,
    }
}

/// A user who is asked for: by `@user@host`, by `@user`, or by id.
pub enum UserTargetV {
    ByName(Seq<char>, Option<Seq<char>>),
    ById(Seq<char>),
}

/// Which user a text asks for.
pub open spec fn user_target(target: Seq<char>) -> UserTargetV {
    match text::without_first(target, '@') {
        Some(rest) => match text::split_first(rest, '@') {
            Some((user, host)) => UserTargetV::ByName(user, Some(host)),
            None => UserTargetV::ByName(rest, None),
        },
        None => UserTargetV::ById(target),
    }
}

/// The first question about a user: for one named by name, which id that name
/// has; for one named by id, for the user in detail.
pub open spec fn user_question(
    c: MisskeyClient,
    host: Seq<char>,
    token: Seq<char>,
    target: Seq<char>,
) -> ApiCallV {
    match user_target(target) {
        UserTargetV::ByName(user, user_host) => c.call(
            host,
            token,
            "users/show"@,
            api::params().with("username"@, api::s(user)).with_opt(
                "host"@,
                json::opt_str_json(user_host),
            ),
        ),
        UserTargetV::ById(id) => c.call(
            host,
            token,
            "users/show"@,
            api::params().with("userId"@, api::s(id)),
        ),
    }
}

/// Asks about a user. The flag tells that the answer is the user without the
/// details, which are then to be asked for by the id in it.
pub fn resolve_user(client: &MisskeyClient, host: &str, token: &str, target: &str) -> (r: (
    ApiCall,
    bool,
))
    ensures
        r.0@ == user_question(*client, host@, token@, target@),
        r.1 == (user_target(target@) is ByName),
{
    match text::strip_first(target, '@') {
        Some(rest) => match text::split_once(rest.as_str(), '@') {
            Some((user, user_host)) => (
                client.lookup_user(host, token, user.as_str(), Some(user_host.as_str())),
                true,
            ),
            None => (client.lookup_user(host, token, rest.as_str(), None), true),
        },
        None => (client.get_user_detail(host, token, target), false),
    }
}

/// The page with a limit alone.
pub open spec fn limited(limit: i64) -> JsonV {
    api::paged(api::params().with("limit"@, api::n(limit as int)), None, None)
}

/// The body of a note with a text, a warning, a visibility, a note that it
/// replies to, and a mark that keeps it on the server, where they are given.
pub open spec fn post_body(
    text: Seq<char>,
    cw: Option<Seq<char>>,
    visibility: Seq<char>,
    reply_to: Option<Seq<char>>,
    local_only: bool,
) -> JsonV {
    api::params().with("text"@, api::s(text)).with_opt("cw"@, json::opt_str_json(cw)).with(
        "visibility"@,
        api::s(visibility),
    ).with_opt(
        "localOnly"@,
        if local_only {
            Some(JsonV::Bool(true))
        } else {
            None
        },
    ).with_opt("replyId"@, json::opt_str_json(reply_to))
}

/// What a command asks of a server first; `None` where it asks nothing.
pub open spec fn question(
    cmd: Commands,
    c: MisskeyClient,
    host: Seq<char>,
    token: Seq<char>,
) -> Option<ApiCallV> {
    let p = api::params();
    match cmd {
        Commands::Daemon { .. } => None,
        Commands::Accounts => None,
        Commands::Login { .. } => None,
        Commands::Logout { .. } => None,
        Commands::Post { text, cw, visibility, reply_to, local_only } => Some(
            c.call(
                host,
                token,
                "notes/create"@,
                post_body(
                    text@,
                    text::opt_text(cw),
                    visibility@,
                    text::opt_text(reply_to),
                    local_only,
                ),
            ),
        ),
        Commands::Tl { timeline, limit } => Some(
            c.call(host, token, models::timeline_endpoint(timeline@), limited(limit)),
        ),
        Commands::Search { query, limit } => Some(
            c.call(
                host,
                token,
                "notes/search"@,
                api::paged(
                    p.with("query"@, api::s(query@)).with("limit"@, api::n(limit as int)),
                    None,
                    None,
                ),
            ),
        ),
        Commands::Notifications { limit } => Some(
            c.call(host, token, "i/notifications"@, limited(limit)),
        ),
        Commands::Mentions { limit } => Some(c.call(host, token, "notes/mentions"@, limited(limit))),
        Commands::Note { id } => Some(
            c.call(host, token, "notes/show"@, p.with("noteId"@, api::s(id@))),
        ),
        Commands::Replies { id, limit } => Some(
            c.call(
                host,
                token,
                "notes/children"@,
                p.with("noteId"@, api::s(id@)).with("limit"@, api::n(limit as u32 as int)),
            ),
        ),
        Commands::Thread { id, limit } => Some(
            c.call(
                host,
                token,
                "notes/conversation"@,
                p.with("noteId"@, api::s(id@)).with("limit"@, api::n(limit as u32 as int)),
            ),
        ),
        Commands::Delete { id } => Some(
            c.call(host, token, "notes/delete"@, p.with("noteId"@, api::s(id@))),
        ),
        Commands::Update { id, text, cw } => Some(
            c.call(
                host,
                token,
                "notes/update"@,
                p.with("noteId"@, api::s(id@)).with("text"@, api::s(text@)).with_opt(
                    "cw"@,
                    json::opt_str_json(text::opt_text(cw)),
                ),
            ),
        ),
        Commands::React { note_id, reaction } => Some(
            c.call(
                host,
                token,
                "notes/reactions/create"@,
                p.with("noteId"@, api::s(note_id@)).with("reaction"@, api::s(reaction@)),
            ),
        ),
        Commands::Unreact { note_id } => Some(
            c.call(host, token, "notes/reactions/delete"@, p.with("noteId"@, api::s(note_id@))),
        ),
        Commands::Renote { note_id } => Some(
            c.call(
                host,
                token,
                "notes/create"@,
                p.with("visibility"@, api::s("public"@)).with("renoteId"@, api::s(note_id@)),
            ),
        ),
        Commands::User { target } => Some(user_question(c, host, token, target@)),
        Commands::UserNotes { user_id, limit } => Some(
            c.call(
                host,
                token,
                "users/notes"@,
                api::paged(
                    p.with("userId"@, api::s(user_id@)).with("limit"@, api::n(limit as int)),
                    None,
                    None,
                ),
            ),
        ),
        Commands::Follow { user_id } => Some(
            c.call(host, token, "following/create"@, p.with("userId"@, api::s(user_id@))),
        ),
        Commands::Unfollow { user_id } => Some(
            c.call(host, token, "following/delete"@, p.with("userId"@, api::s(user_id@))),
        ),
        Commands::Favorite { note_id } => Some(
            c.call(host, token, "notes/favorites/create"@, p.with("noteId"@, api::s(note_id@))),
        ),
        Commands::Unfavorite { note_id } => Some(
            c.call(host, token, "notes/favorites/delete"@, p.with("noteId"@, api::s(note_id@))),
        ),
        Commands::Favorites { limit } => Some(c.call(host, token, "i/favorites"@, limited(limit))),
        Commands::Emojis => Some(c.call(host, token, "emojis"@, p)),
    }
}

/// The value of a request, where there is one.
pub open spec fn opt_call(o: Option<ApiCall>) -> Option<ApiCallV> {
    match o {
        Some(c) => Some(c@),
        None => None,
    }
}

/// Makes what a command asks of a server first.
pub fn request_for(cmd: &Commands, client: &MisskeyClient, host: &str, token: &str) -> (r: Option<
    ApiCall,
>)
    ensures
        opt_call(r) == question(*cmd, *client, host@, token@),
{
    match cmd {
        Commands::Daemon { .. } => None,
        Commands::Accounts => None,
        Commands::Login { .. } => None,
        Commands::Logout { .. } => None,
        Commands::Post { text, cw, visibility, reply_to, local_only } => {
            let mut params = blank_note();
            params.text = Some(text.clone());
            params.cw = models::copy_opt(cw);
            params.visibility = Some(visibility.clone());
            params.local_only = if *local_only {
                Some(true)
            } else {
                None
            };
            params.reply_id = models::copy_opt(reply_to);
            Some(client.create_note(host, token, params))
        },
        Commands::Tl { timeline, limit } => Some(
            client.get_timeline(
                host,
                token,
                TimelineType::new(timeline.as_str()),
                TimelineOptions::new(*limit, None, None),
            ),
        ),
        Commands::Search { query, limit } => Some(
            client.search_notes(host, token, query.as_str(), SearchOptions::new(*limit)),
        ),
        Commands::Notifications { limit } => Some(
            client.get_notifications(host, token, TimelineOptions::new(*limit, None, None)),
        ),
        Commands::Mentions { limit } => Some(
            client.get_mentions(host, token, *limit, None, None, None),
        ),
        Commands::Note { id } => Some(client.get_note(host, token, id.as_str())),
        Commands::Replies { id, limit } => {
            let n: u32 = #[verifier::truncate]
            (*limit as u32);
            Some(client.get_note_children(host, token, id.as_str(), n))
        },
        Commands::Thread { id, limit } => {
            let n: u32 = #[verifier::truncate]
            (*limit as u32);
            Some(client.get_note_conversation(host, token, id.as_str(), n))
        },
        Commands::Delete { id } => Some(client.delete_note(host, token, id.as_str())),
        Commands::Update { id, text, cw } => {
            let mut params = blank_note();
            params.text = Some(text.clone());
            params.cw = models::copy_opt(cw);
            Some(client.update_note(host, token, id.as_str(), params))
        },
        Commands::React { note_id, reaction } => Some(
            client.create_reaction(host, token, note_id.as_str(), reaction.as_str()),
        ),
        Commands::Unreact { note_id } => Some(
            client.delete_reaction(host, token, note_id.as_str()),
        ),
        Commands::Renote { note_id } => {
            let mut params = blank_note();
            params.visibility = Some("public".to_owned());
            params.renote_id = Some(note_id.clone());
            Some(client.create_note(host, token, params))
        },
        Commands::User { target } => Some(resolve_user(client, host, token, target.as_str()).0),
        Commands::UserNotes { user_id, limit } => Some(
            client.get_user_notes(
                host,
                token,
                user_id.as_str(),
                TimelineOptions::new(*limit, None, None),
            ),
        ),
        Commands::Follow { user_id } => Some(client.follow_user(host, token, user_id.as_str())),
        Commands::Unfollow { user_id } => Some(client.unfollow_user(host, token, user_id.as_str())),
        Commands::Favorite { note_id } => Some(
            client.create_favorite(host, token, note_id.as_str()),
        ),
        Commands::Unfavorite { note_id } => Some(
            client.delete_favorite(host, token, note_id.as_str()),
        ),
        Commands::Favorites { limit } => Some(client.get_favorites(host, token, *limit, None, None)),
        Commands::Emojis => Some(client.get_server_emojis(host, token)),
    }
}

/// What is said of an action on something: the word for it in JSON, its id, and
/// what is said of it in words.
pub open spec fn said(
    key: Seq<char>,
    id: Seq<char>,
    words: Seq<char>,
    fmt: OutputFormat,
) -> Seq<char> {
    if fmt.is_json() {
        "{\""@ + key + "\":\""@ + id + "\"}"@
    } else if fmt is Ids {
        id
    } else {
        words
    }
}

/// What becomes of a command: what the program does for it, and how the answer
/// of the server, if it asks one, is read and shown.
#[derive(Debug, Clone, Copy, PartialEq, Eq, Structural)]
pub enum Outcome {
    /// It serves.
    Serve,
    /// It lists the accounts; no account is needed.
    ListAccounts,
    /// It logs in; no account is needed.
    Login,
    /// It logs the named account out.
    Logout,
    /// The answer is the note that was posted.
    Posted,
    /// The answer is the note that passes another one on.
    Renoted,
    /// The answer is a note.
    Note,
    /// The answer is a list of notes.
    Notes,
    /// The answer is a list of favourites, which carry the notes.
    Favorites,
    /// The answer is a list of notifications.
    Notifications,
    /// The answer is a user.
    User,
    /// The answer is the emojis of the server.
    Emojis,
    /// The answer does not matter: what was done is reported.
    Report,
}

/// What becomes of a command.
pub open spec fn outcome(cmd: Commands) -> Outcome {
    match cmd {
        Commands::Daemon { .. } => Outcome::Serve,
        Commands::Accounts => Outcome::ListAccounts,
        Commands::Login { .. } => Outcome::Login,
        Commands::Logout { .. } => Outcome::Logout,
        Commands::Post { .. } => Outcome::Posted,
        Commands::Tl { .. } => Outcome::Notes,
        Commands::Search { .. } => Outcome::Notes,
        Commands::Notifications { .. } => Outcome::Notifications,
        Commands::Mentions { .. } => Outcome::Notes,
        Commands::Note { .. } => Outcome::Note,
        Commands::Replies { .. } => Outcome::Notes,
        Commands::Thread { .. } => Outcome::Notes,
        Commands::Delete { .. } => Outcome::Report,
        Commands::Update { .. } => Outcome::Report,
        Commands::React { .. } => Outcome::Report,
        Commands::Unreact { .. } => Outcome::Report,
        Commands::Renote { .. } => Outcome::Renoted,
        Commands::User { .. } => Outcome::User,
        Commands::UserNotes { .. } => Outcome::Notes,
        Commands::Follow { .. } => Outcome::Report,
        Commands::Unfollow { .. } => Outcome::Report,
        Commands::Favorite { .. } => Outcome::Report,
        Commands::Unfavorite { .. } => Outcome::Report,
        Commands::Favorites { .. } => Outcome::Favorites,
        Commands::Emojis => Outcome::Emojis,
    }
}

/// Tells what becomes of a command.
pub fn outcome_of(cmd: &Commands) -> (r: Outcome)
    ensures
        r == outcome(*cmd),
{
    match cmd {
        Commands::Daemon { .. } => Outcome::Serve,
        Commands::Accounts => Outcome::ListAccounts,
        Commands::Login { .. } => Outcome::Login,
        Commands::Logout { .. } => Outcome::Logout,
        Commands::Post { .. } => Outcome::Posted,
        Commands::Renote { .. } => Outcome::Renoted,
        Commands::Note { .. } => Outcome::Note,
        Commands::Notifications { .. } => Outcome::Notifications,
        Commands::User { .. } => Outcome::User,
        Commands::Favorites { .. } => Outcome::Favorites,
        Commands::Emojis => Outcome::Emojis,
        Commands::Tl { .. }
        | Commands::Search { .. }
        | Commands::Mentions { .. }
        | Commands::Replies { .. }
        | Commands::Thread { .. }
        | Commands::UserNotes { .. } => Outcome::Notes,
        Commands::Delete { .. }
        | Commands::Update { .. }
        | Commands::React { .. }
        | Commands::Unreact { .. }
        | Commands::Follow { .. }
        | Commands::Unfollow { .. }
        | Commands::Favorite { .. }
        | Commands::Unfavorite { .. } => Outcome::Report,
    }
}

impl Outcome {
    /// The word that introduces the address of a note that was made.
    pub open spec fn word(self) -> Option<Seq<char>> {
        match self {
            Outcome::Posted => Some("Posted"@),
            Outcome::Renoted => Some("Renoted"@),
            _ => None,
        }
    }

    /// The word that introduces the address of a note that was made.
    pub fn intro(self) -> (r: Option<&'static str>)
        ensures
            text::opt_str(r) == self.word(),
    {
        match self {
            Outcome::Posted => Some("Posted"),
            Outcome::Renoted => Some("Renoted"),
            _ => None,
        }
    }
}

/// A server is asked for every command but those that serve, log in or out, or
/// list the accounts; and exactly the commands that change something without
/// making a note are reported.
pub proof fn law_outcome_tells_what_is_asked_and_reported(
    cmd: Commands,
    c: MisskeyClient,
    host: Seq<char>,
    token: Seq<char>,
    fmt: OutputFormat,
)
    ensures
        question(cmd, c, host, token) is None <==> outcome(cmd) is Serve || outcome(
            cmd,
        ) is ListAccounts || outcome(cmd) is Login || outcome(cmd) is Logout,
        reported(cmd, fmt) is Some <==> outcome(cmd) is Report,
{
}

/// What a command that changes something reports once it is done; `None` where
/// the command is not of that kind.
pub open spec fn reported(cmd: Commands, fmt: OutputFormat) -> Option<Seq<char>> {
    match cmd {
        Commands::Delete { id } => Some(said("deleted"@, id@, "Deleted: "@ + id@, fmt)),
        Commands::Update { id, .. } => Some(said("updated"@, id@, "Updated: "@ + id@, fmt)),
        Commands::React { note_id, reaction } => Some(
            if fmt.is_json() {
                "{\"reacted\":\""@ + note_id@ + "\",\"reaction\":\""@ + reaction@ + "\"}"@
            } else if fmt is Ids {
                note_id@
            } else {
                "Reacted "@ + reaction@ + " to "@ + note_id@
            },
        ),
        Commands::Unreact { note_id } => Some(
            said("unreacted"@, note_id@, "Unreacted from "@ + note_id@, fmt),
        ),
        Commands::Follow { user_id } => Some(
            said("followed"@, user_id@, "Followed: "@ + user_id@, fmt),
        ),
        Commands::Unfollow { user_id } => Some(
            said("unfollowed"@, user_id@, "Unfollowed: "@ + user_id@, fmt),
        ),
        Commands::Favorite { note_id } => Some(
            said("favorited"@, note_id@, "Favorited: "@ + note_id@, fmt),
        ),
        Commands::Unfavorite { note_id } => Some(
            said("unfavorited"@, note_id@, "Unfavorited: "@ + note_id@, fmt),
        ),
        _ => None,
    }
}

fn say(key: &str, id: &str, intro: &str, fmt: OutputFormat) -> (r: String)
    ensures
        r@ == said(key@, id@, intro@ + id@, fmt),
{
    let mut json = "{\"".to_owned();
    json.append(key);
    json.append("\":\"");
    json.append(id);
    json.append("\"}");
    let mut words = intro.to_owned();
    words.append(id);
    crate::format::print_action(fmt, json.as_str(), id, words.as_str()).to_owned()
}

/// Reports that a command that changes something is done.
pub fn report(cmd: &Commands, fmt: OutputFormat) -> (r: Option<String>)
    ensures
        text::opt_text(r) == reported(*cmd, fmt),
{
    match cmd {
        Commands::Delete { id } => Some(say("deleted", id.as_str(), "Deleted: ", fmt)),
        Commands::Update { id, .. } => Some(say("updated", id.as_str(), "Updated: ", fmt)),
        Commands::React { note_id, reaction } => {
            let mut json = "{\"reacted\":\"".to_owned();
            json.append(note_id.as_str());
            json.append("\",\"reaction\":\"");
            json.append(reaction.as_str());
            json.append("\"}");
            let mut words = "Reacted ".to_owned();
            words.append(reaction.as_str());
            words.append(" to ");
            words.append(note_id.as_str());
            Some(
                crate::format::print_action(
                    fmt,
                    json.as_str(),
                    note_id.as_str(),
                    words.as_str(),
                ).to_owned(),
            )
        },
        Commands::Unreact { note_id } => Some(
            say("unreacted", note_id.as_str(), "Unreacted from ", fmt),
        ),
        Commands::Follow { user_id } => Some(
            say("followed", user_id.as_str(), "Followed: ", fmt),
        ),
        Commands::Unfollow { user_id } => Some(
            say("unfollowed", user_id.as_str(), "Unfollowed: ", fmt),
        ),
        Commands::Favorite { note_id } => Some(
            say("favorited", note_id.as_str(), "Favorited: ", fmt),
        ),
        Commands::Unfavorite { note_id } => Some(
            say("unfavorited", note_id.as_str(), "Unfavorited: ", fmt),
        ),
        _ => None,
    }
}

/// A note that was made, where it is.
pub open spec fn made(intro: Seq<char>, host: Seq<char>, note: NormalizedNote) -> Seq<char> {
    intro + ": https://"@ + host + "/notes/"@ + note.id@
}

/// What is printed of a note that was made or asked for; `json` is its JSON
/// text. `intro` leads to where it is, where it was made; else it is shown in
/// full.
pub open spec fn printed_note(
    note: NormalizedNote,
    json: Seq<char>,
    intro: Option<Seq<char>>,
    host: Seq<char>,
    fmt: OutputFormat,
) -> Seq<Seq<(Style, Seq<char>)>> {
    if fmt.is_json() {
        crate::format::plain_lines(seq![json])
    } else if fmt is Ids {
        crate::format::plain_lines(seq![note.id@])
    } else if fmt is Compact {
        seq![crate::format::compact_note(note)]
    } else {
        match intro {
            Some(s) => crate::format::plain_lines(seq![made(s, host, note)]),
            None => crate::format::detailed_note(note),
        }
    }
}

fn one_line_of(s: &str) -> (r: Vec<Vec<Span>>)
    ensures
        theme::lines_view(r@) == crate::format::plain_lines(seq![s@]),
{
    let mut lines = theme::no_lines();
    theme::end(&mut lines, theme::plain_text_line(s));
    proof {
        assert(theme::lines_view(lines@) =~= crate::format::plain_lines(seq![s@]));
    }
    lines
}

/// Shows a note that was made or asked for.
pub fn print_note(
    note: &NormalizedNote,
    json: &str,
    intro: Option<&str>,
    host: &str,
    fmt: OutputFormat,
) -> (r: Vec<Vec<Span>>)
    requires
        fmt is Compact || (fmt is Default && intro is None) ==> crate::format::can_show(*note, fmt),
    ensures
        theme::lines_view(r@) == printed_note(*note, json@, text::opt_str(intro), host@, fmt),
{
    match fmt {
        OutputFormat::Json | OutputFormat::Jsonl => one_line_of(json),
        OutputFormat::Ids => one_line_of(note.id.as_str()),
        OutputFormat::Compact => {
            let mut lines = theme::no_lines();
            theme::end(&mut lines, crate::format::print_note_compact(note));
            proof {
                assert(theme::lines_view(lines@) =~= seq![crate::format::compact_note(*note)]);
            }
            lines
        },
        OutputFormat::Default => match intro {
            Some(intro) => {
                let mut s = intro.to_owned();
                s.append(": https://");
                s.append(host);
                s.append("/notes/");
                s.append(note.id.as_str());
                one_line_of(s.as_str())
            },
            None => crate::format::print_note_detail(note),
        },
    }
}

/// What is printed of a user; `json` is the JSON text.
pub open spec fn printed_user(d: NormalizedUserDetail, json: Seq<char>, fmt: OutputFormat) -> Seq<
    Seq<(Style, Seq<char>)>,
> {
    if fmt.is_json() {
        crate::format::plain_lines(seq![json])
    } else if fmt is Ids {
        crate::format::plain_lines(seq![d.id@])
    } else if fmt is Compact {
        crate::format::plain_lines(seq![crate::format::compact_user(d)])
    } else {
        crate::format::detailed_user(d)
    }
}

/// Shows a user.
pub fn print_user(d: &NormalizedUserDetail, json: &str, fmt: OutputFormat) -> (r: Vec<Vec<Span>>)
    ensures
        theme::lines_view(r@) == printed_user(*d, json@, fmt),
{
    match fmt {
        OutputFormat::Json | OutputFormat::Jsonl => one_line_of(json),
        OutputFormat::Ids => one_line_of(d.id.as_str()),
        OutputFormat::Compact => one_line_of(crate::format::print_user_compact(d).as_str()),
        OutputFormat::Default => crate::format::print_user_detail(d),
    }
}

/// Shows the notifications that a command asked for; `jsons` are their JSON
/// texts. The program leaves no gap behind a kind that it does not know.
pub fn print_notifications(
    notifications: &Vec<NormalizedNotification>,
    jsons: &Vec<String>,
    fmt: OutputFormat,
) -> (r: Vec<Vec<Span>>)
    requires
        fmt is Default ==> forall|i: int|
            0 <= i < notifications@.len() ==> crate::format::has_preview(
                #[trigger] notifications@[i],
            ),
    ensures
        theme::lines_view(r@) == crate::format::printed_notifications(
            notifications@,
            text::texts(jsons@),
            fmt,
            ""@,
        ),
{
    crate::format::notifications_with(notifications, jsons, fmt, "")
}

/// The JSON form in which an error is printed.
pub open spec fn error_json(e: NoteDeckError) -> JsonV {
    json::empty_object().with("error"@, JsonV::Str(e.spec_code())).with(
        "message"@,
        JsonV::Str(e.spec_safe_message()),
    )
}

/// What is printed of an error.
pub open spec fn error_text(e: NoteDeckError, fmt: OutputFormat) -> Seq<char> {
    if fmt.is_json() {
        json::rendered_json(error_json(e))
    } else {
        "Error: "@ + e.spec_safe_message()
    }
}

/// What is printed of an error: as JSON its code and its safe message, else the
/// safe message in words.
pub fn error_report(e: &NoteDeckError, fmt: OutputFormat) -> (r: String)
    ensures
        r@ == error_text(*e, fmt),
{
    match fmt {
        OutputFormat::Json | OutputFormat::Jsonl => {
            let mut o = Json::object();
            o.set_str("error", e.code());
            o.set_str("message", e.safe_message().as_str());
            o.render()
        },
        _ => {
            let mut s = "Error: ".to_owned();
            s.append(e.safe_message().as_str());
            s
        },
    }
}

proof fn lemma_parameters_differ()
    ensures
        "i"@ != "text"@,
        "i"@ != "cw"@,
        "i"@ != "visibility"@,
        "i"@ != "localOnly"@,
        "i"@ != "replyId"@,
        "i"@ != "renoteId"@,
        "i"@ != "noteId"@,
        "i"@ != "userId"@,
        "i"@ != "reaction"@,
        "i"@ != "query"@,
        "i"@ != "limit"@,
        "i"@ != "username"@,
        "i"@ != "host"@,
        "text"@ != "cw"@,
        "text"@ != "visibility"@,
        "text"@ != "localOnly"@,
        "text"@ != "replyId"@,
        "text"@ != "renoteId"@,
        "text"@ != "noteId"@,
        "text"@ != "userId"@,
        "text"@ != "reaction"@,
        "text"@ != "query"@,
        "text"@ != "limit"@,
        "text"@ != "username"@,
        "text"@ != "host"@,
        "cw"@ != "visibility"@,
        "cw"@ != "localOnly"@,
        "cw"@ != "replyId"@,
        "cw"@ != "renoteId"@,
        "cw"@ != "noteId"@,
        "cw"@ != "userId"@,
        "cw"@ != "reaction"@,
        "cw"@ != "query"@,
        "cw"@ != "limit"@,
        "cw"@ != "username"@,
        "cw"@ != "host"@,
        "visibility"@ != "localOnly"@,
        "visibility"@ != "replyId"@,
        "visibility"@ != "renoteId"@,
        "visibility"@ != "noteId"@,
        "visibility"@ != "userId"@,
        "visibility"@ != "reaction"@,
        "visibility"@ != "query"@,
        "visibility"@ != "limit"@,
        "visibility"@ != "username"@,
        "visibility"@ != "host"@,
        "localOnly"@ != "replyId"@,
        "localOnly"@ != "renoteId"@,
        "localOnly"@ != "noteId"@,
        "localOnly"@ != "userId"@,
        "localOnly"@ != "reaction"@,
        "localOnly"@ != "query"@,
        "localOnly"@ != "limit"@,
        "localOnly"@ != "username"@,
        "localOnly"@ != "host"@,
        "replyId"@ != "renoteId"@,
        "replyId"@ != "noteId"@,
        "replyId"@ != "userId"@,
        "replyId"@ != "reaction"@,
        "replyId"@ != "query"@,
        "replyId"@ != "limit"@,
        "replyId"@ != "username"@,
        "replyId"@ != "host"@,
        "renoteId"@ != "noteId"@,
        "renoteId"@ != "userId"@,
        "renoteId"@ != "reaction"@,
        "renoteId"@ != "query"@,
        "renoteId"@ != "limit"@,
        "renoteId"@ != "username"@,
        "renoteId"@ != "host"@,
        "noteId"@ != "userId"@,
        "noteId"@ != "reaction"@,
        "noteId"@ != "query"@,
        "noteId"@ != "limit"@,
        "noteId"@ != "username"@,
        "noteId"@ != "host"@,
        "userId"@ != "reaction"@,
        "userId"@ != "query"@,
        "userId"@ != "limit"@,
        "userId"@ != "username"@,
        "userId"@ != "host"@,
        "reaction"@ != "query"@,
        "reaction"@ != "limit"@,
        "reaction"@ != "username"@,
        "reaction"@ != "host"@,
        "query"@ != "limit"@,
        "query"@ != "username"@,
        "query"@ != "host"@,
        "limit"@ != "username"@,
        "limit"@ != "host"@,
        "username"@ != "host"@,
{
    reveal_strlit("i");
    reveal_strlit("text");
    reveal_strlit("cw");
    reveal_strlit("visibility");
    reveal_strlit("localOnly");
    reveal_strlit("replyId");
    reveal_strlit("renoteId");
    reveal_strlit("noteId");
    reveal_strlit("userId");
    reveal_strlit("reaction");
    reveal_strlit("query");
    reveal_strlit("limit");
    reveal_strlit("username");
    reveal_strlit("host");
    assert("i"@.len() == 1);
    assert("text"@.len() == 4);
    assert("cw"@.len() == 2);
    assert("visibility"@.len() == 10);
    assert("localOnly"@.len() == 9);
    assert("replyId"@.len() == 7);
    assert("renoteId"@.len() == 8);
    assert("noteId"@.len() == 6);
    assert("userId"@.len() == 6);
    assert("reaction"@.len() == 8);
    assert("query"@.len() == 5);
    assert("limit"@.len() == 5);
    assert("username"@.len() == 8);
    assert("host"@.len() == 4);
    assert("text"@[0] != "host"@[0]);
    assert("renoteId"@[2] != "reaction"@[2]);
    assert("renoteId"@[0] != "username"@[0]);
    assert("noteId"@[0] != "userId"@[0]);
    assert("reaction"@[0] != "username"@[0]);
    assert("query"@[0] != "limit"@[0]);
}

/// A command that acts on a note or a user asks the one endpoint that does what
/// the command is named for, about that note or user, and sends nothing else.
pub proof fn law_action_asks_its_own_endpoint(
    cmd: Commands,
    c: MisskeyClient,
    host: Seq<char>,
    token: Seq<char>,
)
    ensures
        match cmd {
            Commands::Note { id } => question(cmd, c, host, token) matches Some(r) && api::asks(
                r,
                c,
                host,
                token,
                "notes/show"@,
                |key: Seq<char>|
                    if key == "noteId"@ {
                        Some(JsonV::Str(id@))
                    } else {
                        None
                    },
            ),
            Commands::Delete { id } => question(cmd, c, host, token) matches Some(r) && api::asks(
                r,
                c,
                host,
                token,
                "notes/delete"@,
                |key: Seq<char>|
                    if key == "noteId"@ {
                        Some(JsonV::Str(id@))
                    } else {
                        None
                    },
            ),
            Commands::Unreact { note_id } => question(cmd, c, host, token) matches Some(r) && api::asks(
                r,
                c,
                host,
                token,
                "notes/reactions/delete"@,
                |key: Seq<char>|
                    if key == "noteId"@ {
                        Some(JsonV::Str(note_id@))
                    } else {
                        None
                    },
            ),
            Commands::Favorite { note_id } => question(cmd, c, host, token) matches Some(r) && api::asks(
                r,
                c,
                host,
                token,
                "notes/favorites/create"@,
                |key: Seq<char>|
                    if key == "noteId"@ {
                        Some(JsonV::Str(note_id@))
                    } else {
                        None
                    },
            ),
            Commands::Unfavorite { note_id } => question(cmd, c, host, token) matches Some(r) && api::asks(
                r,
                c,
                host,
                token,
                "notes/favorites/delete"@,
                |key: Seq<char>|
                    if key == "noteId"@ {
                        Some(JsonV::Str(note_id@))
                    } else {
                        None
                    },
            ),
            Commands::Follow { user_id } => question(cmd, c, host, token) matches Some(r) && api::asks(
                r,
                c,
                host,
                token,
                "following/create"@,
                |key: Seq<char>|
                    if key == "userId"@ {
                        Some(JsonV::Str(user_id@))
                    } else {
                        None
                    },
            ),
            Commands::Unfollow { user_id } => question(cmd, c, host, token) matches Some(r) && api::asks(
                r,
                c,
                host,
                token,
                "following/delete"@,
                |key: Seq<char>|
                    if key == "userId"@ {
                        Some(JsonV::Str(user_id@))
                    } else {
                        None
                    },
            ),
            Commands::React { note_id, reaction } => question(cmd, c, host, token) matches Some(r) && api::asks(
                r,
                c,
                host,
                token,
                "notes/reactions/create"@,
                |key: Seq<char>|
                    if key == "noteId"@ {
                        Some(JsonV::Str(note_id@))
                    } else if key == "reaction"@ {
                        Some(JsonV::Str(reaction@))
                    } else {
                        None
                    },
            ),
            _ => true,
        },
{
    broadcast use json::lemma_member_of_with;

    lemma_parameters_differ();
}

/// To take something back asks another endpoint than to do it, about the same
/// thing, and the report tells which of the two was done.
pub proof fn law_undoing_is_not_doing(
    c: MisskeyClient,
    host: Seq<char>,
    token: Seq<char>,
    id: String,
    reaction: String,
    fmt: OutputFormat,
)
    ensures
        ({
            let doing = seq![
                Commands::Follow { user_id: id },
                Commands::Favorite { note_id: id },
                Commands::React { note_id: id, reaction },
            ];
            let undoing = seq![
                Commands::Unfollow { user_id: id },
                Commands::Unfavorite { note_id: id },
                Commands::Unreact { note_id: id },
            ];
            forall|i: int|
                0 <= i < 3 ==> {
                    let a = question(#[trigger] doing[i], c, host, token)->0;
                    let b = question(#[trigger] undoing[i], c, host, token)->0;
                    &&& a.endpoint != b.endpoint
                    &&& a.url != b.url
                    &&& a.body.member("userId"@) == b.body.member("userId"@)
                    &&& a.body.member("noteId"@) == b.body.member("noteId"@)
                    &&& fmt is Default ==> reported(doing[i], fmt) != reported(undoing[i], fmt)
                }
        }),
{
    broadcast use json::lemma_member_of_with;

    lemma_parameters_differ();
    law_action_asks_its_own_endpoint(Commands::Follow { user_id: id }, c, host, token);
    law_action_asks_its_own_endpoint(Commands::Unfollow { user_id: id }, c, host, token);
    law_action_asks_its_own_endpoint(Commands::Favorite { note_id: id }, c, host, token);
    law_action_asks_its_own_endpoint(Commands::Unfavorite { note_id: id }, c, host, token);
    law_action_asks_its_own_endpoint(Commands::React { note_id: id, reaction }, c, host, token);
    law_action_asks_its_own_endpoint(Commands::Unreact { note_id: id }, c, host, token);
    let root = match c.base_url {
        Some(base) => base@ + "/api/"@,
        None => "https://"@ + host + "/api/"@,
    };
    let n = root.len() as int;
    reveal_strlit("following/create");
    reveal_strlit("following/delete");
    reveal_strlit("notes/favorites/create");
    reveal_strlit("notes/favorites/delete");
    reveal_strlit("notes/reactions/create");
    reveal_strlit("notes/reactions/delete");
    assert("following/create"@[10] != "following/delete"@[10]);
    assert("notes/favorites/create"@[16] != "notes/favorites/delete"@[16]);
    assert("notes/reactions/create"@[16] != "notes/reactions/delete"@[16]);
    assert((root + "following/create"@)[n + 10] != (root + "following/delete"@)[n + 10]);
    assert((root + "notes/favorites/create"@)[n + 16] != (root + "notes/favorites/delete"@)[n + 16]);
    assert((root + "notes/reactions/create"@)[n + 16] != (root + "notes/reactions/delete"@)[n + 16]);
    reveal_strlit("Followed: ");
    reveal_strlit("Unfollowed: ");
    reveal_strlit("Favorited: ");
    reveal_strlit("Unfavorited: ");
    reveal_strlit("Reacted ");
    reveal_strlit("Unreacted from ");
    assert(("Followed: "@ + id@)[0] == 'F' && ("Unfollowed: "@ + id@)[0] == 'U');
    assert(("Favorited: "@ + id@)[0] == 'F' && ("Unfavorited: "@ + id@)[0] == 'U');
    assert(("Reacted "@ + reaction@ + " to "@ + id@)[0] == 'R' && ("Unreacted from "@ + id@)[0]
        == 'U');
}

/// A command that asks for a list asks the endpoint of that list, for what it
/// names and for as many entries as it says.
pub proof fn law_list_is_asked_for_by_its_endpoint(
    cmd: Commands,
    c: MisskeyClient,
    host: Seq<char>,
    token: Seq<char>,
)
    ensures
        match cmd {
            Commands::Notifications { limit } => question(cmd, c, host, token) matches Some(r) && api::asks(
                r,
                c,
                host,
                token,
                "i/notifications"@,
                |key: Seq<char>|
                    if key == "limit"@ {
                        Some(JsonV::Int(limit as int))
                    } else {
                        None
                    },
            ),
            Commands::Mentions { limit } => question(cmd, c, host, token) matches Some(r) && api::asks(
                r,
                c,
                host,
                token,
                "notes/mentions"@,
                |key: Seq<char>|
                    if key == "limit"@ {
                        Some(JsonV::Int(limit as int))
                    } else {
                        None
                    },
            ),
            Commands::Favorites { limit } => question(cmd, c, host, token) matches Some(r) && api::asks(
                r,
                c,
                host,
                token,
                "i/favorites"@,
                |key: Seq<char>|
                    if key == "limit"@ {
                        Some(JsonV::Int(limit as int))
                    } else {
                        None
                    },
            ),
            Commands::Search { query, limit } => question(cmd, c, host, token) matches Some(r) && api::asks(
                r,
                c,
                host,
                token,
                "notes/search"@,
                |key: Seq<char>|
                    if key == "query"@ {
                        Some(JsonV::Str(query@))
                    } else if key == "limit"@ {
                        Some(JsonV::Int(limit as int))
                    } else {
                        None
                    },
            ),
            Commands::UserNotes { user_id, limit } => question(cmd, c, host, token) matches Some(r) && api::asks(
                r,
                c,
                host,
                token,
                "users/notes"@,
                |key: Seq<char>|
                    if key == "userId"@ {
                        Some(JsonV::Str(user_id@))
                    } else if key == "limit"@ {
                        Some(JsonV::Int(limit as int))
                    } else {
                        None
                    },
            ),
            Commands::Replies { id, limit } => question(cmd, c, host, token) matches Some(r) && api::asks(
                r,
                c,
                host,
                token,
                "notes/children"@,
                |key: Seq<char>|
                    if key == "noteId"@ {
                        Some(JsonV::Str(id@))
                    } else if key == "limit"@ {
                        Some(JsonV::Int(limit as u32 as int))
                    } else {
                        None
                    },
            ),
            Commands::Thread { id, limit } => question(cmd, c, host, token) matches Some(r) && api::asks(
                r,
                c,
                host,
                token,
                "notes/conversation"@,
                |key: Seq<char>|
                    if key == "noteId"@ {
                        Some(JsonV::Str(id@))
                    } else if key == "limit"@ {
                        Some(JsonV::Int(limit as u32 as int))
                    } else {
                        None
                    },
            ),
            Commands::Emojis => question(cmd, c, host, token) matches Some(r) && api::asks(
                r,
                c,
                host,
                token,
                "emojis"@,
                |key: Seq<char>| None,
            ),
            Commands::Tl { timeline, limit } => question(cmd, c, host, token) matches Some(r)
                && api::asks(
                r,
                c,
                host,
                token,
                r.endpoint,
                |key: Seq<char>|
                    if key == "limit"@ {
                        Some(JsonV::Int(limit as int))
                    } else {
                        None
                    },
            ) && {
                &&& timeline@ == "home"@ ==> r.endpoint == "notes/timeline"@
                &&& timeline@ == "local"@ ==> r.endpoint == "notes/local-timeline"@
                &&& timeline@ == "social"@ ==> r.endpoint == "notes/hybrid-timeline"@
                &&& timeline@ == "global"@ ==> r.endpoint == "notes/global-timeline"@
            },
            _ => true,
        },
{
    broadcast use json::lemma_member_of_with;

    lemma_parameters_differ();
    match cmd {
        Commands::Tl { timeline, .. } => {
            models::law_timelines_have_their_names(timeline@);
        },
        _ => {},
    }
}

/// A post sends the text and the visibility, the warning and the note that it
/// replies to exactly where they are given, and the mark that keeps it on the
/// server exactly where that is asked for. It sends nothing else.
pub proof fn law_post_sends_what_was_written(
    c: MisskeyClient,
    host: Seq<char>,
    token: Seq<char>,
    text: String,
    cw: Option<String>,
    visibility: String,
    reply_to: Option<String>,
    local_only: bool,
)
    ensures
        question(
            Commands::Post { text, cw, visibility, reply_to, local_only },
            c,
            host,
            token,
        ) matches Some(r) && api::asks(
            r,
            c,
            host,
            token,
            "notes/create"@,
            |key: Seq<char>|
                if key == "text"@ {
                    Some(JsonV::Str(text@))
                } else if key == "visibility"@ {
                    Some(JsonV::Str(visibility@))
                } else if key == "cw"@ {
                    api::text_param(cw)
                } else if key == "replyId"@ {
                    api::text_param(reply_to)
                } else if key == "localOnly"@ && local_only {
                    Some(JsonV::Bool(true))
                } else {
                    None
                },
        ),
{
    broadcast use json::lemma_member_of_with;

    lemma_parameters_differ();
}

/// A change of a note names the note, sends its new text, and a warning exactly
/// where one is given.
pub proof fn law_update_sends_what_was_written(
    c: MisskeyClient,
    host: Seq<char>,
    token: Seq<char>,
    id: String,
    text: String,
    cw: Option<String>,
)
    ensures
        question(Commands::Update { id, text, cw }, c, host, token) matches Some(r) && api::asks(
            r,
            c,
            host,
            token,
            "notes/update"@,
            |key: Seq<char>|
                if key == "noteId"@ {
                    Some(JsonV::Str(id@))
                } else if key == "text"@ {
                    Some(JsonV::Str(text@))
                } else if key == "cw"@ {
                    api::text_param(cw)
                } else {
                    None
                },
        ),
{
    broadcast use json::lemma_member_of_with;

    lemma_parameters_differ();
}

/// A renote makes a public note without a text that passes the named one on.
pub proof fn law_renote_passes_the_note_on(
    c: MisskeyClient,
    host: Seq<char>,
    token: Seq<char>,
    note_id: String,
)
    ensures
        question(Commands::Renote { note_id }, c, host, token) matches Some(r) && api::asks(
            r,
            c,
            host,
            token,
            "notes/create"@,
            |key: Seq<char>|
                if key == "renoteId"@ {
                    Some(JsonV::Str(note_id@))
                } else if key == "visibility"@ {
                    Some(JsonV::Str("public"@))
                } else {
                    None
                },
        ),
{
    broadcast use json::lemma_member_of_with;

    lemma_parameters_differ();
}

/// A user is asked for by name alone where `@` stands before the name, by name
/// and server where another `@` follows it, and by id where there is none.
pub proof fn law_user_is_asked_for_as_written(
    c: MisskeyClient,
    host: Seq<char>,
    token: Seq<char>,
    user: Seq<char>,
    server: Seq<char>,
    id: Seq<char>,
    target: String,
)
    requires
        !user.contains('@'),
        id.len() == 0 || id[0] != '@',
    ensures
        api::asks(
            user_question(c, host, token, seq!['@'] + user),
            c,
            host,
            token,
            "users/show"@,
            |key: Seq<char>|
                if key == "username"@ {
                    Some(JsonV::Str(user))
                } else {
                    None
                },
        ),
        api::asks(
            user_question(c, host, token, seq!['@'] + user + seq!['@'] + server),
            c,
            host,
            token,
            "users/show"@,
            |key: Seq<char>|
                if key == "username"@ {
                    Some(JsonV::Str(user))
                } else if key == "host"@ {
                    Some(JsonV::Str(server))
                } else {
                    None
                },
        ),
        api::asks(
            user_question(c, host, token, id),
            c,
            host,
            token,
            "users/show"@,
            |key: Seq<char>|
                if key == "userId"@ {
                    Some(JsonV::Str(id))
                } else {
                    None
                },
        ),
        question(Commands::User { target }, c, host, token) == Some(
            user_question(c, host, token, target@),
        ),
        user_target(seq!['@'] + user) is ByName,
        user_target(seq!['@'] + user + seq!['@'] + server) is ByName,
        user_target(id) is ById,
{
    broadcast use json::lemma_member_of_with;

    lemma_parameters_differ();
    let a = seq!['@'] + user;
    let b = seq!['@'] + user + seq!['@'] + server;
    assert(a.skip(1) =~= user);
    user.index_of_first_ensures('@');
    let rest = b.skip(1);
    assert(rest =~= user + seq!['@'] + server);
    rest.index_of_first_ensures('@');
    assert(rest[user.len() as int] == '@');
    assert(rest.contains('@'));
    let k = rest.index_of_first('@')->0;
    if k < user.len() {
        assert(user[k] == '@');
    }
    assert(k == user.len());
    assert(rest.take(k) =~= user);
    assert(rest.skip(k + 1) =~= server);
}

/// What is reported of an action, in each form: the id alone, the id as JSON
/// under the word for the action, or the action in words.
pub proof fn law_report_names_what_was_done(cmd: Commands, fmt: OutputFormat)
    ensures
        match cmd {
            Commands::Delete { id } => reported(cmd, fmt) == Some(
                match fmt {
                    OutputFormat::Json | OutputFormat::Jsonl => "{\""@ + "deleted"@ + "\":\""@ + id@
                        + "\"}"@,
                    OutputFormat::Ids => id@,
                    _ => "Deleted: "@ + id@,
                },
            ),
            Commands::Update { id, .. } => reported(cmd, fmt) == Some(
                match fmt {
                    OutputFormat::Json | OutputFormat::Jsonl => "{\""@ + "updated"@ + "\":\""@ + id@
                        + "\"}"@,
                    OutputFormat::Ids => id@,
                    _ => "Updated: "@ + id@,
                },
            ),
            Commands::React { note_id, reaction } => reported(cmd, fmt) == Some(
                match fmt {
                    OutputFormat::Json | OutputFormat::Jsonl => "{\"reacted\":\""@ + note_id@
                        + "\",\"reaction\":\""@ + reaction@ + "\"}"@,
                    OutputFormat::Ids => note_id@,
                    _ => "Reacted "@ + reaction@ + " to "@ + note_id@,
                },
            ),
            Commands::Unreact { note_id } => reported(cmd, fmt) == Some(
                match fmt {
                    OutputFormat::Json | OutputFormat::Jsonl => "{\""@ + "unreacted"@ + "\":\""@
                        + note_id@ + "\"}"@,
                    OutputFormat::Ids => note_id@,
                    _ => "Unreacted from "@ + note_id@,
                },
            ),
            Commands::Follow { user_id } => reported(cmd, fmt) == Some(
                match fmt {
                    OutputFormat::Json | OutputFormat::Jsonl => "{\""@ + "followed"@ + "\":\""@
                        + user_id@ + "\"}"@,
                    OutputFormat::Ids => user_id@,
                    _ => "Followed: "@ + user_id@,
                },
            ),
            Commands::Unfollow { user_id } => reported(cmd, fmt) == Some(
                match fmt {
                    OutputFormat::Json | OutputFormat::Jsonl => "{\""@ + "unfollowed"@ + "\":\""@
                        + user_id@ + "\"}"@,
                    OutputFormat::Ids => user_id@,
                    _ => "Unfollowed: "@ + user_id@,
                },
            ),
            Commands::Favorite { note_id } => reported(cmd, fmt) == Some(
                match fmt {
                    OutputFormat::Json | OutputFormat::Jsonl => "{\""@ + "favorited"@ + "\":\""@
                        + note_id@ + "\"}"@,
                    OutputFormat::Ids => note_id@,
                    _ => "Favorited: "@ + note_id@,
                },
            ),
            Commands::Unfavorite { note_id } => reported(cmd, fmt) == Some(
                match fmt {
                    OutputFormat::Json | OutputFormat::Jsonl => "{\""@ + "unfavorited"@ + "\":\""@
                        + note_id@ + "\"}"@,
                    OutputFormat::Ids => note_id@,
                    _ => "Unfavorited: "@ + note_id@,
                },
            ),
            _ => reported(cmd, fmt) is None,
        },
{
}

/// How the answer to a command is shown: what makes a note tells where it is,
/// what asks for a note, a user, emojis or notifications shows that, every other
/// list is one of notes, and what only changes something is reported.
pub proof fn law_answer_is_shown_as_what_it_is(cmd: Commands)
    ensures
        outcome(cmd) is Posted <==> cmd is Post,
        outcome(cmd) is Renoted <==> cmd is Renote,
        outcome(cmd) is Note <==> cmd is Note,
        outcome(cmd) is User <==> cmd is User,
        outcome(cmd) is Emojis <==> cmd is Emojis,
        outcome(cmd) is Notifications <==> cmd is Notifications,
        outcome(cmd) is Favorites <==> cmd is Favorites,
        outcome(cmd) is Notes <==> cmd is Tl || cmd is Search || cmd is Mentions || cmd is Replies
            || cmd is Thread || cmd is UserNotes,
        outcome(cmd) is Report <==> cmd is Delete || cmd is Update || cmd is React || cmd is Unreact
            || cmd is Follow || cmd is Unfollow || cmd is Favorite || cmd is Unfavorite,
        outcome(cmd) is Serve <==> cmd is Daemon,
        outcome(cmd) is ListAccounts <==> cmd is Accounts,
        outcome(cmd) is Login <==> cmd is Login,
        outcome(cmd) is Logout <==> cmd is Logout,
        outcome(cmd).word() == match cmd {
            Commands::Post { .. } => Some("Posted"@),
            Commands::Renote { .. } => Some("Renoted"@),
            _ => None,
        },
{
}

/// An error is printed with its code and the message that may be shown, and with
/// nothing else of it: in the JSON forms as JSON, and else in words.
pub proof fn law_error_is_printed_safely(e: NoteDeckError, fmt: OutputFormat, key: Seq<char>)
    ensures
        fmt is Json || fmt is Jsonl ==> error_text(e, fmt) == json::rendered_json(error_json(e)),
        !(fmt is Json || fmt is Jsonl) ==> error_text(e, fmt) == "Error: "@ + e.spec_safe_message(),
        error_json(e).member("error"@) == Some(JsonV::Str(e.spec_code())),
        error_json(e).member("message"@) == Some(JsonV::Str(e.spec_safe_message())),
        key != "error"@ && key != "message"@ ==> error_json(e).member(key) is None,
{
    broadcast use json::lemma_member_of_with;

    reveal_strlit("error");
    reveal_strlit("message");
    assert("error"@.len() != "message"@.len());
}

/// A note that was made is told with where it is, a note that was asked for is
/// shown in full; in the other forms both are shown alike: as JSON, as id, or on
/// one line.
pub proof fn law_note_is_shown_by_what_was_asked(
    note: NormalizedNote,
    json: Seq<char>,
    intro: Option<Seq<char>>,
    host: Seq<char>,
    fmt: OutputFormat,
)
    ensures
        ({
            let lines = printed_note(note, json, intro, host, fmt);
            &&& fmt is Json || fmt is Jsonl ==> lines.len() == 1 && lines[0] == seq![
                (Style::Plain, json),
            ]
            &&& fmt is Ids ==> lines.len() == 1 && lines[0] == seq![(Style::Plain, note.id@)]
            &&& fmt is Compact ==> lines.len() == 1 && lines[0] == crate::format::compact_note(note)
            &&& fmt is Default ==> match intro {
                Some(word) => lines.len() == 1 && lines[0] == seq![
                    (Style::Plain, word + ": https://"@ + host + "/notes/"@ + note.id@),
                ],
                None => lines == crate::format::detailed_note(note),
            }
        }),
{
}

/// A user is shown in full, on one line, as id or as JSON.
pub proof fn law_user_is_shown_by_form(
    d: NormalizedUserDetail,
    json: Seq<char>,
    fmt: OutputFormat,
)
    ensures
        ({
            let lines = printed_user(d, json, fmt);
            &&& fmt is Json || fmt is Jsonl ==> lines.len() == 1 && lines[0] == seq![
                (Style::Plain, json),
            ]
            &&& fmt is Ids ==> lines.len() == 1 && lines[0] == seq![(Style::Plain, d.id@)]
            &&& fmt is Compact ==> lines.len() == 1 && lines[0] == seq![
                (Style::Plain, crate::format::compact_user(d)),
            ]
            &&& fmt is Default ==> lines == crate::format::detailed_user(d)
        }),
{
}

} // verus!
