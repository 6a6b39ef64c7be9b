//! Requests about notes, timelines, drive files and chat.
use vstd::prelude::*;

use crate::api;
use crate::api::{ApiCall, MisskeyClient};
use crate::json;
use crate::json::{Json, JsonV};
use crate::models;
use crate::models::{CreateNoteParams, SearchOptions, TimelineFilters, TimelineOptions, TimelineType};
use crate::text;

verus! {

/// Whether a flag may be set on a note: `isNoteIn...Mode`, of at most thirty
/// bytes.
pub open spec fn is_note_mode(name: Seq<char>) -> bool {
    &&& "isNoteIn"@.is_prefix_of(name)
    &&& "Mode"@.is_suffix_of(name)
    &&& vstd::utf8::encode_utf8(name).len() <= 30
}

/// Flags by their names.
pub open spec fn flags_view(v: Seq<(String, bool)>) -> Seq<(Seq<char>, bool)> {
    Seq::new(v.len(), |i: int| (v[i].0@, v[i].1))
}

/// The parameters with the flags that may be set; the others are left out.
pub open spec fn with_modes(o: JsonV, flags: Seq<(Seq<char>, bool)>) -> JsonV
    decreases flags.len(),
{
    if flags.len() == 0 {
        o
    } else {
        let rest = with_modes(o, flags.drop_last());
        let (name, value) = flags.last();
        if is_note_mode(name) {
            rest.with(name, JsonV::Bool(value))
        } else {
            rest
        }
    }
}

/// The opposite of a flag, where there is one.
pub open spec fn opposite(o: Option<bool>) -> Option<bool> {
    match o {
        Some(b) => Some(!b),
        None => None,
    }
}

/// The parameters with a choice of notes. Bots and sensitive notes are named
/// in two ways, for the kinds of servers that know only one of them.
pub open spec fn filtered(o: JsonV, filters: Option<TimelineFilters>) -> JsonV {
    match filters {
        Some(f) => o.with_opt("withRenotes"@, json::opt_bool_json(f.with_renotes)).with_opt(
            "withReplies"@,
            json::opt_bool_json(f.with_replies),
        ).with_opt("withFiles"@, json::opt_bool_json(f.with_files)).with_opt(
            "withBots"@,
            json::opt_bool_json(f.with_bots),
        ).with_opt("excludeBots"@, json::opt_bool_json(opposite(f.with_bots))).with_opt(
            "withSensitive"@,
            json::opt_bool_json(f.with_sensitive),
        ).with_opt("excludeNsfw"@, json::opt_bool_json(opposite(f.with_sensitive))),
        None => o,
    }
}

/// A list of strings, where there is one.
pub open spec fn opt_list(o: Option<Vec<String>>) -> Option<JsonV> {
    match o {
        Some(v) => Some(json::str_list(text::texts(v@))),
        None => None,
    }
}

/// The parameters of a part of a timeline.
pub open spec fn timeline_params(options: TimelineOptions) -> JsonV {
    filtered(
        api::paged(
            api::params().with("limit"@, api::n(options.limit as int)),
            text::opt_text(options.since_id),
            text::opt_text(options.until_id),
        ),
        options.filters,
    ).with_opt("listId"@, json::opt_str_json(text::opt_text(options.list_id)))
}

/// The parameters of a search for notes.
pub open spec fn search_params(query: Seq<char>, options: SearchOptions) -> JsonV {
    api::paged(
        api::params().with("query"@, api::s(query)).with("limit"@, api::n(options.limit as int)),
        text::opt_text(options.since_id),
        text::opt_text(options.until_id),
    ).with_opt("sinceDate"@, json::opt_json(options.since_date)).with_opt(
        "untilDate"@,
        json::opt_json(options.until_date),
    )
}

/// The parameters of a new note.
pub open spec fn note_body(p: CreateNoteParams) -> JsonV {
    let a = api::params().with_opt("text"@, json::opt_str_json(text::opt_text(p.text))).with_opt(
        "cw"@,
        json::opt_str_json(text::opt_text(p.cw)),
    ).with_opt("visibility"@, json::opt_str_json(text::opt_text(p.visibility))).with_opt(
        "localOnly"@,
        json::opt_bool_json(p.local_only),
    );
    let b = match p.mode_flags {
        Some(flags) => with_modes(a, flags_view(flags@)),
        None => a,
    };
    b.with_opt("replyId"@, json::opt_str_json(text::opt_text(p.reply_id))).with_opt(
        "renoteId"@,
        json::opt_str_json(text::opt_text(p.renote_id)),
    ).with_opt("fileIds"@, opt_list(p.file_ids)).with_opt("poll"@, json::opt_json(p.poll)).with_opt(
        "scheduledAt"@,
        json::opt_json(p.scheduled_at),
    )
}

fn set_modes(body: &mut Json, flags: &Vec<(String, bool)>)
    requires
        (*old(body)) is Object,
    ensures
        (*final(body)) is Object,
        final(body)@ == with_modes(old(body)@, flags_view(flags@)),
{
    let ghost all = flags_view(flags@);
    let ghost start = body@;
    proof {
        assert(all.take(0) =~= Seq::empty());
    }
    let mut i: usize = 0;
    while i < flags.len()
        invariant
            0 <= i <= flags@.len(),
            all == flags_view(flags@),
            (*body) is Object,
            body@ == with_modes(start, all.take(i as int)),
        decreases flags@.len() - i,
    {
        proof {
            assert(all.take(i + 1).drop_last() =~= all.take(i as int));
            assert(all.take(i + 1).last() == all[i as int]);
        }
        let name = flags[i].0.as_str();
        if text::starts_with(name, "isNoteIn") && text::ends_with(name, "Mode") && name.as_bytes().len() <= 30 {
            body.set_bool(name, flags[i].1);
        }
        i += 1;
    }
    proof {
        assert(all.take(i as int) =~= all);
    }
}

fn set_opt_list(body: &mut Json, key: &str, list: &Option<Vec<String>>)
    requires
        (*old(body)) is Object,
    ensures
        (*final(body)) is Object,
        final(body)@ == old(body)@.with_opt(key@, opt_list(*list)),
{
    match list {
        Some(v) => body.set(key, Json::list_of(v.as_slice())),
        None => {},
    }
}

fn not(o: Option<bool>) -> (r: Option<bool>)
    ensures
        r == opposite(o),
{
    match o {
        Some(b) => Some(!b),
        None => None,
    }
}

fn as_ref(o: &Option<String>) -> (r: Option<&str>)
    ensures
        text::opt_str(r) == text::opt_text(*o),
{
    match o {
        Some(s) => Some(s.as_str()),
        None => None,
    }
}

/// The parameters of `get_chat_history`.
pub open spec fn chat_history_params(limit: int, room: bool) -> JsonV {
    api::params().with("limit"@, api::n(limit)).with_opt("room"@, if room { Some(JsonV::Bool(true)) } else { None })
}

/// The parameters of `get_antenna_notes`.
pub open spec fn antenna_notes_params(
    antenna_id: Seq<char>,
    limit: int,
    since_id: Option<Seq<char>>,
    until_id: Option<Seq<char>>,
) -> JsonV {
    api::paged(api::params().with("antennaId"@, api::s(antenna_id)).with("limit"@, api::n(limit)), since_id, until_id)
}

/// The parameters of `get_favorites`.
pub open spec fn favorites_params(
    limit: int,
    since_id: Option<Seq<char>>,
    until_id: Option<Seq<char>>,
) -> JsonV {
    api::paged(api::params().with("limit"@, api::n(limit)), since_id, until_id)
}

/// The parameters of `get_clip_notes`.
pub open spec fn clip_notes_params(
    clip_id: Seq<char>,
    limit: int,
    since_id: Option<Seq<char>>,
    until_id: Option<Seq<char>>,
) -> JsonV {
    api::paged(api::params().with("clipId"@, api::s(clip_id)).with("limit"@, api::n(limit)), since_id, until_id)
}

/// The parameters of `get_channel_notes`.
pub open spec fn channel_notes_params(
    channel_id: Seq<char>,
    limit: int,
    since_id: Option<Seq<char>>,
    until_id: Option<Seq<char>>,
) -> JsonV {
    api::paged(api::params().with("channelId"@, api::s(channel_id)).with("limit"@, api::n(limit)), since_id, until_id)
}

/// The parameters of `get_note_reactions`.
pub open spec fn note_reactions_params(
    note_id: Seq<char>,
    reaction_type: Option<Seq<char>>,
    limit: int,
    until_id: Option<Seq<char>>,
) -> JsonV {
    api::params().with("noteId"@, api::s(note_id)).with("limit"@, api::n(limit)).with_opt("type"@, json::opt_str_json(reaction_type)).with_opt("untilId"@, json::opt_str_json(until_id))
}

/// The parameters of `get_user_featured_notes`.
pub open spec fn user_featured_notes_params(
    user_id: Seq<char>,
    limit: int,
    until_id: Option<Seq<char>>,
) -> JsonV {
    api::paged(api::params().with("userId"@, api::s(user_id)).with("limit"@, api::n(limit)), None, until_id)
}

/// The parameters of `get_chat_user_messages`.
pub open spec fn chat_user_messages_params(
    user_id: Seq<char>,
    limit: int,
    since_id: Option<Seq<char>>,
    until_id: Option<Seq<char>>,
) -> JsonV {
    api::paged(api::params().with("userId"@, api::s(user_id)).with("limit"@, api::n(limit)), since_id, until_id)
}

/// The parameters of `get_chat_room_messages`.
pub open spec fn chat_room_messages_params(
    room_id: Seq<char>,
    limit: int,
    since_id: Option<Seq<char>>,
    until_id: Option<Seq<char>>,
) -> JsonV {
    api::paged(api::params().with("roomId"@, api::s(room_id)).with("limit"@, api::n(limit)), since_id, until_id)
}

/// The parameters of `get_drive_folders`.
pub open spec fn drive_folders_params(folder_id: Option<Seq<char>>, limit: int) -> JsonV {
    api::params().with("limit"@, api::n(limit)).with_opt("folderId"@, json::opt_str_json(folder_id))
}

/// The parameters of `get_drive_files`.
pub open spec fn drive_files_params(
    folder_id: Option<Seq<char>>,
    limit: int,
    file_type: Option<Seq<char>>,
) -> JsonV {
    api::params().with("limit"@, api::n(limit)).with_opt("folderId"@, json::opt_str_json(folder_id)).with_opt("type"@, json::opt_str_json(file_type))
}

/// The parameters of `get_mentions`.
pub open spec fn mentions_params(
    limit: int,
    since_id: Option<Seq<char>>,
    until_id: Option<Seq<char>>,
    visibility: Option<Seq<char>>,
) -> JsonV {
    api::paged(api::params().with("limit"@, api::n(limit)), since_id, until_id).with_opt("visibility"@, json::opt_str_json(visibility))
}

/// The parameters of `get_user_notes`.
pub open spec fn user_notes_params(user_id: Seq<char>, options: TimelineOptions) -> JsonV {
    api::paged(api::params().with("userId"@, api::s(user_id)).with("limit"@, api::n(options.limit as int)), text::opt_text(options.since_id), text::opt_text(options.until_id))
}

/// The parameters of `get_notifications`.
pub open spec fn notifications_params(options: TimelineOptions) -> JsonV {
    api::paged(api::params().with("limit"@, api::n(options.limit as int)), text::opt_text(options.since_id), text::opt_text(options.until_id))
}

/// The parameters of `get_notifications_grouped`.
pub open spec fn notifications_grouped_params(options: TimelineOptions) -> JsonV {
    api::paged(api::params().with("limit"@, api::n(options.limit as int)), text::opt_text(options.since_id), text::opt_text(options.until_id))
}

/// The parameters of `update_note`.
pub open spec fn update_note_params(note_id: Seq<char>, params: CreateNoteParams) -> JsonV {
    api::params().with("noteId"@, api::s(note_id)).with_opt("text"@, json::opt_str_json(text::opt_text(params.text))).with_opt("cw"@, json::opt_str_json(text::opt_text(params.cw))).with_opt("fileIds"@, opt_list(params.file_ids))
}

impl MisskeyClient {
    /// A part of a timeline.
    pub fn get_timeline(
        &self,
        host: &str,
        token: &str,
        timeline_type: TimelineType,
        options: TimelineOptions,
    ) -> (r: ApiCall)
        ensures
            r@ == self.call(
                host@,
                token@,
                models::timeline_endpoint(timeline_type.name@),
                timeline_params(options),
            ),
    {
        let mut params = Json::object();
        params.set_int("limit", options.limit);
        api::apply_pagination(&mut params, as_ref(&options.since_id), as_ref(&options.until_id));
        match &options.filters {
            Some(f) => {
                params.set_opt_bool("withRenotes", f.with_renotes);
                params.set_opt_bool("withReplies", f.with_replies);
                params.set_opt_bool("withFiles", f.with_files);
                params.set_opt_bool("withBots", f.with_bots);
                params.set_opt_bool("excludeBots", not(f.with_bots));
                params.set_opt_bool("withSensitive", f.with_sensitive);
                params.set_opt_bool("excludeNsfw", not(f.with_sensitive));
            },
            None => {},
        }
        params.set_opt_string("listId", &options.list_id);
        self.request(host, token, timeline_type.api_endpoint().as_str(), params)
    }

    /// A new note.
    pub fn create_note(&self, host: &str, token: &str, params: CreateNoteParams) -> (r: ApiCall)
        ensures
            r@ == self.call(host@, token@, "notes/create"@, note_body(params)),
    {
        let mut body = Json::object();
        body.set_opt_string("text", &params.text);
        body.set_opt_string("cw", &params.cw);
        body.set_opt_string("visibility", &params.visibility);
        body.set_opt_bool("localOnly", params.local_only);
        match &params.mode_flags {
            Some(flags) => set_modes(&mut body, flags),
            None => {},
        }
        body.set_opt_string("replyId", &params.reply_id);
        body.set_opt_string("renoteId", &params.renote_id);
        set_opt_list(&mut body, "fileIds", &params.file_ids);
        body.set_opt_json("poll", &params.poll);
        body.set_opt_json("scheduledAt", &params.scheduled_at);
        self.request(host, token, "notes/create", body)
    }

    /// A change of a note: of its text, its warning and its files.
    pub fn update_note(&self, host: &str, token: &str, note_id: &str, params: CreateNoteParams) -> (r:
        ApiCall)
        ensures
            r@ == self.call(host@, token@, "notes/update"@, update_note_params(note_id@, params)),
    {
        let mut body = Json::object();
        body.set_str("noteId", note_id);
        body.set_opt_string("text", &params.text);
        body.set_opt_string("cw", &params.cw);
        set_opt_list(&mut body, "fileIds", &params.file_ids);
        self.request(host, token, "notes/update", body)
    }

    /// The notes of a user.
    pub fn get_user_notes(&self, host: &str, token: &str, user_id: &str, options: TimelineOptions) -> (r:
        ApiCall)
        ensures
            r@ == self.call(host@, token@, "users/notes"@, user_notes_params(user_id@, options)),
    {
        let mut params = Json::object();
        params.set_str("userId", user_id);
        params.set_int("limit", options.limit);
        api::apply_pagination(&mut params, as_ref(&options.since_id), as_ref(&options.until_id));
        self.request(host, token, "users/notes", params)
    }

    /// The notes of a user, with parameters that are sent as they are.
    pub fn get_user_notes_filtered(&self, host: &str, token: &str, params: Json) -> (r: ApiCall)
        ensures
            r@ == self.call(host@, token@, "users/notes"@, params@),
    {
        self.request(host, token, "users/notes", params)
    }

    /// A search for notes.
    pub fn search_notes(&self, host: &str, token: &str, query: &str, options: SearchOptions) -> (r:
        ApiCall)
        ensures
            r@ == self.call(
                host@,
                token@,
                "notes/search"@,
                search_params(query@, options),
            ),
    {
        let mut params = Json::object();
        params.set_str("query", query);
        params.set_int("limit", options.limit);
        api::apply_pagination(&mut params, as_ref(&options.since_id), as_ref(&options.until_id));
        params.set_opt_json("sinceDate", &options.since_date);
        params.set_opt_json("untilDate", &options.until_date);
        self.request(host, token, "notes/search", params)
    }

    /// The notifications of the user.
    pub fn get_notifications(&self, host: &str, token: &str, options: TimelineOptions) -> (r: ApiCall)
        ensures
            r@ == self.call(host@, token@, "i/notifications"@, notifications_params(options)),
    {
        let mut params = Json::object();
        params.set_int("limit", options.limit);
        api::apply_pagination(&mut params, as_ref(&options.since_id), as_ref(&options.until_id));
        self.request(host, token, "i/notifications", params)
    }

    /// The notifications of the user, with those that belong together grouped.
    pub fn get_notifications_grouped(&self, host: &str, token: &str, options: TimelineOptions) -> (r:
        ApiCall)
        ensures
            r@ == self.call(host@, token@, "i/notifications-grouped"@, notifications_grouped_params(options)),
    {
        let mut params = Json::object();
        params.set_int("limit", options.limit);
        api::apply_pagination(&mut params, as_ref(&options.since_id), as_ref(&options.until_id));
        self.request(host, token, "i/notifications-grouped", params)
    }

    /// The last messages of the chats: of those in rooms, where `room` is set.
    pub fn get_chat_history(&self, host: &str, token: &str, limit: i64, room: bool) -> (r: ApiCall)
        ensures
            r@ == self.call(host@, token@, "chat/history"@, chat_history_params(limit as int, room)),
    {
        let mut params = Json::object();
        params.set_int("limit", limit);
        if room {
            params.set_bool("room", true);
        }
        self.request(host, token, "chat/history", params)
    }

    /// A message in the older way, with parameters that are sent as they are.
    pub fn create_messaging_message(&self, host: &str, token: &str, params: Json) -> (r: ApiCall)
        ensures
            r@ == self.call(host@, token@, "messaging/messages/create"@, params@),
    {
        self.request(host, token, "messaging/messages/create", params)
    }

    /// The notes of an antenna.
    pub fn get_antenna_notes(
        &self,
        host: &str,
        token: &str,
        antenna_id: &str,
        limit: i64,
        since_id: Option<&str>,
        until_id: Option<&str>,
    ) -> (r: ApiCall)
        ensures
            r@ == self.call(host@, token@, "antennas/notes"@, antenna_notes_params(antenna_id@, limit as int, text::opt_str(since_id), text::opt_str(until_id))),
    {
        let mut params = Json::object();
        params.set_str("antennaId", antenna_id);
        params.set_int("limit", limit);
        api::apply_pagination(&mut params, since_id, until_id);
        self.request(host, token, "antennas/notes", params)
    }

    /// The notes that the user has marked as favourites.
    pub fn get_favorites(
        &self,
        host: &str,
        token: &str,
        limit: i64,
        since_id: Option<&str>,
        until_id: Option<&str>,
    ) -> (r: ApiCall)
        ensures
            r@ == self.call(host@, token@, "i/favorites"@, favorites_params(limit as int, text::opt_str(since_id), text::opt_str(until_id))),
    {
        let mut params = Json::object();
        params.set_int("limit", limit);
        api::apply_pagination(&mut params, since_id, until_id);
        self.request(host, token, "i/favorites", params)
    }

    /// The notes that the server features.
    pub fn get_featured_notes(&self, host: &str, token: &str, limit: i64) -> (r: ApiCall)
        ensures
            r@ == self.call(
                host@,
                token@,
                "notes/featured"@,
                api::params().with("limit"@, api::n(limit as int)),
            ),
    {
        let mut params = Json::object();
        params.set_int("limit", limit);
        self.request(host, token, "notes/featured", params)
    }

    /// The notes of a clip.
    pub fn get_clip_notes(
        &self,
        host: &str,
        token: &str,
        clip_id: &str,
        limit: i64,
        since_id: Option<&str>,
        until_id: Option<&str>,
    ) -> (r: ApiCall)
        ensures
            r@ == self.call(host@, token@, "clips/notes"@, clip_notes_params(clip_id@, limit as int, text::opt_str(since_id), text::opt_str(until_id))),
    {
        let mut params = Json::object();
        params.set_str("clipId", clip_id);
        params.set_int("limit", limit);
        api::apply_pagination(&mut params, since_id, until_id);
        self.request(host, token, "clips/notes", params)
    }

    /// The notes of a channel.
    pub fn get_channel_notes(
        &self,
        host: &str,
        token: &str,
        channel_id: &str,
        limit: i64,
        since_id: Option<&str>,
        until_id: Option<&str>,
    ) -> (r: ApiCall)
        ensures
            r@ == self.call(host@, token@, "channels/timeline"@, channel_notes_params(channel_id@, limit as int, text::opt_str(since_id), text::opt_str(until_id))),
    {
        let mut params = Json::object();
        params.set_str("channelId", channel_id);
        params.set_int("limit", limit);
        api::apply_pagination(&mut params, since_id, until_id);
        self.request(host, token, "channels/timeline", params)
    }

    /// A note.
    pub fn get_note(&self, host: &str, token: &str, note_id: &str) -> (r: ApiCall)
        ensures
            r@ == self.call(
                host@,
                token@,
                "notes/show"@,
                api::params().with("noteId"@, api::s(note_id@)),
            ),
    {
        let mut params = Json::object();
        params.set_str("noteId", note_id);
        self.request(host, token, "notes/show", params)
    }

    /// A reaction to a note.
    pub fn create_reaction(&self, host: &str, token: &str, note_id: &str, reaction: &str) -> (r: ApiCall)
        ensures
            r@ == self.call(
                host@,
                token@,
                "notes/reactions/create"@,
                api::params().with("noteId"@, api::s(note_id@)).with("reaction"@, api::s(reaction@)),
            ),
    {
        let mut params = Json::object();
        params.set_str("noteId", note_id);
        params.set_str("reaction", reaction);
        self.request(host, token, "notes/reactions/create", params)
    }

    /// The reaction to a note taken back.
    pub fn delete_reaction(&self, host: &str, token: &str, note_id: &str) -> (r: ApiCall)
        ensures
            r@ == self.call(
                host@,
                token@,
                "notes/reactions/delete"@,
                api::params().with("noteId"@, api::s(note_id@)),
            ),
    {
        let mut params = Json::object();
        params.set_str("noteId", note_id);
        self.request(host, token, "notes/reactions/delete", params)
    }

    /// The reactions to a note, of one kind where it is given.
    pub fn get_note_reactions(
        &self,
        host: &str,
        token: &str,
        note_id: &str,
        reaction_type: Option<&str>,
        limit: u32,
        until_id: Option<&str>,
    ) -> (r: ApiCall)
        ensures
            r@ == self.call(host@, token@, "notes/reactions"@, note_reactions_params(note_id@, text::opt_str(reaction_type), limit as int, text::opt_str(until_id))),
    {
        let mut params = Json::object();
        params.set_str("noteId", note_id);
        params.set_int("limit", limit as i64);
        params.set_opt_str("type", reaction_type);
        params.set_opt_str("untilId", until_id);
        self.request(host, token, "notes/reactions", params)
    }

    /// A note marked as a favourite.
    pub fn create_favorite(&self, host: &str, token: &str, note_id: &str) -> (r: ApiCall)
        ensures
            r@ == self.call(
                host@,
                token@,
                "notes/favorites/create"@,
                api::params().with("noteId"@, api::s(note_id@)),
            ),
    {
        let mut params = Json::object();
        params.set_str("noteId", note_id);
        self.request(host, token, "notes/favorites/create", params)
    }

    /// The mark taken back.
    pub fn delete_favorite(&self, host: &str, token: &str, note_id: &str) -> (r: ApiCall)
        ensures
            r@ == self.call(
                host@,
                token@,
                "notes/favorites/delete"@,
                api::params().with("noteId"@, api::s(note_id@)),
            ),
    {
        let mut params = Json::object();
        params.set_str("noteId", note_id);
        self.request(host, token, "notes/favorites/delete", params)
    }

    /// A note deleted.
    pub fn delete_note(&self, host: &str, token: &str, note_id: &str) -> (r: ApiCall)
        ensures
            r@ == self.call(
                host@,
                token@,
                "notes/delete"@,
                api::params().with("noteId"@, api::s(note_id@)),
            ),
    {
        let mut params = Json::object();
        params.set_str("noteId", note_id);
        self.request(host, token, "notes/delete", params)
    }

    /// The replies to a note.
    pub fn get_note_children(&self, host: &str, token: &str, note_id: &str, limit: u32) -> (r: ApiCall)
        ensures
            r@ == self.call(
                host@,
                token@,
                "notes/children"@,
                api::params().with("noteId"@, api::s(note_id@)).with("limit"@, api::n(limit as int)),
            ),
    {
        let mut params = Json::object();
        params.set_str("noteId", note_id);
        params.set_int("limit", limit as i64);
        self.request(host, token, "notes/children", params)
    }

    /// What a note replies to.
    pub fn get_note_conversation(&self, host: &str, token: &str, note_id: &str, limit: u32) -> (r: ApiCall)
        ensures
            r@ == self.call(
                host@,
                token@,
                "notes/conversation"@,
                api::params().with("noteId"@, api::s(note_id@)).with("limit"@, api::n(limit as int)),
            ),
    {
        let mut params = Json::object();
        params.set_str("noteId", note_id);
        params.set_int("limit", limit as i64);
        self.request(host, token, "notes/conversation", params)
    }

    /// The featured notes of a user.
    pub fn get_user_featured_notes(
        &self,
        host: &str,
        token: &str,
        user_id: &str,
        limit: i64,
        until_id: Option<&str>,
    ) -> (r: ApiCall)
        ensures
            r@ == self.call(host@, token@, "users/featured-notes"@, user_featured_notes_params(user_id@, limit as int, text::opt_str(until_id))),
    {
        let mut params = Json::object();
        params.set_str("userId", user_id);
        params.set_int("limit", limit);
        api::apply_pagination(&mut params, None, until_id);
        self.request(host, token, "users/featured-notes", params)
    }

    /// A note pinned to the profile of the user.
    pub fn pin_note(&self, host: &str, token: &str, note_id: &str) -> (r: ApiCall)
        ensures
            r@ == self.call(
                host@,
                token@,
                "i/pin"@,
                api::params().with("noteId"@, api::s(note_id@)),
            ),
    {
        let mut params = Json::object();
        params.set_str("noteId", note_id);
        self.request(host, token, "i/pin", params)
    }

    /// A note unpinned.
    pub fn unpin_note(&self, host: &str, token: &str, note_id: &str) -> (r: ApiCall)
        ensures
            r@ == self.call(
                host@,
                token@,
                "i/unpin"@,
                api::params().with("noteId"@, api::s(note_id@)),
            ),
    {
        let mut params = Json::object();
        params.set_str("noteId", note_id);
        self.request(host, token, "i/unpin", params)
    }

    /// A note added to a clip.
    pub fn add_note_to_clip(&self, host: &str, token: &str, clip_id: &str, note_id: &str) -> (r: ApiCall)
        ensures
            r@ == self.call(
                host@,
                token@,
                "clips/add-note"@,
                api::params().with("clipId"@, api::s(clip_id@)).with("noteId"@, api::s(note_id@)),
            ),
    {
        let mut params = Json::object();
        params.set_str("clipId", clip_id);
        params.set_str("noteId", note_id);
        self.request(host, token, "clips/add-note", params)
    }

    /// The number of unread notifications.
    pub fn get_unread_notification_count(&self, host: &str, token: &str) -> (r: ApiCall)
        ensures
            r@ == self.call(
                host@,
                token@,
                "notifications/unread-count"@,
                api::params(),
            ),
    {
        self.request(host, token, "notifications/unread-count", Json::object())
    }

    /// All notifications marked as read.
    pub fn mark_all_notifications_as_read(&self, host: &str, token: &str) -> (r: ApiCall)
        ensures
            r@ == self.call(
                host@,
                token@,
                "notifications/mark-all-as-read"@,
                api::params(),
            ),
    {
        self.request(host, token, "notifications/mark-all-as-read", Json::object())
    }

    /// Whether there is an unread chat.
    pub fn get_unread_chat(&self, host: &str, token: &str) -> (r: ApiCall)
        ensures
            r@ == self.call(
                host@,
                token@,
                "messaging/unread"@,
                api::params(),
            ),
    {
        self.request(host, token, "messaging/unread", Json::object())
    }

    /// The messages of the chat with a user.
    pub fn get_chat_user_messages(
        &self,
        host: &str,
        token: &str,
        user_id: &str,
        limit: i64,
        since_id: Option<&str>,
        until_id: Option<&str>,
    ) -> (r: ApiCall)
        ensures
            r@ == self.call(host@, token@, "chat/messages/user-timeline"@, chat_user_messages_params(user_id@, limit as int, text::opt_str(since_id), text::opt_str(until_id))),
    {
        let mut params = Json::object();
        params.set_str("userId", user_id);
        params.set_int("limit", limit);
        api::apply_pagination(&mut params, since_id, until_id);
        self.request(host, token, "chat/messages/user-timeline", params)
    }

    /// The messages of the chat in a room.
    pub fn get_chat_room_messages(
        &self,
        host: &str,
        token: &str,
        room_id: &str,
        limit: i64,
        since_id: Option<&str>,
        until_id: Option<&str>,
    ) -> (r: ApiCall)
        ensures
            r@ == self.call(host@, token@, "chat/messages/room-timeline"@, chat_room_messages_params(room_id@, limit as int, text::opt_str(since_id), text::opt_str(until_id))),
    {
        let mut params = Json::object();
        params.set_str("roomId", room_id);
        params.set_int("limit", limit);
        api::apply_pagination(&mut params, since_id, until_id);
        self.request(host, token, "chat/messages/room-timeline", params)
    }

    /// A message to a user.
    pub fn create_chat_message_to_user(&self, host: &str, token: &str, user_id: &str, text: &str) -> (r: ApiCall)
        ensures
            r@ == self.call(
                host@,
                token@,
                "chat/messages/create-to-user"@,
                api::params().with("userId"@, api::s(user_id@)).with("text"@, api::s(text@)),
            ),
    {
        let mut params = Json::object();
        params.set_str("userId", user_id);
        params.set_str("text", text);
        self.request(host, token, "chat/messages/create-to-user", params)
    }

    /// A message to a room.
    pub fn create_chat_message_to_room(&self, host: &str, token: &str, room_id: &str, text: &str) -> (r: ApiCall)
        ensures
            r@ == self.call(
                host@,
                token@,
                "chat/messages/create-to-room"@,
                api::params().with("roomId"@, api::s(room_id@)).with("text"@, api::s(text@)),
            ),
    {
        let mut params = Json::object();
        params.set_str("roomId", room_id);
        params.set_str("text", text);
        self.request(host, token, "chat/messages/create-to-room", params)
    }

    /// A reaction to a message.
    pub fn react_chat_message(&self, host: &str, token: &str, message_id: &str, reaction: &str) -> (r: ApiCall)
        ensures
            r@ == self.call(
                host@,
                token@,
                "chat/messages/react"@,
                api::params().with("messageId"@, api::s(message_id@)).with("reaction"@, api::s(reaction@)),
            ),
    {
        let mut params = Json::object();
        params.set_str("messageId", message_id);
        params.set_str("reaction", reaction);
        self.request(host, token, "chat/messages/react", params)
    }

    /// A reaction to a message taken back.
    pub fn unreact_chat_message(&self, host: &str, token: &str, message_id: &str, reaction: &str) -> (r: ApiCall)
        ensures
            r@ == self.call(
                host@,
                token@,
                "chat/messages/unreact"@,
                api::params().with("messageId"@, api::s(message_id@)).with("reaction"@, api::s(reaction@)),
            ),
    {
        let mut params = Json::object();
        params.set_str("messageId", message_id);
        params.set_str("reaction", reaction);
        self.request(host, token, "chat/messages/unreact", params)
    }

    /// The folders in a folder of the drive.
    pub fn get_drive_folders(&self, host: &str, token: &str, folder_id: Option<&str>, limit: i64) -> (r: ApiCall)
        ensures
            r@ == self.call(host@, token@, "drive/folders"@, drive_folders_params(text::opt_str(folder_id), limit as int)),
    {
        let mut params = Json::object();
        params.set_int("limit", limit);
        params.set_opt_str("folderId", folder_id);
        self.request(host, token, "drive/folders", params)
    }

    /// The files in a folder of the drive, of one type where it is given.
    pub fn get_drive_files(
        &self,
        host: &str,
        token: &str,
        folder_id: Option<&str>,
        limit: i64,
        file_type: Option<&str>,
    ) -> (r: ApiCall)
        ensures
            r@ == self.call(host@, token@, "drive/files"@, drive_files_params(text::opt_str(folder_id), limit as int, text::opt_str(file_type))),
    {
        let mut params = Json::object();
        params.set_int("limit", limit);
        params.set_opt_str("folderId", folder_id);
        params.set_opt_str("type", file_type);
        self.request(host, token, "drive/files", params)
    }

    /// A file of the drive deleted.
    pub fn delete_drive_file(&self, host: &str, token: &str, file_id: &str) -> (r: ApiCall)
        ensures
            r@ == self.call(
                host@,
                token@,
                "drive/files/delete"@,
                api::params().with("fileId"@, api::s(file_id@)),
            ),
    {
        let mut params = Json::object();
        params.set_str("fileId", file_id);
        self.request(host, token, "drive/files/delete", params)
    }

    /// The notes that mention the user, of one visibility where it is given.
    pub fn get_mentions(
        &self,
        host: &str,
        token: &str,
        limit: i64,
        since_id: Option<&str>,
        until_id: Option<&str>,
        visibility: Option<&str>,
    ) -> (r: ApiCall)
        ensures
            r@ == self.call(host@, token@, "notes/mentions"@, mentions_params(limit as int, text::opt_str(since_id), text::opt_str(until_id), text::opt_str(visibility))),
    {
        let mut params = Json::object();
        params.set_int("limit", limit);
        api::apply_pagination(&mut params, since_id, until_id);
        params.set_opt_str("visibility", visibility);
        self.request(host, token, "notes/mentions", params)
    }
}

/// What is set on a note beside its named parameters are modes alone: a
/// parameter that no mode names is not changed by any flags.
pub proof fn law_only_modes_are_set(o: JsonV, flags: Seq<(Seq<char>, bool)>, key: Seq<char>)
    requires
        o is Object,
        !is_note_mode(key),
    ensures
        with_modes(o, flags) is Object,
        with_modes(o, flags).member(key) == o.member(key),
    decreases flags.len(),
{
    if flags.len() > 0 {
        law_only_modes_are_set(o, flags.drop_last(), key);
        let (name, value) = flags.last();
        json::lemma_with_member(
            with_modes(o, flags.drop_last()),
            name,
            JsonV::Bool(value),
            key,
        );
    }
}

proof fn lemma_note_parameters_differ()
    ensures
        "text"@ != "cw"@,
        "text"@ != "visibility"@,
        "text"@ != "localOnly"@,
        "text"@ != "replyId"@,
        "text"@ != "renoteId"@,
        "text"@ != "fileIds"@,
        "text"@ != "poll"@,
        "text"@ != "scheduledAt"@,
        "text"@ != "limit"@,
        "text"@ != "sinceId"@,
        "text"@ != "untilId"@,
        "text"@ != "withRenotes"@,
        "text"@ != "withReplies"@,
        "text"@ != "withFiles"@,
        "text"@ != "withBots"@,
        "text"@ != "excludeBots"@,
        "text"@ != "withSensitive"@,
        "text"@ != "excludeNsfw"@,
        "text"@ != "listId"@,
        "text"@ != "query"@,
        "text"@ != "sinceDate"@,
        "text"@ != "untilDate"@,
        "cw"@ != "visibility"@,
        "cw"@ != "localOnly"@,
        "cw"@ != "replyId"@,
        "cw"@ != "renoteId"@,
        "cw"@ != "fileIds"@,
        "cw"@ != "poll"@,
        "cw"@ != "scheduledAt"@,
        "cw"@ != "limit"@,
        "cw"@ != "sinceId"@,
        "cw"@ != "untilId"@,
        "cw"@ != "withRenotes"@,
        "cw"@ != "withReplies"@,
        "cw"@ != "withFiles"@,
        "cw"@ != "withBots"@,
        "cw"@ != "excludeBots"@,
        "cw"@ != "withSensitive"@,
        "cw"@ != "excludeNsfw"@,
        "cw"@ != "listId"@,
        "cw"@ != "query"@,
        "cw"@ != "sinceDate"@,
        "cw"@ != "untilDate"@,
        "visibility"@ != "localOnly"@,
        "visibility"@ != "replyId"@,
        "visibility"@ != "renoteId"@,
        "visibility"@ != "fileIds"@,
        "visibility"@ != "poll"@,
        "visibility"@ != "scheduledAt"@,
        "visibility"@ != "limit"@,
        "visibility"@ != "sinceId"@,
        "visibility"@ != "untilId"@,
        "visibility"@ != "withRenotes"@,
        "visibility"@ != "withReplies"@,
        "visibility"@ != "withFiles"@,
        "visibility"@ != "withBots"@,
        "visibility"@ != "excludeBots"@,
        "visibility"@ != "withSensitive"@,
        "visibility"@ != "excludeNsfw"@,
        "visibility"@ != "listId"@,
        "visibility"@ != "query"@,
        "visibility"@ != "sinceDate"@,
        "visibility"@ != "untilDate"@,
        "localOnly"@ != "replyId"@,
        "localOnly"@ != "renoteId"@,
        "localOnly"@ != "fileIds"@,
        "localOnly"@ != "poll"@,
        "localOnly"@ != "scheduledAt"@,
        "localOnly"@ != "limit"@,
        "localOnly"@ != "sinceId"@,
        "localOnly"@ != "untilId"@,
        "localOnly"@ != "withRenotes"@,
        "localOnly"@ != "withReplies"@,
        "localOnly"@ != "withFiles"@,
        "localOnly"@ != "withBots"@,
        "localOnly"@ != "excludeBots"@,
        "localOnly"@ != "withSensitive"@,
        "localOnly"@ != "excludeNsfw"@,
        "localOnly"@ != "listId"@,
        "localOnly"@ != "query"@,
        "localOnly"@ != "sinceDate"@,
        "localOnly"@ != "untilDate"@,
        "replyId"@ != "renoteId"@,
        "replyId"@ != "fileIds"@,
        "replyId"@ != "poll"@,
        "replyId"@ != "scheduledAt"@,
        "replyId"@ != "limit"@,
        "replyId"@ != "sinceId"@,
        "replyId"@ != "untilId"@,
        "replyId"@ != "withRenotes"@,
        "replyId"@ != "withReplies"@,
        "replyId"@ != "withFiles"@,
        "replyId"@ != "withBots"@,
        "replyId"@ != "excludeBots"@,
        "replyId"@ != "withSensitive"@,
        "replyId"@ != "excludeNsfw"@,
        "replyId"@ != "listId"@,
        "replyId"@ != "query"@,
        "replyId"@ != "sinceDate"@,
        "replyId"@ != "untilDate"@,
        "renoteId"@ != "fileIds"@,
        "renoteId"@ != "poll"@,
        "renoteId"@ != "scheduledAt"@,
        "renoteId"@ != "limit"@,
        "renoteId"@ != "sinceId"@,
        "renoteId"@ != "untilId"@,
        "renoteId"@ != "withRenotes"@,
        "renoteId"@ != "withReplies"@,
        "renoteId"@ != "withFiles"@,
        "renoteId"@ != "withBots"@,
        "renoteId"@ != "excludeBots"@,
        "renoteId"@ != "withSensitive"@,
        "renoteId"@ != "excludeNsfw"@,
        "renoteId"@ != "listId"@,
        "renoteId"@ != "query"@,
        "renoteId"@ != "sinceDate"@,
        "renoteId"@ != "untilDate"@,
        "fileIds"@ != "poll"@,
        "fileIds"@ != "scheduledAt"@,
        "fileIds"@ != "limit"@,
        "fileIds"@ != "sinceId"@,
        "fileIds"@ != "untilId"@,
        "fileIds"@ != "withRenotes"@,
        "fileIds"@ != "withReplies"@,
        "fileIds"@ != "withFiles"@,
        "fileIds"@ != "withBots"@,
        "fileIds"@ != "excludeBots"@,
        "fileIds"@ != "withSensitive"@,
        "fileIds"@ != "excludeNsfw"@,
        "fileIds"@ != "listId"@,
        "fileIds"@ != "query"@,
        "fileIds"@ != "sinceDate"@,
        "fileIds"@ != "untilDate"@,
        "poll"@ != "scheduledAt"@,
        "poll"@ != "limit"@,
        "poll"@ != "sinceId"@,
        "poll"@ != "untilId"@,
        "poll"@ != "withRenotes"@,
        "poll"@ != "withReplies"@,
        "poll"@ != "withFiles"@,
        "poll"@ != "withBots"@,
        "poll"@ != "excludeBots"@,
        "poll"@ != "withSensitive"@,
        "poll"@ != "excludeNsfw"@,
        "poll"@ != "listId"@,
        "poll"@ != "query"@,
        "poll"@ != "sinceDate"@,
        "poll"@ != "untilDate"@,
        "scheduledAt"@ != "limit"@,
        "scheduledAt"@ != "sinceId"@,
        "scheduledAt"@ != "untilId"@,
        "scheduledAt"@ != "withRenotes"@,
        "scheduledAt"@ != "withReplies"@,
        "scheduledAt"@ != "withFiles"@,
        "scheduledAt"@ != "withBots"@,
        "scheduledAt"@ != "excludeBots"@,
        "scheduledAt"@ != "withSensitive"@,
        "scheduledAt"@ != "excludeNsfw"@,
        "scheduledAt"@ != "listId"@,
        "scheduledAt"@ != "query"@,
        "scheduledAt"@ != "sinceDate"@,
        "scheduledAt"@ != "untilDate"@,
        "limit"@ != "sinceId"@,
        "limit"@ != "untilId"@,
        "limit"@ != "withRenotes"@,
        "limit"@ != "withReplies"@,
        "limit"@ != "withFiles"@,
        "limit"@ != "withBots"@,
        "limit"@ != "excludeBots"@,
        "limit"@ != "withSensitive"@,
        "limit"@ != "excludeNsfw"@,
        "limit"@ != "listId"@,
        "limit"@ != "query"@,
        "limit"@ != "sinceDate"@,
        "limit"@ != "untilDate"@,
        "sinceId"@ != "untilId"@,
        "sinceId"@ != "withRenotes"@,
        "sinceId"@ != "withReplies"@,
        "sinceId"@ != "withFiles"@,
        "sinceId"@ != "withBots"@,
        "sinceId"@ != "excludeBots"@,
        "sinceId"@ != "withSensitive"@,
        "sinceId"@ != "excludeNsfw"@,
        "sinceId"@ != "listId"@,
        "sinceId"@ != "query"@,
        "sinceId"@ != "sinceDate"@,
        "sinceId"@ != "untilDate"@,
        "untilId"@ != "withRenotes"@,
        "untilId"@ != "withReplies"@,
        "untilId"@ != "withFiles"@,
        "untilId"@ != "withBots"@,
        "untilId"@ != "excludeBots"@,
        "untilId"@ != "withSensitive"@,
        "untilId"@ != "excludeNsfw"@,
        "untilId"@ != "listId"@,
        "untilId"@ != "query"@,
        "untilId"@ != "sinceDate"@,
        "untilId"@ != "untilDate"@,
        "withRenotes"@ != "withReplies"@,
        "withRenotes"@ != "withFiles"@,
        "withRenotes"@ != "withBots"@,
        "withRenotes"@ != "excludeBots"@,
        "withRenotes"@ != "withSensitive"@,
        "withRenotes"@ != "excludeNsfw"@,
        "withRenotes"@ != "listId"@,
        "withRenotes"@ != "query"@,
        "withRenotes"@ != "sinceDate"@,
        "withRenotes"@ != "untilDate"@,
        "withReplies"@ != "withFiles"@,
        "withReplies"@ != "withBots"@,
        "withReplies"@ != "excludeBots"@,
        "withReplies"@ != "withSensitive"@,
        "withReplies"@ != "excludeNsfw"@,
        "withReplies"@ != "listId"@,
        "withReplies"@ != "query"@,
        "withReplies"@ != "sinceDate"@,
        "withReplies"@ != "untilDate"@,
        "withFiles"@ != "withBots"@,
        "withFiles"@ != "excludeBots"@,
        "withFiles"@ != "withSensitive"@,
        "withFiles"@ != "excludeNsfw"@,
        "withFiles"@ != "listId"@,
        "withFiles"@ != "query"@,
        "withFiles"@ != "sinceDate"@,
        "withFiles"@ != "untilDate"@,
        "withBots"@ != "excludeBots"@,
        "withBots"@ != "withSensitive"@,
        "withBots"@ != "excludeNsfw"@,
        "withBots"@ != "listId"@,
        "withBots"@ != "query"@,
        "withBots"@ != "sinceDate"@,
        "withBots"@ != "untilDate"@,
        "excludeBots"@ != "withSensitive"@,
        "excludeBots"@ != "excludeNsfw"@,
        "excludeBots"@ != "listId"@,
        "excludeBots"@ != "query"@,
        "excludeBots"@ != "sinceDate"@,
        "excludeBots"@ != "untilDate"@,
        "withSensitive"@ != "excludeNsfw"@,
        "withSensitive"@ != "listId"@,
        "withSensitive"@ != "query"@,
        "withSensitive"@ != "sinceDate"@,
        "withSensitive"@ != "untilDate"@,
        "excludeNsfw"@ != "listId"@,
        "excludeNsfw"@ != "query"@,
        "excludeNsfw"@ != "sinceDate"@,
        "excludeNsfw"@ != "untilDate"@,
        "listId"@ != "query"@,
        "listId"@ != "sinceDate"@,
        "listId"@ != "untilDate"@,
        "query"@ != "sinceDate"@,
        "query"@ != "untilDate"@,
        "sinceDate"@ != "untilDate"@,
{
    reveal_strlit("text");
    reveal_strlit("cw");
    reveal_strlit("visibility");
    reveal_strlit("localOnly");
    reveal_strlit("replyId");
    reveal_strlit("renoteId");
    reveal_strlit("fileIds");
    reveal_strlit("poll");
    reveal_strlit("scheduledAt");
    reveal_strlit("limit");
    reveal_strlit("sinceId");
    reveal_strlit("untilId");
    reveal_strlit("withRenotes");
    reveal_strlit("withReplies");
    reveal_strlit("withFiles");
    reveal_strlit("withBots");
    reveal_strlit("excludeBots");
    reveal_strlit("withSensitive");
    reveal_strlit("excludeNsfw");
    reveal_strlit("listId");
    reveal_strlit("query");
    reveal_strlit("sinceDate");
    reveal_strlit("untilDate");
    assert("text"@.len() == 4);
    assert("cw"@.len() == 2);
    assert("visibility"@.len() == 10);
    assert("localOnly"@.len() == 9);
    assert("replyId"@.len() == 7);
    assert("renoteId"@.len() == 8);
    assert("fileIds"@.len() == 7);
    assert("poll"@.len() == 4);
    assert("scheduledAt"@.len() == 11);
    assert("limit"@.len() == 5);
    assert("sinceId"@.len() == 7);
    assert("untilId"@.len() == 7);
    assert("withRenotes"@.len() == 11);
    assert("withReplies"@.len() == 11);
    assert("withFiles"@.len() == 9);
    assert("withBots"@.len() == 8);
    assert("excludeBots"@.len() == 11);
    assert("withSensitive"@.len() == 13);
    assert("excludeNsfw"@.len() == 11);
    assert("listId"@.len() == 6);
    assert("query"@.len() == 5);
    assert("sinceDate"@.len() == 9);
    assert("untilDate"@.len() == 9);
    assert("text"@[0] != "poll"@[0]);
    assert("localOnly"@[0] != "withFiles"@[0]);
    assert("localOnly"@[0] != "sinceDate"@[0]);
    assert("localOnly"@[0] != "untilDate"@[0]);
    assert("replyId"@[0] != "fileIds"@[0]);
    assert("replyId"@[0] != "sinceId"@[0]);
    assert("replyId"@[0] != "untilId"@[0]);
    assert("renoteId"@[0] != "withBots"@[0]);
    assert("fileIds"@[0] != "sinceId"@[0]);
    assert("fileIds"@[0] != "untilId"@[0]);
    assert("scheduledAt"@[0] != "withRenotes"@[0]);
    assert("scheduledAt"@[0] != "withReplies"@[0]);
    assert("scheduledAt"@[0] != "excludeBots"@[0]);
    assert("scheduledAt"@[0] != "excludeNsfw"@[0]);
    assert("limit"@[0] != "query"@[0]);
    assert("sinceId"@[0] != "untilId"@[0]);
    assert("withRenotes"@[6] != "withReplies"@[6]);
    assert("withRenotes"@[0] != "excludeBots"@[0]);
    assert("withRenotes"@[0] != "excludeNsfw"@[0]);
    assert("withReplies"@[0] != "excludeBots"@[0]);
    assert("withReplies"@[0] != "excludeNsfw"@[0]);
    assert("withFiles"@[0] != "sinceDate"@[0]);
    assert("withFiles"@[0] != "untilDate"@[0]);
    assert("excludeBots"@[7] != "excludeNsfw"@[7]);
    assert("sinceDate"@[0] != "untilDate"@[0]);
}

/// A new note sends each of its parameters exactly where it is given, under its own name
/// and as it is given, and beside them only the modes that are set.
pub proof fn law_note_sends_what_it_is_given(p: CreateNoteParams, key: Seq<char>)
    requires
        p.mode_flags is None,
    ensures
        note_body(p).member(key) == if key == "text"@ {
            api::text_param(p.text)
        } else if key == "cw"@ {
            api::text_param(p.cw)
        } else if key == "visibility"@ {
            api::text_param(p.visibility)
        } else if key == "localOnly"@ {
            match p.local_only {
                Some(b) => Some(JsonV::Bool(b)),
                None => None,
            }
        } else if key == "replyId"@ {
            api::text_param(p.reply_id)
        } else if key == "renoteId"@ {
            api::text_param(p.renote_id)
        } else if key == "fileIds"@ {
            match p.file_ids {
                Some(v) => Some(json::str_list(text::texts(v@))),
                None => None,
            }
        } else if key == "poll"@ {
            match p.poll {
                Some(j) => Some(j@),
                None => None,
            }
        } else if key == "scheduledAt"@ {
            match p.scheduled_at {
                Some(j) => Some(j@),
                None => None,
            }
        } else {
            None
        },
{
    broadcast use json::lemma_member_of_with;

    lemma_note_parameters_differ();
}

/// A flag is set on a note if and only if it is a mode: it begins with `isNoteIn`, ends
/// with `Mode` and has thirty bytes at most. Of two flags with one name the last counts.
pub proof fn law_modes_are_set(o: JsonV, flags: Seq<(Seq<char>, bool)>, name: Seq<char>, b: bool)
    requires
        o is Object,
    ensures
        is_note_mode(name) <==> "isNoteIn"@.is_prefix_of(name) && "Mode"@.is_suffix_of(name)
            && vstd::utf8::encode_utf8(name).len() <= 30,
        is_note_mode(name) ==> with_modes(o, flags.push((name, b))).member(name) == Some(
            JsonV::Bool(b),
        ),
        !is_note_mode(name) ==> with_modes(o, flags.push((name, b))) == with_modes(o, flags),
        with_modes(o, Seq::<(Seq<char>, bool)>::empty()) == o,
{
    assert(flags.push((name, b)).drop_last() =~= flags);
    lemma_modes_make_an_object(o, flags);
    json::lemma_with_member(with_modes(o, flags), name, JsonV::Bool(b), name);
}

proof fn lemma_modes_make_an_object(o: JsonV, flags: Seq<(Seq<char>, bool)>)
    requires
        o is Object,
    ensures
        with_modes(o, flags) is Object,
    decreases flags.len(),
{
    if flags.len() > 0 {
        lemma_modes_make_an_object(o, flags.drop_last());
    }
}

/// A part of a timeline is asked for with its limit, with the ids between which it lies and
/// the list that it is of where they are given, and with each choice of notes exactly where
/// it is made. What is said of bots and of sensitive notes is said twice, the second time as
/// its opposite.
pub proof fn law_timeline_is_asked_for_in_part(o: TimelineOptions, key: Seq<char>)
    ensures
        ({
            let sent = timeline_params(o).member(key);
            let f = o.filters;
            let flag = |b: Option<bool>|
                match b {
                    Some(x) => Some(JsonV::Bool(x)),
                    None => None::<JsonV>,
                };
            let opposed = |b: Option<bool>|
                match b {
                    Some(x) => Some(JsonV::Bool(!x)),
                    None => None::<JsonV>,
                };
            &&& key == "limit"@ ==> sent == Some(JsonV::Int(o.limit as int))
            &&& key == "sinceId"@ ==> sent == api::text_param(o.since_id)
            &&& key == "untilId"@ ==> sent == api::text_param(o.until_id)
            &&& key == "listId"@ ==> sent == api::text_param(o.list_id)
            &&& f matches Some(x) ==> {
                &&& key == "withRenotes"@ ==> sent == flag(x.with_renotes)
                &&& key == "withReplies"@ ==> sent == flag(x.with_replies)
                &&& key == "withFiles"@ ==> sent == flag(x.with_files)
                &&& key == "withBots"@ ==> sent == flag(x.with_bots)
                &&& key == "excludeBots"@ ==> sent == opposed(x.with_bots)
                &&& key == "withSensitive"@ ==> sent == flag(x.with_sensitive)
                &&& key == "excludeNsfw"@ ==> sent == opposed(x.with_sensitive)
                &&& key != "limit"@ && key != "sinceId"@ && key != "untilId"@ && key != "listId"@ && key
                    != "withRenotes"@ && key != "withReplies"@ && key != "withFiles"@ && key
                    != "withBots"@ && key != "excludeBots"@ && key != "withSensitive"@ && key
                    != "excludeNsfw"@ ==> sent is None
            }
            &&& f is None && key != "limit"@ && key != "sinceId"@ && key != "untilId"@ && key
                != "listId"@ ==> sent is None
        }),
{
    broadcast use json::lemma_member_of_with;

    lemma_note_parameters_differ();
}

/// A search is asked for with its words and its limit, and with the ids and the dates
/// between which the notes lie exactly where they are given.
pub proof fn law_search_is_asked_for_in_part(query: Seq<char>, o: SearchOptions, key: Seq<char>)
    ensures
        search_params(query, o).member(key) == if key == "query"@ {
            Some(JsonV::Str(query))
        } else if key == "limit"@ {
            Some(JsonV::Int(o.limit as int))
        } else if key == "sinceId"@ {
            api::text_param(o.since_id)
        } else if key == "untilId"@ {
            api::text_param(o.until_id)
        } else if key == "sinceDate"@ {
            match o.since_date {
                Some(j) => Some(j@),
                None => None,
            }
        } else if key == "untilDate"@ {
            match o.until_date {
                Some(j) => Some(j@),
                None => None,
            }
        } else {
            None
        },
{
    broadcast use json::lemma_member_of_with;

    lemma_note_parameters_differ();
}

proof fn lemma_list_parameters_differ()
    ensures
        "limit"@ != "room"@,
        "limit"@ != "antennaId"@,
        "limit"@ != "sinceId"@,
        "limit"@ != "untilId"@,
        "limit"@ != "clipId"@,
        "limit"@ != "channelId"@,
        "limit"@ != "noteId"@,
        "limit"@ != "type"@,
        "limit"@ != "userId"@,
        "limit"@ != "roomId"@,
        "limit"@ != "folderId"@,
        "limit"@ != "visibility"@,
        "limit"@ != "text"@,
        "limit"@ != "cw"@,
        "limit"@ != "fileIds"@,
        "room"@ != "antennaId"@,
        "room"@ != "sinceId"@,
        "room"@ != "untilId"@,
        "room"@ != "clipId"@,
        "room"@ != "channelId"@,
        "room"@ != "noteId"@,
        "room"@ != "type"@,
        "room"@ != "userId"@,
        "room"@ != "roomId"@,
        "room"@ != "folderId"@,
        "room"@ != "visibility"@,
        "room"@ != "text"@,
        "room"@ != "cw"@,
        "room"@ != "fileIds"@,
        "antennaId"@ != "sinceId"@,
        "antennaId"@ != "untilId"@,
        "antennaId"@ != "clipId"@,
        "antennaId"@ != "channelId"@,
        "antennaId"@ != "noteId"@,
        "antennaId"@ != "type"@,
        "antennaId"@ != "userId"@,
        "antennaId"@ != "roomId"@,
        "antennaId"@ != "folderId"@,
        "antennaId"@ != "visibility"@,
        "antennaId"@ != "text"@,
        "antennaId"@ != "cw"@,
        "antennaId"@ != "fileIds"@,
        "sinceId"@ != "untilId"@,
        "sinceId"@ != "clipId"@,
        "sinceId"@ != "channelId"@,
        "sinceId"@ != "noteId"@,
        "sinceId"@ != "type"@,
        "sinceId"@ != "userId"@,
        "sinceId"@ != "roomId"@,
        "sinceId"@ != "folderId"@,
        "sinceId"@ != "visibility"@,
        "sinceId"@ != "text"@,
        "sinceId"@ != "cw"@,
        "sinceId"@ != "fileIds"@,
        "untilId"@ != "clipId"@,
        "untilId"@ != "channelId"@,
        "untilId"@ != "noteId"@,
        "untilId"@ != "type"@,
        "untilId"@ != "userId"@,
        "untilId"@ != "roomId"@,
        "untilId"@ != "folderId"@,
        "untilId"@ != "visibility"@,
        "untilId"@ != "text"@,
        "untilId"@ != "cw"@,
        "untilId"@ != "fileIds"@,
        "clipId"@ != "channelId"@,
        "clipId"@ != "noteId"@,
        "clipId"@ != "type"@,
        "clipId"@ != "userId"@,
        "clipId"@ != "roomId"@,
        "clipId"@ != "folderId"@,
        "clipId"@ != "visibility"@,
        "clipId"@ != "text"@,
        "clipId"@ != "cw"@,
        "clipId"@ != "fileIds"@,
        "channelId"@ != "noteId"@,
        "channelId"@ != "type"@,
        "channelId"@ != "userId"@,
        "channelId"@ != "roomId"@,
        "channelId"@ != "folderId"@,
        "channelId"@ != "visibility"@,
        "channelId"@ != "text"@,
        "channelId"@ != "cw"@,
        "channelId"@ != "fileIds"@,
        "noteId"@ != "type"@,
        "noteId"@ != "userId"@,
        "noteId"@ != "roomId"@,
        "noteId"@ != "folderId"@,
        "noteId"@ != "visibility"@,
        "noteId"@ != "text"@,
        "noteId"@ != "cw"@,
        "noteId"@ != "fileIds"@,
        "type"@ != "userId"@,
        "type"@ != "roomId"@,
        "type"@ != "folderId"@,
        "type"@ != "visibility"@,
        "type"@ != "text"@,
        "type"@ != "cw"@,
        "type"@ != "fileIds"@,
        "userId"@ != "roomId"@,
        "userId"@ != "folderId"@,
        "userId"@ != "visibility"@,
        "userId"@ != "text"@,
        "userId"@ != "cw"@,
        "userId"@ != "fileIds"@,
        "roomId"@ != "folderId"@,
        "roomId"@ != "visibility"@,
        "roomId"@ != "text"@,
        "roomId"@ != "cw"@,
        "roomId"@ != "fileIds"@,
        "folderId"@ != "visibility"@,
        "folderId"@ != "text"@,
        "folderId"@ != "cw"@,
        "folderId"@ != "fileIds"@,
        "visibility"@ != "text"@,
        "visibility"@ != "cw"@,
        "visibility"@ != "fileIds"@,
        "text"@ != "cw"@,
        "text"@ != "fileIds"@,
        "cw"@ != "fileIds"@,
{
    reveal_strlit("limit");
    reveal_strlit("room");
    reveal_strlit("antennaId");
    reveal_strlit("sinceId");
    reveal_strlit("untilId");
    reveal_strlit("clipId");
    reveal_strlit("channelId");
    reveal_strlit("noteId");
    reveal_strlit("type");
    reveal_strlit("userId");
    reveal_strlit("roomId");
    reveal_strlit("folderId");
    reveal_strlit("visibility");
    reveal_strlit("text");
    reveal_strlit("cw");
    reveal_strlit("fileIds");
    assert("limit"@.len() == 5);
    assert("room"@.len() == 4);
    assert("antennaId"@.len() == 9);
    assert("sinceId"@.len() == 7);
    assert("untilId"@.len() == 7);
    assert("clipId"@.len() == 6);
    assert("channelId"@.len() == 9);
    assert("noteId"@.len() == 6);
    assert("type"@.len() == 4);
    assert("userId"@.len() == 6);
    assert("roomId"@.len() == 6);
    assert("folderId"@.len() == 8);
    assert("visibility"@.len() == 10);
    assert("text"@.len() == 4);
    assert("cw"@.len() == 2);
    assert("fileIds"@.len() == 7);
    assert("room"@[0] != "type"@[0]);
    assert("room"@[0] != "text"@[0]);
    assert("antennaId"@[0] != "channelId"@[0]);
    assert("sinceId"@[0] != "untilId"@[0]);
    assert("sinceId"@[0] != "fileIds"@[0]);
    assert("untilId"@[0] != "fileIds"@[0]);
    assert("clipId"@[0] != "noteId"@[0]);
    assert("clipId"@[0] != "userId"@[0]);
    assert("clipId"@[0] != "roomId"@[0]);
    assert("noteId"@[0] != "userId"@[0]);
    assert("noteId"@[0] != "roomId"@[0]);
    assert("type"@[1] != "text"@[1]);
    assert("userId"@[0] != "roomId"@[0]);
}

/// The last messages of the chats are asked for with a limit, and of those in
/// rooms exactly where they are meant.
pub proof fn law_chat_history_is_asked_for(limit: int, room: bool, key: Seq<char>)
    ensures
        chat_history_params(limit, room).member(key) == if key == "limit"@ {
            Some(JsonV::Int(limit))
        } else if key == "room"@ {
            if room { Some(JsonV::Bool(true)) } else { None }
        } else {
            None
        },
{
    broadcast use json::lemma_member_of_with;

    lemma_list_parameters_differ();
}

/// The notes of an antenna are asked for by its id, with a limit and between
/// two ids where they are given.
pub proof fn law_antenna_notes_are_asked_for(
    antenna_id: Seq<char>,
    limit: int,
    since_id: Option<Seq<char>>,
    until_id: Option<Seq<char>>,
    key: Seq<char>,
)
    ensures
        antenna_notes_params(antenna_id, limit, since_id, until_id).member(key) == if key == "antennaId"@ {
            Some(JsonV::Str(antenna_id))
        } else if key == "limit"@ {
            Some(JsonV::Int(limit))
        } else if key == "sinceId"@ {
            match since_id {
            Some(v) => Some(JsonV::Str(v)),
            None => None,
        }
        } else if key == "untilId"@ {
            match until_id {
            Some(v) => Some(JsonV::Str(v)),
            None => None,
        }
        } else {
            None
        },
{
    broadcast use json::lemma_member_of_with;

    lemma_list_parameters_differ();
}

/// The favourites are asked for with a limit and between two ids where they are
/// given.
pub proof fn law_favorites_are_asked_for(
    limit: int,
    since_id: Option<Seq<char>>,
    until_id: Option<Seq<char>>,
    key: Seq<char>,
)
    ensures
        favorites_params(limit, since_id, until_id).member(key) == if key == "limit"@ {
            Some(JsonV::Int(limit))
        } else if key == "sinceId"@ {
            match since_id {
            Some(v) => Some(JsonV::Str(v)),
            None => None,
        }
        } else if key == "untilId"@ {
            match until_id {
            Some(v) => Some(JsonV::Str(v)),
            None => None,
        }
        } else {
            None
        },
{
    broadcast use json::lemma_member_of_with;

    lemma_list_parameters_differ();
}

/// The notes of a clip are asked for by its id, with a limit and between two
/// ids where they are given.
pub proof fn law_clip_notes_are_asked_for(
    clip_id: Seq<char>,
    limit: int,
    since_id: Option<Seq<char>>,
    until_id: Option<Seq<char>>,
    key: Seq<char>,
)
    ensures
        clip_notes_params(clip_id, limit, since_id, until_id).member(key) == if key == "clipId"@ {
            Some(JsonV::Str(clip_id))
        } else if key == "limit"@ {
            Some(JsonV::Int(limit))
        } else if key == "sinceId"@ {
            match since_id {
            Some(v) => Some(JsonV::Str(v)),
            None => None,
        }
        } else if key == "untilId"@ {
            match until_id {
            Some(v) => Some(JsonV::Str(v)),
            None => None,
        }
        } else {
            None
        },
{
    broadcast use json::lemma_member_of_with;

    lemma_list_parameters_differ();
}

/// The notes of a channel are asked for by its id, with a limit and between two
/// ids where they are given.
pub proof fn law_channel_notes_are_asked_for(
    channel_id: Seq<char>,
    limit: int,
    since_id: Option<Seq<char>>,
    until_id: Option<Seq<char>>,
    key: Seq<char>,
)
    ensures
        channel_notes_params(channel_id, limit, since_id, until_id).member(key) == if key == "channelId"@ {
            Some(JsonV::Str(channel_id))
        } else if key == "limit"@ {
            Some(JsonV::Int(limit))
        } else if key == "sinceId"@ {
            match since_id {
            Some(v) => Some(JsonV::Str(v)),
            None => None,
        }
        } else if key == "untilId"@ {
            match until_id {
            Some(v) => Some(JsonV::Str(v)),
            None => None,
        }
        } else {
            None
        },
{
    broadcast use json::lemma_member_of_with;

    lemma_list_parameters_differ();
}

/// The reactions to a note are asked for by its id, with a limit, and of one
/// kind and up to an id where they are given.
pub proof fn law_note_reactions_are_asked_for(
    note_id: Seq<char>,
    reaction_type: Option<Seq<char>>,
    limit: int,
    until_id: Option<Seq<char>>,
    key: Seq<char>,
)
    ensures
        note_reactions_params(note_id, reaction_type, limit, until_id).member(key) == if key == "noteId"@ {
            Some(JsonV::Str(note_id))
        } else if key == "limit"@ {
            Some(JsonV::Int(limit))
        } else if key == "type"@ {
            match reaction_type {
            Some(v) => Some(JsonV::Str(v)),
            None => None,
        }
        } else if key == "untilId"@ {
            match until_id {
            Some(v) => Some(JsonV::Str(v)),
            None => None,
        }
        } else {
            None
        },
{
    broadcast use json::lemma_member_of_with;

    lemma_list_parameters_differ();
}

/// The featured notes of a user are asked for by the id of the user, with a
/// limit and up to an id where it is given.
pub proof fn law_featured_notes_are_asked_for(
    user_id: Seq<char>,
    limit: int,
    until_id: Option<Seq<char>>,
    key: Seq<char>,
)
    ensures
        user_featured_notes_params(user_id, limit, until_id).member(key) == if key == "userId"@ {
            Some(JsonV::Str(user_id))
        } else if key == "limit"@ {
            Some(JsonV::Int(limit))
        } else if key == "untilId"@ {
            match until_id {
            Some(v) => Some(JsonV::Str(v)),
            None => None,
        }
        } else {
            None
        },
{
    broadcast use json::lemma_member_of_with;

    lemma_list_parameters_differ();
}

/// The messages with a user are asked for by the id of the user, with a limit
/// and between two ids where they are given.
pub proof fn law_messages_with_a_user_are_asked_for(
    user_id: Seq<char>,
    limit: int,
    since_id: Option<Seq<char>>,
    until_id: Option<Seq<char>>,
    key: Seq<char>,
)
    ensures
        chat_user_messages_params(user_id, limit, since_id, until_id).member(key) == if key == "userId"@ {
            Some(JsonV::Str(user_id))
        } else if key == "limit"@ {
            Some(JsonV::Int(limit))
        } else if key == "sinceId"@ {
            match since_id {
            Some(v) => Some(JsonV::Str(v)),
            None => None,
        }
        } else if key == "untilId"@ {
            match until_id {
            Some(v) => Some(JsonV::Str(v)),
            None => None,
        }
        } else {
            None
        },
{
    broadcast use json::lemma_member_of_with;

    lemma_list_parameters_differ();
}

/// The messages in a room are asked for by its id, with a limit and between two
/// ids where they are given.
pub proof fn law_messages_in_a_room_are_asked_for(
    room_id: Seq<char>,
    limit: int,
    since_id: Option<Seq<char>>,
    until_id: Option<Seq<char>>,
    key: Seq<char>,
)
    ensures
        chat_room_messages_params(room_id, limit, since_id, until_id).member(key) == if key == "roomId"@ {
            Some(JsonV::Str(room_id))
        } else if key == "limit"@ {
            Some(JsonV::Int(limit))
        } else if key == "sinceId"@ {
            match since_id {
            Some(v) => Some(JsonV::Str(v)),
            None => None,
        }
        } else if key == "untilId"@ {
            match until_id {
            Some(v) => Some(JsonV::Str(v)),
            None => None,
        }
        } else {
            None
        },
{
    broadcast use json::lemma_member_of_with;

    lemma_list_parameters_differ();
}

/// The folders of the drive are asked for with a limit, and of one folder where
/// it is given.
pub proof fn law_folders_are_asked_for(folder_id: Option<Seq<char>>, limit: int, key: Seq<char>)
    ensures
        drive_folders_params(folder_id, limit).member(key) == if key == "limit"@ {
            Some(JsonV::Int(limit))
        } else if key == "folderId"@ {
            match folder_id {
            Some(v) => Some(JsonV::Str(v)),
            None => None,
        }
        } else {
            None
        },
{
    broadcast use json::lemma_member_of_with;

    lemma_list_parameters_differ();
}

/// The files of the drive are asked for with a limit, and of one folder and one
/// type where they are given.
pub proof fn law_files_are_asked_for(
    folder_id: Option<Seq<char>>,
    limit: int,
    file_type: Option<Seq<char>>,
    key: Seq<char>,
)
    ensures
        drive_files_params(folder_id, limit, file_type).member(key) == if key == "limit"@ {
            Some(JsonV::Int(limit))
        } else if key == "folderId"@ {
            match folder_id {
            Some(v) => Some(JsonV::Str(v)),
            None => None,
        }
        } else if key == "type"@ {
            match file_type {
            Some(v) => Some(JsonV::Str(v)),
            None => None,
        }
        } else {
            None
        },
{
    broadcast use json::lemma_member_of_with;

    lemma_list_parameters_differ();
}

/// The mentions are asked for with a limit, between two ids and of one
/// visibility where they are given.
pub proof fn law_mentions_are_asked_for(
    limit: int,
    since_id: Option<Seq<char>>,
    until_id: Option<Seq<char>>,
    visibility: Option<Seq<char>>,
    key: Seq<char>,
)
    ensures
        mentions_params(limit, since_id, until_id, visibility).member(key) == if key == "limit"@ {
            Some(JsonV::Int(limit))
        } else if key == "sinceId"@ {
            match since_id {
            Some(v) => Some(JsonV::Str(v)),
            None => None,
        }
        } else if key == "untilId"@ {
            match until_id {
            Some(v) => Some(JsonV::Str(v)),
            None => None,
        }
        } else if key == "visibility"@ {
            match visibility {
            Some(v) => Some(JsonV::Str(v)),
            None => None,
        }
        } else {
            None
        },
{
    broadcast use json::lemma_member_of_with;

    lemma_list_parameters_differ();
}

/// The notes of a user are asked for by the id of the user, with a limit and
/// between two ids where they are given.
pub proof fn law_user_notes_are_asked_for(
    user_id: Seq<char>,
    options: TimelineOptions,
    key: Seq<char>,
)
    ensures
        user_notes_params(user_id, options).member(key) == if key == "userId"@ {
            Some(JsonV::Str(user_id))
        } else if key == "limit"@ {
            Some(JsonV::Int(options.limit as int))
        } else if key == "sinceId"@ {
            api::text_param(options.since_id)
        } else if key == "untilId"@ {
            api::text_param(options.until_id)
        } else {
            None
        },
{
    broadcast use json::lemma_member_of_with;

    lemma_list_parameters_differ();
}

/// The notifications are asked for with a limit and between two ids where they
/// are given.
pub proof fn law_notifications_are_asked_for(options: TimelineOptions, key: Seq<char>)
    ensures
        notifications_params(options).member(key) == if key == "limit"@ {
            Some(JsonV::Int(options.limit as int))
        } else if key == "sinceId"@ {
            api::text_param(options.since_id)
        } else if key == "untilId"@ {
            api::text_param(options.until_id)
        } else {
            None
        },
{
    broadcast use json::lemma_member_of_with;

    lemma_list_parameters_differ();
}

/// The grouped notifications are asked for with a limit and between two ids
/// where they are given.
pub proof fn law_grouped_notifications_are_asked_for(options: TimelineOptions, key: Seq<char>)
    ensures
        notifications_grouped_params(options).member(key) == if key == "limit"@ {
            Some(JsonV::Int(options.limit as int))
        } else if key == "sinceId"@ {
            api::text_param(options.since_id)
        } else if key == "untilId"@ {
            api::text_param(options.until_id)
        } else {
            None
        },
{
    broadcast use json::lemma_member_of_with;

    lemma_list_parameters_differ();
}

/// A note is changed by its id, in its text, its warning and its files where
/// they are given.
pub proof fn law_note_is_changed_as_given(
    note_id: Seq<char>,
    params: CreateNoteParams,
    key: Seq<char>,
)
    ensures
        update_note_params(note_id, params).member(key) == if key == "noteId"@ {
            Some(JsonV::Str(note_id))
        } else if key == "text"@ {
            api::text_param(params.text)
        } else if key == "cw"@ {
            api::text_param(params.cw)
        } else if key == "fileIds"@ {
            match params.file_ids {
            Some(v) => Some(json::str_list(text::texts(v@))),
            None => None,
        }
        } else {
            None
        },
{
    broadcast use json::lemma_member_of_with;

    lemma_list_parameters_differ();
}

} // verus!
