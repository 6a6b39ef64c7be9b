use notecli::api::{ApiCall, MisskeyClient};
use notecli::json::Json;
use notecli::models::TimelineOptions;

fn json(text: &str) -> Json {
    Json::parse(text).unwrap()
}

/// Each request goes to its endpoint, with its parameters and the token.
fn check(cases: Vec<(ApiCall, &str, &str)>) {
    for (call, endpoint, params) in cases {
        assert_eq!(call.url, format!("https://h/api/{endpoint}"));
        assert_eq!(call.endpoint, endpoint);
        let mut expected = json(params);
        expected.set_str("i", "t");
        assert_eq!(json(&call.body.render()), json(&expected.render()));
    }
}

fn page() -> TimelineOptions {
    TimelineOptions::new(7, Some("s".into()), Some("u".into()))
}

#[test]
fn requests_about_notes() {
    let c = MisskeyClient::new();
    let (s, u) = (Some("s"), Some("u"));
    check(vec![
        (c.get_antenna_notes("h", "t", "x", 7, s, u), "antennas/notes", "{\"antennaId\":\"x\",\"limit\":7,\"sinceId\":\"s\",\"untilId\":\"u\"}"),
        (c.get_favorites("h", "t", 7, s, u), "i/favorites", "{\"limit\":7,\"sinceId\":\"s\",\"untilId\":\"u\"}"),
        (c.get_featured_notes("h", "t", 7), "notes/featured", "{\"limit\":7}"),
        (c.get_clip_notes("h", "t", "x", 7, None, u), "clips/notes", "{\"clipId\":\"x\",\"limit\":7,\"untilId\":\"u\"}"),
        (c.get_channel_notes("h", "t", "x", 7, s, None), "channels/timeline", "{\"channelId\":\"x\",\"limit\":7,\"sinceId\":\"s\"}"),
        (c.get_mentions("h", "t", 7, s, u, None), "notes/mentions", "{\"limit\":7,\"sinceId\":\"s\",\"untilId\":\"u\"}"),
        (c.get_note("h", "t", "n"), "notes/show", "{\"noteId\":\"n\"}"),
        (c.create_reaction("h", "t", "n", ":a:"), "notes/reactions/create", "{\"noteId\":\"n\",\"reaction\":\":a:\"}"),
        (c.delete_reaction("h", "t", "n"), "notes/reactions/delete", "{\"noteId\":\"n\"}"),
        (c.get_note_reactions("h", "t", "n", None, 7, u), "notes/reactions", "{\"noteId\":\"n\",\"limit\":7,\"untilId\":\"u\"}"),
        (c.create_favorite("h", "t", "n"), "notes/favorites/create", "{\"noteId\":\"n\"}"),
        (c.delete_favorite("h", "t", "n"), "notes/favorites/delete", "{\"noteId\":\"n\"}"),
        (c.delete_note("h", "t", "n"), "notes/delete", "{\"noteId\":\"n\"}"),
        (c.get_user_notes("h", "t", "x", page()), "users/notes", "{\"userId\":\"x\",\"limit\":7,\"sinceId\":\"s\",\"untilId\":\"u\"}"),
        (c.get_user_notes_filtered("h", "t", json("{\"a\":1}")), "users/notes", "{\"a\":1}"),
        (c.get_user_featured_notes("h", "t", "x", 7, u), "users/featured-notes", "{\"userId\":\"x\",\"limit\":7,\"untilId\":\"u\"}"),
        (c.get_notifications("h", "t", page()), "i/notifications", "{\"limit\":7,\"sinceId\":\"s\",\"untilId\":\"u\"}"),
        (c.get_notifications_grouped("h", "t", page()), "i/notifications-grouped", "{\"limit\":7,\"sinceId\":\"s\",\"untilId\":\"u\"}"),
        (c.get_note_children("h", "t", "n", 7), "notes/children", "{\"noteId\":\"n\",\"limit\":7}"),
        (c.get_note_conversation("h", "t", "n", 7), "notes/conversation", "{\"noteId\":\"n\",\"limit\":7}"),
        (c.get_unread_notification_count("h", "t"), "notifications/unread-count", "{}"),
        (c.mark_all_notifications_as_read("h", "t"), "notifications/mark-all-as-read", "{}"),
        (c.pin_note("h", "t", "n"), "i/pin", "{\"noteId\":\"n\"}"),
        (c.unpin_note("h", "t", "n"), "i/unpin", "{\"noteId\":\"n\"}"),
        (c.add_note_to_clip("h", "t", "x", "n"), "clips/add-note", "{\"clipId\":\"x\",\"noteId\":\"n\"}"),
    ]);
}

#[test]
fn requests_about_chats_and_files() {
    let c = MisskeyClient::new();
    let (s, u) = (Some("s"), Some("u"));
    check(vec![
        (c.get_unread_chat("h", "t"), "messaging/unread", "{}"),
        (c.get_chat_user_messages("h", "t", "x", 7, s, u), "chat/messages/user-timeline", "{\"userId\":\"x\",\"limit\":7,\"sinceId\":\"s\",\"untilId\":\"u\"}"),
        (c.get_chat_room_messages("h", "t", "x", 7, s, u), "chat/messages/room-timeline", "{\"roomId\":\"x\",\"limit\":7,\"sinceId\":\"s\",\"untilId\":\"u\"}"),
        (c.create_chat_message_to_user("h", "t", "x", "hi"), "chat/messages/create-to-user", "{\"userId\":\"x\",\"text\":\"hi\"}"),
        (c.create_chat_message_to_room("h", "t", "x", "hi"), "chat/messages/create-to-room", "{\"roomId\":\"x\",\"text\":\"hi\"}"),
        (c.create_messaging_message("h", "t", json("{\"a\":1}")), "messaging/messages/create", "{\"a\":1}"),
        (c.react_chat_message("h", "t", "x", ":a:"), "chat/messages/react", "{\"messageId\":\"x\",\"reaction\":\":a:\"}"),
        (c.unreact_chat_message("h", "t", "x", ":a:"), "chat/messages/unreact", "{\"messageId\":\"x\",\"reaction\":\":a:\"}"),
        (c.get_drive_folders("h", "t", Some("x"), 7), "drive/folders", "{\"limit\":7,\"folderId\":\"x\"}"),
        (c.get_drive_folders("h", "t", None, 7), "drive/folders", "{\"limit\":7}"),
        (c.get_drive_files("h", "t", Some("x"), 7, Some("image/png")), "drive/files", "{\"limit\":7,\"folderId\":\"x\",\"type\":\"image/png\"}"),
        (c.delete_drive_file("h", "t", "x"), "drive/files/delete", "{\"fileId\":\"x\"}"),
    ]);
}

#[test]
fn requests_about_users() {
    let c = MisskeyClient::new();
    let u = Some("u");
    let scope = vec!["a".to_string(), "b".to_string()];
    check(vec![
        (c.get_user_lists("h", "t"), "users/lists/list", "{}"),
        (c.get_antennas("h", "t"), "antennas/list", "{}"),
        (c.get_clips("h", "t"), "clips/list", "{}"),
        (c.get_user("h", "t", "x"), "users/show", "{\"userId\":\"x\"}"),
        (c.get_user_detail("h", "t", "x"), "users/show", "{\"userId\":\"x\"}"),
        (c.get_user_pinned_note_ids("h", "t", "x"), "users/show", "{\"userId\":\"x\"}"),
        (c.lookup_user("h", "t", "x", None), "users/show", "{\"username\":\"x\"}"),
        (c.follow_user("h", "t", "x"), "following/create", "{\"userId\":\"x\"}"),
        (c.unfollow_user("h", "t", "x"), "following/delete", "{\"userId\":\"x\"}"),
        (c.accept_follow_request("h", "t", "x"), "following/requests/accept", "{\"userId\":\"x\"}"),
        (c.reject_follow_request("h", "t", "x"), "following/requests/reject", "{\"userId\":\"x\"}"),
        (c.get_follow_requests("h", "t", 7), "following/requests/list", "{\"limit\":7}"),
        (c.get_self("h", "t"), "i", "{}"),
        (c.get_user_policies("h", "t"), "i", "{}"),
        (c.get_registry_all("h", "t", &scope), "i/registry/get-all", "{\"scope\":[\"a\",\"b\"]}"),
        (c.get_roles("h", "t"), "roles/list", "{}"),
        (c.get_role_users("h", "t", "x", 7, Some(3)), "roles/users", "{\"roleId\":\"x\",\"limit\":7,\"offset\":3}"),
        (c.search_users_by_query("h", "t", "q", 7), "users/search", "{\"query\":\"q\",\"limit\":7}"),
        (c.get_user_achievements("h", "t", "x"), "users/achievements", "{\"userId\":\"x\"}"),
        (c.mute_user("h", "t", "x"), "mute/create", "{\"userId\":\"x\"}"),
        (c.unmute_user("h", "t", "x"), "mute/delete", "{\"userId\":\"x\"}"),
        (c.block_user("h", "t", "x"), "blocking/create", "{\"userId\":\"x\"}"),
        (c.unblock_user("h", "t", "x"), "blocking/delete", "{\"userId\":\"x\"}"),
        (c.report_user("h", "t", "x", "why"), "users/report-abuse", "{\"userId\":\"x\",\"comment\":\"why\"}"),
        (c.add_user_to_list("h", "t", "l", "x"), "users/lists/push", "{\"listId\":\"l\",\"userId\":\"x\"}"),
        (c.remove_user_from_list("h", "t", "l", "x"), "users/lists/pull", "{\"listId\":\"l\",\"userId\":\"x\"}"),
        (c.get_following("h", "t", "x", 7, u), "users/following", "{\"userId\":\"x\",\"limit\":7,\"untilId\":\"u\"}"),
        (c.get_followers("h", "t", "x", 7, u), "users/followers", "{\"userId\":\"x\",\"limit\":7,\"untilId\":\"u\"}"),
        (c.get_user_relations("h", "t", &scope), "users/relation", "{\"userId\":[\"a\",\"b\"]}"),
    ]);
}

#[test]
fn requests_about_servers_and_pages() {
    let c = MisskeyClient::new();
    check(vec![
        (c.search_channels("h", "t", "q"), "channels/search", "{\"query\":\"q\",\"limit\":100}"),
        (c.get_server_emojis("h", "t"), "emojis", "{}"),
        (c.get_meta("h", "t"), "meta", "{}"),
        (c.get_meta_detail("h", "t"), "meta", "{\"detail\":true}"),
        (c.get_server_stats("h", "t"), "stats", "{}"),
        (c.get_announcements("h", "t", 7, true), "announcements", "{\"limit\":7,\"isActive\":true}"),
        (c.read_announcement("h", "t", "x"), "i/read-announcement", "{\"announcementId\":\"x\"}"),
        (c.search_hashtags("h", "t", "q", 7), "hashtags/search", "{\"query\":\"q\",\"limit\":7}"),
        (c.ap_show("h", "t", "https://x"), "ap/show", "{\"uri\":\"https://x\"}"),
        (c.get_page("h", "t", "x"), "pages/show", "{\"pageId\":\"x\"}"),
        (c.like_page("h", "t", "x"), "pages/like", "{\"pageId\":\"x\"}"),
        (c.unlike_page("h", "t", "x"), "pages/unlike", "{\"pageId\":\"x\"}"),
        (c.get_gallery_posts("h", "t", 7, Some("u")), "gallery/posts", "{\"limit\":7,\"untilId\":\"u\"}"),
        (c.like_gallery_post("h", "t", "x"), "gallery/posts/like", "{\"postId\":\"x\"}"),
        (c.unlike_gallery_post("h", "t", "x"), "gallery/posts/unlike", "{\"postId\":\"x\"}"),
        (c.get_flashes("h", "t", "flash/my", 7), "flash/my", "{\"limit\":7}"),
        (c.get_flash("h", "t", "x"), "flash/show", "{\"flashId\":\"x\"}"),
        (c.like_flash("h", "t", "x"), "flash/like", "{\"flashId\":\"x\"}"),
        (c.unlike_flash("h", "t", "x"), "flash/unlike", "{\"flashId\":\"x\"}"),
    ]);
}

#[test]
fn channels_are_asked_for_with_their_parameters() {
    let c = MisskeyClient::new();
    let params = [
        "{\"limit\":100}",
        "{\"limit\":100}",
        "{\"limit\":100}",
        "{}",
        "{\"query\":\"\",\"limit\":100}",
    ];
    let endpoints = [
        "channels/followed",
        "channels/my-favorites",
        "channels/owned",
        "channels/featured",
        "channels/search",
    ];
    let calls = c.get_channels("h", "t");
    assert_eq!(calls.len(), 5);
    check(
        calls
            .into_iter()
            .zip(endpoints)
            .zip(params)
            .map(|((c, e), p)| (c, e, p))
            .collect(),
    );
}
