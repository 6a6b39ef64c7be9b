use notecli::api::response::{
    auth_failed, complete_auth, endpoint_params, endpoint_params_in, endpoints_in, extract_reaction_palette,
    merge_channels, nodeinfo_url, nodeinfo_url_in, notes_of_favorites, pinned_note_ids, pinned_reactions,
    registry_all, request_failed, request_failed_with, response_value, unread_chat, unread_notification_count,
    upload_failed, user_policies, BodyReader, Lookup,
    MAX_RESPONSE_BYTES,
};
use notecli::api::{apply_pagination, ApiCall, MisskeyClient, SearchUsersOptions};
use notecli::error::NoteDeckError;
use notecli::json::Json;
use notecli::models::{
    Channel, CreateNoteParams, NormalizedUser, SearchOptions, TimelineFilters, TimelineOptions,
    TimelineType,
};

fn json(text: &str) -> Json {
    Json::parse(text).unwrap()
}

fn client() -> MisskeyClient {
    MisskeyClient::with_base_url("http://127.0.0.1:8080")
}

fn check(call: ApiCall, endpoint: &str, body: &str) {
    assert_eq!(call.url, format!("http://127.0.0.1:8080/api/{endpoint}"));
    assert_eq!(call.endpoint, endpoint);
    assert_eq!(json(&call.body.render()), json(body));
}

#[test]
fn request_success() {
    let call = client().request("unused", "token", "test/endpoint", json("{}"));
    check(call, "test/endpoint", "{\"i\":\"token\"}");
    let result = response_value("{\"ok\": true}").unwrap();
    assert_eq!(result.get("ok"), Some(&Json::Bool(true)));
}

#[test]
fn request_includes_token() {
    let call = client().request("h", "my-secret-token", "i", json("{}"));
    assert_eq!(call.url, "http://127.0.0.1:8080/api/i");
    assert_eq!(call.body.str_at("i"), Some("my-secret-token"));
    let call = client().request("h", "", "i", json("{}"));
    assert!(call.body.get("i").is_none());
    let call = client().request("h", "my-secret-token", "i", json("[1]"));
    assert_eq!(call.body, json("[1]"));
}

#[test]
fn request_api_error() {
    let err = request_failed(
        "notes/show",
        404,
        Some("{\"error\": {\"message\": \"No such note\", \"code\": \"NO_SUCH_NOTE\"}}"),
    );
    assert_eq!(err.code(), "API");
    assert!(err.message().contains("No such note"));
    assert_eq!(err.message(), "notes/show: No such note");
    let by_code = request_failed("notes/show", 404, Some("{\"error\": {\"code\": \"GONE\"}}"));
    assert_eq!(by_code.message(), "notes/show: GONE");
    let odd = request_failed(
        "notes/show",
        404,
        Some("{\"error\": {\"message\": 1, \"code\": \"GONE\"}}"),
    );
    assert_eq!(odd.message(), "notes/show (404)");
}

#[test]
fn request_api_error_without_message() {
    let err = request_failed("test", 500, Some(""));
    assert_eq!(err.code(), "API");
    assert!(err.message().contains("test"));
    assert_eq!(err.message(), "test (500)");
    assert_eq!(request_failed("test", 502, None).message(), "test (502)");
}

#[test]
fn failed_answers_are_read_as_utf8() {
    let body = "{\"error\":{\"message\":\"\u{3042}\"}}".as_bytes().to_vec();
    assert_eq!(
        request_failed_with("i", 400, Some(body)).message(),
        "i: \u{3042}"
    );
    let broken = b"{\"error\":{\"message\":\"\xff\"}}".to_vec();
    assert_eq!(
        request_failed_with("i", 400, Some(broken)).message(),
        "i (400)"
    );
    assert_eq!(request_failed_with("i", 500, None).message(), "i (500)");
}

#[test]
fn request_empty_response() {
    let call = client().request("h", "token", "notes/delete", json("{}"));
    assert_eq!(call.url, "http://127.0.0.1:8080/api/notes/delete");
    let result = response_value("").unwrap();
    assert_eq!(result, Json::Null);
    assert!(response_value("{").is_err());
}

#[test]
fn delete_note_succeeds() {
    check(
        client().delete_note("h", "token", "n1"),
        "notes/delete",
        "{\"i\":\"token\",\"noteId\":\"n1\"}",
    );
    assert!(response_value("").is_ok());
}

#[test]
fn create_reaction_succeeds() {
    check(
        client().create_reaction("h", "token", "n1", ":star:"),
        "notes/reactions/create",
        "{\"i\":\"token\",\"noteId\":\"n1\",\"reaction\":\":star:\"}",
    );
    assert!(response_value("").is_ok());
}

#[test]
fn follow_user_succeeds() {
    check(
        client().follow_user("h", "token", "u1"),
        "following/create",
        "{\"i\":\"token\",\"userId\":\"u1\"}",
    );
    assert!(response_value("").is_ok());
}

#[test]
fn get_favorites_unwraps_note_field() {
    check(
        client().get_favorites("h", "token", 20, None, None),
        "i/favorites",
        "{\"i\":\"token\",\"limit\":20}",
    );
    let data = json("[{\"id\":\"fav1\",\"note\":{\"id\":\"n1\",\"text\":\"fav note\"}},{\"id\":\"x\"}]");
    let notes = notes_of_favorites(&data).unwrap();
    assert_eq!(notes.len(), 1);
    assert_eq!(notes[0].str_at("id"), Some("n1"));
    assert_eq!(notes[0].str_at("text"), Some("fav note"));
    assert_eq!(
        notes_of_favorites(&json("{}")).unwrap_err().code(),
        "JSON"
    );
}

#[test]
fn extract_reaction_palette_valid() {
    let data = json(
        "[[[\"client\", \"preferences\", \"sync\"], [{\"id\": \"default\", \"name\": \"Default\", \"emojis\": [\":star:\", \":heart:\", \":thumbsup:\"]}]]]",
    );
    let result = extract_reaction_palette(&data).unwrap();
    assert_eq!(result, vec![":star:", ":heart:", ":thumbsup:"]);
    assert_eq!(
        pinned_reactions(Ok(data)),
        vec![":star:", ":heart:", ":thumbsup:"]
    );
}

#[test]
fn extract_reaction_palette_empty() {
    let data = json("[]");
    assert!(extract_reaction_palette(&data).is_none());
    assert!(pinned_reactions(Ok(data)).is_empty());
    assert!(pinned_reactions(Err(NoteDeckError::ConnectionClosed)).is_empty());
}

#[test]
fn addresses_of_endpoints() {
    assert_eq!(
        MisskeyClient::new().api_url("misskey.io", "notes/show"),
        "https://misskey.io/api/notes/show"
    );
    assert_eq!(
        client().api_url("misskey.io", "notes/show"),
        "http://127.0.0.1:8080/api/notes/show"
    );
    assert_eq!(
        client().fetch_nodeinfo("misskey.io"),
        "https://misskey.io/.well-known/nodeinfo"
    );
}

#[test]
fn pagination_is_added_where_it_is_given() {
    let mut p = json("{}");
    apply_pagination(&mut p, None, None);
    assert_eq!(p, json("{}"));
    apply_pagination(&mut p, Some("a"), Some("b"));
    assert_eq!(p, json("{\"sinceId\":\"a\",\"untilId\":\"b\"}"));
}

#[test]
fn timelines_with_filters() {
    let mut options = TimelineOptions::new(20, Some("s".into()), None);
    options.filters = Some(TimelineFilters {
        with_renotes: Some(false),
        with_replies: None,
        with_files: None,
        with_bots: Some(true),
        with_sensitive: Some(false),
    });
    options.list_id = Some("l1".into());
    check(
        client().get_timeline("h", "t", TimelineType::new("home"), options),
        "notes/timeline",
        "{\"i\":\"t\",\"limit\":20,\"sinceId\":\"s\",\"withRenotes\":false,\"withBots\":true,\"excludeBots\":false,\"withSensitive\":false,\"excludeNsfw\":true,\"listId\":\"l1\"}",
    );
}

fn blank() -> CreateNoteParams {
    CreateNoteParams {
        text: None,
        cw: None,
        visibility: None,
        local_only: None,
        mode_flags: None,
        reply_id: None,
        renote_id: None,
        file_ids: None,
        poll: None,
        scheduled_at: None,
    }
}

#[test]
fn notes_are_created_with_modes_alone() {
    let mut p = blank();
    p.text = Some("posted".into());
    p.visibility = Some("public".into());
    p.local_only = Some(true);
    p.mode_flags = Some(vec![
        ("isNoteInYamiMode".into(), true),
        ("isAdmin".into(), true),
        ("isNoteInMode".into(), false),
        ("isNoteInAnExtremelyLongishMode".into(), true),
        ("isNoteInAnExtremelyLonggishMode".into(), true),
    ]);
    p.file_ids = Some(vec!["f1".into(), "f2".into()]);
    check(
        client().create_note("h", "t", p),
        "notes/create",
        "{\"i\":\"t\",\"text\":\"posted\",\"visibility\":\"public\",\"localOnly\":true,\"isNoteInYamiMode\":true,\"isNoteInMode\":false,\"isNoteInAnExtremelyLongishMode\":true,\"fileIds\":[\"f1\",\"f2\"]}",
    );
    let mut changed = blank();
    changed.text = Some("posted".into());
    changed.cw = Some("careful".into());
    changed.visibility = Some("public".into());
    changed.file_ids = Some(vec!["f1".into(), "f2".into()]);
    check(
        client().update_note("h", "t", "n1", changed),
        "notes/update",
        "{\"i\":\"t\",\"noteId\":\"n1\",\"text\":\"posted\",\"cw\":\"careful\",\"fileIds\":[\"f1\",\"f2\"]}",
    );
}

#[test]
fn searches() {
    let mut o = SearchOptions::new(10);
    o.until_id = Some("u".into());
    o.since_date = Some(Json::Int(5));
    check(
        client().search_notes("h", "t", "Rust", o),
        "notes/search",
        "{\"i\":\"t\",\"query\":\"Rust\",\"limit\":10,\"untilId\":\"u\",\"sinceDate\":5}",
    );
    let opts = SearchUsersOptions {
        query: None,
        origin: Some("local"),
        sort: Some("+follower"),
        state: None,
        limit: 5,
        offset: Some(3),
    };
    check(
        client().search_users("h", "t", opts),
        "users",
        "{\"i\":\"t\",\"limit\":5,\"origin\":\"local\",\"sort\":\"+follower\",\"offset\":3}",
    );
    assert_eq!(SearchUsersOptions::default().limit, 0);
}

#[test]
fn assorted_requests() {
    let c = client();
    check(
        c.get_pinned_reactions("h", "t"),
        "i/registry/get",
        "{\"i\":\"t\",\"scope\":[\"client\",\"preferences\",\"sync\"],\"key\":\"default:emojiPalettes\"}",
    );
    check(
        c.get_note_reactions("h", "t", "n1", Some(":star:"), 10, None),
        "notes/reactions",
        "{\"i\":\"t\",\"noteId\":\"n1\",\"limit\":10,\"type\":\":star:\"}",
    );
    check(
        c.lookup_user("h", "t", "taka", Some("misskey.io")),
        "users/show",
        "{\"i\":\"t\",\"username\":\"taka\",\"host\":\"misskey.io\"}",
    );
    check(
        c.get_chat_history("h", "t", 5, true),
        "chat/history",
        "{\"i\":\"t\",\"limit\":5,\"room\":true}",
    );
    check(
        c.get_chat_history("h", "t", 5, false),
        "chat/history",
        "{\"i\":\"t\",\"limit\":5}",
    );
    check(
        c.get_endpoint_params("h", "notes/show"),
        "endpoint",
        "{\"endpoint\":\"notes/show\"}",
    );
    check(c.get_endpoints("h"), "endpoints", "{}");
    check(c.fetch_server_meta("h"), "meta", "{}");
    check(
        c.get_meta_detail("h", "t"),
        "meta",
        "{\"i\":\"t\",\"detail\":true}",
    );
    check(c.complete_auth("h", "s1"), "miauth/s1/check", "{}");
    check(
        c.update_user_setting("h", "t", "isLocked", true),
        "i/update",
        "{\"i\":\"t\",\"isLocked\":true}",
    );
    check(
        c.get_user_relations("h", "t", &vec!["a".into(), "b".into()]),
        "users/relation",
        "{\"i\":\"t\",\"userId\":[\"a\",\"b\"]}",
    );
    check(
        c.get_pages("h", "t", "pages/featured", 3),
        "pages/featured",
        "{\"i\":\"t\",\"limit\":3}",
    );
    check(
        c.get_mentions("h", "t", 3, None, Some("u"), Some("specified")),
        "notes/mentions",
        "{\"i\":\"t\",\"limit\":3,\"untilId\":\"u\",\"visibility\":\"specified\"}",
    );
}

#[test]
fn channels_are_asked_for_and_merged() {
    let c = client();
    let endpoints = |calls: Vec<ApiCall>| -> Vec<String> {
        calls.into_iter().map(|c| c.endpoint).collect()
    };
    assert_eq!(
        endpoints(c.get_channels("h", "t")),
        vec![
            "channels/followed",
            "channels/my-favorites",
            "channels/owned",
            "channels/featured",
            "channels/search"
        ]
    );
    assert_eq!(
        endpoints(c.get_channels("h", "")),
        vec!["channels/featured", "channels/search"]
    );
    let ch = |id: &str, n: i64| Channel {
        id: id.into(),
        body: Json::Int(n),
    };
    let merged = merge_channels(vec![
        vec![ch("b", 1), ch("a", 2)],
        vec![],
        vec![ch("a", 3), ch("c", 4), ch("b", 5)],
    ]);
    let got: Vec<(String, Json)> = merged.into_iter().map(|c| (c.id, c.body)).collect();
    assert_eq!(
        got,
        vec![
            ("b".to_string(), Json::Int(1)),
            ("a".to_string(), Json::Int(2)),
            ("c".to_string(), Json::Int(4))
        ]
    );
}

#[test]
fn bodies_are_read_up_to_the_limit() {
    assert_eq!(MAX_RESPONSE_BYTES, 50 * 1024 * 1024);
    let too_long = BodyReader::start("x", Some(50 * 1024 * 1024 + 1)).unwrap_err();
    assert_eq!(too_long.message(), "Response too large");
    let mut r = BodyReader::start("x", Some(3)).unwrap();
    r.feed(&[0xe3, 0x81]).unwrap();
    r.feed(&[0x82]).unwrap();
    assert_eq!(r.finish().unwrap(), "あ");
    let mut r = BodyReader::start("x", None).unwrap();
    r.feed(&[0xff]).unwrap();
    assert_eq!(r.finish().unwrap_err().message(), "Invalid UTF-8 in response");
    let mut r = BodyReader::start("x", None).unwrap();
    let half = vec![b'a'; 25 * 1024 * 1024];
    r.feed(&half).unwrap();
    r.feed(&half).unwrap();
    let err = r.feed(&[b'a']).unwrap_err();
    assert!(matches!(
        err,
        NoteDeckError::Api {
            status: 0,
            ..
        }
    ));
    assert_eq!(err.message(), "Response too large");
}

#[test]
fn nodeinfo_has_to_be_on_the_server() {
    let links = |href: &str| {
        json(&format!(
            "{{\"links\":[{{\"rel\":\"other\",\"href\":\"https://h/x\"}},{{\"rel\":\"http://nodeinfo.diaspora.software/ns/schema/2.0\"}},{{\"rel\":\"http://nodeinfo.diaspora.software/ns/schema/2.1\",\"href\":\"{href}\"}}]}}"
        ))
    };
    assert_eq!(
        nodeinfo_url("h", &links("https://h/nodeinfo/2.1")).unwrap(),
        "https://h/nodeinfo/2.1"
    );
    assert_eq!(
        nodeinfo_url("h", &links("https://evil/nodeinfo"))
            .unwrap_err()
            .message(),
        "Nodeinfo URL host/scheme mismatch for h"
    );
    assert_eq!(
        nodeinfo_url("h", &links("http://h/nodeinfo"))
            .unwrap_err()
            .message(),
        "Nodeinfo URL host/scheme mismatch for h"
    );
    assert!(nodeinfo_url("h", &links("https://h.evil/nodeinfo")).is_err());
    assert_eq!(
        nodeinfo_url("h", &json("{}")).unwrap_err().message(),
        "No nodeinfo URL found for h"
    );
}

#[test]
fn nodeinfo_is_found_in_the_text_of_an_answer() {
    let body = "{\"links\":[{\"rel\":\"nodeinfo\",\"href\":\"https://h/nodeinfo/2.0\"}]}";
    assert_eq!(
        nodeinfo_url_in("h", body).unwrap(),
        "https://h/nodeinfo/2.0"
    );
    assert_eq!(
        nodeinfo_url_in("g", body).unwrap_err().message(),
        "Nodeinfo URL host/scheme mismatch for g"
    );
    assert_eq!(
        nodeinfo_url_in("h", "[]").unwrap_err().message(),
        "No nodeinfo URL found for h"
    );
    assert_eq!(nodeinfo_url_in("h", "{").unwrap_err().code(), "JSON");
}

#[test]
fn policies_and_modes() {
    let flags = user_policies(&json(
        "{\"policies\":{\"ltlAvailable\":true,\"driveCapacityMb\":100,\"isInXMode\":true},\"isInYamiMode\":true,\"isInXMode\":false,\"isBot\":true,\"isInMode\":\"no\"}",
    ));
    assert_eq!(flags.get("ltlAvailable"), Some(&true));
    assert_eq!(flags.get("isInYamiMode"), Some(&true));
    assert_eq!(flags.get("isInXMode"), Some(&false));
    assert_eq!(flags.get("driveCapacityMb"), None);
    assert_eq!(flags.get("isBot"), None);
    assert_eq!(flags.len(), 3);
    assert_eq!(user_policies(&json("[]")).len(), 0);
}

#[test]
fn endpoints_and_their_parameters() {
    assert_eq!(
        endpoint_params(&json(
            "{\"params\":{\"properties\":{\"limit\":{},\"noteId\":{}}}}"
        )),
        vec!["limit", "noteId"]
    );
    assert_eq!(
        endpoint_params(&json(
            "{\"params\":[{\"name\":\"a\"},{\"type\":\"b\"},{\"name\":\"c\"}]}"
        )),
        vec!["a", "c"]
    );
    assert!(endpoint_params(&json("{\"params\":{\"properties\":{}}}")).is_empty());
    assert_eq!(
        endpoint_params_in("{\"params\":[{\"name\":\"a\"}]}").unwrap(),
        vec!["a"]
    );
    assert!(endpoint_params_in("null").unwrap().is_empty());
    assert_eq!(endpoint_params_in("").unwrap_err().code(), "JSON");
    assert_eq!(
        endpoints_in("[\"i\",\"notes/show\"]").unwrap(),
        vec!["i", "notes/show"]
    );
    assert_eq!(endpoints_in("[1]").unwrap_err().code(), "JSON");
    assert_eq!(endpoints_in("").unwrap_err().code(), "JSON");
}

#[test]
fn answers_with_defaults() {
    assert_eq!(unread_notification_count(&json("{\"count\":7}")), 7);
    assert_eq!(unread_notification_count(&json("{\"count\":\"7\"}")), 0);
    assert_eq!(unread_notification_count(&json("{}")), 0);
    assert!(unread_chat(&json("true")));
    assert!(!unread_chat(&json("{}")));
    assert_eq!(
        pinned_note_ids(&json("{\"pinnedNoteIds\":[\"a\",1,\"b\"]}")),
        vec!["a", "b"]
    );
    assert!(pinned_note_ids(&json("{}")).is_empty());
}

#[test]
fn registry_scopes() {
    assert!(registry_all(Ok(json("{}"))).unwrap().is_none());
    assert_eq!(
        registry_all(Ok(json("{\"a\":1}"))).unwrap(),
        Some(json("{\"a\":1}"))
    );
    assert_eq!(registry_all(Ok(json("[]"))).unwrap(), Some(json("[]")));
    let refused = NoteDeckError::Api {
        endpoint: "e".into(),
        status: 404,
        message: "m".into(),
    };
    assert!(registry_all(Err(refused)).unwrap().is_none());
    assert!(registry_all(Err(NoteDeckError::ConnectionClosed)).is_err());
}

fn user() -> NormalizedUser {
    NormalizedUser {
        id: "u1".into(),
        username: "taka".into(),
        host: None,
        name: None,
        avatar_url: None,
        emojis: Vec::new(),
        is_bot: false,
        avatar_decorations: Vec::new(),
        instance: None,
    }
}

#[test]
fn authentication_outcomes() {
    let ok = complete_auth(true, Some("t".into()), Some(user())).unwrap();
    assert_eq!(ok.token, "t");
    assert_eq!(ok.user.username, "taka");
    assert_eq!(
        complete_auth(false, Some("t".into()), Some(user()))
            .unwrap_err()
            .message(),
        "MiAuth authentication was not completed"
    );
    assert_eq!(
        complete_auth(true, None, None).unwrap_err().message(),
        "MiAuth response missing token"
    );
    assert_eq!(
        complete_auth(true, Some("t".into()), None)
            .unwrap_err()
            .message(),
        "MiAuth response missing user"
    );
    assert_eq!(auth_failed(403).message(), "MiAuth check failed: 403");
}

#[test]
fn failures_of_lookups_and_uploads() {
    let said = |l: Lookup| match l.failed(500) {
        NoteDeckError::Api {
            endpoint,
            status,
            message,
        } => {
            assert_eq!(status, 500);
            format!("{endpoint}: {message}")
        }
        _ => panic!("not an API error"),
    };
    assert_eq!(
        said(Lookup::EndpointParams),
        "endpoint: Failed to fetch endpoint info"
    );
    assert_eq!(
        said(Lookup::Endpoints),
        "endpoints: Failed to fetch endpoints"
    );
    assert_eq!(
        said(Lookup::WellKnownNodeinfo),
        ".well-known/nodeinfo: Failed to fetch well-known nodeinfo"
    );
    assert_eq!(said(Lookup::Nodeinfo), "nodeinfo: Failed to fetch nodeinfo");
    assert_eq!(
        said(Lookup::ServerMeta),
        "meta: Failed to fetch server meta"
    );
    assert_eq!(upload_failed(413, Some("too big")).message(), "too big");
    assert_eq!(upload_failed(413, None).message(), "");
    let upload = client().upload_file("h", "t", true);
    assert_eq!(upload.url, "http://127.0.0.1:8080/api/drive/files/create");
    assert_eq!(
        upload.fields,
        vec![
            ("i".to_string(), "t".to_string()),
            ("isSensitive".to_string(), "true".to_string())
        ]
    );
    assert_eq!(
        client().upload_file("h", "t", false).fields[1].1,
        "false"
    );
}

#[test]
fn json_numbers_survive() {
    let text = "{\"big\":18446744073709551615,\"less\":-5,\"part\":1.5}";
    let j = json(text);
    assert_eq!(j.get("less").unwrap().as_i64(), Some(-5));
    assert_eq!(j.get("big").unwrap().as_i64(), None);
    assert_eq!(j.render(), text);
}
