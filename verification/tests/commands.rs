use notecli::api::MisskeyClient;
use notecli::cli::{command_metadata, Cli, Commands, ParserArg, ParserCommand};
use notecli::commands::auth::{
    asks_by_id, auth_url, finish_login, login_clears_token, login_report, new_account,
    public_json, resolve_account, run_accounts, run_login, run_logout, waiting_lines, PERMISSIONS,
};
use notecli::commands::run::{
    error_report, outcome_of, print_note, print_user, report, request_for, resolve_user, Outcome,
};
use notecli::db::SqlValue;
use notecli::error::NoteDeckError;
use notecli::format::OutputFormat;
use notecli::keychain::deposit;
use notecli::json::Json;
use notecli::models::{
    Account, AuthResult, NormalizedNote, NormalizedUser, NormalizedUserDetail, TimelineType,
};
use notecli::theme::{plain_line, Span};

fn account(id: &str, username: &str, host: &str) -> Account {
    Account {
        id: id.into(),
        host: host.into(),
        token: "t".into(),
        user_id: "u".into(),
        username: username.into(),
        display_name: None,
        avatar_url: None,
        software: "misskey".into(),
    }
}

fn texts(lines: &Vec<Vec<Span>>) -> Vec<String> {
    lines.iter().map(plain_line).collect()
}

#[test]
fn accounts_are_resolved() {
    let accounts = vec![
        account("a1", "alice", "misskey.io"),
        account("a2", "Bob", "example.com"),
    ];
    let find = |spec: Option<&str>| resolve_account(&accounts, None, spec).map(|a| a.id);
    assert_eq!(find(None).unwrap(), "a1");
    assert_eq!(find(Some("@bob@example.com")).unwrap(), "a2");
    assert_eq!(find(Some("@BOB@example")).unwrap(), "a2");
    assert_eq!(find(Some("bOb")).unwrap(), "a2");
    assert_eq!(
        find(Some("@bob@misskey.io")).unwrap_err().message(),
        "Account not found: @bob@misskey.io"
    );
    assert_eq!(
        find(Some("carol")).unwrap_err().message(),
        "Account not found: carol"
    );
    assert!(find(Some("@bob")).is_err());
    let by_id = account("bob", "zed", "z.org");
    assert_eq!(
        resolve_account(&accounts, Some(&by_id), Some("bob"))
            .unwrap()
            .username,
        "zed"
    );
    assert_eq!(
        resolve_account(&Vec::new(), None, None)
            .unwrap_err()
            .message(),
        "Account not found: no accounts found. Use 'notecli login <HOST>' to add one"
    );
}

#[test]
fn only_a_handle_is_no_id() {
    assert!(asks_by_id(Some("bob")));
    assert!(asks_by_id(Some("@bob")));
    assert!(asks_by_id(Some("bob@example.com")));
    assert!(!asks_by_id(Some("@bob@example.com")));
    assert!(!asks_by_id(None));
}

#[test]
fn accounts_are_listed() {
    let mut a = account("a1", "alice", "misskey.io");
    assert_eq!(
        texts(&run_accounts(&vec![a.copy()], OutputFormat::Default)),
        vec!["@alice@misskey.io (a1) alice"]
    );
    a.display_name = Some("Alice".into());
    assert_eq!(
        texts(&run_accounts(&vec![a.copy()], OutputFormat::Compact)),
        vec!["a1\t@alice@misskey.io\tAlice"]
    );
    assert_eq!(
        texts(&run_accounts(&vec![a.copy()], OutputFormat::Ids)),
        vec!["a1"]
    );
    assert_eq!(
        texts(&run_accounts(&Vec::new(), OutputFormat::Default)),
        vec!["No accounts found. Use 'notecli login <HOST>' to add one."]
    );
    assert!(run_accounts(&Vec::new(), OutputFormat::Compact).is_empty());
    let line = "{\"avatarUrl\":null,\"displayName\":\"Alice\",\"host\":\"misskey.io\",\"id\":\"a1\",\"software\":\"misskey\",\"userId\":\"u\",\"username\":\"alice\"}";
    assert_eq!(public_json(&a).render(), line);
    assert_eq!(
        texts(&run_accounts(&vec![a.copy()], OutputFormat::Jsonl)),
        vec![line]
    );
    assert_eq!(
        texts(&run_accounts(
            &vec![a.copy(), a.copy()],
            OutputFormat::Json
        )),
        vec![format!("[{line},{line}]")]
    );
    let mut other = a.copy();
    other.token = "another".into();
    for fmt in [
        OutputFormat::Default,
        OutputFormat::Json,
        OutputFormat::Ids,
        OutputFormat::Compact,
        OutputFormat::Jsonl,
    ] {
        assert_eq!(
            run_accounts(&vec![a.copy()], fmt),
            run_accounts(&vec![other.copy()], fmt)
        );
        assert_eq!(login_report(&a, fmt), login_report(&other, fmt));
    }
}

#[test]
fn login_and_logout() {
    assert_eq!(PERMISSIONS.split(',').count(), 21);
    let url = auth_url("misskey.io", "s1");
    assert_eq!(
        url,
        format!("https://misskey.io/miauth/s1?name=notecli&permission={PERMISSIONS}")
    );
    assert_eq!(
        waiting_lines("misskey.io", "s1", OutputFormat::Json),
        vec![format!(
            "{{\"authUrl\":\"{url}\",\"sessionId\":\"s1\",\"status\":\"waiting\"}}"
        )]
    );
    let lines = waiting_lines("misskey.io", "s1", OutputFormat::Default);
    assert_eq!(lines.len(), 5);
    assert_eq!(lines[2], format!("  {url}"));
    let auth = AuthResult {
        token: "secret".into(),
        user: NormalizedUser {
            id: "u9".into(),
            username: "taka".into(),
            host: None,
            name: Some("Taka".into()),
            avatar_url: None,
            emojis: Vec::new(),
            is_bot: false,
            avatar_decorations: Vec::new(),
            instance: None,
        },
    };
    let a = new_account("id-1", "misskey.io", &auth);
    assert_eq!(a.token, "secret");
    assert_eq!(a.user_id, "u9");
    assert_eq!(a.software, "misskey");
    assert_eq!(
        login_report(&a, OutputFormat::Default),
        "Login successful: @taka@misskey.io"
    );
    assert_eq!(
        login_report(&a, OutputFormat::Compact),
        "id-1\t@taka@misskey.io\tTaka"
    );
    assert_eq!(login_report(&a, OutputFormat::Ids), "id-1");
    assert_eq!(
        login_report(&a, OutputFormat::Jsonl),
        public_json(&a).render()
    );
    let done = run_logout(&a, OutputFormat::Json);
    assert_eq!(done.token_of, "id-1");
    assert_eq!(done.forget.sql, "DELETE FROM accounts WHERE id = ?1");
    assert_eq!(done.forget.params, vec![SqlValue::Text("id-1".into())]);
    assert_eq!(
        done.report,
        "{\"loggedOut\":\"id-1\",\"username\":\"taka\",\"host\":\"misskey.io\"}"
    );
    assert_eq!(
        run_logout(&a, OutputFormat::Compact).report,
        "Logged out: @taka@misskey.io"
    );
    let begun = run_login(&MisskeyClient::new(), "misskey.io", OutputFormat::Json);
    assert_eq!(begun.session_id.len(), 36);
    assert_eq!(
        begun.lines,
        waiting_lines("misskey.io", &begun.session_id, OutputFormat::Json)
    );
    assert_eq!(
        begun.request.url,
        format!("https://misskey.io/api/miauth/{}/check", begun.session_id)
    );
    assert_eq!(begun.request.body, Json::object());
    let ended = finish_login("misskey.io", &auth);
    assert_eq!(ended.account.username, "taka");
    assert_ne!(ended.account.id, begun.session_id);
    assert_eq!(
        ended.keep.params[0],
        SqlValue::Text(ended.account.id.clone())
    );
    assert_eq!(ended.deposit, deposit(&ended.account.id, "secret"));
    assert!(login_clears_token(true, true));
    assert!(!login_clears_token(true, false));
    assert!(!login_clears_token(false, true));
}

fn body(cmd: Commands) -> (String, Json) {
    let call = request_for(&cmd, &MisskeyClient::new(), "h", "t").unwrap();
    (call.endpoint, Json::parse(&call.body.render()).unwrap())
}

fn json(text: &str) -> Json {
    Json::parse(text).unwrap()
}

#[test]
fn commands_become_requests() {
    assert_eq!(
        body(Commands::Post {
            text: "hi".into(),
            cw: None,
            visibility: "home".into(),
            reply_to: Some("n0".into()),
            local_only: true
        }),
        (
            "notes/create".to_string(),
            json("{\"i\":\"t\",\"text\":\"hi\",\"visibility\":\"home\",\"localOnly\":true,\"replyId\":\"n0\"}")
        )
    );
    assert_eq!(
        body(Commands::Tl {
            timeline: "home".into(),
            limit: 20
        }),
        ("notes/timeline".to_string(), json("{\"i\":\"t\",\"limit\":20}"))
    );
    assert_eq!(
        body(Commands::Replies {
            id: "n1".into(),
            limit: -1
        }),
        (
            "notes/children".to_string(),
            json("{\"i\":\"t\",\"noteId\":\"n1\",\"limit\":4294967295}")
        )
    );
    assert_eq!(
        body(Commands::Renote {
            note_id: "n1".into()
        }),
        (
            "notes/create".to_string(),
            json("{\"i\":\"t\",\"visibility\":\"public\",\"renoteId\":\"n1\"}")
        )
    );
    assert_eq!(
        body(Commands::User {
            target: "@taka@misskey.io".into()
        }),
        (
            "users/show".to_string(),
            json("{\"i\":\"t\",\"username\":\"taka\",\"host\":\"misskey.io\"}")
        )
    );
    assert!(request_for(
        &Commands::Accounts,
        &MisskeyClient::new(),
        "h",
        "t"
    )
    .is_none());
}

#[test]
fn users_are_resolved() {
    let c = MisskeyClient::new();
    let (call, by_name) = resolve_user(&c, "h", "t", "@admin");
    assert!(by_name);
    assert_eq!(call.body.str_at("username"), Some("admin"));
    assert!(call.body.get("host").is_none());
    let (call, by_name) = resolve_user(&c, "h", "t", "9abcdef123");
    assert!(!by_name);
    assert_eq!(call.body.str_at("userId"), Some("9abcdef123"));
}

#[test]
fn actions_are_reported() {
    let react = Commands::React {
        note_id: "n1".into(),
        reaction: ":star:".into(),
    };
    assert_eq!(
        report(&react, OutputFormat::Json).unwrap(),
        "{\"reacted\":\"n1\",\"reaction\":\":star:\"}"
    );
    assert_eq!(
        report(&react, OutputFormat::Default).unwrap(),
        "Reacted :star: to n1"
    );
    assert_eq!(report(&react, OutputFormat::Ids).unwrap(), "n1");
    let follow = Commands::Follow {
        user_id: "u1".into(),
    };
    assert_eq!(
        report(&follow, OutputFormat::Jsonl).unwrap(),
        "{\"followed\":\"u1\"}"
    );
    assert_eq!(
        report(&follow, OutputFormat::Compact).unwrap(),
        "Followed: u1"
    );
    let unreact = Commands::Unreact {
        note_id: "n1".into(),
    };
    assert_eq!(
        report(&unreact, OutputFormat::Default).unwrap(),
        "Unreacted from n1"
    );
    assert!(report(&Commands::Emojis, OutputFormat::Default).is_none());
}

#[test]
fn errors_are_reported() {
    let e = NoteDeckError::NoConnection("acc".into());
    assert_eq!(
        error_report(&e, OutputFormat::Default),
        "Error: No connection for account: acc"
    );
    assert_eq!(
        json(&error_report(&e, OutputFormat::Json)),
        json("{\"error\":\"NO_CONNECTION\",\"message\":\"No connection for account: acc\"}")
    );
}

fn note() -> NormalizedNote {
    NormalizedNote {
        id: "n1".into(),
        account_id: "acc".into(),
        server_host: "h".into(),
        created_at: "2025-01-02T03:04:05Z".into(),
        text: Some("hi".into()),
        cw: None,
        user: NormalizedUser {
            id: "u".into(),
            username: "alice".into(),
            host: None,
            name: None,
            avatar_url: None,
            emojis: Vec::new(),
            is_bot: false,
            avatar_decorations: Vec::new(),
            instance: None,
        },
        visibility: "public".into(),
        emojis: Vec::new(),
        reaction_emojis: Vec::new(),
        reactions: Vec::new(),
        my_reaction: None,
        renote_count: 0,
        replies_count: 0,
        files: Vec::new(),
        poll: None,
        reply_id: None,
        renote_id: None,
        channel_id: None,
        reaction_acceptance: None,
        uri: None,
        url: None,
        updated_at: None,
        local_only: false,
        visible_user_ids: Vec::new(),
        is_favorited: false,
        mode_flags: Vec::new(),
        reply: None,
        renote: None,
    }
}

#[test]
fn made_notes_are_reported() {
    let n = note();
    assert_eq!(
        texts(&print_note(
            &n,
            "{}",
            Some("Posted"),
            "misskey.io",
            OutputFormat::Default
        )),
        vec!["Posted: https://misskey.io/notes/n1"]
    );
    assert_eq!(
        texts(&print_note(&n, "{}", Some("Posted"), "h", OutputFormat::Jsonl)),
        vec!["{}"]
    );
    assert_eq!(
        texts(&print_note(&n, "{}", None, "h", OutputFormat::Ids)),
        vec!["n1"]
    );
    assert_eq!(
        texts(&print_note(&n, "{}", None, "h", OutputFormat::Default)).len(),
        3
    );
    let d = NormalizedUserDetail {
        id: "u1".into(),
        username: "taka".into(),
        host: None,
        name: None,
        avatar_url: None,
        banner_url: None,
        description: None,
        followers_count: 1,
        following_count: 2,
        notes_count: 3,
        is_bot: false,
        is_cat: false,
        is_following: false,
        is_followed: false,
        created_at: None,
    };
    assert_eq!(
        texts(&print_user(&d, "{}", OutputFormat::Compact)),
        vec!["u1\t@taka@(local)\ttaka\tnotes:3\tfollowing:2\tfollowers:1"]
    );
}

#[test]
fn metadata_leaves_out_what_the_parser_adds() {
    let arg = |name: &str, defaults: Vec<Option<&str>>| ParserArg {
        name: name.into(),
        help: None,
        required: false,
        default_values: defaults
            .into_iter()
            .map(|d| d.map(|s| s.to_string()))
            .collect(),
    };
    let told = command_metadata(&vec![ParserCommand {
        name: "tl".into(),
        about: Some("timeline".into()),
        args: vec![
            arg("type", vec![Some("home"), Some("x")]),
            arg("help", vec![]),
            arg("version", vec![]),
            arg("limit", vec![None]),
        ],
    }]);
    assert_eq!(told.len(), 1);
    assert_eq!(told[0].about.as_deref(), Some("timeline"));
    let names: Vec<&str> = told[0].args.iter().map(|a| a.name.as_str()).collect();
    assert_eq!(names, vec!["type", "limit"]);
    assert_eq!(told[0].args[0].default_value.as_deref(), Some("home"));
    assert_eq!(told[0].args[1].default_value, None);
}

#[test]
fn the_program_serves_without_a_command() {
    let cli = |command: Option<Commands>| Cli {
        account: None,
        json: false,
        ids: false,
        compact: false,
        jsonl: false,
        command,
    };
    assert_eq!(cli(None).daemon_port(), Some(19820));
    assert_eq!(
        cli(Some(Commands::Daemon { port: 8000 })).daemon_port(),
        Some(8000)
    );
    assert_eq!(cli(Some(Commands::Emojis)).daemon_port(), None);
}

#[test]
fn commands_have_outcomes() {
    assert_eq!(outcome_of(&Commands::Accounts), Outcome::ListAccounts);
    assert_eq!(outcome_of(&Commands::Daemon { port: 1 }), Outcome::Serve);
    assert_eq!(
        outcome_of(&Commands::Renote {
            note_id: "n".into()
        }),
        Outcome::Renoted
    );
    assert_eq!(
        outcome_of(&Commands::Mentions { limit: 1 }),
        Outcome::Notes
    );
    assert_eq!(
        outcome_of(&Commands::Unfollow {
            user_id: "u".into()
        }),
        Outcome::Report
    );
    assert_eq!(
        outcome_of(&Commands::Favorites { limit: 1 }),
        Outcome::Favorites
    );
    assert_eq!(Outcome::Posted.intro(), Some("Posted"));
    assert_eq!(Outcome::Renoted.intro(), Some("Renoted"));
    assert_eq!(Outcome::Note.intro(), None);
}

#[test]
fn timelines_have_endpoints_and_channels() {
    let of = |name: &str| {
        let t = TimelineType::new(name);
        (t.api_endpoint(), t.ws_channel())
    };
    let pair = |a: &str, b: &str| (a.to_string(), b.to_string());
    assert_eq!(of("home"), pair("notes/timeline", "homeTimeline"));
    assert_eq!(of("local"), pair("notes/local-timeline", "localTimeline"));
    assert_eq!(of("social"), pair("notes/hybrid-timeline", "hybridTimeline"));
    assert_eq!(of("global"), pair("notes/global-timeline", "globalTimeline"));
    assert_eq!(of("list"), pair("notes/user-list-timeline", "userList"));
    assert_eq!(TimelineType::new("home").as_str(), "home");
}
