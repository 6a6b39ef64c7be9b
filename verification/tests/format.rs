use notecli::cli::{Cli, ColorWhen, Commands};
use notecli::emoji::print_emojis;
use notecli::format::{
    can_preview, can_show_note, compact_note_text, format_user, oneline, print_action, print_json,
    print_note_compact, print_note_detail, print_notes, print_notification,
    print_notification_compact, print_notifications, print_user_compact, print_user_detail,
    resolve_color, OutputFormat,
};
use notecli::commands::run;
use notecli::models::{
    NormalizedNote, NormalizedNotification, NormalizedUser, NormalizedUserDetail, ServerEmoji,
};
use notecli::theme::{paint, paint_line, plain_line, Span, Style};

#[test]
fn color_never_always_ignore_env() {
    assert!(!resolve_color(ColorWhen::Never, false, true, true));
    assert!(resolve_color(ColorWhen::Always, true, false, false));
}

#[test]
fn color_auto_respects_no_color_first() {
    assert!(!resolve_color(ColorWhen::Auto, true, true, true));
}

#[test]
fn color_auto_force_overrides_non_tty() {
    assert!(resolve_color(ColorWhen::Auto, false, true, false));
}

#[test]
fn color_auto_tty_enables() {
    assert!(resolve_color(ColorWhen::Auto, false, false, true));
}

#[test]
fn color_auto_pipe_disables() {
    assert!(!resolve_color(ColorWhen::Auto, false, false, false));
}

fn user(name: &str, host: Option<&str>) -> NormalizedUser {
    NormalizedUser {
        id: "u1".into(),
        username: name.into(),
        host: host.map(|h| h.to_string()),
        name: None,
        avatar_url: None,
        emojis: Vec::new(),
        is_bot: false,
        avatar_decorations: Vec::new(),
        instance: None,
    }
}

fn note(id: &str, text: Option<&str>) -> NormalizedNote {
    NormalizedNote {
        id: id.into(),
        account_id: "acc-1".into(),
        server_host: "misskey.io".into(),
        created_at: "2025-01-02T03:04:05Z".into(),
        text: text.map(|t| t.to_string()),
        cw: None,
        user: user("alice", None),
        visibility: "public".into(),
        emojis: Vec::new(),
        reaction_emojis: Vec::new(),
        reactions: Vec::new(),
        my_reaction: None,
        renote_count: 0,
        replies_count: 0,
        files: Vec::new(),
        poll: None,
        reply_id: None,
        renote_id: None,
        channel_id: None,
        reaction_acceptance: None,
        uri: None,
        url: None,
        updated_at: None,
        local_only: false,
        visible_user_ids: Vec::new(),
        is_favorited: false,
        mode_flags: Vec::new(),
        reply: None,
        renote: None,
    }
}

fn notification(kind: &str, text: Option<&str>) -> NormalizedNotification {
    NormalizedNotification {
        id: "notif1".into(),
        notification_type: kind.into(),
        user: Some(user("bob", Some("example.com"))),
        note: text.map(|t| note("n1", Some(t))),
        reaction: None,
    }
}

fn texts(lines: &Vec<Vec<Span>>) -> Vec<String> {
    lines.iter().map(plain_line).collect()
}

#[test]
fn users_are_named_with_their_server() {
    assert_eq!(format_user(&user("alice", None)), "@alice");
    assert_eq!(
        format_user(&user("alice", Some("misskey.io"))),
        "@alice@misskey.io"
    );
}

#[test]
fn oneline_keeps_words_and_single_spaces() {
    assert_eq!(oneline("  a\n\tb \u{3000} c  "), "a b c");
    assert_eq!(oneline(""), "");
    assert_eq!(oneline(" \n "), "");
    assert_eq!(oneline(&oneline("x  y\nz")), oneline("x  y\nz"));
}

#[test]
fn compact_text_of_notes() {
    let mut n = note("n1", Some("hello\nworld"));
    assert_eq!(compact_note_text(&n), "hello world");
    n.cw = Some("be\tware".into());
    assert_eq!(compact_note_text(&n), "[CW: be ware] hello world");
    let mut rn = note("n2", None);
    assert_eq!(compact_note_text(&rn), "(empty)");
    rn.renote = Some(Box::new(note("n1", Some("first"))));
    assert_eq!(compact_note_text(&rn), "[RN @alice] first");
}

#[test]
fn compact_note_has_tabs_and_minutes() {
    let n = note("n1", Some("hi"));
    assert!(can_show_note(&n, OutputFormat::Compact));
    let line = print_note_compact(&n);
    assert_eq!(plain_line(&line), "n1\t@alice\t2025-01-02 03:04\thi");
    assert_eq!(line[0].style, Style::Dimmed);
    assert_eq!(line[2].style, Style::Cyan);
}

#[test]
fn short_dates_cannot_be_shown() {
    let mut n = note("n1", Some("hi"));
    n.created_at = "2025".into();
    assert!(!can_show_note(&n, OutputFormat::Compact));
    assert!(!can_show_note(&n, OutputFormat::Default));
    assert!(can_show_note(&n, OutputFormat::Ids));
    n.created_at = "2025-01-02T03:0日".into();
    assert!(!can_show_note(&n, OutputFormat::Compact));
}

#[test]
fn detailed_note_shows_warning_text_renote_and_counts() {
    let mut n = note("n1", Some("hi"));
    n.cw = Some("care".into());
    n.renote = Some(Box::new(note("n0", Some("before"))));
    n.reactions = vec![(":star:".into(), 2), (":heart:".into(), 3)];
    n.renote_count = 1;
    assert_eq!(
        texts(&print_note_detail(&n)),
        vec![
            "@alice  2025-01-02 03:04  id:n1",
            "[CW: care]",
            "hi",
            "  RN @alice: before",
            "  reactions:5 renotes:1 replies:0",
            "",
        ]
    );
    assert_eq!(
        texts(&print_note_detail(&note("n2", None))),
        vec!["@alice  2025-01-02 03:04  id:n2", ""]
    );
}

#[test]
fn notes_in_every_format() {
    let notes = vec![note("n1", Some("a")), note("n2", Some("b"))];
    let jsons: Vec<String> = vec!["{\"id\":\"n1\"}".into(), "{\"id\":\"n2\"}".into()];
    assert_eq!(
        texts(&print_notes(&notes, &jsons, OutputFormat::Json)),
        vec!["[{\"id\":\"n1\"},{\"id\":\"n2\"}]"]
    );
    assert_eq!(
        texts(&print_notes(&notes, &jsons, OutputFormat::Jsonl)),
        vec!["{\"id\":\"n1\"}", "{\"id\":\"n2\"}"]
    );
    assert_eq!(
        texts(&print_notes(&notes, &jsons, OutputFormat::Ids)),
        vec!["n1", "n2"]
    );
    assert_eq!(
        texts(&print_notes(&notes, &jsons, OutputFormat::Compact)),
        vec![
            "n1\t@alice\t2025-01-02 03:04\ta",
            "n2\t@alice\t2025-01-02 03:04\tb"
        ]
    );
    assert_eq!(
        texts(&print_notes(&notes, &jsons, OutputFormat::Default)).len(),
        6
    );
    assert_eq!(
        texts(&print_json(&Vec::new(), OutputFormat::Json)),
        vec!["[]"]
    );
}

#[test]
fn notifications_by_kind() {
    let line = |n: &NormalizedNotification| plain_line(&print_notification(n));
    let mut reaction = notification("reaction", Some("hello"));
    assert_eq!(
        line(&reaction),
        "reaction  @bob@example.com  ?  \"hello\""
    );
    reaction.reaction = Some(":star:".into());
    assert_eq!(
        line(&reaction),
        "reaction  @bob@example.com  :star:  \"hello\""
    );
    assert_eq!(
        line(&notification("follow", None)),
        "follow    @bob@example.com"
    );
    assert_eq!(
        line(&notification("reply", Some("x"))),
        "reply     @bob@example.com  \"x\""
    );
    assert_eq!(
        line(&notification("renote", Some("x"))),
        "renote    @bob@example.com  \"x\""
    );
    assert_eq!(
        line(&notification("mention", Some("x"))),
        "mention   @bob@example.com  \"x\""
    );
    assert_eq!(
        line(&notification("quote", Some("x"))),
        "quote     @bob@example.com  \"x\""
    );
    assert_eq!(
        line(&notification("pollEnded", None)),
        "pollEnded   @bob@example.com  \"\""
    );
    assert_eq!(
        texts(&run::print_notifications(
            &vec![notification("app", None)],
            &Vec::new(),
            OutputFormat::Default
        )),
        vec!["app       @bob@example.com  \"\""]
    );
}

#[test]
fn long_previews_are_cut_at_fifty_bytes() {
    let long = "a".repeat(60);
    let n = notification("reply", Some(&long));
    assert!(can_preview(&n));
    assert_eq!(
        plain_line(&print_notification(&n)),
        format!("reply     @bob@example.com  \"{}...\"", "a".repeat(50))
    );
    let uneven = "あ".repeat(20);
    assert!(!can_preview(&notification("reply", Some(&uneven))));
    assert!(can_preview(&notification("reply", Some("あ"))));
}

#[test]
fn compact_notifications_and_ids() {
    let mut n = notification("reaction", Some("a\nb"));
    n.reaction = Some(":star:".into());
    assert_eq!(
        plain_line(&print_notification_compact(&n)),
        "n1\treaction\t@bob@example.com\t:star:\ta b"
    );
    let f = notification("follow", None);
    assert_eq!(
        plain_line(&print_notification_compact(&f)),
        "-\tfollow\t@bob@example.com\t\t"
    );
    let list = vec![n, f];
    assert_eq!(
        texts(&print_notifications(&list, &Vec::new(), OutputFormat::Ids)),
        vec!["n1", "notif1"]
    );
}

fn detail() -> NormalizedUserDetail {
    NormalizedUserDetail {
        id: "u1".into(),
        username: "taka".into(),
        host: None,
        name: Some("Taka  X".into()),
        avatar_url: None,
        banner_url: None,
        description: Some("hello".into()),
        followers_count: 10,
        following_count: 5,
        notes_count: 100,
        is_bot: true,
        is_cat: false,
        is_following: false,
        is_followed: true,
        created_at: None,
    }
}

#[test]
fn user_in_detail() {
    assert_eq!(
        texts(&print_user_detail(&detail())),
        vec![
            "Taka  X (@taka@(local))",
            "  ID: u1",
            "  Bio: hello",
            "  Notes: 100  Following: 5  Followers: 10",
            "  [Bot]  [Followed by]",
            "",
        ]
    );
    let mut d = detail();
    d.is_bot = false;
    d.is_followed = false;
    d.name = None;
    d.description = None;
    d.host = Some("misskey.io".into());
    assert_eq!(
        texts(&print_user_detail(&d)),
        vec![
            "taka (@taka@misskey.io)",
            "  ID: u1",
            "  Notes: 100  Following: 5  Followers: 10",
            "",
        ]
    );
    assert_eq!(
        print_user_compact(&detail()),
        "u1\t@taka@(local)\tTaka X\tnotes:100\tfollowing:5\tfollowers:10"
    );
}

fn emoji(name: &str, category: Option<&str>, aliases: Vec<&str>) -> ServerEmoji {
    ServerEmoji {
        name: name.into(),
        url: "https://example.com/x.png".into(),
        category: category.map(|c| c.to_string()),
        aliases: aliases.into_iter().map(|a| a.to_string()).collect(),
    }
}

#[test]
fn emojis_are_grouped_by_sorted_category() {
    let emojis = vec![
        emoji("z", Some("zoo"), vec![]),
        emoji("a", None, vec!["x", "y"]),
        emoji("b", Some("blob"), vec![]),
        emoji("z2", Some("zoo"), vec!["cat"]),
    ];
    assert_eq!(
        texts(&print_emojis(&emojis, &Vec::new(), OutputFormat::Default)),
        vec![
            "[(uncategorized)]",
            "  :a:  (x, y)",
            "[blob]",
            "  :b: ",
            "[zoo]",
            "  :z: ",
            "  :z2:  (cat)",
            "",
            "Total: 4 emojis",
        ]
    );
    assert_eq!(
        texts(&print_emojis(&emojis, &Vec::new(), OutputFormat::Compact)),
        vec![":z:\tzoo\t", ":a:\t\tx,y", ":b:\tblob\t", ":z2:\tzoo\tcat"]
    );
    assert_eq!(
        texts(&print_emojis(&emojis, &Vec::new(), OutputFormat::Ids)),
        vec![":z:", ":a:", ":b:", ":z2:"]
    );
}

#[test]
fn actions_by_format() {
    assert_eq!(print_action(OutputFormat::Json, "{}", "id", "msg"), "{}");
    assert_eq!(print_action(OutputFormat::Jsonl, "{}", "id", "msg"), "{}");
    assert_eq!(print_action(OutputFormat::Ids, "{}", "id", "msg"), "id");
    assert_eq!(
        print_action(OutputFormat::Compact, "{}", "id", "msg"),
        "msg"
    );
    assert_eq!(
        print_action(OutputFormat::Default, "{}", "id", "msg"),
        "msg"
    );
}

#[test]
fn format_from_command_line() {
    let cli = |json: bool, ids: bool, compact: bool, jsonl: bool| {
        OutputFormat::from_cli(&Cli {
            account: None,
            json,
            ids,
            compact,
            jsonl,
            command: Some(Commands::Emojis),
        })
    };
    assert_eq!(cli(true, true, true, true), OutputFormat::Json);
    assert_eq!(cli(false, true, true, true), OutputFormat::Ids);
    assert_eq!(cli(false, false, true, true), OutputFormat::Compact);
    assert_eq!(cli(false, false, false, true), OutputFormat::Jsonl);
    assert_eq!(cli(false, false, false, false), OutputFormat::Default);
}

fn span(style: Style, text: &str) -> Span {
    Span {
        style,
        text: text.into(),
    }
}

#[test]
fn colors_are_painted_when_they_are_on() {
    colored::control::set_override(true);
    let cases = vec![
        (Style::Plain, "x"),
        (Style::Cyan, "\u{1b}[36mx\u{1b}[0m"),
        (Style::Green, "\u{1b}[32mx\u{1b}[0m"),
        (Style::Yellow, "\u{1b}[33mx\u{1b}[0m"),
        (Style::Blue, "\u{1b}[34mx\u{1b}[0m"),
        (Style::Magenta, "\u{1b}[35mx\u{1b}[0m"),
        (Style::White, "\u{1b}[37mx\u{1b}[0m"),
        (Style::Dimmed, "\u{1b}[2mx\u{1b}[0m"),
        (Style::Bold, "\u{1b}[1mx\u{1b}[0m"),
        (Style::BoldBlue, "\u{1b}[1;34mx\u{1b}[0m"),
    ];
    for (style, expected) in cases {
        assert_eq!(paint(&span(style, "x")), expected);
    }
    assert_eq!(
        paint(&span(Style::BoldBlue, "a\u{1b}[0mb\u{1b}[0m\u{1b}[0m")),
        "\u{1b}[1;34ma\u{1b}[0m\u{1b}[1;34mb\u{1b}[0m\u{1b}[1;34m\u{1b}[0m\u{1b}[1;34m\u{1b}[0m"
    );
    let line = vec![span(Style::Plain, "a "), span(Style::Green, "b")];
    assert_eq!(paint_line(&line), "a \u{1b}[32mb\u{1b}[0m");
    assert_eq!(plain_line(&line), "a b");
}

#[test]
fn colors_are_left_out_when_they_are_off() {
    colored::control::set_override(false);
    let line = vec![span(Style::Bold, "a"), span(Style::Green, "b")];
    assert_eq!(paint_line(&line), "ab");
}

#[test]
fn each_note_is_one_line_for_other_programs() {
    let notes = vec![
        note("n1", Some("a\tb\r\nc")),
        note("n2", Some("")),
        note("n3", None),
    ];
    let jsons: Vec<String> = vec!["{}".into(), "[]".into(), "1".into()];
    let compact = texts(&print_notes(&notes, &jsons, OutputFormat::Compact));
    assert_eq!(compact.len(), 3);
    for line in &compact {
        assert_eq!(line.matches('\t').count(), 3);
        assert!(!line.contains('\n') && !line.contains('\r'));
    }
    assert_eq!(compact[0], "n1\t@alice\t2025-01-02 03:04\ta b c");
    assert_eq!(
        texts(&print_notes(&notes, &jsons, OutputFormat::Ids)),
        vec!["n1", "n2", "n3"]
    );
    assert_eq!(
        texts(&print_notes(&notes, &jsons, OutputFormat::Jsonl)),
        jsons
    );
}
