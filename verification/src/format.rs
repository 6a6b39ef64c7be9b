//! How notes, notifications, users and emojis are shown.
use vstd::prelude::*;

use crate::cli::{Cli, ColorWhen};
use crate::models::{
    NormalizedNote, NormalizedNotification, NormalizedUser, NormalizedUserDetail, ServerEmoji,
};
use crate::text;
use crate::theme;
use crate::theme::{Span, Style};

pub use crate::emoji::print_emojis;

verus! {

/// When output is coloured.
pub open spec fn is_coloured(
    when: ColorWhen,
    no_color: bool,
    clicolor_force: bool,
    is_tty: bool,
) -> bool {
    match when {
        ColorWhen::Always => true,
        ColorWhen::Never => false,
        ColorWhen::Auto => !no_color && (clicolor_force || is_tty),
    }
}

/// Whether output is coloured. Where it is left open, `NO_COLOR` forbids it;
/// else `CLICOLOR_FORCE` or a terminal asks for it.
pub fn resolve_color(when: ColorWhen, no_color: bool, clicolor_force: bool, is_tty: bool) -> (r:
    bool)
    ensures
        r == is_coloured(when, no_color, clicolor_force, is_tty),
{
    match when {
        ColorWhen::Always => true,
        ColorWhen::Never => false,
        ColorWhen::Auto => !no_color && (clicolor_force || is_tty),
    }
}

/// The forms of output.
#[derive(Debug, Clone, Copy, PartialEq, Eq, Structural)]
pub enum OutputFormat {
    Default,
    Json,
    Ids,
    Compact,
    Jsonl,
}

impl OutputFormat {
    /// The form that the command line asks for.
    pub open spec fn asked_for(cli: Cli) -> OutputFormat {
        if cli.json {
            OutputFormat::Json
        } else if cli.ids {
            OutputFormat::Ids
        } else if cli.compact {
            OutputFormat::Compact
        } else if cli.jsonl {
            OutputFormat::Jsonl
        } else {
            OutputFormat::Default
        }
    }

    /// The form that the command line asks for: of several the first in this
    /// order counts.
    pub fn from_cli(cli: &Cli) -> (r: Self)
        ensures
            r == Self::asked_for(*cli),
    {
        if cli.json {
            OutputFormat::Json
        } else if cli.ids {
            OutputFormat::Ids
        } else if cli.compact {
            OutputFormat::Compact
        } else if cli.jsonl {
            OutputFormat::Jsonl
        } else {
            OutputFormat::Default
        }
    }

    /// Whether this is one of the forms for programs that read JSON.
    pub open spec fn is_json(self) -> bool {
        self is Json || self is Jsonl
    }
}

/// What is printed of an action: its JSON, an id, or words.
pub open spec fn action_text(
    fmt: OutputFormat,
    json_obj: Seq<char>,
    id: Seq<char>,
    default_msg: Seq<char>,
) -> Seq<char> {
    if fmt.is_json() {
        json_obj
    } else if fmt is Ids {
        id
    } else {
        default_msg
    }
}

/// What is printed of an action, in each form.
pub fn print_action<'a>(fmt: OutputFormat, json_obj: &'a str, id: &'a str, default_msg: &'a str) -> (r:
    &'a str)
    ensures
        r@ == action_text(fmt, json_obj@, id@, default_msg@),
{
    match fmt {
        OutputFormat::Json | OutputFormat::Jsonl => json_obj,
        OutputFormat::Ids => id,
        _ => default_msg,
    }
}

/// A piece of plain text.
pub open spec fn p(s: Seq<char>) -> (Style, Seq<char>) {
    (Style::Plain, s)
}

/// The name of a user.
pub open spec fn u(s: Seq<char>) -> (Style, Seq<char>) {
    (Style::Cyan, s)
}

/// Text in the background.
pub open spec fn m(s: Seq<char>) -> (Style, Seq<char>) {
    (Style::Dimmed, s)
}

/// A count.
pub open spec fn c(s: Seq<char>) -> (Style, Seq<char>) {
    (Style::Green, s)
}

/// A mark.
pub open spec fn b(s: Seq<char>) -> (Style, Seq<char>) {
    (Style::Yellow, s)
}

/// How a user is named: with the server, where it is another one.
pub open spec fn user_name(user: NormalizedUser) -> Seq<char> {
    match user.host {
        Some(host) => "@"@ + user.username@ + "@"@ + host@,
        None => "@"@ + user.username@,
    }
}

/// Names a user.
pub fn format_user(user: &NormalizedUser) -> (r: String)
    ensures
        r@ == user_name(*user),
{
    let mut s = "@".to_owned();
    s.append(user.username.as_str());
    match &user.host {
        Some(host) => {
            s.append("@");
            s.append(host.as_str());
        },
        None => {},
    }
    s
}

/// A text on one line: its words, with a space between each two.
pub fn oneline(s: &str) -> (r: String)
    ensures
        r@ == text::one_line(s@),
{
    text::collapse_spaces(s)
}

/// Text, or the empty text where there is none.
pub open spec fn or_empty(o: Option<Seq<char>>) -> Seq<char> {
    match o {
        Some(s) => s,
        None => ""@,
    }
}

fn text_or_empty(o: &Option<String>) -> (r: &str)
    ensures
        r@ == or_empty(text::opt_text(*o)),
{
    match o {
        Some(s) => s.as_str(),
        None => "",
    }
}

/// What is shown of the text of a note on one line: the warning, and then the
/// text, or else the note that is passed on.
pub open spec fn note_parts(note: NormalizedNote) -> Seq<Seq<char>> {
    let warning = match note.cw {
        Some(cw) => seq!["[CW: "@ + text::one_line(cw@) + "]"@],
        None => Seq::empty(),
    };
    let body = match note.text {
        Some(t) => seq![text::one_line(t@)],
        None => match note.renote {
            Some(renote) => seq![
                "[RN "@ + user_name(renote.user) + "] "@ + text::one_line(
                    or_empty(text::opt_text(renote.text)),
                ),
            ],
            None => Seq::empty(),
        },
    };
    warning + body
}

/// The text of a note on one line.
pub open spec fn note_line(note: NormalizedNote) -> Seq<char> {
    if note_parts(note).len() == 0 {
        "(empty)"@
    } else {
        text::joined(note_parts(note), " "@)
    }
}

/// Makes the text of a note on one line.
pub fn compact_note_text(note: &NormalizedNote) -> (r: String)
    ensures
        r@ == note_line(*note),
{
    let mut parts: Vec<String> = Vec::new();
    match &note.cw {
        Some(cw) => {
            let mut s = "[CW: ".to_owned();
            s.append(oneline(cw.as_str()).as_str());
            s.append("]");
            parts.push(s);
        },
        None => {},
    }
    let ghost first = text::texts(parts@);
    match &note.text {
        Some(t) => {
            let s = oneline(t.as_str());
            parts.push(s);
        },
        None => match &note.renote {
            Some(renote) => {
                let mut s = "[RN ".to_owned();
                s.append(format_user(&renote.user).as_str());
                s.append("] ");
                s.append(oneline(text_or_empty(&renote.text)).as_str());
                parts.push(s);
            },
            None => {},
        },
    }
    proof {
        assert(text::texts(parts@) =~= note_parts(*note));
    }
    if parts.len() == 0 {
        "(empty)".to_owned()
    } else {
        text::join(&parts, " ")
    }
}

/// When a note was written, to the minute.
pub open spec fn note_time(note: NormalizedNote) -> Seq<char> {
    text::replaced(text::byte_prefix(note.created_at@, 16), 'T', " "@)
}

/// Whether the time of a note can be shown: its date is long enough, and a
/// character ends where it is cut.
pub open spec fn has_time(note: NormalizedNote) -> bool {
    text::cuts_cleanly(note.created_at@, 16)
}

/// How often somebody has reacted to a note.
pub open spec fn total(reactions: Seq<(String, i64)>) -> int
    decreases reactions.len(),
{
    if reactions.len() == 0 {
        0
    } else {
        total(reactions.drop_last()) + reactions.last().1
    }
}

/// Whether a note can be shown in a form.
pub open spec fn can_show(note: NormalizedNote, fmt: OutputFormat) -> bool {
    match fmt {
        OutputFormat::Compact => has_time(note),
        OutputFormat::Default => has_time(note) && i64::MIN <= total(note.reactions@) <= i64::MAX,
        _ => true,
    }
}

fn sum_of(reactions: &Vec<(String, i64)>) -> (r: i128)
    ensures
        r == total(reactions@),
{
    let mut sum: i128 = 0;
    let mut i: usize = 0;
    proof {
        assert(total(reactions@.take(0)) == 0);
    }
    while i < reactions.len()
        invariant
            0 <= i <= reactions@.len(),
            sum == total(reactions@.take(i as int)),
            -0x8000_0000_0000_0000 * i <= sum <= 0x8000_0000_0000_0000 * i,
            i <= usize::MAX,
        decreases reactions@.len() - i,
    {
        proof {
            assert(reactions@.take(i + 1).drop_last() =~= reactions@.take(i as int));
            assert(reactions@.take(i + 1).last() == reactions@[i as int]);
        }
        sum = sum + reactions[i].1 as i128;
        i += 1;
    }
    proof {
        assert(reactions@.take(i as int) =~= reactions@);
    }
    sum
}

/// Tells whether a note can be shown in a form.
pub fn can_show_note(note: &NormalizedNote, fmt: OutputFormat) -> (r: bool)
    ensures
        r == can_show(*note, fmt),
{
    match fmt {
        OutputFormat::Compact => text::can_cut(note.created_at.as_str(), 16),
        OutputFormat::Default => {
            let sum: i128 = sum_of(&note.reactions);
            text::can_cut(note.created_at.as_str(), 16) && i64::MIN as i128 <= sum && sum
                <= i64::MAX as i128
        },
        _ => true,
    }
}

fn time_of(note: &NormalizedNote) -> (r: String)
    requires
        has_time(*note),
    ensures
        r@ == note_time(*note),
{
    text::replace_char(text::take_bytes(note.created_at.as_str(), 16).as_str(), 'T', " ")
}

/// A note on one line: id, user, time and text, with tabs between them.
pub open spec fn compact_note(note: NormalizedNote) -> Seq<(Style, Seq<char>)> {
    seq![
        m(note.id@),
        p("\t"@),
        u(user_name(note.user)),
        p("\t"@),
        m(note_time(note)),
        p("\t"@),
        p(note_line(note)),
    ]
}

/// Shows a note on one line.
pub fn print_note_compact(note: &NormalizedNote) -> (r: Vec<Span>)
    requires
        has_time(*note),
    ensures
        theme::spans_view(r@) == compact_note(*note),
{
    let mut line = theme::start();
    theme::put(&mut line, theme::muted(note.id.as_str()));
    theme::put(&mut line, theme::plain("\t"));
    theme::put(&mut line, theme::user(format_user(&note.user).as_str()));
    theme::put(&mut line, theme::plain("\t"));
    theme::put(&mut line, theme::muted(time_of(note).as_str()));
    theme::put(&mut line, theme::plain("\t"));
    theme::put(&mut line, theme::plain(compact_note_text(note).as_str()));
    proof {
        assert(theme::spans_view(line@) =~= compact_note(*note));
    }
    line
}

/// The line with a warning, where there is one.
pub open spec fn warning_lines(cw: Option<String>) -> Seq<Seq<(Style, Seq<char>)>> {
    match cw {
        Some(s) => seq![seq![b("[CW: "@ + s@ + "]"@)]],
        None => Seq::empty(),
    }
}

/// The lines with the text of a note, where there is one.
pub open spec fn body_lines(body: Option<String>) -> Seq<Seq<(Style, Seq<char>)>> {
    match body {
        Some(s) => seq![seq![p(s@)]],
        None => Seq::empty(),
    }
}

/// The line with the note that is passed on, where there is one.
pub open spec fn renote_lines(note: NormalizedNote) -> Seq<Seq<(Style, Seq<char>)>> {
    match note.renote {
        Some(renote) => seq![
            seq![
                p("  "@),
                (Style::Magenta, "RN"@),
                p(" "@),
                u(user_name(renote.user)),
                p(": "@),
                m(or_empty(text::opt_text(renote.text))),
            ],
        ],
        None => Seq::empty(),
    }
}

/// The line with the counts, where there is anything to count.
pub open spec fn count_lines(note: NormalizedNote) -> Seq<Seq<(Style, Seq<char>)>> {
    let reactions = total(note.reactions@);
    if reactions > 0 || note.renote_count > 0 || note.replies_count > 0 {
        seq![
            seq![
                p("  reactions:"@),
                c(text::decimal(reactions)),
                p(" renotes:"@),
                c(text::decimal(note.renote_count as int)),
                p(" replies:"@),
                c(text::decimal(note.replies_count as int)),
            ],
        ]
    } else {
        Seq::empty()
    }
}

/// A note in full, with an empty line behind it.
pub open spec fn detailed_note(note: NormalizedNote) -> Seq<Seq<(Style, Seq<char>)>> {
    let head = seq![
        seq![
            u(user_name(note.user)),
            p("  "@),
            m(note_time(note)),
            p("  "@),
            m("id:"@),
            m(note.id@),
        ],
    ];
    head + warning_lines(note.cw) + body_lines(note.text) + renote_lines(note) + count_lines(note)
        + seq![Seq::empty()]
}

/// Shows a note in full.
pub fn print_note_detail(note: &NormalizedNote) -> (r: Vec<Vec<Span>>)
    requires
        can_show(*note, OutputFormat::Default),
    ensures
        theme::lines_view(r@) == detailed_note(*note),
{
    let mut lines = theme::no_lines();
    let mut line = theme::start();
    theme::put(&mut line, theme::user(format_user(&note.user).as_str()));
    theme::put(&mut line, theme::plain("  "));
    theme::put(&mut line, theme::muted(time_of(note).as_str()));
    theme::put(&mut line, theme::plain("  "));
    theme::put(&mut line, theme::muted("id:"));
    theme::put(&mut line, theme::muted(note.id.as_str()));
    let ghost head = seq![
        u(user_name(note.user)),
        p("  "@),
        m(note_time(*note)),
        p("  "@),
        m("id:"@),
        m(note.id@),
    ];
    proof {
        assert(theme::spans_view(line@) =~= head);
    }
    theme::end(&mut lines, line);
    let ghost l0 = theme::lines_view(lines@);
    match &note.cw {
        Some(cw) => {
            let mut s = "[CW: ".to_owned();
            s.append(cw.as_str());
            s.append("]");
            let mut line = theme::start();
            theme::put(&mut line, theme::badge(s.as_str()));
            proof {
                assert(theme::spans_view(line@) =~= seq![b(s@)]);
            }
            theme::end(&mut lines, line);
        },
        None => {},
    }
    let ghost l1 = theme::lines_view(lines@);
    proof {
        assert(l1 =~= l0 + warning_lines(note.cw));
    }
    match &note.text {
        Some(t) => {
            theme::end(&mut lines, theme::plain_text_line(t.as_str()));
        },
        None => {},
    }
    let ghost l2 = theme::lines_view(lines@);
    proof {
        assert(l2 =~= l1 + body_lines(note.text));
    }
    match &note.renote {
        Some(renote) => {
            let mut line = theme::start();
            theme::put(&mut line, theme::plain("  "));
            theme::put(&mut line, theme::renote("RN"));
            theme::put(&mut line, theme::plain(" "));
            theme::put(&mut line, theme::user(format_user(&renote.user).as_str()));
            theme::put(&mut line, theme::plain(": "));
            theme::put(&mut line, theme::muted(text_or_empty(&renote.text)));
            proof {
                assert(theme::spans_view(line@) =~= renote_lines(*note)[0]);
            }
            theme::end(&mut lines, line);
        },
        None => {},
    }
    let ghost l3 = theme::lines_view(lines@);
    proof {
        assert(l3 =~= l2 + renote_lines(*note));
    }
    let reactions: i128 = sum_of(&note.reactions);
    if reactions > 0 || note.renote_count > 0 || note.replies_count > 0 {
        let mut line = theme::start();
        theme::put(&mut line, theme::plain("  reactions:"));
        theme::put(&mut line, theme::count(text::decimal_of(reactions as i64).as_str()));
        theme::put(&mut line, theme::plain(" renotes:"));
        theme::put(&mut line, theme::count(text::decimal_of(note.renote_count).as_str()));
        theme::put(&mut line, theme::plain(" replies:"));
        theme::put(&mut line, theme::count(text::decimal_of(note.replies_count).as_str()));
        proof {
            assert(theme::spans_view(line@) =~= count_lines(*note)[0]);
        }
        theme::end(&mut lines, line);
    }
    let ghost l4 = theme::lines_view(lines@);
    proof {
        assert(l4 =~= l3 + count_lines(*note));
    }
    theme::end(&mut lines, theme::start());
    proof {
        assert(theme::lines_view(lines@) =~= detailed_note(*note));
    }
    lines
}

/// The JSON texts of some items as one array.
pub open spec fn json_array(items: Seq<Seq<char>>) -> Seq<char> {
    "["@ + text::joined(items, ","@) + "]"@
}

/// Lines of plain text.
pub open spec fn plain_lines(items: Seq<Seq<char>>) -> Seq<Seq<(Style, Seq<char>)>> {
    Seq::new(items.len(), |i: int| seq![p(items[i])])
}

/// What is printed for programs that read JSON: an array on one line, or each
/// item on a line of its own.
pub open spec fn json_lines(items: Seq<Seq<char>>, fmt: OutputFormat) -> Seq<
    Seq<(Style, Seq<char>)>,
> {
    if fmt is Json {
        seq![seq![p(json_array(items))]]
    } else {
        plain_lines(items)
    }
}

pub(crate) fn show_plain(items: &Vec<String>) -> (r: Vec<Vec<Span>>)
    ensures
        theme::lines_view(r@) == plain_lines(text::texts(items@)),
{
    let mut lines = theme::no_lines();
    let ghost all = plain_lines(text::texts(items@));
    let mut i: usize = 0;
    while i < items.len()
        invariant
            0 <= i <= items@.len(),
            all == plain_lines(text::texts(items@)),
            theme::lines_view(lines@) =~= all.take(i as int),
        decreases items@.len() - i,
    {
        theme::end(&mut lines, theme::plain_text_line(items[i].as_str()));
        i += 1;
    }
    proof {
        assert(all.take(i as int) =~= all);
    }
    lines
}

/// Shows the JSON texts of some items.
pub fn print_json(items: &Vec<String>, fmt: OutputFormat) -> (r: Vec<Vec<Span>>)
    ensures
        theme::lines_view(r@) == json_lines(text::texts(items@), fmt),
{
    match fmt {
        OutputFormat::Json => {
            let mut s = "[".to_owned();
            s.append(text::join(items, ",").as_str());
            s.append("]");
            let mut lines = theme::no_lines();
            theme::end(&mut lines, theme::plain_text_line(s.as_str()));
            proof {
                assert(theme::lines_view(lines@) =~= json_lines(text::texts(items@), fmt));
            }
            lines
        },
        _ => show_plain(items),
    }
}

/// The lines of some notes, one after the other.
pub open spec fn note_lines(notes: Seq<NormalizedNote>, fmt: OutputFormat) -> Seq<
    Seq<(Style, Seq<char>)>,
>
    decreases notes.len(),
{
    if notes.len() == 0 {
        Seq::empty()
    } else {
        let rest = note_lines(notes.drop_last(), fmt);
        let note = notes.last();
        if fmt is Ids {
            rest + seq![seq![p(note.id@)]]
        } else if fmt is Compact {
            rest + seq![compact_note(note)]
        } else {
            rest + detailed_note(note)
        }
    }
}

/// What is printed of some notes; `jsons` are their JSON texts.
pub open spec fn printed_notes(
    notes: Seq<NormalizedNote>,
    jsons: Seq<Seq<char>>,
    fmt: OutputFormat,
) -> Seq<Seq<(Style, Seq<char>)>> {
    if fmt.is_json() {
        json_lines(jsons, fmt)
    } else {
        note_lines(notes, fmt)
    }
}

/// Shows some notes; `jsons` are their JSON texts.
pub fn print_notes(notes: &Vec<NormalizedNote>, jsons: &Vec<String>, fmt: OutputFormat) -> (r: Vec<
    Vec<Span>,
>)
    requires
        forall|i: int| 0 <= i < notes@.len() ==> can_show(#[trigger] notes@[i], fmt),
    ensures
        theme::lines_view(r@) == printed_notes(notes@, text::texts(jsons@), fmt),
{
    match fmt {
        OutputFormat::Json | OutputFormat::Jsonl => {
            return print_json(jsons, fmt);
        },
        _ => {},
    }
    let mut lines = theme::no_lines();
    proof {
        assert(note_lines(notes@.take(0), fmt) =~= Seq::empty());
    }
    let mut i: usize = 0;
    while i < notes.len()
        invariant
            0 <= i <= notes@.len(),
            !fmt.is_json(),
            forall|k: int| 0 <= k < notes@.len() ==> can_show(#[trigger] notes@[k], fmt),
            theme::lines_view(lines@) == note_lines(notes@.take(i as int), fmt),
        decreases notes@.len() - i,
    {
        let ghost before = theme::lines_view(lines@);
        proof {
            assert(notes@.take(i + 1).drop_last() =~= notes@.take(i as int));
            assert(notes@.take(i + 1).last() == notes@[i as int]);
            assert(can_show(notes@[i as int], fmt));
        }
        match fmt {
            OutputFormat::Ids => {
                theme::end(&mut lines, theme::plain_text_line(notes[i].id.as_str()));
            },
            OutputFormat::Compact => {
                theme::end(&mut lines, print_note_compact(&notes[i]));
            },
            _ => {
                theme::append_lines(&mut lines, print_note_detail(&notes[i]));
            },
        }
        proof {
            assert(theme::lines_view(lines@) =~= note_lines(notes@.take(i + 1), fmt));
        }
        i += 1;
    }
    proof {
        assert(notes@.take(i as int) =~= notes@);
    }
    lines
}

/// The user that a notification is about; nobody, where there is none.
pub open spec fn notifier(n: NormalizedNotification) -> Seq<char> {
    match n.user {
        Some(user) => user_name(user),
        None => ""@,
    }
}

/// The text of the note that a notification is about.
pub open spec fn noted_text(n: NormalizedNotification) -> Seq<char> {
    match n.note {
        Some(note) => or_empty(text::opt_text(note.text)),
        None => ""@,
    }
}

fn notifier_of(n: &NormalizedNotification) -> (r: String)
    ensures
        r@ == notifier(*n),
{
    match &n.user {
        Some(user) => format_user(user),
        None => "".to_owned(),
    }
}

fn text_of(n: &NormalizedNotification) -> (r: &str)
    ensures
        r@ == noted_text(*n),
{
    match &n.note {
        Some(note) => text_or_empty(&note.text),
        None => "",
    }
}

/// A notification on one line: id of the note, kind, user, reaction and text,
/// with tabs between them.
pub open spec fn compact_notification(n: NormalizedNotification) -> Seq<(Style, Seq<char>)> {
    seq![
        m(
            match n.note {
                Some(note) => note.id@,
                None => "-"@,
            },
        ),
        p("\t"@),
        (theme::kind_style(n.notification_type@), n.notification_type@),
        p("\t"@),
        u(notifier(n)),
        p("\t"@),
        b(or_empty(text::opt_text(n.reaction))),
        p("\t"@),
        m(text::one_line(noted_text(n))),
    ]
}

/// Shows a notification on one line.
pub fn print_notification_compact(n: &NormalizedNotification) -> (r: Vec<Span>)
    ensures
        theme::spans_view(r@) == compact_notification(*n),
{
    let id = match &n.note {
        Some(note) => note.id.as_str(),
        None => "-",
    };
    let mut line = theme::start();
    theme::put(&mut line, theme::muted(id));
    theme::put(&mut line, theme::plain("\t"));
    theme::put(&mut line, theme::notif_kind(n.notification_type.as_str()));
    theme::put(&mut line, theme::plain("\t"));
    theme::put(&mut line, theme::user(notifier_of(n).as_str()));
    theme::put(&mut line, theme::plain("\t"));
    theme::put(&mut line, theme::badge(text_or_empty(&n.reaction)));
    theme::put(&mut line, theme::plain("\t"));
    theme::put(&mut line, theme::muted(oneline(text_of(n)).as_str()));
    proof {
        assert(theme::spans_view(line@) =~= compact_notification(*n));
    }
    line
}

/// The length of a text in bytes.
pub open spec fn byte_len(s: Seq<char>) -> nat {
    vstd::utf8::encode_utf8(s).len()
}

/// The beginning of a text in quotation marks: at most fifty bytes of it.
pub open spec fn preview(s: Seq<char>) -> Seq<char> {
    "\""@ + (if byte_len(s) > 50 {
        text::byte_prefix(s, 50) + "..."@
    } else {
        s
    }) + "\""@
}

/// Whether the text of a notification can be cut where it has to be.
pub open spec fn has_preview(n: NormalizedNotification) -> bool {
    byte_len(noted_text(n)) > 50 ==> text::cuts_cleanly(noted_text(n), 50)
}

/// Tells whether a notification can be shown.
pub fn can_preview(n: &NormalizedNotification) -> (r: bool)
    ensures
        r == has_preview(*n),
{
    let s = text_of(n);
    s.as_bytes().len() <= 50 || text::can_cut(s, 50)
}

fn preview_of(n: &NormalizedNotification) -> (r: String)
    requires
        has_preview(*n),
    ensures
        r@ == preview(noted_text(*n)),
{
    let s = text_of(n);
    let mut out = "\"".to_owned();
    if s.as_bytes().len() > 50 {
        out.append(text::take_bytes(s, 50).as_str());
        out.append("...");
    } else {
        out.append(s);
    }
    out.append("\"");
    out
}

/// What stands between the kind of a notification and the user. A kind that is
/// not known is filled up with spaces itself, and then followed by `gap`.
pub open spec fn kind_gap(kind: Seq<char>, gap: Seq<char>) -> Seq<char> {
    if kind == "reaction"@ {
        "  "@
    } else if kind == "follow"@ {
        "    "@
    } else if kind == "reply"@ {
        "     "@
    } else if kind == "renote"@ {
        "    "@
    } else if kind == "mention"@ {
        "   "@
    } else if kind == "quote"@ {
        "     "@
    } else {
        gap
    }
}

/// Whether a kind of notification is one of those known by name.
pub open spec fn is_known(kind: Seq<char>) -> bool {
    kind == "reaction"@ || kind == "follow"@ || kind == "reply"@ || kind == "renote"@ || kind
        == "mention"@ || kind == "quote"@
}

/// A notification in full.
pub open spec fn detailed_notification(n: NormalizedNotification, gap: Seq<char>) -> Seq<
    (Style, Seq<char>),
> {
    let kind = n.notification_type@;
    let label = if is_known(kind) {
        kind
    } else {
        text::padded(kind, 10)
    };
    let head = seq![(theme::kind_style(label), label), p(kind_gap(kind, gap)), u(notifier(n))];
    let tail = seq![p("  "@), m(preview(noted_text(n)))];
    if kind == "follow"@ {
        head
    } else if kind == "reaction"@ {
        head + seq![
            p("  "@),
            b(
                match n.reaction {
                    Some(r) => r@,
                    None => "?"@,
                },
            ),
        ] + tail
    } else {
        head + tail
    }
}

fn gap_for<'a>(kind: &str, gap: &'a str) -> (r: &'a str)
    ensures
        r@ == kind_gap(kind@, gap@),
{
    if text::same(kind, "reaction") {
        "  "
    } else if text::same(kind, "follow") {
        "    "
    } else if text::same(kind, "reply") {
        "     "
    } else if text::same(kind, "renote") {
        "    "
    } else if text::same(kind, "mention") {
        "   "
    } else if text::same(kind, "quote") {
        "     "
    } else {
        gap
    }
}

fn is_known_kind(kind: &str) -> (r: bool)
    ensures
        r == is_known(kind@),
{
    text::same(kind, "reaction") || text::same(kind, "follow") || text::same(kind, "reply")
        || text::same(kind, "renote") || text::same(kind, "mention") || text::same(kind, "quote")
}

fn notification_with(n: &NormalizedNotification, gap: &str) -> (r: Vec<Span>)
    requires
        has_preview(*n),
    ensures
        theme::spans_view(r@) == detailed_notification(*n, gap@),
{
    let kind = n.notification_type.as_str();
    let label = if is_known_kind(kind) {
        kind.to_owned()
    } else {
        text::pad_right(kind, 10)
    };
    let mut line = theme::start();
    theme::put(&mut line, theme::notif_kind(label.as_str()));
    theme::put(&mut line, theme::plain(gap_for(kind, gap)));
    theme::put(&mut line, theme::user(notifier_of(n).as_str()));
    let ghost head = seq![
        (theme::kind_style(label@), label@),
        p(kind_gap(kind@, gap@)),
        u(notifier(*n)),
    ];
    proof {
        assert(theme::spans_view(line@) =~= head);
    }
    if text::same(kind, "follow") {
        return line;
    }
    if text::same(kind, "reaction") {
        let reaction = match &n.reaction {
            Some(r) => r.as_str(),
            None => "?",
        };
        theme::put(&mut line, theme::plain("  "));
        theme::put(&mut line, theme::badge(reaction));
    }
    theme::put(&mut line, theme::plain("  "));
    theme::put(&mut line, theme::muted(preview_of(n).as_str()));
    proof {
        assert(theme::spans_view(line@) =~= detailed_notification(*n, gap@));
    }
    line
}

/// What follows a kind of notification that is not known.
pub const UNKNOWN_KIND_GAP: &'static str = "  ";

/// Shows a notification in full.
pub fn print_notification(n: &NormalizedNotification) -> (r: Vec<Span>)
    requires
        has_preview(*n),
    ensures
        theme::spans_view(r@) == detailed_notification(*n, UNKNOWN_KIND_GAP@),
{
    notification_with(n, UNKNOWN_KIND_GAP)
}

/// The line of a notification.
pub open spec fn notification_line(n: NormalizedNotification, fmt: OutputFormat, gap: Seq<char>) -> Seq<
    (Style, Seq<char>),
> {
    if fmt is Ids {
        seq![
            p(
                match n.note {
                    Some(note) => note.id@,
                    None => n.id@,
                },
            ),
        ]
    } else if fmt is Compact {
        compact_notification(n)
    } else {
        detailed_notification(n, gap)
    }
}

/// What is printed of some notifications; `jsons` are their JSON texts.
pub open spec fn printed_notifications(
    notifications: Seq<NormalizedNotification>,
    jsons: Seq<Seq<char>>,
    fmt: OutputFormat,
    gap: Seq<char>,
) -> Seq<Seq<(Style, Seq<char>)>> {
    if fmt.is_json() {
        json_lines(jsons, fmt)
    } else {
        Seq::new(
            notifications.len(),
            |i: int| notification_line(notifications[i], fmt, gap),
        )
    }
}

/// Shows some notifications; `jsons` are their JSON texts.
pub fn print_notifications(
    notifications: &Vec<NormalizedNotification>,
    jsons: &Vec<String>,
    fmt: OutputFormat,
) -> (r: Vec<Vec<Span>>)
    requires
        fmt is Default ==> forall|i: int|
            0 <= i < notifications@.len() ==> has_preview(#[trigger] notifications@[i]),
    ensures
        theme::lines_view(r@) == printed_notifications(
            notifications@,
            text::texts(jsons@),
            fmt,
            UNKNOWN_KIND_GAP@,
        ),
{
    notifications_with(notifications, jsons, fmt, UNKNOWN_KIND_GAP)
}

pub(crate) fn notifications_with(
    notifications: &Vec<NormalizedNotification>,
    jsons: &Vec<String>,
    fmt: OutputFormat,
    gap: &str,
) -> (r: Vec<Vec<Span>>)
    requires
        fmt is Default ==> forall|i: int|
            0 <= i < notifications@.len() ==> has_preview(#[trigger] notifications@[i]),
    ensures
        theme::lines_view(r@) == printed_notifications(
            notifications@,
            text::texts(jsons@),
            fmt,
            gap@,
        ),
{
    match fmt {
        OutputFormat::Json | OutputFormat::Jsonl => {
            return print_json(jsons, fmt);
        },
        _ => {},
    }
    let mut lines = theme::no_lines();
    let ghost all = printed_notifications(notifications@, text::texts(jsons@), fmt, gap@);
    let mut i: usize = 0;
    while i < notifications.len()
        invariant
            0 <= i <= notifications@.len(),
            !fmt.is_json(),
            fmt is Default ==> forall|k: int|
                0 <= k < notifications@.len() ==> has_preview(#[trigger] notifications@[k]),
            all == printed_notifications(notifications@, text::texts(jsons@), fmt, gap@),
            theme::lines_view(lines@) =~= all.take(i as int),
        decreases notifications@.len() - i,
    {
        let n = &notifications[i];
        match fmt {
            OutputFormat::Ids => {
                let id = match &n.note {
                    Some(note) => note.id.as_str(),
                    None => n.id.as_str(),
                };
                theme::end(&mut lines, theme::plain_text_line(id));
            },
            OutputFormat::Compact => {
                theme::end(&mut lines, print_notification_compact(n));
            },
            _ => {
                theme::end(&mut lines, notification_with(n, gap));
            },
        }
        i += 1;
    }
    proof {
        assert(all.take(i as int) =~= all);
    }
    lines
}

/// The marks of a user that are set, each behind two spaces.
pub open spec fn user_marks(d: NormalizedUserDetail) -> Seq<(Style, Seq<char>)> {
    let none = Seq::<(Style, Seq<char>)>::empty();
    (if d.is_bot {
        seq![p("  "@), b("[Bot]"@)]
    } else {
        none
    }) + (if d.is_cat {
        seq![p("  "@), b("[Cat]"@)]
    } else {
        none
    }) + (if d.is_following {
        seq![p("  "@), (Style::Green, "[Following]"@)]
    } else {
        none
    }) + (if d.is_followed {
        seq![p("  "@), (Style::Blue, "[Followed by]"@)]
    } else {
        none
    })
}

/// The server of a user.
pub open spec fn user_host(d: NormalizedUserDetail) -> Seq<char> {
    match d.host {
        Some(h) => h@,
        None => "(local)"@,
    }
}

/// The display name of a user, or else the name.
pub open spec fn shown_name(d: NormalizedUserDetail) -> Seq<char> {
    match d.name {
        Some(n) => n@,
        None => d.username@,
    }
}

/// A user in full, with an empty line at the end.
pub open spec fn detailed_user(d: NormalizedUserDetail) -> Seq<Seq<(Style, Seq<char>)>> {
    let head = seq![
        seq![
            (Style::Bold, shown_name(d)),
            p(" ("@),
            u("@"@ + d.username@ + "@"@ + user_host(d)),
            p(")"@),
        ],
        seq![p("  "@), m("ID: "@), m(d.id@)],
    ];
    let bio = match d.description {
        Some(s) => seq![seq![p("  "@), m("Bio: "@), p(s@)]],
        None => Seq::empty(),
    };
    let counts = seq![
        seq![
            p("  Notes: "@),
            c(text::decimal(d.notes_count as int)),
            p("  Following: "@),
            c(text::decimal(d.following_count as int)),
            p("  Followers: "@),
            c(text::decimal(d.followers_count as int)),
        ],
    ];
    let marks = if d.is_bot || d.is_cat || d.is_following || d.is_followed {
        seq![user_marks(d)]
    } else {
        Seq::empty()
    };
    head + bio + counts + marks + seq![Seq::empty()]
}

fn host_of(d: &NormalizedUserDetail) -> (r: &str)
    ensures
        r@ == user_host(*d),
{
    match &d.host {
        Some(h) => h.as_str(),
        None => "(local)",
    }
}

fn name_of(d: &NormalizedUserDetail) -> (r: &str)
    ensures
        r@ == shown_name(*d),
{
    match &d.name {
        Some(n) => n.as_str(),
        None => d.username.as_str(),
    }
}

/// Shows a user in full.
pub fn print_user_detail(d: &NormalizedUserDetail) -> (r: Vec<Vec<Span>>)
    ensures
        theme::lines_view(r@) == detailed_user(*d),
{
    let ghost all = detailed_user(*d);
    let mut lines = theme::no_lines();
    let mut handle = "@".to_owned();
    handle.append(d.username.as_str());
    handle.append("@");
    handle.append(host_of(d));
    let mut first = theme::start();
    theme::put(&mut first, theme::name(name_of(d)));
    theme::put(&mut first, theme::plain(" ("));
    theme::put(&mut first, theme::user(handle.as_str()));
    theme::put(&mut first, theme::plain(")"));
    proof {
        assert(theme::spans_view(first@) =~= all[0]);
    }
    theme::end(&mut lines, first);
    let mut second = theme::start();
    theme::put(&mut second, theme::plain("  "));
    theme::put(&mut second, theme::muted("ID: "));
    theme::put(&mut second, theme::muted(d.id.as_str()));
    proof {
        assert(theme::spans_view(second@) =~= all[1]);
    }
    theme::end(&mut lines, second);
    match &d.description {
        Some(s) => {
            let mut line = theme::start();
            theme::put(&mut line, theme::plain("  "));
            theme::put(&mut line, theme::muted("Bio: "));
            theme::put(&mut line, theme::plain(s.as_str()));
            proof {
                assert(theme::spans_view(line@) =~= all[2]);
            }
            theme::end(&mut lines, line);
        },
        None => {},
    }
    let ghost upto = theme::lines_view(lines@);
    proof {
        assert(upto =~= all.take(upto.len() as int));
    }
    let mut counts = theme::start();
    theme::put(&mut counts, theme::plain("  Notes: "));
    theme::put(&mut counts, theme::count(text::decimal_of(d.notes_count).as_str()));
    theme::put(&mut counts, theme::plain("  Following: "));
    theme::put(&mut counts, theme::count(text::decimal_of(d.following_count).as_str()));
    theme::put(&mut counts, theme::plain("  Followers: "));
    theme::put(&mut counts, theme::count(text::decimal_of(d.followers_count).as_str()));
    proof {
        assert(theme::spans_view(counts@) =~= all[upto.len() as int]);
    }
    theme::end(&mut lines, counts);
    if d.is_bot || d.is_cat || d.is_following || d.is_followed {
        let marks = marks_of(d);
        theme::end(&mut lines, marks);
    }
    theme::end(&mut lines, theme::start());
    proof {
        assert(theme::lines_view(lines@) =~= all);
    }
    lines
}

fn marks_of(d: &NormalizedUserDetail) -> (r: Vec<Span>)
    ensures
        theme::spans_view(r@) == user_marks(*d),
{
    let mut line = theme::start();
    if d.is_bot {
        theme::put(&mut line, theme::plain("  "));
        theme::put(&mut line, theme::badge("[Bot]"));
    }
    if d.is_cat {
        theme::put(&mut line, theme::plain("  "));
        theme::put(&mut line, theme::badge("[Cat]"));
    }
    if d.is_following {
        theme::put(&mut line, theme::plain("  "));
        theme::put(&mut line, theme::following("[Following]"));
    }
    if d.is_followed {
        theme::put(&mut line, theme::plain("  "));
        theme::put(&mut line, theme::followed("[Followed by]"));
    }
    proof {
        assert(theme::spans_view(line@) =~= user_marks(*d));
    }
    line
}

/// A user on one line, with tabs between the parts.
pub open spec fn compact_user(d: NormalizedUserDetail) -> Seq<char> {
    d.id@ + "\t@"@ + d.username@ + "@"@ + user_host(d) + "\t"@ + text::one_line(shown_name(d))
        + "\tnotes:"@ + text::decimal(d.notes_count as int) + "\tfollowing:"@ + text::decimal(
        d.following_count as int,
    ) + "\tfollowers:"@ + text::decimal(d.followers_count as int)
}

/// Shows a user on one line.
pub fn print_user_compact(d: &NormalizedUserDetail) -> (r: String)
    ensures
        r@ == compact_user(*d),
{
    let mut s = d.id.clone();
    s.append("\t@");
    s.append(d.username.as_str());
    s.append("@");
    s.append(host_of(d));
    s.append("\t");
    s.append(oneline(name_of(d)).as_str());
    s.append("\tnotes:");
    s.append(text::decimal_of(d.notes_count).as_str());
    s.append("\tfollowing:");
    s.append(text::decimal_of(d.following_count).as_str());
    s.append("\tfollowers:");
    s.append(text::decimal_of(d.followers_count).as_str());
    s
}

/// Whether a text fits into one column of one line: it has no tab and no line
/// break.
pub open spec fn is_field(s: Seq<char>) -> bool {
    forall|i: int|
        0 <= i < s.len() ==> #[trigger] s[i] != '\t' && s[i] != '\n' && s[i] != '\r'
}

proof fn lemma_parts_fit(parts: Seq<Seq<char>>)
    requires
        forall|i: int| 0 <= i < parts.len() ==> is_field(#[trigger] parts[i]),
    ensures
        is_field(text::joined(parts, " "@)),
    decreases parts.len(),
{
    reveal_strlit(" ");
    if parts.len() > 1 {
        let head = parts.drop_last();
        assert forall|i: int| 0 <= i < head.len() implies is_field(#[trigger] head[i]) by {
            assert(head[i] == parts[i]);
        }
        lemma_parts_fit(head);
    }
}

/// The text of a note fills one column of one line, whatever line breaks and
/// tabs the note has, so long as nobody is named with such characters.
pub proof fn law_compact_text_fits_one_column(note: NormalizedNote)
    requires
        note.renote matches Some(renote) ==> is_field(user_name(renote.user)),
    ensures
        is_field(note_line(note)),
{
    reveal_strlit("[CW: ");
    reveal_strlit("]");
    reveal_strlit("[RN ");
    reveal_strlit("] ");
    reveal_strlit("(empty)");
    let parts = note_parts(note);
    if let Some(cw) = note.cw {
        text::law_one_line(cw@);
        assert(is_field(parts[0]));
    }
    if let Some(t) = note.text {
        text::law_one_line(t@);
        assert(is_field(parts.last()));
    } else if let Some(renote) = note.renote {
        text::law_one_line(or_empty(text::opt_text(renote.text)));
        assert(is_field(parts.last()));
    }
    lemma_parts_fit(parts);
}

/// In the forms for other programs each note is one line, in the order of the
/// notes: its id, its columns, or its JSON text.
pub proof fn law_one_record_per_line(
    notes: Seq<NormalizedNote>,
    jsons: Seq<Seq<char>>,
    fmt: OutputFormat,
    i: int,
)
    requires
        jsons.len() == notes.len(),
        0 <= i < notes.len(),
    ensures
        fmt is Ids || fmt is Compact || fmt is Jsonl ==> printed_notes(notes, jsons, fmt).len()
            == notes.len(),
        fmt is Ids ==> printed_notes(notes, jsons, fmt)[i] == seq![p(notes[i].id@)],
        fmt is Compact ==> printed_notes(notes, jsons, fmt)[i] == compact_note(notes[i]),
        fmt is Jsonl ==> printed_notes(notes, jsons, fmt)[i] == seq![p(jsons[i])],
    decreases notes.len(),
{
    if fmt is Ids || fmt is Compact {
        let head = notes.drop_last();
        if i < head.len() {
            law_one_record_per_line(head, jsons.drop_last(), fmt, i);
        } else if head.len() > 0 {
            law_one_record_per_line(head, jsons.drop_last(), fmt, 0);
        } else {
            assert(note_lines(head, fmt).len() == 0);
        }
    }
}

/// Colour can be forced and forbidden. Where it is left open, `NO_COLOR` forbids
/// it whatever else is set, and without it `CLICOLOR_FORCE` or a terminal is
/// enough.
pub proof fn law_colour_follows_the_wish(
    when: ColorWhen,
    no_color: bool,
    clicolor_force: bool,
    is_tty: bool,
)
    ensures
        is_coloured(ColorWhen::Always, no_color, clicolor_force, is_tty),
        !is_coloured(ColorWhen::Never, no_color, clicolor_force, is_tty),
        !is_coloured(ColorWhen::Auto, true, clicolor_force, is_tty),
        is_coloured(ColorWhen::Auto, false, true, is_tty),
        is_coloured(ColorWhen::Auto, false, false, is_tty) <==> is_tty,
{
}

/// The form of output is the one that a flag asks for, `--json` before `--ids`
/// before `--compact` before `--jsonl`; without a flag it is the one for people.
/// Of an action the JSON forms print JSON, the form for ids the id, and the others
/// words.
pub proof fn law_form_follows_the_flags(
    cli: Cli,
    fmt: OutputFormat,
    json_obj: Seq<char>,
    id: Seq<char>,
    words: Seq<char>,
)
    ensures
        OutputFormat::asked_for(cli) is Json <==> cli.json,
        OutputFormat::asked_for(cli) is Ids <==> cli.ids && !cli.json,
        OutputFormat::asked_for(cli) is Compact <==> cli.compact && !cli.ids && !cli.json,
        OutputFormat::asked_for(cli) is Jsonl <==> cli.jsonl && !cli.compact && !cli.ids && !cli.json,
        OutputFormat::asked_for(cli) is Default <==> !cli.jsonl && !cli.compact && !cli.ids
            && !cli.json,
        fmt is Json || fmt is Jsonl ==> action_text(fmt, json_obj, id, words) == json_obj,
        fmt is Ids ==> action_text(fmt, json_obj, id, words) == id,
        fmt is Compact || fmt is Default ==> action_text(fmt, json_obj, id, words) == words,
{
}

/// How many lines each part of a note in full takes.
pub open spec fn lines_of(shown: bool) -> int {
    if shown {
        1
    } else {
        0
    }
}

/// Whether a line tells of a note that is passed on.
pub open spec fn is_renote_line(line: Seq<(Style, Seq<char>)>) -> bool {
    line.len() > 1 && line[1] == (Style::Magenta, "RN"@)
}

/// A note in full begins with who wrote it, when, and its id. Then come, each on a
/// line of its own and exactly where the note has it, the warning, the text, the
/// note that is passed on, and the counts, and at the end an empty line. The note
/// that is passed on is named with its user and its text, whether or not the note
/// has a text of its own, and there is such a line in no other place.
pub proof fn law_note_in_full(note: NormalizedNote, i: int)
    ensures
        ({
            let lines = detailed_note(note);
            let reactions = total(note.reactions@);
            let has_counts = reactions > 0 || note.renote_count > 0 || note.replies_count > 0;
            let warning = 1int;
            let body = warning + lines_of(note.cw is Some);
            let renote = body + lines_of(note.text is Some);
            let counts = renote + lines_of(note.renote is Some);
            let end = counts + lines_of(has_counts);
            &&& lines.len() == end + 1
            &&& lines[end].len() == 0
            &&& lines[0] == seq![
                (Style::Cyan, user_name(note.user)),
                (Style::Plain, "  "@),
                (Style::Dimmed, note_time(note)),
                (Style::Plain, "  "@),
                (Style::Dimmed, "id:"@),
                (Style::Dimmed, note.id@),
            ]
            &&& note.cw matches Some(cw) ==> lines[warning] == seq![
                (Style::Yellow, "[CW: "@ + cw@ + "]"@),
            ]
            &&& note.text matches Some(t) ==> lines[body] == seq![(Style::Plain, t@)]
            &&& note.renote matches Some(other) ==> lines[renote] == seq![
                (Style::Plain, "  "@),
                (Style::Magenta, "RN"@),
                (Style::Plain, " "@),
                (Style::Cyan, user_name(other.user)),
                (Style::Plain, ": "@),
                (
                    Style::Dimmed,
                    match other.text {
                        Some(t) => t@,
                        None => ""@,
                    },
                ),
            ]
            &&& 0 <= i < lines.len() ==> (is_renote_line(lines[i]) <==> note.renote is Some && i
                == renote)
            &&& has_counts ==> lines[counts] == seq![
                (Style::Plain, "  reactions:"@),
                (Style::Green, text::decimal(reactions)),
                (Style::Plain, " renotes:"@),
                (Style::Green, text::decimal(note.renote_count as int)),
                (Style::Plain, " replies:"@),
                (Style::Green, text::decimal(note.replies_count as int)),
            ]
        }),
{
}

/// All reactions to a note count, however many kinds there are.
pub proof fn law_all_reactions_count(reactions: Seq<(String, i64)>, more: (String, i64))
    ensures
        total(Seq::<(String, i64)>::empty()) == 0,
        total(reactions.push(more)) == total(reactions) + more.1,
{
    assert(reactions.push(more).drop_last() =~= reactions);
}

/// A user is named with the server exactly where it is another one.
pub proof fn law_user_is_named_with_the_server(user: NormalizedUser)
    ensures
        user.host is None ==> user_name(user) == "@"@ + user.username@,
        user.host matches Some(host) ==> user_name(user) == "@"@ + user.username@ + "@"@ + host@,
{
}

/// The time of a note is shown to the minute, with a space between the date and
/// the time of day.
pub proof fn law_time_is_shown_to_the_minute(
    note: NormalizedNote,
    date: Seq<char>,
    minute: Seq<char>,
    rest: Seq<char>,
)
    requires
        note.created_at@ == date + seq!['T'] + minute + rest,
        !date.contains('T'),
        !minute.contains('T'),
        byte_len(date + seq!['T'] + minute) == 16,
    ensures
        note_time(note) == date + seq![' '] + minute,
{
    reveal_strlit(" ");
    assert(" "@ =~= seq![' ']);
    text::law_byte_prefix_is_a_prefix(date + seq!['T'] + minute, rest);
    text::law_replaced_character_by_character(date, seq!['T'], 'T', " "@);
    text::law_replaced_character_by_character(date + seq!['T'], minute, 'T', " "@);
    text::law_replaced_character_by_character(minute, Seq::empty(), 'T', " "@);
}

/// A note on one line: its id, its user, its time and its text, with tabs
/// between them.
pub proof fn law_compact_note_has_four_columns(note: NormalizedNote)
    ensures
        compact_note(note).len() == 7,
        compact_note(note)[0].1 == note.id@,
        compact_note(note)[2].1 == user_name(note.user),
        compact_note(note)[4].1 == note_time(note),
        compact_note(note)[6].1 == note_line(note),
        compact_note(note)[1].1 == "\t"@ && compact_note(note)[3].1 == "\t"@ && compact_note(
            note,
        )[5].1 == "\t"@,
{
}

/// What the text of a note is on one line: the warning where there is one, and
/// then the text; without a text the note that is passed on, with its user; and
/// where there is nothing of all that, the word for it.
pub proof fn law_compact_text_tells_what_there_is(note: NormalizedNote)
    ensures
        ({
            let body: Option<Seq<char>> = match note.text {
                Some(t) => Some(text::one_line(t@)),
                None => match note.renote {
                    Some(other) => Some(
                        "[RN "@ + user_name(other.user) + "] "@ + text::one_line(
                            match other.text {
                                Some(t) => t@,
                                None => ""@,
                            },
                        ),
                    ),
                    None => None,
                },
            };
            match (note.cw, body) {
                (None, None) => note_line(note) == "(empty)"@,
                (None, Some(b)) => note_line(note) == b,
                (Some(cw), None) => note_line(note) == "[CW: "@ + text::one_line(cw@) + "]"@,
                (Some(cw), Some(b)) => note_line(note) == "[CW: "@ + text::one_line(cw@) + "]"@ + " "@
                    + b,
            }
        }),
{
    let parts = note_parts(note);
    if parts.len() == 2 {
        assert(parts.drop_last() =~= seq![parts[0]]);
        text::law_joined_holds_its_parts(seq![parts[0]], " "@, parts[1], 0);
        assert(seq![parts[0]].push(parts[1]) =~= parts);
    }
}

/// Notes are shown one after the other, each as it would be shown alone.
pub proof fn law_notes_are_shown_one_by_one(
    notes: Seq<NormalizedNote>,
    note: NormalizedNote,
    jsons: Seq<Seq<char>>,
)
    ensures
        printed_notes(Seq::<NormalizedNote>::empty(), jsons, OutputFormat::Default).len() == 0,
        printed_notes(notes.push(note), jsons, OutputFormat::Default) == printed_notes(
            notes,
            jsons,
            OutputFormat::Default,
        ) + detailed_note(note),
        printed_notes(notes, jsons, OutputFormat::Json) == json_lines(jsons, OutputFormat::Json),
        printed_notes(notes, jsons, OutputFormat::Jsonl) == json_lines(jsons, OutputFormat::Jsonl),
{
    assert(notes.push(note).drop_last() =~= notes);
}

/// As JSON a list is one line with an array of all items in order; as lines of
/// JSON each item is a line of its own.
pub proof fn law_json_lists_every_item(items: Seq<Seq<char>>, i: int)
    ensures
        json_lines(items, OutputFormat::Json).len() == 1,
        json_lines(items, OutputFormat::Json)[0] == seq![
            (Style::Plain, "["@ + text::joined(items, ","@) + "]"@),
        ],
        json_lines(items, OutputFormat::Jsonl).len() == items.len(),
        0 <= i < items.len() ==> json_lines(items, OutputFormat::Jsonl)[i] == seq![
            (Style::Plain, items[i]),
        ],
        0 <= i < items.len() ==> text::has_substring(text::joined(items, ","@), items[i]),
{
    text::law_joined_holds_its_parts(items, ","@, Seq::empty(), i);
}

proof fn lemma_kinds_differ()
    ensures
        "reaction"@ != "follow"@,
        "reaction"@ != "reply"@,
        "reaction"@ != "renote"@,
        "reaction"@ != "mention"@,
        "reaction"@ != "quote"@,
        "follow"@ != "reply"@,
        "follow"@ != "renote"@,
        "follow"@ != "mention"@,
        "follow"@ != "quote"@,
        "reply"@ != "renote"@,
        "reply"@ != "mention"@,
        "reply"@ != "quote"@,
        "renote"@ != "mention"@,
        "renote"@ != "quote"@,
        "mention"@ != "quote"@,
{
    reveal_strlit("reaction");
    reveal_strlit("follow");
    reveal_strlit("reply");
    reveal_strlit("renote");
    reveal_strlit("mention");
    reveal_strlit("quote");
    assert("reaction"@.len() == 8);
    assert("follow"@.len() == 6);
    assert("reply"@.len() == 5);
    assert("renote"@.len() == 6);
    assert("mention"@.len() == 7);
    assert("quote"@.len() == 5);
    assert("follow"@[0] != "renote"@[0]);
    assert("reply"@[0] != "quote"@[0]);
}

/// A notification in full begins with its kind and its user. A follower is told
/// with nothing else; every other kind with the beginning of the text of its note,
/// and a reaction with the reaction before it.
pub proof fn law_notification_in_full(n: NormalizedNotification, gap: Seq<char>)
    ensures
        ({
            let line = detailed_notification(n, gap);
            let kind = n.notification_type@;
            let known = kind == "reaction"@ || kind == "follow"@ || kind == "reply"@ || kind
                == "renote"@ || kind == "mention"@ || kind == "quote"@;
            let who = match n.user {
                Some(user) => user_name(user),
                None => ""@,
            };
            &&& known ==> line[0].1 == kind
            &&& !known ==> line[0].1 == text::padded(kind, 10) && line[1].1 == gap
            &&& line[1].0 is Plain
            &&& line[2] == (Style::Cyan, who)
            &&& kind == "follow"@ ==> line.len() == 3
            &&& kind == "reaction"@ ==> line.len() == 7 && line[4] == (
                Style::Yellow,
                match n.reaction {
                    Some(r) => r@,
                    None => "?"@,
                },
            ) && line[6] == (Style::Dimmed, preview(noted_text(n)))
            &&& kind != "follow"@ && kind != "reaction"@ ==> line.len() == 5 && line[4] == (
                Style::Dimmed,
                preview(noted_text(n)),
            )
            &&& kind == "reaction"@ ==> line[1].1 == "  "@ && line[3].1 == "  "@ && line[5].1 == "  "@
            &&& kind == "follow"@ || kind == "renote"@ ==> line[1].1 == "    "@
            &&& kind == "reply"@ || kind == "quote"@ ==> line[1].1 == "     "@
            &&& kind == "mention"@ ==> line[1].1 == "   "@
        }),
        noted_text(n) == match n.note {
            Some(note) => match note.text {
                Some(t) => t@,
                None => ""@,
            },
            None => ""@,
        },
{
    lemma_kinds_differ();
}

/// What is shown of the text of a note in a notification: the whole of it up to
/// fifty bytes, and else its beginning of fifty bytes, with dots behind it.
pub proof fn law_preview_is_the_beginning(head: Seq<char>, rest: Seq<char>)
    ensures
        byte_len(head) <= 50 ==> preview(head) == "\""@ + head + "\""@,
        byte_len(head) == 50 && byte_len(head + rest) > 50 ==> preview(head + rest) == "\""@ + (head
            + "..."@) + "\""@,
{
    text::law_byte_prefix_is_a_prefix(head, rest);
}

/// A notification on one line: the id of its note, its kind, its user, its
/// reaction and the text of its note, with tabs between them. Where there is no
/// note a dash stands for the id. As ids, it is the id of the note, or else its
/// own.
pub proof fn law_compact_notification_has_five_columns(
    n: NormalizedNotification,
    gap: Seq<char>,
)
    ensures
        ({
            let line = compact_notification(n);
            &&& line.len() == 9
            &&& line[0].1 == match n.note {
                Some(note) => note.id@,
                None => "-"@,
            }
            &&& line[2].1 == n.notification_type@
            &&& line[4].1 == match n.user {
                Some(user) => user_name(user),
                None => ""@,
            }
            &&& line[6].1 == match n.reaction {
                Some(r) => r@,
                None => ""@,
            }
            &&& line[8].1 == text::one_line(noted_text(n))
            &&& line[1].1 == "\t"@ && line[3].1 == "\t"@ && line[5].1 == "\t"@ && line[7].1 == "\t"@
        }),
        notification_line(n, OutputFormat::Compact, gap) == compact_notification(n),
        notification_line(n, OutputFormat::Default, gap) == detailed_notification(n, gap),
        notification_line(n, OutputFormat::Ids, gap) == seq![
            (
                Style::Plain,
                match n.note {
                    Some(note) => note.id@,
                    None => n.id@,
                },
            ),
        ],
{
}

/// Each notification is one line, in order; in the JSON forms their JSON texts
/// are.
pub proof fn law_notifications_are_shown_one_by_one(
    list: Seq<NormalizedNotification>,
    jsons: Seq<Seq<char>>,
    fmt: OutputFormat,
    gap: Seq<char>,
    i: int,
)
    ensures
        fmt is Json || fmt is Jsonl ==> printed_notifications(list, jsons, fmt, gap) == json_lines(
            jsons,
            fmt,
        ),
        !(fmt is Json || fmt is Jsonl) ==> printed_notifications(list, jsons, fmt, gap).len()
            == list.len(),
        !(fmt is Json || fmt is Jsonl) && 0 <= i < list.len() ==> printed_notifications(
            list,
            jsons,
            fmt,
            gap,
        )[i] == notification_line(list[i], fmt, gap),
{
}

/// A user in full: the display name or else the name, with the name and the server
/// in brackets; the id; what the user says of themself, where there is something;
/// the three counts; the marks that are set, where one is; and an empty line.
pub proof fn law_user_in_full(d: NormalizedUserDetail)
    ensures
        ({
            let lines = detailed_user(d);
            let marked = d.is_bot || d.is_cat || d.is_following || d.is_followed;
            let bio = 2int;
            let counts = bio + lines_of(d.description is Some);
            let marks = counts + 1;
            let end = marks + lines_of(marked);
            let server = match d.host {
                Some(h) => h@,
                None => "(local)"@,
            };
            &&& lines.len() == end + 1
            &&& lines[end].len() == 0
            &&& lines[0] == seq![
                (
                    Style::Bold,
                    match d.name {
                        Some(n) => n@,
                        None => d.username@,
                    },
                ),
                (Style::Plain, " ("@),
                (Style::Cyan, "@"@ + d.username@ + "@"@ + server),
                (Style::Plain, ")"@),
            ]
            &&& lines[1] == seq![
                (Style::Plain, "  "@),
                (Style::Dimmed, "ID: "@),
                (Style::Dimmed, d.id@),
            ]
            &&& d.description matches Some(s) ==> lines[bio] == seq![
                (Style::Plain, "  "@),
                (Style::Dimmed, "Bio: "@),
                (Style::Plain, s@),
            ]
            &&& lines[counts] == seq![
                (Style::Plain, "  Notes: "@),
                (Style::Green, text::decimal(d.notes_count as int)),
                (Style::Plain, "  Following: "@),
                (Style::Green, text::decimal(d.following_count as int)),
                (Style::Plain, "  Followers: "@),
                (Style::Green, text::decimal(d.followers_count as int)),
            ]
            &&& marked ==> {
                let bot = 2 * lines_of(d.is_bot);
                let cat = bot + 2 * lines_of(d.is_cat);
                let following = cat + 2 * lines_of(d.is_following);
                let line = lines[marks];
                &&& line.len() == following + 2 * lines_of(d.is_followed)
                &&& d.is_bot ==> line[1] == (Style::Yellow, "[Bot]"@)
                &&& d.is_cat ==> line[bot + 1] == (Style::Yellow, "[Cat]"@)
                &&& d.is_following ==> line[cat + 1] == (Style::Green, "[Following]"@)
                &&& d.is_followed ==> line[following + 1] == (Style::Blue, "[Followed by]"@)
                &&& d.is_bot ==> line[0] == (Style::Plain, "  "@)
                &&& d.is_cat ==> line[bot] == (Style::Plain, "  "@)
                &&& d.is_following ==> line[cat] == (Style::Plain, "  "@)
                &&& d.is_followed ==> line[following] == (Style::Plain, "  "@)
            }
        }),
{
}

/// A user on one line: id, name and server, display name or else the name, and the
/// three counts, with tabs between them.
pub proof fn law_compact_user_has_six_columns(d: NormalizedUserDetail)
    ensures
        ({
            let server = match d.host {
                Some(h) => h@,
                None => "(local)"@,
            };
            let name = match d.name {
                Some(n) => n@,
                None => d.username@,
            };
            compact_user(d) == text::joined(
                seq![
                    d.id@,
                    "@"@ + d.username@ + "@"@ + server,
                    text::one_line(name),
                    "notes:"@ + text::decimal(d.notes_count as int),
                    "following:"@ + text::decimal(d.following_count as int),
                    "followers:"@ + text::decimal(d.followers_count as int),
                ],
                "\t"@,
            )
        }),
{
    reveal_strlit("\t");
    reveal_strlit("@");
    reveal_strlit("\t@");
    reveal_strlit("notes:");
    reveal_strlit("\tnotes:");
    reveal_strlit("following:");
    reveal_strlit("\tfollowing:");
    reveal_strlit("followers:");
    reveal_strlit("\tfollowers:");
    assert("\t@"@ =~= "\t"@ + "@"@);
    assert("\tnotes:"@ =~= "\t"@ + "notes:"@);
    assert("\tfollowing:"@ =~= "\t"@ + "following:"@);
    assert("\tfollowers:"@ =~= "\t"@ + "followers:"@);
    let t = "\t"@;
    let a = d.id@;
    let b = "@"@ + d.username@ + "@"@ + user_host(d);
    let e = text::one_line(shown_name(d));
    let f = "notes:"@ + text::decimal(d.notes_count as int);
    let g = "following:"@ + text::decimal(d.following_count as int);
    let h = "followers:"@ + text::decimal(d.followers_count as int);
    text::law_joined_holds_its_parts(seq![a], t, b, 0);
    assert(seq![a].push(b) =~= seq![a, b]);
    text::law_joined_holds_its_parts(seq![a, b], t, e, 0);
    assert(seq![a, b].push(e) =~= seq![a, b, e]);
    text::law_joined_holds_its_parts(seq![a, b, e], t, f, 0);
    assert(seq![a, b, e].push(f) =~= seq![a, b, e, f]);
    text::law_joined_holds_its_parts(seq![a, b, e, f], t, g, 0);
    assert(seq![a, b, e, f].push(g) =~= seq![a, b, e, f, g]);
    text::law_joined_holds_its_parts(seq![a, b, e, f, g], t, h, 0);
    assert(seq![a, b, e, f, g].push(h) =~= seq![a, b, e, f, g, h]);
    assert(text::joined(seq![a], t) == a);
    assert(compact_user(d) =~= a + t + b + t + e + t + f + t + g + t + h);
    assert(text::joined(seq![a, b, e, f, g, h], t) == a + t + b + t + e + t + f + t + g + t + h);
}

/// Behind a kind of notification that is not known stand two spaces.
pub proof fn law_unknown_kinds_keep_their_distance(n: NormalizedNotification)
    requires
        !is_known(n.notification_type@),
    ensures
        detailed_notification(n, UNKNOWN_KIND_GAP@)[1] == (Style::Plain, "  "@),
        detailed_notification(n, UNKNOWN_KIND_GAP@)[0].1.len() >= 10,
{
    text::law_padding_only_adds_spaces(n.notification_type@, 10);
}

/// In a form for programs every note can be shown. In the compact form it needs a time that can
/// be cut to the minute, and in full its reactions must besides add up to a number that fits. A
/// notification can be shown wherever its text is short or can be cut behind fifty bytes.
pub proof fn law_most_can_be_shown(
    note: NormalizedNote,
    fmt: OutputFormat,
    n: NormalizedNotification,
)
    ensures
        fmt is Json || fmt is Jsonl || fmt is Ids ==> can_show(note, fmt),
        can_show(note, OutputFormat::Compact) <==> has_time(note),
        can_show(note, OutputFormat::Default) <==> has_time(note) && -0x8000_0000_0000_0000 <= total(
            note.reactions@,
        ) <= 0x7fff_ffff_ffff_ffff,
        byte_len(noted_text(n)) <= 50 ==> has_preview(n),
        byte_len(noted_text(n)) > 50 ==> (has_preview(n) <==> text::cuts_cleanly(noted_text(n), 50)),
{
}

} // verus!
