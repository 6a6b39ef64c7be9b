//! Text with colours: which meaning is shown in which colour, and how a
//! terminal is told.
use vstd::prelude::*;

use colored::Colorize;

use crate::text;

verus! {

/// How a piece of text is shown.
#[derive(Debug, Clone, Copy, PartialEq, Eq, Structural)]
pub enum Style {
    Plain,
    Cyan,
    Green,
    Yellow,
    Blue,
    Magenta,
    White,
    Dimmed,
    Bold,
    BoldBlue,
}

/// A piece of text in a style.
#[derive(Debug, PartialEq)]
pub struct Span {
    pub style: Style,
    pub text: String,
}

impl Span {
    pub open spec fn view(&self) -> (Style, Seq<char>) {
        (self.style, self.text@)
    }
}

/// The pieces of a line.
pub open spec fn spans_view(v: Seq<Span>) -> Seq<(Style, Seq<char>)> {
    Seq::new(v.len(), |i: int| v[i]@)
}

/// Some lines.
pub open spec fn lines_view(v: Seq<Vec<Span>>) -> Seq<Seq<(Style, Seq<char>)>> {
    Seq::new(v.len(), |i: int| spans_view(v[i]@))
}

/// A piece of text in a style.
pub fn styled(style: Style, text: &str) -> (r: Span)
    ensures
        r@ == (style, text@),
{
    Span { style, text: text.to_owned() }
}

/// Text without colour.
pub fn plain(text: &str) -> (r: Span)
    ensures
        r@ == (Style::Plain, text@),
{
    styled(Style::Plain, text)
}

/// The name of a user.
pub fn user(text: &str) -> (r: Span)
    ensures
        r@ == (Style::Cyan, text@),
{
    styled(Style::Cyan, text)
}

/// An id, a time, or other text in the background.
pub fn muted(text: &str) -> (r: Span)
    ensures
        r@ == (Style::Dimmed, text@),
{
    styled(Style::Dimmed, text)
}

/// A count.
pub fn count(text: &str) -> (r: Span)
    ensures
        r@ == (Style::Green, text@),
{
    styled(Style::Green, text)
}

/// A warning, a mark or a reaction.
pub fn badge(text: &str) -> (r: Span)
    ensures
        r@ == (Style::Yellow, text@),
{
    styled(Style::Yellow, text)
}

/// A display name.
pub fn name(text: &str) -> (r: Span)
    ensures
        r@ == (Style::Bold, text@),
{
    styled(Style::Bold, text)
}

/// A heading.
pub fn heading(text: &str) -> (r: Span)
    ensures
        r@ == (Style::BoldBlue, text@),
{
    styled(Style::BoldBlue, text)
}

/// The news that something succeeded.
pub fn success(text: &str) -> (r: Span)
    ensures
        r@ == (Style::Green, text@),
{
    styled(Style::Green, text)
}

/// Something to refer to.
pub fn link(text: &str) -> (r: Span)
    ensures
        r@ == (Style::Cyan, text@),
{
    styled(Style::Cyan, text)
}

/// The mark of a user who is followed.
pub fn following(text: &str) -> (r: Span)
    ensures
        r@ == (Style::Green, text@),
{
    styled(Style::Green, text)
}

/// The mark of a user who follows.
pub fn followed(text: &str) -> (r: Span)
    ensures
        r@ == (Style::Blue, text@),
{
    styled(Style::Blue, text)
}

/// The mark of a note that another one passes on.
pub fn renote(text: &str) -> (r: Span)
    ensures
        r@ == (Style::Magenta, text@),
{
    styled(Style::Magenta, text)
}

/// The colour of a kind of notification.
pub open spec fn kind_style(kind: Seq<char>) -> Style {
    if kind == "follow"@ {
        Style::Green
    } else if kind == "reply"@ {
        Style::Cyan
    } else if kind == "renote"@ {
        Style::Magenta
    } else if kind == "mention"@ {
        Style::Blue
    } else if kind == "quote"@ {
        Style::White
    } else {
        Style::Yellow
    }
}

/// The kind of a notification.
pub fn notif_kind(kind: &str) -> (r: Span)
    ensures
        r@ == (kind_style(kind@), kind@),
{
    let style = if text::same(kind, "follow") {
        Style::Green
    } else if text::same(kind, "reply") {
        Style::Cyan
    } else if text::same(kind, "renote") {
        Style::Magenta
    } else if text::same(kind, "mention") {
        Style::Blue
    } else if text::same(kind, "quote") {
        Style::White
    } else {
        Style::Yellow
    };
    styled(style, kind)
}

/// What ends a style on a terminal.
pub open spec fn reset() -> Seq<char> {
    seq!['\x1b', '[', '0', 'm']
}

/// What starts the style with a code.
pub open spec fn opening(code: Seq<char>) -> Seq<char> {
    seq!['\x1b', '['] + code + seq!['m']
}

/// A text in which `start` follows each code that ends a style.
pub open spec fn resumed(text: Seq<char>, start: Seq<char>) -> Seq<char>
    decreases text.len(),
{
    if text.len() == 0 {
        text
    } else if reset().is_prefix_of(text) {
        reset() + start + resumed(text.skip(reset().len() as int), start)
    } else {
        seq![text[0]] + resumed(text.skip(1), start)
    }
}

/// Text between what starts a style and what ends it. Where the text itself
/// holds a code that ends it, the style is started again.
pub open spec fn coded(text: Seq<char>, code: Seq<char>) -> Seq<char> {
    opening(code) + resumed(text, opening(code)) + reset()
}

/// Whether `out` is what a terminal is sent to show a text in the style with
/// that code: the text alone, where colours are off, or else the text between
/// codes.
pub open spec fn shows(out: Seq<char>, text: Seq<char>, code: Seq<char>) -> bool {
    ||| out == text
    ||| out == coded(text, code)
}

/// `colored::Colorize::cyan`, written out. Whether colours are on is a setting
/// of the process, so both forms are possible.
#[verifier::external_body]
fn cyan(s: &str) -> (r: String)
    ensures
        shows(r@, s@, seq!['3', '6']),
{
    s.cyan().to_string()
}

/// `colored::Colorize::green`, written out. Whether colours are on is a setting
/// of the process, so both forms are possible.
#[verifier::external_body]
fn green(s: &str) -> (r: String)
    ensures
        shows(r@, s@, seq!['3', '2']),
{
    s.green().to_string()
}

/// `colored::Colorize::yellow`, written out. Whether colours are on is a
/// setting of the process, so both forms are possible.
#[verifier::external_body]
fn yellow(s: &str) -> (r: String)
    ensures
        shows(r@, s@, seq!['3', '3']),
{
    s.yellow().to_string()
}

/// `colored::Colorize::blue`, written out. Whether colours are on is a setting
/// of the process, so both forms are possible.
#[verifier::external_body]
fn blue(s: &str) -> (r: String)
    ensures
        shows(r@, s@, seq!['3', '4']),
{
    s.blue().to_string()
}

/// `colored::Colorize::magenta`, written out. Whether colours are on is a
/// setting of the process, so both forms are possible.
#[verifier::external_body]
fn magenta(s: &str) -> (r: String)
    ensures
        shows(r@, s@, seq!['3', '5']),
{
    s.magenta().to_string()
}

/// `colored::Colorize::white`, written out. Whether colours are on is a setting
/// of the process, so both forms are possible.
#[verifier::external_body]
fn white(s: &str) -> (r: String)
    ensures
        shows(r@, s@, seq!['3', '7']),
{
    s.white().to_string()
}

/// `colored::Colorize::dimmed`, written out. Whether colours are on is a setting
/// of the process, so both forms are possible.
#[verifier::external_body]
fn dimmed(s: &str) -> (r: String)
    ensures
        shows(r@, s@, seq!['2']),
{
    s.dimmed().to_string()
}

/// `colored::Colorize::bold`, written out. Whether colours are on is a setting
/// of the process, so both forms are possible.
#[verifier::external_body]
fn bold(s: &str) -> (r: String)
    ensures
        shows(r@, s@, seq!['1']),
{
    s.bold().to_string()
}

/// `colored::Colorize::bold` and then `blue`, written out. Whether colours are
/// on is a setting of the process, so both forms are possible.
#[verifier::external_body]
fn bold_blue(s: &str) -> (r: String)
    ensures
        shows(r@, s@, seq!['1', ';', '3', '4']),
{
    s.bold().blue().to_string()
}

/// The code of a style.
pub open spec fn code_of(style: Style) -> Seq<char> {
    match style {
        Style::Plain => Seq::empty(),
        Style::Cyan => seq!['3', '6'],
        Style::Green => seq!['3', '2'],
        Style::Yellow => seq!['3', '3'],
        Style::Blue => seq!['3', '4'],
        Style::Magenta => seq!['3', '5'],
        Style::White => seq!['3', '7'],
        Style::Dimmed => seq!['2'],
        Style::Bold => seq!['1'],
        Style::BoldBlue => seq!['1', ';', '3', '4'],
    }
}

/// Whether `out` is what a terminal is sent for a piece of text.
pub open spec fn paints(out: Seq<char>, span: (Style, Seq<char>)) -> bool {
    if span.0 is Plain {
        out == span.1
    } else {
        shows(out, span.1, code_of(span.0))
    }
}

/// What a terminal is sent for a piece of text.
pub fn paint(span: &Span) -> (r: String)
    ensures
        paints(r@, span@),
{
    let s = span.text.as_str();
    match span.style {
        Style::Plain => s.to_owned(),
        Style::Cyan => cyan(s),
        Style::Green => green(s),
        Style::Yellow => yellow(s),
        Style::Blue => blue(s),
        Style::Magenta => magenta(s),
        Style::White => white(s),
        Style::Dimmed => dimmed(s),
        Style::Bold => bold(s),
        Style::BoldBlue => bold_blue(s),
    }
}

/// Whether `out` is what a terminal is sent for a line: what it is sent for its
/// pieces, one after the other.
pub open spec fn paints_line(out: Seq<char>, line: Seq<(Style, Seq<char>)>) -> bool
    decreases line.len(),
{
    if line.len() == 0 {
        out.len() == 0
    } else {
        exists|k: int|
            0 <= k <= out.len() && paints_line(out.take(k), line.drop_last()) && paints(
                #[trigger] out.skip(k),
                line.last(),
            )
    }
}

/// What a terminal is sent for a line.
pub fn paint_line(line: &Vec<Span>) -> (r: String)
    ensures
        paints_line(r@, spans_view(line@)),
{
    let mut out = String::new();
    let ghost all = spans_view(line@);
    let mut i: usize = 0;
    while i < line.len()
        invariant
            0 <= i <= line@.len(),
            all == spans_view(line@),
            paints_line(out@, all.take(i as int)),
        decreases line@.len() - i,
    {
        let piece = paint(&line[i]);
        let ghost before = out@;
        out.append(piece.as_str());
        proof {
            assert(all.take(i + 1).drop_last() =~= all.take(i as int));
            assert(all.take(i + 1).last() == line@[i as int]@);
            assert(out@.take(before.len() as int) =~= before);
            assert(out@.skip(before.len() as int) =~= piece@);
        }
        i += 1;
    }
    proof {
        assert(all.take(i as int) =~= all);
    }
    out
}

/// The text of a line.
pub open spec fn plain_text(line: Seq<(Style, Seq<char>)>) -> Seq<char>
    decreases line.len(),
{
    if line.len() == 0 {
        Seq::empty()
    } else {
        plain_text(line.drop_last()) + line.last().1
    }
}

/// The text of a line, without its styles.
pub fn plain_line(line: &Vec<Span>) -> (r: String)
    ensures
        r@ == plain_text(spans_view(line@)),
{
    let mut out = String::new();
    let ghost all = spans_view(line@);
    let mut i: usize = 0;
    while i < line.len()
        invariant
            0 <= i <= line@.len(),
            all == spans_view(line@),
            out@ == plain_text(all.take(i as int)),
        decreases line@.len() - i,
    {
        out.append(line[i].text.as_str());
        proof {
            assert(all.take(i + 1).drop_last() =~= all.take(i as int));
            assert(all.take(i + 1).last() == line@[i as int]@);
        }
        i += 1;
    }
    proof {
        assert(all.take(i as int) =~= all);
    }
    out
}

/// Adds a piece to a line.
pub fn put(line: &mut Vec<Span>, span: Span)
    ensures
        spans_view(final(line)@) == spans_view(old(line)@).push(span@),
{
    line.push(span);
    proof {
        assert(spans_view(line@) =~= spans_view(old(line)@).push(span@));
    }
}

/// Starts a line.
pub fn start() -> (r: Vec<Span>)
    ensures
        spans_view(r@) == Seq::<(Style, Seq<char>)>::empty(),
{
    let line: Vec<Span> = Vec::new();
    proof {
        assert(spans_view(line@) =~= Seq::empty());
    }
    line
}

/// A line of plain text.
pub fn plain_text_line(text: &str) -> (r: Vec<Span>)
    ensures
        spans_view(r@) == seq![(Style::Plain, text@)],
{
    let mut line = start();
    put(&mut line, plain(text));
    proof {
        assert(spans_view(line@) =~= seq![(Style::Plain, text@)]);
    }
    line
}

/// Adds a line to others.
pub fn end(lines: &mut Vec<Vec<Span>>, line: Vec<Span>)
    ensures
        lines_view(final(lines)@) == lines_view(old(lines)@).push(spans_view(line@)),
{
    lines.push(line);
    proof {
        assert(lines_view(lines@) =~= lines_view(old(lines)@).push(spans_view(line@)));
    }
}

/// No lines.
pub fn no_lines() -> (r: Vec<Vec<Span>>)
    ensures
        lines_view(r@) == Seq::<Seq<(Style, Seq<char>)>>::empty(),
{
    let lines: Vec<Vec<Span>> = Vec::new();
    proof {
        assert(lines_view(lines@) =~= Seq::empty());
    }
    lines
}

/// Adds some lines to others.
pub fn append_lines(lines: &mut Vec<Vec<Span>>, more: Vec<Vec<Span>>)
    ensures
        lines_view(final(lines)@) == lines_view(old(lines)@) + lines_view(more@),
{
    let mut rest = more;
    lines.append(&mut rest);
    proof {
        assert(lines_view(lines@) =~= lines_view(old(lines)@) + lines_view(more@));
    }
}

proof fn lemma_notification_kinds_differ()
    ensures
        "follow"@ != "reply"@,
        "follow"@ != "renote"@,
        "follow"@ != "mention"@,
        "follow"@ != "quote"@,
        "reply"@ != "renote"@,
        "reply"@ != "mention"@,
        "reply"@ != "quote"@,
        "renote"@ != "mention"@,
        "renote"@ != "quote"@,
        "mention"@ != "quote"@,
{
    reveal_strlit("follow");
    reveal_strlit("reply");
    reveal_strlit("renote");
    reveal_strlit("mention");
    reveal_strlit("quote");
    assert("follow"@.len() == 6);
    assert("reply"@.len() == 5);
    assert("renote"@.len() == 6);
    assert("mention"@.len() == 7);
    assert("quote"@.len() == 5);
    assert("follow"@[0] != "renote"@[0]);
    assert("reply"@[0] != "quote"@[0]);
}

/// Each kind of notification has its colour; those without one of their own are
/// yellow.
pub proof fn law_kinds_have_their_colours(kind: Seq<char>)
    ensures
        kind == "follow"@ ==> kind_style(kind) is Green,
        kind == "reply"@ ==> kind_style(kind) is Cyan,
        kind == "renote"@ ==> kind_style(kind) is Magenta,
        kind == "mention"@ ==> kind_style(kind) is Blue,
        kind == "quote"@ ==> kind_style(kind) is White,
        kind != "follow"@ && kind != "reply"@ && kind != "renote"@ && kind != "mention"@ && kind
            != "quote"@ ==> kind_style(kind) is Yellow,
{
    lemma_notification_kinds_differ();
}

/// The text of a line is that of its pieces, and colour adds codes alone: where
/// colours are off a piece is sent as its text, and where they are on its text,
/// so long as it holds no code itself, stands between the code of its style and
/// the code that ends it. Plain text is never given codes.
pub proof fn law_colour_adds_codes_alone(
    line: Seq<(Style, Seq<char>)>,
    span: (Style, Seq<char>),
    out: Seq<char>,
)
    requires
        paints(out, span),
        !text::has_substring(span.1, seq!['\x1b', '[', '0', 'm']),
    ensures
        plain_text(Seq::<(Style, Seq<char>)>::empty()).len() == 0,
        plain_text(line.push(span)) == plain_text(line) + span.1,
        span.0 is Plain ==> out == span.1,
        out == span.1 || out == seq!['\x1b', '['] + code_of(span.0) + seq!['m'] + span.1 + seq![
            '\x1b',
            '[',
            '0',
            'm',
        ],
{
    assert(line.push(span).drop_last() =~= line);
    lemma_nothing_resumed(span.1, opening(code_of(span.0)));
}

proof fn lemma_nothing_resumed(text: Seq<char>, start: Seq<char>)
    requires
        !text::has_substring(text, reset()),
    ensures
        resumed(text, start) == text,
    decreases text.len(),
{
    if text.len() > 0 {
        if reset().is_prefix_of(text) {
            assert(text.subrange(0, 4) =~= reset());
            assert(text::occurs_at(text, reset(), 0));
        } else {
            let rest = text.skip(1);
            if text::has_substring(rest, reset()) {
                let at = choose|at: int| #[trigger] text::occurs_at(rest, reset(), at);
                assert(text.subrange(at + 1, at + 5) =~= rest.subrange(at, at + 4));
                assert(text::occurs_at(text, reset(), at + 1));
            }
            lemma_nothing_resumed(rest, start);
            assert(seq![text[0]] + rest =~= text);
        }
    }
}

/// The styles have the codes of the terminal.
pub proof fn law_styles_have_their_codes()
    ensures
        code_of(Style::Bold) == seq!['1'],
        code_of(Style::Dimmed) == seq!['2'],
        code_of(Style::Green) == seq!['3', '2'],
        code_of(Style::Yellow) == seq!['3', '3'],
        code_of(Style::Blue) == seq!['3', '4'],
        code_of(Style::Magenta) == seq!['3', '5'],
        code_of(Style::Cyan) == seq!['3', '6'],
        code_of(Style::White) == seq!['3', '7'],
        code_of(Style::BoldBlue) == code_of(Style::Bold) + seq![';'] + code_of(Style::Blue),
{
    assert(code_of(Style::BoldBlue) =~= seq!['1'] + seq![';'] + seq!['3', '4']);
}

/// A line is sent piece by piece: nothing for an empty line, and for one more piece what is sent
/// for it behind what is sent for the others. A line of plain pieces is sent as its text.
pub proof fn law_line_is_painted_piece_by_piece(
    line: Seq<(Style, Seq<char>)>,
    out: Seq<char>,
    span: (Style, Seq<char>),
    more: Seq<char>,
)
    requires
        paints_line(out, line),
        paints(more, span),
    ensures
        line.len() == 0 ==> out.len() == 0,
        paints_line(out + more, line.push(span)),
        (forall|i: int| 0 <= i < line.len() ==> (#[trigger] line[i]).0 is Plain) ==> out
            == plain_text(line),
    decreases line.len(),
{
    assert(line.push(span).drop_last() =~= line);
    assert((out + more).take(out.len() as int) =~= out);
    assert((out + more).skip(out.len() as int) =~= more);
    if line.len() > 0 {
        let k = choose|k: int|
            0 <= k <= out.len() && paints_line(out.take(k), line.drop_last()) && paints(
                #[trigger] out.skip(k),
                line.last(),
            );
        law_line_is_painted_piece_by_piece(line.drop_last(), out.take(k), span, more);
        if forall|i: int| 0 <= i < line.len() ==> (#[trigger] line[i]).0 is Plain {
            assert forall|i: int| 0 <= i < line.drop_last().len() implies (
            #[trigger] line.drop_last()[i]).0 is Plain by {
                assert(line.drop_last()[i] == line[i]);
            }
            assert(line[line.len() - 1].0 is Plain);
            assert(out =~= out.take(k) + out.skip(k));
        }
    }
}

} // verus!
