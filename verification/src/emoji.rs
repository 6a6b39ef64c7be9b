//! How the emojis of a server are shown.
use vstd::prelude::*;

use crate::format::OutputFormat;
use crate::models::ServerEmoji;
use crate::text;
use crate::theme;
use crate::theme::{Span, Style};

verus! {

/// The category under which an emoji is shown.
pub open spec fn category(e: ServerEmoji) -> Seq<char> {
    match e.category {
        Some(c) => c@,
        None => "(uncategorized)"@,
    }
}

fn category_of(e: &ServerEmoji) -> (r: &str)
    ensures
        r@ == category(*e),
{
    match &e.category {
        Some(c) => c.as_str(),
        None => "(uncategorized)",
    }
}

/// A sorted list with an entry in its place; one that is there already stays
/// alone.
pub open spec fn sorted_in(list: Seq<Seq<char>>, entry: Seq<char>) -> Seq<Seq<char>>
    decreases list.len(),
{
    if list.len() == 0 {
        seq![entry]
    } else if list[0] == entry {
        list
    } else if text::before(entry, list[0]) {
        seq![entry] + list
    } else {
        seq![list[0]] + sorted_in(list.drop_first(), entry)
    }
}

/// The categories of some emojis, each once and in order.
pub open spec fn categories(emojis: Seq<ServerEmoji>) -> Seq<Seq<char>>
    decreases emojis.len(),
{
    if emojis.len() == 0 {
        Seq::empty()
    } else {
        sorted_in(categories(emojis.drop_last()), category(emojis.last()))
    }
}

fn sort_in(list: &mut Vec<String>, entry: &str)
    ensures
        text::texts(final(list)@) == sorted_in(text::texts(old(list)@), entry@),
{
    let ghost all = text::texts(list@);
    let mut i: usize = 0;
    proof {
        assert(all.skip(0) =~= all);
        assert(all.take(0) =~= Seq::empty());
        assert(Seq::<Seq<char>>::empty() + sorted_in(all, entry@) =~= sorted_in(all, entry@));
    }
    while i < list.len()
        invariant
            *list == *old(list),
            all == text::texts(list@),
            0 <= i <= list@.len(),
            sorted_in(all, entry@) == all.take(i as int) + sorted_in(all.skip(i as int), entry@),
        decreases list@.len() - i,
    {
        let ghost rest = all.skip(i as int);
        proof {
            assert(rest[0] == list@[i as int]@);
        }
        if text::same(list[i].as_str(), entry) {
            proof {
                assert(all.take(i as int) + rest =~= all);
            }
            return ;
        }
        if text::comes_before(entry, list[i].as_str()) {
            let owned = entry.to_owned();
            list.insert(i, owned);
            proof {
                assert(text::texts(list@) =~= all.take(i as int) + (seq![entry@] + rest));
            }
            return ;
        }
        proof {
            assert(rest.drop_first() =~= all.skip(i + 1));
            let more = sorted_in(all.skip(i + 1), entry@);
            assert(all.take(i as int) + (seq![rest[0]] + more) =~= all.take(i + 1) + more);
        }
        i += 1;
    }
    let owned = entry.to_owned();
    list.push(owned);
    proof {
        assert(all.skip(i as int) =~= Seq::empty());
        assert(text::texts(list@) =~= all.take(i as int) + seq![entry@]);
    }
}

fn categories_of(emojis: &Vec<ServerEmoji>) -> (r: Vec<String>)
    ensures
        text::texts(r@) == categories(emojis@),
{
    let mut list: Vec<String> = Vec::new();
    proof {
        assert(text::texts(list@) =~= categories(emojis@.take(0)));
    }
    let mut i: usize = 0;
    while i < emojis.len()
        invariant
            0 <= i <= emojis@.len(),
            text::texts(list@) == categories(emojis@.take(i as int)),
        decreases emojis@.len() - i,
    {
        proof {
            assert(emojis@.take(i + 1).drop_last() =~= emojis@.take(i as int));
            assert(emojis@.take(i + 1).last() == emojis@[i as int]);
        }
        sort_in(&mut list, category_of(&emojis[i]));
        i += 1;
    }
    proof {
        assert(emojis@.take(i as int) =~= emojis@);
    }
    list
}

/// The code of an emoji.
pub open spec fn emoji_code(e: ServerEmoji) -> Seq<char> {
    ":"@ + e.name@ + ":"@
}

fn code_of(e: &ServerEmoji) -> (r: String)
    ensures
        r@ == emoji_code(*e),
{
    let mut s = ":".to_owned();
    s.append(e.name.as_str());
    s.append(":");
    s
}

/// An emoji under its category: its code, and the other names in brackets.
pub open spec fn emoji_line(e: ServerEmoji) -> Seq<(Style, Seq<char>)> {
    let aliases = if e.aliases@.len() == 0 {
        ""@
    } else {
        " ("@ + text::joined(text::texts(e.aliases@), ", "@) + ")"@
    };
    seq![
        (Style::Plain, "  "@),
        (Style::Cyan, emoji_code(e)),
        (Style::Plain, " "@),
        (Style::Dimmed, aliases),
    ]
}

/// The emojis of a category, in the order in which they were listed.
pub open spec fn emojis_under(emojis: Seq<ServerEmoji>, c: Seq<char>) -> Seq<Seq<(Style, Seq<char>)>>
    decreases emojis.len(),
{
    if emojis.len() == 0 {
        Seq::empty()
    } else {
        let rest = emojis_under(emojis.drop_last(), c);
        if category(emojis.last()) == c {
            rest.push(emoji_line(emojis.last()))
        } else {
            rest
        }
    }
}

/// The heading of a category and its emojis.
pub open spec fn group_lines(emojis: Seq<ServerEmoji>, c: Seq<char>) -> Seq<Seq<(Style, Seq<char>)>> {
    seq![seq![(Style::BoldBlue, "["@ + c + "]"@)]] + emojis_under(emojis, c)
}

/// The groups of some categories, one after the other.
pub open spec fn groups(emojis: Seq<ServerEmoji>, cats: Seq<Seq<char>>) -> Seq<
    Seq<(Style, Seq<char>)>,
>
    decreases cats.len(),
{
    if cats.len() == 0 {
        Seq::empty()
    } else {
        groups(emojis, cats.drop_last()) + group_lines(emojis, cats.last())
    }
}

/// All emojis by category, and how many there are.
pub open spec fn grouped_emojis(emojis: Seq<ServerEmoji>) -> Seq<Seq<(Style, Seq<char>)>> {
    groups(emojis, categories(emojis)) + seq![
        Seq::empty(),
        seq![(Style::Dimmed, "Total: "@ + text::decimal(emojis.len() as int) + " emojis"@)],
    ]
}

fn show_emoji(e: &ServerEmoji) -> (r: Vec<Span>)
    ensures
        theme::spans_view(r@) == emoji_line(*e),
{
    let mut aliases = String::new();
    if e.aliases.len() > 0 {
        aliases.append(" (");
        aliases.append(text::join(&e.aliases, ", ").as_str());
        aliases.append(")");
        proof {
            assert(aliases@ =~= " ("@ + text::joined(text::texts(e.aliases@), ", "@) + ")"@);
        }
    } else {
        proof {
            reveal_strlit("");
            assert(aliases@ =~= ""@);
        }
    }
    let mut line = theme::start();
    theme::put(&mut line, theme::plain("  "));
    theme::put(&mut line, theme::link(code_of(e).as_str()));
    theme::put(&mut line, theme::plain(" "));
    theme::put(&mut line, theme::muted(aliases.as_str()));
    proof {
        assert(theme::spans_view(line@) =~= emoji_line(*e));
    }
    line
}

fn show_group(emojis: &Vec<ServerEmoji>, c: &str) -> (r: Vec<Vec<Span>>)
    ensures
        theme::lines_view(r@) == group_lines(emojis@, c@),
{
    let mut title = "[".to_owned();
    title.append(c);
    title.append("]");
    let mut head = theme::start();
    theme::put(&mut head, theme::heading(title.as_str()));
    let ghost first = seq![seq![(Style::BoldBlue, "["@ + c@ + "]"@)]];
    proof {
        assert(theme::spans_view(head@) =~= first[0]);
    }
    let mut lines = theme::no_lines();
    theme::end(&mut lines, head);
    proof {
        assert(theme::lines_view(lines@) =~= first + emojis_under(emojis@.take(0), c@));
    }
    let mut i: usize = 0;
    while i < emojis.len()
        invariant
            0 <= i <= emojis@.len(),
            theme::lines_view(lines@) == first + emojis_under(emojis@.take(i as int), c@),
        decreases emojis@.len() - i,
    {
        let ghost rest = emojis_under(emojis@.take(i as int), c@);
        proof {
            assert(emojis@.take(i + 1).drop_last() =~= emojis@.take(i as int));
            assert(emojis@.take(i + 1).last() == emojis@[i as int]);
        }
        if text::same(category_of(&emojis[i]), c) {
            let line = show_emoji(&emojis[i]);
            proof {
                assert((first + rest).push(theme::spans_view(line@)) =~= first + rest.push(
                    theme::spans_view(line@),
                ));
            }
            theme::end(&mut lines, line);
        }
        i += 1;
    }
    proof {
        assert(emojis@.take(i as int) =~= emojis@);
    }
    lines
}

/// An emoji on one line: code, category and other names, with tabs between
/// them.
pub open spec fn compact_emoji(e: ServerEmoji) -> Seq<char> {
    emoji_code(e) + "\t"@ + crate::format::or_empty(text::opt_text(e.category)) + "\t"@ + text::joined(
        text::texts(e.aliases@),
        ","@,
    )
}

/// What is printed of some emojis; `jsons` are their JSON texts.
pub open spec fn printed_emojis(
    emojis: Seq<ServerEmoji>,
    jsons: Seq<Seq<char>>,
    fmt: OutputFormat,
) -> Seq<Seq<(Style, Seq<char>)>> {
    match fmt {
        OutputFormat::Json | OutputFormat::Jsonl => crate::format::json_lines(jsons, fmt),
        OutputFormat::Ids => crate::format::plain_lines(
            Seq::new(emojis.len(), |i: int| emoji_code(emojis[i])),
        ),
        OutputFormat::Compact => crate::format::plain_lines(
            Seq::new(emojis.len(), |i: int| compact_emoji(emojis[i])),
        ),
        OutputFormat::Default => grouped_emojis(emojis),
    }
}

fn show_compact(e: &ServerEmoji) -> (r: String)
    ensures
        r@ == compact_emoji(*e),
{
    let mut s = code_of(e);
    s.append("\t");
    match &e.category {
        Some(c) => s.append(c.as_str()),
        None => s.append(""),
    }
    s.append("\t");
    s.append(text::join(&e.aliases, ",").as_str());
    s
}

/// Shows some emojis; `jsons` are their JSON texts.
pub fn print_emojis(emojis: &Vec<ServerEmoji>, jsons: &Vec<String>, fmt: OutputFormat) -> (r: Vec<
    Vec<Span>,
>)
    requires
        emojis@.len() <= i64::MAX,
    ensures
        theme::lines_view(r@) == printed_emojis(emojis@, text::texts(jsons@), fmt),
{
    match fmt {
        OutputFormat::Json | OutputFormat::Jsonl => crate::format::print_json(jsons, fmt),
        OutputFormat::Default => print_grouped(emojis),
        _ => {
            let mut lines = theme::no_lines();
            let ghost all = printed_emojis(emojis@, text::texts(jsons@), fmt);
            let mut i: usize = 0;
            while i < emojis.len()
                invariant
                    0 <= i <= emojis@.len(),
                    fmt is Ids || fmt is Compact,
                    all == printed_emojis(emojis@, text::texts(jsons@), fmt),
                    theme::lines_view(lines@) =~= all.take(i as int),
                decreases emojis@.len() - i,
            {
                let s = match fmt {
                    OutputFormat::Ids => code_of(&emojis[i]),
                    _ => show_compact(&emojis[i]),
                };
                theme::end(&mut lines, theme::plain_text_line(s.as_str()));
                i += 1;
            }
            proof {
                assert(all.take(i as int) =~= all);
            }
            lines
        },
    }
}

fn print_grouped(emojis: &Vec<ServerEmoji>) -> (r: Vec<Vec<Span>>)
    requires
        emojis@.len() <= i64::MAX,
    ensures
        theme::lines_view(r@) == grouped_emojis(emojis@),
{
    let cats = categories_of(emojis);
    let ghost all = text::texts(cats@);
    let mut lines = theme::no_lines();
    proof {
        assert(theme::lines_view(lines@) =~= groups(emojis@, all.take(0)));
    }
    let mut i: usize = 0;
    while i < cats.len()
        invariant
            0 <= i <= cats@.len(),
            all == text::texts(cats@),
            theme::lines_view(lines@) == groups(emojis@, all.take(i as int)),
        decreases cats@.len() - i,
    {
        proof {
            assert(all.take(i + 1).drop_last() =~= all.take(i as int));
            assert(all.take(i + 1).last() == cats@[i as int]@);
        }
        theme::append_lines(&mut lines, show_group(emojis, cats[i].as_str()));
        i += 1;
    }
    proof {
        assert(all.take(i as int) =~= all);
    }
    let mut total = "Total: ".to_owned();
    total.append(text::decimal_of(emojis.len() as i64).as_str());
    total.append(" emojis");
    let mut last = theme::start();
    theme::put(&mut last, theme::muted(total.as_str()));
    proof {
        assert(theme::spans_view(last@) =~= seq![(Style::Dimmed, total@)]);
    }
    theme::end(&mut lines, theme::start());
    theme::end(&mut lines, last);
    proof {
        assert(theme::lines_view(lines@) =~= grouped_emojis(emojis@));
    }
    lines
}

/// Whether a list is in order, with nothing in it twice.
pub open spec fn is_sorted(list: Seq<Seq<char>>) -> bool {
    forall|i: int, j: int|
        0 <= i < j < list.len() ==> text::before(#[trigger] list[i], #[trigger] list[j])
}

proof fn lemma_sorted_in(list: Seq<Seq<char>>, entry: Seq<char>)
    requires
        is_sorted(list),
    ensures
        is_sorted(sorted_in(list, entry)),
        sorted_in(list, entry).contains(entry),
        forall|x: Seq<char>|
            sorted_in(list, entry).contains(x) <==> #[trigger] list.contains(x) || x == entry,
    decreases list.len(),
{
    let out = sorted_in(list, entry);
    if list.len() == 0 {
        assert(out[0] == entry);
        assert(out.contains(entry));
        assert forall|x: Seq<char>| out.contains(x) <==> #[trigger] list.contains(x) || x == entry by {
        }
    } else if list[0] == entry {
        assert(list.contains(entry));
    } else if text::before(entry, list[0]) {
        assert(out[0] == entry);
        assert(out.contains(entry));
        assert forall|i: int, j: int| 0 <= i < j < out.len() implies text::before(
            #[trigger] out[i],
            #[trigger] out[j],
        ) by {
            assert(out[j] == list[j - 1]);
            if i == 0 {
                if j > 1 {
                    assert(text::before(list[0], list[j - 1]));
                    text::lemma_before_is_transitive(entry, list[0], list[j - 1]);
                }
            } else {
                assert(out[i] == list[i - 1]);
            }
        }
        assert forall|x: Seq<char>| out.contains(x) <==> #[trigger] list.contains(x) || x == entry by {
            if list.contains(x) {
                let k = choose|k: int| 0 <= k < list.len() && list[k] == x;
                assert(out[k + 1] == x);
            }
            if out.contains(x) {
                let k = choose|k: int| 0 <= k < out.len() && out[k] == x;
                if k > 0 {
                    assert(list[k - 1] == x);
                }
            }
        }
    } else {
        let rest = list.drop_first();
        let more = sorted_in(rest, entry);
        assert forall|i: int, j: int| 0 <= i < j < rest.len() implies text::before(
            #[trigger] rest[i],
            #[trigger] rest[j],
        ) by {
            assert(text::before(list[i + 1], list[j + 1]));
        }
        lemma_sorted_in(rest, entry);
        text::lemma_before_is_total(entry, list[0]);
        let at = choose|q: int| 0 <= q < more.len() && more[q] == entry;
        assert(out[at + 1] == entry);
        assert(out.contains(entry));
        assert forall|i: int, j: int| 0 <= i < j < out.len() implies text::before(
            #[trigger] out[i],
            #[trigger] out[j],
        ) by {
            assert(out[j] == more[j - 1]);
            if i == 0 {
                assert(more.contains(more[j - 1]));
                if more[j - 1] != entry {
                    assert(rest.contains(more[j - 1]));
                    let k = choose|k: int| 0 <= k < rest.len() && rest[k] == more[j - 1];
                    assert(text::before(list[0], list[k + 1]));
                }
            } else {
                assert(out[i] == more[i - 1]);
            }
        }
        assert forall|x: Seq<char>| out.contains(x) <==> #[trigger] list.contains(x) || x == entry by {
            if list.contains(x) {
                let k = choose|k: int| 0 <= k < list.len() && list[k] == x;
                if k == 0 {
                    assert(out[0] == x);
                } else {
                    assert(rest[k - 1] == x);
                    assert(rest.contains(x));
                    assert(more.contains(x));
                    let q = choose|q: int| 0 <= q < more.len() && more[q] == x;
                    assert(out[q + 1] == x);
                }
            }
            if out.contains(x) {
                let k = choose|k: int| 0 <= k < out.len() && out[k] == x;
                if k == 0 {
                    assert(list[0] == x);
                } else {
                    assert(more[k - 1] == x);
                    assert(more.contains(x));
                    if x != entry {
                        assert(rest.contains(x));
                        let q = choose|q: int| 0 <= q < rest.len() && rest[q] == x;
                        assert(list[q + 1] == x);
                    }
                }
            }
        }
    }
}

/// The categories are shown in order, none twice, and they are those of the
/// emojis.
pub proof fn law_categories_are_sorted_and_complete(emojis: Seq<ServerEmoji>)
    ensures
        is_sorted(categories(emojis)),
        forall|i: int|
            0 <= i < emojis.len() ==> categories(emojis).contains(category(#[trigger] emojis[i])),
        forall|c: Seq<char>| #[trigger]
            categories(emojis).contains(c) ==> exists|i: int|
                0 <= i < emojis.len() && category(#[trigger] emojis[i]) == c,
    decreases emojis.len(),
{
    if emojis.len() > 0 {
        let head = emojis.drop_last();
        law_categories_are_sorted_and_complete(head);
        let before = categories(head);
        lemma_sorted_in(before, category(emojis.last()));
        assert forall|i: int| 0 <= i < emojis.len() implies categories(emojis).contains(
            category(#[trigger] emojis[i]),
        ) by {
            if i < emojis.len() - 1 {
                assert(head[i] == emojis[i]);
                assert(before.contains(category(emojis[i])));
            }
        }
        assert forall|c: Seq<char>| #[trigger] categories(emojis).contains(c) implies exists|i: int|
            0 <= i < emojis.len() && category(#[trigger] emojis[i]) == c by {
            if before.contains(c) {
                let i = choose|i: int| 0 <= i < head.len() && category(#[trigger] head[i]) == c;
                assert(category(emojis[i]) == c);
            } else {
                assert(category(emojis[emojis.len() - 1]) == c);
            }
        }
    }
}

/// Under its category an emoji is shown with its code, and with its other names in
/// brackets where it has some. On one line the code, the category and the other
/// names stand with tabs between them. Its code is its name between colons.
pub proof fn law_emoji_is_shown_with_its_names(e: ServerEmoji)
    ensures
        emoji_code(e) == ":"@ + e.name@ + ":"@,
        emoji_line(e).len() == 4,
        emoji_line(e)[0] == (Style::Plain, "  "@) && emoji_line(e)[2] == (Style::Plain, " "@),
        emoji_line(e)[1] == (Style::Cyan, emoji_code(e)),
        emoji_line(e)[3].0 is Dimmed,
        e.aliases@.len() == 0 ==> emoji_line(e)[3].1 == ""@,
        e.aliases@.len() > 0 ==> emoji_line(e)[3].1 == " ("@ + text::joined(
            text::texts(e.aliases@),
            ", "@,
        ) + ")"@,
        compact_emoji(e) == emoji_code(e) + "\t"@ + (match e.category {
            Some(c) => c@,
            None => ""@,
        }) + "\t"@ + text::joined(text::texts(e.aliases@), ","@),
        e.category matches Some(c) ==> category(e) == c@,
        e.category is None ==> category(e) == "(uncategorized)"@,
{
}

/// The emojis of a category stand under its heading, each once and in the order in
/// which they were listed, and no others do. The groups follow one another in the
/// order of the categories.
pub proof fn law_emojis_stand_under_their_category(
    emojis: Seq<ServerEmoji>,
    e: ServerEmoji,
    c: Seq<char>,
    cats: Seq<Seq<char>>,
)
    ensures
        group_lines(emojis, c)[0] == seq![(Style::BoldBlue, "["@ + c + "]"@)],
        group_lines(Seq::<ServerEmoji>::empty(), c).len() == 1,
        category(e) == c ==> group_lines(emojis.push(e), c) == group_lines(emojis, c).push(
            emoji_line(e),
        ),
        category(e) != c ==> group_lines(emojis.push(e), c) == group_lines(emojis, c),
        groups(emojis, cats.push(c)) == groups(emojis, cats) + group_lines(emojis, c),
        groups(emojis, Seq::<Seq<char>>::empty()).len() == 0,
{
    assert(emojis.push(e).drop_last() =~= emojis);
    assert(cats.push(c).drop_last() =~= cats);
    if category(e) == c {
        assert(group_lines(emojis.push(e), c) =~= group_lines(emojis, c).push(emoji_line(e)));
    }
}

/// For people the emojis are grouped by category, and an empty line and their
/// number end the list; for other programs each is one line, in order.
pub proof fn law_emojis_are_listed_by_form(
    emojis: Seq<ServerEmoji>,
    jsons: Seq<Seq<char>>,
    fmt: OutputFormat,
    i: int,
)
    ensures
        ({
            let lines = printed_emojis(emojis, jsons, fmt);
            &&& fmt is Json || fmt is Jsonl ==> lines == crate::format::json_lines(jsons, fmt)
            &&& fmt is Ids || fmt is Compact ==> lines.len() == emojis.len()
            &&& fmt is Ids && 0 <= i < emojis.len() ==> lines[i] == seq![
                (Style::Plain, emoji_code(emojis[i])),
            ]
            &&& fmt is Compact && 0 <= i < emojis.len() ==> lines[i] == seq![
                (Style::Plain, compact_emoji(emojis[i])),
            ]
            &&& fmt is Default ==> lines.len() == groups(emojis, categories(emojis)).len() + 2
                && lines.take(lines.len() - 2) == groups(emojis, categories(emojis)) && lines[lines.len()
                - 2].len() == 0 && lines.last() == seq![
                (
                    Style::Dimmed,
                    "Total: "@ + text::decimal(emojis.len() as int) + " emojis"@,
                ),
            ]
        }),
{
    let lines = printed_emojis(emojis, jsons, fmt);
    if fmt is Default {
        assert(lines.take(lines.len() - 2) =~= groups(emojis, categories(emojis)));
    }
}

} // verus!
