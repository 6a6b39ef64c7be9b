//! Text as a sequence of characters: the comparisons, searches and small
//! rewrites that the rest of the crate needs, each tied to a statement over
//! `Seq<char>`.
use vstd::prelude::*;

verus! {

/// `String::push` appends one character at the end.
pub assume_specification[ String::push ](s: &mut String, c: char)
    ensures
        final(s)@ == old(s)@.push(c),
;

// ---------------------------------------------------------------------------
// Characters and strings
// ---------------------------------------------------------------------------

/// The characters of `s`, in order.
pub fn chars_of(s: &str) -> (v: Vec<char>)
    ensures
        v@ == s@,
{
    let mut v: Vec<char> = Vec::new();
    for c in it: s.chars()
        invariant
            it.seq() == s@,
            v@ == s@.take(it.index()),
    {
        proof {
            assert(s@.take(it.index() + 1) =~= s@.take(it.index()).push(c));
        }
        v.push(c);
    }
    proof {
        assert(s@.take(s@.len() as int) =~= s@);
    }
    v
}

/// The string made of `v[from..to]`.
pub fn string_of(v: &Vec<char>, from: usize, to: usize) -> (s: String)
    requires
        from <= to <= v@.len(),
    ensures
        s@ == v@.subrange(from as int, to as int),
{
    let mut s = String::new();
    let mut i: usize = from;
    while i < to
        invariant
            from <= i <= to <= v@.len(),
            s@ == v@.subrange(from as int, i as int),
        decreases to - i,
    {
        proof {
            assert(v@.subrange(from as int, i + 1) =~= v@.subrange(from as int, i as int).push(v@[i as int]));
        }
        s.push(v[i]);
        i += 1;
    }
    s
}

/// Whether two strings hold the same characters.
pub fn same(a: &str, b: &str) -> (r: bool)
    ensures
        r == (a@ == b@),
{
    let x = a.as_bytes();
    let y = b.as_bytes();
    proof {
        vstd::utf8::encode_utf8_decode_utf8(a@);
        vstd::utf8::encode_utf8_decode_utf8(b@);
    }
    if x.len() != y.len() {
        return false;
    }
    let mut i: usize = 0;
    while i < x.len()
        invariant
            0 <= i <= x@.len(),
            x@.len() == y@.len(),
            x@ == vstd::utf8::encode_utf8(a@),
            y@ == vstd::utf8::encode_utf8(b@),
            forall|j: int| 0 <= j < i ==> x@[j] == y@[j],
        decreases x@.len() - i,
    {
        if x[i] != y[i] {
            return false;
        }
        i += 1;
    }
    proof {
        assert(x@ =~= y@);
    }
    true
}

/// A list of strings as a sequence of character sequences.
pub open spec fn texts(v: Seq<String>) -> Seq<Seq<char>> {
    Seq::new(v.len(), |i: int| v[i]@)
}

/// An optional string as an optional character sequence.
pub open spec fn opt_text(o: Option<String>) -> Option<Seq<char>> {
    match o {
        Some(s) => Some(s@),
        None => None,
    }
}

/// An optional borrowed string as an optional character sequence.
pub open spec fn opt_str(o: Option<&str>) -> Option<Seq<char>> {
    match o {
        Some(s) => Some(s@),
        None => None,
    }
}

// ---------------------------------------------------------------------------
// Searching
// ---------------------------------------------------------------------------

/// Whether `needle` stands in `s` at position `i`.
pub open spec fn occurs_at(s: Seq<char>, needle: Seq<char>, i: int) -> bool {
    &&& 0 <= i
    &&& i + needle.len() <= s.len()
    &&& s.subrange(i, i + needle.len()) == needle
}

/// Whether `needle` stands somewhere in `s`.
pub open spec fn has_substring(s: Seq<char>, needle: Seq<char>) -> bool {
    exists|i: int| #[trigger] occurs_at(s, needle, i)
}

fn matches_at(s: &Vec<char>, needle: &Vec<char>, at: usize) -> (r: bool)
    requires
        at + needle@.len() <= s@.len(),
    ensures
        r == occurs_at(s@, needle@, at as int),
{
    let n = s.len();
    let mut j: usize = 0;
    while j < needle.len()
        invariant
            0 <= j <= needle@.len(),
            at + needle@.len() <= s@.len(),
            n == s@.len(),
            forall|k: int| 0 <= k < j ==> s@[at + k] == needle@[k],
        decreases needle@.len() - j,
    {
        if s[at + j] != needle[j] {
            proof {
                assert(s@.subrange(at as int, at + needle@.len())[j as int] != needle@[j as int]);
            }
            return false;
        }
        j += 1;
    }
    proof {
        assert(s@.subrange(at as int, at + needle@.len()) =~= needle@);
    }
    true
}

/// Whether `s` begins with `prefix`.
pub fn starts_with(s: &str, prefix: &str) -> (r: bool)
    ensures
        r == prefix@.is_prefix_of(s@),
{
    let v = chars_of(s);
    let p = chars_of(prefix);
    if p.len() > v.len() {
        return false;
    }
    matches_at(&v, &p, 0)
}

/// Whether `s` ends with `suffix`.
pub fn ends_with(s: &str, suffix: &str) -> (r: bool)
    ensures
        r == suffix@.is_suffix_of(s@),
{
    let v = chars_of(s);
    let p = chars_of(suffix);
    if p.len() > v.len() {
        return false;
    }
    matches_at(&v, &p, v.len() - p.len())
}

/// Whether `needle` stands somewhere in `s`.
pub fn contains(s: &str, needle: &str) -> (r: bool)
    ensures
        r == has_substring(s@, needle@),
{
    let v = chars_of(s);
    let p = chars_of(needle);
    if p.len() > v.len() {
        return false;
    }
    let last: usize = v.len() - p.len();
    let mut i: usize = 0;
    while i < last
        invariant
            v@ == s@,
            p@ == needle@,
            0 <= i <= last,
            last + p@.len() == v@.len(),
            forall|k: int| 0 <= k < i ==> !occurs_at(s@, needle@, k),
        decreases last - i,
    {
        if matches_at(&v, &p, i) {
            return true;
        }
        i += 1;
    }
    matches_at(&v, &p, last)
}

/// The parts of `s` before and after the first `c`, if `c` occurs in it.
pub open spec fn split_first(s: Seq<char>, c: char) -> Option<(Seq<char>, Seq<char>)> {
    match s.index_of_first(c) {
        Some(i) => Some((s.take(i), s.skip(i + 1))),
        None => None,
    }
}

/// Splits `s` at the first `c`.
pub fn split_once(s: &str, c: char) -> (r: Option<(String, String)>)
    ensures
        match r {
            Some((a, b)) => split_first(s@, c) == Some((a@, b@)),
            None => split_first(s@, c) is None,
        },
{
    let v = chars_of(s);
    let mut i: usize = 0;
    while i < v.len()
        invariant
            v@ == s@,
            0 <= i <= v@.len(),
            forall|k: int| 0 <= k < i ==> v@[k] != c,
        decreases v@.len() - i,
    {
        if v[i] == c {
            let a = string_of(&v, 0, i);
            let b = string_of(&v, i + 1, v.len());
            proof {
                s@.index_of_first_ensures(c);
                assert(a@ =~= s@.take(i as int));
                assert(b@ =~= s@.skip(i + 1));
            }
            return Some((a, b));
        }
        i += 1;
    }
    proof {
        s@.index_of_first_ensures(c);
    }
    None
}

/// What is left of `s` without its first character, if that character is `c`.
pub open spec fn without_first(s: Seq<char>, c: char) -> Option<Seq<char>> {
    if s.len() > 0 && s[0] == c {
        Some(s.skip(1))
    } else {
        None
    }
}

/// Strips one leading `c` from `s`.
pub fn strip_first(s: &str, c: char) -> (r: Option<String>)
    ensures
        opt_text(r) == without_first(s@, c),
{
    let v = chars_of(s);
    if v.len() > 0 && v[0] == c {
        let r = string_of(&v, 1, v.len());
        proof {
            assert(r@ =~= s@.skip(1));
        }
        Some(r)
    } else {
        None
    }
}

// ---------------------------------------------------------------------------
// ASCII case
// ---------------------------------------------------------------------------

/// The ASCII lower case of `c`; every other character stays as it is.
pub open spec fn ascii_lower(c: char) -> int {
    if 'A' <= c <= 'Z' {
        c as int + 32
    } else {
        c as int
    }
}

/// Equality up to the case of ASCII letters.
pub open spec fn same_ignoring_ascii_case(a: Seq<char>, b: Seq<char>) -> bool {
    &&& a.len() == b.len()
    &&& forall|i: int| 0 <= i < a.len() ==> ascii_lower(#[trigger] a[i]) == ascii_lower(b[i])
}

fn lower_code(c: char) -> (r: u32)
    ensures
        r == ascii_lower(c),
{
    if 'A' <= c && c <= 'Z' {
        c as u32 + 32
    } else {
        c as u32
    }
}

/// Whether two strings are equal up to the case of ASCII letters.
pub fn eq_ignore_ascii_case(a: &str, b: &str) -> (r: bool)
    ensures
        r == same_ignoring_ascii_case(a@, b@),
{
    let x = chars_of(a);
    let y = chars_of(b);
    if x.len() != y.len() {
        return false;
    }
    let mut i: usize = 0;
    while i < x.len()
        invariant
            x@ == a@,
            y@ == b@,
            x@.len() == y@.len(),
            0 <= i <= x@.len(),
            forall|k: int| 0 <= k < i ==> ascii_lower(#[trigger] x@[k]) == ascii_lower(y@[k]),
        decreases x@.len() - i,
    {
        if lower_code(x[i]) != lower_code(y[i]) {
            proof {
                assert(ascii_lower(a@[i as int]) != ascii_lower(b@[i as int]));
            }
            return false;
        }
        i += 1;
    }
    true
}

// ---------------------------------------------------------------------------
// Rewriting
// ---------------------------------------------------------------------------

/// `s` with every `c` replaced by the characters `by`.
pub open spec fn replaced(s: Seq<char>, c: char, by: Seq<char>) -> Seq<char>
    decreases s.len(),
{
    if s.len() == 0 {
        Seq::empty()
    } else if s.last() == c {
        replaced(s.drop_last(), c, by) + by
    } else {
        replaced(s.drop_last(), c, by).push(s.last())
    }
}

/// Replaces every `c` in `s` by `by`.
pub fn replace_char(s: &str, c: char, by: &str) -> (r: String)
    ensures
        r@ == replaced(s@, c, by@),
{
    let v = chars_of(s);
    let mut r = String::new();
    let mut i: usize = 0;
    while i < v.len()
        invariant
            v@ == s@,
            0 <= i <= v@.len(),
            r@ == replaced(s@.take(i as int), c, by@),
        decreases v@.len() - i,
    {
        proof {
            assert(s@.take(i + 1).drop_last() =~= s@.take(i as int));
            assert(s@.take(i + 1).last() == v@[i as int]);
        }
        if v[i] == c {
            r.append(by);
        } else {
            r.push(v[i]);
        }
        i += 1;
    }
    proof {
        assert(s@.take(s@.len() as int) =~= s@);
    }
    r
}

/// `parts` one after the other, with `sep` between each two.
pub open spec fn joined(parts: Seq<Seq<char>>, sep: Seq<char>) -> Seq<char>
    decreases parts.len(),
{
    if parts.len() == 0 {
        Seq::empty()
    } else if parts.len() == 1 {
        parts[0]
    } else {
        joined(parts.drop_last(), sep) + sep + parts.last()
    }
}

/// Joins `parts` with `sep` between each two.
pub fn join(parts: &Vec<String>, sep: &str) -> (r: String)
    ensures
        r@ == joined(texts(parts@), sep@),
{
    let mut r = String::new();
    let mut i: usize = 0;
    while i < parts.len()
        invariant
            0 <= i <= parts@.len(),
            r@ == joined(texts(parts@).take(i as int), sep@),
        decreases parts@.len() - i,
    {
        proof {
            let t = texts(parts@);
            assert(t.take(i + 1).drop_last() =~= t.take(i as int));
            assert(t.take(i + 1).last() == parts@[i as int]@);
            if i == 0 {
                assert(Seq::<char>::empty() + t[0] =~= t[0]);
            }
        }
        if i > 0 {
            r.append(sep);
        }
        r.append(parts[i].as_str());
        i += 1;
    }
    proof {
        assert(texts(parts@).take(parts@.len() as int) =~= texts(parts@));
    }
    r
}

/// `s` followed by as many spaces as it takes to reach `width` characters.
pub open spec fn padded(s: Seq<char>, width: nat) -> Seq<char> {
    if s.len() >= width {
        s
    } else {
        s + Seq::new((width - s.len()) as nat, |i: int| ' ')
    }
}

/// Pads `s` on the right with spaces to `width` characters.
pub fn pad_right(s: &str, width: usize) -> (r: String)
    ensures
        r@ == padded(s@, width as nat),
{
    let n = chars_of(s).len();
    let mut r = s.to_owned();
    let mut i: usize = n;
    while i < width
        invariant
            n == s@.len(),
            n <= i,
            i <= width || i == n,
            r@ == s@ + Seq::new((i - n) as nat, |k: int| ' '),
        decreases width - i,
    {
        r.push(' ');
        i += 1;
        proof {
            assert(r@ =~= s@ + Seq::new((i - n) as nat, |k: int| ' '));
        }
    }
    proof {
        assert(r@ =~= padded(s@, width as nat));
    }
    r
}

// ---------------------------------------------------------------------------
// Decimal numbers
// ---------------------------------------------------------------------------

/// The decimal digit for `d`, which is below ten.
pub open spec fn digit(d: nat) -> char {
    (('0' as u32) + d) as char
}

/// The decimal digits of `n`, the most significant one first.
pub open spec fn digits(n: nat) -> Seq<char>
    decreases n,
{
    if n < 10 {
        seq![digit(n)]
    } else {
        digits(n / 10).push(digit(n % 10))
    }
}

/// `n` in decimal, with a minus sign where it is negative.
pub open spec fn decimal(n: int) -> Seq<char> {
    if n < 0 {
        seq!['-'] + digits((-n) as nat)
    } else {
        digits(n as nat)
    }
}

fn push_digits(s: &mut String, n: u64)
    ensures
        final(s)@ == old(s)@ + digits(n as nat),
    decreases n,
{
    if n >= 10 {
        push_digits(s, n / 10);
    }
    let d: u8 = (n % 10) as u8;
    proof {
        assert(digit((n % 10) as nat) == (48u8 + d) as char);
        if n < 10 {
            assert(old(s)@.push(digit(n as nat)) =~= old(s)@ + digits(n as nat));
        } else {
            assert((old(s)@ + digits((n / 10) as nat)).push(digit((n % 10) as nat)) =~= old(s)@ + digits(
                n as nat,
            ));
        }
    }
    s.push((48u8 + d) as char);
}

/// `n` in decimal.
pub fn decimal_of(n: i64) -> (r: String)
    ensures
        r@ == decimal(n as int),
{
    let mut r = String::new();
    if n < 0 {
        r.push('-');
        let m: u64 = if n == i64::MIN {
            9223372036854775808
        } else {
            (-n) as u64
        };
        push_digits(&mut r, m);
        proof {
            assert(r@ =~= decimal(n as int));
        }
    } else {
        push_digits(&mut r, n as u64);
        proof {
            assert(r@ =~= decimal(n as int));
        }
    }
    r
}

// ---------------------------------------------------------------------------
// Prefixes counted in bytes
// ---------------------------------------------------------------------------

/// The characters in the first `n` bytes of the UTF-8 form of `s`.
pub open spec fn byte_prefix(s: Seq<char>, n: nat) -> Seq<char> {
    vstd::utf8::decode_utf8(vstd::utf8::encode_utf8(s).subrange(0, n as int))
}

/// Whether the first `n` bytes of the UTF-8 form of `s` exist and end between
/// two characters.
pub open spec fn cuts_cleanly(s: Seq<char>, n: nat) -> bool {
    vstd::utf8::is_char_boundary(vstd::utf8::encode_utf8(s), n as int)
}

/// The first `n` bytes of `s`.
pub fn take_bytes(s: &str, n: usize) -> (r: String)
    requires
        cuts_cleanly(s@, n as nat),
    ensures
        r@ == byte_prefix(s@, n as nat),
{
    let (head, _tail) = s.split_at(n);
    proof {
        vstd::utf8::encode_utf8_decode_utf8(head@);
        assert(vstd::utf8::encode_utf8(head@) =~= vstd::utf8::encode_utf8(s@).subrange(0, n as int));
    }
    head.to_owned()
}

// ---------------------------------------------------------------------------
// White space
// ---------------------------------------------------------------------------

/// The characters with the Unicode property `White_Space`.
pub open spec fn is_space(c: char) -> bool {
    ||| '\u{9}' <= c <= '\u{d}'
    ||| c == '\u{20}'
    ||| c == '\u{85}'
    ||| c == '\u{a0}'
    ||| c == '\u{1680}'
    ||| '\u{2000}' <= c <= '\u{200a}'
    ||| c == '\u{2028}'
    ||| c == '\u{2029}'
    ||| c == '\u{202f}'
    ||| c == '\u{205f}'
    ||| c == '\u{3000}'
}

/// Whether `c` is white space.
pub fn is_whitespace(c: char) -> (r: bool)
    ensures
        r == is_space(c),
{
    ('\u{9}' <= c && c <= '\u{d}') || c == '\u{20}' || c == '\u{85}' || c == '\u{a0}' || c
        == '\u{1680}' || ('\u{2000}' <= c && c <= '\u{200a}') || c == '\u{2028}' || c == '\u{2029}'
        || c == '\u{202f}' || c == '\u{205f}' || c == '\u{3000}'
}

/// Where the run of non-space characters at the end of `s` begins.
pub open spec fn word_start(s: Seq<char>) -> nat
    decreases s.len(),
{
    if s.len() == 0 || is_space(s.last()) {
        s.len()
    } else {
        word_start(s.drop_last())
    }
}

/// The maximal runs of non-space characters of `s`, in order.
pub open spec fn words(s: Seq<char>) -> Seq<Seq<char>>
    decreases s.len(),
{
    if s.len() == 0 {
        Seq::empty()
    } else if is_space(s.last()) {
        words(s.drop_last())
    } else if word_start(s) < s.len() {
        words(s.take(word_start(s) as int)).push(s.skip(word_start(s) as int))
    } else {
        Seq::empty()
    }
}

/// `s` with its words parted by single spaces and no space around them.
pub open spec fn one_line(s: Seq<char>) -> Seq<char> {
    joined(words(s), seq![' '])
}

proof fn lemma_word_start_bound(s: Seq<char>)
    ensures
        word_start(s) <= s.len(),
        s.len() > 0 && !is_space(s.last()) ==> word_start(s) < s.len(),
        word_start(s) > 0 ==> is_space(s[word_start(s) - 1]),
        forall|i: int| word_start(s) <= i < s.len() ==> !is_space(#[trigger] s[i]),
    decreases s.len(),
{
    if s.len() > 0 && !is_space(s.last()) {
        let d = s.drop_last();
        lemma_word_start_bound(d);
        assert forall|i: int| word_start(s) <= i < s.len() implies !is_space(#[trigger] s[i]) by {
            if i < d.len() {
                assert(d[i] == s[i]);
            }
        }
    }
}

/// What a non-space character does to the words before it: it lengthens the
/// last word, or begins a new one.
proof fn lemma_word_grows(before: Seq<char>, c: char, in_word: bool)
    requires
        !is_space(c),
        in_word == (before.len() > 0 && !is_space(before.last())),
    ensures
        words(before.push(c)).len() > 0,
        in_word ==> words(before).len() > 0,
        in_word ==> one_line(before.push(c)) == one_line(before).push(c),
        !in_word && words(before).len() == 0 ==> one_line(before.push(c)) == seq![c],
        !in_word && words(before).len() > 0 ==> one_line(before.push(c)) == one_line(before).push(
            ' ',
        ).push(c),
{
    let after = before.push(c);
    let k = word_start(before);
    lemma_word_start_bound(before);
    lemma_word_start_bound(after);
    assert(after.drop_last() =~= before);
    assert(word_start(after) == k);
    assert(after.take(k as int) =~= before.take(k as int));
    assert(after.skip(k as int) =~= before.skip(k as int).push(c));
    let w = words(before.take(k as int));
    assert(words(after) == w.push(after.skip(k as int)));
    assert(words(after).drop_last() =~= w);
    if in_word {
        assert(words(before) == w.push(before.skip(k as int)));
        assert(words(before).drop_last() =~= w);
        assert(one_line(after) =~= one_line(before).push(c));
    } else {
        assert(before.take(k as int) =~= before);
        assert(after.skip(k as int) =~= seq![c]);
        if w.len() == 0 {
            assert(one_line(after) =~= seq![c]);
        } else {
            assert(one_line(after) =~= one_line(before).push(' ').push(c));
        }
    }
}

/// Parts the words of `s` by single spaces.
pub fn collapse_spaces(s: &str) -> (r: String)
    ensures
        r@ == one_line(s@),
{
    let v = chars_of(s);
    let mut r = String::new();
    let mut in_word: bool = false;
    let mut i: usize = 0;
    proof {
        assert(s@.take(0) =~= Seq::<char>::empty());
    }
    while i < v.len()
        invariant
            v@ == s@,
            0 <= i <= v@.len(),
            r@ == one_line(s@.take(i as int)),
            in_word == (i > 0 && !is_space(s@[i - 1])),
            (r@.len() == 0) == (words(s@.take(i as int)).len() == 0),
        decreases v@.len() - i,
    {
        let c = v[i];
        let ghost before = s@.take(i as int);
        let ghost after = s@.take(i + 1);
        proof {
            assert(after.drop_last() =~= before);
            assert(after.last() == c);
        }
        if is_whitespace(c) {
            in_word = false;
        } else {
            proof {
                lemma_word_grows(before, c, in_word);
                assert(before.push(c) =~= after);
            }
            if !in_word && !r.as_str().is_empty() {
                r.push(' ');
            }
            r.push(c);
            in_word = true;
        }
        i += 1;
    }
    proof {
        assert(s@.take(s@.len() as int) =~= s@);
    }
    r
}

/// What another character does to the words of a text.
proof fn lemma_words_push(x: Seq<char>, c: char)
    ensures
        is_space(c) ==> words(x.push(c)) == words(x),
        !is_space(c) && (x.len() == 0 || is_space(x.last())) ==> words(x.push(c)) == words(x).push(
            seq![c],
        ),
        !is_space(c) && x.len() > 0 && !is_space(x.last()) ==> words(x).len() > 0 && words(
            x.push(c),
        ) == words(x).drop_last().push(words(x).last().push(c)),
{
    let y = x.push(c);
    assert(y.drop_last() =~= x);
    if !is_space(c) {
        let k = word_start(x);
        lemma_word_start_bound(x);
        lemma_word_start_bound(y);
        assert(word_start(y) == k);
        assert(y.take(k as int) =~= x.take(k as int));
        assert(y.skip(k as int) =~= x.skip(k as int).push(c));
        if x.len() == 0 || is_space(x.last()) {
            assert(x.take(k as int) =~= x);
            assert(x.skip(k as int) =~= Seq::empty());
            assert(Seq::<char>::empty().push(c) =~= seq![c]);
        } else {
            let w = words(x.take(k as int));
            assert(words(x) == w.push(x.skip(k as int)));
            assert(words(x).drop_last() =~= w);
        }
    }
}

/// Whether a text is on one line: no white space but single spaces, and none
/// around it.
pub open spec fn is_one_line(s: Seq<char>) -> bool {
    &&& forall|i: int| 0 <= i < s.len() && is_space(#[trigger] s[i]) ==> s[i] == ' '
    &&& forall|i: int|
        0 <= i < s.len() && is_space(#[trigger] s[i]) ==> 0 < i && i + 1 < s.len() && !is_space(
            s[i + 1],
        )
}

/// The words of a text put on one line are the words of the text, and the line
/// has no white space but the single spaces between them. So to put it on one
/// line once more changes nothing.
pub proof fn law_one_line(s: Seq<char>)
    ensures
        is_one_line(one_line(s)),
        words(one_line(s)) == words(s),
        one_line(one_line(s)) == one_line(s),
    decreases s.len(),
{
    if s.len() == 0 {
        assert(one_line(s) =~= Seq::empty());
    } else {
        let before = s.drop_last();
        let c = s.last();
        let o = one_line(before);
        law_one_line(before);
        assert(before.push(c) =~= s);
        lemma_words_push(before, c);
        if !is_space(c) {
            let in_word = before.len() > 0 && !is_space(before.last());
            lemma_word_grows(before, c, in_word);
            lemma_words_push(o, c);
            lemma_words_push(o, ' ');
            lemma_words_push(o.push(' '), c);
            if o.len() == 0 {
                assert(words(o).len() == 0);
                assert(o.push(c) =~= seq![c]);
            } else {
                assert(!is_space(o.last()));
            }
            let now = one_line(s);
            if words(before).len() == 0 {
                assert(o =~= Seq::empty());
                assert(now =~= seq![c]);
            } else if in_word {
                assert(now == o.push(c));
            } else {
                assert(now == o.push(' ').push(c));
            }
            assert forall|i: int| 0 <= i < now.len() && is_space(#[trigger] now[i]) implies now[i]
                == ' ' && 0 < i && i + 1 < now.len() && !is_space(now[i + 1]) by {
                if i < o.len() {
                    assert(now[i] == o[i]);
                    assert(now[i + 1] == o[i + 1]);
                }
            }
        }
    }
}

/// Whether the first `n` bytes of a text can be cut off it.
pub fn can_cut(s: &str, n: usize) -> (r: bool)
    ensures
        r == cuts_cleanly(s@, n as nat),
{
    s.is_char_boundary(n)
}

/// Whether `a` comes before `b`, character by character.
pub open spec fn before(a: Seq<char>, b: Seq<char>) -> bool
    decreases a.len(),
{
    if b.len() == 0 {
        false
    } else if a.len() == 0 {
        true
    } else if a[0] != b[0] {
        (a[0] as int) < (b[0] as int)
    } else {
        before(a.drop_first(), b.drop_first())
    }
}

/// Tells whether `a` comes before `b`.
pub fn comes_before(a: &str, b: &str) -> (r: bool)
    ensures
        r == before(a@, b@),
{
    let x = chars_of(a);
    let y = chars_of(b);
    let mut i: usize = 0;
    proof {
        assert(x@.skip(0) =~= x@);
        assert(y@.skip(0) =~= y@);
    }
    while i < x.len() && i < y.len()
        invariant
            0 <= i <= x@.len(),
            i <= y@.len(),
            x@ == a@,
            y@ == b@,
            before(a@, b@) == before(x@.skip(i as int), y@.skip(i as int)),
        decreases x@.len() - i,
    {
        proof {
            assert(x@.skip(i as int).drop_first() =~= x@.skip(i + 1));
            assert(y@.skip(i as int).drop_first() =~= y@.skip(i + 1));
        }
        let c: char = x[i];
        let d: char = y[i];
        if c != d {
            return c < d;
        }
        i += 1;
    }
    i < y.len()
}

/// The order of texts is strict: no text comes before itself, and of two that
/// differ exactly one comes before the other.
pub proof fn lemma_before_is_total(a: Seq<char>, b: Seq<char>)
    ensures
        !(before(a, b) && before(b, a)),
        a == b ==> !before(a, b),
        a != b ==> before(a, b) || before(b, a),
    decreases a.len(),
{
    if a.len() > 0 && b.len() > 0 && a[0] == b[0] {
        lemma_before_is_total(a.drop_first(), b.drop_first());
        if a != b && a.drop_first() == b.drop_first() {
            assert(a =~= seq![a[0]] + a.drop_first());
            assert(b =~= seq![b[0]] + b.drop_first());
        }
    } else if a.len() == 0 && b.len() == 0 {
        assert(a =~= b);
    }
}

/// The order of texts is transitive.
pub proof fn lemma_before_is_transitive(a: Seq<char>, b: Seq<char>, c: Seq<char>)
    requires
        before(a, b),
        before(b, c),
    ensures
        before(a, c),
    decreases a.len(),
{
    if a.len() > 0 && a[0] == b[0] && b[0] == c[0] {
        lemma_before_is_transitive(a.drop_first(), b.drop_first(), c.drop_first());
    }
}

/// What joins some parts holds each of them, begins with the first, and ends
/// with the last behind the separator.
pub proof fn law_joined_holds_its_parts(parts: Seq<Seq<char>>, sep: Seq<char>, last: Seq<char>, i: int)
    ensures
        joined(Seq::<Seq<char>>::empty(), sep) == Seq::<char>::empty(),
        joined(seq![last], sep) == last,
        parts.len() > 0 ==> joined(parts.push(last), sep) == joined(parts, sep) + sep + last,
        0 <= i < parts.len() ==> has_substring(joined(parts, sep), parts[i]),
    decreases parts.len(),
{
    assert(parts.push(last).drop_last() =~= parts);
    if 0 <= i < parts.len() {
        let all = joined(parts, sep);
        if parts.len() == 1 {
            assert(all.subrange(0, all.len() as int) =~= parts[0]);
            assert(occurs_at(all, parts[0], 0));
        } else {
            let head = parts.drop_last();
            let h = joined(head, sep);
            if i == parts.len() - 1 {
                let at = (h + sep).len() as int;
                assert(all.subrange(at, at + parts[i].len()) =~= parts[i]);
                assert(occurs_at(all, parts[i], at));
            } else {
                law_joined_holds_its_parts(head, sep, last, i);
                assert(head[i] == parts[i]);
                let at = choose|at: int| #[trigger] occurs_at(h, parts[i], at);
                assert(all.subrange(at, at + parts[i].len()) =~= h.subrange(at, at + parts[i].len()));
                assert(occurs_at(all, parts[i], at));
            }
        }
    }
}

/// The number that some decimal digits stand for.
pub open spec fn number(s: Seq<char>) -> int
    decreases s.len(),
{
    if s.len() == 0 {
        0
    } else {
        10 * number(s.drop_last()) + (s.last() as int - '0' as int)
    }
}

proof fn lemma_digits(n: nat)
    ensures
        number(digits(n)) == n,
        digits(n).len() > 0,
        n > 0 ==> digits(n)[0] != '0',
        forall|i: int| 0 <= i < digits(n).len() ==> '0' <= #[trigger] digits(n)[i] <= '9',
    decreases n,
{
    let d = digits(n);
    if n < 10 {
        assert(d.drop_last() =~= Seq::empty());
        assert(number(d.drop_last()) == 0);
    } else {
        lemma_digits(n / 10);
        assert(d.drop_last() =~= digits(n / 10));
    }
}

/// A number in decimal reads back as the number: its digits have its value, the
/// first of them is no zero unless the number is zero, and a minus sign stands
/// before them exactly where it is negative.
pub proof fn law_decimal_reads_back(n: int)
    ensures
        n >= 0 ==> number(decimal(n)) == n,
        n < 0 ==> decimal(n)[0] == '-' && number(decimal(n).skip(1)) == -n,
        n > 0 ==> decimal(n)[0] != '0',
        n >= 0 ==> forall|i: int|
            0 <= i < decimal(n).len() ==> '0' <= #[trigger] decimal(n)[i] <= '9',
{
    if n < 0 {
        lemma_digits((-n) as nat);
        assert(decimal(n).skip(1) =~= digits((-n) as nat));
    } else {
        lemma_digits(n as nat);
    }
}

/// Each character is replaced by itself, and the others stay: what is replaced
/// in two texts is replaced in the two put together.
pub proof fn law_replaced_character_by_character(a: Seq<char>, b: Seq<char>, c: char, by: Seq<char>)
    ensures
        replaced(a + b, c, by) == replaced(a, c, by) + replaced(b, c, by),
        replaced(seq![c], c, by) == by,
        !a.contains(c) ==> replaced(a, c, by) == a,
    decreases a.len() + b.len(),
{
    reveal_with_fuel(replaced, 2);
    assert(seq![c].drop_last() =~= Seq::empty());
    assert(replaced(seq![c], c, by) =~= by);
    if b.len() == 0 {
        assert(a + b =~= a);
        assert(replaced(a, c, by) + replaced(b, c, by) =~= replaced(a, c, by));
    } else {
        assert((a + b).drop_last() =~= a + b.drop_last());
        assert((a + b).last() == b.last());
        law_replaced_character_by_character(a, b.drop_last(), c, by);
        if b.last() == c {
            assert(replaced(a + b, c, by) =~= replaced(a, c, by) + replaced(b, c, by));
        } else {
            assert(replaced(a + b, c, by) =~= replaced(a, c, by) + replaced(b, c, by));
        }
    }
    if !a.contains(c) {
        lemma_nothing_replaced(a, c, by);
    }
}

proof fn lemma_nothing_replaced(a: Seq<char>, c: char, by: Seq<char>)
    requires
        !a.contains(c),
    ensures
        replaced(a, c, by) == a,
    decreases a.len(),
{
    if a.len() > 0 {
        assert forall|i: int| 0 <= i < a.len() - 1 implies a.drop_last()[i] != c by {
            assert(a.contains(a[i]));
        }
        assert(a.contains(a.last()));
        lemma_nothing_replaced(a.drop_last(), c, by);
        assert(a.drop_last().push(a.last()) =~= a);
    }
}

/// A text is padded to the width with spaces behind it, and is never cut.
pub proof fn law_padding_only_adds_spaces(s: Seq<char>, width: nat)
    ensures
        s.is_prefix_of(padded(s, width)),
        padded(s, width).len() == if s.len() >= width {
            s.len()
        } else {
            width
        },
        forall|i: int| s.len() <= i < padded(s, width).len() ==> #[trigger] padded(s, width)[i] == ' ',
{
}

/// A text is split at the first such character: the part before it has none, and
/// the parts make up the text again.
pub proof fn law_split_at_the_first(s: Seq<char>, c: char)
    ensures
        match split_first(s, c) {
            Some((a, b)) => s == a + seq![c] + b && !a.contains(c),
            None => !s.contains(c),
        },
        match without_first(s, c) {
            Some(rest) => s == seq![c] + rest,
            None => s.len() == 0 || s[0] != c,
        },
{
    s.index_of_first_ensures(c);
    if let Some((a, b)) = split_first(s, c) {
        assert(s =~= a + seq![c] + b);
    }
    if let Some(rest) = without_first(s, c) {
        assert(s =~= seq![c] + rest);
    }
}

/// Case does not matter for ASCII letters, and matters for nothing else: texts
/// that are the same are, and letters outside ASCII are told apart.
pub proof fn law_ascii_case_is_ignored(a: Seq<char>, b: Seq<char>)
    ensures
        same_ignoring_ascii_case(a, a),
        same_ignoring_ascii_case(a, b) ==> same_ignoring_ascii_case(b, a),
        same_ignoring_ascii_case(seq!['A'], seq!['a']) && same_ignoring_ascii_case(
            seq!['Z'],
            seq!['z'],
        ),
        !same_ignoring_ascii_case(seq!['@'], seq!['`']) && !same_ignoring_ascii_case(
            seq!['['],
            seq!['{'],
        ),
        same_ignoring_ascii_case(a, b) && (forall|i: int|
            0 <= i < a.len() ==> !('A' <= #[trigger] a[i] <= 'Z') && !('A' <= b[i] <= 'Z')) ==> a == b,
{
    let x = seq!['@'];
    let y = seq!['['];
    assert(ascii_lower(x[0]) != ascii_lower(seq!['`'][0]));
    assert(ascii_lower(y[0]) != ascii_lower(seq!['{'][0]));
    if same_ignoring_ascii_case(a, b) {
        assert forall|i: int| 0 <= i < b.len() implies ascii_lower(#[trigger] b[i]) == ascii_lower(
            a[i],
        ) by {
            assert(ascii_lower(a[i]) == ascii_lower(b[i]));
        }
        if forall|i: int|
            0 <= i < a.len() ==> !('A' <= #[trigger] a[i] <= 'Z') && !('A' <= b[i] <= 'Z') {
            assert forall|i: int| 0 <= i < a.len() implies a[i] == b[i] by {
                assert(ascii_lower(a[i]) == ascii_lower(b[i]));
            }
            assert(a =~= b);
        }
    }
}

proof fn lemma_encode_concat(a: Seq<char>, b: Seq<char>)
    ensures
        vstd::utf8::encode_utf8(a + b) == vstd::utf8::encode_utf8(a) + vstd::utf8::encode_utf8(b),
    decreases a.len(),
{
    if a.len() == 0 {
        assert(a + b =~= b);
        assert(vstd::utf8::encode_utf8(a) =~= Seq::empty());
        assert(vstd::utf8::encode_utf8(a) + vstd::utf8::encode_utf8(b) =~= vstd::utf8::encode_utf8(b));
    } else {
        lemma_encode_concat(a.drop_first(), b);
        assert((a + b).drop_first() =~= a.drop_first() + b);
        assert((a + b)[0] == a[0]);
        assert(vstd::utf8::encode_utf8(a + b) =~= vstd::utf8::encode_utf8(a)
            + vstd::utf8::encode_utf8(b));
    }
}

/// A prefix counted in bytes is a prefix of the text: the one whose UTF-8 form
/// has that many bytes.
pub proof fn law_byte_prefix_is_a_prefix(a: Seq<char>, b: Seq<char>)
    ensures
        byte_prefix(a + b, vstd::utf8::encode_utf8(a).len()) == a,
{
    lemma_encode_concat(a, b);
    let e = vstd::utf8::encode_utf8(a);
    assert(vstd::utf8::encode_utf8(a + b).subrange(0, e.len() as int) =~= e);
    vstd::utf8::encode_utf8_decode_utf8(a);
}

/// What white space is: the space, the tab, the line breaks, and the spaces of Unicode. Letters,
/// digits and punctuation are none.
pub proof fn law_white_space_is_known(c: char)
    ensures
        is_space(' ') && is_space('\t') && is_space('\n') && is_space('\r'),
        is_space('\u{b}') && is_space('\u{c}') && is_space('\u{85}') && is_space('\u{a0}'),
        is_space('\u{1680}') && is_space('\u{2000}') && is_space('\u{200a}') && is_space('\u{2028}'),
        is_space('\u{2029}') && is_space('\u{202f}') && is_space('\u{205f}') && is_space('\u{3000}'),
        '!' <= c <= '~' ==> !is_space(c),
        !is_space('\u{200b}') && !is_space('\u{feff}') && !is_space('\u{180e}'),
        c >= '\u{3001}' ==> !is_space(c),
{
}

/// The words of a text, character by character: white space ends a word, and another character
/// begins one or goes on with it. On one line the words stand with one space between them.
pub proof fn law_words_are_what_white_space_parts(x: Seq<char>, c: char)
    ensures
        words(Seq::<char>::empty()).len() == 0,
        is_space(c) ==> words(x.push(c)) == words(x),
        !is_space(c) && (x.len() == 0 || is_space(x.last())) ==> words(x.push(c)) == words(x).push(
            seq![c],
        ),
        !is_space(c) && x.len() > 0 && !is_space(x.last()) ==> words(x).len() > 0 && words(
            x.push(c),
        ) == words(x).drop_last().push(words(x).last().push(c)),
        one_line(x) == joined(words(x), seq![' ']),
{
    lemma_words_push(x, c);
}

/// Texts are ordered by the first character in which they differ, and a text comes before every
/// longer one that begins with it.
pub proof fn law_texts_are_in_dictionary_order(head: Seq<char>, a: Seq<char>, b: Seq<char>)
    ensures
        b.len() > 0 ==> before(head, head + b),
        !before(head + b, head),
        a.len() > 0 && b.len() > 0 && (a[0] as int) < (b[0] as int) ==> before(head + a, head + b)
            && !before(head + b, head + a),
    decreases head.len(),
{
    if head.len() == 0 {
        assert(head + a =~= a);
        assert(head + b =~= b);
    } else {
        law_texts_are_in_dictionary_order(head.drop_first(), a, b);
        assert((head + a).drop_first() =~= head.drop_first() + a);
        assert((head + b).drop_first() =~= head.drop_first() + b);
    }
}

} // verus!
