//! Text primitives: searching, trimming, splitting and number rendering, stated
//! over the sequence of characters that a string holds.

use vstd::prelude::*;
use vstd::string::*;
use vstd::utf8::is_ascii_chars;

verus! {

/// The characters of `parts`, one string each.
pub open spec fn views(parts: Seq<String>) -> Seq<Seq<char>> {
    parts.map_values(|part: String| part@)
}

/// What an optional string holds.
pub open spec fn opt_view(text: Option<String>) -> Option<Seq<char>> {
    match text {
        Some(inner) => Some(inner@),
        None => None,
    }
}

/// `needle` stands in `hay` at position `at`.
pub open spec fn occurs_at(hay: Seq<char>, needle: Seq<char>, at: int) -> bool {
    &&& 0 <= at
    &&& at + needle.len() <= hay.len()
    &&& hay.subrange(at, at + needle.len()) == needle
}

/// `needle` stands somewhere in `hay`.
pub open spec fn contains_text(hay: Seq<char>, needle: Seq<char>) -> bool {
    exists|at: int| #[trigger] occurs_at(hay, needle, at)
}

/// The characters of `text`, as a vector.
pub fn chars_of(text: &str) -> (chars: Vec<char>)
    ensures
        chars@ == text@,
{
    let mut chars: Vec<char> = Vec::new();
    for c in it: text.chars()
        invariant
            chars@ == text@.take(it.index()),
            it.seq() == text@,
    {
        chars.push(c);
    }
    chars
}

/// Whether the two texts hold the same characters.
pub fn same_text(a: &str, b: &str) -> (same: bool)
    ensures
        same == (a@ == b@),
{
    let left = chars_of(a);
    let right = chars_of(b);
    if left.len() != right.len() {
        return false;
    }
    let mut i: usize = 0;
    while i < left.len()
        invariant
            left@ == a@,
            right@ == b@,
            left@.len() == right@.len(),
            i <= left@.len(),
            forall|j: int| 0 <= j < i ==> left@[j] == right@[j],
        decreases left@.len() - i,
    {
        if left[i] != right[i] {
            return false;
        }
        i += 1;
    }
    assert(a@ =~= b@);
    true
}

/// Whether `needle` stands in `hay` at position `at`.
fn matches_at(hay: &Vec<char>, needle: &Vec<char>, at: usize) -> (found: bool)
    requires
        at + needle@.len() <= hay@.len(),
    ensures
        found == occurs_at(hay@, needle@, at as int),
{
    let hay_len: usize = hay.len();
    let mut i: usize = 0;
    while i < needle.len()
        invariant
            at + needle@.len() <= hay@.len(),
            hay_len == hay@.len(),
            i <= needle@.len(),
            forall|j: int| 0 <= j < i ==> hay@[at + j] == needle@[j],
        decreases needle@.len() - i,
    {
        if hay[at + i] != needle[i] {
            assert(hay@.subrange(at as int, at + needle@.len())[i as int] != needle@[i as int]);
            return false;
        }
        i += 1;
    }
    assert(hay@.subrange(at as int, at + needle@.len()) =~= needle@);
    true
}

/// Whether `needle` stands somewhere in `hay`.
pub fn contains(hay: &str, needle: &str) -> (found: bool)
    ensures
        found == contains_text(hay@, needle@),
{
    let text = chars_of(hay);
    let pattern = chars_of(needle);
    if pattern.len() > text.len() {
        return false;
    }
    let last: usize = text.len() - pattern.len();
    let mut at: usize = 0;
    while !matches_at(&text, &pattern, at)
        invariant
            text@ == hay@,
            pattern@ == needle@,
            pattern@.len() <= text@.len(),
            last == text@.len() - pattern@.len(),
            at <= last,
            forall|j: int| 0 <= j < at ==> !occurs_at(hay@, needle@, j),
        decreases last - at,
    {
        if at == last {
            return false;
        }
        at += 1;
    }
    true
}

/// The characters with the Unicode property White_Space.
pub open spec fn white_space(c: char) -> bool {
    ||| '\u{9}' <= c <= '\u{d}'
    ||| c == ' '
    ||| c == '\u{85}'
    ||| c == '\u{a0}'
    ||| c == '\u{1680}'
    ||| '\u{2000}' <= c <= '\u{200a}'
    ||| c == '\u{2028}'
    ||| c == '\u{2029}'
    ||| c == '\u{202f}'
    ||| c == '\u{205f}'
    ||| c == '\u{3000}'
}

/// Whether a character has the Unicode property White_Space.
pub fn is_white_space(c: char) -> (blank: bool)
    ensures
        blank == white_space(c),
{
    ('\u{9}' <= c && c <= '\u{d}') || c == ' ' || c == '\u{85}' || c == '\u{a0}' || c == '\u{1680}'
        || ('\u{2000}' <= c && c <= '\u{200a}') || c == '\u{2028}' || c == '\u{2029}' || c
        == '\u{202f}' || c == '\u{205f}' || c == '\u{3000}'
}

/// `text` without the white space at its start.
pub open spec fn trimmed_start(text: Seq<char>) -> Seq<char>
    decreases text.len(),
{
    if text.len() > 0 && white_space(text.first()) {
        trimmed_start(text.drop_first())
    } else {
        text
    }
}

/// `text` without the white space at its end.
pub open spec fn trimmed_end(text: Seq<char>) -> Seq<char>
    decreases text.len(),
{
    if text.len() > 0 && white_space(text.last()) {
        trimmed_end(text.drop_last())
    } else {
        text
    }
}

/// `text` without the white space at either end.
pub open spec fn trimmed(text: Seq<char>) -> Seq<char> {
    trimmed_end(trimmed_start(text))
}

/// What is left at the start is no white space.
proof fn lemma_trimmed_start(text: Seq<char>)
    ensures
        trimmed_start(text).len() > 0 ==> !white_space(trimmed_start(text).first()),
    decreases text.len(),
{
    if text.len() > 0 && white_space(text.first()) {
        lemma_trimmed_start(text.drop_first());
    }
}

/// What is left at the end is no white space, and what stands before it stays.
proof fn lemma_trimmed_end(text: Seq<char>)
    ensures
        trimmed_end(text).len() > 0 ==> {
            &&& !white_space(trimmed_end(text).last())
            &&& text.len() > 0
            &&& trimmed_end(text).first() == text.first()
        },
    decreases text.len(),
{
    if text.len() > 0 && white_space(text.last()) {
        lemma_trimmed_end(text.drop_last());
    }
}

/// Trimming what was trimmed changes nothing.
pub proof fn law_trimmed_again(text: Seq<char>)
    ensures
        trimmed(trimmed(text)) == trimmed(text),
{
    lemma_trimmed_start(text);
    lemma_trimmed_end(trimmed_start(text));
}

/// The part of `text` between the white space at either end.
pub fn trim(text: &str) -> (inner: &str)
    ensures
        inner@ == trimmed(text@),
{
    let chars = chars_of(text);
    let mut start: usize = 0;
    assert(text@.skip(0) =~= text@);
    while start < chars.len() && is_white_space(chars[start])
        invariant
            chars@ == text@,
            start <= chars@.len(),
            trimmed_start(text@) == trimmed_start(text@.skip(start as int)),
        decreases chars@.len() - start,
    {
        assert(text@.skip(start as int).drop_first() =~= text@.skip(start + 1));
        start += 1;
    }
    let ghost rest = text@.skip(start as int);
    assert(trimmed_start(text@) == rest);
    let mut end: usize = chars.len();
    assert(text@.subrange(start as int, end as int) =~= rest);
    while start < end && is_white_space(chars[end - 1])
        invariant
            chars@ == text@,
            start <= end <= chars@.len(),
            trimmed_end(rest) == trimmed_end(text@.subrange(start as int, end as int)),
        decreases end - start,
    {
        assert(text@.subrange(start as int, end as int).drop_last() =~= text@.subrange(
            start as int,
            end - 1,
        ));
        end -= 1;
    }
    text.substring_char(start, end)
}

/// Whether `text` holds nothing but white space.
pub fn is_blank(text: &str) -> (blank: bool)
    ensures
        blank == (trimmed(text@).len() == 0),
{
    trim(text).is_empty()
}

/// The position of the first `mark` in `text`, or the length of `text` where
/// there is none.
pub open spec fn first_index(text: Seq<char>, mark: char) -> int
    decreases text.len(),
{
    if text.len() == 0 || text.first() == mark {
        0
    } else {
        1 + first_index(text.drop_first(), mark)
    }
}

/// The first position at which `mark` stands, and none before it.
pub proof fn lemma_first_index(text: Seq<char>, mark: char)
    ensures
        0 <= first_index(text, mark) <= text.len(),
        first_index(text, mark) < text.len() ==> text[first_index(text, mark)] == mark,
        forall|i: int| 0 <= i < first_index(text, mark) ==> text[i] != mark,
    decreases text.len(),
{
    if text.len() > 0 && text.first() != mark {
        let rest = text.drop_first();
        lemma_first_index(rest, mark);
        assert forall|i: int| 0 <= i < first_index(text, mark) implies text[i] != mark by {
            if i > 0 {
                assert(rest[i - 1] == text[i]);
            }
        }
    }
}

/// The position of the first `mark` in `chars` at or after `from`, or the length
/// of `chars` where there is none.
fn find_from(chars: &Vec<char>, from: usize, mark: char) -> (at: usize)
    requires
        from <= chars@.len(),
    ensures
        at == from + first_index(chars@.skip(from as int), mark),
        from <= at <= chars@.len(),
{
    let mut at: usize = from;
    while at < chars.len() && chars[at] != mark
        invariant
            from <= at <= chars@.len(),
            from + first_index(chars@.skip(from as int), mark) == at + first_index(
                chars@.skip(at as int),
                mark,
            ),
        decreases chars@.len() - at,
    {
        assert(chars@.skip(at as int).drop_first() =~= chars@.skip(at + 1));
        at += 1;
    }
    at
}

/// `text` cut at its first `mark`: what stands before it and what stands after.
pub fn split_once<'a>(text: &'a str, mark: char) -> (parts: Option<(&'a str, &'a str)>)
    ensures
        parts is Some <==> text@.contains(mark),
        parts matches Some((before, after)) ==> {
            let at = first_index(text@, mark);
            &&& before@ == text@.take(at)
            &&& after@ == text@.skip(at + 1)
        },
{
    let chars = chars_of(text);
    let at = find_from(&chars, 0, mark);
    proof {
        assert(text@.skip(0) =~= text@);
        lemma_first_index(text@, mark);
    }
    if at == chars.len() {
        return None;
    }
    assert(text@[at as int] == mark);
    let before = text.substring_char(0, at);
    let after = text.substring_char(at + 1, chars.len());
    assert(text@.subrange(0, at as int) =~= text@.take(at as int));
    assert(text@.subrange(at + 1, text@.len() as int) =~= text@.skip(at + 1));
    Some((before, after))
}

/// The pieces of `text` between the occurrences of `mark`.
pub open spec fn split_text(text: Seq<char>, mark: char) -> Seq<Seq<char>>
    decreases text.len(),
{
    proof {
        lemma_first_index(text, mark);
    }
    let at = first_index(text, mark);
    if at < text.len() {
        seq![text.take(at)] + split_text(text.skip(at + 1), mark)
    } else {
        seq![text]
    }
}

/// The pieces of `text` between the occurrences of `mark`.
pub fn split<'a>(text: &'a str, mark: char) -> (pieces: Vec<&'a str>)
    ensures
        pieces@.map_values(|piece: &str| piece@) == split_text(text@, mark),
{
    let chars = chars_of(text);
    let mut pieces: Vec<&'a str> = Vec::new();
    let mut from: usize = 0;
    let mut at = find_from(&chars, 0, mark);
    assert(text@.skip(0) =~= text@);
    assert(pieces@.map_values(|piece: &str| piece@) =~= Seq::<Seq<char>>::empty());
    while at < chars.len()
        invariant
            chars@ == text@,
            from <= at <= chars@.len(),
            at == from + first_index(chars@.skip(from as int), mark),
            pieces@.map_values(|piece: &str| piece@) + split_text(text@.skip(from as int), mark)
                == split_text(text@, mark),
        decreases chars@.len() - from,
    {
        let ghost done = pieces@.map_values(|piece: &str| piece@);
        let ghost rest = text@.skip(from as int);
        proof {
            lemma_first_index(rest, mark);
            assert(text@.subrange(from as int, at as int) =~= rest.take(at - from));
            assert(rest.skip(at - from + 1) =~= text@.skip(at + 1));
        }
        pieces.push(text.substring_char(from, at));
        assert(pieces@.map_values(|piece: &str| piece@) =~= done.push(rest.take(at - from)));
        from = at + 1;
        at = find_from(&chars, from, mark);
        assert(done.push(rest.take(first_index(rest, mark))) + split_text(
            text@.skip(from as int),
            mark,
        ) =~= done + split_text(rest, mark));
    }
    let ghost done = pieces@.map_values(|piece: &str| piece@);
    let ghost rest = text@.skip(from as int);
    proof {
        lemma_first_index(rest, mark);
        assert(text@.subrange(from as int, text@.len() as int) =~= rest);
    }
    pieces.push(text.substring_char(from, chars.len()));
    assert(pieces@.map_values(|piece: &str| piece@) =~= done + seq![rest]);
    pieces
}

/// The decimal digit of value `d`.
pub open spec fn digit_char(d: nat) -> char {
    (48 + d) as char
}

/// The decimal digits of `n`, without leading zeros.
pub open spec fn decimal_text(n: nat) -> Seq<char>
    decreases n,
{
    if n < 10 {
        seq![digit_char(n)]
    } else {
        decimal_text(n / 10).push(digit_char(n % 10))
    }
}

/// The decimal digits of `n`, after a minus sign where `n` is negative.
pub open spec fn signed_decimal_text(n: int) -> Seq<char> {
    if n < 0 {
        "-"@ + decimal_text((-n) as nat)
    } else {
        decimal_text(n as nat)
    }
}

/// The decimal digit of value `d`, as a text of one character.
fn digit(d: u64) -> (text: &'static str)
    requires
        d < 10,
    ensures
        text@ == seq![digit_char(d as nat)],
{
    let text = match d {
        0 => "0",
        1 => "1",
        2 => "2",
        3 => "3",
        4 => "4",
        5 => "5",
        6 => "6",
        7 => "7",
        8 => "8",
        _ => "9",
    };
    proof {
        reveal_strlit("0");
        reveal_strlit("1");
        reveal_strlit("2");
        reveal_strlit("3");
        reveal_strlit("4");
        reveal_strlit("5");
        reveal_strlit("6");
        reveal_strlit("7");
        reveal_strlit("8");
        reveal_strlit("9");
        assert(text@.len() == 1);
        assert(text@[0] == digit_char(d as nat));
    }
    text
}

/// The decimal digits of `n`.
pub fn decimal(n: u64) -> (text: String)
    ensures
        text@ == decimal_text(n as nat),
    decreases n,
{
    if n < 10 {
        return digit(n).to_owned();
    }
    let mut text = decimal(n / 10);
    text.append(digit(n % 10));
    assert(text@ =~= decimal_text(n as nat));
    text
}

/// The decimal digits of `n`, after a minus sign where `n` is negative.
pub fn signed_decimal(n: i64) -> (text: String)
    ensures
        text@ == signed_decimal_text(n as int),
{
    if n < 0 {
        let size: u64 = (-(n as i128)) as u64;
        let mut text = "-".to_owned();
        text.append(decimal(size).as_str());
        text
    } else {
        decimal(n as u64)
    }
}

/// `text` with every ASCII capital letter replaced by its small letter.
pub open spec fn ascii_lowercase(text: Seq<char>) -> Seq<char> {
    text.map_values(
        |c: char|
            if 'A' <= c <= 'Z' {
                (c as u32 + 32) as char
            } else {
                c
            },
    )
}

/// What `str::to_lowercase` gives for `text`.
pub uninterp spec fn unicode_lowercase(text: Seq<char>) -> Seq<char>;

/// `text` in small letters: letter by letter where it is ASCII, and by the
/// Unicode rules for whole strings where it is not.
pub open spec fn lowercase_text(text: Seq<char>) -> Seq<char> {
    if is_ascii_chars(text) {
        ascii_lowercase(text)
    } else {
        unicode_lowercase(text)
    }
}

/// `str::to_lowercase` replaces each character by its Unicode lowercase mapping.
/// Of ASCII text that is: `A` to `Z` become `a` to `z` and every other character
/// stays. Of other text the result is only named.
#[verifier::external_body]
pub(crate) fn to_lowercase(text: &str) -> (lower: String)
    ensures
        is_ascii_chars(text@) ==> lower@ == ascii_lowercase(text@),
        !is_ascii_chars(text@) ==> lower@ == unicode_lowercase(text@),
{
    text.to_lowercase()
}

/// Whether one of `patterns` stands in `hay`.
pub open spec fn contains_any(hay: Seq<char>, patterns: Seq<Seq<char>>) -> bool {
    exists|i: int| 0 <= i < patterns.len() && contains_text(hay, #[trigger] patterns[i])
}

/// `text` followed by as many spaces as bring it to `width` characters.
pub open spec fn padded(text: Seq<char>, width: nat) -> Seq<char> {
    if text.len() < width {
        text + Seq::new((width - text.len()) as nat, |i: int| ' ')
    } else {
        text
    }
}

/// `text` followed by as many spaces as bring it to `width` characters.
pub fn pad_right(text: &str, width: usize) -> (line: String)
    ensures
        line@ == padded(text@, width as nat),
{
    let mut line = text.to_owned();
    let mut len: usize = text.unicode_len();
    proof {
        reveal_strlit(" ");
    }
    while len < width
        invariant
            text@.len() <= len,
            len <= width || len == text@.len(),
            line@.len() == len,
            line@ == text@ + Seq::new((len - text@.len()) as nat, |i: int| ' '),
            " "@ == seq![' '],
        decreases width - len,
    {
        line.append(" ");
        len += 1;
        assert(line@ =~= text@ + Seq::new((len - text@.len()) as nat, |i: int| ' '));
    }
    assert(line@ =~= padded(text@, width as nat));
    line
}

/// A needle stands in a text if and only if the text is something, the needle and
/// something after it.
pub proof fn law_contained_is_between(hay: Seq<char>, needle: Seq<char>)
    ensures
        contains_text(hay, needle) <==> exists|before: Seq<char>, after: Seq<char>|
            hay == #[trigger] (before + needle + after),
{
    if contains_text(hay, needle) {
        let at = choose|at: int| occurs_at(hay, needle, at);
        let before = hay.take(at);
        let after = hay.skip(at + needle.len());
        assert(hay =~= before + needle + after);
    }
    if exists|before: Seq<char>, after: Seq<char>| hay == #[trigger] (before + needle + after) {
        let (before, after) = choose|before: Seq<char>, after: Seq<char>|
            hay == #[trigger] (before + needle + after);
        law_needle_between_is_contained(before, needle, after);
    }
}

/// A needle stands in every text that holds it between two others.
pub proof fn law_needle_between_is_contained(
    before: Seq<char>,
    needle: Seq<char>,
    after: Seq<char>,
)
    ensures
        contains_text(before + needle + after, needle),
{
    let hay = before + needle + after;
    let at = before.len() as int;
    assert(hay.subrange(at, at + needle.len()) =~= needle);
    assert(occurs_at(hay, needle, at));
}

/// What white space is stripped from the start is white space, and nothing else is
/// stripped.
proof fn lemma_start_stripped(text: Seq<char>) -> (count: int)
    ensures
        0 <= count <= text.len(),
        trimmed_start(text) == text.skip(count),
        forall|i: int| 0 <= i < count ==> white_space(#[trigger] text[i]),
    decreases text.len(),
{
    if text.len() > 0 && white_space(text.first()) {
        let rest = text.drop_first();
        let inner = lemma_start_stripped(rest);
        assert(rest.skip(inner) =~= text.skip(inner + 1));
        assert forall|i: int| 0 <= i < inner + 1 implies white_space(#[trigger] text[i]) by {
            if i > 0 {
                assert(rest[i - 1] == text[i]);
            }
        }
        inner + 1
    } else {
        assert(text.skip(0) =~= text);
        0
    }
}

/// What white space is stripped from the end is white space, and nothing else is
/// stripped.
proof fn lemma_end_stripped(text: Seq<char>) -> (end: int)
    ensures
        0 <= end <= text.len(),
        trimmed_end(text) == text.take(end),
        forall|i: int| end <= i < text.len() ==> white_space(#[trigger] text[i]),
    decreases text.len(),
{
    if text.len() > 0 && white_space(text.last()) {
        let rest = text.drop_last();
        let end = lemma_end_stripped(rest);
        assert(rest.take(end) =~= text.take(end));
        assert forall|i: int| end <= i < text.len() implies white_space(#[trigger] text[i]) by {
            if i < rest.len() {
                assert(rest[i] == text[i]);
            }
        }
        end
    } else {
        assert(text.take(text.len() as int) =~= text);
        text.len() as int
    }
}

/// A trimmed text is a part of the text that neither begins nor ends with white
/// space, and everything around it is white space.
pub proof fn law_trimmed_is_the_inner_part(text: Seq<char>)
    ensures
        exists|start: int, end: int|
            {
                &&& 0 <= start <= end <= text.len()
                &&& trimmed(text) == #[trigger] text.subrange(start, end)
                &&& forall|i: int| 0 <= i < start ==> white_space(#[trigger] text[i])
                &&& forall|i: int| end <= i < text.len() ==> white_space(#[trigger] text[i])
                &&& start < end ==> !white_space(text[start]) && !white_space(text[end - 1])
            },
{
    let start = lemma_start_stripped(text);
    let rest = trimmed_start(text);
    let len = lemma_end_stripped(rest);
    let end = start + len;
    lemma_trimmed_start(text);
    lemma_trimmed_end(rest);
    assert(rest.take(len) =~= text.subrange(start, end));
    assert forall|i: int| end <= i < text.len() implies white_space(#[trigger] text[i]) by {
        assert(rest[i - start] == text[i]);
    }
}

/// A text is blank if and only if each of its characters is white space.
pub proof fn law_blank_is_all_white_space(text: Seq<char>)
    ensures
        trimmed(text).len() == 0 <==> forall|i: int|
            0 <= i < text.len() ==> white_space(#[trigger] text[i]),
{
    law_trimmed_is_the_inner_part(text);
    let (start, end) = choose|start: int, end: int|
        {
            &&& 0 <= start <= end <= text.len()
            &&& trimmed(text) == #[trigger] text.subrange(start, end)
            &&& forall|i: int| 0 <= i < start ==> white_space(#[trigger] text[i])
            &&& forall|i: int| end <= i < text.len() ==> white_space(#[trigger] text[i])
            &&& start < end ==> !white_space(text[start]) && !white_space(text[end - 1])
        };
}

/// `pieces`, with `mark` between them.
pub open spec fn joined(pieces: Seq<Seq<char>>, mark: char) -> Seq<char>
    decreases pieces.len(),
{
    if pieces.len() == 0 {
        Seq::empty()
    } else if pieces.len() == 1 {
        pieces[0]
    } else {
        pieces[0] + seq![mark] + joined(pieces.drop_first(), mark)
    }
}

/// Splitting gives at least one piece, no piece holds the mark, and joining the
/// pieces again gives the text.
pub proof fn law_split_pieces_join_again(text: Seq<char>, mark: char)
    ensures
        split_text(text, mark).len() > 0,
        joined(split_text(text, mark), mark) == text,
        forall|i: int|
            0 <= i < split_text(text, mark).len() ==> !(#[trigger] split_text(
                text,
                mark,
            )[i]).contains(mark),
    decreases text.len(),
{
    lemma_first_index(text, mark);
    let at = first_index(text, mark);
    let pieces = split_text(text, mark);
    if at < text.len() {
        let rest = text.skip(at + 1);
        law_split_pieces_join_again(rest, mark);
        assert(pieces.drop_first() =~= split_text(rest, mark));
        assert(text =~= text.take(at) + seq![mark] + rest);
        assert forall|i: int| 0 <= i < pieces.len() implies !(#[trigger] pieces[i]).contains(
            mark,
        ) by {
            if i > 0 {
                assert(pieces[i] == split_text(rest, mark)[i - 1]);
            }
        }
    }
}

/// The number that decimal digits stand for.
pub open spec fn decimal_value(digits: Seq<char>) -> int
    decreases digits.len(),
{
    if digits.len() == 0 {
        0
    } else {
        10 * decimal_value(digits.drop_last()) + (digits.last() as int - '0' as int)
    }
}

/// A number is written in decimal digits that stand for it, without leading zeros.
pub proof fn law_decimal_text_stands_for_its_number(n: nat)
    ensures
        decimal_text(n).len() > 0,
        decimal_value(decimal_text(n)) == n,
        forall|i: int| 0 <= i < decimal_text(n).len() ==> '0' <= #[trigger] decimal_text(n)[i] <= '9',
        n > 0 ==> decimal_text(n)[0] != '0',
    decreases n,
{
    reveal_with_fuel(decimal_value, 2);
    if n >= 10 {
        law_decimal_text_stands_for_its_number(n / 10);
        let head = decimal_text(n / 10);
        assert(decimal_text(n).drop_last() =~= head);
        assert forall|i: int| 0 <= i < decimal_text(n).len() implies '0' <= #[trigger] decimal_text(
            n,
        )[i] <= '9' by {
            if i < head.len() {
                assert(decimal_text(n)[i] == head[i]);
            }
        }
        assert(decimal_text(n)[0] == head[0]);
    } else {
        assert(decimal_text(n).drop_last() =~= Seq::<char>::empty());
    }
}

/// A padded text is the text and spaces after it. It is as long as the width, or as
/// the text where that is longer.
pub proof fn law_padded_is_text_and_spaces(text: Seq<char>, width: nat)
    ensures
        padded(text, width).len() == (if text.len() < width {
            width
        } else {
            text.len()
        }),
        padded(text, width).take(text.len() as int) == text,
        forall|i: int|
            text.len() <= i < padded(text, width).len() ==> #[trigger] padded(text, width)[i]
                == ' ',
{
    assert(padded(text, width).take(text.len() as int) =~= text);
}

/// Lowering ASCII text keeps its length, leaves no capital letter, and changes
/// capital letters only, each by the distance between the two alphabets.
pub proof fn law_ascii_letters_are_lowered(text: Seq<char>, i: int)
    requires
        is_ascii_chars(text),
        0 <= i < text.len(),
    ensures
        lowercase_text(text).len() == text.len(),
        !('A' <= lowercase_text(text)[i] <= 'Z'),
        'A' <= text[i] <= 'Z' ==> lowercase_text(text)[i] as int - text[i] as int == 'a' as int
            - 'A' as int,
        !('A' <= text[i] <= 'Z') ==> lowercase_text(text)[i] == text[i],
{
}

/// A negative number is a minus sign and the digits of its size; any other number is
/// its digits.
pub proof fn law_minus_sign_is_for_negative_numbers(n: int)
    ensures
        n >= 0 ==> decimal_value(signed_decimal_text(n)) == n,
        n < 0 ==> {
            &&& signed_decimal_text(n).len() > 1
            &&& signed_decimal_text(n)[0] == '-'
            &&& decimal_value(signed_decimal_text(n).skip(1)) == -n
        },
{
    reveal_strlit("-");
    if n < 0 {
        law_decimal_text_stands_for_its_number((-n) as nat);
        assert(signed_decimal_text(n).skip(1) =~= decimal_text((-n) as nat));
    } else {
        law_decimal_text_stands_for_its_number(n as nat);
    }
}

} // verus!
