//! Text as sequences of characters: the small set of string operations that
//! the agent needs, each with an exact meaning.

use vstd::prelude::*;
use vstd::string::StringExecFns;
use vstd::utf8::decode_utf8;
use vstd::utf8::valid_utf8;

verus! {

/// `String::push` appends the given character to the end of the string.
pub assume_specification[ String::push ](s: &mut String, c: char)
    ensures
        final(s)@ == old(s)@.push(c),
;

/// What `String::from_utf8_lossy` makes of a byte string: its UTF-8 text, with
/// every malformed part replaced by U+FFFD.
pub uninterp spec fn utf8_lossy(bytes: Seq<u8>) -> Seq<char>;

/// Calls `String::from_utf8_lossy`. The result depends on the bytes alone, and
/// bytes that are valid UTF-8 come out as the text that they encode.
#[verifier::external_body]
pub(crate) fn decode_lossy(bytes: &[u8]) -> (text: String)
    ensures
        text@ == utf8_lossy(bytes@),
        valid_utf8(bytes@) ==> text@ == decode_utf8(bytes@),
{
    String::from_utf8_lossy(bytes).into_owned()
}

/// The characters of a string, as a vector that can be indexed.
pub fn chars_of(s: &str) -> (v: Vec<char>)
    ensures
        v@ == s@,
{
    let mut v: Vec<char> = Vec::new();
    for c in it: s.chars()
        invariant
            it.seq() == s@,
            v@ == s@.take(it.index() as int),
    {
        v.push(c);
    }
    v
}

/// The string made of the characters from `from` (included) to `to` (excluded).
pub fn text_between(chars: &Vec<char>, from: usize, to: usize) -> (s: String)
    requires
        from <= to <= chars@.len(),
    ensures
        s@ == chars@.subrange(from as int, to as int),
{
    let mut s = String::new();
    let mut i: usize = from;
    while i < to
        invariant
            from <= i <= to <= chars@.len(),
            s@ == chars@.subrange(from as int, i as int),
        decreases to - i,
    {
        s.push(chars[i]);
        i = i + 1;
    }
    s
}

/// Whether two strings hold the same characters.
pub fn same_text(a: &str, b: &str) -> (same: bool)
    ensures
        same == (a@ == b@),
{
    a.to_owned() == b.to_owned()
}

// ---------------------------------------------------------------------------
// White space
// ---------------------------------------------------------------------------

/// The characters with the Unicode property White_Space.
pub open spec fn is_space(c: char) -> bool {
    ||| '\u{9}' <= c <= '\u{d}'
    ||| c == ' '
    ||| c == '\u{85}'
    ||| c == '\u{a0}'
    ||| c == '\u{1680}'
    ||| '\u{2000}' <= c <= '\u{200a}'
    ||| c == '\u{2028}'
    ||| c == '\u{2029}'
    ||| c == '\u{202f}'
    ||| c == '\u{205f}'
    ||| c == '\u{3000}'
}

/// Whether `c` is a white space character.
pub fn is_whitespace(c: char) -> (yes: bool)
    ensures
        yes == is_space(c),
{
    ('\u{9}' <= c && c <= '\u{d}') || c == ' ' || c == '\u{85}' || c == '\u{a0}' || c == '\u{1680}'
        || ('\u{2000}' <= c && c <= '\u{200a}') || c == '\u{2028}' || c == '\u{2029}' || c
        == '\u{202f}' || c == '\u{205f}' || c == '\u{3000}'
}

/// A text that holds nothing but white space.
pub open spec fn is_blank(s: Seq<char>) -> bool {
    forall|i: int| 0 <= i < s.len() ==> is_space(#[trigger] s[i])
}

/// Whether a string holds nothing but white space.
pub fn blank(s: &str) -> (yes: bool)
    ensures
        yes == is_blank(s@),
        yes == forall|i: int| 0 <= i < s@.len() ==> is_space(#[trigger] s@[i]),
{
    let chars = chars_of(s);
    let mut i: usize = 0;
    while i < chars.len()
        invariant
            i <= chars@.len(),
            chars@ == s@,
            forall|j: int| 0 <= j < i ==> is_space(#[trigger] chars@[j]),
        decreases chars@.len() - i,
    {
        if !is_whitespace(chars[i]) {
            return false;
        }
        i = i + 1;
    }
    true
}

/// `s` without its leading white space.
pub open spec fn trim_start(s: Seq<char>) -> Seq<char>
    decreases s.len(),
{
    if s.len() > 0 && is_space(s[0]) {
        trim_start(s.drop_first())
    } else {
        s
    }
}

/// `s` without its trailing white space.
pub open spec fn trim_end(s: Seq<char>) -> Seq<char>
    decreases s.len(),
{
    if s.len() > 0 && is_space(s.last()) {
        trim_end(s.drop_last())
    } else {
        s
    }
}

/// `s` without the white space around it.
pub open spec fn trim(s: Seq<char>) -> Seq<char> {
    trim_end(trim_start(s))
}

/// A string without the white space around it.
pub fn trimmed(s: &str) -> (t: String)
    ensures
        t@ == trim(s@),
{
    let chars = chars_of(s);
    let mut from: usize = 0;
    assert(chars@.skip(0) == s@);
    while from < chars.len() && is_whitespace(chars[from])
        invariant
            from <= chars@.len(),
            trim_start(chars@.skip(from as int)) == trim_start(s@),
        decreases chars@.len() - from,
    {
        assert(chars@.skip(from as int).drop_first() == chars@.skip(from + 1));
        from = from + 1;
    }
    assert(trim_start(s@) == chars@.skip(from as int));
    let mut to: usize = chars.len();
    assert(chars@.subrange(from as int, to as int) == chars@.skip(from as int));
    while to > from && is_whitespace(chars[to - 1])
        invariant
            from <= to <= chars@.len(),
            trim_end(chars@.subrange(from as int, to as int)) == trim(s@),
        decreases to,
    {
        assert(chars@.subrange(from as int, to as int).drop_last() == chars@.subrange(
            from as int,
            to - 1,
        ));
        to = to - 1;
    }
    text_between(&chars, from, to)
}

/// A text that is not blank still holds something once trimmed, and a blank one
/// does not.
pub proof fn law_trim_empty_iff_blank(s: Seq<char>)
    ensures
        trim(s).len() == 0 <==> is_blank(s),
{
    lemma_trim_start_empty_iff_blank(s);
    let t = trim_start(s);
    lemma_trim_start_starts_solid(s);
    if t.len() > 0 {
        lemma_trim_end_keeps_solid(t);
    }
}

/// Trimming takes away white space and nothing else, and takes away all there is at
/// either end: what is left is a piece of the text with nothing but white space
/// before and after it, and it neither starts nor ends with any.
pub proof fn law_trim_takes_away_the_white_space_around(s: Seq<char>)
    ensures
        exists|from: int, to: int|
            #![trigger s.subrange(from, to)]
            {
                &&& 0 <= from <= to <= s.len()
                &&& trim(s) == s.subrange(from, to)
                &&& forall|i: int| 0 <= i < from ==> is_space(#[trigger] s[i])
                &&& forall|i: int| to <= i < s.len() ==> is_space(#[trigger] s[i])
                &&& from < to ==> !is_space(s[from]) && !is_space(s[to - 1])
            },
{
    let from = lemma_trim_start_skips(s);
    let t = s.skip(from);
    let n = lemma_trim_end_takes(t);
    let to = from + n;
    assert(t.take(n) == s.subrange(from, to));
    assert forall|i: int| to <= i < s.len() implies is_space(#[trigger] s[i]) by {
        assert(t[i - from] == s[i]);
    }
    if from < to {
        assert(t[n - 1] == s[to - 1]);
    }
    assert(trim(s) == s.subrange(from, to));
}

/// A name between white space is what is left of it once it is trimmed.
pub proof fn law_trim_finds_what_is_between(pad: Seq<char>, name: Seq<char>, tail: Seq<char>)
    requires
        is_blank(pad),
        is_blank(tail),
        name.len() > 0 ==> !is_space(name[0]) && !is_space(name.last()),
    ensures
        trim(pad + name + tail) == name,
{
    let s = pad + name + tail;
    law_trim_takes_away_the_white_space_around(s);
    let (from, to) = choose|from: int, to: int|
        #![trigger s.subrange(from, to)]
        {
            &&& 0 <= from <= to <= s.len()
            &&& trim(s) == s.subrange(from, to)
            &&& forall|i: int| 0 <= i < from ==> is_space(#[trigger] s[i])
            &&& forall|i: int| to <= i < s.len() ==> is_space(#[trigger] s[i])
            &&& from < to ==> !is_space(s[from]) && !is_space(s[to - 1])
        };
    let start = pad.len() as int;
    let end = start + name.len();
    assert forall|i: int| 0 <= i < start implies is_space(#[trigger] s[i]) by {
        assert(s[i] == pad[i]);
    }
    assert forall|i: int| end <= i < s.len() implies is_space(#[trigger] s[i]) by {
        assert(s[i] == tail[i - end]);
    }
    if name.len() > 0 {
        assert(s[start] == name[0]);
        assert(s[end - 1] == name.last());
        assert(from <= start);
        assert(to >= end);
        assert(from == start && to == end);
        assert(s.subrange(start, end) == name);
    } else {
        if from < to {
            assert(is_space(s[from]));
        }
        assert(s.subrange(from, to) == name);
    }
}

proof fn lemma_trim_start_skips(s: Seq<char>) -> (from: int)
    ensures
        0 <= from <= s.len(),
        trim_start(s) == s.skip(from),
        forall|i: int| 0 <= i < from ==> is_space(#[trigger] s[i]),
        from < s.len() ==> !is_space(s[from]),
    decreases s.len(),
{
    if s.len() > 0 && is_space(s[0]) {
        let rest = s.drop_first();
        let n = lemma_trim_start_skips(rest);
        assert(rest.skip(n) == s.skip(n + 1));
        assert forall|i: int| 0 <= i < n + 1 implies is_space(#[trigger] s[i]) by {
            if i > 0 {
                assert(rest[i - 1] == s[i]);
            }
        }
        n + 1
    } else {
        assert(s.skip(0) == s);
        0
    }
}

proof fn lemma_trim_end_takes(s: Seq<char>) -> (to: int)
    ensures
        0 <= to <= s.len(),
        trim_end(s) == s.take(to),
        forall|i: int| to <= i < s.len() ==> is_space(#[trigger] s[i]),
        to > 0 ==> !is_space(s[to - 1]),
    decreases s.len(),
{
    if s.len() > 0 && is_space(s.last()) {
        let rest = s.drop_last();
        let n = lemma_trim_end_takes(rest);
        assert(rest.take(n) == s.take(n));
        assert forall|i: int| n <= i < s.len() implies is_space(#[trigger] s[i]) by {
            if i < rest.len() {
                assert(rest[i] == s[i]);
            }
        }
        n
    } else {
        assert(s.take(s.len() as int) == s);
        s.len() as int
    }
}

proof fn lemma_trim_start_empty_iff_blank(s: Seq<char>)
    ensures
        trim_start(s).len() == 0 <==> is_blank(s),
    decreases s.len(),
{
    if s.len() > 0 {
        let rest = s.drop_first();
        lemma_trim_start_empty_iff_blank(rest);
        if is_space(s[0]) {
            if is_blank(rest) {
                assert forall|i: int| 0 <= i < s.len() implies is_space(#[trigger] s[i]) by {
                    if i > 0 {
                        assert(rest[i - 1] == s[i]);
                    }
                }
            }
            if is_blank(s) {
                assert forall|i: int| 0 <= i < rest.len() implies is_space(#[trigger] rest[i]) by {
                    assert(rest[i] == s[i + 1]);
                }
            }
        }
    }
}

proof fn lemma_trim_start_starts_solid(s: Seq<char>)
    ensures
        trim_start(s).len() > 0 ==> !is_space(trim_start(s)[0]),
    decreases s.len(),
{
    if s.len() > 0 && is_space(s[0]) {
        lemma_trim_start_starts_solid(s.drop_first());
    }
}

proof fn lemma_trim_end_keeps_solid(s: Seq<char>)
    requires
        s.len() > 0,
        !is_space(s[0]),
    ensures
        trim_end(s).len() > 0,
    decreases s.len(),
{
    if is_space(s.last()) {
        assert(s.len() > 1);
        lemma_trim_end_keeps_solid(s.drop_last());
    }
}

// ---------------------------------------------------------------------------
// Lines and words
// ---------------------------------------------------------------------------

/// The views of a sequence of strings.
pub open spec fn texts(v: Seq<String>) -> Seq<Seq<char>> {
    v.map_values(|t: String| t@)
}

/// The position of the first `c` in `s`, or the length of `s` where there is none.
pub open spec fn first_of(s: Seq<char>, c: char) -> nat
    decreases s.len(),
{
    if s.len() == 0 || s[0] == c {
        0
    } else {
        1 + first_of(s.drop_first(), c)
    }
}

/// `s` without one carriage return at its end.
pub open spec fn without_cr(s: Seq<char>) -> Seq<char> {
    if s.len() > 0 && s.last() == '\r' {
        s.drop_last()
    } else {
        s
    }
}

/// The lines of a text. A line ends at a line feed, alone or after a carriage
/// return; the ending is not part of the line, and the last line need not have
/// one.
pub open spec fn lines(s: Seq<char>) -> Seq<Seq<char>>
    decreases s.len(),
{
    let end = first_of(s, '\n');
    if s.len() == 0 {
        seq![]
    } else if end >= s.len() {
        seq![s]
    } else {
        seq![without_cr(s.take(end as int))] + lines(s.skip(end as int + 1))
    }
}

/// Splits a text into its lines.
pub fn split_lines(s: &str) -> (v: Vec<String>)
    ensures
        texts(v@) == lines(s@),
{
    let chars = chars_of(s);
    let mut v: Vec<String> = Vec::new();
    let mut start: usize = 0;
    assert(chars@.skip(0) == s@);
    assert(texts(v@) + lines(s@) == lines(s@));
    while start < chars.len()
        invariant
            start <= chars@.len(),
            texts(v@) + lines(chars@.skip(start as int)) == lines(s@),
        decreases chars@.len() - start,
    {
        let ghost rest = chars@.skip(start as int);
        let ghost before = texts(v@);
        let mut end: usize = start;
        while end < chars.len() && chars[end] != '\n'
            invariant
                start <= end <= chars@.len(),
                rest == chars@.skip(start as int),
                first_of(rest, '\n') == (end - start) + first_of(chars@.skip(end as int), '\n'),
            decreases chars@.len() - end,
        {
            assert(chars@.skip(end as int).drop_first() == chars@.skip(end + 1));
            end = end + 1;
        }
        if end == chars.len() {
            v.push(text_between(&chars, start, end));
            proof {
                assert(chars@.subrange(start as int, end as int) == rest);
                assert(lines(rest) == seq![rest]);
                assert(texts(v@) == before.push(rest));
                assert(lines(chars@.skip(end as int)) == Seq::<Seq<char>>::empty());
                assert(texts(v@) + lines(chars@.skip(end as int)) == before + lines(rest));
            }
            start = end;
        } else {
            let stop: usize = if end > start && chars[end - 1] == '\r' {
                end - 1
            } else {
                end
            };
            v.push(text_between(&chars, start, stop));
            proof {
                let line = without_cr(rest.take(end - start));
                assert(chars@.subrange(start as int, stop as int) == line);
                assert(rest.skip(end - start + 1) == chars@.skip(end + 1));
                assert(texts(v@) == before.push(line));
                assert(texts(v@) + lines(chars@.skip(end + 1)) == before + lines(rest));
            }
            start = end + 1;
        }
    }
    proof {
        assert(lines(chars@.skip(start as int)) == Seq::<Seq<char>>::empty());
        assert(texts(v@) + lines(chars@.skip(start as int)) == texts(v@));
    }
    v
}

/// The texts of some strings are their own, one for one.
pub proof fn law_texts_are_those_of_the_strings(v: Seq<String>)
    ensures
        texts(v).len() == v.len(),
        forall|i: int| 0 <= i < v.len() ==> #[trigger] texts(v)[i] == v[i]@,
{
}

/// A text without a line feed is a line as it is, unless it is empty.
pub proof fn law_text_without_line_feed_is_one_line(s: Seq<char>)
    requires
        !s.contains('\n'),
    ensures
        lines(s) == (if s.len() == 0 {
            Seq::<Seq<char>>::empty()
        } else {
            seq![s]
        }),
{
    lemma_first_of_is_behind(s, Seq::empty());
    assert(s + Seq::<char>::empty() == s);
}

/// What stands before the first line feed is the first line, without one carriage
/// return at its end, and the lines of what stands after it follow.
pub proof fn law_lines_end_at_line_feeds(line: Seq<char>, rest: Seq<char>)
    requires
        !line.contains('\n'),
    ensures
        lines(line + seq!['\n'] + rest) == seq![
            if line.len() > 0 && line.last() == '\r' {
                line.drop_last()
            } else {
                line
            },
        ] + lines(rest),
{
    let s = line + seq!['\n'] + rest;
    assert(s == line + (seq!['\n'] + rest));
    lemma_first_of_is_behind(line, seq!['\n'] + rest);
    assert(s.take(line.len() as int) == line);
    assert(s.skip(line.len() as int + 1) == rest);
}

proof fn lemma_first_of_is_behind(s: Seq<char>, rest: Seq<char>)
    requires
        !s.contains('\n'),
        rest.len() == 0 || rest[0] == '\n',
    ensures
        first_of(s + rest, '\n') == s.len(),
    decreases s.len(),
{
    if s.len() == 0 {
        assert(s + rest == rest);
    } else {
        assert(s.contains(s[0]));
        assert forall|c: char| s.drop_first().contains(c) implies s.contains(c) by {
            let i = choose|i: int| 0 <= i < s.drop_first().len() && s.drop_first()[i] == c;
            assert(s[i + 1] == c);
        }
        lemma_first_of_is_behind(s.drop_first(), rest);
        assert((s + rest).drop_first() == s.drop_first() + rest);
    }
}

/// The position of the first white space in `s`, or the length of `s`.
pub open spec fn first_space(s: Seq<char>) -> int
    decreases s.len(),
{
    if s.len() == 0 || is_space(s[0]) {
        0
    } else {
        1 + first_space(s.drop_first())
    }
}

/// The first word of a text: its first run of characters that are not white
/// space.
pub open spec fn first_word(s: Seq<char>) -> Option<Seq<char>> {
    let t = trim_start(s);
    if t.len() == 0 {
        None
    } else {
        Some(t.take(first_space(t)))
    }
}

/// The first word of a text is found behind any white space, and goes up to the next
/// white space or to the end.
pub proof fn law_first_word_is_found(pad: Seq<char>, word: Seq<char>, rest: Seq<char>)
    requires
        is_blank(pad),
        word.len() > 0,
        forall|i: int| 0 <= i < word.len() ==> !is_space(#[trigger] word[i]),
        rest.len() == 0 || is_space(rest[0]),
    ensures
        first_word(pad + word + rest) == Some(word),
{
    let t = word + rest;
    assert(pad + word + rest == pad + t);
    assert(t[0] == word[0]);
    lemma_trim_start_passes_over(pad, t);
    lemma_first_space_is_behind(word, rest);
    assert(t.take(word.len() as int) == word);
}

/// A text has no first word exactly where it holds nothing but white space.
pub proof fn law_no_word_iff_blank(s: Seq<char>)
    ensures
        first_word(s) is None <==> forall|i: int| 0 <= i < s.len() ==> is_space(#[trigger] s[i]),
{
    lemma_trim_start_empty_iff_blank(s);
}

proof fn lemma_trim_start_passes_over(pad: Seq<char>, t: Seq<char>)
    requires
        is_blank(pad),
        t.len() > 0,
        !is_space(t[0]),
    ensures
        trim_start(pad + t) == t,
    decreases pad.len(),
{
    if pad.len() == 0 {
        assert(pad + t == t);
    } else {
        assert(is_space(pad[0]));
        let fewer = pad.drop_first();
        assert forall|i: int| 0 <= i < fewer.len() implies is_space(#[trigger] fewer[i]) by {
            assert(fewer[i] == pad[i + 1]);
        }
        lemma_trim_start_passes_over(fewer, t);
        assert((pad + t).drop_first() == fewer + t);
    }
}

proof fn lemma_first_space_is_behind(word: Seq<char>, rest: Seq<char>)
    requires
        forall|i: int| 0 <= i < word.len() ==> !is_space(#[trigger] word[i]),
        rest.len() == 0 || is_space(rest[0]),
    ensures
        first_space(word + rest) == word.len(),
    decreases word.len(),
{
    if word.len() == 0 {
        assert(word + rest == rest);
    } else {
        assert(!is_space(word[0]));
        let fewer = word.drop_first();
        assert forall|i: int| 0 <= i < fewer.len() implies !is_space(#[trigger] fewer[i]) by {
            assert(fewer[i] == word[i + 1]);
        }
        lemma_first_space_is_behind(fewer, rest);
        assert((word + rest).drop_first() == fewer + rest);
    }
}

/// A word has at least one character.
pub proof fn lemma_first_word_not_empty(s: Seq<char>)
    ensures
        first_word(s) is Some ==> first_word(s)->0.len() > 0,
{
    let t = trim_start(s);
    lemma_trim_start_starts_solid(s);
    if t.len() > 0 {
        lemma_first_space_bounds(t.drop_first());
    }
}

proof fn lemma_first_space_bounds(s: Seq<char>)
    ensures
        0 <= first_space(s) <= s.len(),
    decreases s.len(),
{
    if s.len() > 0 && !is_space(s[0]) {
        lemma_first_space_bounds(s.drop_first());
    }
}

/// What follows `prefix` in a text that starts with it.
pub open spec fn after_prefix(s: Seq<char>, prefix: Seq<char>) -> Option<Seq<char>> {
    if prefix.is_prefix_of(s) {
        Some(s.skip(prefix.len() as int))
    } else {
        None
    }
}

/// What is found behind a prefix is the rest of the text, and it is found exactly
/// where the text starts with the prefix.
pub proof fn law_rest_is_found_behind_a_prefix(s: Seq<char>, prefix: Seq<char>, rest: Seq<char>)
    ensures
        after_prefix(prefix + rest, prefix) == Some(rest),
        after_prefix(s, prefix) is Some ==> s == prefix + after_prefix(s, prefix)->0,
{
    let whole = prefix + rest;
    assert(whole.subrange(0, prefix.len() as int) == prefix);
    assert(whole.skip(prefix.len() as int) == rest);
    if prefix.is_prefix_of(s) {
        assert(s.subrange(0, prefix.len() as int) == prefix);
        assert(s == prefix + s.skip(prefix.len() as int));
    }
}

/// The first word after `prefix`, for a string that starts with `prefix` and has
/// such a word.
pub fn word_after(s: &str, prefix: &str) -> (word: Option<String>)
    ensures
        word.deep_view() == (match after_prefix(s@, prefix@) {
            Some(rest) => first_word(rest),
            None => None,
        }),
{
    let chars = chars_of(s);
    let wanted = chars_of(prefix);
    let mut i: usize = 0;
    while i < wanted.len()
        invariant
            i <= wanted@.len(),
            i <= chars@.len(),
            chars@ == s@,
            wanted@ == prefix@,
            forall|j: int| 0 <= j < i ==> chars@[j] == wanted@[j],
        decreases wanted@.len() - i,
    {
        if i >= chars.len() || chars[i] != wanted[i] {
            return None;
        }
        i = i + 1;
    }
    assert(prefix@.is_prefix_of(s@)) by {
        assert(s@.subrange(0, prefix@.len() as int) == prefix@);
    }
    let ghost rest = s@.skip(prefix@.len() as int);
    let mut from: usize = i;
    while from < chars.len() && is_whitespace(chars[from])
        invariant
            from <= chars@.len(),
            trim_start(chars@.skip(from as int)) == trim_start(rest),
        decreases chars@.len() - from,
    {
        assert(chars@.skip(from as int).drop_first() == chars@.skip(from + 1));
        from = from + 1;
    }
    let ghost t = trim_start(rest);
    assert(t == chars@.skip(from as int));
    if from == chars.len() {
        return None;
    }
    let mut to: usize = from;
    while to < chars.len() && !is_whitespace(chars[to])
        invariant
            from <= to <= chars@.len(),
            t == chars@.skip(from as int),
            first_space(t) == (to - from) + first_space(chars@.skip(to as int)),
        decreases chars@.len() - to,
    {
        assert(chars@.skip(to as int).drop_first() == chars@.skip(to + 1));
        to = to + 1;
    }
    assert(chars@.subrange(from as int, to as int) == t.take(first_space(t)));
    Some(text_between(&chars, from, to))
}

// ---------------------------------------------------------------------------
// Ends, letter case and quotes
// ---------------------------------------------------------------------------

/// `s` without the run of `c` at its end.
pub open spec fn without_trailing(s: Seq<char>, c: char) -> Seq<char>
    decreases s.len(),
{
    if s.len() > 0 && s.last() == c {
        without_trailing(s.drop_last(), c)
    } else {
        s
    }
}

/// A string without the run of `c` at its end.
pub fn strip_trailing(s: &str, c: char) -> (t: String)
    ensures
        t@ == without_trailing(s@, c),
{
    let chars = chars_of(s);
    let mut to: usize = chars.len();
    assert(chars@.take(to as int) == s@);
    while to > 0 && chars[to - 1] == c
        invariant
            to <= chars@.len(),
            without_trailing(chars@.take(to as int), c) == without_trailing(s@, c),
        decreases to,
    {
        assert(chars@.take(to as int).drop_last() == chars@.take(to - 1));
        to = to - 1;
    }
    assert(chars@.subrange(0, to as int) == chars@.take(to as int));
    text_between(&chars, 0, to)
}

/// The run of a character at the end of a text is taken away whole, and nothing else
/// is: what is left starts the text, does not end in that character, and is followed
/// by nothing but it.
pub proof fn law_trailing_run_is_taken_away(s: Seq<char>, c: char)
    ensures
        ({
            let kept = without_trailing(s, c);
            &&& kept.len() > 0 ==> kept.last() != c
            &&& kept.is_prefix_of(s)
            &&& forall|i: int| kept.len() <= i < s.len() ==> #[trigger] s[i] == c
        }),
    decreases s.len(),
{
    if s.len() > 0 && s.last() == c {
        let rest = s.drop_last();
        law_trailing_run_is_taken_away(rest, c);
        let kept = without_trailing(rest, c);
        assert(s.subrange(0, kept.len() as int) == rest.subrange(0, kept.len() as int));
        assert forall|i: int| kept.len() <= i < s.len() implies #[trigger] s[i] == c by {
            if i < rest.len() {
                assert(rest[i] == s[i]);
            }
        }
    } else {
        assert(s.subrange(0, s.len() as int) == s);
    }
}

/// `c`, with an ASCII capital letter replaced by its small letter.
pub open spec fn lower(c: char) -> char {
    if 'A' <= c <= 'Z' {
        ((c as u32) + 32) as char
    } else {
        c
    }
}

/// A text with its ASCII capital letters replaced by small ones.
pub open spec fn lowered(s: Seq<char>) -> Seq<char> {
    s.map_values(|c: char| lower(c))
}

/// Putting a text in small letters changes its ASCII capitals, each to the letter 32
/// places on, and nothing else.
pub proof fn law_small_letters_stand_for_capitals(s: Seq<char>)
    ensures
        lowered(s).len() == s.len(),
        forall|i: int|
            0 <= i < s.len() ==> (#[trigger] lowered(s)[i]) as int == (if 65 <= s[i] as int <= 90 {
                s[i] as int + 32
            } else {
                s[i] as int
            }),
{
}

fn to_lower(c: char) -> (l: char)
    ensures
        l == lower(c),
{
    if 'A' <= c && c <= 'Z' {
        ((c as u8) + 32) as char
    } else {
        c
    }
}

/// Whether two strings are the same but for the case of ASCII letters.
pub fn same_but_case(a: &str, b: &str) -> (same: bool)
    ensures
        same == (lowered(a@) == lowered(b@)),
{
    let x = chars_of(a);
    let y = chars_of(b);
    if x.len() != y.len() {
        assert(lowered(a@).len() != lowered(b@).len());
        return false;
    }
    let mut i: usize = 0;
    while i < x.len()
        invariant
            i <= x@.len(),
            x@ == a@,
            y@ == b@,
            x@.len() == y@.len(),
            forall|j: int| 0 <= j < i ==> lower(x@[j]) == lower(y@[j]),
        decreases x@.len() - i,
    {
        if to_lower(x[i]) != to_lower(y[i]) {
            assert(lowered(a@)[i as int] != lowered(b@)[i as int]);
            return false;
        }
        i = i + 1;
    }
    assert(lowered(a@) == lowered(b@));
    true
}

/// A text with every single quote written twice.
pub open spec fn quotes_doubled(s: Seq<char>) -> Seq<char>
    decreases s.len(),
{
    if s.len() == 0 {
        seq![]
    } else if s.last() == '\'' {
        quotes_doubled(s.drop_last()).push('\'').push('\'')
    } else {
        quotes_doubled(s.drop_last()).push(s.last())
    }
}

/// A string with every `'` written twice, which is how one stands in a
/// single-quoted PowerShell string.
pub fn double_quotes(s: &str) -> (t: String)
    ensures
        t@ == quotes_doubled(s@),
{
    let chars = chars_of(s);
    let mut t = String::new();
    let mut i: usize = 0;
    while i < chars.len()
        invariant
            i <= chars@.len(),
            t@ == quotes_doubled(chars@.take(i as int)),
        decreases chars@.len() - i,
    {
        let c = chars[i];
        assert(chars@.take(i + 1).drop_last() == chars@.take(i as int));
        if c == '\'' {
            t.push('\'');
            t.push('\'');
        } else {
            t.push(c);
        }
        i = i + 1;
    }
    assert(chars@.take(i as int) == s@);
    t
}

/// Doubling the quotes of a text doubles each `'` and leaves every other character,
/// in their order.
pub proof fn law_each_quote_is_doubled(s: Seq<char>, c: char)
    ensures
        quotes_doubled(Seq::empty()) == Seq::<char>::empty(),
        c == '\'' ==> quotes_doubled(s.push(c)) == quotes_doubled(s) + seq!['\'', '\''],
        c != '\'' ==> quotes_doubled(s.push(c)) == quotes_doubled(s) + seq![c],
{
    assert(s.push(c).drop_last() == s);
}

/// What a single-quoted string holds to a reader for which `'` is the only quote:
/// a doubled one stands for one, and a single one ends the string. PowerShell takes
/// the typographic single quotes for quotes as well; of those nothing is said here.
pub open spec fn quoted_content(s: Seq<char>) -> Seq<char>
    decreases s.len(),
{
    if s.len() == 0 || (s[0] == '\'' && (s.len() == 1 || s[1] != '\'')) {
        seq![]
    } else if s[0] == '\'' {
        seq!['\''] + quoted_content(s.skip(2))
    } else {
        seq![s[0]] + quoted_content(s.skip(1))
    }
}

/// Doubling every `'` of any text and reading it back as a single-quoted string,
/// closed by `'` and followed by anything but another `'`, gives the text again,
/// for a reader to which `'` is the only quote.
pub proof fn law_doubled_quotes_read_back(s: Seq<char>, tail: Seq<char>)
    requires
        tail.len() > 0,
        tail[0] == '\'',
        tail.len() > 1 ==> tail[1] != '\'',
    ensures
        quoted_content(quotes_doubled(s) + tail) == s,
    decreases s.len(),
{
    lemma_quoted_content_of_doubled(s, tail);
    assert(quoted_content(tail) == Seq::<char>::empty());
    assert(s + Seq::<char>::empty() == s);
}

proof fn lemma_quoted_content_of_doubled(s: Seq<char>, tail: Seq<char>)
    ensures
        quoted_content(quotes_doubled(s) + tail) == s + quoted_content(tail),
    decreases s.len(),
{
    if s.len() == 0 {
        assert(quotes_doubled(s) + tail == tail);
        assert(s + quoted_content(tail) == quoted_content(tail));
    } else {
        let front = s.drop_last();
        let last = s.last();
        if last == '\'' {
            let more = seq!['\'', '\''] + tail;
            assert(quotes_doubled(s) + tail == quotes_doubled(front) + more);
            lemma_quoted_content_of_doubled(front, more);
            assert(more.skip(2) == tail);
            assert(front + (seq!['\''] + quoted_content(tail)) == s + quoted_content(tail));
        } else {
            let more = seq![last] + tail;
            assert(quotes_doubled(s) + tail == quotes_doubled(front) + more);
            lemma_quoted_content_of_doubled(front, more);
            assert(more.skip(1) == tail);
            assert(front + (seq![last] + quoted_content(tail)) == s + quoted_content(tail));
        }
    }
}

// ---------------------------------------------------------------------------
// Numbers
// ---------------------------------------------------------------------------

/// The character of a decimal digit.
pub open spec fn digit(d: nat) -> char {
    (('0' as u32) + d) as char
}

/// A number in decimal, without leading zeros.
pub open spec fn decimal(n: nat) -> Seq<char>
    decreases n,
{
    if n < 10 {
        seq![digit(n)]
    } else {
        decimal(n / 10).push(digit(n % 10))
    }
}

/// A digit stands for itself, and a digit behind a number adds to ten times that
/// number.
pub proof fn law_decimal_has_place_values(n: nat, d: nat)
    requires
        d < 10,
    ensures
        decimal(d).len() == 1,
        decimal(d)[0] as int == '0' as int + d,
        n > 0 ==> decimal(10 * n + d) == decimal(n) + decimal(d),
{
    assert((10 * n + d) / 10 == n && (10 * n + d) % 10 == d);
}

/// A number in decimal, without leading zeros.
pub fn decimal_text(n: u128) -> (s: String)
    ensures
        s@ == decimal(n as nat),
    decreases n,
{
    if n < 10 {
        let mut s = String::new();
        s.push((48u8 + (n as u8)) as char);
        s
    } else {
        let mut s = decimal_text(n / 10);
        s.push((48u8 + ((n % 10) as u8)) as char);
        s
    }
}

/// A text filled up on its left with zeros to three characters.
pub open spec fn padded_to_three(s: Seq<char>) -> Seq<char>
    decreases 3 - s.len(),
{
    if s.len() >= 3 {
        s
    } else {
        padded_to_three(seq!['0'] + s)
    }
}

/// A text is filled up to three characters with zeros before it, and stays as it is
/// where it has as many.
pub proof fn law_zeros_fill_up_to_three(s: Seq<char>)
    ensures
        s.len() >= 3 ==> padded_to_three(s) == s,
        s.len() == 2 ==> padded_to_three(s) == seq!['0'] + s,
        s.len() == 1 ==> padded_to_three(s) == seq!['0', '0'] + s,
        s.len() == 0 ==> padded_to_three(s) == seq!['0', '0', '0'],
{
    reveal_with_fuel(padded_to_three, 4);
    if s.len() == 1 {
        assert(seq!['0'] + (seq!['0'] + s) == seq!['0', '0'] + s);
    }
    if s.len() == 0 {
        assert(seq!['0'] + (seq!['0'] + (seq!['0'] + s)) == seq!['0', '0', '0']);
    }
}

/// A number in decimal, with at least three digits.
pub fn three_digits(n: u32) -> (s: String)
    ensures
        s@ == padded_to_three(decimal(n as nat)),
{
    proof {
        reveal_with_fuel(decimal, 3);
        reveal_with_fuel(padded_to_three, 3);
        reveal_strlit("0");
        reveal_strlit("00");
    }
    let digits = decimal_text(n as u128);
    if n < 10 {
        assert("00"@ + digits@ == seq!['0'] + (seq!['0'] + digits@));
        "00".to_owned().concat(digits.as_str())
    } else if n < 100 {
        assert("0"@ + digits@ == seq!['0'] + digits@);
        "0".to_owned().concat(digits.as_str())
    } else {
        digits
    }
}

// ---------------------------------------------------------------------------
// Pieces of text
// ---------------------------------------------------------------------------

/// The first `n` characters of a text, or all of them where it has fewer.
pub open spec fn at_most(s: Seq<char>, n: nat) -> Seq<char> {
    if s.len() <= n {
        s
    } else {
        s.take(n as int)
    }
}

/// The first characters of a text start it, and are as many as asked for or as there
/// are.
pub proof fn law_first_characters_start_the_text(s: Seq<char>, n: nat)
    ensures
        at_most(s, n).is_prefix_of(s),
        at_most(s, n).len() == (if s.len() <= n {
            s.len()
        } else {
            n
        }),
{
    assert(s.subrange(0, s.len() as int) == s);
}

/// The first `n` characters of a string, or all of them where it has fewer.
pub fn first_chars(s: &str, n: usize) -> (t: String)
    ensures
        t@ == at_most(s@, n as nat),
{
    let chars = chars_of(s);
    let to: usize = if chars.len() <= n {
        chars.len()
    } else {
        n
    };
    assert(chars@.subrange(0, to as int) == at_most(s@, n as nat));
    text_between(&chars, 0, to)
}

} // verus!
