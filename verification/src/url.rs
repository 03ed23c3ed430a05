//! URLs as the `url` crate reads them, which `reqwest` re-exports.

use reqwest::Url;
use vstd::prelude::*;

use crate::text::lowered;

verus! {

/// Pairs of a key and a value.
pub type Pairs = Seq<(Seq<char>, Seq<char>)>;

/// What a sequence of pairs of strings holds.
pub open spec fn pairs_of(pairs: Seq<(String, String)>) -> Pairs {
    pairs.map_values(|pair: (String, String)| (pair.0@, pair.1@))
}

/// `s` without the spaces and control characters that it starts with.
pub open spec fn unpadded(s: Seq<char>) -> Seq<char>
    decreases s.len(),
{
    if s.len() > 0 && s[0] <= ' ' {
        unpadded(s.drop_first())
    } else {
        s
    }
}

/// `s` without its tabs and line breaks.
pub open spec fn unbroken(s: Seq<char>) -> Seq<char> {
    s.filter(|c: char| c != '\t' && c != '\n' && c != '\r')
}

/// The text in which the scheme of a URL is looked for: spaces and control characters
/// before it, and tabs and line breaks anywhere, do not count, nor does the case of
/// its letters.
pub open spec fn url_text(raw: Seq<char>) -> Seq<char> {
    lowered(unbroken(unpadded(raw)))
}

/// What `Url::scheme` gives for the URL that `Url::parse` reads from a text; `None`
/// where it reads none.
pub uninterp spec fn url_scheme(raw: Seq<char>) -> Option<Seq<char>>;

/// What `Url::query_pairs` gives, in its order, for the URL that `Url::parse` reads
/// from a text; `None` where it reads none.
pub uninterp spec fn url_query_pairs(raw: Seq<char>) -> Option<Pairs>;

/// Calls `Url::scheme` on the URL that the text is parsed to. Whether the text is a
/// URL, and its scheme, depend on the text alone. The scheme is what the text starts
/// with, in small letters, up to a colon.
#[verifier::external_body]
pub(crate) fn scheme_of(raw: &str) -> (scheme: Option<String>)
    ensures
        scheme.deep_view() == url_scheme(raw@),
        scheme is Some ==> (scheme->0@ + seq![':']).is_prefix_of(url_text(raw@)),
{
    Url::parse(raw).ok().map(|url| url.scheme().to_string())
}

/// Calls `Url::query_pairs` on the URL that the text is parsed to. Whether the text
/// is a URL, and the decoded pairs of its query, depend on the text alone. A text
/// has such pairs, if only none at all, exactly where it has a scheme.
#[verifier::external_body]
pub(crate) fn query_of(raw: &str) -> (query: Option<Vec<(String, String)>>)
    ensures
        query is Some <==> url_query_pairs(raw@) is Some,
        query is Some <==> url_scheme(raw@) is Some,
        query is Some ==> pairs_of(query->0@) == url_query_pairs(raw@)->0,
{
    Url::parse(raw).ok().map(|url| url.query_pairs().into_owned().collect())
}

/// The pairs of some strings are their own, one for one.
pub proof fn law_pairs_are_those_of_the_strings(pairs: Seq<(String, String)>)
    ensures
        pairs_of(pairs).len() == pairs.len(),
        forall|i: int|
            0 <= i < pairs.len() ==> (#[trigger] pairs_of(pairs)[i]).0 == pairs[i].0@
                && pairs_of(pairs)[i].1 == pairs[i].1@,
{
}

/// What counts of a text is not changed by a space or a control character before it,
/// nor by a tab or a line break behind it; and every other character, once there is
/// one that is no padding, counts by its small letter.
pub proof fn law_what_counts_of_a_url(s: Seq<char>, c: char)
    ensures
        c <= ' ' ==> url_text(seq![c] + s) == url_text(s),
        unpadded(s).len() > 0 && (c == '\t' || c == '\n' || c == '\r') ==> url_text(s.push(c))
            == url_text(s),
        unpadded(s).len() > 0 && c != '\t' && c != '\n' && c != '\r' ==> url_text(s.push(c))
            == url_text(s) + lowered(seq![c]),
        c > ' ' ==> url_text(seq![c]) == lowered(seq![c]),
        url_text(Seq::empty()) == Seq::<char>::empty(),
{
    let one = seq![c];
    assert((one + s).drop_first() == s);
    assert(s.push(c) == s + one);
    assert(one.drop_last() == Seq::<char>::empty());
    reveal(Seq::filter);
    if unpadded(s).len() > 0 {
        lemma_url_text_grows(s, one);
    }
    assert(unbroken(Seq::empty()) == Seq::<char>::empty());
    if c == '\t' || c == '\n' || c == '\r' {
        assert(unbroken(one) == Seq::<char>::empty());
        assert(url_text(s) + lowered(unbroken(one)) == url_text(s));
    } else {
        assert(unbroken(one) == one);
    }
}

/// What is appended to a text that is more than padding comes out behind it.
proof fn lemma_unpadded_grows(s: Seq<char>, tail: Seq<char>)
    requires
        unpadded(s).len() > 0,
    ensures
        unpadded(s + tail) == unpadded(s) + tail,
    decreases s.len(),
{
    if s.len() > 0 && s[0] <= ' ' {
        lemma_unpadded_grows(s.drop_first(), tail);
        assert((s + tail).drop_first() == s.drop_first() + tail);
    }
}

/// Nothing but padding is passed over.
proof fn lemma_padding_is_passed_over(s: Seq<char>, tail: Seq<char>)
    requires
        unpadded(s).len() == 0,
    ensures
        unpadded(s + tail) == unpadded(tail),
    decreases s.len(),
{
    if s.len() == 0 {
        assert(s + tail == tail);
    } else {
        lemma_padding_is_passed_over(s.drop_first(), tail);
        assert((s + tail).drop_first() == s.drop_first() + tail);
    }
}

/// What is appended to a text that is more than padding is read behind it.
pub proof fn lemma_url_text_grows(s: Seq<char>, tail: Seq<char>)
    requires
        unpadded(s).len() > 0,
    ensures
        url_text(s + tail) == url_text(s) + lowered(unbroken(tail)),
{
    lemma_unpadded_grows(s, tail);
    Seq::filter_distributes_over_add(
        unpadded(s),
        tail,
        |c: char| c != '\t' && c != '\n' && c != '\r',
    );
    assert(url_text(s + tail) == url_text(s) + lowered(unbroken(tail)));
}

/// A path, which starts with a slash, is read from that slash on.
proof fn lemma_path_starts_with_its_slash(path: Seq<char>)
    requires
        path.len() > 0,
        path[0] == '/',
    ensures
        unpadded(path) == path,
        lowered(unbroken(path)).len() > 0,
        lowered(unbroken(path))[0] == '/',
{
    let slash = seq!['/'];
    let keep = |c: char| c != '\t' && c != '\n' && c != '\r';
    assert(path == slash + path.drop_first());
    Seq::filter_distributes_over_add(slash, path.drop_first(), keep);
    assert(slash.filter(keep) == slash) by {
        reveal(Seq::filter);
        assert(slash.drop_last() == Seq::<char>::empty());
        assert(slash.drop_last().filter(keep) == Seq::<char>::empty());
    }
}

/// What a text with a path behind it starts with, the text itself starts with, where
/// there is no slash in it.
pub proof fn lemma_start_is_before_the_path(s: Seq<char>, path: Seq<char>, start: Seq<char>)
    requires
        path.len() > 0,
        path[0] == '/',
        start.len() > 0,
        forall|i: int| 0 <= i < start.len() ==> #[trigger] start[i] != '/',
        start.is_prefix_of(url_text(s + path)),
    ensures
        start.is_prefix_of(url_text(s)),
        unpadded(s).len() > 0,
{
    lemma_path_starts_with_its_slash(path);
    let whole = url_text(s + path);
    assert(whole.subrange(0, start.len() as int) == start);
    if unpadded(s).len() == 0 {
        lemma_padding_is_passed_over(s, path);
        assert(start[0] == whole[0]);
    } else {
        lemma_url_text_grows(s, path);
        let n = url_text(s).len() as int;
        if n < start.len() {
            assert(start[n] == whole[n]);
        }
        assert(url_text(s).subrange(0, start.len() as int) == start);
    }
}

} // verus!
