//! HTTP headers: the map that `reqwest` sends and receives, and the two things
//! the agent does with it.

use reqwest::header::HeaderMap;
use reqwest::header::HeaderValue;
use vstd::prelude::*;
use vstd::utf8::encode_utf8;
use vstd::utf8::is_ascii_chars;
use vstd::utf8::is_ascii_chars_encode_utf8;

use crate::text::lowered;

verus! {

/// The header map of the `http` crate, as `reqwest` re-exports it.
#[verifier::external_type_specification]
#[verifier::external_body]
#[verifier::reject_recursive_types(T)]
pub struct ExHeaderMap<T>(reqwest::header::HeaderMap<T>);

/// A header value of the `http` crate, as `reqwest` re-exports it.
#[verifier::external_type_specification]
#[verifier::external_body]
pub struct ExHeaderValue(reqwest::header::HeaderValue);

/// For each header name, in small letters, the byte strings of its values, in
/// order.
pub type HeaderContents = Map<Seq<char>, Seq<Seq<u8>>>;

/// What a header map holds, under the names by which `HeaderMap::get` finds it.
pub uninterp spec fn header_contents(headers: HeaderMap<HeaderValue>) -> HeaderContents;

/// The byte strings that a header value may hold: no control characters but the
/// tab.
pub open spec fn valid_value(bytes: Seq<u8>) -> bool {
    forall|i: int|
        0 <= i < bytes.len() ==> (#[trigger] bytes[i] >= 32 && bytes[i] != 127) || bytes[i] == 9
}

/// The byte strings that a header value gives back as text: printable ASCII and
/// the tab.
pub open spec fn visible_value(bytes: Seq<u8>) -> bool {
    forall|i: int|
        0 <= i < bytes.len() ==> 32 <= #[trigger] bytes[i] < 127 || bytes[i] == 9
}

/// A header name written with small letters, digits and hyphens alone.
pub open spec fn plain_name(name: Seq<char>) -> bool {
    &&& 0 < name.len() <= 64
    &&& forall|i: int|
        0 <= i < name.len() ==> 'a' <= #[trigger] name[i] <= 'z' || '0' <= name[i] <= '9' || name[i]
            == '-'
}

/// Calls `HeaderMap::new`: the map is empty.
#[verifier::external_body]
pub(crate) fn no_headers() -> (headers: HeaderMap<HeaderValue>)
    ensures
        header_contents(headers) == HeaderContents::empty(),
{
    HeaderMap::new()
}

/// Calls `HeaderMap::insert` with the value that `HeaderValue::from_str` makes of
/// the text. A text with a byte that no header value may hold is refused, and the
/// map stays as it is; any other becomes the only value of the name. The map must
/// be small: `insert` panics where the map would outgrow its limit of 32768
/// entries.
#[verifier::external_body]
pub(crate) fn set_header(
    headers: &mut HeaderMap<HeaderValue>,
    name: &'static str,
    value: &str,
) -> (accepted: bool)
    requires
        plain_name(name@),
        header_contents(*old(headers)).dom().finite(),
        header_contents(*old(headers)).dom().len() < 1024,
    ensures
        accepted == valid_value(encode_utf8(value@)),
        header_contents(*final(headers)) == (if accepted {
            header_contents(*old(headers)).insert(name@, seq![encode_utf8(value@)])
        } else {
            header_contents(*old(headers))
        }),
{
    match HeaderValue::from_str(value) {
        Ok(value) => {
            headers.insert(name, value);
            true
        },
        Err(_) => false,
    }
}

/// Calls `HeaderMap::get`, which looks a name up without regard to the case of its
/// letters and gives the first value of that name.
#[verifier::external_body]
pub(crate) fn first_value(headers: &HeaderMap<HeaderValue>, name: &str) -> (value: Option<Vec<u8>>)
    ensures
        value is Some <==> header_contents(*headers).dom().contains(lowered(name@)),
        value is Some ==> header_contents(*headers)[lowered(name@)].len() > 0 && value->0@
            == header_contents(*headers)[lowered(name@)][0],
{
    headers.get(name).map(|value| value.as_bytes().to_vec())
}

/// The text that ASCII bytes stand for.
pub open spec fn ascii_text(bytes: Seq<u8>) -> Seq<char> {
    bytes.map_values(|b: u8| b as char)
}

/// The text of a header value, where it is visible.
pub open spec fn value_text(bytes: Seq<u8>) -> Option<Seq<char>> {
    if visible_value(bytes) {
        Some(ascii_text(bytes))
    } else {
        None
    }
}

/// The text of a header value, unless it holds a byte that is not visible ASCII.
pub fn visible_text(bytes: &Vec<u8>) -> (text: Option<String>)
    ensures
        text.deep_view() == value_text(bytes@),
{
    let mut text = String::new();
    let mut i: usize = 0;
    while i < bytes.len()
        invariant
            i <= bytes@.len(),
            text@ == ascii_text(bytes@.take(i as int)),
            visible_value(bytes@.take(i as int)),
        decreases bytes@.len() - i,
    {
        let b = bytes[i];
        if !((32 <= b && b < 127) || b == 9) {
            assert(bytes@[i as int] == b);
            return None;
        }
        text.push(b as char);
        i = i + 1;
        assert(ascii_text(bytes@.take(i as int)) == ascii_text(bytes@.take(i - 1)).push(b as char));
        assert forall|j: int| 0 <= j < i implies 32 <= #[trigger] bytes@.take(i as int)[j] < 127
            || bytes@.take(i as int)[j] == 9 by {
            if j < i - 1 {
                assert(bytes@.take(i - 1)[j] == bytes@[j]);
            }
        }
    }
    assert(bytes@.take(i as int) == bytes@);
    Some(text)
}

/// What `read_header` finds in a map with the given contents.
pub open spec fn header_text(contents: HeaderContents, name: Seq<char>) -> Option<Seq<char>> {
    if contents.dom().contains(lowered(name)) {
        value_text(contents[lowered(name)][0])
    } else {
        None
    }
}

/// The first value of a header, as text. There is none where the header is
/// missing or its value is not visible ASCII.
pub fn read_header(headers: &HeaderMap<HeaderValue>, name: &str) -> (value: Option<String>)
    ensures
        value.deep_view() == header_text(header_contents(*headers), name@),
        match value {
            Some(text) => {
                let contents = header_contents(*headers);
                let bytes = contents[lowered(name@)][0];
                &&& contents.dom().contains(lowered(name@))
                &&& text@.len() == bytes.len()
                &&& forall|i: int|
                    0 <= i < bytes.len() ==> (#[trigger] text@[i]) as int == bytes[i] as int
            },
            None => true,
        },
{
    match first_value(headers, name) {
        Some(bytes) => visible_text(&bytes),
        None => None,
    }
}

/// Header values may hold the tab and every byte but the control characters, and are
/// text where all their bytes are printable ASCII or tabs.
pub proof fn law_bytes_of_header_values(bytes: Seq<u8>)
    ensures
        valid_value(bytes) <==> forall|i: int|
            0 <= i < bytes.len() ==> #[trigger] bytes[i] == 9 || (bytes[i] >= 32 && bytes[i] != 127),
        visible_value(bytes) <==> forall|i: int|
            0 <= i < bytes.len() ==> #[trigger] bytes[i] == 9 || 32 <= bytes[i] <= 126,
{
}

/// A header reads as the first of its values, byte for byte, however its name is
/// capitalised. It has no text exactly where there is no such header or a byte of that
/// value is neither printable ASCII nor a tab.
pub proof fn law_header_reads_as_its_first_value(contents: HeaderContents, name: Seq<char>)
    ensures
        match header_text(contents, name) {
            Some(text) => {
                let bytes = contents[lowered(name)][0];
                &&& contents.dom().contains(lowered(name))
                &&& text.len() == bytes.len()
                &&& forall|i: int|
                    0 <= i < bytes.len() ==> (#[trigger] text[i]) as int == bytes[i] as int && (
                    bytes[i] == 9 || 32 <= bytes[i] <= 126)
            },
            None => !contents.dom().contains(lowered(name)) || exists|i: int|
                0 <= i < contents[lowered(name)][0].len() && {
                    let b = #[trigger] contents[lowered(name)][0][i];
                    b != 9 && !(32 <= b <= 126)
                },
        },
{
}

/// A visible header value reads back as it was written, whatever else the map
/// holds and however the name is capitalised.
pub proof fn law_header_reads_back(
    contents: HeaderContents,
    written: Seq<char>,
    read: Seq<char>,
    value: Seq<char>,
)
    requires
        lowered(read) == written,
        is_ascii_chars(value),
        visible_value(encode_utf8(value)),
    ensures
        header_text(contents.insert(written, seq![encode_utf8(value)]), read) == Some(value),
{
    is_ascii_chars_encode_utf8(value);
    assert(ascii_text(encode_utf8(value)) == value);
}

/// Writing one header leaves the others readable as before.
pub proof fn law_other_headers_stay(
    contents: HeaderContents,
    written: Seq<char>,
    read: Seq<char>,
    value: Seq<u8>,
)
    requires
        lowered(read) != written,
    ensures
        header_text(contents.insert(written, seq![value]), read) == header_text(contents, read),
{
}

} // verus!
