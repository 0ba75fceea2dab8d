use vstd::prelude::*;
use vstd::string::StrSliceExecFns;
use vstd::utf8::{decode_utf8, valid_utf8};

verus! {

/// The marker that opens an event's data line.
pub open spec fn data_marker() -> Seq<char> {
    seq!['d', 'a', 't', 'a', ':', ' ']
}

/// The characters that carry the Unicode `White_Space` property.
pub open spec fn is_white_space(c: char) -> bool {
    ('\u{9}' <= c && c <= '\u{d}') || c == ' ' || c == '\u{85}' || c == '\u{a0}' || c
        == '\u{1680}' || ('\u{2000}' <= c && c <= '\u{200a}') || c == '\u{2028}' || c
        == '\u{2029}' || c == '\u{202f}' || c == '\u{205f}' || c == '\u{3000}'
}

/// `s` without its leading white space.
pub open spec fn trim_start_ws(s: Seq<char>) -> Seq<char>
    decreases s.len(),
{
    if s.len() > 0 && is_white_space(s[0]) {
        trim_start_ws(s.drop_first())
    } else {
        s
    }
}

/// `s` without its trailing white space.
pub open spec fn trim_end_ws(s: Seq<char>) -> Seq<char>
    decreases s.len(),
{
    if s.len() > 0 && is_white_space(s.last()) {
        trim_end_ws(s.drop_last())
    } else {
        s
    }
}

/// `s` without its leading and trailing white space.
pub open spec fn trim_ws(s: Seq<char>) -> Seq<char> {
    trim_end_ws(trim_start_ws(s))
}

/// The text of a chunk: its UTF-8 decoding, or nothing where it is not UTF-8.
pub open spec fn chunk_text(chunk: Seq<u8>) -> Seq<char> {
    if valid_utf8(chunk) {
        decode_utf8(chunk)
    } else {
        Seq::empty()
    }
}

/// Whether `text` opens with the data marker.
pub open spec fn is_data_line(text: Seq<char>) -> bool {
    text.len() >= data_marker().len() && text.subrange(0, data_marker().len() as int)
        == data_marker()
}

/// The payload that a chunk carries: what follows the data marker in its
/// text, trimmed; none where the text does not open with the marker.
pub open spec fn payload_of(chunk: Seq<u8>) -> Option<Seq<char>> {
    let text = chunk_text(chunk);
    if is_data_line(text) {
        Some(trim_ws(text.subrange(data_marker().len() as int, text.len() as int)))
    } else {
        None
    }
}

/// Relies on std::str::from_utf8: it accepts exactly the valid UTF-8
/// sequences, and the text it returns is their decoding.
#[verifier::external_body]
fn decode_text(bytes: &[u8]) -> (r: Option<String>)
    ensures
        r is Some <==> valid_utf8(bytes@),
        r matches Some(s) ==> s@ == decode_utf8(bytes@),
{
    std::str::from_utf8(bytes).ok().map(|s| s.to_string())
}

/// Relies on str::trim: it removes leading and trailing `White_Space`
/// characters and keeps the rest.
#[verifier::external_body]
fn trim_text(s: &str) -> (r: String)
    ensures
        r@ == trim_ws(s@),
{
    s.trim().to_string()
}

/// The text of `chunk`: its UTF-8 decoding, or the empty string where the
/// bytes are not valid UTF-8.
pub fn chunk_to_text(chunk: &[u8]) -> (r: String)
    ensures
        r@ == chunk_text(chunk@),
{
    match decode_text(chunk) {
        Some(s) => s,
        None => String::new(),
    }
}

/// Whether `text` opens with the data marker `"data: "`.
pub fn starts_with_data_marker(text: &str) -> (r: bool)
    ensures
        r == is_data_line(text@),
{
    let marker: [char; 6] = ['d', 'a', 't', 'a', ':', ' '];
    let n = text.unicode_len();
    if n < 6 {
        return false;
    }
    let mut i: usize = 0;
    while i < 6
        invariant
            i <= 6,
            n == text@.len(),
            n >= 6,
            marker@ == data_marker(),
            forall|j: int| 0 <= j < i ==> text@[j] == data_marker()[j],
        decreases 6 - i,
    {
        if text.get_char(i) != marker[i] {
            assert(text@.subrange(0, 6)[i as int] != data_marker()[i as int]);
            return false;
        }
        i = i + 1;
    }
    assert(text@.subrange(0, 6) =~= data_marker());
    true
}

/// Extracts the event payload that one chunk of the stream carries: the
/// text after the leading `"data: "`, with surrounding white space trimmed.
/// A chunk that is not UTF-8, or whose text does not open with the marker,
/// carries none.
pub fn extract_payload(chunk: &[u8]) -> (r: Option<String>)
    ensures
        r is Some <==> payload_of(chunk@) is Some,
        r matches Some(p) ==> payload_of(chunk@) == Some(p@),
{
    let text = chunk_to_text(chunk);
    let s = text.as_str();
    if !starts_with_data_marker(s) {
        return None;
    }
    let n = s.unicode_len();
    let rest = s.substring_char(6, n);
    Some(trim_text(rest))
}

} // verus!
