//! URL handling through the `url` crate. A URL is carried as its serialization;
//! what the `url` crate computes from it is named, not rebuilt.
use vstd::prelude::*;

verus! {

broadcast use vstd::string::group_string_axioms;

/// What `url::Url::parse` makes of `input`: the serialization of the parsed URL,
/// or the message (`Display`) of the parse error.
pub uninterp spec fn url_parse_result(input: Seq<char>) -> Result<Seq<char>, Seq<char>>;

/// What `url::Url::join` gives when the URL serialized as `base` resolves the
/// reference `input`: the serialization of the result, or `None` when the
/// reference cannot be resolved.
pub uninterp spec fn url_join_result(base: Seq<char>, input: Seq<char>) -> Option<Seq<char>>;

/// The serialization of the URL serialized as `url` after
/// `query_pairs_mut().append_pair(name, value)`; `None` when `url` does not parse.
pub uninterp spec fn url_with_pair(url: Seq<char>, name: Seq<char>, value: Seq<char>) -> Option<
    Seq<char>,
>;

pub open spec fn result_view(r: Result<String, String>) -> Result<Seq<char>, Seq<char>> {
    match r {
        Ok(s) => Ok(s@),
        Err(e) => Err(e@),
    }
}

pub open spec fn option_view(r: Option<String>) -> Option<Seq<char>> {
    match r {
        Some(s) => Some(s@),
        None => None,
    }
}

/// The upper-case hexadecimal digit for `d < 16`.
pub open spec fn hex_digit(d: u8) -> char {
    if d < 10 {
        (48 + d) as char
    } else {
        (55 + d) as char
    }
}

/// Bytes that `application/x-www-form-urlencoded` serialization keeps as they are.
pub open spec fn urlencoded_unchanged(b: u8) -> bool {
    ||| b == 42  // '*'
    ||| b == 45  // '-'
    ||| b == 46  // '.'
    ||| 48 <= b <= 57
    ||| 65 <= b <= 90
    ||| b == 95  // '_'
    ||| 97 <= b <= 122
}

/// The serialization of one byte: kept, `+` for a space, `%XX` otherwise.
pub open spec fn urlencoded_byte(b: u8) -> Seq<char> {
    if urlencoded_unchanged(b) {
        seq![b as char]
    } else if b == 32 {
        seq!['+']
    } else {
        seq!['%', hex_digit(b / 16), hex_digit(b % 16)]
    }
}

/// `form_urlencoded::byte_serialize` of `bytes`: each byte serialized in turn.
pub open spec fn urlencoded_bytes(bytes: Seq<u8>) -> Seq<char> {
    bytes.flat_map(|b: u8| urlencoded_byte(b))
}

/// `form_urlencoded::byte_serialize` of the UTF-8 encoding of `s`.
pub open spec fn form_urlencoded(s: Seq<char>) -> Seq<char> {
    urlencoded_bytes(vstd::utf8::encode_utf8(s))
}

/// Whether `c` is a hexadecimal digit, of either case.
pub open spec fn is_hex_char(c: char) -> bool {
    ('0' <= c && c <= '9') || ('A' <= c && c <= 'F') || ('a' <= c && c <= 'f')
}

/// The value of a hexadecimal digit.
pub open spec fn hex_value(c: char) -> int {
    if '0' <= c && c <= '9' {
        c as int - 48
    } else if 'A' <= c && c <= 'F' {
        c as int - 55
    } else {
        c as int - 87
    }
}

/// The bytes that `application/x-www-form-urlencoded` parsing reads from a
/// value: `+` is a space, `%` and two hexadecimal digits a byte, and any other
/// character its UTF-8 bytes.
pub open spec fn urldecoded_bytes(s: Seq<char>) -> Seq<u8>
    decreases s.len(),
{
    if s.len() == 0 {
        Seq::<u8>::empty()
    } else if s[0] == '+' {
        seq![32u8] + urldecoded_bytes(s.drop_first())
    } else if s[0] == '%' && s.len() >= 3 && is_hex_char(s[1]) && is_hex_char(s[2]) {
        seq![(hex_value(s[1]) * 16 + hex_value(s[2])) as u8] + urldecoded_bytes(
            s.subrange(3, s.len() as int),
        )
    } else {
        vstd::utf8::encode_utf8(seq![s[0]]) + urldecoded_bytes(s.drop_first())
    }
}

/// The text of a form-encoded value, as `form_urlencoded::parse` reads it (for
/// bytes that are valid UTF-8, which its lossy decoding leaves as they are).
pub open spec fn form_urldecoded(s: Seq<char>) -> Seq<char> {
    vstd::utf8::decode_utf8(urldecoded_bytes(s))
}

/// `url::Url::parse`, the URL given back by its serialization, the error by its message.
#[verifier::external_body]
pub(crate) fn parse_url(input: &str) -> (r: Result<String, String>)
    ensures
        result_view(r) == url_parse_result(input@),
{
    url::Url::parse(input).map(|u| u.to_string()).map_err(|e| e.to_string())
}

/// `url::Url::join` on the URL serialized as `base`.
#[verifier::external_body]
pub(crate) fn join_url(base: &str, input: &str) -> (r: Option<String>)
    ensures
        option_view(r) == url_join_result(base@, input@),
{
    url::Url::parse(base).ok()?.join(input).ok().map(|u| u.to_string())
}

/// `query_pairs_mut().append_pair(name, value)` on the URL serialized as `url`.
#[verifier::external_body]
pub(crate) fn append_query_pair(url: &str, name: &str, value: &str) -> (r: Option<String>)
    ensures
        option_view(r) == url_with_pair(url@, name@, value@),
{
    let mut parsed = url::Url::parse(url).ok()?;
    parsed.query_pairs_mut().append_pair(name, value);
    Some(parsed.to_string())
}

/// `form_urlencoded::byte_serialize` of the bytes of `value`, collected into a string.
#[verifier::external_body]
pub(crate) fn form_urlencode(value: &str) -> (r: String)
    ensures
        r@ == form_urlencoded(value@),
{
    url::form_urlencoded::byte_serialize(value.as_bytes()).collect()
}

} // verus!
