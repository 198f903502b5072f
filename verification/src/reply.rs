//! A successful HTTP answer as plain values: its headers and its body.
use vstd::prelude::*;

verus! {

broadcast use vstd::string::group_string_axioms;

/// An HTTP answer with status 200. Each header appears once, in the order given.
pub struct HttpReply {
    pub headers: Vec<(String, Vec<u8>)>,
    pub body: Vec<u8>,
}

/// A header's name and value bytes.
pub open spec fn header_view(h: (String, Vec<u8>)) -> (Seq<char>, Seq<u8>) {
    (h.0@, h.1@)
}

impl HttpReply {
    /// The headers by their names' characters and their values' bytes.
    pub open spec fn header_list(&self) -> Seq<(Seq<char>, Seq<u8>)> {
        self.headers@.map_values(|h: (String, Vec<u8>)| header_view(h))
    }
}

/// A header whose value is the UTF-8 encoding of `value`.
pub fn text_header(name: &str, value: &str) -> (h: (String, Vec<u8>))
    ensures
        header_view(h) == (name@, vstd::utf8::encode_utf8(value@)),
{
    (name.to_owned(), vstd::slice::slice_to_vec(value.as_bytes()))
}

/// A header whose value is `value`.
pub fn byte_header(name: &str, value: Vec<u8>) -> (h: (String, Vec<u8>))
    ensures
        header_view(h) == (name@, value@),
{
    (name.to_owned(), value)
}

/// A byte that an HTTP header value may hold (`http::HeaderValue::from_str`):
/// a tab, or any byte from 32 up except 127.
pub open spec fn is_header_byte(b: u8) -> bool {
    (b >= 32 && b != 127) || b == 9
}

/// Whether `http::HeaderValue::from_str` accepts `s`.
pub open spec fn is_valid_header_value(s: Seq<char>) -> bool {
    forall|i: int|
        0 <= i < vstd::utf8::encode_utf8(s).len() ==> is_header_byte(
            #[trigger] vstd::utf8::encode_utf8(s)[i],
        )
}

/// Whether `s` is a valid HTTP header value.
pub fn valid_header_value(s: &str) -> (b: bool)
    ensures
        b == is_valid_header_value(s@),
{
    let bytes = s.as_bytes();
    let n = bytes.len();
    let mut i: usize = 0;
    while i < n
        invariant
            n == bytes@.len(),
            bytes@ == vstd::utf8::encode_utf8(s@),
            i <= n,
            forall|j: int| 0 <= j < i ==> is_header_byte(#[trigger] bytes@[j]),
        decreases n - i,
    {
        let b = bytes[i];
        if !((b >= 32 && b != 127) || b == 9) {
            assert(!is_header_byte(bytes@[i as int]));
            return false;
        }
        i = i + 1;
    }
    true
}

/// A byte that `http::HeaderValue::to_str` accepts: a tab or visible ASCII.
pub open spec fn is_visible_ascii(b: u8) -> bool {
    (b >= 32 && b < 127) || b == 9
}

/// A header value as text (`http::HeaderValue::to_str`): its bytes as characters
/// when they are all visible ASCII.
pub open spec fn header_text(value: Seq<u8>) -> Option<Seq<char>> {
    if forall|i: int| 0 <= i < value.len() ==> is_visible_ascii(#[trigger] value[i]) {
        Some(crate::text::ascii_chars(value))
    } else {
        None
    }
}

/// A header value as text, when it is visible ASCII.
pub fn header_str(value: &[u8]) -> (r: Option<String>)
    ensures
        crate::urls::option_view(r) == header_text(value@),
{
    let n = value.len();
    let mut s = String::new();
    let mut i: usize = 0;
    while i < n
        invariant
            n == value@.len(),
            i <= n,
            forall|j: int| 0 <= j < i ==> is_visible_ascii(#[trigger] value@[j]),
            s@ == crate::text::ascii_chars(value@.take(i as int)),
        decreases n - i,
    {
        let b = value[i];
        if !((b >= 32 && b < 127) || b == 9) {
            assert(!is_visible_ascii(value@[i as int]));
            return None;
        }
        crate::text::push_char(&mut s, b as char);
        assert(crate::text::ascii_chars(value@.take(i + 1)) =~= crate::text::ascii_chars(
            value@.take(i as int),
        ).push(b as char));
        i = i + 1;
    }
    assert(value@.take(n as int) =~= value@);
    Some(s)
}

/// The UTF-8 encoding of a string.
pub fn utf8_bytes(s: &str) -> (b: Vec<u8>)
    ensures
        b@ == vstd::utf8::encode_utf8(s@),
{
    vstd::slice::slice_to_vec(s.as_bytes())
}

} // verus!
verus! {

/// A string of printable ASCII characters is a valid header value.
pub proof fn lemma_printable_ascii_header_value(s: Seq<char>)
    requires
        forall|i: int| 0 <= i < s.len() ==> 32 <= #[trigger] (s[i] as u32) < 127,
    ensures
        is_valid_header_value(s),
    decreases s.len(),
{
    if s.len() > 0 {
        lemma_printable_ascii_header_value(s.drop_first());
        let c = s[0] as u32;
        assert(32 <= c < 127);
        assert((c & 0x7F) as u8 == c) by (bit_vector)
            requires
                c < 128,
        ;
        assert(vstd::utf8::encode_scalar(c) == seq![c as u8]);
        let e = vstd::utf8::encode_utf8(s);
        let rest = vstd::utf8::encode_utf8(s.drop_first());
        assert(e == seq![c as u8] + rest);
        assert forall|i: int| 0 <= i < e.len() implies is_header_byte(#[trigger] e[i]) by {
            if i > 0 {
                assert(e[i] == rest[i - 1]);
            }
        }
    }
}

}
