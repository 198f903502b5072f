//! Character-level helpers: the mathematical meaning of the string operations the
//! proxy performs (splitting, joining, whitespace, decimal numbers), and verified
//! executable versions of them.
use vstd::prelude::*;

verus! {

broadcast use vstd::string::group_string_axioms;

// ---------------------------------------------------------------------------
// Specifications
// ---------------------------------------------------------------------------

/// The Unicode `White_Space` property (PropList.txt), which `char::is_whitespace`,
/// `str::trim` and `str::split_whitespace` use.
pub open spec fn is_white_space(c: char) -> bool {
    let u = c as u32;
    ||| 0x9 <= u <= 0xD
    ||| u == 0x20
    ||| u == 0x85
    ||| u == 0xA0
    ||| u == 0x1680
    ||| 0x2000 <= u <= 0x200A
    ||| u == 0x2028
    ||| u == 0x2029
    ||| u == 0x202F
    ||| u == 0x205F
    ||| u == 0x3000
}

/// `true` when `str::trim` leaves nothing of `s`.
pub open spec fn is_blank_seq(s: Seq<char>) -> bool {
    forall|i: int| 0 <= i < s.len() ==> is_white_space(#[trigger] s[i])
}

/// The pieces that `str::split(sep)` yields for a single character `sep`:
/// `""` gives `[""]`, `"a,b,"` gives `["a", "b", ""]`.
pub open spec fn split_on(s: Seq<char>, sep: char) -> Seq<Seq<char>>
    decreases s.len(),
{
    if s.len() == 0 {
        seq![Seq::<char>::empty()]
    } else {
        let init = split_on(s.drop_last(), sep);
        if s.last() == sep {
            init.push(Seq::<char>::empty())
        } else {
            init.update(init.len() - 1, init.last().push(s.last()))
        }
    }
}

/// The maximal runs of non-whitespace characters of `s`, in order: what
/// `str::split_whitespace` yields.
pub open spec fn whitespace_tokens(s: Seq<char>) -> Seq<Seq<char>>
    decreases s.len(),
{
    if s.len() == 0 {
        Seq::<Seq<char>>::empty()
    } else {
        let init = whitespace_tokens(s.drop_last());
        let c = s.last();
        if is_white_space(c) {
            init
        } else if s.len() >= 2 && !is_white_space(s[s.len() - 2]) {
            init.update(init.len() - 1, init.last().push(c))
        } else {
            init.push(seq![c])
        }
    }
}

/// The pieces of `parts` with `sep` between each two of them (`[T]::join`).
pub open spec fn join(parts: Seq<Seq<char>>, sep: Seq<char>) -> Seq<char>
    decreases parts.len(),
{
    if parts.len() == 0 {
        Seq::<char>::empty()
    } else if parts.len() == 1 {
        parts[0]
    } else {
        join(parts.drop_last(), sep) + sep + parts.last()
    }
}

/// What follows the last `/` of `s`, or all of `s` when it has none: the first
/// item of `s.rsplit('/')`.
pub open spec fn last_segment(s: Seq<char>) -> Seq<char>
    decreases s.len(),
{
    if s.len() == 0 {
        s
    } else if s.last() == '/' {
        Seq::<char>::empty()
    } else {
        last_segment(s.drop_last()).push(s.last())
    }
}

/// The ASCII digit for `d < 10`.
pub open spec fn digit_char(d: nat) -> char {
    (48 + d) as char
}

/// The decimal notation of `n` (what `Display` writes for an unsigned integer).
pub open spec fn decimal(n: nat) -> Seq<char>
    decreases n,
{
    if n < 10 {
        seq![digit_char(n)]
    } else {
        decimal(n / 10).push(digit_char(n % 10))
    }
}

/// The decimal notation of a signed integer: a `-` before the magnitude when negative.
pub open spec fn signed_decimal(i: int) -> Seq<char> {
    if i >= 0 {
        decimal(i as nat)
    } else {
        seq!['-'] + decimal((-i) as nat)
    }
}

/// The characters of ASCII bytes, one for one.
pub open spec fn ascii_chars(bytes: Seq<u8>) -> Seq<char> {
    bytes.map_values(|b: u8| b as char)
}

// ---------------------------------------------------------------------------
// Trusted access to std
// ---------------------------------------------------------------------------

/// `String::push`: appends one character.
#[verifier::external_body]
pub(crate) fn push_char(s: &mut String, c: char)
    ensures
        final(s)@ == old(s)@.push(c),
{
    s.push(c)
}

/// `char::is_whitespace`: whether `c` has the Unicode `White_Space` property,
/// as the std documentation says.
#[verifier::external_body]
pub(crate) fn char_is_whitespace(c: char) -> (b: bool)
    ensures
        b == is_white_space(c),
{
    c.is_whitespace()
}

// ---------------------------------------------------------------------------
// Verified helpers
// ---------------------------------------------------------------------------

/// The characters of `s`, in order.
pub fn chars_of(s: &str) -> (v: Vec<char>)
    ensures
        v@ == s@,
{
    let mut v: Vec<char> = Vec::new();
    for c in iter: s.chars()
        invariant
            iter.seq() == s@,
            v@ == iter.seq().take(iter.index() as int),
    {
        v.push(c);
    }
    v
}

/// A `String` holding exactly the characters `cs`.
pub fn string_from_chars(cs: &[char]) -> (s: String)
    ensures
        s@ == cs@,
{
    let mut s = String::new();
    let n = cs.len();
    let mut i: usize = 0;
    while i < n
        invariant
            n == cs@.len(),
            i <= n,
            s@ == cs@.take(i as int),
        decreases n - i,
    {
        push_char(&mut s, cs[i]);
        assert(cs@.take(i as int).push(cs@[i as int]) =~= cs@.take(i + 1));
        i = i + 1;
    }
    assert(cs@.take(n as int) =~= cs@);
    s
}

/// An owned copy of a string slice.
pub fn owned(s: &str) -> (r: String)
    ensures
        r@ == s@,
{
    s.to_owned()
}

/// The concatenation of two string slices.
pub fn concat(a: &str, b: &str) -> (r: String)
    ensures
        r@ == a@ + b@,
{
    let mut r = a.to_owned();
    r.append(b);
    r
}

/// Whether two string slices hold the same characters.
pub fn str_eq(a: &str, b: &str) -> (r: bool)
    ensures
        r == (a@ == b@),
{
    let x = a.to_owned();
    let y = b.to_owned();
    x == y
}

/// Whether `s` is empty or made of whitespace only (`s.trim().is_empty()`).
pub fn is_blank(s: &str) -> (r: bool)
    ensures
        r == is_blank_seq(s@),
{
    let cs = chars_of(s);
    let n = cs.len();
    let mut i: usize = 0;
    while i < n
        invariant
            n == cs@.len(),
            cs@ == s@,
            i <= n,
            forall|j: int| 0 <= j < i ==> is_white_space(#[trigger] cs@[j]),
        decreases n - i,
    {
        if !char_is_whitespace(cs[i]) {
            return false;
        }
        i = i + 1;
    }
    true
}

/// The decimal notation of `n`.
pub fn decimal_string(n: u64) -> (s: String)
    ensures
        s@ == decimal(n as nat),
    decreases n,
{
    let d: u8 = (n % 10) as u8;
    let c: char = (48u8 + d) as char;
    if n < 10 {
        let mut s = String::new();
        push_char(&mut s, c);
        s
    } else {
        let mut s = decimal_string(n / 10);
        push_char(&mut s, c);
        s
    }
}

/// The decimal notation of `a - b`, computed without overflow.
pub fn difference_string(a: usize, b: usize) -> (s: String)
    ensures
        s@ == signed_decimal(a - b),
{
    if a >= b {
        decimal_string((a - b) as u64)
    } else {
        let mut s = String::new();
        push_char(&mut s, '-');
        let m = decimal_string((b - a) as u64);
        s.append(m.as_str());
        s
    }
}

/// The characters of `cs` split at each `sep`.
pub fn split_chars(cs: &[char], sep: char) -> (parts: Vec<Vec<char>>)
    ensures
        parts@.map_values(|p: Vec<char>| p@) == split_on(cs@, sep),
{
    let n = cs.len();
    let mut parts: Vec<Vec<char>> = Vec::new();
    parts.push(Vec::new());
    assert(cs@.take(0) =~= Seq::<char>::empty());
    assert(parts@.map_values(|p: Vec<char>| p@) =~= split_on(cs@.take(0), sep));
    let mut i: usize = 0;
    while i < n
        invariant
            n == cs@.len(),
            i <= n,
            parts@.len() > 0,
            parts@.map_values(|p: Vec<char>| p@) == split_on(cs@.take(i as int), sep),
        decreases n - i,
    {
        let c = cs[i];
        let ghost before = parts@.map_values(|p: Vec<char>| p@);
        assert(cs@.take(i + 1).drop_last() =~= cs@.take(i as int));
        assert(cs@.take(i + 1).last() == c);
        if c == sep {
            parts.push(Vec::new());
            assert(parts@.map_values(|p: Vec<char>| p@) =~= before.push(Seq::<char>::empty()));
        } else {
            let last = parts.len() - 1;
            let mut piece = parts.pop().unwrap();
            piece.push(c);
            parts.push(piece);
            assert(parts@.map_values(|p: Vec<char>| p@) =~= before.update(
                last as int,
                before.last().push(c),
            ));
        }
        i = i + 1;
    }
    assert(cs@.take(n as int) =~= cs@);
    parts
}

/// The whitespace-separated tokens of `cs`.
pub fn whitespace_split(cs: &[char]) -> (tokens: Vec<Vec<char>>)
    ensures
        tokens@.map_values(|p: Vec<char>| p@) == whitespace_tokens(cs@),
{
    let n = cs.len();
    let mut tokens: Vec<Vec<char>> = Vec::new();
    let mut in_token = false;
    assert(cs@.take(0) =~= Seq::<char>::empty());
    assert(tokens@.map_values(|p: Vec<char>| p@) =~= whitespace_tokens(cs@.take(0)));
    let mut i: usize = 0;
    while i < n
        invariant
            n == cs@.len(),
            i <= n,
            tokens@.map_values(|p: Vec<char>| p@) == whitespace_tokens(cs@.take(i as int)),
            in_token == (i > 0 && !is_white_space(cs@[i - 1])),
            in_token ==> tokens@.len() > 0,
        decreases n - i,
    {
        let c = cs[i];
        let ghost before = tokens@.map_values(|p: Vec<char>| p@);
        let ghost pre = cs@.take(i + 1);
        assert(pre.drop_last() =~= cs@.take(i as int));
        assert(pre.last() == c);
        if char_is_whitespace(c) {
            in_token = false;
        } else if in_token {
            assert(pre[pre.len() - 2] == cs@[i - 1]);
            let last = tokens.len() - 1;
            let mut tok = tokens.pop().unwrap();
            tok.push(c);
            tokens.push(tok);
            assert(tokens@.map_values(|p: Vec<char>| p@) =~= before.update(
                last as int,
                before.last().push(c),
            ));
        } else {
            if i > 0 {
                assert(pre[pre.len() - 2] == cs@[i - 1]);
            }
            let mut tok: Vec<char> = Vec::new();
            tok.push(c);
            tokens.push(tok);
            assert(tok@ =~= seq![c]);
            assert(tokens@.map_values(|p: Vec<char>| p@) =~= before.push(seq![c]));
            in_token = true;
        }
        i = i + 1;
    }
    assert(cs@.take(n as int) =~= cs@);
    tokens
}

/// The pieces of `parts` joined by `sep`.
pub fn join_chars(parts: &Vec<Vec<char>>, sep: &str) -> (s: String)
    ensures
        s@ == join(parts@.map_values(|p: Vec<char>| p@), sep@),
{
    let ghost views = parts@.map_values(|p: Vec<char>| p@);
    let n = parts.len();
    let mut s = String::new();
    let mut i: usize = 0;
    assert(views.take(0) =~= Seq::<Seq<char>>::empty());
    while i < n
        invariant
            n == parts@.len(),
            views == parts@.map_values(|p: Vec<char>| p@),
            i <= n,
            s@ == join(views.take(i as int), sep@),
        decreases n - i,
    {
        let piece = string_from_chars(parts[i].as_slice());
        assert(views.take(i + 1).drop_last() =~= views.take(i as int));
        assert(views.take(i + 1).last() == parts@[i as int]@);
        if i > 0 {
            s.append(sep);
        } else {
            assert(views.take(1) =~= seq![parts@[0]@]);
        }
        s.append(piece.as_str());
        i = i + 1;
    }
    assert(views.take(n as int) =~= views);
    s
}

/// What follows the last `/` of `s`.
pub fn last_path_segment(s: &str) -> (r: Vec<char>)
    ensures
        r@ == last_segment(s@),
{
    let cs = chars_of(s);
    let n = cs.len();
    let mut r: Vec<char> = Vec::new();
    let mut i: usize = 0;
    assert(cs@.take(0) =~= Seq::<char>::empty());
    while i < n
        invariant
            n == cs@.len(),
            cs@ == s@,
            i <= n,
            r@ == last_segment(cs@.take(i as int)),
        decreases n - i,
    {
        let c = cs[i];
        assert(cs@.take(i + 1).drop_last() =~= cs@.take(i as int));
        assert(cs@.take(i + 1).last() == c);
        if c == '/' {
            r = Vec::new();
            assert(r@ =~= Seq::<char>::empty());
        } else {
            r.push(c);
        }
        i = i + 1;
    }
    assert(cs@.take(n as int) =~= cs@);
    r
}

} // verus!
