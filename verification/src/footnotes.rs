//! Where a markdown text may hold a footnote definition inside a block quote or
//! a list: the markdown reader of `drova_plugins` looks such a definition up
//! among the top-level ones only, and fails on it.
use vstd::prelude::*;

verus! {

/// Whether a line of `t` starts at `s`.
pub open spec fn is_line_start(t: Seq<char>, s: int) -> bool {
    s == 0 || (0 < s <= t.len() && (t[s - 1] == '\n' || t[s - 1] == '\r'))
}

/// Indentation (and the byte-order mark that may open a document).
pub open spec fn is_indent(c: char) -> bool {
    c == ' ' || c == '\t' || c == '\u{feff}'
}

/// The characters of block-quote and list-item markers other than digits.
pub open spec fn is_container_marker(c: char) -> bool {
    c == '>' || c == '-' || c == '+' || c == '*' || c == '.' || c == ')'
}

/// The characters that may stand before a block on its line: indentation,
/// markers and the digits of ordered list items.
pub open spec fn is_container_prefix(c: char) -> bool {
    is_indent(c) || is_container_marker(c) || ('0' <= c && c <= '9')
}

/// The first character of a block quote or a list item.
pub open spec fn is_container_opener(c: char) -> bool {
    c == '>' || c == '-' || c == '+' || c == '*' || ('0' <= c && c <= '9')
}

/// The line at `s` opens a block quote or a list item at `k`: only
/// indentation comes before.
pub open spec fn opens_container_at(t: Seq<char>, s: int, k: int) -> bool {
    &&& s <= k < t.len()
    &&& forall|j: int| s <= j < k ==> is_indent(#[trigger] t[j])
    &&& is_container_opener(t[k])
}

/// A footnote definition's shape at `i`: `[^`, a label on the same line, `]:`.
pub open spec fn footnote_definition_at(t: Seq<char>, i: int) -> bool {
    exists|e: int|
        #![trigger t[e]]
        i + 2 < e && e + 1 < t.len() && t[i] == '[' && t[i + 1] == '^' && t[e] == ']' && t[e + 1]
            == ':' && forall|k: int| i + 2 <= k < e ==> t[k] != '\n' && t[k] != '\r'
}

/// Whether `t` has a footnote definition that may sit inside a block quote or a
/// list: one behind the markers of a block quote or list item on its line, or
/// behind indentation (and digits) when an earlier line opens a block quote or
/// a list item. Every footnote definition nested in a block quote or a list
/// has this shape; a top-level one has none of it (it starts its line, or
/// follows only indentation with no container opened before).
pub open spec fn nested_footnote_risk(t: Seq<char>) -> bool {
    exists|s: int, i: int|
        #![trigger is_line_start(t, s), footnote_definition_at(t, i)]
        0 <= s < i && is_line_start(t, s) && footnote_definition_at(t, i) && (forall|j: int|
            s <= j < i ==> is_container_prefix(#[trigger] t[j])) && ((exists|j: int|
            s <= j < i && is_container_marker(#[trigger] t[j])) || (exists|p: int, k: int|
            0 <= p < s && is_line_start(t, p) && #[trigger] opens_container_at(t, p, k)))
}

fn is_indent_char(c: char) -> (b: bool)
    ensures
        b == is_indent(c),
{
    c == ' ' || c == '\t' || c == '\u{feff}'
}

fn is_marker_char(c: char) -> (b: bool)
    ensures
        b == is_container_marker(c),
{
    c == '>' || c == '-' || c == '+' || c == '*' || c == '.' || c == ')'
}

fn is_opener_char(c: char) -> (b: bool)
    ensures
        b == is_container_opener(c),
{
    c == '>' || c == '-' || c == '+' || c == '*' || ('0' <= c && c <= '9')
}

/// Whether a footnote definition's shape starts at `i`.
fn definition_at(cs: &Vec<char>, i: usize) -> (b: bool)
    requires
        i < cs@.len(),
    ensures
        b == footnote_definition_at(cs@, i as int),
{
    let ghost t = cs@;
    let n = cs.len();
    if i + 1 >= n || cs[i] != '[' || cs[i + 1] != '^' {
        return false;
    }
    let mut e: usize = i + 2;
    while e < n
        invariant
            t == cs@,
            n == t.len(),
            i + 2 <= e <= n,
            i + 1 < n,
            t[i as int] == '[',
            t[i + 1] == '^',
            forall|k: int| i + 2 <= k < e ==> t[k] != '\n' && t[k] != '\r',
            forall|k: int| #![trigger t[k]] i + 2 < k < e && k + 1 < n ==> !(t[k] == ']' && t[k + 1] == ':'),
        decreases n - e,
    {
        let c = cs[e];
        if c == '\n' || c == '\r' {
            assert forall|x: int| #![trigger t[x]] i + 2 < x && x + 1 < t.len() && t[x] == ']' && t[x
                + 1] == ':' implies !(forall|k: int| i + 2 <= k < x ==> t[k] != '\n' && t[k] != '\r') by {
                if x > e {
                    assert(i + 2 <= e < x);
                }
            }
            return false;
        }
        if e > i + 2 && c == ']' && e + 1 < n && cs[e + 1] == ':' {
            assert(t[e as int] == ']');
            return true;
        }
        e = e + 1;
    }
    assert forall|x: int| #![trigger t[x]] i + 2 < x && x + 1 < t.len() && t[x] == ']' && t[x + 1]
        == ':' implies !(forall|k: int| i + 2 <= k < x ==> t[k] != '\n' && t[k] != '\r') by {
        assert(x < e);
    }
    false
}

/// Whether `text` may hold a footnote definition inside a block quote or a list.
pub fn has_nested_footnote_risk(text: &str) -> (b: bool)
    ensures
        b == nested_footnote_risk(text@),
{
    let cs = crate::text::chars_of(text);
    let ghost t = text@;
    let n = cs.len();
    let mut start: usize = 0;
    let mut prefix_ok = true;
    let mut has_marker = false;
    let mut seen_other = false;
    let mut line_opens = false;
    let mut opened = false;
    let mut i: usize = 0;
    while i < n
        invariant
            cs@ == t,
            t == text@,
            n == t.len(),
            start <= i <= n,
            is_line_start(t, start as int),
            forall|j: int| start <= j < i ==> t[j] != '\n' && t[j] != '\r',
            prefix_ok == (forall|j: int| start <= j < i ==> is_container_prefix(#[trigger] t[j])),
            has_marker == (exists|j: int| start <= j < i && is_container_marker(#[trigger] t[j])),
            seen_other == (exists|j: int| start <= j < i && !is_indent(#[trigger] t[j])),
            line_opens == (exists|k: int| start <= k < i && #[trigger] opens_container_at(t, start as int, k)),
            opened == (exists|p: int, k: int|
                0 <= p < start && is_line_start(t, p) && #[trigger] opens_container_at(t, p, k)),
            forall|s: int, x: int|
                #![trigger is_line_start(t, s), footnote_definition_at(t, x)]
                0 <= s < x < i && is_line_start(t, s) && footnote_definition_at(t, x) ==> !((forall|j: int|
                    s <= j < x ==> is_container_prefix(#[trigger] t[j])) && ((exists|j: int|
                    s <= j < x && is_container_marker(#[trigger] t[j])) || (exists|p: int, k: int|
                    0 <= p < s && is_line_start(t, p) && #[trigger] opens_container_at(t, p, k)))),
        decreases n - i,
    {
        let def = definition_at(&cs, i);
        if prefix_ok && start < i && (has_marker || opened) && def {
            assert(is_line_start(t, start as int) && footnote_definition_at(t, i as int));
            return true;
        }
        proof {
            assert forall|s: int|
                #![trigger is_line_start(t, s)]
                0 <= s < i && is_line_start(t, s) && footnote_definition_at(t, i as int) implies !((forall|j: int|
                    s <= j < i ==> is_container_prefix(#[trigger] t[j])) && ((exists|j: int|
                    s <= j < i && is_container_marker(#[trigger] t[j])) || (exists|p: int, k: int|
                    0 <= p < s && is_line_start(t, p) && #[trigger] opens_container_at(t, p, k)))) by {
                if forall|j: int| s <= j < i ==> is_container_prefix(#[trigger] t[j]) {
                    if s < start {
                        assert(is_container_prefix(t[start - 1]));
                        assert(false);
                    } else if s > start {
                        assert(t[s - 1] == '\n' || t[s - 1] == '\r');
                        assert(false);
                    }
                }
            }
        }
        let c = cs[i];
        if c == '\n' || c == '\r' {
            proof {
                assert forall|p: int, k: int|
                    0 <= p < i + 1 && is_line_start(t, p) && #[trigger] opens_container_at(t, p, k) implies (
                    p < start || (p == start && start <= k < i)) by {
                    if p > start {
                        assert(t[p - 1] == '\n' || t[p - 1] == '\r');
                    }
                    if p == start && k >= i {
                        assert(is_indent(t[i as int]) || is_container_opener(t[i as int]));
                    }
                }
            }
            opened = opened || line_opens;
            start = i + 1;
            prefix_ok = true;
            has_marker = false;
            seen_other = false;
            line_opens = false;
        } else {
            let opens_here = !seen_other && is_opener_char(c);
            proof {
                if opens_here {
                    assert(opens_container_at(t, start as int, i as int));
                }
                assert forall|k: int| start <= k < i + 1 && #[trigger] opens_container_at(t, start as int, k)
                    implies (start <= k < i || (k == i && opens_here)) by {
                    if k == i {
                        assert(!seen_other);
                    }
                }
            }
            line_opens = line_opens || opens_here;
            prefix_ok = prefix_ok && (is_indent_char(c) || is_marker_char(c) || ('0' <= c && c <= '9'));
            has_marker = has_marker || is_marker_char(c);
            seen_other = seen_other || !is_indent_char(c);
        }
        i = i + 1;
    }
    false
}

} // verus!
