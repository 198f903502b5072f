//! Properties of the proxy that hold across its functions and for all inputs.
use vstd::prelude::*;

use crate::config::{
    all_digits, config_from, digits_value, is_ascii_digit, opt_view, parsed_unsigned, Config, EnvVars,
};
use crate::drova::{
    char_uppercase, plugin_outputs, spec_output_alias, spec_output_label, spec_output_options,
    spec_uppercase, OutputOption,
};
use crate::links::{
    spec_direct_url, spec_image_step, spec_link_url, spec_responsive_step, spec_rewrite_attr,
    spec_rewrite_element, spec_srcset_step, LinkKind, RewriteOptions,
};
use crate::proxy::spec_resized_size;
use crate::routes::{
    search_flags, spec_api_options, spec_api_rewrites, spec_page_options, spec_search_redirect,
    ApiRequest, GetParams, SearchParams,
};
use crate::text::{decimal, digit_char, last_segment};
use crate::urls::{
    url_join_result, url_with_pair, form_urldecoded, form_urlencoded, hex_digit, hex_value, is_hex_char, urldecoded_bytes,
    urlencoded_byte, urlencoded_bytes,
};

verus! {

// ---------------------------------------------------------------------------
// Output formats
// ---------------------------------------------------------------------------

/// Resolving an output format name twice gives what resolving it once gives:
/// a resolved format is accepted as itself.
pub proof fn law_output_alias_idempotent(name: Seq<char>)
    ensures
        spec_output_alias(spec_output_alias(name)) == spec_output_alias(name),
{
    reveal_strlit("html");
    reveal_strlit("dalet");
    reveal_strlit("daletpack");
    reveal_strlit("text/html");
    reveal_strlit("application/daletpack");
    assert("html"@.len() == 4);
    assert("dalet"@.len() == 5);
    assert("daletpack"@.len() == 9);
    assert(crate::drova::HTML_OUTPUT@.len() == 9);
    assert(crate::drova::DALETPACK_OUTPUT@.len() == 21);
    assert(crate::drova::HTML_OUTPUT@ != "daletpack"@) by {
        assert(crate::drova::HTML_OUTPUT@[0] != "daletpack"@[0]);
    }
}

/// The two output formats differ, so no format is both HTML and daletpack; an
/// accepted format is a full MIME type, never one of the short names.
pub proof fn law_output_formats_distinct(name: Seq<char>)
    ensures
        crate::drova::HTML_OUTPUT@ != crate::drova::DALETPACK_OUTPUT@,
        plugin_outputs().contains(spec_output_alias(name)) ==> spec_output_alias(name) != "html"@
            && spec_output_alias(name) != "dalet"@ && spec_output_alias(name) != "daletpack"@,
{
    reveal_strlit("html");
    reveal_strlit("dalet");
    reveal_strlit("daletpack");
    reveal_strlit("text/html");
    reveal_strlit("application/daletpack");
    assert(crate::drova::HTML_OUTPUT@.len() == 9);
    assert(crate::drova::DALETPACK_OUTPUT@.len() == 21);
    assert("html"@.len() == 4);
    assert("dalet"@.len() == 5);
    assert("daletpack"@.len() == 9);
    assert(crate::drova::HTML_OUTPUT@ != "daletpack"@) by {
        assert(crate::drova::HTML_OUTPUT@[0] != "daletpack"@[0]);
    }
    if plugin_outputs().contains(spec_output_alias(name)) {
        let k = choose|k: int| 0 <= k < plugin_outputs().len() && plugin_outputs()[k] == spec_output_alias(name);
        assert(k == 0 || k == 1);
    }
}

/// The labels of ASCII output formats never hold `/`: a label is made from what
/// follows the last `/`.
pub proof fn law_ascii_label_has_no_slash(output_type: Seq<char>)
    requires
        forall|i: int| 0 <= i < output_type.len() ==> (#[trigger] output_type[i] as u32) < 128,
    ensures
        forall|i: int|
            0 <= i < spec_output_label(output_type).len() ==> #[trigger] spec_output_label(
                output_type,
            )[i] != '/',
{
    lemma_last_segment_ascii(output_type);
    let name = last_segment(output_type);
    if vstd::utf8::encode_utf8(name).len() <= 4 {
        lemma_uppercase_no_slash(name);
    } else if name.len() > 0 {
        let up = char_uppercase(name[0]);
        let rest = name.drop_first();
        let l = up + rest;
        assert(spec_output_label(output_type) == l);
        assert forall|i: int| 0 <= i < l.len() implies #[trigger] l[i] != '/' by {
            if i >= up.len() {
                assert(l[i] == name[i - up.len() + 1]);
            }
        }
    }
}

proof fn lemma_last_segment_ascii(s: Seq<char>)
    requires
        forall|i: int| 0 <= i < s.len() ==> (#[trigger] s[i] as u32) < 128,
    ensures
        forall|i: int|
            0 <= i < last_segment(s).len() ==> (#[trigger] last_segment(s)[i] as u32) < 128
                && last_segment(s)[i] != '/',
    decreases s.len(),
{
    if s.len() > 0 && s.last() != '/' {
        let init = s.drop_last();
        assert forall|i: int| 0 <= i < init.len() implies (#[trigger] init[i] as u32) < 128 by {
            assert(init[i] == s[i]);
        }
        lemma_last_segment_ascii(init);
        let l = last_segment(s);
        assert forall|i: int| 0 <= i < l.len() implies (#[trigger] l[i] as u32) < 128 && l[i] != '/' by {
            if i < l.len() - 1 {
                assert(l[i] == last_segment(init)[i]);
            } else {
                assert(l[i] == s.last());
            }
        }
    }
}

proof fn lemma_uppercase_no_slash(name: Seq<char>)
    requires
        forall|i: int| 0 <= i < name.len() ==> (#[trigger] name[i] as u32) < 128 && name[i] != '/',
    ensures
        forall|i: int| 0 <= i < spec_uppercase(name).len() ==> #[trigger] spec_uppercase(name)[i] != '/',
    decreases name.len(),
{
    let f = |c: char| char_uppercase(c);
    if name.len() == 0 {
        assert(spec_uppercase(name) =~= Seq::<char>::empty()) by {
            assert(name.map_values(f) =~= Seq::<Seq<char>>::empty());
        }
    } else {
        let init = name.drop_last();
        assert forall|i: int| 0 <= i < init.len() implies (#[trigger] init[i] as u32) < 128 && init[i] != '/' by {
            assert(init[i] == name[i]);
        }
        lemma_uppercase_no_slash(init);
        init.lemma_flat_map_push(f, name.last());
        assert(init.push(name.last()) =~= name);
        let left = spec_uppercase(init);
        let right = char_uppercase(name.last());
        assert(spec_uppercase(name) =~= left + right);
        assert forall|i: int| 0 <= i < spec_uppercase(name).len() implies #[trigger] spec_uppercase(name)[i] != '/' by {
            if i < left.len() {
                assert(spec_uppercase(name)[i] == left[i]);
            } else {
                assert(spec_uppercase(name)[i] == right[i - left.len()]);
            }
        }
    }
}

/// Of the output options, exactly the one whose format is the selected one is
/// marked: one when the selected format is offered, none otherwise.
pub proof fn law_one_option_selected(selected: Seq<char>, options: Seq<OutputOption>)
    requires
        spec_output_options(plugin_outputs(), selected, options),
    ensures
        forall|i: int, j: int|
            0 <= i < options.len() && 0 <= j < options.len() && options[i].selected
                && options[j].selected ==> i == j,
        plugin_outputs().contains(selected) <==> exists|i: int|
            0 <= i < options.len() && #[trigger] options[i].selected,
{
    reveal_strlit("text/html");
    reveal_strlit("application/daletpack");
    assert(plugin_outputs()[0].len() != plugin_outputs()[1].len());
    assert(options.len() == 2);
    let _ = options[0];
    let _ = options[1];
    if plugin_outputs().contains(selected) {
        let k = choose|k: int| 0 <= k < plugin_outputs().len() && plugin_outputs()[k] == selected;
        assert(options[k].selected);
    }
}

// ---------------------------------------------------------------------------
// Link rewriting
// ---------------------------------------------------------------------------

/// The attributes that link rewriting may set.
pub open spec fn is_link_attr(k: Seq<char>) -> bool {
    k == "href"@ || k == "src"@ || k == "data"@ || k == "srcset"@ || k == "sizes"@
}

/// `b` differs from `a` at most in link attributes, keeps every attribute of
/// `a`, and adds at most `srcset` and `sizes`.
pub open spec fn changes_only_links(a: Map<Seq<char>, Seq<char>>, b: Map<Seq<char>, Seq<char>>) -> bool {
    &&& forall|k: Seq<char>|
        !is_link_attr(k) ==> (#[trigger] b.contains_key(k) == a.contains_key(k) && (
        a.contains_key(k) ==> b[k] == a[k]))
    &&& forall|k: Seq<char>| #[trigger] a.contains_key(k) ==> b.contains_key(k)
    &&& forall|k: Seq<char>|
        #[trigger] b.contains_key(k) && !a.contains_key(k) ==> k == "srcset"@ || k == "sizes"@
}

proof fn lemma_changes_trans(
    a: Map<Seq<char>, Seq<char>>,
    b: Map<Seq<char>, Seq<char>>,
    c: Map<Seq<char>, Seq<char>>,
)
    requires
        changes_only_links(a, b),
        changes_only_links(b, c),
    ensures
        changes_only_links(a, c),
{
}

proof fn lemma_insert_existing_link(a: Map<Seq<char>, Seq<char>>, k: Seq<char>, v: Seq<char>)
    requires
        is_link_attr(k),
        a.contains_key(k),
    ensures
        changes_only_links(a, a.insert(k, v)),
{
}

proof fn lemma_rewrite_attr_changes(
    a: Map<Seq<char>, Seq<char>>,
    name: Seq<char>,
    request: Seq<char>,
    remote: Seq<char>,
    options: RewriteOptions,
    kind: LinkKind,
)
    requires
        is_link_attr(name),
    ensures
        changes_only_links(a, spec_rewrite_attr(a, name, request, remote, options, kind)),
{
    if a.contains_key(name) {
        match spec_link_url(request, remote, options, kind, a[name]) {
            Some(v) => lemma_insert_existing_link(a, name, v),
            None => {},
        }
    }
}

proof fn lemma_image_step_changes(
    a: Map<Seq<char>, Seq<char>>,
    request: Seq<char>,
    remote: Seq<char>,
    options: RewriteOptions,
)
    ensures
        changes_only_links(a, spec_image_step(a, request, remote, options)),
{
    let b = spec_responsive_step(a, request, remote, options);
    assert(changes_only_links(a, b));
    lemma_rewrite_attr_changes(b, "src"@, request, remote, options, LinkKind::Image);
    lemma_changes_trans(a, b, spec_image_step(a, request, remote, options));
}

/// Rewriting an element's links changes only its `href`, `src`, `data`,
/// `srcset` and `sizes` attributes, removes none, and adds at most `srcset`
/// and `sizes`.
pub proof fn law_rewrite_changes_only_links(
    tag: Seq<char>,
    attrs: Map<Seq<char>, Seq<char>>,
    request: Seq<char>,
    remote: Seq<char>,
    options: RewriteOptions,
)
    ensures
        changes_only_links(attrs, spec_rewrite_element(tag, attrs, request, remote, options)),
{
    let has_href = attrs.contains_key("href"@);
    let has_src = attrs.contains_key("src"@);
    let a1 = if tag == "a"@ && has_href {
        spec_rewrite_attr(attrs, "href"@, request, remote, options, LinkKind::Document)
    } else {
        attrs
    };
    lemma_rewrite_attr_changes(attrs, "href"@, request, remote, options, LinkKind::Document);
    let a2 = if (tag == "frame"@ || tag == "iframe"@) && has_src {
        spec_rewrite_attr(a1, "src"@, request, remote, options, LinkKind::Document)
    } else {
        a1
    };
    lemma_rewrite_attr_changes(a1, "src"@, request, remote, options, LinkKind::Document);
    lemma_changes_trans(attrs, a1, a2);
    let a3 = if (tag == "video"@ || tag == "audio"@ || tag == "source"@) && has_src {
        spec_rewrite_attr(a2, "src"@, request, remote, options, LinkKind::Media)
    } else {
        a2
    };
    lemma_rewrite_attr_changes(a2, "src"@, request, remote, options, LinkKind::Media);
    lemma_changes_trans(attrs, a2, a3);
    let a4 = if (tag == "embed"@ || tag == "track"@) && has_src {
        spec_rewrite_attr(a3, "src"@, request, remote, options, LinkKind::File)
    } else {
        a3
    };
    lemma_rewrite_attr_changes(a3, "src"@, request, remote, options, LinkKind::File);
    lemma_changes_trans(attrs, a3, a4);
    let a5 = if tag == "object"@ && attrs.contains_key("data"@) {
        spec_rewrite_attr(a4, "data"@, request, remote, options, LinkKind::File)
    } else {
        a4
    };
    lemma_rewrite_attr_changes(a4, "data"@, request, remote, options, LinkKind::File);
    lemma_changes_trans(attrs, a4, a5);
    let a6 = if (tag == "img"@ || tag == "image"@) && has_src {
        spec_image_step(a5, request, remote, options)
    } else {
        a5
    };
    lemma_image_step_changes(a5, request, remote, options);
    lemma_changes_trans(attrs, a5, a6);
    let a7 = if (tag == "source"@ || tag == "img"@) && attrs.contains_key("srcset"@) {
        spec_srcset_step(a6, request, remote, options)
    } else {
        a6
    };
    assert(changes_only_links(a6, spec_srcset_step(a6, request, remote, options)));
    lemma_changes_trans(attrs, a6, a7);
}

/// The tags whose links are rewritten.
pub open spec fn is_rewritten_tag(tag: Seq<char>) -> bool {
    ||| tag == "a"@
    ||| tag == "frame"@
    ||| tag == "iframe"@
    ||| tag == "video"@
    ||| tag == "audio"@
    ||| tag == "source"@
    ||| tag == "embed"@
    ||| tag == "track"@
    ||| tag == "object"@
    ||| tag == "img"@
    ||| tag == "image"@
}

/// Elements of any other tag are left as they are.
pub proof fn law_other_elements_untouched(
    tag: Seq<char>,
    attrs: Map<Seq<char>, Seq<char>>,
    request: Seq<char>,
    remote: Seq<char>,
    options: RewriteOptions,
)
    requires
        !is_rewritten_tag(tag),
    ensures
        spec_rewrite_element(tag, attrs, request, remote, options) == attrs,
{
}

/// When nothing goes through the proxy and images are not re-encoded, every link
/// becomes the plain absolute URL it stands for.
pub proof fn law_direct_links_when_not_proxied(
    request: Seq<char>,
    remote: Seq<char>,
    options: RewriteOptions,
    kind: LinkKind,
    href: Seq<char>,
)
    requires
        !options.proxy_documents,
        !options.proxy_images,
        !options.proxy_media,
        !options.proxy_files,
        !options.process_images,
    ensures
        spec_link_url(request, remote, options, kind, href) == spec_direct_url(remote, href),
{
}

// ---------------------------------------------------------------------------
// The server's settings bound what visitors can ask for
// ---------------------------------------------------------------------------

/// The reader page never sends through the proxy, nor re-encodes, what the
/// server's settings exclude.
pub proof fn law_page_options_within_server(config: Config, params: GetParams, o: RewriteOptions)
    requires
        spec_page_options(config, params, o),
    ensures
        o.proxy_documents ==> config.proxy.documents,
        o.proxy_images ==> config.proxy.images,
        o.proxy_media ==> config.proxy.media,
        o.proxy_files ==> config.proxy.files,
        o.process_images ==> config.proxy.process_images,
{
}

/// An API request never sends through the proxy, nor re-encodes, what the
/// server's settings exclude.
pub proof fn law_api_options_within_server(config: Config, request: ApiRequest, o: RewriteOptions)
    requires
        spec_api_options(config, request, o),
    ensures
        o.proxy_documents ==> config.proxy.documents,
        o.proxy_images ==> config.proxy.images,
        o.proxy_media ==> config.proxy.media,
        o.proxy_files ==> config.proxy.files,
        o.process_images ==> config.proxy.process_images,
{
}

// ---------------------------------------------------------------------------
// Query encoding
// ---------------------------------------------------------------------------

/// The characters that form encoding writes: letters, digits, `*-._`, `+`, `%`.
pub open spec fn is_form_char(c: char) -> bool {
    ||| 'a' <= c <= 'z'
    ||| 'A' <= c <= 'Z'
    ||| '0' <= c <= '9'
    ||| c == '*'
    ||| c == '-'
    ||| c == '.'
    ||| c == '_'
    ||| c == '+'
    ||| c == '%'
}

proof fn lemma_byte_form_chars(b: u8)
    ensures
        forall|i: int| 0 <= i < urlencoded_byte(b).len() ==> is_form_char(#[trigger] urlencoded_byte(b)[i]),
{
    let hi = b / 16;
    let lo = b % 16;
    assert(is_form_char(hex_digit(hi)));
    assert(is_form_char(hex_digit(lo)));
}

proof fn lemma_bytes_form_chars(bytes: Seq<u8>)
    ensures
        forall|i: int|
            0 <= i < urlencoded_bytes(bytes).len() ==> is_form_char(
                #[trigger] urlencoded_bytes(bytes)[i],
            ),
    decreases bytes.len(),
{
    if bytes.len() > 0 {
        let init = bytes.drop_last();
        lemma_bytes_form_chars(init);
        lemma_byte_form_chars(bytes.last());
        init.lemma_flat_map_push(|b: u8| urlencoded_byte(b), bytes.last());
        assert(init.push(bytes.last()) =~= bytes);
        let left = urlencoded_bytes(init);
        let right = urlencoded_byte(bytes.last());
        assert(urlencoded_bytes(bytes) =~= left + right);
        assert forall|i: int| 0 <= i < urlencoded_bytes(bytes).len() implies is_form_char(
            #[trigger] urlencoded_bytes(bytes)[i],
        ) by {
            if i < left.len() {
                assert(urlencoded_bytes(bytes)[i] == left[i]);
            } else {
                assert(urlencoded_bytes(bytes)[i] == right[i - left.len()]);
            }
        }
    } else {
        assert(urlencoded_bytes(bytes) =~= Seq::<char>::empty()) by {
            assert(bytes.map_values(|b: u8| urlencoded_byte(b)) =~= Seq::<Seq<char>>::empty());
        }
    }
}

/// A form-encoded value is made of letters, digits, `*-._`, `+` and `%` only:
/// it can hold no `&`, `=`, `#` or `?`, so a value never adds query parameters.
pub proof fn law_form_encoding_is_inert(value: Seq<char>)
    ensures
        forall|i: int| 0 <= i < form_urlencoded(value).len() ==> is_form_char(#[trigger] form_urlencoded(value)[i]),
{
    lemma_bytes_form_chars(vstd::utf8::encode_utf8(value));
}

proof fn lemma_urlencoded_bytes_first(bytes: Seq<u8>)
    requires
        bytes.len() > 0,
    ensures
        urlencoded_bytes(bytes) == urlencoded_byte(bytes[0]) + urlencoded_bytes(bytes.drop_first()),
{
    let f = |b: u8| urlencoded_byte(b);
    assert(bytes.map_values(f).drop_first() =~= bytes.drop_first().map_values(f));
    assert(bytes.map_values(f).flatten() == bytes.map_values(f)[0] + bytes.map_values(
        f,
    ).drop_first().flatten());
}

proof fn lemma_hex_digit_value(d: u8)
    requires
        d < 16,
    ensures
        is_hex_char(hex_digit(d)),
        hex_value(hex_digit(d)) == d,
{
}

proof fn lemma_byte_decodes(b: u8, rest: Seq<char>)
    ensures
        urldecoded_bytes(urlencoded_byte(b) + rest) == seq![b] + urldecoded_bytes(rest),
{
    let e = urlencoded_byte(b) + rest;
    if crate::urls::urlencoded_unchanged(b) {
        let c = b as char;
        assert(e[0] == c);
        assert(e.drop_first() =~= rest);
        let u = c as u32;
        assert(u == b);
        assert((u & 0x7F) as u8 == u) by (bit_vector)
            requires
                u < 128,
        ;
        assert(vstd::utf8::encode_utf8(seq![c]) =~= vstd::utf8::encode_scalar(u) + vstd::utf8::encode_utf8(
            seq![c].drop_first(),
        ));
        assert(seq![c].drop_first() =~= Seq::<char>::empty());
        assert(vstd::utf8::encode_utf8(seq![c]) =~= seq![b]);
    } else if b == 32 {
        assert(e[0] == '+');
        assert(e.drop_first() =~= rest);
    } else {
        lemma_hex_digit_value(b / 16);
        lemma_hex_digit_value(b % 16);
        assert(e[0] == '%' && e[1] == hex_digit(b / 16) && e[2] == hex_digit(b % 16));
        assert(e.subrange(3, e.len() as int) =~= rest);
        assert((b / 16) * 16 + b % 16 == b);
    }
}

proof fn lemma_bytes_decode(bytes: Seq<u8>)
    ensures
        urldecoded_bytes(urlencoded_bytes(bytes)) == bytes,
    decreases bytes.len(),
{
    if bytes.len() == 0 {
        assert(urlencoded_bytes(bytes) =~= Seq::<char>::empty()) by {
            assert(bytes.map_values(|b: u8| urlencoded_byte(b)) =~= Seq::<Seq<char>>::empty());
        }
    } else {
        lemma_urlencoded_bytes_first(bytes);
        lemma_bytes_decode(bytes.drop_first());
        lemma_byte_decodes(bytes[0], urlencoded_bytes(bytes.drop_first()));
        assert(seq![bytes[0]] + bytes.drop_first() =~= bytes);
    }
}

/// Form-decoding a form-encoded value gives the value back.
pub proof fn law_form_encoding_round_trip(value: Seq<char>)
    ensures
        form_urldecoded(form_urlencoded(value)) == value,
{
    lemma_bytes_decode(vstd::utf8::encode_utf8(value));
    vstd::utf8::encode_utf8_decode_utf8(value);
}

/// The redirect of a search is the reader page with one `url` parameter, which
/// holds no `&` and form-decodes to the search engine's address for the query,
/// whose `q` parameter form-decodes back to the query; the visitor's flags follow.
pub proof fn law_search_redirect_round_trip(searx_url: Seq<char>, params: SearchParams)
    ensures
        ({
            let q = form_urlencoded(params.q@);
            let target = searx_url + "/search?q="@ + q;
            let v = form_urlencoded(target);
            &&& spec_search_redirect(searx_url, params) == "/get?url="@ + v + search_flags(params)
            &&& forall|i: int| 0 <= i < v.len() ==> #[trigger] v[i] != '&'
            &&& form_urldecoded(v) == target
            &&& form_urldecoded(q) == params.q@
        }),
{
    let q = form_urlencoded(params.q@);
    let target = searx_url + "/search?q="@ + q;
    law_form_encoding_round_trip(params.q@);
    law_form_encoding_round_trip(target);
    law_form_encoding_is_inert(target);
    let v = form_urlencoded(target);
    assert forall|i: int| 0 <= i < v.len() implies #[trigger] v[i] != '&' by {
        assert(is_form_char(v[i]));
    }
}

// ---------------------------------------------------------------------------
// Numbers
// ---------------------------------------------------------------------------

proof fn lemma_decimal_digits(n: nat)
    ensures
        decimal(n).len() > 0,
        all_digits(decimal(n)),
        digits_value(decimal(n)) == n,
    decreases n,
{
    if n < 10 {
        let d = decimal(n);
        assert(d.drop_last() =~= Seq::<char>::empty());
        assert(is_ascii_digit(digit_char(n)));
        assert(digit_char(n) as nat == 48 + n);
        assert(d.last() == digit_char(n));
        assert(digits_value(Seq::<char>::empty()) == 0);
        assert(digits_value(d) == digits_value(d.drop_last()) * 10 + ((d.last() as nat) - 48) as nat);
        assert(digits_value(d) == n);
    } else {
        lemma_decimal_digits(n / 10);
        let d = decimal(n);
        assert(d.drop_last() =~= decimal(n / 10));
        assert(is_ascii_digit(digit_char(n % 10)));
        assert(all_digits(d)) by {
            assert forall|i: int| 0 <= i < d.len() implies is_ascii_digit(#[trigger] d[i]) by {
                if i < d.len() - 1 {
                    assert(d[i] == decimal(n / 10)[i]);
                }
            }
        }
        assert(digit_char(n % 10) as nat == 48 + n % 10);
        assert((n / 10) * 10 + n % 10 == n) by (nonlinear_arith);
        assert(digits_value(d) == digits_value(decimal(n / 10)) * 10 + n % 10);
    }
}

/// The decimal notation of a number parses back to that number, for every
/// integer type large enough to hold it.
pub proof fn law_decimal_parses_back(n: nat, max: nat)
    requires
        n <= max,
    ensures
        parsed_unsigned(decimal(n), max) == Some(n),
{
    lemma_decimal_digits(n);
    assert(is_ascii_digit(decimal(n)[0]));
}

/// Scaling an image only ever shrinks it: the width becomes the requested one,
/// smaller than the source, and the height stays between 1 and the source's.
pub proof fn law_resize_shrinks(requested: Option<u32>, width: u32, height: u32)
    ensures
        spec_resized_size(requested, width, height) matches Some((w, h)) ==> {
            &&& requested == Some(w)
            &&& 0 < w < width
            &&& 1 <= h
            &&& h <= height || height == 0
        },
{
    if let Some(w) = requested {
        if 0 < w && w < width {
            let q = (height as int * w as int) / (width as int);
            assert(q <= height as int) by (nonlinear_arith)
                requires
                    q == (height as int * w as int) / (width as int),
                    0 < w < width,
            {
                assert(height as int * w as int <= height as int * width as int);
                vstd::arithmetic::div_mod::lemma_div_is_ordered(
                    height as int * w as int,
                    height as int * width as int,
                    width as int,
                );
                vstd::arithmetic::div_mod::lemma_div_by_multiple(height as int, width as int);
            }
        }
    }
}

// ---------------------------------------------------------------------------
// What each kind of link points to
// ---------------------------------------------------------------------------

/// The proxy's endpoint `path` with the link `href` of the page at `remote`,
/// made absolute, as its `url` parameter.
pub open spec fn through_endpoint(request: Seq<char>, remote: Seq<char>, href: Seq<char>, path: Seq<
    char,
>) -> Option<Seq<char>> {
    match url_join_result(remote, href) {
        None => None,
        Some(target) => match url_join_result(request, path) {
            None => None,
            Some(endpoint) => url_with_pair(endpoint, "url"@, target),
        },
    }
}

/// Where each kind of link points: a document to the reader page `/get`, media
/// and files to the raw proxy `/proxy`, an image to the image proxy
/// `/proxy/img` when images are re-encoded and to the raw proxy when they are
/// only proxied; a kind that is not proxied to the link made absolute. In
/// particular a media link never goes to the image proxy.
pub proof fn law_link_targets(
    request: Seq<char>,
    remote: Seq<char>,
    options: RewriteOptions,
    href: Seq<char>,
)
    ensures
        spec_link_url(request, remote, options, LinkKind::Document, href) == if options.proxy_documents {
            through_endpoint(request, remote, href, "/get"@)
        } else {
            url_join_result(remote, href)
        },
        spec_link_url(request, remote, options, LinkKind::Media, href) == if options.proxy_media {
            through_endpoint(request, remote, href, "/proxy"@)
        } else {
            url_join_result(remote, href)
        },
        spec_link_url(request, remote, options, LinkKind::File, href) == if options.proxy_files {
            through_endpoint(request, remote, href, "/proxy"@)
        } else {
            url_join_result(remote, href)
        },
        spec_link_url(request, remote, options, LinkKind::Image, href) == if options.process_images {
            through_endpoint(request, remote, href, "/proxy/img"@)
        } else if options.proxy_images {
            through_endpoint(request, remote, href, "/proxy"@)
        } else {
            url_join_result(remote, href)
        },
{
}

// ---------------------------------------------------------------------------
// The flags of a search
// ---------------------------------------------------------------------------

/// The query pair for a flag of the visitor's, when it is set.
pub open spec fn flag_pair(name: Seq<char>, value: Option<bool>) -> Seq<char> {
    match value {
        Some(true) => "&"@ + name + "=true"@,
        Some(false) => "&"@ + name + "=false"@,
        None => Seq::<char>::empty(),
    }
}

/// A search redirects to the reader page for the search engine's results,
/// followed by every flag of the visitor's that is set, as `name=true` or
/// `name=false`, in the order `highlight_code`, `optimize_images`,
/// `skip_image_optimization`, `direct_documents`, `direct_images`,
/// `direct_media`, `direct_files`; an unset flag adds nothing.
pub proof fn law_search_carries_flags(searx_url: Seq<char>, params: SearchParams)
    ensures
        spec_search_redirect(searx_url, params) == "/get?url="@ + form_urlencoded(
            searx_url + "/search?q="@ + form_urlencoded(params.q@),
        ) + flag_pair("highlight_code"@, params.highlight_code) + flag_pair(
            "optimize_images"@,
            params.optimize_images,
        ) + flag_pair("skip_image_optimization"@, params.skip_image_optimization) + flag_pair(
            "direct_documents"@,
            params.direct_documents,
        ) + flag_pair("direct_images"@, params.direct_images) + flag_pair(
            "direct_media"@,
            params.direct_media,
        ) + flag_pair("direct_files"@, params.direct_files),
{
    reveal_strlit("&");
    reveal_strlit("=");
    reveal_strlit("true");
    reveal_strlit("false");
    reveal_strlit("=true");
    reveal_strlit("=false");
    assert("="@ + "true"@ =~= "=true"@);
    assert("="@ + "false"@ =~= "=false"@);
    assert forall|name: Seq<char>, v: Option<bool>|
        #[trigger] crate::routes::bool_param(name, v) == flag_pair(name, v) by {
        match v {
            Some(true) => {
                assert("&"@ + name + "="@ + "true"@ =~= "&"@ + name + "=true"@);
            },
            Some(false) => {
                assert("&"@ + name + "="@ + "false"@ =~= "&"@ + name + "=false"@);
            },
            None => {},
        }
    }
}

// ---------------------------------------------------------------------------
// What visitors ask for
// ---------------------------------------------------------------------------

/// On the reader page, a kind of link goes through the proxy exactly when the
/// server proxies it and the visitor did not ask for direct links of that
/// kind; images are re-encoded only when the server does so, and then as the
/// visitor asks: by default unless skipped, or only when asked for.
pub proof fn law_page_options_follow_visitor(config: Config, params: GetParams, o: RewriteOptions)
    requires
        spec_page_options(config, params, o),
    ensures
        params.direct_documents == Some(true) ==> !o.proxy_documents,
        params.direct_images == Some(true) ==> !o.proxy_images,
        params.direct_media == Some(true) ==> !o.proxy_media,
        params.direct_files == Some(true) ==> !o.proxy_files,
        params.direct_documents != Some(true) ==> o.proxy_documents == config.proxy.documents,
        params.direct_images != Some(true) ==> o.proxy_images == config.proxy.images,
        params.direct_media != Some(true) ==> o.proxy_media == config.proxy.media,
        params.direct_files != Some(true) ==> o.proxy_files == config.proxy.files,
        !config.proxy.process_images ==> !o.process_images,
        config.proxy.process_images && config.img_optimize_by_default ==> (o.process_images
            <==> params.skip_image_optimization != Some(true)),
        config.proxy.process_images && !config.img_optimize_by_default ==> (o.process_images
            <==> params.optimize_images == Some(true)),
{
}

/// The API rewrites links exactly as asked: never when `rewrite_links` is
/// false, always when it is true, and by default when the page comes from a URL.
pub proof fn law_api_rewrites_as_asked(request: ApiRequest)
    ensures
        request.rewrite_links == Some(false) ==> !spec_api_rewrites(request),
        request.rewrite_links == Some(true) ==> spec_api_rewrites(request),
        request.rewrite_links is None ==> (spec_api_rewrites(request) <==> request.url is Some),
{
}

/// An API request's link options: a kind the request turns off is never
/// proxied; one it leaves unset or turns on is proxied as the server does.
pub proof fn law_api_options_follow_request(config: Config, request: ApiRequest, o: RewriteOptions)
    requires
        spec_api_options(config, request, o),
    ensures
        request.proxy_documents == Some(false) ==> !o.proxy_documents,
        request.proxy_images == Some(false) ==> !o.proxy_images,
        request.proxy_media == Some(false) ==> !o.proxy_media,
        request.proxy_files == Some(false) ==> !o.proxy_files,
        request.process_images == Some(false) ==> !o.process_images,
        request.proxy_documents != Some(false) ==> o.proxy_documents == config.proxy.documents,
        request.proxy_images != Some(false) ==> o.proxy_images == config.proxy.images,
        request.proxy_media != Some(false) ==> o.proxy_media == config.proxy.media,
        request.proxy_files != Some(false) ==> o.proxy_files == config.proxy.files,
        request.process_images == Some(true) ==> o.process_images == config.proxy.process_images,
        request.process_images is None ==> o.process_images == (config.proxy.process_images
            && config.img_optimize_by_default),
{
}

// ---------------------------------------------------------------------------
// The configuration
// ---------------------------------------------------------------------------

/// How a switch reads its variable: `true` and `1` turn it on, any other value
/// off, and an unset variable leaves the default.
pub open spec fn switch_reads(value: Option<String>, default: bool, on: bool) -> bool {
    match value {
        Some(v) => on == (v@ == "true"@ || v@ == "1"@),
        None => on == default,
    }
}

/// Each setting is read from its own variable: `PROXY_DOCUMENTS`,
/// `PROXY_IMAGES`, `PROXY_MEDIA`, `PROXY_FILES` and `IMG_PROCESS` (on by
/// default), `REVERSE_PROXY`, `SWAGGER` and `SEARCH_BY_DEFAULT` (off by
/// default), `IMG_OPTIMIZE_BY_DEFAULT` (on by default); `HOST` defaults to
/// `0.0.0.0`, `PORT` to 8080 and `TIMEOUT` to 0.
pub proof fn law_config_reads_each_variable(vars: EnvVars, c: Config)
    requires
        config_from(vars, c),
    ensures
        switch_reads(vars.proxy_documents, true, c.proxy.documents),
        switch_reads(vars.proxy_images, true, c.proxy.images),
        switch_reads(vars.proxy_media, true, c.proxy.media),
        switch_reads(vars.proxy_files, true, c.proxy.files),
        switch_reads(vars.img_process, true, c.proxy.process_images),
        switch_reads(vars.reverse_proxy, false, c.reverse_proxy),
        switch_reads(vars.swagger, false, c.swagger),
        switch_reads(vars.search_by_default, false, c.search_by_default),
        switch_reads(vars.img_optimize_by_default, true, c.img_optimize_by_default),
        vars.host is None ==> c.host@ == "0.0.0.0"@,
        vars.host matches Some(h) ==> c.host@ == h@,
        vars.port is None ==> c.port == 8080,
        vars.timeout is None ==> c.timeout == 0,
        vars.searx_url is None ==> c.third_party.searx_url is None,
{
    reveal_strlit("true");
    reveal_strlit("1");
    reveal_strlit("0.0.0.0");
    assert("true"@ =~= seq!['t', 'r', 'u', 'e']);
    assert("1"@ =~= seq!['1']);
    assert("0.0.0.0"@ =~= seq!['0', '.', '0', '.', '0', '.', '0']);
}

/// Two environments that agree on a variable give the same setting for it,
/// whatever the other variables hold.
pub proof fn law_config_settings_independent(v1: EnvVars, c1: Config, v2: EnvVars, c2: Config)
    requires
        config_from(v1, c1),
        config_from(v2, c2),
    ensures
        opt_view(v1.proxy_documents) == opt_view(v2.proxy_documents) ==> c1.proxy.documents
            == c2.proxy.documents,
        opt_view(v1.proxy_images) == opt_view(v2.proxy_images) ==> c1.proxy.images
            == c2.proxy.images,
        opt_view(v1.proxy_media) == opt_view(v2.proxy_media) ==> c1.proxy.media == c2.proxy.media,
        opt_view(v1.proxy_files) == opt_view(v2.proxy_files) ==> c1.proxy.files == c2.proxy.files,
        opt_view(v1.img_process) == opt_view(v2.img_process) ==> c1.proxy.process_images
            == c2.proxy.process_images,
        opt_view(v1.reverse_proxy) == opt_view(v2.reverse_proxy) ==> c1.reverse_proxy
            == c2.reverse_proxy,
        opt_view(v1.swagger) == opt_view(v2.swagger) ==> c1.swagger == c2.swagger,
        opt_view(v1.search_by_default) == opt_view(v2.search_by_default) ==> c1.search_by_default
            == c2.search_by_default,
        opt_view(v1.img_optimize_by_default) == opt_view(v2.img_optimize_by_default)
            ==> c1.img_optimize_by_default == c2.img_optimize_by_default,
        opt_view(v1.port) == opt_view(v2.port) ==> c1.port == c2.port,
        opt_view(v1.timeout) == opt_view(v2.timeout) ==> c1.timeout == c2.timeout,
        opt_view(v1.searx_url) == opt_view(v2.searx_url) ==> opt_view(c1.third_party.searx_url)
            == opt_view(c2.third_party.searx_url),
{
}

} // verus!
