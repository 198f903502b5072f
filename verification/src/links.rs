//! Rewriting the links of a rendered page so that documents, media, files and
//! images are fetched through the proxy (or directly from the remote site).
use vstd::prelude::*;

use lol_html::html_content::Element;

use crate::error::AppError;
use crate::text::{
    chars_of, decimal, decimal_string, join, join_chars, split_chars, split_on,
    string_from_chars, str_eq, whitespace_split, whitespace_tokens,
};
use crate::urls::{
    append_query_pair, join_url, option_view, parse_url, result_view, url_join_result,
    url_parse_result, url_with_pair,
};

verus! {

broadcast use vstd::string::group_string_axioms;

/// Which links go through the proxy, and whether images are re-encoded.
#[derive(Clone, Copy)]
pub struct RewriteOptions {
    pub proxy_documents: bool,
    pub proxy_images: bool,
    pub proxy_media: bool,
    pub proxy_files: bool,
    pub process_images: bool,
}

/// What a link points to, which decides how it is rewritten.
#[derive(Clone, Copy)]
pub enum LinkKind {
    /// A page (`a[href]`, `frame[src]`, `iframe[src]`).
    Document,
    /// Audio or video (`video`, `audio`, `source`).
    Media,
    /// Any other file (`embed`, `track`, `object`).
    File,
    /// A picture (`img`, `image`, `srcset` candidates).
    Image,
}

/// An HTML element being rewritten: `lol_html`'s element, borrowed for the
/// duration of one handler call.
#[verifier::external_body]
pub struct ElementRef<'a, 'r, 't> {
    el: &'a mut Element<'r, 't>,
}

/// The tag name of an element, in lower case (`Element::tag_name`).
pub uninterp spec fn element_tag(el: ElementRef) -> Seq<char>;

/// The attributes of an element: each lower-cased name mapped to the value of its
/// first occurrence.
pub uninterp spec fn element_attributes(el: ElementRef) -> Map<Seq<char>, Seq<char>>;

/// What `lol_html::rewrite_str` outputs for `html` when every element is passed
/// to `rewrite_element` with the given target: the rewritten document, or the
/// message of the rewriting error.
pub uninterp spec fn html_links_rewritten(
    html: Seq<char>,
    request: Seq<char>,
    remote: Seq<char>,
    options: RewriteOptions,
) -> Result<Seq<char>, Seq<char>>;

/// An attribute name made of lower-case ASCII letters.
pub open spec fn is_attr_word(name: Seq<char>) -> bool {
    &&& name.len() > 0
    &&& forall|i: int| 0 <= i < name.len() ==> 'a' <= #[trigger] name[i] && name[i] <= 'z'
}

// ---------------------------------------------------------------------------
// The trusted access to lol_html
// ---------------------------------------------------------------------------

/// `Element::tag_name`.
#[verifier::external_body]
fn element_tag_name(el: &ElementRef<'_, '_, '_>) -> (t: String)
    ensures
        t@ == element_tag(*el),
{
    el.el.tag_name()
}

/// `Element::get_attribute` for a lower-case name: the value of the first
/// attribute of that name.
#[verifier::external_body]
fn element_attribute(el: &ElementRef<'_, '_, '_>, name: &str) -> (v: Option<String>)
    requires
        is_attr_word(name@),
    ensures
        option_view(v) == (if element_attributes(*el).contains_key(name@) {
            Some(element_attributes(*el)[name@])
        } else {
            None
        }),
{
    el.el.get_attribute(name)
}

/// `Element::set_attribute` for a lower-case name: sets the value of the first
/// attribute of that name, or adds the attribute. Such a name is always accepted.
#[verifier::external_body]
fn set_element_attribute(el: &mut ElementRef<'_, '_, '_>, name: &str, value: &str)
    requires
        is_attr_word(name@),
    ensures
        element_attributes(*final(el)) == element_attributes(*old(el)).insert(name@, value@),
        element_tag(*final(el)) == element_tag(*old(el)),
{
    let _ = el.el.set_attribute(name, value);
}

/// Whether nothing goes through the proxy and images are not re-encoded.
pub open spec fn proxies_nothing(options: RewriteOptions) -> bool {
    !options.proxy_documents && !options.proxy_images && !options.proxy_media
        && !options.proxy_files && !options.process_images
}

/// `lol_html::rewrite_str` on `html`, with a handler that passes every element
/// (selector `*`) to `rewrite_element`. The error is given by its message. When
/// `proxies_nothing(options)`, the handler makes the same calls whatever
/// `request` is (every link becomes `remote` joined with it, and `request` is
/// never read), so the result is the same for every request address.
#[verifier::external_body]
fn rewrite_elements(html: &str, request: &str, remote: &str, options: RewriteOptions) -> (r:
    Result<String, String>)
    ensures
        result_view(r) == html_links_rewritten(html@, request@, remote@, options),
        proxies_nothing(options) ==> forall|other: Seq<char>|
            #![trigger html_links_rewritten(html@, other, remote@, options)]
            result_view(r) == html_links_rewritten(html@, other, remote@, options),
{
    let handler = lol_html::ElementContentHandlers::default().element(
        move |el: &mut Element<'_, '_>| {
            rewrite_element(&mut ElementRef { el }, request, remote, options);
            Ok(())
        },
    );
    let selector = "*".parse::<lol_html::Selector>().unwrap();
    let settings = lol_html::RewriteStrSettings {
        element_content_handlers: vec![(std::borrow::Cow::Owned(selector), handler)],
        ..lol_html::RewriteStrSettings::new()
    };
    lol_html::rewrite_str(html, settings).map_err(|e| e.to_string())
}

// ---------------------------------------------------------------------------
// Link targets
// ---------------------------------------------------------------------------

/// The proxy's reader page for the link `href` of the page at `remote`.
pub open spec fn spec_parser_url(request: Seq<char>, remote: Seq<char>, href: Seq<char>) -> Option<
    Seq<char>,
> {
    match url_join_result(remote, href) {
        None => None,
        Some(resolved) => match url_join_result(request, "/get"@) {
            None => None,
            Some(u) => url_with_pair(u, "url"@, resolved),
        },
    }
}

/// The link `href` of the page at `remote`, made absolute.
pub open spec fn spec_direct_url(remote: Seq<char>, href: Seq<char>) -> Option<Seq<char>> {
    url_join_result(remote, href)
}

/// The proxy's raw (or, for `img`, image) endpoint for the link `href`.
pub open spec fn spec_proxy_url(request: Seq<char>, remote: Seq<char>, href: Seq<char>, img: bool) -> Option<
    Seq<char>,
> {
    match url_join_result(remote, href) {
        None => None,
        Some(resolved) => match url_join_result(
            request,
            if img {
                "/proxy/img"@
            } else {
                "/proxy"@
            },
        ) {
            None => None,
            Some(u) => url_with_pair(u, "url"@, resolved),
        },
    }
}

/// Where a link of the given kind points after rewriting.
pub open spec fn spec_link_url(
    request: Seq<char>,
    remote: Seq<char>,
    options: RewriteOptions,
    kind: LinkKind,
    href: Seq<char>,
) -> Option<Seq<char>> {
    match kind {
        LinkKind::Document => if options.proxy_documents {
            spec_parser_url(request, remote, href)
        } else {
            spec_direct_url(remote, href)
        },
        LinkKind::Media => if options.proxy_media {
            spec_proxy_url(request, remote, href, false)
        } else {
            spec_direct_url(remote, href)
        },
        LinkKind::File => if options.proxy_files {
            spec_proxy_url(request, remote, href, false)
        } else {
            spec_direct_url(remote, href)
        },
        LinkKind::Image => if options.proxy_images || options.process_images {
            spec_proxy_url(request, remote, href, options.process_images)
        } else {
            spec_direct_url(remote, href)
        },
    }
}

/// One candidate of a responsive `srcset`: the image endpoint at width `width`,
/// then the width descriptor.
pub open spec fn spec_width_candidate(
    request: Seq<char>,
    remote: Seq<char>,
    href: Seq<char>,
    width: u32,
) -> Option<Seq<char>> {
    match url_join_result(remote, href) {
        None => None,
        Some(resolved) => match url_join_result(request, "/proxy/img"@) {
            None => None,
            Some(u) => match url_with_pair(u, "url"@, resolved) {
                None => None,
                Some(u1) => match url_with_pair(u1, "w"@, decimal(width as nat)) {
                    None => None,
                    Some(u2) => Some(u2 + " "@ + decimal(width as nat) + "w"@),
                },
            },
        },
    }
}

/// The responsive `srcset` offered for an image: candidates at 320, 640, 960 and
/// 1280 pixels, joined by `, `; `None` when one of them cannot be built.
pub open spec fn spec_responsive_srcset(request: Seq<char>, remote: Seq<char>, href: Seq<char>) -> Option<
    Seq<char>,
> {
    let c1 = spec_width_candidate(request, remote, href, 320);
    let c2 = spec_width_candidate(request, remote, href, 640);
    let c3 = spec_width_candidate(request, remote, href, 960);
    let c4 = spec_width_candidate(request, remote, href, 1280);
    if c1 is Some && c2 is Some && c3 is Some && c4 is Some {
        Some(join(seq![c1->0, c2->0, c3->0, c4->0], ", "@))
    } else {
        None
    }
}

/// One `srcset` candidate with its URL (its first whitespace-separated token)
/// rewritten as an image link; its tokens joined by single spaces.
pub open spec fn spec_srcset_candidate(
    request: Seq<char>,
    remote: Seq<char>,
    options: RewriteOptions,
    candidate: Seq<char>,
) -> Seq<char> {
    let tokens = whitespace_tokens(candidate);
    if tokens.len() > 0 {
        match spec_link_url(request, remote, options, LinkKind::Image, tokens[0]) {
            Some(v) => join(tokens.update(0, v), " "@),
            None => join(tokens, " "@),
        }
    } else {
        join(tokens, " "@)
    }
}

/// A whole `srcset`: its comma-separated candidates rewritten, joined by `, `.
pub open spec fn spec_srcset(
    request: Seq<char>,
    remote: Seq<char>,
    options: RewriteOptions,
    srcset: Seq<char>,
) -> Seq<char> {
    join(
        split_on(srcset, ',').map_values(
            |c: Seq<char>| spec_srcset_candidate(request, remote, options, c),
        ),
        ", "@,
    )
}

// ---------------------------------------------------------------------------
// Element rewriting
// ---------------------------------------------------------------------------

/// The attributes after the attribute `name`, when present, is replaced by its
/// rewritten link (unchanged when the link cannot be built).
pub open spec fn spec_rewrite_attr(
    attrs: Map<Seq<char>, Seq<char>>,
    name: Seq<char>,
    request: Seq<char>,
    remote: Seq<char>,
    options: RewriteOptions,
    kind: LinkKind,
) -> Map<Seq<char>, Seq<char>> {
    if attrs.contains_key(name) {
        match spec_link_url(request, remote, options, kind, attrs[name]) {
            Some(v) => attrs.insert(name, v),
            None => attrs,
        }
    } else {
        attrs
    }
}

/// The `sizes` given to an image that gets a responsive `srcset`.
pub open spec fn default_sizes() -> Seq<char> {
    "(max-width: 768px) 100vw, 768px"@
}

/// When images are re-encoded, an image without `srcset` gets the responsive one
/// (and a `sizes`, if it has none).
pub open spec fn spec_responsive_step(
    attrs: Map<Seq<char>, Seq<char>>,
    request: Seq<char>,
    remote: Seq<char>,
    options: RewriteOptions,
) -> Map<Seq<char>, Seq<char>> {
    if options.process_images && !attrs.contains_key("srcset"@) && attrs.contains_key("src"@) {
        match spec_responsive_srcset(request, remote, attrs["src"@]) {
            Some(set) => {
                let b = attrs.insert("srcset"@, set);
                if b.contains_key("sizes"@) {
                    b
                } else {
                    b.insert("sizes"@, default_sizes())
                }
            },
            None => attrs,
        }
    } else {
        attrs
    }
}

/// An image: the responsive `srcset`, then its `src` as an image link.
pub open spec fn spec_image_step(
    attrs: Map<Seq<char>, Seq<char>>,
    request: Seq<char>,
    remote: Seq<char>,
    options: RewriteOptions,
) -> Map<Seq<char>, Seq<char>> {
    spec_rewrite_attr(
        spec_responsive_step(attrs, request, remote, options),
        "src"@,
        request,
        remote,
        options,
        LinkKind::Image,
    )
}

/// The `srcset` attribute, when present, with each candidate rewritten.
pub open spec fn spec_srcset_step(
    attrs: Map<Seq<char>, Seq<char>>,
    request: Seq<char>,
    remote: Seq<char>,
    options: RewriteOptions,
) -> Map<Seq<char>, Seq<char>> {
    if attrs.contains_key("srcset"@) {
        attrs.insert("srcset"@, spec_srcset(request, remote, options, attrs["srcset"@]))
    } else {
        attrs
    }
}

/// The attributes of an element with tag `tag` and attributes `attrs` after
/// rewriting. The rules apply in this order, each to the elements whose initial
/// attributes match it: `a[href]`; `frame[src]`, `iframe[src]`;
/// `video[src]`, `audio[src]`, `source[src]`; `embed[src]`, `track[src]`;
/// `object[data]`; `img[src]`, `image[src]`; `source[srcset]`, `img[srcset]`.
pub open spec fn spec_rewrite_element(
    tag: Seq<char>,
    attrs: Map<Seq<char>, Seq<char>>,
    request: Seq<char>,
    remote: Seq<char>,
    options: RewriteOptions,
) -> Map<Seq<char>, Seq<char>> {
    let has_href = attrs.contains_key("href"@);
    let has_src = attrs.contains_key("src"@);
    let a1 = if tag == "a"@ && has_href {
        spec_rewrite_attr(attrs, "href"@, request, remote, options, LinkKind::Document)
    } else {
        attrs
    };
    let a2 = if (tag == "frame"@ || tag == "iframe"@) && has_src {
        spec_rewrite_attr(a1, "src"@, request, remote, options, LinkKind::Document)
    } else {
        a1
    };
    let a3 = if (tag == "video"@ || tag == "audio"@ || tag == "source"@) && has_src {
        spec_rewrite_attr(a2, "src"@, request, remote, options, LinkKind::Media)
    } else {
        a2
    };
    let a4 = if (tag == "embed"@ || tag == "track"@) && has_src {
        spec_rewrite_attr(a3, "src"@, request, remote, options, LinkKind::File)
    } else {
        a3
    };
    let a5 = if tag == "object"@ && attrs.contains_key("data"@) {
        spec_rewrite_attr(a4, "data"@, request, remote, options, LinkKind::File)
    } else {
        a4
    };
    let a6 = if (tag == "img"@ || tag == "image"@) && has_src {
        spec_image_step(a5, request, remote, options)
    } else {
        a5
    };
    if (tag == "source"@ || tag == "img"@) && attrs.contains_key("srcset"@) {
        spec_srcset_step(a6, request, remote, options)
    } else {
        a6
    }
}

/// The result of rewriting the links of a page: the page's and the proxy's
/// address must parse as URLs; a failure is a bad request with the parser's or
/// the rewriter's message.
pub open spec fn spec_rewrite_html_links(
    html: Seq<char>,
    request_base: Seq<char>,
    remote_url: Seq<char>,
    options: RewriteOptions,
) -> Result<Seq<char>, Seq<char>> {
    match url_parse_result(remote_url) {
        Err(m) => Err(m),
        Ok(remote) => match url_parse_result(request_base) {
            Err(m) => Err(m),
            Ok(request) => html_links_rewritten(html, request, remote, options),
        },
    }
}

// ---------------------------------------------------------------------------
// Executable
// ---------------------------------------------------------------------------

/// The proxy's reader page for a link.
fn parser_url(request: &str, remote: &str, href: &str) -> (r: Option<String>)
    ensures
        option_view(r) == spec_parser_url(request@, remote@, href@),
{
    let resolved = join_url(remote, href)?;
    let url = join_url(request, "/get")?;
    append_query_pair(url.as_str(), "url", resolved.as_str())
}

/// A link made absolute.
fn direct_url(remote: &str, href: &str) -> (r: Option<String>)
    ensures
        option_view(r) == spec_direct_url(remote@, href@),
{
    join_url(remote, href)
}

/// The proxy's raw or image endpoint for a link.
fn proxy_url(request: &str, remote: &str, href: &str, img: bool) -> (r: Option<String>)
    ensures
        option_view(r) == spec_proxy_url(request@, remote@, href@, img),
{
    let resolved = join_url(remote, href)?;
    let url = join_url(
        request,
        if img {
            "/proxy/img"
        } else {
            "/proxy"
        },
    )?;
    append_query_pair(url.as_str(), "url", resolved.as_str())
}

/// Where a link of the given kind points after rewriting.
pub fn link_url(request: &str, remote: &str, options: RewriteOptions, kind: LinkKind, href: &str) -> (r:
    Option<String>)
    ensures
        option_view(r) == spec_link_url(request@, remote@, options, kind, href@),
{
    match kind {
        LinkKind::Document => if options.proxy_documents {
            parser_url(request, remote, href)
        } else {
            direct_url(remote, href)
        },
        LinkKind::Media => if options.proxy_media {
            proxy_url(request, remote, href, false)
        } else {
            direct_url(remote, href)
        },
        LinkKind::File => if options.proxy_files {
            proxy_url(request, remote, href, false)
        } else {
            direct_url(remote, href)
        },
        LinkKind::Image => if options.proxy_images || options.process_images {
            proxy_url(request, remote, href, options.process_images)
        } else {
            direct_url(remote, href)
        },
    }
}

/// One candidate of the responsive `srcset`.
fn width_candidate(request: &str, remote: &str, href: &str, width: u32) -> (r: Option<String>)
    ensures
        option_view(r) == spec_width_candidate(request@, remote@, href@, width),
{
    let resolved = join_url(remote, href)?;
    let url = join_url(request, "/proxy/img")?;
    let with_url = append_query_pair(url.as_str(), "url", resolved.as_str())?;
    let w = decimal_string(width as u64);
    let mut out = append_query_pair(with_url.as_str(), "w", w.as_str())?;
    out.append(" ");
    out.append(w.as_str());
    out.append("w");
    Some(out)
}

/// The responsive `srcset` for an image.
pub fn responsive_srcset(request: &str, remote: &str, href: &str) -> (r: Option<String>)
    ensures
        option_view(r) == spec_responsive_srcset(request@, remote@, href@),
{
    let c1 = width_candidate(request, remote, href, 320);
    let c2 = width_candidate(request, remote, href, 640);
    let c3 = width_candidate(request, remote, href, 960);
    let c4 = width_candidate(request, remote, href, 1280);
    match (c1, c2, c3, c4) {
        (Some(a), Some(b), Some(c), Some(d)) => {
            let mut parts: Vec<Vec<char>> = Vec::new();
            parts.push(chars_of(a.as_str()));
            parts.push(chars_of(b.as_str()));
            parts.push(chars_of(c.as_str()));
            parts.push(chars_of(d.as_str()));
            let ghost v = parts@.map_values(|p: Vec<char>| p@);
            assert(v =~= seq![a@, b@, c@, d@]);
            let s = join_chars(&parts, ", ");
            Some(s)
        },
        _ => None,
    }
}

/// One `srcset` candidate with its URL rewritten as an image link.
pub fn rewrite_srcset_candidate(
    candidate: &str,
    request: &str,
    remote: &str,
    options: RewriteOptions,
) -> (r: String)
    ensures
        r@ == spec_srcset_candidate(request@, remote@, options, candidate@),
{
    let cs = chars_of(candidate);
    let mut tokens = whitespace_split(cs.as_slice());
    let ghost before = tokens@.map_values(|p: Vec<char>| p@);
    if tokens.len() > 0 {
        let first = string_from_chars(tokens[0].as_slice());
        match link_url(request, remote, options, LinkKind::Image, first.as_str()) {
            Some(v) => {
                let replacement = chars_of(v.as_str());
                tokens.remove(0);
                tokens.insert(0, replacement);
                assert(tokens@.map_values(|p: Vec<char>| p@) =~= before.update(0, v@));
            },
            None => {},
        }
    }
    join_chars(&tokens, " ")
}

/// A whole `srcset` with each candidate rewritten.
pub fn rewrite_srcset(srcset: &str, request: &str, remote: &str, options: RewriteOptions) -> (r:
    String)
    ensures
        r@ == spec_srcset(request@, remote@, options, srcset@),
{
    let cs = chars_of(srcset);
    let parts = split_chars(cs.as_slice(), ',');
    let ghost pieces = parts@.map_values(|p: Vec<char>| p@);
    let ghost rewritten = pieces.map_values(
        |c: Seq<char>| spec_srcset_candidate(request@, remote@, options, c),
    );
    let n = parts.len();
    let mut out: Vec<Vec<char>> = Vec::new();
    let mut i: usize = 0;
    while i < n
        invariant
            n == parts@.len(),
            pieces == parts@.map_values(|p: Vec<char>| p@),
            rewritten == pieces.map_values(
                |c: Seq<char>| spec_srcset_candidate(request@, remote@, options, c),
            ),
            i <= n,
            out@.map_values(|p: Vec<char>| p@) == rewritten.take(i as int),
        decreases n - i,
    {
        let candidate = string_from_chars(parts[i].as_slice());
        let r = rewrite_srcset_candidate(candidate.as_str(), request, remote, options);
        assert(pieces[i as int] == parts@[i as int]@);
        assert(rewritten[i as int] == r@);
        let ghost prev = out@.map_values(|p: Vec<char>| p@);
        let rc = chars_of(r.as_str());
        out.push(rc);
        assert(out@.map_values(|p: Vec<char>| p@) =~= prev.push(r@));
        assert(out@.map_values(|p: Vec<char>| p@) =~= rewritten.take(i + 1));
        i = i + 1;
    }
    assert(rewritten.take(n as int) =~= rewritten);
    join_chars(&out, ", ")
}

/// Replaces the attribute `name`, when present, by its rewritten link.
fn rewrite_attr(
    el: &mut ElementRef<'_, '_, '_>,
    name: &str,
    request: &str,
    remote: &str,
    options: RewriteOptions,
    kind: LinkKind,
)
    requires
        is_attr_word(name@),
    ensures
        element_attributes(*final(el)) == spec_rewrite_attr(
            element_attributes(*old(el)),
            name@,
            request@,
            remote@,
            options,
            kind,
        ),
        element_tag(*final(el)) == element_tag(*old(el)),
{
    match element_attribute(el, name) {
        Some(value) => match link_url(request, remote, options, kind, value.as_str()) {
            Some(url) => set_element_attribute(el, name, url.as_str()),
            None => {},
        },
        None => {},
    }
}

proof fn lemma_attr_words()
    ensures
        is_attr_word("href"@),
        is_attr_word("src"@),
        is_attr_word("data"@),
        is_attr_word("srcset"@),
        is_attr_word("sizes"@),
{
    reveal_strlit("href");
    reveal_strlit("src");
    reveal_strlit("data");
    reveal_strlit("srcset");
    reveal_strlit("sizes");
}

/// The image rule: responsive `srcset`, then `src`.
fn rewrite_image(el: &mut ElementRef<'_, '_, '_>, request: &str, remote: &str, options: RewriteOptions)
    ensures
        element_attributes(*final(el)) == spec_image_step(
            element_attributes(*old(el)),
            request@,
            remote@,
            options,
        ),
        element_tag(*final(el)) == element_tag(*old(el)),
{
    proof {
        lemma_attr_words();
    }
    if options.process_images && element_attribute(el, "srcset").is_none() {
        match element_attribute(el, "src") {
            Some(src) => match responsive_srcset(request, remote, src.as_str()) {
                Some(set) => {
                    set_element_attribute(el, "srcset", set.as_str());
                    if element_attribute(el, "sizes").is_none() {
                        set_element_attribute(el, "sizes", "(max-width: 768px) 100vw, 768px");
                    }
                },
                None => {},
            },
            None => {},
        }
    }
    rewrite_attr(el, "src", request, remote, options, LinkKind::Image);
}

/// The `srcset` rule.
fn rewrite_srcset_attr(el: &mut ElementRef<'_, '_, '_>, request: &str, remote: &str, options: RewriteOptions)
    ensures
        element_attributes(*final(el)) == spec_srcset_step(
            element_attributes(*old(el)),
            request@,
            remote@,
            options,
        ),
        element_tag(*final(el)) == element_tag(*old(el)),
{
    proof {
        lemma_attr_words();
    }
    match element_attribute(el, "srcset") {
        Some(srcset) => {
            let rewritten = rewrite_srcset(srcset.as_str(), request, remote, options);
            set_element_attribute(el, "srcset", rewritten.as_str());
        },
        None => {},
    }
}

/// Rewrites the links of one element, following the rules in their order.
pub fn rewrite_element(el: &mut ElementRef<'_, '_, '_>, request: &str, remote: &str, options: RewriteOptions)
    ensures
        element_attributes(*final(el)) == spec_rewrite_element(
            element_tag(*old(el)),
            element_attributes(*old(el)),
            request@,
            remote@,
            options,
        ),
        element_tag(*final(el)) == element_tag(*old(el)),
{
    proof {
        lemma_attr_words();
    }
    let tag = element_tag_name(el);
    let t = tag.as_str();
    let has_href = element_attribute(el, "href").is_some();
    let has_src = element_attribute(el, "src").is_some();
    let has_data = element_attribute(el, "data").is_some();
    let has_srcset = element_attribute(el, "srcset").is_some();
    if str_eq(t, "a") && has_href {
        rewrite_attr(el, "href", request, remote, options, LinkKind::Document);
    }
    if (str_eq(t, "frame") || str_eq(t, "iframe")) && has_src {
        rewrite_attr(el, "src", request, remote, options, LinkKind::Document);
    }
    if (str_eq(t, "video") || str_eq(t, "audio") || str_eq(t, "source")) && has_src {
        rewrite_attr(el, "src", request, remote, options, LinkKind::Media);
    }
    if (str_eq(t, "embed") || str_eq(t, "track")) && has_src {
        rewrite_attr(el, "src", request, remote, options, LinkKind::File);
    }
    if str_eq(t, "object") && has_data {
        rewrite_attr(el, "data", request, remote, options, LinkKind::File);
    }
    if (str_eq(t, "img") || str_eq(t, "image")) && has_src {
        rewrite_image(el, request, remote, options);
    }
    if (str_eq(t, "source") || str_eq(t, "img")) && has_srcset {
        rewrite_srcset_attr(el, request, remote, options);
    }
}

/// Rewrites the links of the HTML page `html`, fetched from `remote_url`, so that
/// they go through the proxy at `request_base` as `options` asks.
pub fn rewrite_html_links(
    html: &str,
    request_base: &str,
    remote_url: &str,
    options: RewriteOptions,
) -> (r: Result<String, AppError>)
    ensures
        match spec_rewrite_html_links(html@, request_base@, remote_url@, options) {
            Ok(out) => r matches Ok(s) && s@ == out,
            Err(m) => r matches Err(AppError::BadRequest(e)) && e@ == m,
        },
        proxies_nothing(options) && url_parse_result(request_base@) is Ok ==> forall|other: Seq<char>|
            url_parse_result(other) is Ok ==> #[trigger] spec_rewrite_html_links(
                html@,
                other,
                remote_url@,
                options,
            ) == spec_rewrite_html_links(html@, request_base@, remote_url@, options),
{
    let remote = match parse_url(remote_url) {
        Ok(u) => u,
        Err(m) => return Err(AppError::BadRequest(m)),
    };
    let request = match parse_url(request_base) {
        Ok(u) => u,
        Err(m) => return Err(AppError::BadRequest(m)),
    };
    match rewrite_elements(html, request.as_str(), remote.as_str(), options) {
        Ok(s) => Ok(s),
        Err(m) => Err(AppError::BadRequest(m)),
    }
}

} // verus!
