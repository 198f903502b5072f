//! The decisions the HTTP routes make: the proxy's own address, search
//! redirects, the options of the reader page, and what the API is asked to do.
use vstd::prelude::*;

use base64::Engine;

use crate::config::Config;
use crate::drova::{plugin_outputs, resolve_output_type, spec_output_alias, DEFAULT_API_OUTPUT};
use crate::error::AppError;
use crate::links::RewriteOptions;
use crate::reply::{header_str, header_text};
use crate::text::{chars_of, concat, owned, push_char, str_eq};
use crate::urls::{form_urlencode, form_urlencoded};

verus! {

broadcast use vstd::string::group_string_axioms;

/// The query of a search.
pub struct SearchParams {
    pub q: String,
    pub highlight_code: Option<bool>,
    pub optimize_images: Option<bool>,
    pub skip_image_optimization: Option<bool>,
    pub direct_documents: Option<bool>,
    pub direct_images: Option<bool>,
    pub direct_media: Option<bool>,
    pub direct_files: Option<bool>,
}

/// The query of the reader page.
pub struct GetParams {
    pub url: String,
    pub format: Option<String>,
    pub highlight_code: Option<bool>,
    pub optimize_images: Option<bool>,
    pub skip_image_optimization: Option<bool>,
    pub direct_documents: Option<bool>,
    pub direct_images: Option<bool>,
    pub direct_media: Option<bool>,
    pub direct_files: Option<bool>,
}

/// The body of an API request.
pub struct ApiRequest {
    pub url: Option<String>,
    pub input_type: Option<String>,
    pub output_type: Option<String>,
    pub text: Option<String>,
    pub bytes_base64: Option<String>,
    pub rewrite_links: Option<bool>,
    pub process_images: Option<bool>,
    pub proxy_documents: Option<bool>,
    pub proxy_images: Option<bool>,
    pub proxy_media: Option<bool>,
    pub proxy_files: Option<bool>,
    pub request_base: Option<String>,
}

/// Where the API reads its page from.
pub enum PageSource {
    /// A page to fetch.
    Url(String),
    /// Text of the given format.
    Text { input_type: String, text: String },
    /// Bytes of the given format.
    Bytes { input_type: String, bytes: Vec<u8> },
}

/// How the API rewrites the links of an HTML answer.
pub struct RewritePlan {
    pub remote_url: String,
    pub request_base: String,
    pub options: RewriteOptions,
}

/// What the `base64` crate's standard engine decodes `input` to, or the message
/// of its error.
pub uninterp spec fn base64_decoded(input: Seq<char>) -> Result<Seq<u8>, Seq<char>>;

pub open spec fn bytes_result_view(r: Result<Vec<u8>, String>) -> Result<Seq<u8>, Seq<char>> {
    match r {
        Ok(b) => Ok(b@),
        Err(m) => Err(m@),
    }
}

/// `base64::engine::general_purpose::STANDARD.decode` of the UTF-8 bytes of
/// `input`; the error is given by its message.
#[verifier::external_body]
fn base64_decode(input: &str) -> (r: Result<Vec<u8>, String>)
    ensures
        bytes_result_view(r) == base64_decoded(input@),
{
    base64::engine::general_purpose::STANDARD.decode(input).map_err(|error| error.to_string())
}

// ---------------------------------------------------------------------------
// Specifications
// ---------------------------------------------------------------------------

/// The routes the server answers, in the order they are listed.
pub open spec fn spec_app_routes() -> Seq<Seq<char>> {
    seq![
        "/"@,
        "/get"@,
        "/search"@,
        "/configuration"@,
        "/configuration/json"@,
        "/configuration/badges/big"@,
        "/api/get"@,
        "/proxy"@,
        "/proxy/img"@,
    ]
}

pub open spec fn header_opt(value: Option<&[u8]>) -> Option<Seq<char>> {
    match value {
        Some(v) => header_text(v@),
        None => None,
    }
}

/// The address at which visitors reach the proxy: the scheme from
/// `X-Forwarded-Proto` (if it is text), else the request's, else `http`; the
/// host from `Host` (if it is text), else `127.0.0.1:8080`.
pub open spec fn spec_request_base(
    forwarded_proto: Option<Seq<char>>,
    host: Option<Seq<char>>,
    scheme: Option<Seq<char>>,
) -> Seq<char> {
    let s = match forwarded_proto {
        Some(p) => p,
        None => match scheme {
            Some(p) => p,
            None => "http"@,
        },
    };
    let h = match host {
        Some(t) => t,
        None => "127.0.0.1:8080"@,
    };
    s + "://"@ + h
}

/// `&name=true` or `&name=false` for a given flag, nothing for an absent one.
pub open spec fn bool_param(name: Seq<char>, value: Option<bool>) -> Seq<char> {
    match value {
        Some(b) => "&"@ + name + "="@ + if b {
            "true"@
        } else {
            "false"@
        },
        None => Seq::<char>::empty(),
    }
}

/// The flags of a search carried over to the reader page.
pub open spec fn search_flags(p: SearchParams) -> Seq<char> {
    bool_param("highlight_code"@, p.highlight_code) + bool_param(
        "optimize_images"@,
        p.optimize_images,
    ) + bool_param("skip_image_optimization"@, p.skip_image_optimization) + bool_param(
        "direct_documents"@,
        p.direct_documents,
    ) + bool_param("direct_images"@, p.direct_images) + bool_param(
        "direct_media"@,
        p.direct_media,
    ) + bool_param("direct_files"@, p.direct_files)
}

/// Where a search is sent: the reader page for the search service's results.
pub open spec fn spec_search_redirect(searx_url: Seq<char>, p: SearchParams) -> Seq<char> {
    let target = searx_url + "/search?q="@ + form_urlencoded(p.q@);
    "/get?url="@ + form_urlencoded(target) + search_flags(p)
}

/// Whether the reader page is asked for a daletpack download (the format
/// defaults to `html`).
pub open spec fn spec_wants_daletpack(format: Option<Seq<char>>) -> bool {
    match format {
        Some(f) => f == "dalet"@ || f == "daletpack"@ || f == "application/daletpack"@,
        None => false,
    }
}

/// Whether the reader page re-encodes images: the server must allow it, and the
/// visitor may opt out (when it is the default) or in (when it is not).
pub open spec fn spec_page_process_images(config: Config, p: GetParams) -> bool {
    config.proxy.process_images && if config.img_optimize_by_default {
        !(p.skip_image_optimization == Some(true))
    } else {
        p.optimize_images == Some(true)
    }
}

/// The link options of the reader page: each kind goes through the proxy when
/// the server allows it and the visitor did not ask for direct links.
pub open spec fn spec_page_options(config: Config, p: GetParams, o: RewriteOptions) -> bool {
    &&& o.proxy_documents == (config.proxy.documents && !(p.direct_documents == Some(true)))
    &&& o.proxy_images == (config.proxy.images && !(p.direct_images == Some(true)))
    &&& o.proxy_media == (config.proxy.media && !(p.direct_media == Some(true)))
    &&& o.proxy_files == (config.proxy.files && !(p.direct_files == Some(true)))
    &&& o.process_images == spec_page_process_images(config, p)
}

/// A flag asked for, or its default.
pub open spec fn or_default(value: Option<bool>, default: bool) -> bool {
    match value {
        Some(b) => b,
        None => default,
    }
}

/// The link options of an API answer: a kind goes through the proxy when the
/// request asks (by default, as the server does) and the server allows it.
pub open spec fn spec_api_options(config: Config, r: ApiRequest, o: RewriteOptions) -> bool {
    &&& o.proxy_documents == (or_default(r.proxy_documents, config.proxy.documents)
        && config.proxy.documents)
    &&& o.proxy_images == (or_default(r.proxy_images, config.proxy.images) && config.proxy.images)
    &&& o.proxy_media == (or_default(r.proxy_media, config.proxy.media) && config.proxy.media)
    &&& o.proxy_files == (or_default(r.proxy_files, config.proxy.files) && config.proxy.files)
    &&& o.process_images == (config.proxy.process_images && or_default(
        r.process_images,
        config.img_optimize_by_default,
    ))
}

/// Whether the API rewrites links: as asked, by default when the page came from a URL.
pub open spec fn spec_api_rewrites(r: ApiRequest) -> bool {
    or_default(r.rewrite_links, r.url is Some)
}

/// The characters that the configuration page drops from its JSON.
pub open spec fn is_json_punctuation(c: char) -> bool {
    c == '{' || c == '}' || c == '[' || c == ']' || c == '"' || c == ','
}

// ---------------------------------------------------------------------------
// Executable
// ---------------------------------------------------------------------------

/// The routes the server answers.
pub fn app_routes() -> (routes: Vec<&'static str>)
    ensures
        routes@.map_values(|s: &str| s@) == spec_app_routes(),
{
    let routes = vec![
        "/",
        "/get",
        "/search",
        "/configuration",
        "/configuration/json",
        "/configuration/badges/big",
        "/api/get",
        "/proxy",
        "/proxy/img",
    ];
    assert(routes@.map_values(|s: &str| s@) =~= spec_app_routes());
    routes
}

/// The address at which visitors reach the proxy, from the request's
/// `X-Forwarded-Proto` and `Host` headers and its URI's scheme.
pub fn request_base(forwarded_proto: Option<&[u8]>, host: Option<&[u8]>, scheme: Option<&str>) -> (r:
    String)
    ensures
        r@ == spec_request_base(
            header_opt(forwarded_proto),
            header_opt(host),
            match scheme {
                Some(s) => Some(s@),
                None => None,
            },
        ),
{
    let proto = match forwarded_proto {
        Some(v) => header_str(v),
        None => None,
    };
    let mut out = match proto {
        Some(p) => p,
        None => match scheme {
            Some(s) => owned(s),
            None => owned("http"),
        },
    };
    out.append("://");
    let host_text = match host {
        Some(v) => header_str(v),
        None => None,
    };
    match host_text {
        Some(h) => out.append(h.as_str()),
        None => out.append("127.0.0.1:8080"),
    }
    out
}

/// `value` in `application/x-www-form-urlencoded` form.
pub fn url_encode(value: &str) -> (r: String)
    ensures
        r@ == form_urlencoded(value@),
{
    form_urlencode(value)
}

/// Appends `&name=true` or `&name=false` for a given flag.
pub fn append_bool_param(target: &mut String, name: &str, value: Option<bool>)
    ensures
        final(target)@ == old(target)@ + bool_param(name@, value),
{
    match value {
        Some(b) => {
            push_char(target, '&');
            target.append(name);
            push_char(target, '=');
            target.append(if b {
                    "true"
                } else {
                    "false"
                },
            );
            proof {
                reveal_strlit("&");
                reveal_strlit("=");
                assert("&"@ =~= seq!['&']);
                assert("="@ =~= seq!['=']);
            }
        },
        None => {},
    }
}

/// Where a search is sent; search must be configured.
pub fn search_redirect(config: &Config, params: &SearchParams) -> (r: Result<String, AppError>)
    ensures
        match config.third_party.searx_url {
            Some(u) => r matches Ok(s) && s@ == spec_search_redirect(u@, *params),
            None => r matches Err(AppError::BadRequest(m)) && m@ == "search is disabled"@,
        },
{
    let searx_url = match &config.third_party.searx_url {
        Some(u) => u,
        None => return Err(AppError::BadRequest(owned("search is disabled"))),
    };
    let mut target = concat(searx_url.as_str(), "/search?q=");
    let q = url_encode(params.q.as_str());
    target.append(q.as_str());
    let mut redirect = owned("/get?url=");
    let t = url_encode(target.as_str());
    redirect.append(t.as_str());
    append_bool_param(&mut redirect, "highlight_code", params.highlight_code);
    append_bool_param(&mut redirect, "optimize_images", params.optimize_images);
    append_bool_param(&mut redirect, "skip_image_optimization", params.skip_image_optimization);
    append_bool_param(&mut redirect, "direct_documents", params.direct_documents);
    append_bool_param(&mut redirect, "direct_images", params.direct_images);
    append_bool_param(&mut redirect, "direct_media", params.direct_media);
    append_bool_param(&mut redirect, "direct_files", params.direct_files);
    assert(redirect@ =~= spec_search_redirect(searx_url@, *params));
    Ok(redirect)
}

/// Whether the reader page is asked for a daletpack download.
pub fn wants_daletpack(format: Option<&str>) -> (b: bool)
    ensures
        b == spec_wants_daletpack(
            match format {
                Some(f) => Some(f@),
                None => None,
            },
        ),
{
    match format {
        Some(f) => str_eq(f, "dalet") || str_eq(f, "daletpack") || str_eq(
            f,
            "application/daletpack",
        ),
        None => false,
    }
}

/// The link options of the reader page.
pub fn page_options(config: &Config, params: &GetParams) -> (o: RewriteOptions)
    ensures
        spec_page_options(*config, *params, o),
{
    let requested = if config.img_optimize_by_default {
        !matches!(params.skip_image_optimization, Some(true))
    } else {
        matches!(params.optimize_images, Some(true))
    };
    RewriteOptions {
        proxy_documents: config.proxy.documents && !matches!(params.direct_documents, Some(true)),
        proxy_images: config.proxy.images && !matches!(params.direct_images, Some(true)),
        proxy_media: config.proxy.media && !matches!(params.direct_media, Some(true)),
        proxy_files: config.proxy.files && !matches!(params.direct_files, Some(true)),
        process_images: config.proxy.process_images && requested,
    }
}

fn flag_or(value: Option<bool>, default: bool) -> (b: bool)
    ensures
        b == or_default(value, default),
{
    match value {
        Some(v) => v,
        None => default,
    }
}

/// Where the API reads its page from: a URL, else text, else base64 bytes; text
/// and bytes need their input format.
pub fn api_page_source(request: &ApiRequest) -> (r: Result<PageSource, AppError>)
    ensures
        request.url matches Some(u) ==> (r matches Ok(PageSource::Url(v)) && v@ == u@),
        request.url is None && request.text is Some ==> match request.input_type {
            Some(t) => r matches Ok(PageSource::Text { input_type, text }) && input_type@ == t@
                && text@ == request.text->0@,
            None => r matches Err(AppError::BadRequest(m)) && m@ == "input_type is required"@,
        },
        request.url is None && request.text is None && request.bytes_base64 is Some ==> match request.input_type {
            Some(t) => match base64_decoded(request.bytes_base64->0@) {
                Ok(b) => r matches Ok(PageSource::Bytes { input_type, bytes }) && input_type@ == t@
                    && bytes@ == b,
                Err(e) => r matches Err(AppError::BadRequest(m)) && m@ == e,
            },
            None => r matches Err(AppError::BadRequest(m)) && m@ == "input_type is required"@,
        },
        request.url is None && request.text is None && request.bytes_base64 is None ==> (r matches Err(
            AppError::BadRequest(m),
        ) && m@ == "url, text, or bytes_base64 is required"@),
{
    if let Some(url) = &request.url {
        return Ok(PageSource::Url(url.clone()));
    }
    if let Some(text) = &request.text {
        return match &request.input_type {
            Some(t) => Ok(PageSource::Text { input_type: t.clone(), text: text.clone() }),
            None => Err(AppError::BadRequest(owned("input_type is required"))),
        };
    }
    if let Some(encoded) = &request.bytes_base64 {
        return match &request.input_type {
            Some(t) => match base64_decode(encoded.as_str()) {
                Ok(bytes) => Ok(PageSource::Bytes { input_type: t.clone(), bytes }),
                Err(m) => Err(AppError::BadRequest(m)),
            },
            None => Err(AppError::BadRequest(owned("input_type is required"))),
        };
    }
    Err(AppError::BadRequest(owned("url, text, or bytes_base64 is required")))
}

/// The output format of an API answer: as asked, daletpack by default.
pub fn api_output_type(request: &ApiRequest) -> (r: Result<String, AppError>)
    ensures
        ({
            let asked = match request.output_type {
                Some(t) => t@,
                None => DEFAULT_API_OUTPUT@,
            };
            &&& plugin_outputs().contains(spec_output_alias(asked)) ==> (r matches Ok(s) && s@
                == spec_output_alias(asked))
            &&& !plugin_outputs().contains(spec_output_alias(asked)) ==> (r matches Err(
                AppError::BadRequest(m),
            ) && m@ == "unsupported output format: "@ + spec_output_alias(asked))
        }),
{
    match &request.output_type {
        Some(t) => resolve_output_type(t.as_str()),
        None => resolve_output_type(DEFAULT_API_OUTPUT),
    }
}

/// How the API rewrites the links of an HTML answer: not at all, or for the
/// page's URL (which is then needed) at the request's base (by default
/// `fallback_base`) with the options asked and allowed.
pub fn api_rewrite_plan(config: &Config, request: &ApiRequest, fallback_base: &str) -> (r: Result<
    Option<RewritePlan>,
    AppError,
>)
    ensures
        !spec_api_rewrites(*request) ==> (r matches Ok(None)),
        request.rewrite_links == Some(false) ==> (r matches Ok(None)),
        spec_api_rewrites(*request) && request.url is None ==> (r matches Err(
            AppError::BadRequest(m),
        ) && m@ == "url is required when rewrite_links is true"@),
        spec_api_rewrites(*request) && request.url is Some ==> (r matches Ok(Some(plan)) && {
            &&& plan.remote_url@ == request.url->0@
            &&& plan.request_base@ == match request.request_base {
                Some(b) => b@,
                None => fallback_base@,
            }
            &&& spec_api_options(*config, *request, plan.options)
        }),
{
    let rewrite = flag_or(request.rewrite_links, request.url.is_some());
    if !rewrite {
        return Ok(None);
    }
    let remote_url = match &request.url {
        Some(u) => u.clone(),
        None => return Err(AppError::BadRequest(owned("url is required when rewrite_links is true"))),
    };
    let base = match &request.request_base {
        Some(b) => b.clone(),
        None => owned(fallback_base),
    };
    let options = RewriteOptions {
        proxy_documents: flag_or(request.proxy_documents, config.proxy.documents)
            && config.proxy.documents,
        proxy_images: flag_or(request.proxy_images, config.proxy.images) && config.proxy.images,
        proxy_media: flag_or(request.proxy_media, config.proxy.media) && config.proxy.media,
        proxy_files: flag_or(request.proxy_files, config.proxy.files) && config.proxy.files,
        process_images: config.proxy.process_images && flag_or(
            request.process_images,
            config.img_optimize_by_default,
        ),
    };
    Ok(Some(RewritePlan { remote_url, request_base: base, options }))
}

/// The configuration's JSON without braces, brackets, quotes and commas, as the
/// configuration page shows it.
pub fn strip_json_punctuation(json: &str) -> (r: String)
    ensures
        r@ == json@.filter(|c: char| !is_json_punctuation(c)),
{
    let cs = chars_of(json);
    let n = cs.len();
    let mut out = String::new();
    let mut i: usize = 0;
    assert(cs@.take(0).filter(|c: char| !is_json_punctuation(c)) =~= Seq::<char>::empty());
    while i < n
        invariant
            n == cs@.len(),
            cs@ == json@,
            i <= n,
            out@ == cs@.take(i as int).filter(|c: char| !is_json_punctuation(c)),
        decreases n - i,
    {
        let c = cs[i];
        assert(cs@.take(i + 1).drop_last() =~= cs@.take(i as int));
        proof {
            reveal_with_fuel(Seq::<char>::filter, 1);
        }
        if !(c == '{' || c == '}' || c == '[' || c == ']' || c == '"' || c == ',') {
            push_char(&mut out, c);
        }
        i = i + 1;
    }
    assert(cs@.take(n as int) =~= cs@);
    out
}

/// Whether search is offered, as the badge says it.
pub fn search_status(config: &Config) -> (s: &'static str)
    ensures
        s@ == if config.third_party.searx_url is Some {
            "enabled"@
        } else {
            "disabled"@
        },
{
    if config.third_party.searx_url.is_some() {
        "enabled"
    } else {
        "disabled"
    }
}

/// Whether the start page offers re-encoded images by default.
pub fn default_process_images(config: &Config) -> (b: bool)
    ensures
        b == (config.proxy.process_images && config.img_optimize_by_default),
{
    config.proxy.process_images && config.img_optimize_by_default
}

} // verus!
