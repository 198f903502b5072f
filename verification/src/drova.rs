//! The page converter: which protocols, input formats and output formats the
//! `drova` requester offers, how an output format is chosen, and how a rendered
//! page becomes an answer.
use vstd::prelude::*;

use dalet::types::Page;
use drova_sdk::requester::{Error as DrovaError, OutputData, Requester, RequesterBuilder};

use crate::error::AppError;
use crate::footnotes::{has_nested_footnote_risk, nested_footnote_risk};
use crate::reply::{is_valid_header_value, text_header, HttpReply};
use crate::text::{concat, last_segment, last_path_segment, push_char, str_eq,
    string_from_chars};

verus! {

broadcast use vstd::string::group_string_axioms;

pub const HTML_OUTPUT: &'static str = "text/html";

pub const DALETPACK_OUTPUT: &'static str = "application/daletpack";

pub const DEFAULT_PAGE_OUTPUT: &'static str = HTML_OUTPUT;

pub const DEFAULT_API_OUTPUT: &'static str = DALETPACK_OUTPUT;

/// The requester of `drova_sdk`: handlers for protocols, input and output formats.
#[verifier::external_type_specification]
#[verifier::external_body]
pub struct ExRequester<'a>(Requester<'a>);

/// A page in the `dalet` document model.
#[verifier::external_type_specification]
#[verifier::external_body]
pub struct ExPage(Page);

/// The protocols (URL schemes) a requester handles, in registration order.
pub uninterp spec fn requester_protocols(r: Requester) -> Seq<Seq<char>>;

/// The input formats (MIME types) a requester reads, in registration order.
pub uninterp spec fn requester_inputs(r: Requester) -> Seq<Seq<char>>;

/// The output formats (MIME types) a requester renders, in registration order.
pub uninterp spec fn requester_outputs(r: Requester) -> Seq<Seq<char>>;

/// Whether a requester's input and output handlers are the ones that
/// `drova_plugins::requester_plugins` registers for their formats.
pub uninterp spec fn has_plugin_handlers(r: Requester) -> bool;

/// The HTML text that the HTML output of `drova_plugins`
/// (`HtmlOutput::process_page`) renders a page as.
pub uninterp spec fn html_rendering(page: Page) -> Seq<char>;

/// The bytes that the daletpack output of `drova_plugins`
/// (`DaletpackOutput::process_page`, `daletpack::serialize`) makes of a page, or
/// `None` where serializing fails.
pub uninterp spec fn daletpack_rendering(page: Page) -> Option<Seq<u8>>;

/// The page that the input handler `drova_plugins` registers for exactly
/// `input_type` reads from `text` (`InputHandler::process_text`), or `None`
/// where it fails.
pub uninterp spec fn plugin_text_page(input_type: Seq<char>, text: Seq<char>) -> Option<Page>;

/// The page that the input handler `drova_plugins` registers for exactly
/// `input_type` reads from `bytes` (`InputHandler::process_bytes`), or `None`
/// where it fails.
pub uninterp spec fn plugin_bytes_page(input_type: Seq<char>, bytes: Seq<u8>) -> Option<Page>;

/// The upper-case mapping of a character outside ASCII (`char::to_uppercase`),
/// one or more characters.
pub uninterp spec fn non_ascii_uppercase(c: char) -> Seq<char>;

/// The upper-case mapping of a character (`char::to_uppercase`): an ASCII
/// letter `a`-`z` becomes `A`-`Z`, any other ASCII character stays as it is,
/// and a character outside ASCII maps as Unicode says.
pub open spec fn char_uppercase(c: char) -> Seq<char> {
    if (c as u32) < 128 {
        if 'a' <= c && c <= 'z' {
            seq![((c as u32) - 32) as char]
        } else {
            seq![c]
        }
    } else {
        non_ascii_uppercase(c)
    }
}

/// The protocols that `drova_plugins` registers.
pub open spec fn plugin_protocols() -> Seq<Seq<char>> {
    seq!["http"@, "https"@, "gemini"@, "gopher"@]
}

/// The input formats that `drova_plugins` registers.
pub open spec fn plugin_inputs() -> Seq<Seq<char>> {
    seq![
        "application/daletpack"@,
        "text/gemini"@,
        "text/x-gophermap"@,
        "text/markdown"@,
        "text/x-markdown"@,
        "text/html"@,
        "text/plain"@,
        "text/*"@,
    ]
}

/// The output formats that `drova_plugins` registers.
pub open spec fn plugin_outputs() -> Seq<Seq<char>> {
    seq!["application/daletpack"@, "text/html"@]
}

/// A page rendered by an output handler.
pub enum RenderedOutput {
    Text(String),
    Bytes(Vec<u8>),
}

/// One choice of output format offered to the visitor.
pub struct OutputOption {
    pub value: String,
    pub label: String,
    pub selected: bool,
}

pub open spec fn strings_view(v: Seq<String>) -> Seq<Seq<char>> {
    v.map_values(|s: String| s@)
}

// ---------------------------------------------------------------------------
// Trusted access to drova
// ---------------------------------------------------------------------------

/// A requester with the handlers of `drova_plugins::requester_plugins`
/// (`RequesterBuilder::default().plugin(requester_plugins).build()`); its
/// handler lists are those that `requester_plugins` registers, in its order,
/// and its handlers are those of `drova_plugins`.
#[verifier::external_body]
pub fn requester() -> (r: Requester<'static>)
    ensures
        has_plugin_handlers(r),
        requester_protocols(r) == plugin_protocols(),
        requester_inputs(r) == plugin_inputs(),
        requester_outputs(r) == plugin_outputs(),
{
    RequesterBuilder::default().plugin(drova_plugins::requester_plugins).build()
}

/// `Requester::protocols`, collected as strings.
#[verifier::external_body]
fn protocol_names(r: &Requester<'_>) -> (v: Vec<String>)
    ensures
        strings_view(v@) == requester_protocols(*r),
{
    r.protocols().map(str::to_string).collect()
}

/// `Requester::inputs`, collected as strings.
#[verifier::external_body]
fn input_names(r: &Requester<'_>) -> (v: Vec<String>)
    ensures
        strings_view(v@) == requester_inputs(*r),
{
    r.inputs().map(str::to_string).collect()
}

/// `Requester::outputs`, collected as strings.
#[verifier::external_body]
fn output_names(r: &Requester<'_>) -> (v: Vec<String>)
    ensures
        strings_view(v@) == requester_outputs(*r),
{
    r.outputs().map(str::to_string).collect()
}

/// Whether a handler key holds none of the characters that `glob_match` treats
/// as pattern syntax, so that it matches exactly the string it spells.
pub open spec fn plain_pattern(k: Seq<char>) -> bool {
    forall|i: int|
        0 <= i < k.len() ==> k[i] != '*' && k[i] != '?' && k[i] != '[' && k[i] != '{' && k[i]
            != '\\' && k[i] != '!'
}

/// `Requester::process_output`: renders `page` with the output handler of
/// `output_type`, or of the first key that glob-matches it. When no key is
/// `output_type` and every key is a plain pattern (so matches only itself; a
/// backslash in `output_type` is left out, as `glob_match` takes it for a path
/// separator on some systems), there is no handler and the call fails. With the
/// handlers of `drova_plugins`, `text/html` gives the page's HTML rendering as
/// text (`HtmlOutput::process_page` never fails), and `application/daletpack`
/// gives its daletpack bytes, or fails where serializing fails.
#[verifier::external_body]
fn process_output(r: &Requester<'_>, output_type: &str, page: Page) -> (res: Result<
    RenderedOutput,
    DrovaError,
>)
    ensures
        (forall|i: int|
            0 <= i < requester_outputs(*r).len() ==> plain_pattern(
                #[trigger] requester_outputs(*r)[i],
            )) && !requester_outputs(*r).contains(output_type@) && !output_type@.contains('\\')
            ==> res is Err,
        has_plugin_handlers(*r) && output_type@ == HTML_OUTPUT@ ==> res matches Ok(
            RenderedOutput::Text(_)
        ),
        res matches Ok(RenderedOutput::Text(t)) ==> (has_plugin_handlers(*r) && output_type@
            == HTML_OUTPUT@ ==> t@ == html_rendering(page)),
        has_plugin_handlers(*r) && output_type@ == DALETPACK_OUTPUT@ && daletpack_rendering(page) is Some
            ==> res matches Ok(RenderedOutput::Bytes(_)),
        has_plugin_handlers(*r) && output_type@ == DALETPACK_OUTPUT@ && daletpack_rendering(page) is None
            ==> res is Err,
        res matches Ok(RenderedOutput::Bytes(v)) ==> (has_plugin_handlers(*r) && output_type@
            == DALETPACK_OUTPUT@ ==> daletpack_rendering(page) == Some(v@)),
{
    match r.process_output(output_type, page) {
        Ok(OutputData::Text(text)) => Ok(RenderedOutput::Text(text)),
        Ok(OutputData::Bytes(bytes)) => Ok(RenderedOutput::Bytes(bytes)),
        Err(error) => Err(error),
    }
}

/// `Requester::process_text`: reads `text` with the input handler of exactly
/// `input_type`, failing when there is none; with the handlers of
/// `drova_plugins`, it gives the page that handler reads. The markdown handler
/// of `drova_plugins` panics on a footnote definition nested in a block quote
/// or a list (it looks such a definition up among the top-level ones only):
/// such text is left out, by `nested_footnote_risk`, which every such nested
/// definition meets.
#[verifier::external_body]
fn process_text_input(r: &Requester<'_>, input_type: &str, text: String) -> (p: Result<
    Page,
    DrovaError,
>)
    requires
        has_plugin_handlers(*r),
        !(is_markdown_input(input_type@) && nested_footnote_risk(text@)),
    ensures
        !requester_inputs(*r).contains(input_type@) ==> p is Err,
        p is Ok <==> plugin_text_page(input_type@, text@) is Some,
        p matches Ok(page) ==> plugin_text_page(input_type@, text@) == Some(page),
{
    r.process_text(input_type, text)
}

/// `Requester::process_bytes`: reads `bytes` with the input handler of exactly
/// `input_type`, failing when there is none; with the handlers of
/// `drova_plugins`, it gives the page that handler reads.
#[verifier::external_body]
fn process_bytes_input(r: &Requester<'_>, input_type: &str, bytes: Vec<u8>) -> (p: Result<
    Page,
    DrovaError,
>)
    ensures
        !requester_inputs(*r).contains(input_type@) ==> p is Err,
        has_plugin_handlers(*r) ==> (p is Ok <==> plugin_bytes_page(input_type@, bytes@) is Some),
        p matches Ok(page) ==> (has_plugin_handlers(*r) ==> plugin_bytes_page(input_type@, bytes@)
            == Some(page)),
{
    r.process_bytes(input_type, bytes)
}

/// `String::from_utf8`: the text when `bytes` is valid UTF-8. The error's message
/// is not stated.
#[verifier::external_body]
fn string_from_utf8(bytes: Vec<u8>) -> (r: Result<String, String>)
    ensures
        r is Ok <==> vstd::utf8::valid_utf8(bytes@),
        r matches Ok(s) ==> s@ == vstd::utf8::decode_utf8(bytes@),
{
    String::from_utf8(bytes).map_err(|error| error.to_string())
}

/// `char::to_uppercase`, collected: for ASCII, the ASCII upper case.
#[verifier::external_body]
fn char_to_uppercase(c: char) -> (v: Vec<char>)
    ensures
        (c as u32) < 128 ==> v@ == char_uppercase(c),
        (c as u32) >= 128 ==> v@ == non_ascii_uppercase(c),
{
    c.to_uppercase().collect()
}

// ---------------------------------------------------------------------------
// Specifications
// ---------------------------------------------------------------------------

/// The output format that a short name stands for.
pub open spec fn spec_output_alias(output_type: Seq<char>) -> Seq<char> {
    if output_type == "html"@ {
        HTML_OUTPUT@
    } else if output_type == "dalet"@ || output_type == "daletpack"@ {
        DALETPACK_OUTPUT@
    } else {
        output_type
    }
}

/// `str::to_uppercase`: each character's upper-case mapping, in order.
pub open spec fn spec_uppercase(s: Seq<char>) -> Seq<char> {
    s.flat_map(|c: char| char_uppercase(c))
}

/// The label shown for an output format: the part after its last `/`, all in
/// capitals when at most four bytes long, capitalized otherwise.
pub open spec fn spec_output_label(output_type: Seq<char>) -> Seq<char> {
    let name = last_segment(output_type);
    if vstd::utf8::encode_utf8(name).len() <= 4 {
        spec_uppercase(name)
    } else if name.len() == 0 {
        name
    } else {
        char_uppercase(name[0]) + name.drop_first()
    }
}

/// The options offered for the output formats `outputs`, `selected` marked.
pub open spec fn spec_output_options(
    outputs: Seq<Seq<char>>,
    selected: Seq<char>,
    options: Seq<OutputOption>,
) -> bool {
    &&& options.len() == outputs.len()
    &&& forall|i: int|
        #![trigger options[i]]
        0 <= i < outputs.len() ==> {
            &&& options[i].value@ == outputs[i]
            &&& options[i].label@ == spec_output_label(outputs[i])
            &&& options[i].selected == (outputs[i] == selected)
        }
}

/// The headers of a daletpack download.
pub open spec fn daletpack_headers() -> Seq<(Seq<char>, Seq<u8>)> {
    seq![
        ("content-type"@, vstd::utf8::encode_utf8(DALETPACK_OUTPUT@)),
        ("content-disposition"@, vstd::utf8::encode_utf8("attachment; filename=\"txtdot.daletpack\""@)),
    ]
}

/// The markdown input formats.
pub open spec fn is_markdown_input(input_type: Seq<char>) -> bool {
    input_type == "text/markdown"@ || input_type == "text/x-markdown"@
}

/// The answer to a markdown text that the markdown reader cannot take.
pub const NESTED_FOOTNOTE_MESSAGE: &'static str =
    "footnote definitions inside block quotes or lists are not supported";

pub open spec fn rendered_body(r: RenderedOutput) -> Seq<u8> {
    match r {
        RenderedOutput::Text(t) => vstd::utf8::encode_utf8(t@),
        RenderedOutput::Bytes(b) => b@,
    }
}

// ---------------------------------------------------------------------------
// Executable
// ---------------------------------------------------------------------------

/// The protocols (URL schemes) the proxy can fetch.
pub fn supported_protocols() -> (v: Vec<String>)
    ensures
        strings_view(v@) == plugin_protocols(),
{
    let r = requester();
    protocol_names(&r)
}

/// The input formats the proxy can read.
pub fn supported_inputs() -> (v: Vec<String>)
    ensures
        strings_view(v@) == plugin_inputs(),
{
    let r = requester();
    input_names(&r)
}

/// The output formats the proxy can render.
pub fn supported_outputs() -> (v: Vec<String>)
    ensures
        strings_view(v@) == plugin_outputs(),
{
    let r = requester();
    output_names(&r)
}

/// The label shown for an output format.
pub fn output_label(output_type: &str) -> (label: String)
    ensures
        label@ == spec_output_label(output_type@),
{
    let seg = last_path_segment(output_type);
    let name = string_from_chars(seg.as_slice());
    let n = seg.len();
    assert(name@ == last_segment(output_type@));
    if name.as_str().as_bytes().len() <= 4 {
        let mut out = String::new();
        let mut i: usize = 0;
        assert(seg@.take(0) =~= Seq::<char>::empty());
        assert(seg@.take(0).flat_map(|c: char| char_uppercase(c)) =~= Seq::<char>::empty());
        while i < n
            invariant
                n == seg@.len(),
                i <= n,
                out@ == seg@.take(i as int).flat_map(|c: char| char_uppercase(c)),
            decreases n - i,
        {
            let up = char_to_uppercase(seg[i]);
            let m = up.len();
            let mut j: usize = 0;
            let ghost base = out@;
            while j < m
                invariant
                    m == up@.len(),
                    j <= m,
                    out@ == base + up@.take(j as int),
                decreases m - j,
            {
                push_char(&mut out, up[j]);
                assert(up@.take(j + 1) =~= up@.take(j as int).push(up@[j as int]));
                j = j + 1;
            }
            assert(up@.take(m as int) =~= up@);
            proof {
                seg@.lemma_flat_map_take_append(|c: char| char_uppercase(c), i as int);
            }
            i = i + 1;
        }
        assert(seg@.take(n as int) =~= seg@);
        assert(out@ == spec_uppercase(seg@));
        out
    } else if n == 0 {
        name
    } else {
        let up = char_to_uppercase(seg[0]);
        let mut out = string_from_chars(up.as_slice());
        let (_, tail) = seg.as_slice().split_at(1);
        assert(tail@ =~= seg@.drop_first());
        let rest = string_from_chars(tail);
        out.append(rest.as_str());
        assert(name@ == seg@);
        out
    }
}

/// The output formats as options, the one equal to `selected` marked.
pub fn output_options(selected: &str) -> (options: Vec<OutputOption>)
    ensures
        spec_output_options(plugin_outputs(), selected@, options@),
{
    let outputs = supported_outputs();
    let ghost names = strings_view(outputs@);
    let n = outputs.len();
    let mut options: Vec<OutputOption> = Vec::new();
    let mut i: usize = 0;
    while i < n
        invariant
            n == outputs@.len(),
            names == strings_view(outputs@),
            names == plugin_outputs(),
            i <= n,
            spec_output_options(names.take(i as int), selected@, options@),
        decreases n - i,
    {
        let value = outputs[i].clone();
        let label = output_label(value.as_str());
        let is_selected = str_eq(value.as_str(), selected);
        options.push(OutputOption { value, label, selected: is_selected });
        assert(names[i as int] == outputs@[i as int]@);
        assert forall|k: int| #![trigger options@[k]] 0 <= k < i + 1 implies {
            &&& options@[k].value@ == names.take(i + 1)[k]
            &&& options@[k].label@ == spec_output_label(names.take(i + 1)[k])
            &&& options@[k].selected == (names.take(i + 1)[k] == selected@)
        } by {
            if k < i {
                assert(names.take(i as int)[k] == names.take(i + 1)[k]);
            }
        }
        i = i + 1;
    }
    assert(names.take(n as int) =~= names);
    options
}

/// The output format that a name stands for: `html` and the daletpack names are
/// short for their formats. It must be one that the proxy renders.
pub fn resolve_output_type(output_type: &str) -> (r: Result<String, AppError>)
    ensures
        plugin_outputs().contains(spec_output_alias(output_type@)) ==> (r matches Ok(s) && s@
            == spec_output_alias(output_type@)),
        !plugin_outputs().contains(spec_output_alias(output_type@)) ==> (r matches Err(
            AppError::BadRequest(m),
        ) && m@ == "unsupported output format: "@ + spec_output_alias(output_type@)),
{
    let resolved: &str = if str_eq(output_type, "html") {
        HTML_OUTPUT
    } else if str_eq(output_type, "dalet") || str_eq(output_type, "daletpack") {
        DALETPACK_OUTPUT
    } else {
        output_type
    };
    assert(resolved@ == spec_output_alias(output_type@));
    let outputs = supported_outputs();
    let ghost names = strings_view(outputs@);
    let n = outputs.len();
    let mut i: usize = 0;
    while i < n
        invariant
            n == outputs@.len(),
            names == strings_view(outputs@),
            names == plugin_outputs(),
            i <= n,
            resolved@ == spec_output_alias(output_type@),
            forall|k: int| 0 <= k < i ==> names[k] != resolved@,
        decreases n - i,
    {
        if str_eq(outputs[i].as_str(), resolved) {
            assert(names[i as int] == resolved@);
            return Ok(crate::text::owned(resolved));
        }
        i = i + 1;
    }
    Err(AppError::BadRequest(concat("unsupported output format: ", resolved)))
}

/// Whether `output_type` is the HTML output format.
pub fn is_html_output(output_type: &str) -> (b: bool)
    ensures
        b == (output_type@ == HTML_OUTPUT@),
{
    str_eq(output_type, HTML_OUTPUT)
}

/// Whether `output_type` is the daletpack output format.
pub fn is_daletpack_output(output_type: &str) -> (b: bool)
    ensures
        b == (output_type@ == DALETPACK_OUTPUT@),
{
    str_eq(output_type, DALETPACK_OUTPUT)
}

/// The HTML text of a page rendered for the HTML output: the text itself, or
/// bytes that must be UTF-8.
pub fn html_text(rendered: Result<RenderedOutput, DrovaError>) -> (r: Result<String, AppError>)
    ensures
        match rendered {
            Err(e) => r == Err::<String, AppError>(AppError::Drova(e)),
            Ok(RenderedOutput::Text(t)) => r matches Ok(s) && s@ == t@,
            Ok(RenderedOutput::Bytes(b)) => if vstd::utf8::valid_utf8(b@) {
                r matches Ok(s) && s@ == vstd::utf8::decode_utf8(b@)
            } else {
                r matches Err(AppError::BadRequest(_))
            },
        },
{
    match rendered {
        Err(e) => Err(AppError::Drova(e)),
        Ok(RenderedOutput::Text(t)) => Ok(t),
        Ok(RenderedOutput::Bytes(b)) => match string_from_utf8(b) {
            Ok(s) => Ok(s),
            Err(m) => Err(AppError::BadRequest(m)),
        },
    }
}

/// The bytes of a page rendered for the daletpack output, which must not be text.
pub fn daletpack_bytes(rendered: Result<RenderedOutput, DrovaError>) -> (r: Result<
    Vec<u8>,
    AppError,
>)
    ensures
        match rendered {
            Err(e) => r == Err::<Vec<u8>, AppError>(AppError::Drova(e)),
            Ok(RenderedOutput::Bytes(b)) => r matches Ok(v) && v@ == b@,
            Ok(RenderedOutput::Text(_)) => r matches Err(AppError::BadRequest(m)) && m@
                == "daletpack output returned text"@,
        },
{
    match rendered {
        Err(e) => Err(AppError::Drova(e)),
        Ok(RenderedOutput::Bytes(b)) => Ok(b),
        Ok(RenderedOutput::Text(_)) => Err(
            AppError::BadRequest(crate::text::owned("daletpack output returned text")),
        ),
    }
}

/// Renders `page` as HTML, which always succeeds: the HTML output handler
/// renders every page as text.
pub fn render_html(page: Page) -> (r: Result<String, AppError>)
    ensures
        r matches Ok(s) && s@ == html_rendering(page),
{
    let r = requester();
    html_text(process_output(&r, HTML_OUTPUT, page))
}

/// Renders `page` as daletpack: the bytes of the daletpack output handler, or
/// the handler's own error where serializing fails.
pub fn render_daletpack(page: Page) -> (r: Result<Vec<u8>, AppError>)
    ensures
        daletpack_rendering(page) is None ==> r matches Err(AppError::Drova(_)),
        daletpack_rendering(page) is Some ==> (r matches Ok(v) && daletpack_rendering(page)
            == Some(v@)),
{
    let r = requester();
    daletpack_bytes(process_output(&r, DALETPACK_OUTPUT, page))
}

/// A daletpack download of `bytes`, or the error that producing them ended in.
pub fn daletpack_response(bytes: Result<Vec<u8>, AppError>) -> (r: Result<HttpReply, AppError>)
    ensures
        match bytes {
            Err(e) => r == Err::<HttpReply, AppError>(e),
            Ok(b) => r matches Ok(reply) && reply.header_list() == daletpack_headers()
                && reply.body@ == b@,
        },
{
    match bytes {
        Err(e) => Err(e),
        Ok(body) => {
            let mut headers: Vec<(String, Vec<u8>)> = Vec::new();
            headers.push(text_header("content-type", DALETPACK_OUTPUT));
            headers.push(
                text_header("content-disposition", "attachment; filename=\"txtdot.daletpack\""),
            );
            let reply = HttpReply { headers, body };
            assert(reply.header_list() =~= daletpack_headers());
            Ok(reply)
        },
    }
}

/// The answer for a page rendered in `output_type`: that type as content type,
/// the rendering as body.
pub fn rendered_reply(output_type: &str, rendered: Result<RenderedOutput, DrovaError>) -> (r:
    Result<HttpReply, AppError>)
    ensures
        match rendered {
            Err(e) => r == Err::<HttpReply, AppError>(AppError::Drova(e)),
            Ok(out) => r matches Ok(reply) && reply.header_list() == seq![
                ("content-type"@, vstd::utf8::encode_utf8(output_type@)),
            ] && reply.body@ == rendered_body(out),
        },
{
    match rendered {
        Err(e) => Err(AppError::Drova(e)),
        Ok(out) => {
            let body = match out {
                RenderedOutput::Text(t) => crate::reply::utf8_bytes(t.as_str()),
                RenderedOutput::Bytes(b) => b,
            };
            let mut headers: Vec<(String, Vec<u8>)> = Vec::new();
            headers.push(text_header("content-type", output_type));
            let reply = HttpReply { headers, body };
            assert(reply.header_list() =~= seq![
                ("content-type"@, vstd::utf8::encode_utf8(output_type@)),
            ]);
            Ok(reply)
        },
    }
}

/// The answer for `page` in the output format `output_type`: a daletpack
/// download, or the rendering with `output_type` as its content type, which must
/// be a valid header value.
pub fn output_response(output_type: &str, page: Page) -> (r: Result<HttpReply, AppError>)
    ensures
        output_type@ == DALETPACK_OUTPUT@ ==> (r matches Ok(reply) ==> reply.header_list()
            == daletpack_headers()),
        output_type@ != DALETPACK_OUTPUT@ && !is_valid_header_value(output_type@) ==> (r matches Err(
            AppError::BadRequest(m),
        ) && m@ == "failed to parse header value"@),
        output_type@ != DALETPACK_OUTPUT@ && is_valid_header_value(output_type@) ==> (r matches Ok(
            reply,
        ) ==> reply.header_list() == seq![
            ("content-type"@, vstd::utf8::encode_utf8(output_type@)),
        ]),
        output_type@ != DALETPACK_OUTPUT@ && is_valid_header_value(output_type@)
            && !plugin_outputs().contains(output_type@) && !output_type@.contains('\\') ==> r matches Err(
            AppError::Drova(_),
        ),
        output_type@ == HTML_OUTPUT@ ==> (r matches Ok(reply) && reply.header_list() == seq![
            ("content-type"@, vstd::utf8::encode_utf8(HTML_OUTPUT@)),
        ] && reply.body@ == vstd::utf8::encode_utf8(html_rendering(page))),
        output_type@ == DALETPACK_OUTPUT@ && daletpack_rendering(page) is None ==> r matches Err(
            AppError::Drova(_),
        ),
        output_type@ == DALETPACK_OUTPUT@ && daletpack_rendering(page) is Some ==> (r matches Ok(
            reply,
        ) && reply.header_list() == daletpack_headers() && daletpack_rendering(page) == Some(
            reply.body@,
        )),
{
    proof {
        reveal_strlit("application/daletpack");
        reveal_strlit("text/html");
        if output_type@ == HTML_OUTPUT@ {
            crate::reply::lemma_printable_ascii_header_value(HTML_OUTPUT@);
            assert(HTML_OUTPUT@ != DALETPACK_OUTPUT@);
        }
    }
    if is_daletpack_output(output_type) {
        return daletpack_response(render_daletpack(page));
    }
    if !crate::reply::valid_header_value(output_type) {
        return Err(AppError::BadRequest(crate::text::owned("failed to parse header value")));
    }
    let r = requester();
    proof {
        reveal_strlit("application/daletpack");
        reveal_strlit("text/html");
        assert forall|i: int| 0 <= i < plugin_outputs().len() implies plain_pattern(
            #[trigger] plugin_outputs()[i],
        ) by {
            if i == 0 {
                assert(plugin_outputs()[i] == "application/daletpack"@);
            } else {
                assert(plugin_outputs()[i] == "text/html"@);
            }
        }
    }
    rendered_reply(output_type, process_output(&r, output_type, page))
}

/// Reads `text` as a page of the format `input_type`. Markdown with a footnote
/// definition that may sit inside a block quote or a list
/// (`nested_footnote_risk`) is refused, as the markdown reader cannot take it.
pub fn process_text(input_type: &str, text: String) -> (r: Result<Page, AppError>)
    ensures
        !plugin_inputs().contains(input_type@) ==> r matches Err(AppError::Drova(_)),
        is_markdown_input(input_type@) && nested_footnote_risk(text@) ==> (r matches Err(
            AppError::BadRequest(m)
        ) && m@ == NESTED_FOOTNOTE_MESSAGE@),
        !(is_markdown_input(input_type@) && nested_footnote_risk(text@)) ==> match plugin_text_page(
            input_type@,
            text@,
        ) {
            Some(page) => r matches Ok(p) && p == page,
            None => r matches Err(AppError::Drova(_)),
        },
{
    if (str_eq(input_type, "text/markdown") || str_eq(input_type, "text/x-markdown"))
        && has_nested_footnote_risk(text.as_str()) {
        return Err(AppError::BadRequest(crate::text::owned(NESTED_FOOTNOTE_MESSAGE)));
    }
    let r = requester();
    match process_text_input(&r, input_type, text) {
        Ok(page) => Ok(page),
        Err(e) => Err(AppError::Drova(e)),
    }
}

/// Reads `bytes` as a page of the format `input_type`.
pub fn process_bytes(input_type: &str, bytes: Vec<u8>) -> (r: Result<Page, AppError>)
    ensures
        !plugin_inputs().contains(input_type@) ==> r matches Err(AppError::Drova(_)),
        match plugin_bytes_page(input_type@, bytes@) {
            Some(page) => r matches Ok(p) && p == page,
            None => r matches Err(AppError::Drova(_)),
        },
{
    let r = requester();
    match process_bytes_input(&r, input_type, bytes) {
        Ok(page) => Ok(page),
        Err(e) => Err(AppError::Drova(e)),
    }
}

} // verus!
