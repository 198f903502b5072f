use txtdot::drova::{
    daletpack_bytes, daletpack_response, html_text, is_daletpack_output, is_html_output,
    output_label, output_options, output_response, process_bytes, process_text, render_daletpack,
    render_html, resolve_output_type, supported_inputs, supported_outputs, supported_protocols,
    RenderedOutput, DALETPACK_OUTPUT, HTML_OUTPUT,
    NESTED_FOOTNOTE_MESSAGE,
};
use txtdot::error::AppError;
use txtdot::footnotes::has_nested_footnote_risk;

fn header<'a>(headers: &'a [(String, Vec<u8>)], name: &str) -> Option<&'a [u8]> {
    headers.iter().find(|(n, _)| n == name).map(|(_, v)| v.as_slice())
}

#[test]
fn plugin_lists() {
    assert_eq!(supported_protocols(), vec!["http", "https", "gemini", "gopher"]);
    assert_eq!(
        supported_inputs(),
        vec![
            "application/daletpack",
            "text/gemini",
            "text/x-gophermap",
            "text/markdown",
            "text/x-markdown",
            "text/html",
            "text/plain",
            "text/*",
        ]
    );
    assert_eq!(supported_outputs(), vec!["application/daletpack", "text/html"]);
}

#[test]
fn labels() {
    assert_eq!(output_label("text/html"), "HTML");
    assert_eq!(output_label("application/daletpack"), "Daletpack");
    assert_eq!(output_label("text/plain"), "Plain");
    assert_eq!(output_label("json"), "JSON");
    assert_eq!(output_label("x/ßa"), "SSA");
    assert_eq!(output_label("x/ähnlich"), "Ähnlich");
    assert_eq!(output_label("x/"), "");
}

#[test]
fn options_mark_the_selected_format() {
    let options = output_options("text/html");
    assert_eq!(options.len(), 2);
    assert_eq!(options[0].value, "application/daletpack");
    assert_eq!(options[0].label, "Daletpack");
    assert!(!options[0].selected);
    assert_eq!(options[1].value, "text/html");
    assert_eq!(options[1].label, "HTML");
    assert!(options[1].selected);
    assert!(output_options("text/plain").iter().all(|o| !o.selected));
}

#[test]
fn output_names_resolve() {
    assert_eq!(resolve_output_type("html").ok().as_deref(), Some("text/html"));
    assert_eq!(resolve_output_type("dalet").ok().as_deref(), Some("application/daletpack"));
    assert_eq!(resolve_output_type("daletpack").ok().as_deref(), Some("application/daletpack"));
    assert_eq!(resolve_output_type("text/html").ok().as_deref(), Some("text/html"));
    match resolve_output_type("markdown") {
        Err(AppError::BadRequest(m)) => assert_eq!(m, "unsupported output format: markdown"),
        _ => panic!("expected a bad request"),
    }
    let once = resolve_output_type("html").ok().unwrap();
    assert_eq!(resolve_output_type(&once).ok(), Some(once.clone()));
    assert!(is_html_output(HTML_OUTPUT));
    assert!(!is_html_output("html"));
    assert!(is_daletpack_output(DALETPACK_OUTPUT));
    assert!(!is_daletpack_output("dalet"));
}

#[test]
fn rendered_outputs() {
    match html_text(Ok(RenderedOutput::Bytes("héllo".as_bytes().to_vec()))) {
        Ok(s) => assert_eq!(s, "héllo"),
        _ => panic!("expected text"),
    }
    assert!(matches!(
        html_text(Ok(RenderedOutput::Bytes(vec![0xff, 0xfe]))),
        Err(AppError::BadRequest(_))
    ));
    match daletpack_bytes(Ok(RenderedOutput::Text("x".to_string()))) {
        Err(AppError::BadRequest(m)) => assert_eq!(m, "daletpack output returned text"),
        _ => panic!("expected a bad request"),
    }
    assert_eq!(daletpack_bytes(Ok(RenderedOutput::Bytes(vec![1, 2]))).ok(), Some(vec![1, 2]));
}

#[test]
fn daletpack_download() {
    let reply = daletpack_response(Ok(vec![9, 8, 7])).ok().unwrap();
    assert_eq!(reply.body, vec![9, 8, 7]);
    assert_eq!(header(&reply.headers, "content-type"), Some(&b"application/daletpack"[..]));
    assert_eq!(
        header(&reply.headers, "content-disposition"),
        Some(&b"attachment; filename=\"txtdot.daletpack\""[..])
    );
    assert!(matches!(
        daletpack_response(Err(AppError::Upstream("x".to_string()))),
        Err(AppError::Upstream(_))
    ));
}

#[test]
fn text_pages_render() {
    let page = process_text("text/plain", "hello proxy".to_string()).ok().unwrap();
    let html = render_html(page).ok().unwrap();
    assert!(html.contains("hello proxy"));

    let page = process_text("text/markdown", "# Title\n\nbody".to_string()).ok().unwrap();
    let packed = render_daletpack(page).ok().unwrap();
    assert!(!packed.is_empty());
    assert!(matches!(process_bytes("text/plain", b"x".to_vec()), Err(AppError::Drova(_))));

    assert!(matches!(process_text("text/unknown", String::new()), Err(AppError::Drova(_))));
    assert!(matches!(process_bytes("nope", vec![]), Err(AppError::Drova(_))));
}

#[test]
fn output_answers() {
    let page = process_text("text/plain", "hi".to_string()).ok().unwrap();
    let reply = output_response("text/html", page).ok().unwrap();
    assert_eq!(reply.headers.len(), 1);
    assert_eq!(header(&reply.headers, "content-type"), Some(&b"text/html"[..]));
    assert!(String::from_utf8(reply.body).unwrap().contains("hi"));

    let page = process_text("text/plain", "hi".to_string()).ok().unwrap();
    let reply = output_response("application/daletpack", page).ok().unwrap();
    assert_eq!(reply.headers.len(), 2);

    let page = process_text("text/plain", "hi".to_string()).ok().unwrap();
    match output_response("text/\nhtml", page) {
        Err(AppError::BadRequest(m)) => assert_eq!(m, "failed to parse header value"),
        _ => panic!("expected a bad request"),
    }

    let page = process_text("text/plain", "hi".to_string()).ok().unwrap();
    assert!(matches!(output_response("text/plain", page), Err(AppError::Drova(_))));
}

#[test]
fn error_statuses() {
    assert_eq!(AppError::BadRequest("a".to_string()).status(), 400);
    assert_eq!(AppError::Upstream("b".to_string()).status(), 502);
    assert_eq!(AppError::BadRequest("a".to_string()).message(), "a");
    assert_eq!(AppError::Upstream("b".to_string()).message(), "b");
    let error = process_text("nope", String::new()).err().unwrap();
    assert_eq!(error.status(), 502);
    assert_eq!(error.message(), "UnsupportedInput");
}

#[test]
fn nested_footnote_shapes() {
    assert!(has_nested_footnote_risk("> [^a]: b"));
    assert!(has_nested_footnote_risk("text\n- [^a]: b"));
    assert!(has_nested_footnote_risk("1. [^a]: b"));
    assert!(has_nested_footnote_risk("- a\n\n  [^b]: c"));
    assert!(has_nested_footnote_risk("> a\r>\t[^b]: c"));
    assert!(!has_nested_footnote_risk("x\r  [^a]: b"));
    assert!(!has_nested_footnote_risk("[^a]: b"));
    assert!(!has_nested_footnote_risk("   [^a]: b"));
    assert!(!has_nested_footnote_risk("[^1]: note\n- [^1] see"));
    assert!(!has_nested_footnote_risk("2020 [^1]"));
    assert!(!has_nested_footnote_risk("see[^a]\n\n[^a]: b"));
    assert!(!has_nested_footnote_risk("> quote [^a]"));
    assert!(!has_nested_footnote_risk("> [^a] b"));
    assert!(!has_nested_footnote_risk("> [^]: b"));
    assert!(!has_nested_footnote_risk(""));
}

#[test]
fn nested_markdown_footnotes_are_refused() {
    match process_text("text/markdown", "> [^a]: b".to_string()) {
        Err(AppError::BadRequest(m)) => assert_eq!(m, NESTED_FOOTNOTE_MESSAGE),
        _ => panic!("expected a bad request"),
    }
    match process_text("text/x-markdown", "- x\n  [^a]: b".to_string()) {
        Err(AppError::BadRequest(m)) => assert_eq!(m, NESTED_FOOTNOTE_MESSAGE),
        _ => panic!("expected a bad request"),
    }
    assert!(process_text("text/plain", "> [^a]: b".to_string()).is_ok());
    let page = process_text("text/markdown", "[^1]: note\n- [^1] see".to_string()).ok().unwrap();
    assert!(render_html(page).ok().unwrap().contains("see"));
    let page = process_text("text/markdown", "  [^1]: note\n\nText[^1]".to_string()).ok().unwrap();
    assert!(render_html(page).ok().unwrap().contains("note"));
    let page = process_text("text/markdown", "Hi[^a]\n\n[^a]: note".to_string()).ok().unwrap();
    let html = render_html(page).ok().unwrap();
    assert!(html.contains("note"));
}

#[test]
fn drova_errors_report_their_debug_text() {
    match process_text("nope", "x".to_string()) {
        Err(e) => {
            assert_eq!(e.status(), 502);
            assert_eq!(e.message(), "UnsupportedInput");
        }
        Ok(_) => panic!("expected an error"),
    }
}

#[test]
fn renderings_are_not_empty() {
    let page = process_text("text/plain", "hello".to_string()).ok().unwrap();
    assert!(render_html(page).ok().unwrap().contains("hello"));
    let page = process_text("text/plain", "hello".to_string()).ok().unwrap();
    assert!(!render_daletpack(page).ok().unwrap().is_empty());
    let page = process_text("text/plain", "hello".to_string()).ok().unwrap();
    let reply = output_response("text/html", page).ok().unwrap();
    assert!(String::from_utf8(reply.body).unwrap().contains("hello"));
}
