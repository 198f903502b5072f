use txtdot::error::AppError;
use txtdot::links::{
    link_url, responsive_srcset, rewrite_html_links, rewrite_srcset, rewrite_srcset_candidate,
    LinkKind, RewriteOptions,
};

const BASE: &str = "http://localhost:8080";
const REMOTE: &str = "https://example.com/dir/page";

fn all(on: bool) -> RewriteOptions {
    RewriteOptions {
        proxy_documents: on,
        proxy_images: on,
        proxy_media: on,
        proxy_files: on,
        process_images: false,
    }
}

fn rewrite(html: &str, options: RewriteOptions) -> String {
    match rewrite_html_links(html, BASE, REMOTE, options) {
        Ok(s) => s,
        Err(_) => panic!("rewriting failed"),
    }
}

#[test]
fn documents_go_to_the_reader() {
    assert_eq!(
        rewrite(r#"<a href="/x?y=1">A</a>"#, all(true)),
        r#"<a href="http://localhost:8080/get?url=https%3A%2F%2Fexample.com%2Fx%3Fy%3D1">A</a>"#
    );
    assert_eq!(
        rewrite(r#"<iframe src="frame.html"></iframe>"#, all(true)),
        r#"<iframe src="http://localhost:8080/get?url=https%3A%2F%2Fexample.com%2Fdir%2Fframe.html"></iframe>"#
    );
}

#[test]
fn direct_links_are_made_absolute() {
    assert_eq!(
        rewrite(r#"<a href="../up">A</a><img src="i.png">"#, all(false)),
        r#"<a href="https://example.com/up">A</a><img src="https://example.com/dir/i.png">"#
    );
}

#[test]
fn media_files_and_objects() {
    assert_eq!(
        rewrite(r#"<video src="v.mp4"></video><embed src="e.swf"><object data="o.pdf"></object>"#, all(true)),
        [
            r#"<video src="http://localhost:8080/proxy?url=https%3A%2F%2Fexample.com%2Fdir%2Fv.mp4"></video>"#,
            r#"<embed src="http://localhost:8080/proxy?url=https%3A%2F%2Fexample.com%2Fdir%2Fe.swf">"#,
            r#"<object data="http://localhost:8080/proxy?url=https%3A%2F%2Fexample.com%2Fdir%2Fo.pdf"></object>"#,
        ].concat()
    );
}

#[test]
fn other_elements_are_untouched() {
    let html = r#"<div href="/x" src="/y"><link href="/style.css"><script src="/s.js"></script></div>"#;
    assert_eq!(rewrite(html, all(true)), html);
}

#[test]
fn images_get_a_responsive_srcset() {
    let mut options = all(true);
    options.process_images = true;
    let out = rewrite(r#"<img src="a.png">"#, options);
    let img = "http://localhost:8080/proxy/img?url=https%3A%2F%2Fexample.com%2Fdir%2Fa.png";
    let expected = format!(
        r#"<img src="{img}" srcset="{img}&w=320 320w, {img}&w=640 640w, {img}&w=960 960w, {img}&w=1280 1280w" sizes="(max-width: 768px) 100vw, 768px">"#
    );
    assert_eq!(out, expected);
}

#[test]
fn existing_srcsets_are_rewritten() {
    let out = rewrite(r#"<img src="a.png" srcset=" b.png 2x,c.png  3x" sizes="50vw">"#, all(true));
    assert_eq!(
        out,
        [
            r#"<img src="http://localhost:8080/proxy?url=https%3A%2F%2Fexample.com%2Fdir%2Fa.png" "#,
            r#"srcset="http://localhost:8080/proxy?url=https%3A%2F%2Fexample.com%2Fdir%2Fb.png 2x, "#,
            r#"http://localhost:8080/proxy?url=https%3A%2F%2Fexample.com%2Fdir%2Fc.png 3x" sizes="50vw">"#,
        ].concat()
    );
}

#[test]
fn bad_addresses_are_bad_requests() {
    match rewrite_html_links("<p>", BASE, "not a url", all(true)) {
        Err(AppError::BadRequest(m)) => assert_eq!(m, "relative URL without a base"),
        _ => panic!("expected a bad request"),
    }
    match rewrite_html_links("<p>", "localhost", REMOTE, all(true)) {
        Err(AppError::BadRequest(m)) => assert_eq!(m, "relative URL without a base"),
        _ => panic!("expected a bad request"),
    }
    assert_eq!(
        rewrite_html_links("<a href='x'>", "http://H:80", "HTTPS://Example.COM", all(false)).ok().as_deref(),
        Some(r#"<a href="https://example.com/x">"#)
    );
}

#[test]
fn link_kinds() {
    let mut options = all(false);
    options.proxy_images = true;
    assert_eq!(
        link_url("http://h/", "https://r/", options, LinkKind::Image, "p.gif").as_deref(),
        Some("http://h/proxy?url=https%3A%2F%2Fr%2Fp.gif")
    );
    options.process_images = true;
    assert_eq!(
        link_url("http://h/", "https://r/", options, LinkKind::Image, "p.gif").as_deref(),
        Some("http://h/proxy/img?url=https%3A%2F%2Fr%2Fp.gif")
    );
    assert_eq!(
        link_url("http://h/", "https://r/", options, LinkKind::Document, "doc").as_deref(),
        Some("https://r/doc")
    );
    assert_eq!(
        link_url("http://h/", "https://r/", options, LinkKind::Document, "http://[bad").as_deref(),
        None
    );
}

#[test]
fn srcset_candidates() {
    let options = all(true);
    assert_eq!(
        rewrite_srcset_candidate("  a.png   1x ", "http://h/", "https://r/", options),
        "http://h/proxy?url=https%3A%2F%2Fr%2Fa.png 1x"
    );
    assert_eq!(rewrite_srcset_candidate("   ", "http://h/", "https://r/", options), "");
    assert_eq!(
        rewrite_srcset_candidate("http://[bad 2x", "http://h/", "https://r/", options),
        "http://[bad 2x"
    );
    assert_eq!(
        rewrite_srcset("a.png,b.png 2x", "http://h/", "https://r/", all(false)),
        "https://r/a.png, https://r/b.png 2x"
    );
    assert_eq!(
        responsive_srcset("http://h/", "https://r/", "i.png").as_deref(),
        Some(
            [
                "http://h/proxy/img?url=https%3A%2F%2Fr%2Fi.png&w=320 320w, ",
                "http://h/proxy/img?url=https%3A%2F%2Fr%2Fi.png&w=640 640w, ",
                "http://h/proxy/img?url=https%3A%2F%2Fr%2Fi.png&w=960 960w, ",
                "http://h/proxy/img?url=https%3A%2F%2Fr%2Fi.png&w=1280 1280w"
            ]
            .concat()
            .as_str()
        )
    );
}

#[test]
fn only_link_attributes_change() {
    let mut options = all(true);
    options.process_images = true;
    let out = rewrite(r#"<img class="c" SRC="a.png" alt="x" data-k="v"><a href="b" title="t">"#, options);
    assert!(out.starts_with(r#"<img class="c" SRC="http://localhost:8080/proxy/img?url="#));
    assert!(out.contains(r#"alt="x" data-k="v" srcset=""#));
    assert!(out.ends_with(r#"sizes="(max-width: 768px) 100vw, 768px"><a href="http://localhost:8080/get?url=https%3A%2F%2Fexample.com%2Fdir%2Fb" title="t">"#));
}

#[test]
fn direct_rewriting_ignores_the_request_base() {
    let html = r#"<a href="/x">A</a><img src="i.png"><video src="v.mp4"></video>"#;
    let a = rewrite_html_links(html, "http://localhost:8080", REMOTE, all(false));
    let b = rewrite_html_links(html, "https://proxy.example.org/base/", REMOTE, all(false));
    match (a, b) {
        (Ok(a), Ok(b)) => {
            assert_eq!(a, b);
            assert!(a.contains("https://example.com/x"));
        }
        _ => panic!("rewriting failed"),
    }
}
