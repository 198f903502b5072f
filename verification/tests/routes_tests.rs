use txtdot::config::{Config, EnvVars};
use txtdot::error::AppError;
use txtdot::routes::{
    api_output_type, api_page_source, api_rewrite_plan, app_routes, append_bool_param,
    default_process_images, page_options, request_base, search_redirect, search_status,
    strip_json_punctuation, url_encode, wants_daletpack, ApiRequest, GetParams, PageSource,
    SearchParams,
};

fn config(searx: Option<&str>) -> Config {
    Config::from_vars(&EnvVars {
        host: None,
        port: None,
        timeout: None,
        reverse_proxy: None,
        img_process: None,
        proxy_documents: None,
        proxy_images: None,
        proxy_media: Some("false".to_string()),
        proxy_files: None,
        swagger: None,
        search_by_default: None,
        img_optimize_by_default: None,
        searx_url: searx.map(str::to_string),
    })
}

fn api(url: Option<&str>) -> ApiRequest {
    ApiRequest {
        url: url.map(str::to_string),
        input_type: None,
        output_type: None,
        text: None,
        bytes_base64: None,
        rewrite_links: None,
        process_images: None,
        proxy_documents: None,
        proxy_images: None,
        proxy_media: None,
        proxy_files: None,
        request_base: None,
    }
}

fn get(url: &str) -> GetParams {
    GetParams {
        url: url.to_string(),
        format: None,
        highlight_code: None,
        optimize_images: None,
        skip_image_optimization: None,
        direct_documents: None,
        direct_images: None,
        direct_media: None,
        direct_files: None,
    }
}

#[test]
fn routes_listed() {
    assert_eq!(
        app_routes(),
        vec![
            "/",
            "/get",
            "/search",
            "/configuration",
            "/configuration/json",
            "/configuration/badges/big",
            "/api/get",
            "/proxy",
            "/proxy/img",
        ]
    );
}

#[test]
fn own_address() {
    assert_eq!(request_base(None, None, None), "http://127.0.0.1:8080");
    assert_eq!(request_base(None, Some(b"example.org"), Some("https")), "https://example.org");
    assert_eq!(request_base(Some(b"https"), Some(b"a:1"), Some("http")), "https://a:1");
    assert_eq!(request_base(Some(&[0xc3, 0xa9]), Some(&[0x7f]), Some("ftp")), "ftp://127.0.0.1:8080");
}

#[test]
fn encoding() {
    assert_eq!(url_encode("a b&c=d/é*-._~"), "a+b%26c%3Dd%2F%C3%A9*-._%7E");
    assert_eq!(url_encode(""), "");
}

#[test]
fn bool_params() {
    let mut s = "/get?url=x".to_string();
    append_bool_param(&mut s, "direct_media", Some(true));
    append_bool_param(&mut s, "direct_files", None);
    append_bool_param(&mut s, "optimize_images", Some(false));
    assert_eq!(s, "/get?url=x&direct_media=true&optimize_images=false");
}

#[test]
fn search_redirects_to_the_reader() {
    let params = SearchParams {
        q: "rust & verus".to_string(),
        highlight_code: Some(true),
        optimize_images: None,
        skip_image_optimization: Some(false),
        direct_documents: None,
        direct_images: None,
        direct_media: None,
        direct_files: Some(true),
    };
    assert_eq!(
        search_redirect(&config(Some("https://searx.be")), &params).ok().as_deref(),
        Some("/get?url=https%3A%2F%2Fsearx.be%2Fsearch%3Fq%3Drust%2B%2526%2Bverus&highlight_code=true&skip_image_optimization=false&direct_files=true")
    );
    match search_redirect(&config(None), &params) {
        Err(AppError::BadRequest(m)) => assert_eq!(m, "search is disabled"),
        _ => panic!("expected a bad request"),
    }
    assert_eq!(search_status(&config(None)), "disabled");
    assert_eq!(search_status(&config(Some("https://s"))), "enabled");
}

#[test]
fn reader_page_options() {
    assert!(wants_daletpack(Some("dalet")));
    assert!(wants_daletpack(Some("application/daletpack")));
    assert!(!wants_daletpack(Some("html")));
    assert!(!wants_daletpack(None));

    let c = config(None);
    let o = page_options(&c, &get("https://x"));
    assert!(o.proxy_documents && o.proxy_images && !o.proxy_media && o.proxy_files && o.process_images);

    let mut p = get("https://x");
    p.direct_documents = Some(true);
    p.direct_media = Some(false);
    p.skip_image_optimization = Some(true);
    let o = page_options(&c, &p);
    assert!(!o.proxy_documents && !o.proxy_media && !o.process_images);
    assert!(default_process_images(&c));
}

#[test]
fn api_sources() {
    match api_page_source(&api(Some("https://x"))) {
        Ok(PageSource::Url(u)) => assert_eq!(u, "https://x"),
        _ => panic!("expected a url"),
    }
    let mut r = api(None);
    r.text = Some("hello".to_string());
    match api_page_source(&r) {
        Err(AppError::BadRequest(m)) => assert_eq!(m, "input_type is required"),
        _ => panic!("expected a bad request"),
    }
    r.input_type = Some("text/plain".to_string());
    assert!(matches!(api_page_source(&r), Ok(PageSource::Text { .. })));

    let mut r = api(None);
    r.bytes_base64 = Some("aGVsbG8=".to_string());
    r.input_type = Some("text/plain".to_string());
    match api_page_source(&r) {
        Ok(PageSource::Bytes { input_type, bytes }) => {
            assert_eq!(input_type, "text/plain");
            assert_eq!(bytes, b"hello".to_vec());
        }
        _ => panic!("expected bytes"),
    }
    r.bytes_base64 = Some("a!".to_string());
    assert!(matches!(api_page_source(&r), Err(AppError::BadRequest(_))));
    match api_page_source(&api(None)) {
        Err(AppError::BadRequest(m)) => assert_eq!(m, "url, text, or bytes_base64 is required"),
        _ => panic!("expected a bad request"),
    }
}

#[test]
fn api_output_and_rewrites() {
    assert_eq!(api_output_type(&api(None)).ok().as_deref(), Some("application/daletpack"));
    let mut r = api(Some("https://x/"));
    r.output_type = Some("html".to_string());
    assert_eq!(api_output_type(&r).ok().as_deref(), Some("text/html"));

    let c = config(None);
    match api_rewrite_plan(&c, &r, "http://me") {
        Ok(Some(plan)) => {
            assert_eq!(plan.remote_url, "https://x/");
            assert_eq!(plan.request_base, "http://me");
            assert!(plan.options.proxy_documents && !plan.options.proxy_media);
            assert!(plan.options.process_images);
        }
        _ => panic!("expected a plan"),
    }
    r.proxy_media = Some(true);
    r.proxy_documents = Some(false);
    r.request_base = Some("https://proxy.example".to_string());
    match api_rewrite_plan(&c, &r, "http://me") {
        Ok(Some(plan)) => {
            assert_eq!(plan.request_base, "https://proxy.example");
            assert!(!plan.options.proxy_documents && !plan.options.proxy_media);
        }
        _ => panic!("expected a plan"),
    }
    assert!(matches!(api_rewrite_plan(&c, &api(None), "b"), Ok(None)));
    let mut r = api(None);
    r.rewrite_links = Some(true);
    match api_rewrite_plan(&c, &r, "b") {
        Err(AppError::BadRequest(m)) => assert_eq!(m, "url is required when rewrite_links is true"),
        _ => panic!("expected a bad request"),
    }
}

#[test]
fn json_punctuation_is_dropped() {
    assert_eq!(strip_json_punctuation("{\n  \"a\": [1, 2],\n}"), "\n  a: 1 2\n");
}

#[test]
fn search_redirect_decodes_back_to_the_query() {
    let params = SearchParams {
        q: "a+b & c=d ü%".to_string(),
        highlight_code: None,
        optimize_images: Some(true),
        skip_image_optimization: None,
        direct_documents: None,
        direct_images: None,
        direct_media: None,
        direct_files: None,
    };
    let redirect = search_redirect(&config(Some("https://searx.be")), &params).ok().unwrap();
    let query = redirect.strip_prefix("/get?").unwrap();
    let pairs: Vec<(String, String)> = url::form_urlencoded::parse(query.as_bytes())
        .map(|(k, v)| (k.into_owned(), v.into_owned()))
        .collect();
    assert_eq!(pairs.len(), 2);
    assert_eq!(pairs[0].0, "url");
    assert_eq!(pairs[1], ("optimize_images".to_string(), "true".to_string()));
    let target = pairs[0].1.strip_prefix("https://searx.be/search?").unwrap();
    let inner: Vec<(String, String)> = url::form_urlencoded::parse(target.as_bytes())
        .map(|(k, v)| (k.into_owned(), v.into_owned()))
        .collect();
    assert_eq!(inner, vec![("q".to_string(), params.q.clone())]);
}
