use txtdot::config::{env_bool, parse_unsigned, public_config, Config, EnvVars};

fn empty_env() -> EnvVars {
    EnvVars {
        host: None,
        port: None,
        timeout: None,
        reverse_proxy: None,
        img_process: None,
        proxy_documents: None,
        proxy_images: None,
        proxy_media: None,
        proxy_files: None,
        swagger: None,
        search_by_default: None,
        img_optimize_by_default: None,
        searx_url: None,
    }
}

#[test]
fn defaults_when_nothing_is_set() {
    let config = Config::from_vars(&empty_env());
    assert_eq!(config.host, "0.0.0.0");
    assert_eq!(config.port, 8080);
    assert_eq!(config.timeout, 0);
    assert!(!config.reverse_proxy);
    assert!(config.proxy.process_images);
    assert!(config.proxy.documents);
    assert!(config.proxy.images);
    assert!(config.proxy.media);
    assert!(config.proxy.files);
    assert!(!config.swagger);
    assert!(!config.search_by_default);
    assert!(config.img_optimize_by_default);
    assert_eq!(config.third_party.searx_url, None);
}

#[test]
fn values_are_read() {
    let mut env = empty_env();
    env.host = Some("127.0.0.1".to_string());
    env.port = Some("3000".to_string());
    env.timeout = Some("+15".to_string());
    env.reverse_proxy = Some("1".to_string());
    env.proxy_media = Some("false".to_string());
    env.proxy_files = Some("TRUE".to_string());
    env.swagger = Some("true".to_string());
    env.searx_url = Some("https://searx.example".to_string());
    let config = Config::from_vars(&env);
    assert_eq!(config.host, "127.0.0.1");
    assert_eq!(config.port, 3000);
    assert_eq!(config.timeout, 15);
    assert!(config.reverse_proxy);
    assert!(!config.proxy.media);
    assert!(!config.proxy.files);
    assert!(config.swagger);
    assert_eq!(config.third_party.searx_url.as_deref(), Some("https://searx.example"));
}

#[test]
fn bad_numbers_fall_back() {
    let mut env = empty_env();
    env.port = Some("65536".to_string());
    env.timeout = Some(" 5".to_string());
    let config = Config::from_vars(&env);
    assert_eq!(config.port, 8080);
    assert_eq!(config.timeout, 0);
}

#[test]
fn blank_search_url_is_ignored() {
    let mut env = empty_env();
    env.searx_url = Some(" \t\u{3000}".to_string());
    assert_eq!(Config::from_vars(&env).third_party.searx_url, None);
}

#[test]
fn bool_settings() {
    assert!(env_bool(Some("true"), false));
    assert!(env_bool(Some("1"), false));
    assert!(!env_bool(Some("yes"), true));
    assert!(!env_bool(Some(""), true));
    assert!(env_bool(None, true));
    assert!(!env_bool(None, false));
}

#[test]
fn unsigned_parsing_follows_std() {
    for s in ["0", "42", "+42", "65535", "65536", "", "+", "-1", "1 ", "00017", "4x", "+-1"] {
        assert_eq!(parse_unsigned(s, u16::MAX as u64), s.parse::<u16>().ok().map(u64::from), "{s}");
    }
    assert_eq!(parse_unsigned("18446744073709551615", u64::MAX), Some(u64::MAX));
    assert_eq!(parse_unsigned("18446744073709551616", u64::MAX), None);
    assert_eq!(parse_unsigned("99999999999999999999999", u64::MAX), None);
}

#[test]
fn public_config_drops_address() {
    let mut env = empty_env();
    env.timeout = Some("7".to_string());
    env.searx_url = Some("https://s".to_string());
    let config = Config::from_vars(&env);
    let public = public_config(&config);
    assert_eq!(public.timeout, 7);
    assert_eq!(public.third_party.searx_url.as_deref(), Some("https://s"));
    assert!(public.img_optimize_by_default);
}
