//! Server configuration: the settings, how they are read from the process
//! environment's raw values, and the part of them that is shown to visitors.
use vstd::prelude::*;

use crate::text::{is_blank, is_blank_seq, str_eq};

verus! {

broadcast use vstd::string::group_string_axioms;

/// What the proxy rewrites to go through itself, and whether images are re-encoded.
#[derive(Clone)]
pub struct ProxyConfig {
    pub process_images: bool,
    pub documents: bool,
    pub images: bool,
    pub media: bool,
    pub files: bool,
}

/// Services run by others that the proxy can use.
#[derive(Clone)]
pub struct ThirdPartyConfig {
    pub searx_url: Option<String>,
}

/// The whole server configuration.
#[derive(Clone)]
pub struct Config {
    pub host: String,
    pub port: u16,
    pub timeout: u64,
    pub reverse_proxy: bool,
    pub proxy: ProxyConfig,
    pub swagger: bool,
    pub search_by_default: bool,
    pub img_optimize_by_default: bool,
    pub third_party: ThirdPartyConfig,
}

/// The configuration without the listening address: what visitors may see.
pub struct PublicConfig {
    pub timeout: u64,
    pub reverse_proxy: bool,
    pub proxy: ProxyConfig,
    pub swagger: bool,
    pub search_by_default: bool,
    pub img_optimize_by_default: bool,
    pub third_party: ThirdPartyConfig,
}

/// The raw values of the environment variables that the configuration reads,
/// `None` where a variable is unset (or not valid Unicode).
pub struct EnvVars {
    /// `HOST`
    pub host: Option<String>,
    /// `PORT`
    pub port: Option<String>,
    /// `TIMEOUT`
    pub timeout: Option<String>,
    /// `REVERSE_PROXY`
    pub reverse_proxy: Option<String>,
    /// `IMG_PROCESS`
    pub img_process: Option<String>,
    /// `PROXY_DOCUMENTS`
    pub proxy_documents: Option<String>,
    /// `PROXY_IMAGES`
    pub proxy_images: Option<String>,
    /// `PROXY_MEDIA`
    pub proxy_media: Option<String>,
    /// `PROXY_FILES`
    pub proxy_files: Option<String>,
    /// `SWAGGER`
    pub swagger: Option<String>,
    /// `SEARCH_BY_DEFAULT`
    pub search_by_default: Option<String>,
    /// `IMG_OPTIMIZE_BY_DEFAULT`
    pub img_optimize_by_default: Option<String>,
    /// `SEARX_URL`
    pub searx_url: Option<String>,
}

pub const DESCRIPTION: &'static str = "HTTP proxy that parses only text, links and pictures from pages";

// ---------------------------------------------------------------------------
// Specifications
// ---------------------------------------------------------------------------

pub open spec fn opt_view(o: Option<String>) -> Option<Seq<char>> {
    match o {
        Some(s) => Some(s@),
        None => None,
    }
}

/// A boolean setting: set to `true` or `1` means on, set to anything else means
/// off, unset means `default`.
pub open spec fn spec_env_bool(value: Option<Seq<char>>, default: bool) -> bool {
    match value {
        Some(v) => v == seq!['t', 'r', 'u', 'e'] || v == seq!['1'],
        None => default,
    }
}

pub open spec fn is_ascii_digit(c: char) -> bool {
    '0' <= c && c <= '9'
}

pub open spec fn all_digits(s: Seq<char>) -> bool {
    forall|i: int| 0 <= i < s.len() ==> is_ascii_digit(#[trigger] s[i])
}

/// The number written by the decimal digits `s`.
pub open spec fn digits_value(s: Seq<char>) -> nat
    decreases s.len(),
{
    if s.len() == 0 {
        0
    } else {
        digits_value(s.drop_last()) * 10 + ((s.last() as nat) - 48) as nat
    }
}

/// What `str::parse` gives for an unsigned integer type whose largest value is
/// `max`: an optional `+`, then one or more ASCII digits, of value at most `max`.
pub open spec fn parsed_unsigned(s: Seq<char>, max: nat) -> Option<nat> {
    let d = if s.len() > 0 && s[0] == '+' {
        s.drop_first()
    } else {
        s
    };
    if d.len() > 0 && all_digits(d) && digits_value(d) <= max {
        Some(digits_value(d))
    } else {
        None
    }
}

/// A numeric setting: its parsed value, or `default` when unset or not a number
/// that fits.
pub open spec fn spec_env_number(value: Option<Seq<char>>, max: nat, default: nat) -> nat {
    match value {
        Some(v) => match parsed_unsigned(v, max) {
            Some(n) => n,
            None => default,
        },
        None => default,
    }
}

/// The search service's address: kept only when it is more than whitespace.
pub open spec fn spec_searx_url(value: Option<Seq<char>>) -> Option<Seq<char>> {
    match value {
        Some(v) => if is_blank_seq(v) {
            None
        } else {
            Some(v)
        },
        None => None,
    }
}

/// The configuration that the raw environment values `vars` describe.
pub open spec fn config_from(vars: EnvVars, c: Config) -> bool {
    &&& c.host@ == match vars.host {
        Some(h) => h@,
        None => seq!['0', '.', '0', '.', '0', '.', '0'],
    }
    &&& c.port as nat == spec_env_number(opt_view(vars.port), 0xffff, 8080)
    &&& c.timeout as nat == spec_env_number(opt_view(vars.timeout), 0xffff_ffff_ffff_ffff, 0)
    &&& c.reverse_proxy == spec_env_bool(opt_view(vars.reverse_proxy), false)
    &&& c.proxy.process_images == spec_env_bool(opt_view(vars.img_process), true)
    &&& c.proxy.documents == spec_env_bool(opt_view(vars.proxy_documents), true)
    &&& c.proxy.images == spec_env_bool(opt_view(vars.proxy_images), true)
    &&& c.proxy.media == spec_env_bool(opt_view(vars.proxy_media), true)
    &&& c.proxy.files == spec_env_bool(opt_view(vars.proxy_files), true)
    &&& c.swagger == spec_env_bool(opt_view(vars.swagger), false)
    &&& c.search_by_default == spec_env_bool(opt_view(vars.search_by_default), false)
    &&& c.img_optimize_by_default == spec_env_bool(opt_view(vars.img_optimize_by_default), true)
    &&& opt_view(c.third_party.searx_url) == spec_searx_url(opt_view(vars.searx_url))
}

/// Two proxy settings are the same.
pub open spec fn same_proxy(a: ProxyConfig, b: ProxyConfig) -> bool {
    &&& a.process_images == b.process_images
    &&& a.documents == b.documents
    &&& a.images == b.images
    &&& a.media == b.media
    &&& a.files == b.files
}

// ---------------------------------------------------------------------------
// Lemmas
// ---------------------------------------------------------------------------

/// Appending a digit never makes a number smaller.
proof fn lemma_digits_grow(s: Seq<char>, c: char)
    requires
        is_ascii_digit(c),
    ensures
        digits_value(s) <= digits_value(s.push(c)),
{
    assert(s.push(c).drop_last() =~= s);
}

/// The value of a prefix of digits is at most the value of all of them.
proof fn lemma_digits_prefix(s: Seq<char>, k: int)
    requires
        0 <= k <= s.len(),
        all_digits(s),
    ensures
        digits_value(s.take(k)) <= digits_value(s),
    decreases s.len() - k,
{
    if k < s.len() {
        lemma_digits_prefix(s, k + 1);
        assert(s.take(k + 1) =~= s.take(k).push(s[k]));
        lemma_digits_grow(s.take(k), s[k]);
    } else {
        assert(s.take(k) =~= s);
    }
}

// ---------------------------------------------------------------------------
// Executable
// ---------------------------------------------------------------------------

/// A boolean setting from its raw value.
pub fn env_bool(value: Option<&str>, default: bool) -> (b: bool)
    ensures
        b == spec_env_bool(
            match value {
                Some(v) => Some(v@),
                None => None,
            },
            default,
        ),
{
    match value {
        Some(v) => {
            proof {
                reveal_strlit("true");
                reveal_strlit("1");
                assert("true"@ =~= seq!['t', 'r', 'u', 'e']);
                assert("1"@ =~= seq!['1']);
            }
            str_eq(v, "true") || str_eq(v, "1")
        },
        None => default,
    }
}

/// `str::parse` for an unsigned integer no larger than `max`.
pub fn parse_unsigned(s: &str, max: u64) -> (r: Option<u64>)
    ensures
        match r {
            Some(n) => parsed_unsigned(s@, max as nat) == Some(n as nat),
            None => parsed_unsigned(s@, max as nat) is None,
        },
{
    let cs = crate::text::chars_of(s);
    let n = cs.len();
    let start: usize = if n > 0 && cs[0] == '+' {
        1
    } else {
        0
    };
    let ghost d = if s@.len() > 0 && s@[0] == '+' {
        s@.drop_first()
    } else {
        s@
    };
    assert(d =~= cs@.subrange(start as int, n as int));
    if start == n {
        return None;
    }
    let mut value: u64 = 0;
    let mut i: usize = start;
    assert(d.take(0) =~= Seq::<char>::empty());
    while i < n
        invariant
            cs@ == s@,
            n == cs@.len(),
            start <= i <= n,
            d =~= cs@.subrange(start as int, n as int),
            d == (if s@.len() > 0 && s@[0] == '+' {
                s@.drop_first()
            } else {
                s@
            }),
            all_digits(d.take(i - start)),
            value as nat == digits_value(d.take(i - start)),
            value <= max,
        decreases n - i,
    {
        let c = cs[i];
        let ghost k = i - start;
        assert(d.take(k + 1) =~= d.take(k).push(c));
        assert(d.take(k + 1).drop_last() =~= d.take(k));
        assert(d[k] == c);
        assert(d.take(k + 1).last() == c);
        if !('0' <= c && c <= '9') {
            assert(!is_ascii_digit(d[k]));
            assert(!all_digits(d));
            return None;
        }
        let digit: u64 = (c as u32 - 48) as u64;
        let next = match value.checked_mul(10) {
            Some(t) => t.checked_add(digit),
            None => None,
        };
        match next {
            Some(v) if v <= max => {
                value = v;
            },
            _ => {
                proof {
                    assert(digits_value(d.take(k + 1)) > max);
                    if all_digits(d) {
                        lemma_digits_prefix(d, k + 1);
                    }
                }
                return None;
            },
        }
        i = i + 1;
    }
    assert(d.take(n - start) =~= d);
    Some(value)
}

/// A numeric setting from its raw value.
fn env_number(value: Option<&str>, max: u64, default: u64) -> (r: u64)
    requires
        default <= max,
    ensures
        r as nat == spec_env_number(
            match value {
                Some(v) => Some(v@),
                None => None,
            },
            max as nat,
            default as nat,
        ),
        r <= max,
{
    match value {
        Some(v) => match parse_unsigned(v, max) {
            Some(n) => n,
            None => default,
        },
        None => default,
    }
}

fn opt_str(o: &Option<String>) -> (r: Option<&str>)
    ensures
        match r {
            Some(v) => opt_view(*o) == Some(v@),
            None => opt_view(*o) is None,
        },
{
    match o {
        Some(s) => Some(s.as_str()),
        None => None,
    }
}

/// A copy of an optional string.
pub fn clone_opt(o: &Option<String>) -> (r: Option<String>)
    ensures
        opt_view(r) == opt_view(*o),
{
    match o {
        Some(s) => Some(s.clone()),
        None => None,
    }
}

impl ProxyConfig {
    /// A copy of these settings.
    pub fn copy(&self) -> (r: ProxyConfig)
        ensures
            same_proxy(r, *self),
    {
        ProxyConfig {
            process_images: self.process_images,
            documents: self.documents,
            images: self.images,
            media: self.media,
            files: self.files,
        }
    }
}

impl Config {
    /// The configuration that the raw environment values describe.
    pub fn from_vars(vars: &EnvVars) -> (c: Config)
        ensures
            config_from(*vars, c),
    {
        proof {
            reveal_strlit("0.0.0.0");
            assert("0.0.0.0"@ =~= seq!['0', '.', '0', '.', '0', '.', '0']);
        }
        let host = match &vars.host {
            Some(h) => h.clone(),
            None => crate::text::owned("0.0.0.0"),
        };
        let port = env_number(opt_str(&vars.port), 0xffff, 8080) as u16;
        let timeout = env_number(opt_str(&vars.timeout), 0xffff_ffff_ffff_ffff, 0);
        let searx_url = match &vars.searx_url {
            Some(v) => if is_blank(v.as_str()) {
                None
            } else {
                Some(v.clone())
            },
            None => None,
        };
        Config {
            host,
            port,
            timeout,
            reverse_proxy: env_bool(opt_str(&vars.reverse_proxy), false),
            proxy: ProxyConfig {
                process_images: env_bool(opt_str(&vars.img_process), true),
                documents: env_bool(opt_str(&vars.proxy_documents), true),
                images: env_bool(opt_str(&vars.proxy_images), true),
                media: env_bool(opt_str(&vars.proxy_media), true),
                files: env_bool(opt_str(&vars.proxy_files), true),
            },
            swagger: env_bool(opt_str(&vars.swagger), false),
            search_by_default: env_bool(opt_str(&vars.search_by_default), false),
            img_optimize_by_default: env_bool(opt_str(&vars.img_optimize_by_default), true),
            third_party: ThirdPartyConfig { searx_url },
        }
    }
}

/// The configuration without `host` and `port`.
pub fn public_config(config: &Config) -> (p: PublicConfig)
    ensures
        p.timeout == config.timeout,
        p.reverse_proxy == config.reverse_proxy,
        same_proxy(p.proxy, config.proxy),
        p.swagger == config.swagger,
        p.search_by_default == config.search_by_default,
        p.img_optimize_by_default == config.img_optimize_by_default,
        opt_view(p.third_party.searx_url) == opt_view(config.third_party.searx_url),
{
    PublicConfig {
        timeout: config.timeout,
        reverse_proxy: config.reverse_proxy,
        proxy: config.proxy.copy(),
        swagger: config.swagger,
        search_by_default: config.search_by_default,
        img_optimize_by_default: config.img_optimize_by_default,
        third_party: ThirdPartyConfig { searx_url: clone_opt(&config.third_party.searx_url) },
    }
}

} // verus!
