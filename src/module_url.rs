//! Module references: a URL as the text the launcher replays and the path
//! that a name is inferred from.

use vstd::prelude::*;
use crate::error::InstallError;
use crate::name::{inferred_name, infer_name_from_path};

verus! {

#[verifier::external_type_specification]
#[verifier::external_body]
pub struct ExUrl(url::Url);

#[verifier::external_type_specification]
#[verifier::external_body]
pub struct ExParseError(url::ParseError);

/// Whether a text parses as an absolute URL.
pub uninterp spec fn parses_as_url(s: Seq<char>) -> bool;

/// Relies on url::Url::parse to parse an absolute URL; whether it succeeds
/// depends on the text alone.
#[verifier::external_body]
fn parse_url(s: &str) -> (r: Result<url::Url, url::ParseError>)
    ensures
        r is Ok <==> parses_as_url(s@),
{
    url::Url::parse(s)
}

/// Relies on url::Url::from_file_path to turn an absolute file path into a
/// `file:` URL; it fails on a relative path.
#[verifier::external_body]
fn url_from_file_path(p: &str) -> (r: Result<url::Url, ()>) {
    url::Url::from_file_path(p)
}

/// Relies on url::Url::as_str: the URL's serialization.
#[verifier::external_body]
fn url_serialization(u: &url::Url) -> (r: String) {
    u.as_str().to_string()
}

/// Relies on url::Url::path: the URL's percent-encoded path.
#[verifier::external_body]
fn url_path(u: &url::Url) -> (r: String) {
    u.path().to_string()
}

/// A resolved module reference.
#[derive(Clone, Debug, PartialEq, Eq)]
pub struct ModuleUrl {
    /// The full URL, as written into the launcher.
    pub href: String,
    /// The URL's path, from which a command name can be inferred.
    pub path: String,
}

pub open spec fn is_ascii_alpha(c: char) -> bool {
    ('a' <= c && c <= 'z') || ('A' <= c && c <= 'Z')
}

pub open spec fn is_ascii_digit(c: char) -> bool {
    '0' <= c && c <= '9'
}

pub open spec fn is_scheme_char(c: char) -> bool {
    is_ascii_alpha(c) || is_ascii_digit(c) || c == '+' || c == '-' || c == '.'
}

/// From index `i` on, `s` continues a scheme and reaches its `:`; the
/// scheme must be at least two characters long (a single letter followed by
/// `:` is a drive letter).
pub open spec fn scheme_continues(s: Seq<char>, i: int) -> bool
    decreases s.len() - i,
{
    if i < 1 || i >= s.len() {
        false
    } else if s[i] == ':' {
        i >= 2
    } else if is_scheme_char(s[i]) {
        scheme_continues(s, i + 1)
    } else {
        false
    }
}

/// `s` starts with a URI scheme followed by `:`.
pub open spec fn has_uri_scheme(s: Seq<char>) -> bool {
    s.len() > 0 && is_ascii_alpha(s[0]) && scheme_continues(s, 1)
}

/// Whether a module reference is written as a URL rather than a path.
pub fn specifier_has_uri_scheme(s: &str) -> (r: bool)
    ensures
        r == has_uri_scheme(s@),
{
    let n = s.unicode_len();
    if n == 0 || !{
        let c = s.get_char(0);
        ('a' <= c && c <= 'z') || ('A' <= c && c <= 'Z')
    } {
        return false;
    }
    let mut i: usize = 1;
    while i < n
        invariant
            1 <= i <= n == s@.len(),
            is_ascii_alpha(s@[0]),
            scheme_continues(s@, i as int) == scheme_continues(s@, 1),
        decreases n - i,
    {
        let c = s.get_char(i);
        if c == ':' {
            return i >= 2;
        }
        if !(('a' <= c && c <= 'z') || ('A' <= c && c <= 'Z') || ('0' <= c && c <= '9') || c
            == '+' || c == '-' || c == '.') {
            return false;
        }
        i = i + 1;
    }
    false
}

/// Joins a relative path onto a base directory; an absolute path stands alone.
pub open spec fn joined_path(base: Seq<char>, p: Seq<char>) -> Seq<char> {
    if p.len() > 0 && p[0] == '/' {
        p
    } else if base.len() > 0 && base.last() == '/' {
        base + p
    } else {
        base + seq!['/'] + p
    }
}

/// Joins `p` onto `base` with a `/` separator.
pub fn join_path(base: &str, p: &str) -> (r: String)
    ensures
        r@ == joined_path(base@, p@),
{
    let pn = p.unicode_len();
    if pn > 0 && p.get_char(0) == '/' {
        return String::from_str(p);
    }
    let bn = base.unicode_len();
    if bn > 0 && base.get_char(bn - 1) == '/' {
        String::from_str(base).concat(p)
    } else {
        proof {
            reveal_strlit("/");
        }
        String::from_str(base).concat("/").concat(p)
    }
}

impl ModuleUrl {
    fn from_url(u: &url::Url) -> (r: ModuleUrl) {
        ModuleUrl { href: url_serialization(u), path: url_path(u) }
    }

    /// Parses an absolute URL.
    pub fn parse(s: &str) -> (r: Result<ModuleUrl, InstallError>)
        ensures
            r is Ok <==> parses_as_url(s@),
            r matches Err(e) ==> e matches InstallError::UrlResolution { input } && input@ == s@,
    {
        match parse_url(s) {
            Ok(u) => Ok(ModuleUrl::from_url(&u)),
            Err(_) => Err(InstallError::UrlResolution { input: String::from_str(s) }),
        }
    }
}

/// Resolves a module reference: one with a URL scheme is parsed as a URL,
/// any other is a file path taken relative to `cwd` and turned into a
/// `file:` URL.
pub fn resolve_url_or_path(specifier: &str, cwd: &str) -> (r: Result<ModuleUrl, InstallError>)
    ensures
        has_uri_scheme(specifier@) ==> (r is Ok <==> parses_as_url(specifier@)),
        r matches Err(e) ==> e matches InstallError::UrlResolution { input } && input@ == specifier@,
{
    if specifier_has_uri_scheme(specifier) {
        ModuleUrl::parse(specifier)
    } else {
        let full = join_path(cwd, specifier);
        match url_from_file_path(full.as_str()) {
            Ok(u) => Ok(ModuleUrl::from_url(&u)),
            Err(_) => Err(InstallError::UrlResolution { input: String::from_str(specifier) }),
        }
    }
}

/// Infers a command name from a module URL's path (see `inferred_name`).
pub fn infer_name_from_url(url: &ModuleUrl) -> (r: Option<String>)
    ensures
        r matches Some(s) ==> inferred_name(url.path@) == Some(s@),
        r is None ==> inferred_name(url.path@) is None,
{
    infer_name_from_path(url.path.as_str())
}

} // verus!
