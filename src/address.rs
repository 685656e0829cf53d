//! Normalising user-typed URLs and naming the file a URL points at.
use vstd::prelude::*;

use crate::naming::{last_index_of, lemma_last_index_bounds};

verus! {

/// A URL as the URL parser accepted it: its serialization and its path.
pub struct ParsedUrl {
    pub href: String,
    pub path: String,
}

/// Why the URL parser refused a string.
pub enum UrlError {
    /// The string has no scheme, so it could only be a relative URL.
    MissingScheme,
    /// Any other refusal, with the parser's description.
    Invalid(String),
}

/// What `url::Url::parse` makes of a string it accepts: the serialization
/// and the path of the URL, or `None` when it refuses the string.
pub uninterp spec fn parsed_url(s: Seq<char>) -> Option<(Seq<char>, Seq<char>)>;

/// A C0 control character or a space, which the parser trims from both ends.
pub open spec fn is_c0_or_space(c: char) -> bool {
    c as u32 <= 0x20
}

/// Tab, line feed or carriage return, which the parser skips anywhere.
pub open spec fn is_tab_or_newline(c: char) -> bool {
    c == '\t' || c == '\n' || c == '\r'
}

pub open spec fn trim_front(s: Seq<char>) -> Seq<char>
    decreases s.len(),
{
    if s.len() > 0 && is_c0_or_space(s[0]) {
        trim_front(s.drop_first())
    } else {
        s
    }
}

pub open spec fn trim_back(s: Seq<char>) -> Seq<char>
    decreases s.len(),
{
    if s.len() > 0 && is_c0_or_space(s.last()) {
        trim_back(s.drop_last())
    } else {
        s
    }
}

/// The characters the parser reads from `s`.
pub open spec fn parser_input(s: Seq<char>) -> Seq<char> {
    trim_back(trim_front(s)).filter(|c: char| !is_tab_or_newline(c))
}

pub open spec fn is_ascii_alpha(c: char) -> bool {
    ('a' <= c && c <= 'z') || ('A' <= c && c <= 'Z')
}

pub open spec fn is_scheme_char(c: char) -> bool {
    is_ascii_alpha(c) || ('0' <= c && c <= '9') || c == '+' || c == '-' || c == '.'
}

/// Whether `s` starts with a scheme: a letter, then letters, digits, `+`,
/// `-` or `.`, then a colon.
pub open spec fn has_scheme(s: Seq<char>) -> bool {
    let t = parser_input(s);
    t.len() > 0 && is_ascii_alpha(t[0]) && exists|i: int|
        0 < i < t.len() && t[i] == ':' && forall|j: int| 0 < j < i ==> is_scheme_char(#[trigger] t[j])
}

/// Relies on `url::Url::parse`: on success the URL's serialization and path;
/// `ParseError::RelativeUrlWithoutBase` exactly when the input has no scheme.
#[verifier::external_body]
fn parse_url(s: &str) -> (r: Result<ParsedUrl, UrlError>)
    ensures
        match r {
            Ok(u) => parsed_url(s@) == Some((u.href@, u.path@)),
            Err(_) => parsed_url(s@) is None,
        },
        (r is Err && r->Err_0 is MissingScheme) <==> !has_scheme(s@),
{
    match url::Url::parse(s) {
        Ok(u) => Ok(ParsedUrl { href: u.as_str().to_string(), path: u.path().to_string() }),
        Err(url::ParseError::RelativeUrlWithoutBase) => Err(UrlError::MissingScheme),
        Err(e) => Err(UrlError::Invalid(e.to_string())),
    }
}

/// What a URL typed as `s` resolves to: `s` itself when it parses, otherwise
/// `http://` followed by `s` when `s` merely lacks a scheme.
pub open spec fn proper_url(s: Seq<char>) -> Option<(Seq<char>, Seq<char>)> {
    if parsed_url(s) is Some {
        parsed_url(s)
    } else if !has_scheme(s) {
        parsed_url("http://"@ + s)
    } else {
        None
    }
}

fn describe(e: UrlError) -> (r: String) {
    let mut m = String::from_str("Failed to parse URL: ");
    match e {
        UrlError::MissingScheme => m.append("relative URL without a base"),
        UrlError::Invalid(d) => m.append(d.as_str()),
    }
    m
}

/// Parses a URL as typed by a user, retrying with an `http://` prefix when
/// the input has no scheme.
pub fn get_proper_url(url_str: &str) -> (r: Result<ParsedUrl, String>)
    ensures
        match r {
            Ok(u) => proper_url(url_str@) == Some((u.href@, u.path@)),
            Err(_) => proper_url(url_str@) is None,
        },
{
    match parse_url(url_str) {
        Ok(u) => Ok(u),
        Err(UrlError::MissingScheme) => {
            let mut fixed = String::from_str("http://");
            fixed.append(url_str);
            match parse_url(fixed.as_str()) {
                Ok(u) => Ok(u),
                Err(e) => Err(describe(e)),
            }
        },
        Err(e) => Err(describe(e)),
    }
}

/// The last segment of a URL path, for paths that start with `/`.
pub open spec fn last_segment(path: Seq<char>) -> Option<Seq<char>> {
    if path.len() > 0 && path[0] == '/' {
        Some(path.subrange(last_index_of(path, '/') + 1, path.len() as int))
    } else {
        None
    }
}

/// The file name a download is saved under: the last path segment of the
/// requested URL, or else of the URL the response came from, when not empty;
/// `tmp.bin` when neither has one.
pub open spec fn download_file_name(request_path: Seq<char>, response_path: Seq<char>) -> Seq<char> {
    match last_segment(request_path) {
        Some(n) if n.len() > 0 => n,
        _ => match last_segment(response_path) {
            Some(n) if n.len() > 0 => n,
            _ => "tmp.bin"@,
        },
    }
}

/// Position of the last `/` in `s`.
fn find_last_slash(s: &str) -> (r: usize)
    requires
        s@.len() > 0,
        s@[0] == '/',
    ensures
        r == last_index_of(s@, '/'),
{
    let len = s.unicode_len();
    let mut i: usize = len;
    assert(s@.subrange(0, len as int) =~= s@);
    while i > 1
        invariant
            1 <= i <= len == s@.len(),
            last_index_of(s@, '/') == last_index_of(s@.subrange(0, i as int), '/'),
        decreases i,
    {
        if s.get_char(i - 1) == '/' {
            return i - 1;
        }
        assert(s@.subrange(0, i as int).drop_last() =~= s@.subrange(0, i - 1));
        i = i - 1;
    }
    assert(s@.subrange(0, 1).last() == '/');
    0
}

/// The last segment of a URL path when there is one and it is not empty.
pub fn nonempty_last_segment(path: &str) -> (r: Option<String>)
    ensures
        match r {
            Some(n) => last_segment(path@) == Some(n@) && n@.len() > 0,
            None => !(last_segment(path@) is Some && last_segment(path@)->0.len() > 0),
        },
{
    let len = path.unicode_len();
    if len == 0 || path.get_char(0) != '/' {
        return None;
    }
    let k = find_last_slash(path);
    proof {
        lemma_last_index_bounds(path@, '/');
    }
    if k + 1 == len {
        None
    } else {
        Some(String::from_str(path.substring_char(k + 1, len)))
    }
}

/// Names the file for a download from the paths of the requested URL and of
/// the URL that answered.
pub fn choose_file_name(request_path: &str, response_path: &str) -> (r: String)
    ensures
        r@ == download_file_name(request_path@, response_path@),
{
    match nonempty_last_segment(request_path) {
        Some(n) => n,
        None => match nonempty_last_segment(response_path) {
            Some(n) => n,
            None => String::from_str("tmp.bin"),
        },
    }
}

/// The path of a URL, or the empty path when the string does not parse.
pub open spec fn path_of(s: Seq<char>) -> Seq<char> {
    match parsed_url(s) {
        Some((_, p)) => p,
        None => Seq::empty(),
    }
}

/// The path of the URL written in `s`, or the empty path when it does not
/// parse.
pub fn url_path(s: &str) -> (r: String)
    ensures
        r@ == path_of(s@),
{
    match parse_url(s) {
        Ok(u) => u.path,
        Err(_) => String::new(),
    }
}

/// `name` placed in directory `dir`.
pub open spec fn joined(dir: Seq<char>, name: Seq<char>) -> Seq<char> {
    if dir.len() == 0 || dir.last() == '/' {
        dir + name
    } else {
        dir + "/"@ + name
    }
}

/// Places the file name `name` (which holds no separator) in directory `dir`.
pub fn join_path(dir: &str, name: &str) -> (r: String)
    ensures
        r@ == joined(dir@, name@),
{
    let mut r = String::from_str(dir);
    let len = dir.unicode_len();
    if len > 0 && dir.get_char(len - 1) != '/' {
        r.append("/");
    }
    r.append(name);
    r
}

} // verus!
