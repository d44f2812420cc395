//! Decisions of the HTTP download client: which request a URL makes, where
//! a redirect leads, when to follow, download or give up, and how large the
//! body is announced to be. Connections and transfers are the caller's part.

use vstd::prelude::*;
use crate::text::{chars_of, decimal, decimal_string, starts_with};

verus! {

/// A URI's components as text: scheme, authority, path with query, and the
/// host and port that the authority names.
pub struct UriParts {
    pub scheme: Option<String>,
    pub authority: Option<String>,
    pub path_and_query: Option<String>,
    pub host: Option<String>,
    pub port: Option<u16>,
}

/// A URI's components: scheme, authority, path with query, host, port.
pub type UriView = (
    Option<Seq<char>>,
    Option<Seq<char>>,
    Option<Seq<char>>,
    Option<Seq<char>>,
    Option<u16>,
);

pub open spec fn opt_text(o: Option<String>) -> Option<Seq<char>> {
    match o {
        Some(s) => Some(s@),
        None => None,
    }
}

impl View for UriParts {
    type V = UriView;

    open spec fn view(&self) -> UriView {
        (
            opt_text(self.scheme),
            opt_text(self.authority),
            opt_text(self.path_and_query),
            opt_text(self.host),
            self.port,
        )
    }
}

/// What parsing text as a URI gives: its components, or the error text.
pub uninterp spec fn parsed_uri(s: Seq<char>) -> Result<UriView, Seq<char>>;

/// What building a URI from components gives: its text, or `None` when the
/// components do not make a URI.
pub uninterp spec fn built_uri(
    scheme: Option<Seq<char>>,
    authority: Option<Seq<char>>,
    path_and_query: Option<Seq<char>>,
) -> Option<Seq<char>>;

/// `hyper::Uri::try_from(&str)`, with the parsed URI's scheme, authority,
/// path-and-query, host and port taken out, or the parse error's text.
#[verifier::external_body]
fn parse_uri(s: &str) -> (r: Result<UriParts, String>)
    ensures
        match r {
            Ok(p) => parsed_uri(s@) == Ok::<_, Seq<char>>(p@),
            Err(e) => parsed_uri(s@) == Err::<UriView, _>(e@),
        },
{
    match hyper::Uri::try_from(s) {
        Ok(u) => Ok(
            UriParts {
                scheme: u.scheme_str().map(|x| x.to_string()),
                authority: u.authority().map(|a| a.as_str().to_string()),
                path_and_query: u.path_and_query().map(|p| p.as_str().to_string()),
                host: u.host().map(|h| h.to_string()),
                port: u.port_u16(),
            },
        ),
        Err(e) => Err(e.to_string()),
    }
}

/// `hyper::Uri::builder()` with the given components set, then `build()`;
/// the URI's text, or `None` on the builder's error.
#[verifier::external_body]
fn build_uri(parts: &UriParts) -> (r: Option<String>)
    ensures
        match r {
            Some(t) => built_uri(parts@.0, parts@.1, parts@.2) == Some(t@),
            None => built_uri(parts@.0, parts@.1, parts@.2) is None,
        },
{
    let mut b = hyper::Uri::builder();
    if let Some(s) = &parts.scheme {
        b = b.scheme(s.as_str());
    }
    if let Some(a) = &parts.authority {
        b = b.authority(a.as_str());
    }
    if let Some(p) = &parts.path_and_query {
        b = b.path_and_query(p.as_str());
    }
    b.build().ok().map(|u| u.to_string())
}

/// Why a download could not go on.
#[derive(Debug)]
pub enum HttpError {
    /// The URL is not a URI (the parser's error text).
    InvalidUri(String),
    /// The URI names no host.
    InvalidAuthority,
    /// A redirect came without a `Location` header.
    MissingLocation,
    /// The `Location` header is not visible ASCII text.
    InvalidLocationHeader,
    /// The redirect location is not a URI or has no path.
    InvalidRedirectLocation,
    /// The redirect location and the current URI do not combine.
    RedirectUriConstruction,
    /// More redirects than allowed.
    TooManyRedirects,
    /// A response that is neither success nor redirect.
    NonSuccess(u16),
    /// The request's URI names no host to connect to.
    CannotParseHost,
    /// The request's URI has a scheme other than `http` and `https` (or
    /// none).
    UnsupportedScheme(Option<String>),
}

/// Characters a URI scheme may hold: ASCII letters, digits, `+`, `-`, `.`;
/// `Debug` shows them unescaped.
pub open spec fn scheme_chars(s: Seq<char>) -> bool {
    forall|i: int|
        0 <= i < s.len() ==> ('a' <= #[trigger] s[i] <= 'z' || 'A' <= s[i] <= 'Z' || '0' <= s[i]
            <= '9' || s[i] == '+' || s[i] == '-' || s[i] == '.')
}

/// What `{:?}` shows for an optional scheme.
pub uninterp spec fn scheme_debug_text(s: Option<Seq<char>>) -> Seq<char>;

/// `format!("{:?}", s)` for an `Option<&str>`: `None` for none; for some
/// text, `Some("..")` with the text escaped as `str`'s `Debug` does, which
/// leaves letters, digits, `+`, `-` and `.` as they are; other characters
/// are left to the name `scheme_debug_text`.
#[verifier::external_body]
fn scheme_debug(s: &Option<String>) -> (r: String)
    ensures
        r@ == scheme_debug_text(opt_text(*s)),
        match *s {
            None => r@ == "None"@,
            Some(t) => scheme_chars(t@) ==> r@ == "Some(\""@ + t@ + "\")"@,
        },
{
    format!("{:?}", s.as_deref())
}

/// How to reach the server of a request.
pub struct ConnectPlan {
    pub host: String,
    pub port: u16,
    /// Whether to speak TLS on the connection.
    pub tls: bool,
}

/// How to connect for a request to the URI with components `parts`: plain
/// TCP for `http` (the URI's port, or 80), TLS for `https` (the URI's port,
/// or 443); a URI without a host, or with another scheme, cannot be fetched.
pub fn connect_plan(parts: &UriParts) -> (r: Result<ConnectPlan, HttpError>)
    ensures
        match parts@.3 {
            None => r matches Err(HttpError::CannotParseHost),
            Some(h) => if parts@.0 == Some("http"@) {
                r matches Ok(p) && p.host@ == h && p.port == (match parts@.4 {
                    Some(n) => n,
                    None => 80u16,
                }) && !p.tls
            } else if parts@.0 == Some("https"@) {
                r matches Ok(p) && p.host@ == h && p.port == (match parts@.4 {
                    Some(n) => n,
                    None => 443u16,
                }) && p.tls
            } else {
                r matches Err(HttpError::UnsupportedScheme(shown)) && opt_text(shown) == parts@.0
            },
        },
{
    let h = match &parts.host {
        Some(h) => h.clone(),
        None => {
            return Err(HttpError::CannotParseHost);
        },
    };
    match &parts.scheme {
        Some(s) => {
            let sv = chars_of(s.as_str());
            if crate::text::chars_eq_str(sv.as_slice(), "http") {
                let port = match parts.port {
                    Some(n) => n,
                    None => 80,
                };
                Ok(ConnectPlan { host: h, port, tls: false })
            } else if crate::text::chars_eq_str(sv.as_slice(), "https") {
                let port = match parts.port {
                    Some(n) => n,
                    None => 443,
                };
                Ok(ConnectPlan { host: h, port, tls: true })
            } else {
                Err(HttpError::UnsupportedScheme(Some(s.clone())))
            }
        },
        None => Err(HttpError::UnsupportedScheme(None)),
    }
}

/// The text shown for a download error.
pub open spec fn http_error_message(e: HttpError) -> Seq<char> {
    match e {
        HttpError::InvalidUri(m) => m@,
        HttpError::InvalidAuthority => "invalid authority"@,
        HttpError::MissingLocation => "redirect response has no Location header"@,
        HttpError::InvalidLocationHeader => "invalid redirect location header"@,
        HttpError::InvalidRedirectLocation => "invalid redirect location"@,
        HttpError::RedirectUriConstruction => "failed to construct redirect URI"@,
        HttpError::TooManyRedirects => "too many redirects"@,
        HttpError::NonSuccess(code) => "non-200 HTTP response: "@ + decimal(code as nat),
        HttpError::CannotParseHost => "cannot parse host"@,
        HttpError::UnsupportedScheme(s) => "unsupported scheme: "@ + scheme_debug_text(opt_text(s)),
    }
}

impl HttpError {
    /// The text shown for the error.
    pub fn message(&self) -> (r: String)
        ensures
            r@ == http_error_message(*self),
    {
        match self {
            HttpError::InvalidUri(m) => m.clone(),
            HttpError::InvalidAuthority => String::from_str("invalid authority"),
            HttpError::MissingLocation => String::from_str("redirect response has no Location header"),
            HttpError::InvalidLocationHeader => String::from_str("invalid redirect location header"),
            HttpError::InvalidRedirectLocation => String::from_str("invalid redirect location"),
            HttpError::RedirectUriConstruction => String::from_str("failed to construct redirect URI"),
            HttpError::TooManyRedirects => String::from_str("too many redirects"),
            HttpError::NonSuccess(code) => {
                let mut r = String::from_str("non-200 HTTP response: ");
                let digits = decimal_string(*code as u64);
                r.append(digits.as_str());
                r
            },
            HttpError::CannotParseHost => String::from_str("cannot parse host"),
            HttpError::UnsupportedScheme(s) => {
                let mut r = String::from_str("unsupported scheme: ");
                let shown = scheme_debug(s);
                r.append(shown.as_str());
                r
            },
        }
    }
}

/// A request to make: the URI and the value of its `Host` header.
pub struct RequestTarget {
    pub uri: String,
    pub parts: UriParts,
    pub host: String,
}

/// The request for `url`: it must parse and name a host.
pub open spec fn target_of(url: Seq<char>) -> Result<(Seq<char>, Seq<char>), ()> {
    match parsed_uri(url) {
        Ok(p) => match p.1 {
            Some(a) => Ok((url, a)),
            None => Err(()),
        },
        Err(_) => Err(()),
    }
}

/// The request that downloading `url` starts with.
pub fn request_target(url: &str) -> (r: Result<RequestTarget, HttpError>)
    ensures
        match r {
            Ok(t) => parsed_uri(url@) == Ok::<_, Seq<char>>(t.parts@) && t.uri@ == url@
                && t.parts@.1 == Some(t.host@),
            Err(HttpError::InvalidUri(e)) => parsed_uri(url@) == Err::<UriView, _>(e@),
            Err(HttpError::InvalidAuthority) => parsed_uri(url@) matches Ok(p) && p.1 is None,
            Err(_) => false,
        },
{
    match parse_uri(url) {
        Ok(parts) => {
            let host = match &parts.authority {
                Some(a) => a.clone(),
                None => {
                    return Err(HttpError::InvalidAuthority);
                },
            };
            let uri = crate::text::string_of(chars_of(url).as_slice());
            Ok(RequestTarget { uri, parts, host })
        },
        Err(e) => Err(HttpError::InvalidUri(e)),
    }
}

/// The `Location` header of a redirect, as the response has it.
pub enum LocationHeader {
    Missing,
    NotText,
    Text(String),
}

/// Whether a location is a full URL rather than a path on the same host.
pub open spec fn is_absolute_location(loc: Seq<char>) -> bool {
    ||| ("http://"@.len() <= loc.len() && loc.take("http://"@.len() as int) == "http://"@)
    ||| ("https://"@.len() <= loc.len() && loc.take("https://"@.len() as int) == "https://"@)
}

/// `s` begins with `prefix`.
pub open spec fn begins_with(s: Seq<char>, prefix: Seq<char>) -> bool {
    prefix.len() <= s.len() && s.take(prefix.len() as int) == prefix
}

/// A location that starts with `http://` or with `https://` is a full URL.
pub proof fn lemma_http_and_https_locations_are_absolute(loc: Seq<char>)
    requires
        begins_with(loc, seq!['h', 't', 't', 'p', ':', '/', '/'])
            || begins_with(loc, seq!['h', 't', 't', 'p', 's', ':', '/', '/']),
    ensures
        is_absolute_location(loc),
{
    reveal_strlit("http://");
    reveal_strlit("https://");
    assert("http://"@ =~= seq!['h', 't', 't', 'p', ':', '/', '/']);
    assert("https://"@ =~= seq!['h', 't', 't', 'p', 's', ':', '/', '/']);
}

/// A location that starts with neither `http://` nor `https://` is a path on
/// the current host.
pub proof fn lemma_other_locations_are_relative(loc: Seq<char>)
    requires
        !begins_with(loc, seq!['h', 't', 't', 'p', ':', '/', '/']),
        !begins_with(loc, seq!['h', 't', 't', 'p', 's', ':', '/', '/']),
    ensures
        !is_absolute_location(loc),
{
    reveal_strlit("http://");
    reveal_strlit("https://");
    assert("http://"@ =~= seq!['h', 't', 't', 'p', ':', '/', '/']);
    assert("https://"@ =~= seq!['h', 't', 't', 'p', 's', ':', '/', '/']);
}

/// Where a redirect from the request `current` to `location` leads: a full
/// URL is taken as it is; a path replaces the path and query of the current
/// URI. The result must name a host.
pub fn resolve_redirect(current: &UriParts, location: LocationHeader) -> (r: Result<RequestTarget, HttpError>)
    ensures
        match location {
            LocationHeader::Text(loc) => (begins_with(loc@, seq!['h', 't', 't', 'p', ':', '/', '/'])
                || begins_with(loc@, seq!['h', 't', 't', 'p', 's', ':', '/', '/'])) ==> match parsed_uri(
                loc@,
            ) {
                Ok(p) => match p.1 {
                    Some(a) => r matches Ok(t) && t.uri@ == loc@ && t.host@ == a,
                    None => r matches Err(HttpError::InvalidAuthority),
                },
                Err(_) => r matches Err(HttpError::InvalidRedirectLocation),
            },
            _ => true,
        },
        match location {
            LocationHeader::Missing => r matches Err(HttpError::MissingLocation),
            LocationHeader::NotText => r matches Err(HttpError::InvalidLocationHeader),
            LocationHeader::Text(loc) => if is_absolute_location(loc@) {
                match parsed_uri(loc@) {
                    Ok(p) => match p.1 {
                        Some(a) => r matches Ok(t) && t.uri@ == loc@ && t.parts@ == p && t.host@
                            == a,
                        None => r matches Err(HttpError::InvalidAuthority),
                    },
                    Err(_) => r matches Err(HttpError::InvalidRedirectLocation),
                }
            } else {
                match parsed_uri(loc@) {
                    Ok(p) => match p.2 {
                        Some(pq) => match built_uri(current@.0, current@.1, Some(pq)) {
                            Some(u) => match current@.1 {
                                Some(a) => r matches Ok(t) && t.uri@ == u && t.parts@ == (
                                    current@.0,
                                    current@.1,
                                    Some(pq),
                                    current@.3,
                                    current@.4,
                                ) && t.host@ == a,
                                None => r matches Err(HttpError::InvalidAuthority),
                            },
                            None => r matches Err(HttpError::RedirectUriConstruction),
                        },
                        None => r matches Err(HttpError::InvalidRedirectLocation),
                    },
                    Err(_) => r matches Err(HttpError::InvalidRedirectLocation),
                }
            },
        },
{
    let loc = match location {
        LocationHeader::Missing => {
            return Err(HttpError::MissingLocation);
        },
        LocationHeader::NotText => {
            return Err(HttpError::InvalidLocationHeader);
        },
        LocationHeader::Text(loc) => loc,
    };
    proof {
        if begins_with(loc@, seq!['h', 't', 't', 'p', ':', '/', '/']) || begins_with(
            loc@,
            seq!['h', 't', 't', 'p', 's', ':', '/', '/'],
        ) {
            lemma_http_and_https_locations_are_absolute(loc@);
        }
    }
    let chars = chars_of(loc.as_str());
    if starts_with(chars.as_slice(), "http://") || starts_with(chars.as_slice(), "https://") {
        match parse_uri(loc.as_str()) {
            Ok(parts) => {
                let host = match &parts.authority {
                    Some(a) => a.clone(),
                    None => {
                        return Err(HttpError::InvalidAuthority);
                    },
                };
                Ok(RequestTarget { uri: loc, parts, host })
            },
            Err(_) => Err(HttpError::InvalidRedirectLocation),
        }
    } else {
        let pq = match parse_uri(loc.as_str()) {
            Ok(p) => match p.path_and_query {
                Some(pq) => pq,
                None => {
                    return Err(HttpError::InvalidRedirectLocation);
                },
            },
            Err(_) => {
                return Err(HttpError::InvalidRedirectLocation);
            },
        };
        let parts = UriParts {
            scheme: current.scheme.clone(),
            authority: current.authority.clone(),
            path_and_query: Some(pq),
            host: current.host.clone(),
            port: current.port,
        };
        let uri = match build_uri(&parts) {
            Some(u) => u,
            None => {
                return Err(HttpError::RedirectUriConstruction);
            },
        };
        let host = match &parts.authority {
            Some(a) => a.clone(),
            None => {
                return Err(HttpError::InvalidAuthority);
            },
        };
        Ok(RequestTarget { uri, parts, host })
    }
}

/// Status codes 200 to 299.
pub open spec fn is_success(status: u16) -> bool {
    200 <= status < 300
}

/// Status codes 300 to 399.
pub open spec fn is_redirection(status: u16) -> bool {
    300 <= status < 400
}

/// How many redirects are followed at most, after the first.
pub const MAX_REDIRECTS: u32 = 10;

/// What to do with a response.
#[derive(Debug)]
pub enum FetchStep {
    /// Read the body: this is the download.
    Download,
    /// Make the request that the redirect points to.
    FollowRedirect,
    /// Give up.
    Fail(HttpError),
}

/// Where a download stands: whether the first response was a redirect, and
/// how many redirect responses came after it.
pub struct RedirectState {
    pub following: bool,
    pub redirects: u32,
}

impl RedirectState {
    pub fn new() -> (s: Self)
        ensures
            !s.following,
            s.redirects == 0,
    {
        RedirectState { following: false, redirects: 0 }
    }

    /// What to do with a response of status `status`. A first redirect is
    /// always followed; after it, the tenth further redirect gives up.
    pub fn on_status(&mut self, status: u16) -> (step: FetchStep)
        requires
            old(self).redirects < MAX_REDIRECTS,
        ensures
            is_success(status) ==> step is Download && *final(self) == *old(self),
            is_redirection(status) && !old(self).following ==> step is FollowRedirect
                && final(self).following && final(self).redirects == 0,
            is_redirection(status) && old(self).following ==> final(self).following
                && final(self).redirects == old(self).redirects + 1 && (if final(self).redirects >= MAX_REDIRECTS {
                step matches FetchStep::Fail(HttpError::TooManyRedirects)
            } else {
                step is FollowRedirect
            }),
            !is_success(status) && !is_redirection(status) ==> (step matches FetchStep::Fail(
                HttpError::NonSuccess(s),
            ) && s == status) && *final(self) == *old(self),
            step is FollowRedirect ==> final(self).redirects < MAX_REDIRECTS,
    {
        if 200 <= status && status < 300 {
            FetchStep::Download
        } else if 300 <= status && status < 400 {
            if !self.following {
                self.following = true;
                self.redirects = 0;
                FetchStep::FollowRedirect
            } else {
                self.redirects = self.redirects + 1;
                if self.redirects >= MAX_REDIRECTS {
                    FetchStep::Fail(HttpError::TooManyRedirects)
                } else {
                    FetchStep::FollowRedirect
                }
            }
        } else {
            FetchStep::Fail(HttpError::NonSuccess(status))
        }
    }
}

/// The value of the digits `s`, most significant first.
pub open spec fn digits_value(s: Seq<char>) -> nat
    decreases s.len(),
{
    if s.len() == 0 {
        0
    } else {
        digits_value(s.drop_last()) * 10 + (s.last() as nat - '0' as nat) as nat
    }
}

pub open spec fn is_digit(c: char) -> bool {
    '0' <= c <= '9'
}

/// The digits of an unsigned number: the text without a leading `+`.
pub open spec fn unsigned_digits(s: Seq<char>) -> Seq<char> {
    if s.len() > 0 && s[0] == '+' {
        s.drop_first()
    } else {
        s
    }
}

/// `u64::from_str`: an optional `+`, then one or more decimal digits whose
/// value fits in 64 bits.
pub open spec fn parse_u64(s: Seq<char>) -> Option<nat> {
    let d = unsigned_digits(s);
    if d.len() > 0 && (forall|i: int| 0 <= i < d.len() ==> is_digit(#[trigger] d[i]))
        && digits_value(d) <= u64::MAX {
        Some(digits_value(d))
    } else {
        None
    }
}

proof fn lemma_digits_value_grows(s: Seq<char>)
    requires
        forall|i: int| 0 <= i < s.len() ==> is_digit(#[trigger] s[i]),
    ensures
        forall|k: int| 0 <= k <= s.len() ==> digits_value(#[trigger] s.take(k)) <= digits_value(s),
    decreases s.len(),
{
    if s.len() > 0 {
        let t = s.drop_last();
        lemma_digits_value_grows(t);
        assert forall|k: int| 0 <= k <= s.len() implies digits_value(#[trigger] s.take(k))
            <= digits_value(s) by {
            if k < s.len() {
                assert(s.take(k) =~= t.take(k));
                assert(t.take(t.len() as int) =~= t);
            } else {
                assert(s.take(k) =~= s);
            }
        }
    }
}

/// Reads an unsigned 64-bit decimal number.
pub fn parse_u64_chars(s: &[char]) -> (r: Option<u64>)
    ensures
        match r {
            Some(v) => parse_u64(s@) == Some(v as nat),
            None => parse_u64(s@) is None,
        },
{
    let n = s.len();
    let start: usize = if n > 0 && s[0] == '+' {
        1
    } else {
        0
    };
    let ghost d = unsigned_digits(s@);
    assert(d =~= s@.skip(start as int));
    if start == n {
        return None;
    }
    let mut i: usize = start;
    let mut value: u64 = 0;
    while i < n
        invariant
            n == s@.len(),
            start <= i <= n,
            start < n,
            d == unsigned_digits(s@),
            d =~= s@.skip(start as int),
            forall|k: int| 0 <= k < i - start ==> is_digit(#[trigger] d[k]),
            value == digits_value(d.take(i - start)),
        decreases n - i,
    {
        let c = s[i];
        assert(d[i - start] == c);
        if !('0' <= c && c <= '9') {
            assert(!is_digit(d[i - start]));
            return None;
        }
        let digit = (c as u32 - '0' as u32) as u64;
        assert(d.take(i - start + 1).drop_last() =~= d.take(i - start));
        assert(d.take(i - start + 1).last() == c);
        if value > (u64::MAX - digit) / 10 {
            proof {
                assert(digits_value(d.take(i - start + 1)) > u64::MAX) by (nonlinear_arith)
                    requires
                        digits_value(d.take(i - start + 1)) == value * 10 + digit,
                        value > (u64::MAX - digit) / 10,
                        digit <= 9,
                ;
                if forall|k: int| 0 <= k < d.len() ==> is_digit(#[trigger] d[k]) {
                    lemma_digits_value_grows(d);
                    assert(digits_value(d.take(i - start + 1)) <= digits_value(d));
                }
            }
            return None;
        }
        proof {
            assert(value * 10 + digit <= u64::MAX) by (nonlinear_arith)
                requires
                    value <= (u64::MAX - digit) / 10,
                    digit <= 9,
            ;
        }
        value = value * 10 + digit;
        i = i + 1;
    }
    assert(d.take(n - start) =~= d);
    Some(value)
}

/// The announced body size: the `Content-Length` header's number, or 1
/// when the header is missing, not text, or not a number.
pub fn content_length(header: Option<&str>) -> (n: u64)
    ensures
        n == match header {
            Some(h) => match parse_u64(h@) {
                Some(v) => v as u64,
                None => 1,
            },
            None => 1,
        },
{
    match header {
        Some(h) => {
            let v = chars_of(h);
            match parse_u64_chars(v.as_slice()) {
                Some(n) => n,
                None => 1,
            }
        },
        None => 1,
    }
}

} // verus!
