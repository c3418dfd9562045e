//! Device locations: the URLs at which devices describe themselves, read
//! with the `url` crate.

use crate::error::Error;
use crate::text;
use vstd::prelude::*;

verus! {

/// The `url` crate's parsed URL, carried opaquely.
#[verifier::external_type_specification]
#[verifier::external_body]
pub struct ExUrl(url::Url);

/// What `url::Url::parse` reports for a text that it cannot parse, as the
/// parse error's message; `None` when the text parses.
pub uninterp spec fn url_parse_error(text: Seq<char>) -> Option<Seq<char>>;

/// `url::Url::host_str` of the URL parsed from `text`.
pub uninterp spec fn url_host(text: Seq<char>) -> Option<Seq<char>>;

/// `url::Url::port` of the URL parsed from `text`: the explicit port, if the
/// URL names one other than its scheme's default.
pub uninterp spec fn url_port(text: Seq<char>) -> Option<u16>;

/// The serialization of the URL parsed from `text` after `url::Url::set_path`
/// has set its path to `path`.
pub uninterp spec fn url_with_path(text: Seq<char>, path: Seq<char>) -> Seq<char>;

/// Parses `text` with `url::Url::parse`; the contract claims that it
/// succeeds exactly when `url_parse_error` is none, and otherwise gives the
/// parse error's message.
#[verifier::external_body]
fn url_parse(text: &str) -> (r: Result<url::Url, String>)
    ensures
        r is Ok <==> url_parse_error(text@) is None,
        r matches Err(m) ==> url_parse_error(text@) == Some(m@),
{
    match url::Url::parse(text) {
        Ok(u) => Ok(u),
        Err(e) => Err(e.to_string()),
    }
}

/// A URL that parsed, together with the text it was parsed from. Its view is
/// that text; its `url` field never changes after parsing, so what the
/// outside accessors report of it is a function of the text.
pub struct ParsedUrl {
    text: String,
    url: url::Url,
}

impl View for ParsedUrl {
    type V = Seq<char>;

    closed spec fn view(&self) -> Seq<char> {
        self.text@
    }
}

/// Calls `url::Url::host_str` on the parsed URL; the contract claims the
/// result is `url_host` of the text the URL was parsed from.
#[verifier::external_body]
fn host_str(u: &ParsedUrl) -> (r: Option<String>)
    ensures
        match r {
            Some(h) => url_host(u@) == Some(h@),
            None => url_host(u@) is None,
        },
{
    match u.url.host_str() {
        Some(h) => Some(h.to_string()),
        None => None,
    }
}

/// Calls `url::Url::port` on the parsed URL; the contract claims the result
/// is `url_port` of the text the URL was parsed from.
#[verifier::external_body]
fn port(u: &ParsedUrl) -> (r: Option<u16>)
    ensures
        r == url_port(u@),
{
    u.url.port()
}

/// Calls `url::Url::set_path` with `path` on a copy of the parsed URL and
/// serializes the copy; the contract claims the result is `url_with_path`
/// of the text the URL was parsed from and of `path`.
#[verifier::external_body]
fn with_path_serialization(u: &ParsedUrl, path: &str) -> (r: String)
    ensures
        r@ == url_with_path(u@, path@),
{
    let mut copy = u.url.clone();
    copy.set_path(path);
    copy.to_string()
}

/// The host name of a URL, or nothing when it has none.
pub open spec fn host_name_of(text: Seq<char>) -> Seq<char> {
    match url_host(text) {
        Some(h) => h,
        None => Seq::empty(),
    }
}

/// Where to open a connection to reach the host of a URL: its host, and its
/// explicit port after a colon; `None` when it has no host.
pub open spec fn connect_target_of(text: Seq<char>) -> Option<Seq<char>> {
    match url_host(text) {
        None => None,
        Some(h) => match url_port(text) {
            Some(p) => Some(h + seq![':'] + text::decimal(p as nat)),
            None => Some(h),
        },
    }
}

impl ParsedUrl {
    /// Parses a device location.
    pub fn parse(text: &str) -> (r: Result<ParsedUrl, Error>)
        ensures
            r is Ok <==> url_parse_error(text@) is None,
            r matches Ok(u) ==> u@ == text@,
            r matches Err(e) ==> (e matches Error::UrlError(m) && url_parse_error(text@) == Some(
                m@,
            )),
    {
        match url_parse(text) {
            Ok(url) => Ok(ParsedUrl { text: text.to_owned(), url }),
            Err(m) => Err(Error::UrlError(m)),
        }
    }

    /// The text this URL was parsed from.
    pub fn as_text(&self) -> (r: String)
        ensures
            r@ == self@,
    {
        self.text.clone()
    }

    /// The host of the URL, or the empty string when it has none.
    pub fn host_name(&self) -> (r: String)
        ensures
            r@ == host_name_of(self@),
    {
        match host_str(self) {
            Some(h) => h,
            None => String::new(),
        }
    }

    /// The URL with its path set to `/`: the base of all requests to the
    /// device.
    pub fn base_url(&self) -> (r: String)
        ensures
            r@ == url_with_path(self@, "/"@),
    {
        with_path_serialization(self, "/")
    }

    /// Where to connect to reach the device: `host` or `host:port`; no host
    /// is `NoResponse`.
    pub fn connect_target(&self) -> (r: Result<String, Error>)
        ensures
            match r {
                Ok(t) => connect_target_of(self@) == Some(t@),
                Err(e) => connect_target_of(self@) is None && e == Error::NoResponse,
            },
    {
        match host_str(self) {
            None => Err(Error::NoResponse),
            Some(h) => {
                let mut v = text::to_chars(h.as_str());
                match port(self) {
                    Some(p) => {
                        v.push(':');
                        text::push_decimal(&mut v, p as u64);
                    },
                    None => {},
                }
                Ok(text::string_from_chars(v.as_slice()))
            },
        }
    }
}

} // verus!
