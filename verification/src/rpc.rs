//! The HTTP exchanges with a device: the requests the controller sends, and
//! what it makes of the answers.

use crate::error::Error;
use crate::text;
use vstd::prelude::*;
use vstd::string::StringSliceAdditionalSpecFns;

verus! {

/// The SOAP action that asks a device for its binary state.
pub const GET_BINARY_STATE_ACTION: &'static str = "\"urn:Belkin:service:basicevent:1#GetBinaryState\"";

/// The SOAP action that sets a device's binary state.
pub const SET_BINARY_STATE_ACTION: &'static str = "\"urn:Belkin:service:basicevent:1#SetBinaryState\"";

/// One header of an HTTP request.
#[derive(Debug, Clone)]
pub struct Header {
    pub name: String,
    pub value: String,
}

impl View for Header {
    type V = (Seq<char>, Seq<char>);

    open spec fn view(&self) -> (Seq<char>, Seq<char>) {
        (self.name@, self.value@)
    }
}

/// The abstract value of an HTTP request.
pub struct RequestView {
    pub method: Seq<char>,
    pub url: Seq<char>,
    pub headers: Seq<(Seq<char>, Seq<char>)>,
    pub body: Seq<char>,
}

/// An HTTP request for a device, ready to be sent.
#[derive(Debug, Clone)]
pub struct HttpRequest {
    pub method: String,
    pub url: String,
    pub headers: Vec<Header>,
    pub body: String,
}

impl View for HttpRequest {
    type V = RequestView;

    open spec fn view(&self) -> RequestView {
        RequestView {
            method: self.method@,
            url: self.url@,
            headers: self.headers@.map_values(|h: Header| h@),
            body: self.body@,
        }
    }
}

/// The abstract value of a request that may have failed to be built.
pub open spec fn request_result(r: Result<HttpRequest, Error>) -> Result<RequestView, Error> {
    match r {
        Ok(q) => Ok(q@),
        Err(e) => Err(e),
    }
}

/// Whether a string can be sent as an HTTP header value: every character
/// is a tab, or is at least a space and is not DEL. (The bytes of a
/// character beyond ASCII are all at least 0x80, which HTTP accepts.)
pub open spec fn header_value_ok(s: Seq<char>) -> bool {
    forall|i: int| 0 <= i < s.len() ==> {
        let u = #[trigger] s[i] as u32;
        u == 9 || (u >= 32 && u != 127)
    }
}

/// Asks `reqwest::header::HeaderValue::from_str` whether `s` is a valid
/// header value; the contract claims that it accepts exactly the strings
/// of `header_value_ok`, as the `http` crate's byte check (a byte is valid
/// when it is a tab, or at least 32 and not 127) does on their UTF-8 bytes.
#[verifier::external_body]
fn header_value_accepted(s: &str) -> (ok: bool)
    ensures
        ok == header_value_ok(s@),
{
    reqwest::header::HeaderValue::from_str(s).is_ok()
}

/// A header with a name and value given as literals or strings.
fn header(name: &str, value: String) -> (h: Header)
    ensures
        h@ == (name@, value@),
{
    Header { name: name.to_owned(), value }
}

/// The request that ends the subscription `sid` at `url`.
pub open spec fn unsubscribe_request_of(url: Seq<char>, sid: Seq<char>) -> RequestView {
    RequestView {
        method: "UNSUBSCRIBE"@,
        url,
        headers: seq![("SID"@, sid)],
        body: Seq::empty(),
    }
}

/// The request that ends the subscription `sid` at `url`; a `sid` that
/// cannot be sent as a header is `HttpHeaderError`.
pub fn unsubscribe_request(url: &str, sid: &str) -> (r: Result<HttpRequest, Error>)
    ensures
        match r {
            Ok(req) => header_value_ok(sid@) && req@ == unsubscribe_request_of(url@, sid@),
            Err(e) => !header_value_ok(sid@) && e == Error::HttpHeaderError,
        },
{
    if !header_value_accepted(sid) {
        return Err(Error::HttpHeaderError);
    }
    let mut headers: Vec<Header> = Vec::new();
    headers.push(header("SID", sid.to_owned()));
    let req = HttpRequest {
        method: "UNSUBSCRIBE".to_owned(),
        url: url.to_owned(),
        headers,
        body: String::new(),
    };
    assert(req@.headers =~= seq![("SID"@, sid@)]);
    Ok(req)
}

/// The value of the TIMEOUT header that asks for a subscription of
/// `seconds` seconds.
pub open spec fn timeout_header_of(seconds: nat) -> Seq<char> {
    "Second-"@ + text::decimal(seconds)
}

/// The request that subscribes `callback` to state changes at `url` for
/// `seconds` seconds.
pub open spec fn subscribe_request_of(
    url: Seq<char>,
    seconds: nat,
    callback: Seq<char>,
) -> RequestView {
    RequestView {
        method: "SUBSCRIBE"@,
        url,
        headers: seq![
            ("CALLBACK"@, callback),
            ("NT"@, "upnp:event"@),
            ("TIMEOUT"@, timeout_header_of(seconds)),
        ],
        body: Seq::empty(),
    }
}

/// The request that subscribes `callback` to state changes at `url` for
/// `seconds` seconds; a callback that cannot be sent as a header is
/// `HttpHeaderError`.
pub fn subscribe_request(url: &str, seconds: u64, callback: &str) -> (r: Result<
    HttpRequest,
    Error,
>)
    ensures
        match r {
            Ok(req) => header_value_ok(callback@) && req@ == subscribe_request_of(
                url@,
                seconds as nat,
                callback@,
            ),
            Err(e) => !header_value_ok(callback@) && e == Error::HttpHeaderError,
        },
{
    if !header_value_accepted(callback) {
        return Err(Error::HttpHeaderError);
    }
    let mut timeout = text::to_chars("Second-");
    text::push_decimal(&mut timeout, seconds);
    let mut headers: Vec<Header> = Vec::new();
    headers.push(header("CALLBACK", callback.to_owned()));
    headers.push(header("NT", "upnp:event".to_owned()));
    headers.push(header("TIMEOUT", text::string_from_chars(timeout.as_slice())));
    let req = HttpRequest {
        method: "SUBSCRIBE".to_owned(),
        url: url.to_owned(),
        headers,
        body: String::new(),
    };
    assert(req@.headers =~= seq![
        ("CALLBACK"@, callback@),
        ("NT"@, "upnp:event"@),
        ("TIMEOUT"@, timeout_header_of(seconds as nat)),
    ]);
    Ok(req)
}

/// The SOAP request that performs `action` with the envelope `xml` at
/// `url`; its content length counts the UTF-8 bytes of `xml`.
pub open spec fn soap_request_of(url: Seq<char>, action: Seq<char>, xml: Seq<char>) -> RequestView {
    RequestView {
        method: "GET"@,
        url,
        headers: seq![
            ("SOAPACTION"@, action),
            ("content-length"@, text::decimal(vstd::utf8::encode_utf8(xml).len())),
            ("content-type"@, "text/xml; charset=utf-8"@),
            ("connection"@, "close"@),
        ],
        body: xml,
    }
}

/// The SOAP request that performs `action` with the envelope `xml` at
/// `url`; an action that cannot be sent as a header is `HttpHeaderError`.
pub fn soap_request(url: &str, action: &str, xml: &str) -> (r: Result<HttpRequest, Error>)
    ensures
        match r {
            Ok(req) => header_value_ok(action@) && req@ == soap_request_of(url@, action@, xml@),
            Err(e) => !header_value_ok(action@) && e == Error::HttpHeaderError,
        },
{
    if !header_value_accepted(action) {
        return Err(Error::HttpHeaderError);
    }
    let bytes = xml.as_bytes();
    let length = bytes.len();
    let mut headers: Vec<Header> = Vec::new();
    headers.push(header("SOAPACTION", action.to_owned()));
    headers.push(header("content-length", text::decimal_string(length as u64)));
    headers.push(header("content-type", "text/xml; charset=utf-8".to_owned()));
    headers.push(header("connection", "close".to_owned()));
    let req = HttpRequest {
        method: "GET".to_owned(),
        url: url.to_owned(),
        headers,
        body: xml.to_owned(),
    };
    assert(req@.headers =~= seq![
        ("SOAPACTION"@, action@),
        ("content-length"@, text::decimal(vstd::utf8::encode_utf8(xml@).len())),
        ("content-type"@, "text/xml; charset=utf-8"@),
        ("connection"@, "close"@),
    ]);
    Ok(req)
}

/// The plain GET request for `url`.
pub open spec fn get_request_of(url: Seq<char>) -> RequestView {
    RequestView { method: "GET"@, url, headers: Seq::empty(), body: Seq::empty() }
}

/// The plain GET request for `url`.
pub fn get_request(url: &str) -> (req: HttpRequest)
    ensures
        req@ == get_request_of(url@),
{
    let req = HttpRequest {
        method: "GET".to_owned(),
        url: url.to_owned(),
        headers: Vec::new(),
        body: String::new(),
    };
    assert(req@.headers =~= Seq::<(Seq<char>, Seq<char>)>::empty());
    req
}

/// Accepts only the HTTP status 200; any other is `InvalidResponse` with it.
pub fn expect_ok(status: u16) -> (r: Result<(), Error>)
    ensures
        r is Ok <==> status == 200,
        r is Err ==> r == Err::<(), Error>(Error::InvalidResponse(status)),
{
    if status != 200 {
        Err(Error::InvalidResponse(status))
    } else {
        Ok(())
    }
}

/// A response header as read from a device: absent, not readable as text,
/// or its text.
pub type HeaderField = Option<Result<String, ()>>;

/// The parts of a device's answer to a subscription request.
#[derive(Debug)]
pub struct RpcResponse {
    pub status: u16,
    pub sid: Option<String>,
    pub timeout: Option<String>,
}

/// The text of a header that was readable, or `None` when it was absent.
pub open spec fn field_text(f: HeaderField) -> Option<Seq<char>> {
    match f {
        Some(Ok(s)) => Some(s@),
        _ => None,
    }
}

/// The answer to a subscription request: a status other than 200 is
/// `InvalidResponse`; a SID or TIMEOUT header that is not readable text is
/// `InvalidState`; otherwise the status with the two headers' texts.
pub fn rpc_response(status: u16, sid: HeaderField, timeout: HeaderField) -> (r: Result<
    RpcResponse,
    Error,
>)
    ensures
        match r {
            Ok(resp) => {
                &&& status == 200
                &&& !(sid matches Some(Err(_)))
                &&& !(timeout matches Some(Err(_)))
                &&& resp.status == status
                &&& text::opt_text(resp.sid) == field_text(sid)
                &&& text::opt_text(resp.timeout) == field_text(timeout)
            },
            Err(e) => if status != 200 {
                e == Error::InvalidResponse(status)
            } else {
                e == Error::InvalidState && (sid matches Some(Err(_)) || timeout matches Some(
                    Err(_),
                ))
            },
        },
{
    if status != 200 {
        return Err(Error::InvalidResponse(status));
    }
    let sid_text = match sid {
        Some(Ok(s)) => Some(s),
        Some(Err(_)) => {
            return Err(Error::InvalidState);
        },
        None => None,
    };
    let timeout_text = match timeout {
        Some(Ok(s)) => Some(s),
        Some(Err(_)) => {
            return Err(Error::InvalidState);
        },
        None => None,
    };
    Ok(RpcResponse { status, sid: sid_text, timeout: timeout_text })
}

/// The result of a subscription.
#[derive(Debug, Clone)]
pub struct SubscribeResponse {
    /// The subscription ID the device gave.
    pub sid: String,
    /// For how many seconds the device keeps the subscription.
    pub timeout: u32,
}

/// The number of seconds in a TIMEOUT header `Second-N`; 0 when the header
/// has another form or `N` is not a `u32`.
pub open spec fn timeout_seconds(t: Seq<char>) -> u32 {
    if text::starts_with(t, "Second-"@) {
        match text::parse_unsigned(t.skip(7), u32::MAX as nat) {
            Ok(n) => n as u32,
            Err(_) => 0,
        }
    } else {
        0
    }
}

/// What a subscription answer grants: a status other than 200 is
/// `InvalidResponse`; a missing SID or TIMEOUT is `DeviceError`; otherwise
/// the SID and the number of seconds of the TIMEOUT.
pub fn handle_subscription_response(response: RpcResponse) -> (r: Result<
    SubscribeResponse,
    Error,
>)
    ensures
        match r {
            Ok(s) => {
                &&& response.status == 200
                &&& response.sid == Some(s.sid)
                &&& response.timeout matches Some(t) && s.timeout == timeout_seconds(t@)
            },
            Err(e) => if response.status != 200 {
                e == Error::InvalidResponse(response.status)
            } else {
                e == Error::DeviceError && (response.sid is None || response.timeout is None)
            },
        },
{
    if response.status != 200 {
        return Err(Error::InvalidResponse(response.status));
    }
    let sid = match response.sid {
        Some(sid) => sid,
        None => {
            return Err(Error::DeviceError);
        },
    };
    let timeout_string = match response.timeout {
        Some(timeout) => timeout,
        None => {
            return Err(Error::DeviceError);
        },
    };
    let t = text::to_chars(timeout_string.as_str());
    let prefix = text::to_chars("Second-");
    proof {
        reveal_strlit("Second-");
    }
    let timeout = if text::matches_at(t.as_slice(), prefix.as_slice(), 0) {
        let number = text::copy_range(t.as_slice(), 7, t.len());
        assert(number@ =~= t@.skip(7));
        match text::parse_unsigned_chars(number.as_slice(), 0xffff_ffff) {
            Ok(n) => n as u32,
            Err(_) => 0,
        }
    } else {
        0
    };
    Ok(SubscribeResponse { sid, timeout })
}

/// Law: the subscription length the controller asks for in its TIMEOUT
/// header, echoed back by a device in the same form, is read back as that
/// length.
pub proof fn lemma_timeout_roundtrip(seconds: nat)
    requires
        seconds <= u32::MAX,
    ensures
        timeout_seconds(timeout_header_of(seconds)) == seconds,
{
    reveal_strlit("Second-");
    let t = timeout_header_of(seconds);
    assert(t.subrange(0, 7) =~= "Second-"@);
    assert(t.skip(7) =~= text::decimal(seconds));
    text::lemma_parse_decimal(seconds, u32::MAX as nat);
}

} // verus!
