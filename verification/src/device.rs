//! One WeMo (or compatible) device, and the steps of every exchange with it:
//! each `begin_*` step decides what to send, each `finish_*` step takes what
//! came back and updates the device.

use crate::error::Error;
use crate::rpc::{self, HttpRequest, RpcResponse, SubscribeResponse};
use crate::text;
use crate::location::ParsedUrl;
use crate::weectrl::{DeviceInfo, Icon, State, describes, state_of};
use crate::xml::{self, Root, Service};
use vstd::prelude::*;

verus! {

/// The service that every supported device offers.
pub const BASIC_EVENT_SERVICE: &'static str = "urn:Belkin:service:basicevent:1";

/// `path` appended to `base`; when `base` ends with `/` and `path` begins
/// with one, the trailing slashes of `base` are dropped first.
pub open spec fn request_url_of(base: Seq<char>, path: Seq<char>) -> Seq<char> {
    if base.len() > 0 && base.last() == '/' && path.len() > 0 && path[0] == '/' {
        trim_trailing_slashes(base) + path
    } else {
        base + path
    }
}

/// `s` without its trailing slashes.
pub open spec fn trim_trailing_slashes(s: Seq<char>) -> Seq<char>
    decreases s.len(),
{
    if s.len() > 0 && s.last() == '/' {
        trim_trailing_slashes(s.drop_last())
    } else {
        s
    }
}

/// The index of the first service of the basic event type at or after `i`.
pub open spec fn basic_event_from(services: Seq<Service>, i: int) -> Option<int>
    decreases services.len() - i,
{
    if i < 0 || i >= services.len() {
        None
    } else if services[i].service_type@ == BASIC_EVENT_SERVICE@ {
        Some(i)
    } else {
        basic_event_from(services, i + 1)
    }
}

/// The index of the first service of the basic event type.
pub open spec fn basic_event_index(services: Seq<Service>) -> Option<int> {
    basic_event_from(services, 0)
}

/// The callback URL that a subscription names: `<http://IP:PORT/>`.
pub open spec fn callback_of(local_ip: Seq<char>, port: u16) -> Seq<char> {
    "<http://"@ + local_ip + seq![':'] + text::decimal(port as nat) + "/>"@
}

/// What is needed to ask for an icon, and what is already known of it.
#[derive(Debug, Clone)]
pub struct IconRequest {
    pub mimetype: String,
    pub width: u64,
    pub height: u64,
    pub depth: u64,
    pub request: HttpRequest,
}

impl IconRequest {
    /// The icon, once its image has been fetched; a failed fetch is its error.
    pub fn into_icon(self, data: Result<Vec<u8>, Error>) -> (r: Result<Icon, Error>)
        ensures
            match data {
                Ok(d) => r matches Ok(icon) && icon.mimetype == self.mimetype && icon.width
                    == self.width && icon.height == self.height && icon.depth == self.depth
                    && icon.data == d,
                Err(e) => r == Err::<Icon, Error>(e),
            },
    {
        match data {
            Ok(d) => Ok(
                Icon {
                    mimetype: self.mimetype,
                    width: self.width,
                    height: self.height,
                    depth: self.depth,
                    data: d,
                },
            ),
            Err(e) => Err(e),
        }
    }
}

/// One WeMo or similar device.
#[derive(Debug, Clone)]
pub struct Device {
    /// The address of the local interface on the network of the device, as
    /// text.
    pub local_ip: String,
    /// The path that reads and sets the binary state.
    pub binary_control_path: Option<String>,
    /// The path for subscribing to events.
    pub event_path: Option<String>,
    /// The subscription ID for notifications, while subscribed.
    pub sid: Option<String>,
    /// What is known about the device.
    pub info: DeviceInfo,
}

impl Device {
    /// What is known about the device.
    pub open spec fn spec_info(&self) -> DeviceInfo {
        self.info
    }

    /// The local address from which the device is reached.
    pub open spec fn spec_local_ip(&self) -> Seq<char> {
        self.local_ip@
    }

    /// The path that reads and sets the binary state, once validated.
    pub open spec fn spec_control_path(&self) -> Option<Seq<char>> {
        text::opt_text(self.binary_control_path)
    }

    /// The path for subscriptions, once validated.
    pub open spec fn spec_event_path(&self) -> Option<Seq<char>> {
        text::opt_text(self.event_path)
    }

    /// The current subscription ID.
    pub open spec fn spec_sid(&self) -> Option<Seq<char>> {
        text::opt_text(self.sid)
    }

    /// The URL of a request path under the device's base URL.
    pub open spec fn url_for(&self, path: Option<Seq<char>>) -> Option<Seq<char>> {
        match path {
            Some(p) => Some(request_url_of(self.info.base_url@, p)),
            None => None,
        }
    }

    /// The device with binary state `state`, all else unchanged.
    pub open spec fn with_state(self, state: State) -> Device {
        Device { info: DeviceInfo { state, ..self.info }, ..self }
    }

    /// The device with subscription ID `sid`, all else unchanged.
    pub open spec fn with_sid(self, sid: Option<String>) -> Device {
        Device { sid, ..self }
    }

    /// Setting the state or the subscription ID keeps the description, and
    /// changes only what it sets.
    pub proof fn lemma_updates(self, state: State, sid: Option<String>)
        ensures
            self.with_state(state).spec_info().root == self.spec_info().root,
            self.with_state(state).spec_info().state == state,
            self.with_state(state).spec_sid() == self.spec_sid(),
            self.with_sid(sid).spec_info() == self.spec_info(),
            self.with_sid(sid).spec_sid() == text::opt_text(sid),
    {
    }

    /// The request that reads the binary state, or why there is none.
    pub open spec fn fetch_state_request(self) -> Result<rpc::RequestView, Error> {
        match self.url_for(self.spec_control_path()) {
            None => Err(Error::UnsupportedDevice),
            Some(u) => Ok(
                rpc::soap_request_of(u, rpc::GET_BINARY_STATE_ACTION@, xml::GETBINARYSTATE@),
            ),
        }
    }

    /// The request that sets the binary state to `state`, or why there is
    /// none: `Unknown` cannot be set. The request is made whatever state is
    /// on record, which may be out of date; a device that already has the
    /// state answers `Error` (see `finish_set_binary_state`).
    pub open spec fn set_state_request(self, state: State) -> Result<rpc::RequestView, Error> {
        if state == State::Unknown {
            Err(Error::InvalidState)
        } else {
            match self.url_for(self.spec_control_path()) {
                None => Err(Error::UnsupportedDevice),
                Some(u) => Ok(
                    rpc::soap_request_of(
                        u,
                        rpc::SET_BINARY_STATE_ACTION@,
                        if state == State::On {
                            xml::SETBINARYSTATEON@
                        } else {
                            xml::SETBINARYSTATEOFF@
                        },
                    ),
                ),
            }
        }
    }

    /// The request that ends the subscription, or why there is none.
    pub open spec fn unsubscribe_request(self) -> Result<rpc::RequestView, Error> {
        match self.spec_sid() {
            None => Err(Error::NotSubscribed),
            Some(sid) => match self.url_for(self.spec_event_path()) {
                None => Err(Error::UnsupportedDevice),
                Some(u) => if rpc::header_value_ok(sid) {
                    Ok(rpc::unsubscribe_request_of(u, sid))
                } else {
                    Err(Error::HttpHeaderError)
                },
            },
        }
    }

    /// Where and with what callback to subscribe, or why the device cannot
    /// be subscribed to.
    pub open spec fn subscription_target_of(self, port: u16) -> Result<
        (Seq<char>, Seq<char>),
        Error,
    > {
        match self.url_for(self.spec_event_path()) {
            Some(u) => Ok((u, callback_of(self.spec_local_ip(), port))),
            None => Err(Error::UnsupportedDevice),
        }
    }

    /// `req` is the request for icon `i`: the icon's width, height and depth
    /// read as numbers, its type, and the GET request for its image under
    /// the base URL.
    pub open spec fn icon_request_ok(self, i: int, req: IconRequest) -> bool {
        let icon = self.info.root.device.icon_list.icon@[i];
        &&& text::parse_unsigned(icon.width@, u64::MAX as nat) == Ok::<nat, text::IntErrorKind>(
            req.width as nat,
        )
        &&& text::parse_unsigned(icon.height@, u64::MAX as nat) == Ok::<nat, text::IntErrorKind>(
            req.height as nat,
        )
        &&& text::parse_unsigned(icon.depth@, u64::MAX as nat) == Ok::<nat, text::IntErrorKind>(
            req.depth as nat,
        )
        &&& req.mimetype == icon.mimetype
        &&& req.request@ == rpc::get_request_of(request_url_of(self.info.base_url@, icon.url@))
    }

    /// `e` is why icon `i` cannot be asked for: the first of its width,
    /// height and depth that does not read as a number.
    pub open spec fn icon_request_err(self, i: int, e: Error) -> bool {
        let icon = self.info.root.device.icon_list.icon@[i];
        match text::parse_unsigned(icon.width@, u64::MAX as nat) {
            Err(k) => e == Error::ParseError(k),
            Ok(_) => match text::parse_unsigned(icon.height@, u64::MAX as nat) {
                Err(k) => e == Error::ParseError(k),
                Ok(_) => text::parse_unsigned(icon.depth@, u64::MAX as nat) matches Err(k) && e
                    == Error::ParseError(k),
            },
        }
    }

    /// `icon` is what the description `x` gives of an icon: its type, and
    /// its width, height and depth read as numbers.
    pub open spec fn icon_matches(icon: Icon, x: xml::Icon) -> bool {
        &&& icon.mimetype == x.mimetype
        &&& text::parse_unsigned(x.width@, u64::MAX as nat) == Ok::<nat, text::IntErrorKind>(
            icon.width as nat,
        )
        &&& text::parse_unsigned(x.height@, u64::MAX as nat) == Ok::<nat, text::IntErrorKind>(
            icon.height as nat,
        )
        &&& text::parse_unsigned(x.depth@, u64::MAX as nat) == Ok::<nat, text::IntErrorKind>(
            icon.depth as nat,
        )
    }

    /// Each icon fetched so far is what the description gives of the icon
    /// at its place.
    pub open spec fn icons_match(self, fetched: Seq<Icon>) -> bool {
        &&& fetched.len() <= self.info.root.device.icon_list.icon@.len()
        &&& forall|j: int|
            0 <= j < fetched.len() ==> Device::icon_matches(
                #[trigger] fetched[j],
                self.info.root.device.icon_list.icon@[j],
            )
    }

    /// A device described by `info`, reached from the local address
    /// `local_ip`; not yet validated and not subscribed.
    pub fn new(info: DeviceInfo, local_ip: String) -> (d: Device)
        ensures
            d.spec_info() == info,
            d.spec_local_ip() == local_ip@,
            d.spec_control_path() is None,
            d.spec_event_path() is None,
            d.spec_sid() is None,
    {
        Device { local_ip, binary_control_path: None, event_path: None, sid: None, info }
    }

    /// What is known about the device.
    pub fn info(&self) -> (r: &DeviceInfo)
        ensures
            *r == self.spec_info(),
    {
        &self.info
    }

    /// The current subscription ID.
    pub fn sid(&self) -> (r: Option<String>)
        ensures
            text::opt_text(r) == self.spec_sid(),
    {
        match &self.sid {
            Some(s) => Some(s.clone()),
            None => None,
        }
    }

    /// `path` under `base_url`, without doubling the slash between them.
    pub fn request_url(base_url: &str, path: &str) -> (r: String)
        ensures
            r@ == request_url_of(base_url@, path@),
    {
        let b = text::to_chars(base_url);
        let p = text::to_chars(path);
        let mut out: Vec<char>;
        if b.len() > 0 && b[b.len() - 1] == '/' && p.len() > 0 && p[0] == '/' {
            let mut hi = b.len();
            assert(b@.subrange(0, b@.len() as int) =~= b@);
            while hi > 0 && b[hi - 1] == '/'
                invariant
                    hi <= b@.len(),
                    trim_trailing_slashes(b@) == trim_trailing_slashes(b@.subrange(0, hi as int)),
                decreases hi,
            {
                assert(b@.subrange(0, hi as int).drop_last() =~= b@.subrange(0, hi - 1));
                hi -= 1;
            }
            out = text::copy_range(b.as_slice(), 0, hi);
        } else {
            out = b;
        }
        text::push_all(&mut out, p.as_slice());
        text::string_from_chars(out.as_slice())
    }

    /// The URL of a request path under `base_url`; no path means the device
    /// does not support the request: `UnsupportedDevice`.
    pub fn make_request_url(base_url: &str, req_path: &Option<String>) -> (r: Result<
        String,
        Error,
    >)
        ensures
            match req_path {
                Some(p) => r matches Ok(u) && u@ == request_url_of(base_url@, p@),
                None => r == Err::<String, Error>(Error::UnsupportedDevice),
            },
    {
        match req_path {
            Some(path) => Ok(Device::request_url(base_url, path.as_str())),
            None => Err(Error::UnsupportedDevice),
        }
    }

    /// Checks that the device offers the basic event service, and keeps the
    /// control and event paths of the first such service.
    pub fn validate_device(&mut self) -> (supported: bool)
        ensures
            final(self).spec_info() == old(self).spec_info(),
            final(self).spec_local_ip() == old(self).spec_local_ip(),
            final(self).spec_sid() == old(self).spec_sid(),
            match basic_event_index(old(self).spec_info().root.device.service_list.service@) {
                Some(i) => {
                    let s = old(self).spec_info().root.device.service_list.service@[i];
                    &&& supported
                    &&& final(self).spec_control_path() == Some(s.control_url@)
                    &&& final(self).spec_event_path() == Some(s.event_sub_url@)
                },
                None => {
                    &&& !supported
                    &&& final(self).spec_control_path() == old(self).spec_control_path()
                    &&& final(self).spec_event_path() == old(self).spec_event_path()
                },
            },
    {
        let n = self.info.root.device.service_list.service.len();
        let mut i: usize = 0;
        while i < n
            invariant
                n == self.info.root.device.service_list.service@.len(),
                i <= n,
                self == old(self),
                basic_event_index(self.info.root.device.service_list.service@) == basic_event_from(
                    self.info.root.device.service_list.service@,
                    i as int,
                ),
            decreases n - i,
        {
            let service = &self.info.root.device.service_list.service[i];
            if text::str_equal(service.service_type.as_str(), BASIC_EVENT_SERVICE) {
                let control = service.control_url.clone();
                let event = service.event_sub_url.clone();
                self.binary_control_path = Some(control);
                self.event_path = Some(event);
                return true;
            }
            i += 1;
        }
        false
    }

    /// Where and with what callback to subscribe: the event URL and
    /// `<http://IP:PORT/>`; a device without event path is
    /// `UnsupportedDevice`.
    pub fn subscription_target(&self, port: u16) -> (r: Result<(String, String), Error>)
        ensures
            match r {
                Ok(t) => self.subscription_target_of(port) == Ok::<(Seq<char>, Seq<char>), Error>(
                    (t.0@, t.1@),
                ),
                Err(e) => self.subscription_target_of(port) == Err::<(Seq<char>, Seq<char>), Error>(
                    e,
                ),
            },
            r is Ok <==> self.event_path is Some,
            r matches Ok(t) ==> (self.event_path matches Some(p) && t.0@ == request_url_of(
                self.info.base_url@,
                p@,
            ) && t.1@ == "<http://"@ + self.local_ip@ + seq![':'] + text::decimal(port as nat)
                + "/>"@),
    {
        let mut callback = text::to_chars("<http://");
        let ip = text::to_chars(self.local_ip.as_str());
        text::push_all(&mut callback, ip.as_slice());
        callback.push(':');
        text::push_decimal(&mut callback, port as u64);
        let tail = text::to_chars("/>");
        text::push_all(&mut callback, tail.as_slice());
        let url = Device::make_request_url(self.info.base_url.as_str(), &self.event_path)?;
        assert(callback@ =~= callback_of(self.spec_local_ip(), port));
        Ok((url, text::string_from_chars(callback.as_slice())))
    }

    /// Takes the device's answer to a subscription request: on success keeps
    /// its subscription ID; any failure leaves the device as it was.
    pub fn finish_subscribe(&mut self, reply: Result<RpcResponse, Error>) -> (r: Result<
        SubscribeResponse,
        Error,
    >)
        ensures
            match r {
                Ok(s) => {
                    &&& reply matches Ok(resp) && resp.status == 200 && resp.sid == Some(s.sid)
                        && (resp.timeout matches Some(t) && s.timeout == rpc::timeout_seconds(t@))
                    &&& *final(self) == old(self).with_sid(Some(s.sid))
                },
                Err(e) => *final(self) == *old(self) && match reply {
                    Err(e0) => e == e0,
                    Ok(resp) => if resp.status != 200 {
                        e == Error::InvalidResponse(resp.status)
                    } else {
                        e == Error::DeviceError && (resp.sid is None || resp.timeout is None)
                    },
                },
            },
    {
        let resp = reply?;
        let granted = rpc::handle_subscription_response(resp)?;
        self.sid = Some(granted.sid.clone());
        Ok(granted)
    }

    /// Takes the subscription ID `sid` that renewed the subscription
    /// `previous`, while the device still holds `previous`; a renewal of a
    /// subscription that has since ended or been replaced changes nothing.
    pub fn renew_subscription(&mut self, previous: &str, sid: String)
        ensures
            *final(self) == if old(self).spec_sid() == Some(previous@) {
                old(self).with_sid(Some(sid))
            } else {
                *old(self)
            },
    {
        let holds = match &self.sid {
            Some(current) => text::str_equal(current.as_str(), previous),
            None => false,
        };
        if holds {
            self.sid = Some(sid);
        }
    }

    /// The request that ends the current subscription: not subscribed is
    /// `NotSubscribed`, no event path is `UnsupportedDevice`, a subscription
    /// ID that cannot be sent is `HttpHeaderError`.
    pub fn begin_unsubscribe(&self) -> (r: Result<HttpRequest, Error>)
        ensures
            rpc::request_result(r) == self.unsubscribe_request(),
    {
        match &self.sid {
            None => Err(Error::NotSubscribed),
            Some(sid) => {
                let url = Device::make_request_url(self.info.base_url.as_str(), &self.event_path)?;
                rpc::unsubscribe_request(url.as_str(), sid.as_str())
            },
        }
    }

    /// Takes the HTTP status of the answer to an unsubscribe request: on 200
    /// the subscription ends and its ID is returned; otherwise the device
    /// stays as it was.
    pub fn finish_unsubscribe(&mut self, reply: Result<u16, Error>) -> (r: Result<String, Error>)
        ensures
            match r {
                Ok(sid) => {
                    &&& reply == Ok::<u16, Error>(200)
                    &&& old(self).spec_sid() == Some(sid@)
                    &&& *final(self) == old(self).with_sid(None)
                },
                Err(e) => *final(self) == *old(self) && if old(self).spec_sid() is None {
                    e == Error::NotSubscribed
                } else {
                    match reply {
                        Err(e0) => e == e0,
                        Ok(status) => status != 200 && e == Error::InvalidResponse(status),
                    }
                },
            },
    {
        if self.sid.is_none() {
            return Err(Error::NotSubscribed);
        }
        let status = reply?;
        rpc::expect_ok(status)?;
        match self.sid.take() {
            Some(sid) => Ok(sid),
            None => Err(Error::NotSubscribed),
        }
    }

    /// The request that reads the binary state; the state becomes `Unknown`
    /// until the answer comes. No control path is `UnsupportedDevice`.
    pub fn begin_fetch_binary_state(&mut self) -> (r: Result<HttpRequest, Error>)
        ensures
            *final(self) == old(self).with_state(State::Unknown),
            rpc::request_result(r) == old(self).fetch_state_request(),
            r is Ok <==> old(self).binary_control_path is Some,
            r matches Ok(req) ==> (old(self).binary_control_path matches Some(p) && req@.url
                == request_url_of(old(self).info.base_url@, p@) && req@.headers.len() > 0
                && req@.headers[0] == ("SOAPACTION"@, rpc::GET_BINARY_STATE_ACTION@)
                && req@.body == xml::GETBINARYSTATE@),
    {
        self.info.state = State::Unknown;
        let url = Device::make_request_url(
            self.info.base_url.as_str(),
            &self.binary_control_path,
        )?;
        let r = rpc::soap_request(url.as_str(), rpc::GET_BINARY_STATE_ACTION, xml::GETBINARYSTATE);
        proof {
            reveal_strlit("\"urn:Belkin:service:basicevent:1#GetBinaryState\"");
        }
        r
    }

    /// Takes the answer to a state query: the state it reports becomes the
    /// device's; an answer without a state is `InvalidState`.
    pub fn finish_fetch_binary_state(&mut self, reply: Result<String, Error>) -> (r: Result<
        State,
        Error,
    >)
        ensures
            match reply {
                Err(e0) => r == Err::<State, Error>(e0) && *final(self) == *old(self),
                Ok(body) => match xml::binary_state_of(body@) {
                    None => r == Err::<State, Error>(Error::InvalidState) && *final(self) == *old(
                        self),
                    Some(u) => r == Ok::<State, Error>(state_of(u)) && *final(self) == old(
                        self).with_state(state_of(u)),
                },
            },
    {
        let body = reply?;
        match xml::get_binary_state(body.as_str()) {
            Some(u) => {
                let state = State::from(u);
                self.info.state = state;
                Ok(state)
            },
            None => Err(Error::InvalidState),
        }
    }

    /// The request that switches the device on or off; `Unknown` is
    /// `InvalidState`, no control path is `UnsupportedDevice`.
    pub fn begin_set_binary_state(&self, state: State) -> (r: Result<HttpRequest, Error>)
        ensures
            rpc::request_result(r) == self.set_state_request(state),
            r is Ok <==> (state != State::Unknown && self.binary_control_path is Some),
            r matches Ok(req) ==> (self.binary_control_path matches Some(p) && req@.url
                == request_url_of(self.info.base_url@, p@) && req@.headers.len() > 0
                && req@.headers[0] == ("SOAPACTION"@, rpc::SET_BINARY_STATE_ACTION@)
                && req@.body == if state == State::On {
                xml::SETBINARYSTATEON@
            } else {
                xml::SETBINARYSTATEOFF@
            }),
    {
        let request = match state {
            State::On => xml::SETBINARYSTATEON,
            State::Off => xml::SETBINARYSTATEOFF,
            State::Unknown => {
                return Err(Error::InvalidState);
            },
        };
        let url = Device::make_request_url(
            self.info.base_url.as_str(),
            &self.binary_control_path,
        )?;
        let r = rpc::soap_request(url.as_str(), rpc::SET_BINARY_STATE_ACTION, request);
        proof {
            reveal_strlit("\"urn:Belkin:service:basicevent:1#SetBinaryState\"");
        }
        r
    }

    /// Takes the answer to a request that set `state`: on success `state`
    /// becomes the device's; an answer that reports `Error` (the device
    /// already had that state) is `DeviceError`; any failure leaves the
    /// device as it was.
    pub fn finish_set_binary_state(&mut self, state: State, reply: Result<String, Error>) -> (r:
        Result<State, Error>)
        ensures
            match reply {
                Err(e0) => r == Err::<State, Error>(e0) && *final(self) == *old(self),
                Ok(body) => if xml::reports_error(body@) {
                    r == Err::<State, Error>(Error::DeviceError) && *final(self) == *old(self)
                } else {
                    r == Ok::<State, Error>(state) && *final(self) == old(self).with_state(state)
                },
            },
    {
        let body = reply?;
        if xml::get_binary_state_error(body.as_str()) {
            return Err(Error::DeviceError);
        }
        self.info.state = state;
        Ok(state)
    }

    /// The request for the next icon after those in `fetched`, or none when
    /// all icons of the description have been fetched.
    pub fn next_icon_request(&self, fetched: &Vec<Icon>) -> (r: Option<Result<IconRequest, Error>>)
        ensures
            fetched@.len() >= self.info.root.device.icon_list.icon@.len() <==> r is None,
            r matches Some(Ok(req)) ==> self.icon_request_ok(fetched@.len() as int, req),
            r matches Some(Err(e)) ==> self.icon_request_err(fetched@.len() as int, e),
    {
        if fetched.len() >= self.info.root.device.icon_list.icon.len() {
            None
        } else {
            Some(self.icon_request(fetched.len()))
        }
    }

    /// Adds the next icon to `fetched`, once its image has come back as
    /// `data`: the icon the description gives at that place, with that
    /// image. A number in the description that does not read, or a failed
    /// fetch, is the error, and `fetched` stays as it was.
    pub fn push_icon(&self, fetched: &mut Vec<Icon>, data: Result<Vec<u8>, Error>) -> (r: Result<
        (),
        Error,
    >)
        requires
            old(fetched)@.len() < self.info.root.device.icon_list.icon@.len(),
        ensures
            match r {
                Ok(()) => {
                    &&& data is Ok
                    &&& final(fetched)@.len() == old(fetched)@.len() + 1
                    &&& final(fetched)@.take(old(fetched)@.len() as int) == old(fetched)@
                    &&& Device::icon_matches(
                        final(fetched)@[old(fetched)@.len() as int],
                        self.info.root.device.icon_list.icon@[old(fetched)@.len() as int],
                    )
                    &&& data == Ok::<Vec<u8>, Error>(
                        final(fetched)@[old(fetched)@.len() as int].data,
                    )
                },
                Err(e) => {
                    &&& final(fetched)@ == old(fetched)@
                    &&& (self.icon_request_err(old(fetched)@.len() as int, e) || data == Err::<
                        Vec<u8>,
                        Error,
                    >(e))
                },
            },
            self.icons_match(old(fetched)@) ==> self.icons_match(final(fetched)@),
    {
        let req = self.icon_request(fetched.len())?;
        let icon = req.into_icon(data)?;
        let ghost before = fetched@;
        fetched.push(icon);
        assert(fetched@.take(before.len() as int) =~= before);
        Ok(())
    }

    /// Takes the answer to the state query of a newly described device: it
    /// is kept only if its state could be read; otherwise it is
    /// `UnsupportedDevice`.
    pub fn complete_retrieved(mut dev: Device, reply: Result<String, Error>) -> (r: Result<
        Device,
        Error,
    >)
        ensures
            match r {
                Ok(d) => reply matches Ok(body) && xml::binary_state_of(body@) matches Some(u)
                    && d == dev.with_state(state_of(u)) && d.info.state != State::Unknown,
                Err(e) => e == Error::UnsupportedDevice && !(reply matches Ok(body)
                    && xml::binary_state_of(body@) is Some),
            },
    {
        match dev.finish_fetch_binary_state(reply) {
            Ok(_) => Ok(dev),
            Err(_) => Err(Error::UnsupportedDevice),
        }
    }

    /// The step of discovery after a device at `url` described itself with
    /// `xml`, read as `root`, and was reached from `local_ip`: the device,
    /// validated, and the request that reads its state. A device without the
    /// basic event service is `UnsupportedDevice`.
    pub fn prepare_retrieved(url: &ParsedUrl, xml: String, root: Root, local_ip: String) -> (r:
        Result<(Device, HttpRequest), Error>)
        ensures
            match basic_event_index(root.device.service_list.service@) {
                None => r == Err::<(Device, HttpRequest), Error>(Error::UnsupportedDevice),
                Some(i) => r matches Ok(p) && {
                    let d = p.0;
                    let s = root.device.service_list.service@[i];
                    &&& describes(d.info, url@, xml, root)
                    &&& d.info.state == State::Unknown
                    &&& d.local_ip@ == local_ip@
                    &&& d.spec_control_path() == Some(s.control_url@)
                    &&& d.spec_event_path() == Some(s.event_sub_url@)
                    &&& d.spec_sid() is None
                    &&& Ok::<rpc::RequestView, Error>(p.1@) == d.fetch_state_request()
                },
            },
    {
        let info = DeviceInfo::describe(url, xml, root);
        let mut dev = Device::new(info, local_ip);
        if !dev.validate_device() {
            return Err(Error::UnsupportedDevice);
        }
        match dev.begin_fetch_binary_state() {
            Ok(req) => Ok((dev, req)),
            Err(e) => Err(e),
        }
    }

    /// Starts fetching the device's icons: the state becomes `Unknown`; the
    /// result is the number of icons to fetch.
    pub fn begin_fetch_icons(&mut self) -> (n: usize)
        ensures
            *final(self) == old(self).with_state(State::Unknown),
            n == old(self).spec_info().root.device.icon_list.icon@.len(),
    {
        self.info.state = State::Unknown;
        self.info.root.device.icon_list.icon.len()
    }

    /// What is needed to fetch icon `i`: its width, height and depth read as
    /// numbers (a number that does not read is `ParseError`, the first of
    /// the three that fails decides), and the request for its image.
    pub fn icon_request(&self, i: usize) -> (r: Result<IconRequest, Error>)
        requires
            i < self.spec_info().root.device.icon_list.icon@.len(),
        ensures
            match r {
                Ok(req) => self.icon_request_ok(i as int, req),
                Err(e) => self.icon_request_err(i as int, e),
            },
    {
        let icon = &self.info.root.device.icon_list.icon[i];
        let width = match text::parse_u64(icon.width.as_str()) {
            Ok(v) => v,
            Err(k) => {
                return Err(Error::ParseError(k));
            },
        };
        let height = match text::parse_u64(icon.height.as_str()) {
            Ok(v) => v,
            Err(k) => {
                return Err(Error::ParseError(k));
            },
        };
        let depth = match text::parse_u64(icon.depth.as_str()) {
            Ok(v) => v,
            Err(k) => {
                return Err(Error::ParseError(k));
            },
        };
        let url = Device::request_url(self.info.base_url.as_str(), icon.url.as_str());
        Ok(
            IconRequest {
                mimetype: icon.mimetype.clone(),
                width,
                height,
                depth,
                request: rpc::get_request(url.as_str()),
            },
        )
    }
}

/// How long before the end of a subscription it is renewed, in seconds.
pub const RENEW_MARGIN_SECONDS: u64 = 10;

/// How long to wait before renewing a subscription of `seconds` seconds:
/// ten seconds less.
pub fn resubscribe_delay(seconds: u64) -> (delay: u64)
    requires
        seconds >= 10,
    ensures
        delay == seconds - 10,
{
    seconds - RENEW_MARGIN_SECONDS
}

/// How long to wait before the next renewal, after a renewal with outcome
/// `outcome`: ten seconds less than the time the device granted; after a
/// failed renewal, the wait stays `current`.
pub fn next_resubscribe_delay(current: u64, outcome: &Result<SubscribeResponse, Error>) -> (delay: u64)
    requires
        outcome matches Ok(granted) ==> granted.timeout >= 10,
    ensures
        delay == match outcome {
            Ok(granted) => (granted.timeout - 10) as u64,
            Err(_) => current,
        },
{
    match outcome {
        Ok(granted) => resubscribe_delay(granted.timeout as u64),
        Err(_) => current,
    }
}

/// Law: a request URL never doubles the slash between base and path; when
/// both supply one, the base loses all its trailing slashes and the path
/// keeps its leading one.
pub proof fn lemma_request_url_single_slash(base: Seq<char>, path: Seq<char>)
    requires
        base.len() > 0 && base.last() == '/',
        path.len() > 0 && path[0] == '/',
    ensures
        request_url_of(base, path) == trim_trailing_slashes(base) + path,
        trim_trailing_slashes(base).len() == 0 || trim_trailing_slashes(base).last() != '/',
        base == trim_trailing_slashes(base) + base.skip(trim_trailing_slashes(base).len() as int),
        forall|i: int|
            trim_trailing_slashes(base).len() <= i < base.len() ==> #[trigger] base[i] == '/',
{
    lemma_trim_trailing_slashes(base);
}

/// What trimming trailing slashes leaves, and what it removes.
pub proof fn lemma_trim_trailing_slashes(s: Seq<char>)
    ensures
        trim_trailing_slashes(s).len() <= s.len(),
        trim_trailing_slashes(s) == s.take(trim_trailing_slashes(s).len() as int),
        trim_trailing_slashes(s).len() == 0 || trim_trailing_slashes(s).last() != '/',
        forall|i: int| trim_trailing_slashes(s).len() <= i < s.len() ==> #[trigger] s[i] == '/',
        s == trim_trailing_slashes(s) + s.skip(trim_trailing_slashes(s).len() as int),
    decreases s.len(),
{
    if s.len() > 0 && s.last() == '/' {
        lemma_trim_trailing_slashes(s.drop_last());
        let t = trim_trailing_slashes(s.drop_last());
        assert(s.drop_last().take(t.len() as int) =~= s.take(t.len() as int));
        assert forall|i: int| t.len() <= i < s.len() implies #[trigger] s[i] == '/' by {
            if i < s.len() - 1 {
                assert(s.drop_last()[i] == s[i]);
            }
        }
    } else {
        assert(s.take(s.len() as int) =~= s);
    }
    assert(s =~= trim_trailing_slashes(s) + s.skip(trim_trailing_slashes(s).len() as int));
}

/// Law: what a subscription sets is what unsubscribing sends and returns:
/// after a device records the subscription ID `sid`, the unsubscribe
/// request carries `sid` (when the device has an event path and `sid` can
/// be sent), and once unsubscribed, a second unsubscribe is
/// `NotSubscribed`.
pub proof fn lemma_subscribe_then_unsubscribe(d: Device, sid: String)
    ensures
        d.with_sid(Some(sid)).spec_sid() == Some(sid@),
        d.with_sid(Some(sid)).unsubscribe_request() == match d.url_for(d.spec_event_path()) {
            None => Err::<rpc::RequestView, Error>(Error::UnsupportedDevice),
            Some(u) => if rpc::header_value_ok(sid@) {
                Ok(rpc::unsubscribe_request_of(u, sid@))
            } else {
                Err(Error::HttpHeaderError)
            },
        },
        d.with_sid(Some(sid)).with_sid(None).unsubscribe_request() == Err::<
            rpc::RequestView,
            Error,
        >(Error::NotSubscribed),
        d.with_sid(Some(sid)).with_sid(None).spec_info() == d.spec_info(),
{
}

/// Law: a state that was set, or read from an answer, is the device's
/// state until the next change; setting it changes nothing else of the
/// device's description or subscription.
pub proof fn lemma_state_write_read(d: Device, s: State)
    ensures
        d.with_state(s).spec_info().state == s,
        d.with_state(s).spec_info().root == d.spec_info().root,
        d.with_state(s).spec_info().unique_id == d.spec_info().unique_id,
        d.with_state(s).spec_sid() == d.spec_sid(),
        d.with_state(s).fetch_state_request() == d.fetch_state_request(),
        d.with_state(s).url_for(d.with_state(s).spec_control_path()) == d.url_for(
            d.spec_control_path(),
        ),
{
}

/// Law: the envelope sent to set a state, read back as a device's answer,
/// reports that very state.
pub proof fn lemma_set_body_reads_back(s: State)
    requires
        s != State::Unknown,
    ensures
        xml::binary_state_of(
            if s == State::On {
                xml::SETBINARYSTATEON@
            } else {
                xml::SETBINARYSTATEOFF@
            },
        ) matches Some(u) && state_of(u) == s,
{
    xml::lemma_on_request_reports_on();
    xml::lemma_off_request_reports_off();
}


/// Law: a request that sets a state other than `Unknown` is a GET to the
/// control URL (the base URL joined with the control path) whose SOAPACTION
/// header is `SetBinaryState`, whether the state is on or off; only the
/// envelope tells the two apart. Without a control path there is no
/// request; `Unknown` cannot be set. None of this depends on the state on
/// record or on the subscription.
pub proof fn lemma_set_state_request(d: Device, s: State, st: State, sid: Option<String>)
    requires
        s != State::Unknown,
    ensures
        match d.binary_control_path {
            Some(p) => d.set_state_request(s) matches Ok(req) && {
                &&& req.method == "GET"@
                &&& req.url == request_url_of(d.info.base_url@, p@)
                &&& req.headers.len() > 0
                &&& req.headers[0] == ("SOAPACTION"@, rpc::SET_BINARY_STATE_ACTION@)
                &&& req.body == if s == State::On {
                    xml::SETBINARYSTATEON@
                } else {
                    xml::SETBINARYSTATEOFF@
                }
            },
            None => d.set_state_request(s) == Err::<rpc::RequestView, Error>(
                Error::UnsupportedDevice,
            ),
        },
        d.set_state_request(State::Unknown) == Err::<rpc::RequestView, Error>(Error::InvalidState),
        d.set_state_request(State::On) matches Ok(on) ==> d.set_state_request(State::Off) matches Ok(
            off,
        ) && on.url == off.url && on.headers[0] == off.headers[0],
        d.with_state(st).set_state_request(s) == d.set_state_request(s),
        d.with_sid(sid).set_state_request(s) == d.set_state_request(s),
{
}

/// Law: the state query is a GET to the control URL (the base URL joined
/// with the control path) with the SOAPACTION `GetBinaryState` and the
/// `GetBinaryState` envelope, the same URL a state is set at; neither the
/// subscription nor the state on record changes it. Without a control
/// path there is none.
pub proof fn lemma_fetch_state_request(d: Device, st: State, sid: Option<String>)
    ensures
        match d.binary_control_path {
            Some(p) => d.fetch_state_request() matches Ok(req) && {
                &&& req.method == "GET"@
                &&& req.url == request_url_of(d.info.base_url@, p@)
                &&& req.headers.len() > 0
                &&& req.headers[0] == ("SOAPACTION"@, rpc::GET_BINARY_STATE_ACTION@)
                &&& req.body == xml::GETBINARYSTATE@
                &&& d.set_state_request(State::On) matches Ok(set) && set.url == req.url
            },
            None => d.fetch_state_request() == Err::<rpc::RequestView, Error>(
                Error::UnsupportedDevice,
            ),
        },
        d.with_sid(sid).fetch_state_request() == d.fetch_state_request(),
        d.with_state(st).fetch_state_request() == d.fetch_state_request(),
{
}

/// Law: a subscription goes to the event URL (the base URL joined with the
/// event path), naming `<http://LOCAL_IP:PORT/>` as callback, whether or
/// not the device already holds a subscription, which a new one replaces;
/// without an event path the device cannot be subscribed to.
pub proof fn lemma_subscription_target(d: Device, port: u16, sid: Option<String>, st: State)
    ensures
        match d.event_path {
            Some(p) => d.subscription_target_of(port) == Ok::<(Seq<char>, Seq<char>), Error>(
                (
                    request_url_of(d.info.base_url@, p@),
                    "<http://"@ + d.local_ip@ + seq![':'] + text::decimal(port as nat) + "/>"@,
                ),
            ),
            None => d.subscription_target_of(port) == Err::<(Seq<char>, Seq<char>), Error>(
                Error::UnsupportedDevice,
            ),
        },
        d.with_sid(sid).subscription_target_of(port) == d.subscription_target_of(port),
        d.with_state(st).subscription_target_of(port) == d.subscription_target_of(port),
{
}

} // verus!
