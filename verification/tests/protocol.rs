use weectrl::cache::DeviceAddress;
use weectrl::device::{next_resubscribe_delay, resubscribe_delay, Device};
use weectrl::discovery::{cache_needs_rewrite, location_in_line, parse_ssdp_response, ssdp_search_message};
use weectrl::resubscribe::{DaemonAction, DaemonEvent, Resubscriber};
use weectrl::error::Error;
use weectrl::location::ParsedUrl;
use weectrl::registry::{check_subscription_duration, get_sid_and_state, DeviceRegistry};
use weectrl::rpc::{
    expect_ok, get_request, handle_subscription_response, rpc_response, soap_request,
    subscribe_request, unsubscribe_request, RpcResponse, SubscribeResponse,
    GET_BINARY_STATE_ACTION, SET_BINARY_STATE_ACTION,
};
use weectrl::text::{
    decimal_string, parse_u64, str_contains, str_equal, to_chars, trim_chars,
    IntErrorKind,
};
use weectrl::xml::{
    self, get_binary_state, Icon as XmlIcon, IconList, Root, Service, ServiceList, SpecVersion,
    GETBINARYSTATE, SETBINARYSTATEOFF, SETBINARYSTATEON,
};
use weectrl::{DeviceInfo, DiscoveryMode, Model, State};

fn s(x: &str) -> String {
    x.to_string()
}

fn service(kind: &str, control: &str, event: &str) -> Service {
    Service {
        service_type: s(kind),
        service_id: s("urn:Belkin:serviceId:basicevent1"),
        control_url: s(control),
        event_sub_url: s(event),
        scp_url: s("/eventservice.xml"),
    }
}

fn root(mac: &str, services: Vec<Service>, icons: Vec<XmlIcon>) -> Root {
    Root {
        spec_version: SpecVersion { major: s("1"), minor: s("0") },
        device: xml::Device {
            device_type: s("urn:Belkin:device:lightswitch:1"),
            friendly_name: s("Kitchen light"),
            manufacturer: s("Belkin International Inc."),
            manufacturer_url: s("http://www.belkin.com"),
            model_description: s("Belkin Plugin Socket 1.0"),
            model_name: s("LightSwitch"),
            model_number: s("1.0"),
            model_url: s("http://www.belkin.com/plugin/"),
            serial_number: s("221435K13005D9"),
            udn: s("uuid:Lightswitch-1_0-221435K13005D9"),
            upc: s("123456789"),
            mac_address: s(mac),
            firmware_version: s("WeMo_WW_2.00.10937.PVT-OWRT-LS"),
            icon_version: s("0|49153"),
            binary_state: s("0"),
            icon_list: IconList { icon: icons },
            service_list: ServiceList { service: services },
            presentation_url: s("/pluginpres.html"),
        },
    }
}

fn info(mac: &str, base_url: &str, services: Vec<Service>) -> DeviceInfo {
    let r = root(mac, services, Vec::new());
    DeviceInfo {
        friendly_name: r.device.friendly_name.clone(),
        model: Model::from(r.device.model_name.as_str()),
        unique_id: s(mac),
        hostname: s("192.168.0.10"),
        base_url: s(base_url),
        location: s("http://192.168.0.10:49153/setup.xml"),
        state: State::Unknown,
        root: r,
        xml: s("<root/>"),
    }
}

fn basic_services() -> Vec<Service> {
    vec![
        service("urn:Belkin:service:WiFiSetup:1", "/upnp/control/WiFiSetup1", "/upnp/event/WiFiSetup1"),
        service("urn:Belkin:service:basicevent:1", "/upnp/control/basicevent1", "/upnp/event/basicevent1"),
        service("urn:Belkin:service:basicevent:1", "/other/control", "/other/event"),
    ]
}

fn ready_device(mac: &str) -> Device {
    let mut d = Device::new(info(mac, "http://192.168.0.10:49153/", basic_services()), s("192.168.0.2"));
    assert!(d.validate_device());
    d
}

fn subscribed(d: &mut Device, sid: &str) {
    let resp = RpcResponse { status: 200, sid: Some(s(sid)), timeout: Some(s("Second-300")) };
    d.finish_subscribe(Ok(resp)).unwrap();
}

// ----- text -----

#[test]
fn parse_u64_agrees_with_std() {
    for t in ["0", "42", "+7", "", "+", "-", "-1", "12a", "18446744073709551615", "18446744073709551616", "99999999999999999999x", "a9999999999999999999999", " 1"] {
        let mine = parse_u64(t);
        let std = t.parse::<u64>();
        match (mine, std) {
            (Ok(a), Ok(b)) => assert_eq!(a, b),
            (Err(k), Err(e)) => {
                let want = match e.kind() {
                    std::num::IntErrorKind::Empty => IntErrorKind::Empty,
                    std::num::IntErrorKind::InvalidDigit => IntErrorKind::InvalidDigit,
                    std::num::IntErrorKind::PosOverflow => IntErrorKind::PosOverflow,
                    other => panic!("unexpected kind {:?}", other),
                };
                assert_eq!(k, want, "input {:?}", t);
            }
            (m, st) => panic!("input {:?}: {:?} vs {:?}", t, m, st),
        }
    }
}

#[test]
fn decimal_roundtrip() {
    for n in [0u64, 9, 10, 99, 100, 1234567890, u64::MAX] {
        let t = decimal_string(n);
        assert_eq!(t, n.to_string());
        assert_eq!(parse_u64(&t), Ok(n));
    }
}

#[test]
fn trim_and_search() {
    let v = trim_chars(&to_chars("\u{3000} \t http://x/ \r\n"));
    assert_eq!(v.iter().collect::<String>(), "http://x/");
    assert_eq!(trim_chars(&to_chars("   ")).len(), 0);
    assert!(str_contains("abcabd", "abd"));
    assert!(!str_contains("ab", "abc"));
    assert!(str_contains("anything", ""));
    assert!(str_equal("Socket", "Socket"));
    assert!(!str_equal("Socket", "socket"));
}

// ----- xml -----

#[test]
fn binary_state_of_messages() {
    assert_eq!(get_binary_state(SETBINARYSTATEON), Some(1));
    assert_eq!(get_binary_state(SETBINARYSTATEOFF), Some(0));
    assert_eq!(get_binary_state(GETBINARYSTATE), Some(1));
    assert_eq!(get_binary_state("<BinaryState>8</BinaryState>"), None);
    assert_eq!(get_binary_state("<BinaryState>0</BinaryState><BinaryState>1</BinaryState>"), Some(1));
    assert_eq!(get_binary_state(""), None);
}

// ----- weectrl types -----

#[test]
fn state_from_number() {
    assert_eq!(State::from(0u8), State::Off);
    assert_eq!(State::from(1u8), State::On);
    assert_eq!(State::from(2u8), State::Unknown);
    assert_eq!(State::from(255u8), State::Unknown);
}

#[test]
fn state_display() {
    assert_eq!(State::On.to_display_string(), SETBINARYSTATEON);
    assert_eq!(State::Off.to_display_string(), SETBINARYSTATEOFF);
    assert_eq!(State::Unknown.to_display_string(), "UNKNOWN STATE");
}

#[test]
fn model_from_name() {
    assert_eq!(Model::from("LightSwitch"), Model::Lightswitch);
    assert_eq!(Model::from("Socket"), Model::Socket);
    assert_eq!(Model::from("Insight"), Model::Unknown(s("Insight")));
    assert_eq!(Model::from("lightswitch"), Model::Unknown(s("lightswitch")));
    assert_eq!(Model::Lightswitch.to_display_string(), "Light Switch");
    assert_eq!(Model::Socket.to_display_string(), "Socket");
    assert_eq!(Model::Unknown(s("Insight")).to_display_string(), "Insight");
}

#[test]
fn discovery_modes() {
    assert!(DiscoveryMode::CacheOnly.reads_cache());
    assert!(!DiscoveryMode::CacheOnly.broadcasts());
    assert!(DiscoveryMode::CacheAndBroadcast.reads_cache());
    assert!(DiscoveryMode::CacheAndBroadcast.broadcasts());
    assert!(!DiscoveryMode::BroadcastOnly.reads_cache());
    assert!(DiscoveryMode::BroadcastOnly.broadcasts());
}

// ----- location -----

#[test]
fn location_parts() {
    let u = ParsedUrl::parse("http://192.168.0.10:49153/setup.xml").unwrap();
    assert_eq!(u.as_text(), "http://192.168.0.10:49153/setup.xml");
    assert_eq!(u.host_name(), "192.168.0.10");
    assert_eq!(u.base_url(), "http://192.168.0.10:49153/");
    assert_eq!(u.connect_target().unwrap(), "192.168.0.10:49153");
    let v = ParsedUrl::parse("http://wemo.local/setup.xml").unwrap();
    assert_eq!(v.connect_target().unwrap(), "wemo.local");
    assert_eq!(v.base_url(), "http://wemo.local/");
}

#[test]
fn location_errors() {
    match ParsedUrl::parse("setup.xml") {
        Err(Error::UrlError(m)) => assert_eq!(m, url::ParseError::RelativeUrlWithoutBase.to_string()),
        other => panic!("{:?}", other.map(|u| u.as_text())),
    }
    let u = ParsedUrl::parse("unix:/run/foo.socket").unwrap();
    assert_eq!(u.connect_target(), Err(Error::NoResponse));
    assert_eq!(u.host_name(), "");
}

#[test]
fn describe_device() {
    let u = ParsedUrl::parse("http://192.168.0.10:49153/setup.xml").unwrap();
    let r = root("94103E4830D0", basic_services(), Vec::new());
    let i = DeviceInfo::describe(&u, s("<xml/>"), r);
    assert_eq!(i.friendly_name, "Kitchen light");
    assert_eq!(i.model, Model::Lightswitch);
    assert_eq!(i.unique_id, "94103E4830D0");
    assert_eq!(i.hostname, "192.168.0.10");
    assert_eq!(i.base_url, "http://192.168.0.10:49153/");
    assert_eq!(i.location, "http://192.168.0.10:49153/setup.xml");
    assert_eq!(i.state, State::Unknown);
    assert_eq!(i.xml, "<xml/>");
}

// ----- rpc -----

#[test]
fn requests() {
    let r = unsubscribe_request("http://h/e", "uuid:1").unwrap();
    assert_eq!(r.method, "UNSUBSCRIBE");
    assert_eq!(r.url, "http://h/e");
    assert_eq!(r.headers.len(), 1);
    assert_eq!((r.headers[0].name.as_str(), r.headers[0].value.as_str()), ("SID", "uuid:1"));
    assert_eq!(r.body, "");
    assert_eq!(unsubscribe_request("http://h/e", "bad\nsid").unwrap_err(), Error::HttpHeaderError);

    let r = subscribe_request("http://h/e", 120, "<http://1.2.3.4:8000/>").unwrap();
    assert_eq!(r.method, "SUBSCRIBE");
    let hs: Vec<(String, String)> = r.headers.iter().map(|h| (h.name.clone(), h.value.clone())).collect();
    assert_eq!(hs, vec![
        (s("CALLBACK"), s("<http://1.2.3.4:8000/>")),
        (s("NT"), s("upnp:event")),
        (s("TIMEOUT"), s("Second-120")),
    ]);
    assert_eq!(subscribe_request("http://h/e", 120, "a\u{7f}").unwrap_err(), Error::HttpHeaderError);
    assert!(subscribe_request("http://h/e", 120, "tab\there é").is_ok());

    let r = soap_request("http://h/c", GET_BINARY_STATE_ACTION, "é").unwrap();
    assert_eq!(r.method, "GET");
    assert_eq!(r.body, "é");
    let hs: Vec<(String, String)> = r.headers.iter().map(|h| (h.name.clone(), h.value.clone())).collect();
    assert_eq!(hs, vec![
        (s("SOAPACTION"), s(GET_BINARY_STATE_ACTION)),
        (s("content-length"), s("2")),
        (s("content-type"), s("text/xml; charset=utf-8")),
        (s("connection"), s("close")),
    ]);
    assert_eq!(soap_request("u", "\u{0}", "x").unwrap_err(), Error::HttpHeaderError);

    let g = get_request("http://h/icon.jpg");
    assert_eq!((g.method.as_str(), g.url.as_str(), g.headers.len(), g.body.as_str()), ("GET", "http://h/icon.jpg", 0, ""));
}

#[test]
fn status_check() {
    assert_eq!(expect_ok(200), Ok(()));
    assert_eq!(expect_ok(404), Err(Error::InvalidResponse(404)));
}

#[test]
fn rpc_response_checks() {
    assert_eq!(rpc_response(500, None, None).unwrap_err(), Error::InvalidResponse(500));
    assert_eq!(rpc_response(200, Some(Err(())), None).unwrap_err(), Error::InvalidState);
    assert_eq!(rpc_response(200, None, Some(Err(()))).unwrap_err(), Error::InvalidState);
    let r = rpc_response(200, Some(Ok(s("uuid:7"))), None).unwrap();
    assert_eq!((r.status, r.sid.as_deref(), r.timeout.as_deref()), (200, Some("uuid:7"), None));
}

#[test]
fn subscription_responses() {
    let ok = |t: &str| handle_subscription_response(RpcResponse { status: 200, sid: Some(s("uuid:1")), timeout: Some(s(t)) });
    let r = ok("Second-300").unwrap();
    assert_eq!((r.sid.as_str(), r.timeout), ("uuid:1", 300));
    assert_eq!(ok("Second-4294967296").unwrap().timeout, 0);
    assert_eq!(ok("Second-abc").unwrap().timeout, 0);
    assert_eq!(ok("infinite").unwrap().timeout, 0);
    assert_eq!(ok("Second-+5").unwrap().timeout, 5);
    assert_eq!(
        handle_subscription_response(RpcResponse { status: 412, sid: None, timeout: None }).unwrap_err(),
        Error::InvalidResponse(412)
    );
    assert_eq!(
        handle_subscription_response(RpcResponse { status: 200, sid: None, timeout: Some(s("Second-1")) }).unwrap_err(),
        Error::DeviceError
    );
    assert_eq!(
        handle_subscription_response(RpcResponse { status: 200, sid: Some(s("x")), timeout: None }).unwrap_err(),
        Error::DeviceError
    );
}

#[test]
fn timeout_header_roundtrip() {
    for secs in [15u64, 120, 600, 4294967295] {
        let req = subscribe_request("u", secs, "c").unwrap();
        let echoed = req.headers[2].value.clone();
        let r = handle_subscription_response(RpcResponse { status: 200, sid: Some(s("x")), timeout: Some(echoed) }).unwrap();
        assert_eq!(r.timeout as u64, secs);
    }
}

// ----- device -----

#[test]
fn request_urls() {
    assert_eq!(Device::request_url("http://192.168.0.10/", "upnp/event/basicevent1"), "http://192.168.0.10/upnp/event/basicevent1");
    assert_eq!(Device::request_url("http://192.168.0.10/", "/upnp/event/basicevent1"), "http://192.168.0.10/upnp/event/basicevent1");
    assert_eq!(Device::request_url("http://h///", "/x"), "http://h/x");
    assert_eq!(Device::request_url("http://h", "/x"), "http://h/x");
    assert_eq!(Device::request_url("http://h/", "x/"), "http://h/x/");
    assert_eq!(Device::make_request_url("http://h/", &None), Err(Error::UnsupportedDevice));
    assert_eq!(Device::make_request_url("http://h/", &Some(s("/a"))), Ok(s("http://h/a")));
}

#[test]
fn validate_takes_first_basic_event_service() {
    let mut d = Device::new(info("M1", "http://h/", basic_services()), s("10.0.0.2"));
    assert!(d.validate_device());
    let (url, callback) = d.subscription_target(8123).unwrap();
    assert_eq!(url, "http://h/upnp/event/basicevent1");
    assert_eq!(callback, "<http://10.0.0.2:8123/>");
    let req = d.begin_set_binary_state(State::On).unwrap();
    assert_eq!(req.url, "http://h/upnp/control/basicevent1");
    assert_eq!(req.body, SETBINARYSTATEON);
    assert_eq!(req.headers[0].value, SET_BINARY_STATE_ACTION);
}

#[test]
fn unsupported_device() {
    let mut d = Device::new(info("M1", "http://h/", vec![service("urn:Belkin:service:rules:1", "/c", "/e")]), s("10.0.0.2"));
    assert!(!d.validate_device());
    assert_eq!(d.subscription_target(8000).unwrap_err(), Error::UnsupportedDevice);
    assert_eq!(d.begin_set_binary_state(State::Off).unwrap_err(), Error::UnsupportedDevice);
    assert_eq!(d.begin_fetch_binary_state().unwrap_err(), Error::UnsupportedDevice);
    assert_eq!(d.info().state, State::Unknown);
}

#[test]
fn set_state_then_read_back() {
    let mut d = ready_device("M1");
    assert_eq!(d.begin_set_binary_state(State::Unknown).unwrap_err(), Error::InvalidState);
    for st in [State::On, State::Off] {
        let req = d.begin_set_binary_state(st).unwrap();
        assert_eq!(d.finish_set_binary_state(st, Ok(req.body.clone())), Ok(st));
        assert_eq!(d.info().state, st);
        // The envelope that set the state reports that state when read back.
        assert_eq!(d.finish_fetch_binary_state(Ok(req.body)), Ok(st));
        assert_eq!(d.info().state, st);
    }
    assert_eq!(d.finish_set_binary_state(State::On, Err(Error::NetworkError(s("down")))), Err(Error::NetworkError(s("down"))));
    assert_eq!(d.info().state, State::Off);
}

#[test]
fn switching_to_the_same_state_is_an_error() {
    let mut d = ready_device("M1");
    d.finish_set_binary_state(State::Off, Ok(s(""))).unwrap();
    // The recorded state may be out of date, so the request is made anyway.
    assert!(d.begin_set_binary_state(State::Off).is_ok());
    assert!(d.begin_set_binary_state(State::On).is_ok());
    // The device itself refuses a switch to the state it has with `Error`.
    let refused = "<s:Envelope><s:Body><u:SetBinaryStateResponse><BinaryState>Error</BinaryState></u:SetBinaryStateResponse></s:Body></s:Envelope>";
    assert_eq!(d.finish_set_binary_state(State::On, Ok(s(refused))), Err(Error::DeviceError));
    assert_eq!(d.info().state, State::Off);
    assert_eq!(d.finish_set_binary_state(State::On, Ok(s("<BinaryState>1</BinaryState>"))), Ok(State::On));
    assert_eq!(d.info().state, State::On);
}

#[test]
fn retrieve_steps() {
    let u = ParsedUrl::parse("http://192.168.0.10:49153/setup.xml").unwrap();
    let (d, req) = Device::prepare_retrieved(&u, s("<xml/>"), root("AA", basic_services(), Vec::new()), s("192.168.0.2")).unwrap();
    assert_eq!(req.url, "http://192.168.0.10:49153/upnp/control/basicevent1");
    assert_eq!(req.body, GETBINARYSTATE);
    assert_eq!(d.info().base_url, "http://192.168.0.10:49153/");
    assert_eq!(d.info().state, State::Unknown);
    let d2 = Device::complete_retrieved(d.clone(), Ok(s("<BinaryState>1</BinaryState>"))).unwrap();
    assert_eq!(d2.info().state, State::On);
    assert_eq!(d2.info().location, "http://192.168.0.10:49153/setup.xml");
    assert_eq!(Device::complete_retrieved(d.clone(), Ok(s("nothing"))).unwrap_err(), Error::UnsupportedDevice);
    assert_eq!(Device::complete_retrieved(d, Err(Error::InvalidResponse(500))).unwrap_err(), Error::UnsupportedDevice);
    let none = vec![service("urn:Belkin:service:rules:1", "/c", "/e")];
    assert_eq!(Device::prepare_retrieved(&u, s("<xml/>"), root("AA", none, Vec::new()), s("192.168.0.2")).unwrap_err(), Error::UnsupportedDevice);
}

#[test]
fn icon_list_in_order() {
    let icons = vec![
        XmlIcon { mimetype: s("jpg"), width: s("100"), height: s("100"), depth: s("24"), url: s("a.jpg") },
        XmlIcon { mimetype: s("png"), width: s("50"), height: s("40"), depth: s("8"), url: s("/b.png") },
    ];
    let mut i = info("M1", "http://h/", basic_services());
    i.root.device.icon_list.icon = icons;
    let d = Device::new(i, s("10.0.0.2"));
    let mut fetched = Vec::new();
    let mut urls = Vec::new();
    while let Some(req) = d.next_icon_request(&fetched) {
        let req = req.unwrap();
        urls.push(req.request.url.clone());
        let n = fetched.len() as u8;
        d.push_icon(&mut fetched, Ok(vec![n])).unwrap();
    }
    assert_eq!(urls, vec![s("http://h/a.jpg"), s("http://h/b.png")]);
    assert_eq!(fetched.len(), 2);
    assert_eq!((fetched[1].mimetype.as_str(), fetched[1].width, fetched[1].height, fetched[1].depth), ("png", 50, 40, 8));
    assert_eq!(fetched[0].data, vec![0]);
    let mut partial = Vec::new();
    assert_eq!(d.push_icon(&mut partial, Err(Error::InvalidResponse(404))), Err(Error::InvalidResponse(404)));
    assert_eq!(partial.len(), 0);
}

#[test]
fn cache_rewrite_decision() {
    // A broadcast alone always leaves the cache holding what was found,
    // even when nothing answered.
    assert!(cache_needs_rewrite(DiscoveryMode::BroadcastOnly, &[]));
    assert!(cache_needs_rewrite(DiscoveryMode::BroadcastOnly, &[false]));
    assert!(!cache_needs_rewrite(DiscoveryMode::CacheAndBroadcast, &[]));
    assert!(!cache_needs_rewrite(DiscoveryMode::CacheAndBroadcast, &[false, false]));
    assert!(cache_needs_rewrite(DiscoveryMode::CacheAndBroadcast, &[false, true]));
    assert!(!cache_needs_rewrite(DiscoveryMode::CacheOnly, &[true]));
}

#[test]
fn location_in_one_line() {
    assert_eq!(location_in_line("location: http://192.168.1.5:49153/setup.xml "), Some(s("http://192.168.1.5:49153/setup.xml")));
    assert_eq!(location_in_line("location:   http://h/x\t"), Some(s("http://h/x")));
    assert_eq!(location_in_line("server: http://h/"), None);
    assert_eq!(location_in_line("location: ftp://h/"), None);
    assert_eq!(location_in_line(""), None);
}

#[test]
fn resubscription_daemon_steps() {
    let (mut d, first) = Resubscriber::new(s("uuid:1"), 300);
    assert_eq!(first, DaemonAction::Sleep(290));
    assert_eq!(d.next(DaemonEvent::Woke { stop: false }), DaemonAction::Renew);
    // A failed renewal keeps the ID and the sleep, and is tried again.
    assert_eq!(d.next(DaemonEvent::Renewed(Err(Error::NetworkError(s("down"))))), DaemonAction::Sleep(290));
    assert_eq!(d.sid, "uuid:1");
    assert_eq!(d.next(DaemonEvent::Woke { stop: false }), DaemonAction::Renew);
    // A renewal obeys the time the device granted.
    let granted = Ok(SubscribeResponse { sid: s("uuid:2"), timeout: 120 });
    assert_eq!(d.next(DaemonEvent::Renewed(granted)), DaemonAction::Sleep(110));
    assert_eq!(d.sid, "uuid:2");
    assert_eq!(d.delay, 110);
    // Once told to stop, nothing is renewed any more.
    assert_eq!(d.next(DaemonEvent::Woke { stop: true }), DaemonAction::Stop);
    assert!(d.stopped);
    assert_eq!(d.next(DaemonEvent::Woke { stop: false }), DaemonAction::Stop);
    let late = Ok(SubscribeResponse { sid: s("uuid:3"), timeout: 60 });
    assert_eq!(d.next(DaemonEvent::Renewed(late)), DaemonAction::Stop);
    assert_eq!(d.sid, "uuid:2");
}

#[test]
fn fetch_state() {
    let mut d = ready_device("M1");
    d.finish_set_binary_state(State::On, Ok(s(""))).unwrap();
    let req = d.begin_fetch_binary_state().unwrap();
    assert_eq!(d.info().state, State::Unknown);
    assert_eq!(req.body, GETBINARYSTATE);
    assert_eq!(req.headers[0].value, GET_BINARY_STATE_ACTION);
    assert_eq!(d.finish_fetch_binary_state(Ok(s("<BinaryState>9</BinaryState>"))), Err(Error::InvalidState));
    assert_eq!(d.info().state, State::Unknown);
    assert_eq!(d.finish_fetch_binary_state(Err(Error::InvalidResponse(500))), Err(Error::InvalidResponse(500)));
    assert_eq!(d.finish_fetch_binary_state(Ok(s("<BinaryState>0</BinaryState>"))), Ok(State::Off));
}

#[test]
fn subscribe_then_unsubscribe() {
    let mut d = ready_device("M1");
    assert_eq!(d.sid(), None);
    assert_eq!(d.begin_unsubscribe().unwrap_err(), Error::NotSubscribed);
    let failed = d.finish_subscribe(Ok(RpcResponse { status: 200, sid: None, timeout: Some(s("Second-1")) }));
    assert_eq!(failed.unwrap_err(), Error::DeviceError);
    assert_eq!(d.sid(), None);
    let granted = d.finish_subscribe(Ok(RpcResponse { status: 200, sid: Some(s("uuid:abc")), timeout: Some(s("Second-300")) })).unwrap();
    assert_eq!((granted.sid.as_str(), granted.timeout), ("uuid:abc", 300));
    assert_eq!(d.sid(), Some(s("uuid:abc")));
    d.renew_subscription("uuid:abc", s("uuid:def"));
    assert_eq!(d.sid(), Some(s("uuid:def")));
    // A renewal of a subscription that was since replaced changes nothing.
    d.renew_subscription("uuid:abc", s("uuid:stale"));
    assert_eq!(d.sid(), Some(s("uuid:def")));
    let req = d.begin_unsubscribe().unwrap();
    assert_eq!(req.headers[0].value, "uuid:def");
    assert_eq!(req.url, "http://192.168.0.10:49153/upnp/event/basicevent1");
    assert_eq!(d.finish_unsubscribe(Ok(412)), Err(Error::InvalidResponse(412)));
    assert_eq!(d.sid(), Some(s("uuid:def")));
    assert_eq!(d.finish_unsubscribe(Ok(200)), Ok(s("uuid:def")));
    assert_eq!(d.sid(), None);
    assert_eq!(d.finish_unsubscribe(Ok(200)), Err(Error::NotSubscribed));
    d.renew_subscription("uuid:def", s("uuid:ghi"));
    assert_eq!(d.sid(), None);
}

#[test]
fn icons() {
    let icons = vec![
        XmlIcon { mimetype: s("jpg"), width: s("100"), height: s("+90"), depth: s("24"), url: s("icon.jpg") },
        XmlIcon { mimetype: s("png"), width: s("1x"), height: s("z"), depth: s("8"), url: s("/i.png") },
        XmlIcon { mimetype: s("png"), width: s("1"), height: s(""), depth: s("8"), url: s("/i.png") },
    ];
    let mut i = info("M1", "http://h/", basic_services());
    i.root.device.icon_list.icon = icons;
    i.state = State::On;
    let mut d = Device::new(i, s("10.0.0.2"));
    assert_eq!(d.begin_fetch_icons(), 3);
    assert_eq!(d.info().state, State::Unknown);
    let req = d.icon_request(0).unwrap();
    assert_eq!((req.width, req.height, req.depth), (100, 90, 24));
    assert_eq!(req.request.url, "http://h/icon.jpg");
    let icon = req.into_icon(Ok(vec![1, 2, 3])).unwrap();
    assert_eq!((icon.mimetype.as_str(), icon.data), ("jpg", vec![1, 2, 3]));
    assert_eq!(d.icon_request(1).unwrap_err(), Error::ParseError(IntErrorKind::InvalidDigit));
    assert_eq!(d.icon_request(2).unwrap_err(), Error::ParseError(IntErrorKind::Empty));
    let req = d.icon_request(0).unwrap();
    assert_eq!(req.into_icon(Err(Error::InvalidResponse(404))).unwrap_err(), Error::InvalidResponse(404));
}

#[test]
fn resubscription_delays() {
    assert_eq!(resubscribe_delay(120), 110);
    assert_eq!(resubscribe_delay(10), 0);
    let granted: Result<SubscribeResponse, Error> = Ok(SubscribeResponse { sid: s("x"), timeout: 300 });
    assert_eq!(next_resubscribe_delay(110, &granted), 290);
    assert_eq!(next_resubscribe_delay(110, &Err(Error::NetworkError(s("down")))), 110);
}

// ----- registry -----

#[test]
fn register_then_lookup() {
    let mut reg = DeviceRegistry::new();
    assert!(!reg.contains("M1"));
    assert_eq!(reg.lookup("M1").unwrap_err(), Error::UnknownDevice);
    assert_eq!(reg.register(ready_device("M1")), Ok(()));
    assert_eq!(reg.register(ready_device("M2")), Ok(()));
    assert_eq!(reg.register(ready_device("M1")), Err(Error::DeviceAlreadyRegistered));
    assert!(reg.contains("M1") && reg.contains("M2"));
    assert_eq!(reg.get("M2").unwrap().info().unique_id, "M2");
    let mut ids = reg.ids();
    ids.sort();
    assert_eq!(ids, vec![s("M1"), s("M2")]);
    reg.clear();
    assert!(!reg.contains("M1"));
    assert_eq!(reg.ids().len(), 0);
}

#[test]
fn registry_state_write_read() {
    let mut reg = DeviceRegistry::new();
    reg.register(ready_device("M1")).unwrap();
    reg.register(ready_device("M2")).unwrap();
    assert_eq!(reg.finish_set_binary_state("M1", State::On, Ok(s(""))), Ok(State::On));
    assert_eq!(reg.get("M1").unwrap().info().state, State::On);
    assert_eq!(reg.get("M2").unwrap().info().state, State::Unknown);
    assert_eq!(reg.finish_set_binary_state("M9", State::On, Ok(s(""))), Err(Error::UnknownDevice));
    let req = reg.begin_get_binary_state("M1").unwrap();
    assert_eq!(req.body, GETBINARYSTATE);
    assert_eq!(reg.get("M1").unwrap().info().state, State::Unknown);
    assert_eq!(reg.finish_get_binary_state("M1", Ok(s(SETBINARYSTATEOFF))), Ok(State::Off));
    assert_eq!(reg.get("M1").unwrap().info().state, State::Off);
    assert_eq!(reg.begin_get_binary_state("M9").unwrap_err(), Error::UnknownDevice);
    assert_eq!(reg.begin_get_icons("M1"), Ok(0));
    assert_eq!(reg.get("M1").unwrap().info().state, State::Unknown);
}

#[test]
fn registry_subscriptions_and_notifications() {
    let mut reg = DeviceRegistry::new();
    reg.register(ready_device("M1")).unwrap();
    reg.register(ready_device("M2")).unwrap();
    let granted = reg.finish_subscribe("M2", Ok(RpcResponse { status: 200, sid: Some(s("uuid:2")), timeout: Some(s("Second-120")) })).unwrap();
    assert_eq!(granted.timeout, 120);
    let body = "<e:propertyset><BinaryState>1</BinaryState></e:propertyset>";
    let n = reg.notification_for(body, Some(Ok(s("uuid:2")))).unwrap();
    assert_eq!((n.unique_id.as_str(), n.state), ("M2", State::On));
    assert!(reg.notification_for(body, Some(Ok(s("uuid:9")))).is_none());
    assert!(reg.notification_for(body, Some(Err(()))).is_none());
    assert!(reg.notification_for(body, None).is_none());
    assert!(reg.notification_for("<BinaryState>1</BinaryState>", Some(Ok(s("uuid:2")))).is_none());
    reg.renew_subscription("M2", "uuid:2", s("uuid:3"));
    assert!(reg.notification_for(body, Some(Ok(s("uuid:2")))).is_none());
    assert_eq!(reg.finish_unsubscribe("M2", Ok(200)), Ok(s("uuid:3")));
    assert_eq!(reg.finish_unsubscribe("M2", Ok(200)), Err(Error::NotSubscribed));
    assert_eq!(reg.finish_unsubscribe("M9", Ok(200)), Err(Error::UnknownDevice));
    reg.renew_subscription("M2", "uuid:3", s("uuid:4"));
    assert_eq!(reg.get("M2").unwrap().sid(), None);
    assert_eq!(get_sid_and_state("<BinaryState>0</BinaryState>", Some(Ok(s("a")))), Some((s("a"), 0)));
    assert_eq!(get_sid_and_state("nothing", Some(Ok(s("a")))), None);
}

#[test]
fn subscription_duration() {
    assert_eq!(check_subscription_duration(14), Err(Error::TimeoutTooShort));
    assert_eq!(check_subscription_duration(15), Ok(()));
}

#[test]
fn cache_addresses_list_all_devices() {
    let mut reg = DeviceRegistry::new();
    reg.register(ready_device("M1")).unwrap();
    reg.register(ready_device("M2")).unwrap();
    let mut list = reg.cache_addresses();
    list.sort_by(|a, b| a.mac_address.cmp(&b.mac_address));
    assert_eq!(list, vec![
        DeviceAddress { location: s("http://192.168.0.10:49153/setup.xml"), mac_address: s("M1") },
        DeviceAddress { location: s("http://192.168.0.10:49153/setup.xml"), mac_address: s("M2") },
    ]);
}

// ----- discovery -----

#[test]
fn ssdp_answers() {
    let answer = "HTTP/1.1 200 OK\r\nCACHE-CONTROL: max-age=86400\r\nLOCATION: http://192.168.0.10:49153/setup.xml\r\nSERVER: Unspecified, UPnP/1.0, Unspecified\r\n\r\n";
    assert_eq!(parse_ssdp_response(answer), Some(s("http://192.168.0.10:49153/setup.xml")));
    assert_eq!(parse_ssdp_response("Location: none here\nlocation:  HTTP://A/B  \n"), Some(s("http://a/b")));
    assert_eq!(parse_ssdp_response("HTTP/1.1 200 OK\r\nST: upnp:rootdevice\r\n"), None);
    assert_eq!(parse_ssdp_response(""), None);
    assert_eq!(parse_ssdp_response("LOCATION:http://x\r"), Some(s("http://x")));
}

#[test]
fn ssdp_search() {
    assert_eq!(
        ssdp_search_message(5),
        "M-SEARCH * HTTP/1.1\r\nHost: 239.255.255.250:1900\r\nMan: \"ssdp:discover\"\r\nST: upnp:rootdevice\r\nMX: 5\r\nContent-Length: 0\r\n\r\n"
    );
}
