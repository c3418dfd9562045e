//! The public data of the controller: devices as discovery reports them,
//! their binary states and models, icons and state notifications.

use crate::location::{self, ParsedUrl};
use crate::text;
use crate::xml::{self, Root};
use vstd::prelude::*;

verus! {

/// Notification from a device on the network that its binary state changed.
#[derive(Debug, Clone)]
pub struct StateNotification {
    /// Same unique id as known from discovery and used to subscribe.
    pub unique_id: String,
    /// New binary state of the device.
    pub state: State,
}

/// The methods used for device discovery.
#[derive(Debug, Clone, Copy, PartialEq, Eq, Structural)]
pub enum DiscoveryMode {
    /// Read and verify known devices from the disk cache; no broadcast.
    CacheOnly,
    /// Read and verify known devices from the disk cache, then broadcast a
    /// uPnP query.
    CacheAndBroadcast,
    /// Broadcast a uPnP query only, without loading devices from the disk
    /// cache. When discovery ends, the disk cache is overwritten with the
    /// list of devices then known (after `forget_devices`, those just
    /// found).
    BroadcastOnly,
}

impl DiscoveryMode {
    /// Whether this mode loads devices from the disk cache.
    pub open spec fn spec_reads_cache(self) -> bool {
        self is CacheOnly || self is CacheAndBroadcast
    }

    /// Whether this mode broadcasts a uPnP query.
    pub open spec fn spec_broadcasts(self) -> bool {
        self is BroadcastOnly || self is CacheAndBroadcast
    }

    /// Whether discovery in this mode loads devices from the disk cache.
    pub fn reads_cache(&self) -> (r: bool)
        ensures
            r == self.spec_reads_cache(),
    {
        *self == DiscoveryMode::CacheOnly || *self == DiscoveryMode::CacheAndBroadcast
    }

    /// Whether discovery in this mode broadcasts a uPnP query.
    pub fn broadcasts(&self) -> (r: bool)
        ensures
            r == self.spec_broadcasts(),
    {
        *self == DiscoveryMode::BroadcastOnly || *self == DiscoveryMode::CacheAndBroadcast
    }
}

/// The abstract value of a device model.
pub enum ModelView {
    Lightswitch,
    Socket,
    Unknown(Seq<char>),
}

/// Type of device.
#[derive(Debug, Clone, PartialEq, Eq)]
pub enum Model {
    Lightswitch,
    Socket,
    Unknown(String),
}

impl View for Model {
    type V = ModelView;

    open spec fn view(&self) -> ModelView {
        match self {
            Model::Lightswitch => ModelView::Lightswitch,
            Model::Socket => ModelView::Socket,
            Model::Unknown(s) => ModelView::Unknown(s@),
        }
    }
}

/// The model that a description's model name stands for.
pub open spec fn model_of(name: Seq<char>) -> ModelView {
    if name == "LightSwitch"@ {
        ModelView::Lightswitch
    } else if name == "Socket"@ {
        ModelView::Socket
    } else {
        ModelView::Unknown(name)
    }
}

/// How a model is shown to people.
pub open spec fn model_text(m: ModelView) -> Seq<char> {
    match m {
        ModelView::Lightswitch => "Light Switch"@,
        ModelView::Socket => "Socket"@,
        ModelView::Unknown(s) => s,
    }
}

impl Model {
    /// The model that a description's model name stands for.
    pub fn from(name: &str) -> (m: Model)
        ensures
            m@ == model_of(name@),
    {
        if text::str_equal(name, "LightSwitch") {
            Model::Lightswitch
        } else if text::str_equal(name, "Socket") {
            Model::Socket
        } else {
            Model::Unknown(name.to_owned())
        }
    }

    /// How the model is shown to people.
    pub fn to_display_string(&self) -> (s: String)
        ensures
            s@ == model_text(self@),
    {
        match self {
            Model::Lightswitch => "Light Switch".to_owned(),
            Model::Socket => "Socket".to_owned(),
            Model::Unknown(name) => name.clone(),
        }
    }
}

/// Whether a device's binary state is on or off.
#[derive(Debug, Clone, Copy, PartialEq, Eq, Structural)]
pub enum State {
    /// Device is switched on.
    On,
    /// Device is switched off.
    Off,
    /// Device is not responding to queries or commands.
    Unknown,
}

/// The state that a binary state number stands for.
pub open spec fn state_of(u: u8) -> State {
    if u == 0 {
        State::Off
    } else if u == 1 {
        State::On
    } else {
        State::Unknown
    }
}

impl From<u8> for State {
    fn from(u: u8) -> (r: Self) {
        match u {
            0 => State::Off,
            1 => State::On,
            _ => State::Unknown,
        }
    }
}

impl vstd::std_specs::convert::FromSpecImpl<u8> for State {
    open spec fn obeys_from_spec() -> bool {
        true
    }

    open spec fn from_spec(u: u8) -> State {
        state_of(u)
    }
}

/// How a state is shown: the SOAP request that sets it, or a placeholder.
pub open spec fn state_text(s: State) -> Seq<char> {
    match s {
        State::On => xml::SETBINARYSTATEON@,
        State::Off => xml::SETBINARYSTATEOFF@,
        State::Unknown => "UNKNOWN STATE"@,
    }
}

impl State {
    /// How the state is shown: the SOAP request that sets it, or a
    /// placeholder for `Unknown`.
    pub fn to_display_string(&self) -> (s: String)
        ensures
            s@ == state_text(*self),
    {
        match self {
            State::On => xml::SETBINARYSTATEON.to_owned(),
            State::Off => xml::SETBINARYSTATEOFF.to_owned(),
            State::Unknown => "UNKNOWN STATE".to_owned(),
        }
    }
}

/// An icon of a device.
#[derive(Debug, Clone)]
pub struct Icon {
    pub mimetype: String,
    pub width: u64,
    pub height: u64,
    pub depth: u64,
    pub data: Vec<u8>,
}

/// What discovery reports of each device found.
#[derive(Debug, Clone)]
pub struct DeviceInfo {
    /// Human readable name returned from the device homepage.
    pub friendly_name: String,
    /// Basic model name, e.g. LightSwitch, Socket.
    pub model: Model,
    /// Unique identifier for this device, used for issuing commands to the
    /// controller.
    pub unique_id: String,
    /// Network hostname, usually the IP address.
    pub hostname: String,
    /// HTTP address including port number.
    pub base_url: String,
    /// Device "home" URL.
    pub location: String,
    /// Current switch binary state.
    pub state: State,
    /// Device information, from the XML homepage.
    pub root: Root,
    /// Device information, the XML homepage itself.
    pub xml: String,
}

/// `info` is what discovery reports of the device at the location `url`,
/// which described itself with `xml`, read as `root`, apart from its state.
pub open spec fn describes(info: DeviceInfo, url: Seq<char>, xml: String, root: Root) -> bool {
    &&& info.friendly_name == root.device.friendly_name
    &&& info.model@ == model_of(root.device.model_name@)
    &&& info.unique_id == root.device.mac_address
    &&& info.hostname@ == location::host_name_of(url)
    &&& info.base_url@ == location::url_with_path(url, "/"@)
    &&& info.location@ == url
    &&& info.root == root
    &&& info.xml == xml
}

impl DeviceInfo {
    /// What discovery reports of the device at `url`, which described itself
    /// with `xml`, read as `root`; its state is not known yet.
    pub fn describe(url: &ParsedUrl, xml: String, root: Root) -> (info: DeviceInfo)
        ensures
            describes(info, url@, xml, root),
            info.state == State::Unknown,
    {
        let friendly_name = root.device.friendly_name.clone();
        let model = Model::from(root.device.model_name.as_str());
        let unique_id = root.device.mac_address.clone();
        DeviceInfo {
            friendly_name,
            model,
            unique_id,
            hostname: url.host_name(),
            base_url: url.base_url(),
            location: url.as_text(),
            state: State::Unknown,
            root,
            xml,
        }
    }
}

} // verus!
