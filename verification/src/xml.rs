//! The device description that a device serves as XML, and the SOAP
//! messages that read and set its binary state.

use crate::text;
use vstd::prelude::*;

verus! {

/// One service that a device offers.
#[derive(Debug, Clone)]
pub struct Service {
    pub service_type: String,
    pub service_id: String,
    pub control_url: String,
    pub event_sub_url: String,
    pub scp_url: String,
}

/// One icon that a device describes.
#[derive(Debug, Clone)]
pub struct Icon {
    pub mimetype: String,
    pub width: String,
    pub height: String,
    pub depth: String,
    pub url: String,
}

/// The icons of a device.
#[derive(Debug, Clone)]
pub struct IconList {
    pub icon: Vec<Icon>,
}

/// The services of a device.
#[derive(Debug, Clone)]
pub struct ServiceList {
    pub service: Vec<Service>,
}

/// The description of a device.
#[derive(Debug, Clone)]
pub struct Device {
    pub device_type: String,
    pub friendly_name: String,
    pub manufacturer: String,
    pub manufacturer_url: String,
    pub model_description: String,
    pub model_name: String,
    pub model_number: String,
    pub model_url: String,
    pub serial_number: String,
    pub udn: String,
    pub upc: String,
    pub mac_address: String,
    pub firmware_version: String,
    pub icon_version: String,
    pub binary_state: String,
    pub icon_list: IconList,
    pub service_list: ServiceList,
    pub presentation_url: String,
}

/// The UPnP specification version of a description.
#[derive(Debug, Clone)]
pub struct SpecVersion {
    pub major: String,
    pub minor: String,
}

/// The root element of a device description.
#[derive(Debug, Clone)]
pub struct Root {
    pub spec_version: SpecVersion,
    pub device: Device,
}

/// The binary state that a SOAP message reports: 1 when it holds
/// `<BinaryState>1</BinaryState>`, else 0 when it holds
/// `<BinaryState>0</BinaryState>`, else none.
pub open spec fn binary_state_of(data: Seq<char>) -> Option<u8> {
    if text::contains(data, "<BinaryState>1</BinaryState>"@) {
        Some(1u8)
    } else if text::contains(data, "<BinaryState>0</BinaryState>"@) {
        Some(0u8)
    } else {
        None
    }
}

/// The binary state that a SOAP message from a device reports.
pub fn get_binary_state(data: &str) -> (r: Option<u8>)
    ensures
        r == binary_state_of(data@),
{
    if text::str_contains(data, "<BinaryState>1</BinaryState>") {
        Some(1)
    } else if text::str_contains(data, "<BinaryState>0</BinaryState>") {
        Some(0)
    } else {
        None
    }
}

/// Whether a SOAP answer from a device reports `Error` as its binary state,
/// which is how a device refuses to switch to the state it already has.
pub open spec fn reports_error(data: Seq<char>) -> bool {
    text::contains(data, "<BinaryState>Error</BinaryState>"@)
}

/// Whether a SOAP answer from a device reports `Error` as its binary state.
pub fn get_binary_state_error(data: &str) -> (r: bool)
    ensures
        r == reports_error(data@),
{
    text::str_contains(data, "<BinaryState>Error</BinaryState>")
}

/// The body of the request that switches a device off.
pub const SETBINARYSTATEOFF: &'static str = "<?xml version=\"1.0\" encoding=\"utf-8\"?>
<s:Envelope \
     xmlns:s=\"http://schemas.xmlsoap.org/soap/envelope/\" \
     s:encodingStyle=\"http://schemas.xmlsoap.org/soap/encoding/\">
  <s:Body>
    \
     <u:SetBinaryState xmlns:u=\"urn:Belkin:service:basicevent:1\">
      \
     <BinaryState>0</BinaryState>
    </u:SetBinaryState>
  </s:Body>
</s:Envelope>";

/// The body of the request that switches a device on.
pub const SETBINARYSTATEON: &'static str = "<?xml version=\"1.0\" encoding=\"utf-8\"?>
<s:Envelope \
     xmlns:s=\"http://schemas.xmlsoap.org/soap/envelope/\" \
     s:encodingStyle=\"http://schemas.xmlsoap.org/soap/encoding/\">
  <s:Body>
    \
     <u:SetBinaryState xmlns:u=\"urn:Belkin:service:basicevent:1\">
      \
     <BinaryState>1</BinaryState>
    </u:SetBinaryState>
  </s:Body>
</s:Envelope>";

/// The body of the request that asks a device for its binary state.
pub const GETBINARYSTATE: &'static str = "
<?xml version=\"1.0\" encoding=\"utf-8\"?>
<s:Envelope \
     xmlns:s=\"http://schemas.xmlsoap.org/soap/envelope/\" \
     s:encodingStyle=\"http://schemas.xmlsoap.org/soap/encoding/\">
    <s:Body>
     <u:GetBinaryState xmlns:u=\"urn:Belkin:service:basicevent:1\">
     <BinaryState>1</BinaryState>
        </u:GetBinaryState>
    </s:Body>
</s:Envelope>";

/// Law: the request that switches a device on reports, read as a SOAP
/// message, the state on.
pub proof fn lemma_on_request_reports_on()
    ensures
        binary_state_of(SETBINARYSTATEON@) == Some(1u8),
{
    reveal_strlit("<BinaryState>1</BinaryState>");
    reveal_strlit("<?xml version=\"1.0\" encoding=\"utf-8\"?>
<s:Envelope \
     xmlns:s=\"http://schemas.xmlsoap.org/soap/envelope/\" \
     s:encodingStyle=\"http://schemas.xmlsoap.org/soap/encoding/\">
  <s:Body>
    \
     <u:SetBinaryState xmlns:u=\"urn:Belkin:service:basicevent:1\">
      \
     <BinaryState>1</BinaryState>
    </u:SetBinaryState>
  </s:Body>
</s:Envelope>");
    let s = SETBINARYSTATEON@;
    let p = "<BinaryState>1</BinaryState>"@;
    assert(s.subrange(246, 274) =~= p);
    assert(text::occurs_at(s, p, 246));
}

/// Law: the request that switches a device off reports, read as a SOAP
/// message, the state off.
pub proof fn lemma_off_request_reports_off()
    ensures
        binary_state_of(SETBINARYSTATEOFF@) == Some(0u8),
{
    reveal_strlit("<BinaryState>1</BinaryState>");
    reveal_strlit("<BinaryState>0</BinaryState>");
    reveal_strlit("<?xml version=\"1.0\" encoding=\"utf-8\"?>
<s:Envelope \
     xmlns:s=\"http://schemas.xmlsoap.org/soap/envelope/\" \
     s:encodingStyle=\"http://schemas.xmlsoap.org/soap/encoding/\">
  <s:Body>
    \
     <u:SetBinaryState xmlns:u=\"urn:Belkin:service:basicevent:1\">
      \
     <BinaryState>0</BinaryState>
    </u:SetBinaryState>
  </s:Body>
</s:Envelope>");
    let s = SETBINARYSTATEOFF@;
    let p1 = "<BinaryState>1</BinaryState>"@;
    let p0 = "<BinaryState>0</BinaryState>"@;
    assert(s.len() == 324);
    assert(s.subrange(246, 274) =~= p0);
    assert(text::occurs_at(s, p0, 246));
    assert forall|j: int| 0 <= j < 324 && #[trigger] s[j] == '1' implies j == 15 || j == 236 by {
    }
    assert forall|i: int| !text::occurs_at(s, p1, i) by {
        if text::occurs_at(s, p1, i) {
            assert(s.subrange(i, i + 28)[13] == p1[13]);
            assert(s[i + 13] == '1');
            assert(s.subrange(i, i + 28)[0] == p1[0]);
        }
    }
}

} // verus!
