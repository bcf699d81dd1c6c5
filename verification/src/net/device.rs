//! Discovered sinks and the events that report them.

use crate::net::scanner::WpaSupplicantScanner;
use crate::text::{hex_byte, hex_value, is_hex_digit, law_hex_byte_reads_back, push_hex_byte};
use vstd::prelude::*;
use vstd::string::*;

verus! {

/// A Wi-Fi Direct device that can be a sink.
#[derive(Debug, Clone, PartialEq, Eq)]
pub struct P2pDevice {
    /// D-Bus object path of the peer.
    pub object_path: String,
    /// Name that the device shows.
    pub device_name: String,
    /// Hardware address, as `aa:bb:cc:dd:ee:ff`.
    pub device_addr: String,
    /// Signal level, where the daemon reports one.
    pub signal_level: Option<i32>,
    /// Whether the device announces Wi-Fi Display.
    pub wfd_capable: bool,
}

/// What a [`P2pDevice`] holds, as plain values.
pub struct P2pDeviceView {
    pub object_path: Seq<char>,
    pub device_name: Seq<char>,
    pub device_addr: Seq<char>,
    pub signal_level: Option<i32>,
    pub wfd_capable: bool,
}

impl View for P2pDevice {
    type V = P2pDeviceView;

    open spec fn view(&self) -> P2pDeviceView {
        P2pDeviceView {
            object_path: self.object_path@,
            device_name: self.device_name@,
            device_addr: self.device_addr@,
            signal_level: self.signal_level,
            wfd_capable: self.wfd_capable,
        }
    }
}

/// How the scanner works.
#[derive(Debug, Clone, Copy, PartialEq, Eq, Structural)]
pub enum ScanMode {
    /// The daemon is asked to search (`P2PFind` over D-Bus).
    Active,
    /// Only the peers that the daemon already knows are read.
    Passive,
}

impl ScanMode {
    /// The text that names a mode.
    pub open spec fn text(self) -> Seq<char> {
        match self {
            ScanMode::Active => "ativo (P2PFind via D-Bus)"@,
            ScanMode::Passive => "passivo (ObjectManager apenas)"@,
        }
    }

    /// The text that names the mode.
    pub fn to_string(&self) -> (r: String)
        ensures
            r@ == self.text(),
    {
        match self {
            ScanMode::Active => "ativo (P2PFind via D-Bus)".to_owned(),
            ScanMode::Passive => "passivo (ObjectManager apenas)".to_owned(),
        }
    }
}

/// What the scanner reports.
#[derive(Debug, Clone)]
pub enum DeviceEvent {
    /// A device was found.
    Discovered(P2pDevice),
    /// A device is gone.
    Lost { object_path: String },
    /// One sweep over the known peers is over.
    ScanComplete,
    /// How the scanner works from here on.
    ScanMode(ScanMode),
    /// Something went wrong.
    Error(String),
}

/// What a [`DeviceEvent`] holds, as plain values.
pub enum DeviceEventView {
    Discovered(P2pDeviceView),
    Lost { object_path: Seq<char> },
    ScanComplete,
    ScanMode(ScanMode),
    Error(Seq<char>),
}

impl View for DeviceEvent {
    type V = DeviceEventView;

    open spec fn view(&self) -> DeviceEventView {
        match self {
            DeviceEvent::Discovered(device) => DeviceEventView::Discovered(device@),
            DeviceEvent::Lost { object_path } => DeviceEventView::Lost {
                object_path: object_path@,
            },
            DeviceEvent::ScanComplete => DeviceEventView::ScanComplete,
            DeviceEvent::ScanMode(mode) => DeviceEventView::ScanMode(*mode),
            DeviceEvent::Error(text) => DeviceEventView::Error(text@),
        }
    }
}

/// A hardware address in text: each byte as two hexadecimal digits, with a
/// colon between two bytes.
pub open spec fn mac_text(bytes: Seq<u8>) -> Seq<char>
    decreases bytes.len(),
{
    if bytes.len() == 0 {
        Seq::empty()
    } else if bytes.len() == 1 {
        hex_byte(bytes[0])
    } else {
        mac_text(bytes.drop_last()) + seq![':'] + hex_byte(bytes.last())
    }
}

/// The properties of a peer object, each `None` where it could not be read.
#[derive(Debug)]
pub struct PeerProperties {
    /// `DeviceName`.
    pub device_name: Option<String>,
    /// `DeviceAddress`.
    pub device_address: Option<Vec<u8>>,
    /// `Level`.
    pub level: Option<i32>,
    /// `IEs`: the information elements that the peer sends.
    pub ies: Option<Vec<u8>>,
}

/// What [`PeerProperties`] hold, as plain values.
pub struct PeerPropertiesView {
    pub device_name: Option<Seq<char>>,
    pub device_address: Option<Seq<u8>>,
    pub level: Option<i32>,
    pub ies: Option<Seq<u8>>,
}

impl View for PeerProperties {
    type V = PeerPropertiesView;

    open spec fn view(&self) -> PeerPropertiesView {
        PeerPropertiesView {
            device_name: match self.device_name {
                Some(name) => Some(name@),
                None => None,
            },
            device_address: match self.device_address {
                Some(bytes) => Some(bytes@),
                None => None,
            },
            level: self.level,
            ies: match self.ies {
                Some(bytes) => Some(bytes@),
                None => None,
            },
        }
    }
}

/// The device that a peer object stands for. A property that could not be read
/// leaves the name `Unknown`, the address empty, no level, and no Wi-Fi Display.
pub open spec fn device_of(path: Seq<char>, properties: PeerPropertiesView) -> P2pDeviceView {
    P2pDeviceView {
        object_path: path,
        device_name: match properties.device_name {
            Some(name) => name,
            None => "Unknown"@,
        },
        device_addr: match properties.device_address {
            Some(bytes) => mac_text(bytes),
            None => Seq::empty(),
        },
        signal_level: properties.level,
        wfd_capable: match properties.ies {
            Some(bytes) => bytes.len() > 0,
            None => false,
        },
    }
}

impl WpaSupplicantScanner {
    /// Writes a hardware address in text.
    pub fn mac_to_string(bytes: &[u8]) -> (r: String)
        ensures
            r@ == mac_text(bytes@),
    {
        let mut r: String = String::new();
        let mut i: usize = 0;
        while i < bytes.len()
            invariant
                i <= bytes.len(),
                r@ == mac_text(bytes@.take(i as int)),
            decreases bytes.len() - i,
        {
            let ghost before = r@;
            if i > 0 {
                r.append(":");
            }
            push_hex_byte(&mut r, bytes[i]);
            proof {
                reveal_strlit(":");
                let done = bytes@.take(i + 1);
                assert(done.drop_last() =~= bytes@.take(i as int));
                assert(done.last() == bytes@[i as int]);
                assert(":"@ =~= seq![':']);
                if i == 0 {
                    assert(r@ =~= hex_byte(bytes@[0]));
                } else {
                    assert(r@ =~= before + seq![':'] + hex_byte(bytes@[i as int]));
                }
            }
            i += 1;
        }
        proof {
            assert(bytes@.take(bytes@.len() as int) =~= bytes@);
        }
        r
    }

    /// Makes the device that a peer object stands for.
    pub fn build_device(path: String, properties: PeerProperties) -> (r: P2pDevice)
        ensures
            r@ == device_of(path@, properties@),
    {
        let device_name: String = match properties.device_name {
            Some(name) => name,
            None => "Unknown".to_owned(),
        };
        let device_addr: String = match &properties.device_address {
            Some(bytes) => WpaSupplicantScanner::mac_to_string(bytes.as_slice()),
            None => String::new(),
        };
        let wfd_capable: bool = match &properties.ies {
            Some(bytes) => bytes.len() > 0,
            None => false,
        };
        P2pDevice {
            object_path: path,
            device_name,
            device_addr,
            signal_level: properties.level,
            wfd_capable,
        }
    }
}

/// Two addresses that are written alike are the same.
pub proof fn law_mac_text_tells_addresses_apart(a: Seq<u8>, b: Seq<u8>)
    requires
        mac_text(a) == mac_text(b),
    ensures
        a == b,
    decreases a.len(),
{
    lemma_mac_len(a);
    lemma_mac_len(b);
    assert(a.len() == b.len());
    if a.len() == 0 {
        assert(a =~= b);
    } else {
        let n = mac_text(a).len() as int;
        assert(mac_text(a).skip(n - 2) =~= hex_byte(a.last()));
        assert(mac_text(b).skip(n - 2) =~= hex_byte(b.last()));
        lemma_hex_byte(a.last(), b.last());
        if a.len() > 1 {
            assert(mac_text(a).take(n - 3) =~= mac_text(a.drop_last()));
            assert(mac_text(b).take(n - 3) =~= mac_text(b.drop_last()));
            law_mac_text_tells_addresses_apart(a.drop_last(), b.drop_last());
            assert(a =~= a.drop_last().push(a.last()));
            assert(b =~= b.drop_last().push(b.last()));
        } else {
            assert(a =~= b);
        }
    }
}

/// The length of an address in text: two digits for each byte and a colon
/// between two of them.
pub proof fn lemma_mac_len(bytes: Seq<u8>)
    ensures
        mac_text(bytes).len() == if bytes.len() == 0 {
            0
        } else {
            3 * bytes.len() - 1
        },
    decreases bytes.len(),
{
    if bytes.len() > 1 {
        lemma_mac_len(bytes.drop_last());
    }
}

proof fn lemma_hex_byte(a: u8, b: u8)
    requires
        hex_byte(a) == hex_byte(b),
    ensures
        a == b,
{
    let x = hex_byte(a);
    let y = hex_byte(b);
    assert(x[0] == y[0] && x[1] == y[1]);
    reveal_strlit("0123456789abcdef");
    assert(a as int / 16 == b as int / 16);
    assert(a as int % 16 == b as int % 16);
}

/// An address is spelled byte by byte, in order: for each byte two hexadecimal
/// digits in lower case that read as the byte, and a colon behind it unless it
/// is the last.
pub proof fn law_address_spells_the_bytes(bytes: &[u8], text: String, i: int)
    requires
        call_ensures(WpaSupplicantScanner::mac_to_string, (bytes,), text),
        0 <= i < bytes@.len(),
    ensures
        text@.len() == 3 * bytes@.len() - 1,
        is_hex_digit(text@[3 * i]),
        is_hex_digit(text@[3 * i + 1]),
        16 * hex_value(text@[3 * i]) + hex_value(text@[3 * i + 1]) == bytes@[i],
        i + 1 < bytes@.len() ==> text@[3 * i + 2] == ':',
{
    lemma_mac_len(bytes@);
    lemma_mac_spells(bytes@, i);
}

proof fn lemma_mac_spells(bytes: Seq<u8>, i: int)
    requires
        0 <= i < bytes.len(),
    ensures
        is_hex_digit(mac_text(bytes)[3 * i]),
        is_hex_digit(mac_text(bytes)[3 * i + 1]),
        16 * hex_value(mac_text(bytes)[3 * i]) + hex_value(mac_text(bytes)[3 * i + 1]) == bytes[i],
        i + 1 < bytes.len() ==> mac_text(bytes)[3 * i + 2] == ':',
    decreases bytes.len(),
{
    lemma_mac_len(bytes);
    law_hex_byte_reads_back(bytes[i]);
    if bytes.len() > 1 {
        let front = bytes.drop_last();
        lemma_mac_len(front);
        if i < front.len() {
            lemma_mac_spells(front, i);
        }
    }
}

/// An address of no bytes is an empty text.
pub proof fn law_no_bytes_no_address(bytes: &[u8], text: String)
    requires
        call_ensures(WpaSupplicantScanner::mac_to_string, (bytes,), text),
        bytes@.len() == 0,
    ensures
        text@.len() == 0,
{
}

/// A device says what its peer says: the path, the name, the level and the
/// address are the peer's, and it can take Wi-Fi Display exactly where the peer
/// sends information elements, however many bytes they are. A name that could
/// not be read is `Unknown`; an address that could not be read is empty; elements
/// that could not be read are none.
pub proof fn law_device_says_what_the_peer_says(
    path: String,
    properties: PeerProperties,
    device: P2pDevice,
)
    requires
        call_ensures(WpaSupplicantScanner::build_device, (path, properties), device),
    ensures
        device.object_path@ == path@,
        device.signal_level == properties.level,
        properties.device_name matches Some(name) ==> device.device_name@ == name@,
        properties.device_name is None ==> device.device_name@ == "Unknown"@,
        properties.ies matches Some(ies) ==> (device.wfd_capable <==> ies@.len() >= 1),
        properties.ies is None ==> !device.wfd_capable,
        properties.device_address matches Some(bytes) ==> device.device_addr@ == mac_text(bytes@),
        properties.device_address is None ==> device.device_addr@.len() == 0,
{
}

/// Each property of a peer decides on one field of the device, and on no other.
pub proof fn law_properties_do_not_mix(
    path: Seq<char>,
    other_path: Seq<char>,
    a: PeerPropertiesView,
    b: PeerPropertiesView,
)
    ensures
        a.device_name == b.device_name ==> device_of(path, a).device_name == device_of(
            other_path,
            b,
        ).device_name,
        a.device_address == b.device_address ==> device_of(path, a).device_addr == device_of(
            other_path,
            b,
        ).device_addr,
        a.level == b.level ==> device_of(path, a).signal_level == device_of(
            other_path,
            b,
        ).signal_level,
        a.ies == b.ies ==> device_of(path, a).wfd_capable == device_of(other_path, b).wfd_capable,
        device_of(path, a).object_path == device_of(path, b).object_path,
{
}

/// What is seen of a device, of a peer's properties and of an event is what they
/// hold.
pub proof fn law_reports_are_seen_as_they_are(
    device: P2pDevice,
    properties: PeerProperties,
    event: DeviceEvent,
)
    ensures
        device@.object_path == device.object_path@,
        device@.device_name == device.device_name@,
        device@.device_addr == device.device_addr@,
        device@.signal_level == device.signal_level,
        device@.wfd_capable == device.wfd_capable,
        properties@.level == properties.level,
        properties@.device_name is Some <==> properties.device_name is Some,
        properties.device_name is Some ==> properties@.device_name->0 == properties.device_name->0@,
        properties@.device_address is Some <==> properties.device_address is Some,
        properties.device_address is Some ==> properties@.device_address->0
            == properties.device_address->0@,
        properties@.ies is Some <==> properties.ies is Some,
        properties.ies is Some ==> properties@.ies->0 == properties.ies->0@,
        match event {
            DeviceEvent::Discovered(found) => event@ == DeviceEventView::Discovered(found@),
            DeviceEvent::Lost { object_path } => event@ is Lost && event@->object_path
                == object_path@,
            DeviceEvent::ScanComplete => event@ is ScanComplete,
            DeviceEvent::ScanMode(mode) => event@ == DeviceEventView::ScanMode(mode),
            DeviceEvent::Error(text) => event@ == DeviceEventView::Error(text@),
        },
{
}

} // verus!
