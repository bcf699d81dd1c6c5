use lnxcast::net::detect::{
    InterfaceSearch, ProbeReply, SearchAction, SearchEvent, SearchOutcome,
};
use lnxcast::net::device::{DeviceEvent, P2pDevice, PeerProperties, ScanMode};
use lnxcast::net::error::{dbus_failure_text, no_interface_text, NetError, NetResult};
use lnxcast::net::interfaces::{
    wifi_interfaces_from_proc, wifi_interfaces_from_sysfs, wpa_socket_interfaces,
};
use lnxcast::net::scanner::{
    select_peers, ManagedObject, ScanAction, ScanEvent, ScanSession, WpaSupplicantScanner,
};

const WIRELESS: &str = "\
Inter-| sta-|   Quality        |   Discarded packets               | Missed | WE
 face | tus | link level noise |  nwid  crypt   frag  retry   misc | beacon | 22
wlp2s0: 0000   70.  -40.  -256        0      0      0      0      0        0
  wlan1: 0000   50.  -60.  -256        0      0      0      0      0        0
";

fn strings(list: &[&str]) -> Vec<String> {
    list.iter().map(|s| s.to_string()).collect()
}

/// A machine to search for an interface on.
struct World {
    sockets: Option<Vec<String>>,
    table: Option<String>,
    net_class: Option<Vec<String>>,
    probe: ProbeReply,
    known: Vec<String>,
    asked: Vec<String>,
}

impl World {
    fn new(sockets: &[&str], table: Option<&str>) -> World {
        World {
            sockets: Some(strings(sockets)),
            table: table.map(|t| t.to_owned()),
            net_class: None,
            probe: ProbeReply::NoConnection,
            known: Vec::new(),
            asked: Vec::new(),
        }
    }

    fn answer(&mut self, action: SearchAction) -> SearchEvent {
        match action {
            SearchAction::ListSockets => SearchEvent::Sockets(self.sockets.clone()),
            SearchAction::ReadWirelessTable => SearchEvent::WirelessTable(self.table.clone()),
            SearchAction::ListNetClass => SearchEvent::NetClass(self.net_class.clone()),
            SearchAction::ProbeDaemon => SearchEvent::DaemonProbe(self.probe),
            SearchAction::QueryInterface(name) => {
                let known = self.known.contains(&name);
                self.asked.push(name);
                SearchEvent::InterfaceReply(known)
            }
            SearchAction::Finish(_) => panic!("the search is over"),
        }
    }

    fn detect(&mut self) -> NetResult<String> {
        let (mut search, mut action): (InterfaceSearch, SearchAction) =
            WpaSupplicantScanner::detect_p2p_interface();
        loop {
            if let SearchAction::Finish(outcome) = action {
                return outcome.into_result();
            }
            let event = self.answer(action);
            action = search.on_event(event).expect("the search waits for this");
        }
    }
}

#[test]
fn test_wifi_interfaces_from_proc() {
    let ifaces = wifi_interfaces_from_proc(WIRELESS);
    println!("Wi-Fi interfaces: {ifaces:?}");
    for name in &ifaces {
        assert!(!name.is_empty());
        assert!(!name.contains(':'));
    }
    assert_eq!(ifaces, strings(&["wlp2s0", "wlan1"]));
}

#[test]
fn the_wireless_table_may_be_short_or_odd() {
    assert!(wifi_interfaces_from_proc("").is_empty());
    assert!(wifi_interfaces_from_proc("one\ntwo").is_empty());
    assert!(wifi_interfaces_from_proc("one\ntwo\n").is_empty());
    assert_eq!(wifi_interfaces_from_proc("1\r\n2\r\n wlan0\r\n"), strings(&["wlan0"]));
    assert_eq!(
        wifi_interfaces_from_proc("1\n2\n  : x\n\n a:b:c \nlast"),
        strings(&["a", "last"])
    );
}

#[test]
fn the_network_class_lists_wireless_adapters() {
    assert_eq!(
        wifi_interfaces_from_sysfs(&strings(&["lo", "wlan0", "eth0", "wlp2s0", "wwan0", "wl", "w"])),
        strings(&["wlan0", "wlp2s0", "wl"])
    );
}

#[test]
fn test_wpa_socket_interfaces() {
    let sockets =
        wpa_socket_interfaces(&strings(&["global", "wlan0", "wlan0.pid", "p2p-dev-wlan0", ".pid"]));
    println!("Sockets wpa_supplicant: {sockets:?}");
    for s in &sockets {
        assert!(!s.is_empty());
        assert_ne!(s, "global");
    }
    assert_eq!(sockets, strings(&["wlan0", "p2p-dev-wlan0"]));
    assert!(wpa_socket_interfaces(&Vec::new()).is_empty());
}

#[test]
fn test_p2p_interface_exists() {
    let mut worlds = vec![
        World::new(&["p2p-dev-wlan0"], None),
        World::new(&["wlan0"], Some(WIRELESS)),
        World::new(&[], None),
    ];
    worlds[1].probe = ProbeReply::Answered;
    for world in &mut worlds {
        match world.detect() {
            Ok(name) => {
                println!("Interface P2P detectada: {name}");
                assert!(!name.is_empty());
            }
            Err(NetError::WpaNotRunning) => {}
            Err(NetError::NoP2pInterface { tried }) => {
                println!("Nenhuma interface P2P entre: {tried:?}");
            }
            Err(e) => panic!("Erro inesperado: {:?}", e),
        }
    }
}

#[test]
fn a_p2p_socket_settles_the_search() {
    let mut world = World::new(&["global", "wlan0", "p2p-dev-wlan1", "p2p-dev-wlan0"], None);
    assert_eq!(world.detect().unwrap(), "p2p-dev-wlan1");
    assert!(world.asked.is_empty());
}

#[test]
fn the_daemon_confirms_a_derived_name() {
    let mut world = World::new(&["eth9"], Some(WIRELESS));
    world.probe = ProbeReply::MethodError;
    world.known = strings(&["p2p-dev-wlan1", "p2p-dev-eth9"]);
    assert_eq!(world.detect().unwrap(), "p2p-dev-wlan1");
    assert_eq!(world.asked, strings(&["p2p-dev-wlp2s0", "p2p-dev-wlan1"]));

    let mut world = World::new(&["eth9"], Some(WIRELESS));
    world.probe = ProbeReply::Answered;
    world.known = strings(&["p2p-dev-eth9"]);
    assert_eq!(world.detect().unwrap(), "p2p-dev-eth9");
}

#[test]
fn a_daemon_that_refuses_every_name_is_not_fatal() {
    let mut world = World::new(&["wlan9"], None);
    world.net_class = Some(strings(&["lo", "wlan3"]));
    world.probe = ProbeReply::Answered;
    assert_eq!(world.detect().unwrap(), "p2p-dev-wlan9");
    assert_eq!(world.asked, strings(&["p2p-dev-wlan3", "p2p-dev-wlan9"]));

    let mut world = World::new(&["wlan0"], Some("1\n2\nwlan0: 0000\n"));
    world.probe = ProbeReply::MethodError;
    assert_eq!(world.detect().unwrap(), "p2p-dev-wlan0");
    assert_eq!(world.asked, strings(&["p2p-dev-wlan0", "p2p-dev-wlan0"]));

    let mut world = World::new(&[], Some(WIRELESS));
    world.probe = ProbeReply::MethodError;
    assert_eq!(world.detect().unwrap(), "p2p-dev-wlp2s0");
}

#[test]
fn without_the_daemon_the_search_guesses() {
    let mut world = World::new(&["wlan9", "wlan8"], Some(WIRELESS));
    assert_eq!(world.detect().unwrap(), "p2p-dev-wlan9");

    let mut world = World::new(&[], Some(WIRELESS));
    world.probe = ProbeReply::Failed;
    assert_eq!(world.detect().unwrap(), "p2p-dev-wlp2s0");

    let mut world = World::new(&[], None);
    world.sockets = None;
    world.probe = ProbeReply::Answered;
    match world.detect() {
        Err(NetError::NoP2pInterface { tried }) => assert!(tried.is_empty()),
        other => panic!("{:?}", other),
    }
}

#[test]
fn a_search_ignores_what_it_does_not_wait_for() {
    let (mut search, _) = InterfaceSearch::begin();
    assert!(search.on_event(SearchEvent::InterfaceReply(true)).is_none());
    assert!(matches!(
        search.on_event(SearchEvent::Sockets(None)),
        Some(SearchAction::ReadWirelessTable)
    ));
    assert!(matches!(
        SearchOutcome::Found("x".to_owned()).into_result(),
        Ok(name) if name == "x"
    ));
}

#[test]
fn test_scanner_channel_types() {
    let scanner = WpaSupplicantScanner::auto();
    let (tx, rx) = std::sync::mpsc::channel::<DeviceEvent>();
    tx.send(DeviceEvent::ScanComplete).unwrap();
    assert!(matches!(rx.recv().unwrap(), DeviceEvent::ScanComplete));
    assert_eq!(scanner.scan_timeout_secs, 30);
    assert!(scanner.interface.is_none());
}

#[test]
fn scanners_with_an_interface() {
    let scanner = WpaSupplicantScanner::new("p2p-dev-wlan0".to_owned());
    assert_eq!(scanner.interface.as_deref(), Some("p2p-dev-wlan0"));
    assert_eq!(scanner.scan_timeout_secs, 30);
    assert!(WpaSupplicantScanner::default().interface.is_none());
}

#[test]
fn test_mac_to_string() {
    let bytes = [0x00u8, 0x1a, 0x2b, 0x3c, 0x4d, 0x5e];
    assert_eq!(WpaSupplicantScanner::mac_to_string(&bytes), "00:1a:2b:3c:4d:5e");
}

#[test]
fn addresses_of_other_lengths() {
    assert_eq!(WpaSupplicantScanner::mac_to_string(&[]), "");
    assert_eq!(WpaSupplicantScanner::mac_to_string(&[0xff]), "ff");
    assert_eq!(WpaSupplicantScanner::mac_to_string(&[0x0f, 0xf0]), "0f:f0");
}

#[test]
fn test_scan_mode_display() {
    assert_eq!(ScanMode::Active.to_string(), "ativo (P2PFind via D-Bus)");
    assert_eq!(ScanMode::Passive.to_string(), "passivo (ObjectManager apenas)");
}

fn properties(name: &str) -> PeerProperties {
    PeerProperties {
        device_name: Some(name.to_owned()),
        device_address: Some(vec![0xaa, 0xbb, 0xcc, 0xdd, 0xee, 0xff]),
        level: Some(-65),
        ies: Some(vec![1]),
    }
}

#[test]
fn devices_are_made_of_their_properties() {
    let path = "/fi/w1/wpa_supplicant1/Peers/0";
    assert_eq!(
        WpaSupplicantScanner::build_device(path.to_owned(), properties("TestTV")),
        P2pDevice {
            object_path: path.to_owned(),
            device_name: "TestTV".to_owned(),
            device_addr: "aa:bb:cc:dd:ee:ff".to_owned(),
            signal_level: Some(-65),
            wfd_capable: true,
        }
    );
    let unreadable =
        PeerProperties { device_name: None, device_address: None, level: None, ies: None };
    assert_eq!(
        WpaSupplicantScanner::build_device(path.to_owned(), unreadable),
        P2pDevice {
            object_path: path.to_owned(),
            device_name: "Unknown".to_owned(),
            device_addr: "".to_owned(),
            signal_level: None,
            wfd_capable: false,
        }
    );
    let mut no_elements = properties("x");
    no_elements.ies = Some(Vec::new());
    assert!(!WpaSupplicantScanner::build_device(path.to_owned(), no_elements).wfd_capable);
}

fn objects() -> Vec<ManagedObject> {
    vec![
        ManagedObject {
            path: "/i/0".to_owned(),
            interfaces: strings(&["fi.w1.wpa_supplicant1.Interface"]),
        },
        ManagedObject {
            path: "/p/0".to_owned(),
            interfaces: strings(&[
                "org.freedesktop.DBus.Properties",
                "fi.w1.wpa_supplicant1.Peer",
            ]),
        },
        ManagedObject { path: "/p/1".to_owned(), interfaces: strings(&["fi.w1.wpa_supplicant1.Peer"]) },
        ManagedObject { path: "/p/2".to_owned(), interfaces: strings(&["fi.w1.wpa_supplicant1.Peer"]) },
        ManagedObject { path: "/x".to_owned(), interfaces: Vec::new() },
    ]
}

#[test]
fn peers_are_the_objects_with_the_peer_interface() {
    assert_eq!(select_peers(&objects()), strings(&["/p/0", "/p/1", "/p/2"]));
}

fn feed(scan: &mut ScanSession, event: ScanEvent) -> ScanAction {
    scan.on_event(event).expect("the scan waits for this")
}

/// A scan that has reported its mode.
fn announced(resolved: bool) -> (ScanSession, ScanAction) {
    let (mut scan, first) = WpaSupplicantScanner::new("p2p-dev-wlan0".to_owned()).scan();
    assert!(matches!(first, ScanAction::Connect));
    match feed(&mut scan, ScanEvent::Connected(true)) {
        ScanAction::Resolve(name) => assert_eq!(name, "p2p-dev-wlan0"),
        other => panic!("{:?}", other),
    }
    let expected = if resolved { ScanMode::Active } else { ScanMode::Passive };
    match feed(&mut scan, ScanEvent::Resolved(resolved)) {
        ScanAction::Send(DeviceEvent::ScanMode(mode)) => assert_eq!(mode, expected),
        other => panic!("{:?}", other),
    }
    let action = feed(&mut scan, ScanEvent::Sent(true));
    (scan, action)
}

#[test]
fn an_active_scan_searches_and_waits() {
    let (mut scan, action) = announced(true);
    assert!(matches!(action, ScanAction::Find(30)));
    assert!(matches!(feed(&mut scan, ScanEvent::FindReply(true)), ScanAction::Sleep(30)));
    assert!(matches!(feed(&mut scan, ScanEvent::Slept), ScanAction::ListObjects));
}

#[test]
fn a_failed_search_does_not_end_an_active_scan() {
    let (mut scan, _) = announced(true);
    assert!(matches!(feed(&mut scan, ScanEvent::FindReply(false)), ScanAction::ListObjects));
    assert!(matches!(
        feed(&mut scan, ScanEvent::Objects(Ok(Vec::new()))),
        ScanAction::Send(DeviceEvent::ScanComplete)
    ));
    assert!(matches!(feed(&mut scan, ScanEvent::Sent(true)), ScanAction::Find(30)));
}

#[test]
fn a_passive_scan_reports_every_readable_peer() {
    let (mut scan, action) = announced(false);
    assert!(matches!(action, ScanAction::Sleep(30)));
    assert!(matches!(feed(&mut scan, ScanEvent::Slept), ScanAction::ListObjects));
    assert!(matches!(
        feed(&mut scan, ScanEvent::Objects(Ok(objects()))),
        ScanAction::ReadPeer(p) if p == "/p/0"
    ));
    match feed(&mut scan, ScanEvent::Peer(Some(properties("TV")))) {
        ScanAction::Send(DeviceEvent::Discovered(dev)) => {
            assert_eq!(dev.object_path, "/p/0");
            assert_eq!(dev.device_name, "TV");
        }
        other => panic!("{:?}", other),
    }
    assert!(matches!(
        feed(&mut scan, ScanEvent::Sent(true)),
        ScanAction::ReadPeer(p) if p == "/p/1"
    ));
    assert!(matches!(
        feed(&mut scan, ScanEvent::Peer(None)),
        ScanAction::ReadPeer(p) if p == "/p/2"
    ));
    assert!(matches!(
        feed(&mut scan, ScanEvent::Peer(Some(properties("Dongle")))),
        ScanAction::Send(DeviceEvent::Discovered(dev)) if dev.object_path == "/p/2"
    ));
    assert!(matches!(
        feed(&mut scan, ScanEvent::Sent(true)),
        ScanAction::Send(DeviceEvent::ScanComplete)
    ));
    assert!(matches!(feed(&mut scan, ScanEvent::Sent(true)), ScanAction::Sleep(30)));
}

#[test]
fn a_scan_without_an_interface_searches_first() {
    let (mut scan, mut action) = WpaSupplicantScanner::auto().scan();
    let mut world = World::new(&["wlan0"], Some(WIRELESS));
    world.probe = ProbeReply::MethodError;
    world.known = strings(&["p2p-dev-wlan0"]);
    loop {
        match action {
            ScanAction::Search(question) => {
                let answer = world.answer(question);
                action = feed(&mut scan, ScanEvent::Search(answer));
            }
            ScanAction::Connect => break,
            other => panic!("{:?}", other),
        }
    }
    assert!(matches!(
        feed(&mut scan, ScanEvent::Connected(true)),
        ScanAction::Resolve(name) if name == "p2p-dev-wlan0"
    ));
}

#[test]
fn refused_names_lead_to_a_passive_scan() {
    let (mut scan, mut action) = WpaSupplicantScanner::auto().scan();
    let mut world = World::new(&["wlan0"], None);
    world.probe = ProbeReply::MethodError;
    while let ScanAction::Search(question) = action {
        let answer = world.answer(question);
        action = feed(&mut scan, ScanEvent::Search(answer));
    }
    assert!(matches!(action, ScanAction::Connect));
    assert!(matches!(
        feed(&mut scan, ScanEvent::Connected(true)),
        ScanAction::Resolve(name) if name == "p2p-dev-wlan0"
    ));
    assert!(matches!(
        feed(&mut scan, ScanEvent::Resolved(false)),
        ScanAction::Send(DeviceEvent::ScanMode(ScanMode::Passive))
    ));
}

#[test]
fn scans_end_with_their_cause() {
    let (mut scan, _) = WpaSupplicantScanner::auto().scan();
    feed(&mut scan, ScanEvent::Search(SearchEvent::Sockets(None)));
    feed(&mut scan, ScanEvent::Search(SearchEvent::WirelessTable(None)));
    feed(&mut scan, ScanEvent::Search(SearchEvent::NetClass(None)));
    assert!(matches!(
        feed(&mut scan, ScanEvent::Search(SearchEvent::DaemonProbe(ProbeReply::Answered))),
        ScanAction::End(NetError::NoP2pInterface { tried }) if tried.is_empty()
    ));

    let (mut scan, _) = WpaSupplicantScanner::new("x".to_owned()).scan();
    assert!(matches!(
        feed(&mut scan, ScanEvent::Connected(false)),
        ScanAction::End(NetError::WpaNotRunning)
    ));
    assert!(scan.on_event(ScanEvent::Connected(true)).is_none());

    let (mut scan, _) = announced(false);
    feed(&mut scan, ScanEvent::Slept);
    assert!(matches!(
        feed(&mut scan, ScanEvent::Objects(Err(zbus::Error::InterfaceNotFound))),
        ScanAction::End(NetError::DbusConnection(zbus::Error::InterfaceNotFound))
    ));

    let (mut scan, _) = announced(false);
    feed(&mut scan, ScanEvent::Slept);
    feed(&mut scan, ScanEvent::Objects(Ok(objects())));
    feed(&mut scan, ScanEvent::Peer(Some(properties("TV"))));
    assert!(matches!(
        feed(&mut scan, ScanEvent::Sent(false)),
        ScanAction::End(NetError::ChannelClosed)
    ));
}

#[test]
fn a_time_out_below_zero_counts_from_the_top() {
    let scanner = WpaSupplicantScanner { interface: Some("x".to_owned()), scan_timeout_secs: -1 };
    let (mut scan, _) = scanner.scan();
    feed(&mut scan, ScanEvent::Connected(true));
    feed(&mut scan, ScanEvent::Resolved(false));
    assert!(matches!(feed(&mut scan, ScanEvent::Sent(true)), ScanAction::Sleep(u64::MAX)));
}

#[test]
fn net_errors_say_what_went_wrong() {
    assert_eq!(
        NetError::from(zbus::Error::InterfaceNotFound).to_string(),
        "D-Bus connection failed: Interface not found"
    );
    assert_eq!(dbus_failure_text("x"), "D-Bus connection failed: x");
    assert_eq!(
        NetError::WpaNotRunning.to_string(),
        "wpa_supplicant não está rodando ou inacessível no system D-Bus"
    );
    assert_eq!(
        NetError::NoP2pInterface { tried: strings(&["p2p-dev-wlan0", "a\"b"]) }.to_string(),
        "Nenhuma interface P2P encontrada (tentadas: [\"p2p-dev-wlan0\", \"a\\\"b\"])"
    );
    assert_eq!(
        no_interface_text("[]"),
        "Nenhuma interface P2P encontrada (tentadas: [])"
    );
    assert_eq!(NetError::ChannelClosed.to_string(), "Canal fechado pelo consumidor");
    assert_eq!(NetError::Internal("x".to_owned()).to_string(), "Erro interno: x");
}
