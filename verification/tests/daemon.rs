use lnxcast::capture::{CaptureBackend, PortalSourceType};
use lnxcast::daemon::{Daemon, DaemonAction, DaemonError, DaemonEvent};

fn feed(daemon: &mut Daemon, event: DaemonEvent) -> DaemonAction {
    daemon.on_event(event).expect("the daemon waits for this")
}

fn ended(action: DaemonAction) -> Result<(), DaemonError> {
    match action {
        DaemonAction::Finish(result) => result,
        _ => panic!("not ended"),
    }
}

/// The events of a daemon on which nothing fails.
fn good() -> Vec<DaemonEvent> {
    vec![
        DaemonEvent::User(1000),
        DaemonEvent::Backend(CaptureBackend::PipeWirePortal),
        DaemonEvent::Captured(Some((9, 57))),
        DaemonEvent::Built(true),
        DaemonEvent::Playing(true),
        DaemonEvent::Interface(None),
        DaemonEvent::Scanning,
        DaemonEvent::ServerCreated(true),
        DaemonEvent::Served(true),
        DaemonEvent::PipelineStopped,
    ]
}

/// A daemon that has taken in the first `count` of the good events.
fn after(count: usize) -> Daemon {
    let (mut daemon, first) = Daemon::begin();
    assert!(matches!(first, DaemonAction::ReadUser));
    for event in good().into_iter().take(count) {
        feed(&mut daemon, event);
    }
    daemon
}

#[test]
fn root_is_refused() {
    let (mut daemon, _) = Daemon::begin();
    let error = ended(feed(&mut daemon, DaemonEvent::User(0))).unwrap_err();
    assert_eq!(error, DaemonError::Root);
    assert_eq!(
        error.to_string(),
        "lnxcast must NOT be run with sudo / as root.\n\
         The XDG Desktop Portal for screen capture runs in your Wayland \
         session as your normal user and is not accessible to root.\n\
         wpa_supplicant is reachable via the system D-Bus without elevated \
         privileges.  Run: ./lnxcast"
    );
    assert!(daemon.on_event(DaemonEvent::User(1000)).is_none());
}

#[test]
fn a_back_end_is_needed() {
    let mut daemon = after(1);
    let event = DaemonEvent::Backend(CaptureBackend::Unavailable);
    let error = ended(feed(&mut daemon, event)).unwrap_err();
    assert_eq!(
        error.to_string(),
        "No screen-capture back-end available.\n\
         Ensure xdg-desktop-portal (and a compositor-specific back-end \
         such as xdg-desktop-portal-gnome or xdg-desktop-portal-wlr) \
         is running inside your Wayland session.\n\
         Hint: check with: systemctl --user status xdg-desktop-portal"
    );
}

#[test]
fn the_daemon_comes_up_and_goes_down() {
    let (mut daemon, _) = Daemon::begin();
    let mut actions: Vec<DaemonAction> = Vec::new();
    for event in good() {
        actions.push(feed(&mut daemon, event));
    }
    assert!(matches!(actions[0], DaemonAction::DetectBackend));
    match &actions[1] {
        DaemonAction::Capture(options) => {
            assert!(!options.include_cursor);
            assert_eq!(options.source_type, PortalSourceType::Monitor);
            assert!(options.restore_token.is_none());
        }
        _ => panic!("no capture"),
    }
    match &actions[2] {
        DaemonAction::Build(config) => {
            assert_eq!(config.pipewire_fd, 9);
            assert_eq!(config.pipewire_node_id, 57);
            assert_eq!(config.bitrate_kbps, 4_000);
            assert_eq!(config.framerate, 30);
            assert_eq!(config.max_width, 1920);
            assert_eq!(config.max_height, 1080);
            assert!(config.encoder_override.is_none());
        }
        _ => panic!("no pipeline"),
    }
    assert!(matches!(actions[3], DaemonAction::Play));
    assert!(matches!(actions[4], DaemonAction::ReadInterface));
    assert!(matches!(&actions[5], DaemonAction::Scan(s) if s.interface.is_none()));
    match &actions[6] {
        DaemonAction::CreateServer(config) => {
            assert_eq!(config.bind_address, "0.0.0.0");
            assert_eq!(config.port, 7236);
            assert_eq!(config.mount_path, "/live");
            assert!(config.launch_pipeline.is_none());
        }
        _ => panic!("no server"),
    }
    assert!(matches!(actions[7], DaemonAction::Serve));
    assert!(matches!(actions[8], DaemonAction::StopPipeline));
    assert!(matches!(actions[9], DaemonAction::Finish(Ok(()))));
}

#[test]
fn each_failure_is_told() {
    let cases = vec![
        (2, DaemonEvent::Captured(None), "Failed to open PipeWire capture stream"),
        (3, DaemonEvent::Built(false), "Failed to build GStreamer pipeline"),
    ];
    for (count, event, text) in cases {
        let error = ended(feed(&mut after(count), event)).unwrap_err();
        assert_eq!(error.to_string(), text);
    }
}

#[test]
fn a_built_pipeline_is_stopped_also_on_failure() {
    let cases = vec![
        (4, DaemonEvent::Playing(false), "Failed to start pipeline"),
        (7, DaemonEvent::ServerCreated(false), "Failed to create RTSP server"),
        (8, DaemonEvent::Served(false), "RTSP server error"),
    ];
    for (count, event, text) in cases {
        let mut daemon = after(count);
        assert!(matches!(feed(&mut daemon, event), DaemonAction::StopPipeline));
        let error = ended(feed(&mut daemon, DaemonEvent::PipelineStopped)).unwrap_err();
        assert_eq!(error.to_string(), text);
    }
}

#[test]
fn the_variable_names_the_interface() {
    let mut daemon = after(5);
    match feed(&mut daemon, DaemonEvent::Interface(Some("p2p-dev-wlan0".to_owned()))) {
        DaemonAction::Scan(scanner) => {
            assert_eq!(scanner.interface.as_deref(), Some("p2p-dev-wlan0"));
            assert_eq!(scanner.scan_timeout_secs, 30);
        }
        _ => panic!("no scanner"),
    }
    assert!(Daemon::choose_scanner(None).interface.is_none());
}
