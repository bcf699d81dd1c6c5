use lnxcast::server::{
    AttachReply, RtspServer, ServeAction, ServeEvent, ServerConfig, ServerError, ServerRun,
};

fn feed(run: &mut ServerRun, event: ServeEvent) -> ServeAction {
    run.on_event(event).expect("the run waits for this")
}

fn test_config(port: u16) -> ServerConfig {
    ServerConfig {
        port,
        launch_pipeline: Some(
            "( videotestsrc ! x264enc tune=zerolatency \
               ! h264parse ! rtph264pay name=pay0 pt=96 )"
                .into(),
        ),
        ..Default::default()
    }
}

/// Verify that `ServerConfig::default()` produces the correct Miracast
/// port and mount path.
#[test]
fn test_server_config_defaults() {
    let cfg = ServerConfig::default();
    assert_eq!(cfg.port, 7236, "Miracast RTSP port must be 7236");
    assert_eq!(cfg.mount_path, "/live");
    assert_eq!(cfg.bind_address, "0.0.0.0");
}

/// Verify the service string formatting.
#[test]
fn test_service_string() {
    let cfg = ServerConfig { port: 7236, ..Default::default() };
    assert_eq!(cfg.service_string(), "7236");
}

#[test]
fn service_strings_at_the_ends_of_the_range() {
    assert_eq!(ServerConfig { port: 0, ..Default::default() }.service_string(), "0");
    assert_eq!(ServerConfig { port: 65535, ..Default::default() }.service_string(), "65535");
}

/// Confirm the default launch pipeline is non-empty.
#[test]
fn test_default_launch_pipeline_non_empty() {
    let cfg = ServerConfig::default();
    let pipeline = cfg.effective_launch_pipeline();
    assert!(!pipeline.is_empty());
    // Must contain rtph264pay (the RTP payloader required for RTSP).
    assert!(pipeline.contains("rtph264pay"), "pipeline must contain rtph264pay");
}

#[test]
fn the_default_launch_pipeline_names_its_elements_in_order() {
    let pipeline = ServerConfig::default().effective_launch_pipeline();
    let words: Vec<&str> = pipeline.split_whitespace().collect();
    assert_eq!(
        words.join(" "),
        "( pipewiresrc ! videoconvert ! videoscale method=1 \
         ! videorate max-rate=30 drop-only=true \
         ! x264enc tune=zerolatency speed-preset=ultrafast bitrate=4000 \
         ! h264parse ! video/x-h264,stream-format=byte-stream,alignment=au \
         ! rtph264pay name=pay0 pt=96 config-interval=1 )"
    );
}

/// Custom launch pipeline override is respected.
#[test]
fn test_custom_launch_pipeline() {
    let custom = "( videotestsrc ! rtph264pay name=pay0 pt=96 )".to_owned();
    let cfg = ServerConfig {
        launch_pipeline: Some(custom.clone()),
        ..Default::default()
    };
    assert_eq!(cfg.effective_launch_pipeline(), custom);
}

#[test]
fn test_rtsp_server_bind() {
    let config = test_config(17236);
    let launch = config.effective_launch_pipeline();
    let server = match RtspServer::new(config, Ok(())) {
        Ok(s) => s,
        Err(e) => panic!("Unexpected error: {:?}", e),
    };
    let (mut run, first) = server.run_with_shutdown();
    match first {
        ServeAction::Configure { address, service } => {
            assert_eq!(address, "0.0.0.0");
            assert_eq!(service, "17236");
        }
        other => panic!("{:?}", other),
    }
    match feed(&mut run, ServeEvent::Configured(true)) {
        ServeAction::Mount { path, launch: offered, shared } => {
            assert_eq!(path, "/live");
            assert_eq!(offered, launch);
            assert!(shared);
        }
        other => panic!("{:?}", other),
    }
}

#[test]
fn test_rtsp_server_immediate_shutdown() {
    let server = match RtspServer::new(test_config(17237), Ok(())) {
        Ok(s) => s,
        Err(e) => panic!("Server construction failed: {:?}", e),
    };
    let (mut run, _) = server.run_with_shutdown();
    feed(&mut run, ServeEvent::Configured(true));
    assert!(matches!(feed(&mut run, ServeEvent::Mounted), ServeAction::Attach));
    assert!(matches!(
        feed(&mut run, ServeEvent::AttachDone(AttachReply::Attached)),
        ServeAction::AwaitStop
    ));
    assert!(matches!(feed(&mut run, ServeEvent::Stopped), ServeAction::TakeDown));
    assert!(run.on_event(ServeEvent::Stopped).is_none());
    assert!(matches!(
        feed(&mut run, ServeEvent::TakenDown),
        ServeAction::Finish(Ok(()))
    ));
    assert!(run.on_event(ServeEvent::TakenDown).is_none());
}

#[test]
fn a_run_without_shutdown_goes_on_for_ever() {
    let server = RtspServer::new(test_config(17238), Ok(())).ok().unwrap();
    let (mut run, action) = server.run();
    match action {
        ServeAction::Configure { address, service } => {
            assert_eq!(address, "0.0.0.0");
            assert_eq!(service, "17238");
        }
        other => panic!("{:?}", other),
    }
    match feed(&mut run, ServeEvent::Configured(true)) {
        ServeAction::Mount { path, shared, .. } => {
            assert_eq!(path, "/live");
            assert!(shared);
        }
        other => panic!("{:?}", other),
    }
    feed(&mut run, ServeEvent::Mounted);
    assert!(matches!(
        feed(&mut run, ServeEvent::AttachDone(AttachReply::Attached)),
        ServeAction::AwaitForever
    ));
    assert!(run.on_event(ServeEvent::Stopped).is_none());
    assert!(run.on_event(ServeEvent::TakenDown).is_none());

    let (mut run, _) = server.run();
    feed(&mut run, ServeEvent::Configured(true));
    feed(&mut run, ServeEvent::Mounted);
    assert!(matches!(
        feed(&mut run, ServeEvent::AttachDone(AttachReply::Refused("in use".to_owned()))),
        ServeAction::Finish(Err(ServerError::Attach(text))) if text == "in use"
    ));
}

#[test]
fn a_server_needs_gstreamer() {
    match RtspServer::new(ServerConfig::default(), Err("no plugins".to_owned())) {
        Err(ServerError::GstInit(text)) => assert_eq!(text, "no plugins"),
        _ => panic!("a server without GStreamer"),
    }
}

#[test]
fn runs_fail_with_their_cause() {
    let server = RtspServer::new(ServerConfig::default(), Ok(())).ok().unwrap();

    let (mut run, _) = server.run_with_shutdown();
    match feed(&mut run, ServeEvent::Configured(false)) {
        ServeAction::Finish(Err(e)) => {
            assert_eq!(e.to_string(), "Internal error: no mount points")
        }
        other => panic!("{:?}", other),
    }

    let (mut run, _) = server.run_with_shutdown();
    feed(&mut run, ServeEvent::Configured(true));
    feed(&mut run, ServeEvent::Mounted);
    match feed(
        &mut run,
        ServeEvent::AttachDone(AttachReply::Refused("address in use".to_owned())),
    ) {
        ServeAction::Finish(Err(ServerError::Attach(text))) => assert_eq!(text, "address in use"),
        other => panic!("{:?}", other),
    }

    let (mut run, _) = server.run_with_shutdown();
    feed(&mut run, ServeEvent::Configured(true));
    feed(&mut run, ServeEvent::Mounted);
    match feed(&mut run, ServeEvent::AttachDone(AttachReply::Lost)) {
        ServeAction::Finish(Err(e)) => {
            assert_eq!(e.to_string(), "Internal error: ready channel dropped")
        }
        other => panic!("{:?}", other),
    }
}

#[test]
fn server_errors_say_what_went_wrong() {
    assert_eq!(
        ServerError::GstInit("x".to_owned()).to_string(),
        "GStreamer initialisation failed: x"
    );
    assert_eq!(
        ServerError::Bind { address: "0.0.0.0:80".to_owned(), reason: "denied".to_owned() }
            .to_string(),
        "RTSP server bind failed on 0.0.0.0:80: denied"
    );
    assert_eq!(
        ServerError::Attach("x".to_owned()).to_string(),
        "Failed to attach server to GLib main loop: x"
    );
    assert_eq!(
        ServerError::LaunchString("x".to_owned()).to_string(),
        "Pipeline launch string error: x"
    );
    assert_eq!(ServerError::Internal("x".to_owned()).to_string(), "Internal error: x");
}
