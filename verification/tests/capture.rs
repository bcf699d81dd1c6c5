use ashpd::desktop::screencast::{CursorMode, SourceType};
use ashpd::desktop::PersistMode;
use lnxcast::capture::{
    portal_failure_text, CaptureAction, CaptureBackend, CaptureError, CaptureEvent, CaptureOptions,
    CaptureResult, CaptureSession, CaptureStream, CastReply, PortalSourceType, ScreenCapturer,
};

fn feed(session: &mut CaptureSession, event: CaptureEvent) -> CaptureAction {
    session.on_event(event).expect("the session waits for this")
}

/// Answers every request up to the user's choice.
fn up_to_cast(options: CaptureOptions) -> CaptureSession {
    let (mut session, first) = ScreenCapturer::new(options).start();
    assert!(matches!(first, CaptureAction::OpenPortal));
    assert!(matches!(
        feed(&mut session, CaptureEvent::PortalOpened(Ok(()))),
        CaptureAction::CreateSession
    ));
    assert!(matches!(
        feed(&mut session, CaptureEvent::SessionCreated(Ok(()))),
        CaptureAction::SelectSources(_)
    ));
    assert!(matches!(
        feed(&mut session, CaptureEvent::SourcesSelected(Ok(()))),
        CaptureAction::StartCast
    ));
    session
}

fn finished(action: CaptureAction) -> CaptureResult<CaptureStream> {
    match action {
        CaptureAction::Finish(result) => result,
        other => panic!("not finished: {:?}", other),
    }
}

#[test]
fn test_capture_source_availability() {
    let with_portal = CaptureBackend::detect(&Ok(()));
    let without = CaptureBackend::detect(&Err(ashpd::Error::NoResponse));
    for backend in [&with_portal, &without] {
        assert!(
            *backend == CaptureBackend::PipeWirePortal || *backend == CaptureBackend::Unavailable,
            "unexpected backend variant"
        );
    }
    assert_eq!(with_portal, CaptureBackend::PipeWirePortal);
    assert_eq!(without, CaptureBackend::Unavailable);
    assert!(with_portal.is_available());
    assert!(!without.is_available());
}

#[test]
fn test_capture_options_defaults() {
    let opts = CaptureOptions::default();
    assert!(!opts.include_cursor);
    assert_eq!(opts.source_type, PortalSourceType::Monitor);
    assert!(opts.restore_token.is_none());
}

#[test]
fn test_source_type_conversion() {
    assert_eq!(SourceType::from(PortalSourceType::Monitor), SourceType::Monitor);
    assert_eq!(SourceType::from(PortalSourceType::Window), SourceType::Window);
    assert_eq!(SourceType::from(PortalSourceType::Virtual), SourceType::Virtual);
}

#[test]
fn test_start_fails_gracefully_without_portal() {
    let (mut session, _) = ScreenCapturer::new(CaptureOptions::default()).start();
    let action = feed(
        &mut session,
        CaptureEvent::PortalOpened(Err(ashpd::Error::NoResponse)),
    );
    match finished(action) {
        Ok(stream) => panic!("a stream without a portal: {:?}", stream),
        Err(CaptureError::Portal(_)) | Err(CaptureError::Unavailable(_)) => {}
        Err(e) => panic!("Unexpected error variant: {:?}", e),
    }
}

#[test]
fn a_granted_capture_has_the_first_stream() {
    let mut session = up_to_cast(CaptureOptions::default());
    let action = feed(
        &mut session,
        CaptureEvent::CastStarted(CastReply::Streams(vec![57, 58])),
    );
    assert!(matches!(action, CaptureAction::OpenRemote));
    let stream = finished(feed(&mut session, CaptureEvent::RemoteOpened(Ok(9)))).unwrap();
    assert_eq!(stream.node_id(), 57);
    assert_eq!(stream.as_raw_fd(), 9);
    assert_eq!(format!("{:?}", stream), "CaptureStream { fd: 9, node_id: 57 }");
    assert_eq!(stream.into_raw_fd(), 9);
}

#[test]
fn the_selection_follows_the_options() {
    let options = CaptureOptions {
        include_cursor: true,
        source_type: PortalSourceType::Window,
        restore_token: Some("token".to_owned()),
    };
    let (mut session, _) = ScreenCapturer::new(options).start();
    feed(&mut session, CaptureEvent::PortalOpened(Ok(())));
    match feed(&mut session, CaptureEvent::SessionCreated(Ok(()))) {
        CaptureAction::SelectSources(selection) => {
            assert_eq!(selection.cursor_mode, CursorMode::Embedded);
            assert_eq!(selection.types, vec![SourceType::Window]);
            assert!(!selection.multiple);
            assert_eq!(selection.restore_token.as_deref(), Some("token"));
            assert_eq!(selection.persist_mode, PersistMode::DoNot);
        }
        other => panic!("{:?}", other),
    }

    let (mut session, _) = ScreenCapturer::new(CaptureOptions::default()).start();
    feed(&mut session, CaptureEvent::PortalOpened(Ok(())));
    match feed(&mut session, CaptureEvent::SessionCreated(Ok(()))) {
        CaptureAction::SelectSources(selection) => {
            assert_eq!(selection.cursor_mode, CursorMode::Hidden);
            assert_eq!(selection.types, vec![SourceType::Monitor]);
            assert!(selection.restore_token.is_none());
        }
        other => panic!("{:?}", other),
    }
}

#[test]
fn every_kind_of_content_can_be_asked_for() {
    let kinds = [
        (PortalSourceType::Monitor, SourceType::Monitor),
        (PortalSourceType::Window, SourceType::Window),
        (PortalSourceType::Virtual, SourceType::Virtual),
    ];
    for (source_type, wanted) in kinds {
        let options = CaptureOptions { source_type, ..CaptureOptions::default() };
        let (mut session, _) = ScreenCapturer::new(options).start();
        feed(&mut session, CaptureEvent::PortalOpened(Ok(())));
        match feed(&mut session, CaptureEvent::SessionCreated(Ok(()))) {
            CaptureAction::SelectSources(selection) => {
                assert_eq!(selection.types, vec![wanted]);
            }
            other => panic!("{:?}", other),
        }
    }
}

#[test]
fn every_request_can_fail() {
    let (mut session, _) = ScreenCapturer::new(CaptureOptions::default()).start();
    feed(&mut session, CaptureEvent::PortalOpened(Ok(())));
    let action = feed(
        &mut session,
        CaptureEvent::SessionCreated(Err(ashpd::Error::NoResponse)),
    );
    assert!(matches!(
        finished(action),
        Err(CaptureError::Portal(ashpd::Error::NoResponse))
    ));

    let mut session = up_to_cast(CaptureOptions::default());
    let action = feed(
        &mut session,
        CaptureEvent::CastStarted(CastReply::Failed(ashpd::Error::InvalidAppID)),
    );
    assert!(matches!(
        finished(action),
        Err(CaptureError::Portal(ashpd::Error::InvalidAppID))
    ));

    let mut session = up_to_cast(CaptureOptions::default());
    let action = feed(
        &mut session,
        CaptureEvent::CastStarted(CastReply::Refused("cancelled".to_owned())),
    );
    let error = finished(action).unwrap_err();
    assert_eq!(error.to_string(), "Internal error: portal start response: cancelled");

    let mut session = up_to_cast(CaptureOptions::default());
    let action = feed(&mut session, CaptureEvent::CastStarted(CastReply::Streams(Vec::new())));
    let error = finished(action).unwrap_err();
    assert_eq!(error.to_string(), "Internal error: portal returned no streams");

    let mut session = up_to_cast(CaptureOptions::default());
    feed(&mut session, CaptureEvent::CastStarted(CastReply::Streams(vec![1])));
    let action = feed(
        &mut session,
        CaptureEvent::RemoteOpened(Err(ashpd::Error::NoResponse)),
    );
    assert!(matches!(finished(action), Err(CaptureError::Portal(_))));
}

#[test]
fn a_session_ignores_what_it_does_not_wait_for() {
    let (mut session, _) = ScreenCapturer::new(CaptureOptions::default()).start();
    assert!(session.on_event(CaptureEvent::RemoteOpened(Ok(3))).is_none());
    assert!(session.on_event(CaptureEvent::SourcesSelected(Ok(()))).is_none());
    assert!(matches!(
        feed(&mut session, CaptureEvent::PortalOpened(Ok(()))),
        CaptureAction::CreateSession
    ));
}

#[test]
fn capture_errors_say_what_went_wrong() {
    assert_eq!(
        CaptureError::from(ashpd::Error::NoResponse).to_string(),
        "XDG portal error: Portal error: no response"
    );
    assert_eq!(portal_failure_text("x"), "XDG portal error: x");
    assert_eq!(
        CaptureError::Unavailable("no portal".to_owned()).to_string(),
        "Capture back-end unavailable: no portal"
    );
    assert_eq!(
        CaptureError::NotStarted.to_string(),
        "PipeWire FD not yet available – call start() first"
    );
    assert_eq!(CaptureError::Internal("x".to_owned()).to_string(), "Internal error: x");
}
