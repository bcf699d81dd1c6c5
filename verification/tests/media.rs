use lnxcast::media::{
    detect_encoder, BuildAction, BuildEvent, ElementPlan, EncoderBackend, MediaError,
    MediaPipeline, MediaResult, PipelineBuild, PipelineConfig, PropertyValue,
};

/// A machine on which some factories are missing.
struct Machine {
    missing: Vec<&'static str>,
    made: Vec<ElementPlan>,
}

impl Machine {
    fn without(missing: &[&'static str]) -> Machine {
        Machine { missing: missing.to_vec(), made: Vec::new() }
    }

    fn has(&self, factory: &str) -> bool {
        !self.missing.contains(&factory)
    }

    fn build(&mut self, config: &PipelineConfig) -> MediaResult<MediaPipeline> {
        let (mut build, mut action): (PipelineBuild, BuildAction) = MediaPipeline::build(config);
        loop {
            let event = match action {
                BuildAction::Initialise => BuildEvent::Initialised(Ok(())),
                BuildAction::FindFactory(name) => BuildEvent::FactoryFound(self.has(name)),
                BuildAction::CreatePipeline(name) => {
                    assert_eq!(name, "lnxcast-pipeline");
                    BuildEvent::Created
                }
                BuildAction::Make(plan) => {
                    let ok = self.has(plan.factory);
                    if ok {
                        self.made.push(plan);
                    }
                    BuildEvent::Made(ok)
                }
                BuildAction::AddAll => BuildEvent::Added(Ok(())),
                BuildAction::LinkAll => BuildEvent::Linked(Ok(())),
                BuildAction::Finish(result) => return result,
            };
            action = build.on_event(event).expect("the build waits for this");
        }
    }

    fn element_by_name(&self, name: &str) -> Option<&ElementPlan> {
        self.made.iter().find(|e| e.name == Some(name))
    }
}

fn property<'a>(element: &'a ElementPlan, name: &str) -> &'a PropertyValue {
    &element.properties.iter().find(|p| p.name == name).expect("no such property").value
}

#[test]
fn test_pipeline_construction() {
    let config = PipelineConfig { pipewire_node_id: 42, ..Default::default() };
    let mut machine = Machine::without(&[]);
    match machine.build(&config) {
        Ok(mp) => {
            println!("Pipeline built with encoder: {}", mp.encoder().to_string());
            assert!(
                machine.element_by_name("lnxcast-encoder").is_some(),
                "encoder element must be reachable by name"
            );
        }
        Err(e) => panic!("Unexpected error building pipeline: {:?}", e),
    }

    let mut machine = Machine::without(&["pipewiresrc"]);
    match machine.build(&config) {
        Err(MediaError::ElementCreate { name }) => assert_eq!(name, "pipewiresrc"),
        other => panic!("{:?}", other),
    }
}

#[test]
fn test_pipeline_software_encoder_override() {
    let config = PipelineConfig {
        encoder_override: Some(EncoderBackend::X264Software),
        ..Default::default()
    };
    match Machine::without(&[]).build(&config) {
        Ok(mp) => assert_eq!(mp.encoder(), EncoderBackend::X264Software),
        Err(e) => panic!("{:?}", e),
    }
}

#[test]
fn test_pipeline_hardware_encoder_override() {
    let config = PipelineConfig {
        encoder_override: Some(EncoderBackend::VaapiHardware),
        ..Default::default()
    };
    match Machine::without(&[]).build(&config) {
        Ok(mp) => assert_eq!(mp.encoder(), EncoderBackend::VaapiHardware),
        Err(e) => panic!("{:?}", e),
    }
    match Machine::without(&["vaapih264enc"]).build(&config) {
        Err(MediaError::ElementCreate { name }) => assert_eq!(name, "vaapih264enc"),
        other => panic!("{:?}", other),
    }
}

/// `EncoderBackend`'s text must not be empty.
#[test]
fn test_encoder_backend_display() {
    assert!(!EncoderBackend::VaapiHardware.to_string().is_empty());
    assert!(!EncoderBackend::X264Software.to_string().is_empty());
}

#[test]
fn encoders_are_named() {
    assert_eq!(EncoderBackend::VaapiHardware.to_string(), "vaapih264enc (hardware)");
    assert_eq!(EncoderBackend::X264Software.to_string(), "x264enc (software)");
    assert_eq!(EncoderBackend::VaapiHardware.factory(), "vaapih264enc");
    assert_eq!(EncoderBackend::X264Software.factory(), "x264enc");
}

#[test]
fn the_hardware_encoder_is_preferred() {
    assert_eq!(detect_encoder(true), EncoderBackend::VaapiHardware);
    assert_eq!(detect_encoder(false), EncoderBackend::X264Software);
    let config = PipelineConfig::default();
    assert_eq!(
        Machine::without(&[]).build(&config).unwrap().encoder(),
        EncoderBackend::VaapiHardware
    );
    assert_eq!(
        Machine::without(&["vaapih264enc"]).build(&config).unwrap().encoder(),
        EncoderBackend::X264Software
    );
    match Machine::without(&["vaapih264enc", "x264enc"]).build(&config) {
        Err(MediaError::ElementCreate { name }) => assert_eq!(name, "x264enc"),
        other => panic!("{:?}", other),
    }
}

#[test]
fn pipeline_config_defaults() {
    let config = PipelineConfig::default();
    assert_eq!(config.pipewire_fd, -1);
    assert_eq!(config.pipewire_node_id, 0);
    assert_eq!(config.bitrate_kbps, 4_000);
    assert_eq!(config.framerate, 30);
    assert_eq!(config.max_width, 1920);
    assert_eq!(config.max_height, 1080);
    assert!(config.encoder_override.is_none());
}

#[test]
fn the_elements_are_made_in_order() {
    let config = PipelineConfig {
        pipewire_fd: 9,
        pipewire_node_id: 42,
        bitrate_kbps: 2500,
        framerate: 60,
        ..Default::default()
    };
    let mut machine = Machine::without(&["vaapih264enc"]);
    machine.build(&config).unwrap();
    let factories: Vec<&str> = machine.made.iter().map(|e| e.factory).collect();
    assert_eq!(
        factories,
        vec![
            "pipewiresrc",
            "videoconvert",
            "videoscale",
            "videorate",
            "x264enc",
            "h264parse",
            "capsfilter",
            "rtph264pay",
            "appsink",
        ]
    );
    let made = &machine.made;
    assert!(matches!(property(&made[0], "fd"), PropertyValue::Int(9)));
    assert!(matches!(property(&made[0], "path"), PropertyValue::Text(t) if t == "42"));
    assert!(matches!(property(&made[0], "do-timestamp"), PropertyValue::Bool(true)));
    assert!(made[1].properties.is_empty());
    assert!(matches!(property(&made[2], "method"), PropertyValue::Parsed("bilinear")));
    assert!(matches!(property(&made[3], "max-rate"), PropertyValue::Int(60)));
    assert!(matches!(property(&made[3], "drop-only"), PropertyValue::Parsed("true")));
    assert!(matches!(property(&made[4], "bitrate"), PropertyValue::UInt(2500)));
    assert!(matches!(property(&made[4], "tune"), PropertyValue::Parsed("zerolatency")));
    assert!(matches!(property(&made[4], "speed-preset"), PropertyValue::Parsed("ultrafast")));
    assert!(made[5].properties.is_empty());
    match property(&made[6], "caps") {
        PropertyValue::Caps { media, fields } => {
            assert_eq!(*media, "video/x-h264");
            assert_eq!(*fields, vec![("stream-format", "byte-stream"), ("alignment", "au")]);
        }
        other => panic!("{:?}", other),
    }
    assert!(matches!(property(&made[7], "config-interval"), PropertyValue::Int(1)));
    assert!(matches!(property(&made[7], "pt"), PropertyValue::UInt(96)));
    assert!(matches!(property(&made[8], "emit-signals"), PropertyValue::Bool(true)));
    assert!(matches!(property(&made[8], "sync"), PropertyValue::Bool(false)));
    assert_eq!(machine.element_by_name("lnxcast-encoder").unwrap().factory, "x264enc");
}

#[test]
fn the_hardware_encoder_runs_at_a_constant_rate() {
    let mut machine = Machine::without(&[]);
    machine.build(&PipelineConfig::default()).unwrap();
    let encoder = machine.element_by_name("lnxcast-encoder").unwrap();
    assert_eq!(encoder.factory, "vaapih264enc");
    assert!(matches!(property(encoder, "bitrate"), PropertyValue::UInt(4000)));
    assert!(matches!(property(encoder, "rate-control"), PropertyValue::Parsed("cbr")));
    assert_eq!(encoder.properties.len(), 2);
}

#[test]
fn a_frame_rate_out_of_range_wraps() {
    let config = PipelineConfig { framerate: u32::MAX, ..Default::default() };
    let mut machine = Machine::without(&[]);
    machine.build(&config).unwrap();
    assert!(matches!(property(&machine.made[3], "max-rate"), PropertyValue::Int(-1)));
}

#[test]
fn builds_fail_with_their_cause() {
    let config = PipelineConfig {
        encoder_override: Some(EncoderBackend::X264Software),
        ..Default::default()
    };
    let (mut build, _) = MediaPipeline::build(&config);
    match build.on_event(BuildEvent::Initialised(Err("no registry".to_owned()))) {
        Some(BuildAction::Finish(Err(MediaError::Init(text)))) => assert_eq!(text, "no registry"),
        other => panic!("{:?}", other),
    }

    for at_link in [false, true] {
        let (mut build, _) = MediaPipeline::build(&config);
        assert!(build.on_event(BuildEvent::Created).is_none());
        build.on_event(BuildEvent::Initialised(Ok(()))).unwrap();
        build.on_event(BuildEvent::Created).unwrap();
        for _ in 0..9 {
            build.on_event(BuildEvent::Made(true)).unwrap();
        }
        let event = if at_link {
            build.on_event(BuildEvent::Added(Ok(()))).unwrap();
            BuildEvent::Linked(Err("pads".to_owned()))
        } else {
            BuildEvent::Added(Err("pads".to_owned()))
        };
        match build.on_event(event) {
            Some(BuildAction::Finish(Err(MediaError::Link(text)))) => assert_eq!(text, "pads"),
            other => panic!("{:?}", other),
        }
    }
}

#[test]
fn state_changes_can_fail() {
    let pipeline = Machine::without(&[]).build(&PipelineConfig::default()).unwrap();
    assert!(pipeline.play(Ok(())).is_ok());
    assert!(pipeline.stop(Ok(())).is_ok());
    assert!(matches!(
        pipeline.play(Err("busy".to_owned())),
        Err(MediaError::StateChange(t)) if t == "busy"
    ));
    assert!(matches!(
        pipeline.stop(Err("busy".to_owned())),
        Err(MediaError::StateChange(t)) if t == "busy"
    ));
}

#[test]
fn media_errors_say_what_went_wrong() {
    assert_eq!(
        MediaError::Init("x".to_owned()).to_string(),
        "GStreamer initialisation failed: x"
    );
    assert_eq!(
        MediaError::ElementCreate { name: "x264enc" }.to_string(),
        "Element `x264enc` could not be created: plugin missing?"
    );
    assert_eq!(MediaError::Link("x".to_owned()).to_string(), "Failed to link elements: x");
    assert_eq!(
        MediaError::StateChange("x".to_owned()).to_string(),
        "Pipeline state change failed: x"
    );
    assert_eq!(MediaError::Internal("x".to_owned()).to_string(), "Internal error: x");
}
