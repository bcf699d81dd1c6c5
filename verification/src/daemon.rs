//! The order in which the daemon comes up and goes down.
//!
//! ```text
//! 1. refuse to run as root       5. scan for sinks, in the background
//! 2. detect the capture back-end 6. serve the stream until interrupted
//! 3. capture the screen          7. stop the pipeline
//! 4. build and start the pipeline
//! ```
//!
//! A pipeline that was built is stopped, also where a later step fails.
//!
//! [`Daemon`] says what to do next; the program around it does it, and hands
//! back what came of it.

use crate::capture::{CaptureBackend, CaptureOptions, PortalSourceType};
use crate::media::PipelineConfig;
use crate::net::scanner::WpaSupplicantScanner;
use crate::server::ServerConfig;
use crate::text::opt_view;
use vstd::prelude::*;
use vstd::string::*;

verus! {

/// What is said to root.
pub const ROOT_REFUSED: &'static str =
    "lnxcast must NOT be run with sudo / as root.\nThe XDG Desktop Portal for screen capture runs in your Wayland session as your normal user and is not accessible to root.\nwpa_supplicant is reachable via the system D-Bus without elevated privileges.  Run: ./lnxcast";

/// What is said where the screen cannot be captured.
pub const NO_BACKEND: &'static str =
    "No screen-capture back-end available.\nEnsure xdg-desktop-portal (and a compositor-specific back-end such as xdg-desktop-portal-gnome or xdg-desktop-portal-wlr) is running inside your Wayland session.\nHint: check with: systemctl --user status xdg-desktop-portal";

/// Why the daemon gave up. The causes of the last five are known to whoever
/// performed the action.
#[derive(Debug, Clone, Copy, PartialEq, Eq, Structural)]
pub enum DaemonError {
    /// It was run as root.
    Root,
    /// The screen cannot be captured.
    NoBackend,
    /// The capture failed.
    Capture,
    /// The pipeline could not be built.
    Build,
    /// The pipeline could not be started.
    Play,
    /// The server could not be made.
    Server,
    /// The server failed.
    Serve,
}

impl DaemonError {
    /// What is said of an error.
    pub open spec fn text(self) -> Seq<char> {
        match self {
            DaemonError::Root => ROOT_REFUSED@,
            DaemonError::NoBackend => NO_BACKEND@,
            DaemonError::Capture => "Failed to open PipeWire capture stream"@,
            DaemonError::Build => "Failed to build GStreamer pipeline"@,
            DaemonError::Play => "Failed to start pipeline"@,
            DaemonError::Server => "Failed to create RTSP server"@,
            DaemonError::Serve => "RTSP server error"@,
        }
    }

    /// What is said of the error.
    pub fn to_string(&self) -> (r: String)
        ensures
            r@ == self.text(),
    {
        match self {
            DaemonError::Root => ROOT_REFUSED.to_owned(),
            DaemonError::NoBackend => NO_BACKEND.to_owned(),
            DaemonError::Capture => "Failed to open PipeWire capture stream".to_owned(),
            DaemonError::Build => "Failed to build GStreamer pipeline".to_owned(),
            DaemonError::Play => "Failed to start pipeline".to_owned(),
            DaemonError::Server => "Failed to create RTSP server".to_owned(),
            DaemonError::Serve => "RTSP server error".to_owned(),
        }
    }
}

/// What to do next.
pub enum DaemonAction {
    /// Get the effective user id.
    ReadUser,
    /// Detect the capture back-end.
    DetectBackend,
    /// Capture the screen.
    Capture(CaptureOptions),
    /// Build the pipeline.
    Build(PipelineConfig),
    /// Start the pipeline.
    Play,
    /// Read the variable `LNXCAST_IFACE`.
    ReadInterface,
    /// Run this scanner in the background.
    Scan(WpaSupplicantScanner),
    /// Make a server.
    CreateServer(ServerConfig),
    /// Run the server until the daemon is interrupted.
    Serve,
    /// Stop the pipeline, whether or not it likes it.
    StopPipeline,
    /// The daemon is done.
    Finish(Result<(), DaemonError>),
}

/// What a [`DaemonAction`] holds, as plain values.
pub enum DaemonActionView {
    ReadUser,
    DetectBackend,
    Capture {
        include_cursor: bool,
        source_type: PortalSourceType,
        restore_token: Option<Seq<char>>,
    },
    Build(PipelineConfig),
    Play,
    ReadInterface,
    Scan { interface: Option<Seq<char>>, timeout: i32 },
    CreateServer { address: Seq<char>, port: u16, path: Seq<char>, launch: Option<Seq<char>> },
    Serve,
    StopPipeline,
    Finish(Result<(), DaemonError>),
}

impl View for DaemonAction {
    type V = DaemonActionView;

    open spec fn view(&self) -> DaemonActionView {
        match self {
            DaemonAction::ReadUser => DaemonActionView::ReadUser,
            DaemonAction::DetectBackend => DaemonActionView::DetectBackend,
            DaemonAction::Capture(options) => DaemonActionView::Capture {
                include_cursor: options.include_cursor,
                source_type: options.source_type,
                restore_token: opt_view(options.restore_token),
            },
            DaemonAction::Build(config) => DaemonActionView::Build(*config),
            DaemonAction::Play => DaemonActionView::Play,
            DaemonAction::ReadInterface => DaemonActionView::ReadInterface,
            DaemonAction::Scan(scanner) => DaemonActionView::Scan {
                interface: opt_view(scanner.interface),
                timeout: scanner.scan_timeout_secs,
            },
            DaemonAction::CreateServer(config) => DaemonActionView::CreateServer {
                address: config.bind_address@,
                port: config.port,
                path: config.mount_path@,
                launch: opt_view(config.launch_pipeline),
            },
            DaemonAction::Serve => DaemonActionView::Serve,
            DaemonAction::StopPipeline => DaemonActionView::StopPipeline,
            DaemonAction::Finish(result) => DaemonActionView::Finish(*result),
        }
    }
}

/// What came of an action.
#[derive(Debug)]
pub enum DaemonEvent {
    /// The effective user id.
    User(u32),
    /// The capture back-end.
    Backend(CaptureBackend),
    /// The file descriptor and the node of the capture; `None` if it failed.
    Captured(Option<(i32, u32)>),
    /// Whether the pipeline was built.
    Built(bool),
    /// Whether the pipeline was started.
    Playing(bool),
    /// The value of `LNXCAST_IFACE`, if it is set.
    Interface(Option<String>),
    /// The scanner is running.
    Scanning,
    /// Whether there is a server.
    ServerCreated(bool),
    /// Whether the server ended well.
    Served(bool),
    /// The pipeline was told to stop.
    PipelineStopped,
}

/// What a [`DaemonEvent`] holds, as plain values.
pub enum DaemonEventView {
    User(u32),
    Backend(CaptureBackend),
    Captured(Option<(i32, u32)>),
    Built(bool),
    Playing(bool),
    Interface(Option<Seq<char>>),
    Scanning,
    ServerCreated(bool),
    Served(bool),
    PipelineStopped,
}

impl View for DaemonEvent {
    type V = DaemonEventView;

    open spec fn view(&self) -> DaemonEventView {
        match self {
            DaemonEvent::User(euid) => DaemonEventView::User(*euid),
            DaemonEvent::Backend(backend) => DaemonEventView::Backend(*backend),
            DaemonEvent::Captured(stream) => DaemonEventView::Captured(*stream),
            DaemonEvent::Built(ok) => DaemonEventView::Built(*ok),
            DaemonEvent::Playing(ok) => DaemonEventView::Playing(*ok),
            DaemonEvent::Interface(name) => DaemonEventView::Interface(opt_view(*name)),
            DaemonEvent::Scanning => DaemonEventView::Scanning,
            DaemonEvent::ServerCreated(ok) => DaemonEventView::ServerCreated(*ok),
            DaemonEvent::Served(ok) => DaemonEventView::Served(*ok),
            DaemonEvent::PipelineStopped => DaemonEventView::PipelineStopped,
        }
    }
}

/// What the daemon waits for. While the pipeline is being stopped, it is settled
/// how the daemon ends.
#[derive(Debug, Clone, Copy, PartialEq, Eq)]
pub enum DaemonStage {
    User,
    Backend,
    Capture,
    Build,
    Play,
    Interface,
    Scan,
    Server,
    Serve,
    Stop { result: Result<(), DaemonError> },
    Over,
}

/// The pipeline for a capture: 4000 kbit/s at thirty frames per second, and
/// else as by default.
pub open spec fn config_for(fd: i32, node_id: u32) -> PipelineConfig {
    PipelineConfig {
        pipewire_fd: fd,
        pipewire_node_id: node_id,
        bitrate_kbps: 4_000,
        framerate: 30,
        max_width: 1920,
        max_height: 1080,
        encoder_override: None,
    }
}

/// The daemon stops the pipeline and then ends with `result`.
pub open spec fn wind_up(result: Result<(), DaemonError>) -> (DaemonStage, DaemonActionView) {
    (DaemonStage::Stop { result }, DaemonActionView::StopPipeline)
}

/// The daemon gives up, with no pipeline to stop.
pub open spec fn give_up(error: DaemonError) -> (DaemonStage, DaemonActionView) {
    (DaemonStage::Over, DaemonActionView::Finish(Err(error)))
}

/// One step of the daemon: what it waits for after an answer and what it does
/// then. `None` for an answer that it does not wait for.
pub open spec fn daemon_step(
    stage: DaemonStage,
    event: DaemonEventView,
) -> Option<(DaemonStage, DaemonActionView)> {
    match (stage, event) {
        (DaemonStage::User, DaemonEventView::User(euid)) => Some(
            if euid == 0 {
                give_up(DaemonError::Root)
            } else {
                (DaemonStage::Backend, DaemonActionView::DetectBackend)
            },
        ),
        (DaemonStage::Backend, DaemonEventView::Backend(backend)) => Some(
            match backend {
                CaptureBackend::PipeWirePortal => (
                    DaemonStage::Capture,
                    DaemonActionView::Capture {
                        include_cursor: false,
                        source_type: PortalSourceType::Monitor,
                        restore_token: None,
                    },
                ),
                CaptureBackend::Unavailable => give_up(DaemonError::NoBackend),
            },
        ),
        (DaemonStage::Capture, DaemonEventView::Captured(stream)) => Some(
            match stream {
                Some((fd, node_id)) => (
                    DaemonStage::Build,
                    DaemonActionView::Build(config_for(fd, node_id)),
                ),
                None => give_up(DaemonError::Capture),
            },
        ),
        (DaemonStage::Build, DaemonEventView::Built(ok)) => Some(
            if ok {
                (DaemonStage::Play, DaemonActionView::Play)
            } else {
                give_up(DaemonError::Build)
            },
        ),
        (DaemonStage::Play, DaemonEventView::Playing(ok)) => Some(
            if ok {
                (DaemonStage::Interface, DaemonActionView::ReadInterface)
            } else {
                wind_up(Err(DaemonError::Play))
            },
        ),
        (DaemonStage::Interface, DaemonEventView::Interface(interface)) => Some(
            (DaemonStage::Scan, DaemonActionView::Scan { interface, timeout: 30 }),
        ),
        (DaemonStage::Scan, DaemonEventView::Scanning) => Some(
            (
                DaemonStage::Server,
                DaemonActionView::CreateServer {
                    address: "0.0.0.0"@,
                    port: 7236,
                    path: "/live"@,
                    launch: None,
                },
            ),
        ),
        (DaemonStage::Server, DaemonEventView::ServerCreated(ok)) => Some(
            if ok {
                (DaemonStage::Serve, DaemonActionView::Serve)
            } else {
                wind_up(Err(DaemonError::Server))
            },
        ),
        (DaemonStage::Serve, DaemonEventView::Served(ok)) => Some(
            if ok {
                wind_up(Ok(()))
            } else {
                wind_up(Err(DaemonError::Serve))
            },
        ),
        (DaemonStage::Stop { result }, DaemonEventView::PipelineStopped) => Some(
            (DaemonStage::Over, DaemonActionView::Finish(result)),
        ),
        _ => None,
    }
}

/// The daemon.
pub struct Daemon {
    stage: DaemonStage,
}

/// Stops the pipeline, to end with `result` then.
fn stop_with(result: Result<(), DaemonError>) -> (r: (DaemonStage, Option<DaemonAction>))
    ensures
        r.1 is Some,
        (r.0, r.1->0@) == wind_up(result),
{
    (DaemonStage::Stop { result }, Some(DaemonAction::StopPipeline))
}

/// Gives up with an error.
fn fail_with(error: DaemonError) -> (r: (DaemonStage, Option<DaemonAction>))
    ensures
        r.1 is Some,
        (r.0, r.1->0@) == give_up(error),
{
    (DaemonStage::Over, Some(DaemonAction::Finish(Err(error))))
}

impl Daemon {
    /// What the daemon waits for.
    pub closed spec fn stage(&self) -> DaemonStage {
        self.stage
    }

    /// Begins to bring the daemon up.
    pub fn begin() -> (r: (Daemon, DaemonAction))
        ensures
            r.0.stage() == DaemonStage::User,
            r.1@ == DaemonActionView::ReadUser,
    {
        (Daemon { stage: DaemonStage::User }, DaemonAction::ReadUser)
    }

    /// The scanner for the value of `LNXCAST_IFACE`: one for that interface, or
    /// one that searches for its interface where the variable is not set.
    pub fn choose_scanner(interface: Option<String>) -> (r: WpaSupplicantScanner)
        ensures
            r.interface == interface,
            r.scan_timeout_secs == 30,
    {
        match interface {
            Some(name) => WpaSupplicantScanner::new(name),
            None => WpaSupplicantScanner::auto(),
        }
    }

    /// Takes in what came of the last action and says what to do next. An
    /// answer that the daemon does not wait for changes nothing.
    pub fn on_event(&mut self, event: DaemonEvent) -> (r: Option<DaemonAction>)
        ensures
            match daemon_step(old(self).stage(), event@) {
                Some((stage, action)) => final(self).stage() == stage && r is Some && r->0@
                    == action,
                None => final(self).stage() == old(self).stage() && r is None,
            },
    {
        let (stage, action): (DaemonStage, Option<DaemonAction>) = match (self.stage, event) {
            (DaemonStage::User, DaemonEvent::User(euid)) => {
                if euid == 0 {
                    fail_with(DaemonError::Root)
                } else {
                    (DaemonStage::Backend, Some(DaemonAction::DetectBackend))
                }
            },
            (DaemonStage::Backend, DaemonEvent::Backend(backend)) => {
                if backend.is_available() {
                    (
                        DaemonStage::Capture,
                        Some(DaemonAction::Capture(CaptureOptions::default())),
                    )
                } else {
                    fail_with(DaemonError::NoBackend)
                }
            },
            (DaemonStage::Capture, DaemonEvent::Captured(stream)) => match stream {
                Some((fd, node_id)) => {
                    let config: PipelineConfig = PipelineConfig {
                        pipewire_fd: fd,
                        pipewire_node_id: node_id,
                        bitrate_kbps: 4_000,
                        framerate: 30,
                        ..PipelineConfig::default()
                    };
                    (DaemonStage::Build, Some(DaemonAction::Build(config)))
                },
                None => fail_with(DaemonError::Capture),
            },
            (DaemonStage::Build, DaemonEvent::Built(ok)) => {
                if ok {
                    (DaemonStage::Play, Some(DaemonAction::Play))
                } else {
                    fail_with(DaemonError::Build)
                }
            },
            (DaemonStage::Play, DaemonEvent::Playing(ok)) => {
                if ok {
                    (DaemonStage::Interface, Some(DaemonAction::ReadInterface))
                } else {
                    stop_with(Err(DaemonError::Play))
                }
            },
            (DaemonStage::Interface, DaemonEvent::Interface(interface)) => {
                let scanner: WpaSupplicantScanner = Daemon::choose_scanner(interface);
                (DaemonStage::Scan, Some(DaemonAction::Scan(scanner)))
            },
            (DaemonStage::Scan, DaemonEvent::Scanning) => {
                (
                    DaemonStage::Server,
                    Some(DaemonAction::CreateServer(ServerConfig::default())),
                )
            },
            (DaemonStage::Server, DaemonEvent::ServerCreated(ok)) => {
                if ok {
                    (DaemonStage::Serve, Some(DaemonAction::Serve))
                } else {
                    stop_with(Err(DaemonError::Server))
                }
            },
            (DaemonStage::Serve, DaemonEvent::Served(ok)) => {
                if ok {
                    stop_with(Ok(()))
                } else {
                    stop_with(Err(DaemonError::Serve))
                }
            },
            (DaemonStage::Stop { result }, DaemonEvent::PipelineStopped) => {
                (DaemonStage::Over, Some(DaemonAction::Finish(result)))
            },
            (stage, _) => (stage, None),
        };
        self.stage = stage;
        action
    }
}

// ---------------------------------------------------------------------------
// Where the daemon gets
// ---------------------------------------------------------------------------

/// All that the daemon can be told.
pub struct DaemonWorld {
    pub euid: u32,
    pub backend: CaptureBackend,
    pub stream: Option<(i32, u32)>,
    pub built: bool,
    pub playing: bool,
    pub interface: Option<Seq<char>>,
    pub server: bool,
    pub served: bool,
}

impl DaemonWorld {
    /// The answer to what the daemon waits for.
    pub open spec fn answer(self, stage: DaemonStage) -> DaemonEventView {
        match stage {
            DaemonStage::User => DaemonEventView::User(self.euid),
            DaemonStage::Backend => DaemonEventView::Backend(self.backend),
            DaemonStage::Capture => DaemonEventView::Captured(self.stream),
            DaemonStage::Build => DaemonEventView::Built(self.built),
            DaemonStage::Play => DaemonEventView::Playing(self.playing),
            DaemonStage::Interface => DaemonEventView::Interface(self.interface),
            DaemonStage::Scan => DaemonEventView::Scanning,
            DaemonStage::Server => DaemonEventView::ServerCreated(self.server),
            DaemonStage::Serve => DaemonEventView::Served(self.served),
            DaemonStage::Stop { .. } => DaemonEventView::PipelineStopped,
            DaemonStage::Over => DaemonEventView::PipelineStopped,
        }
    }
}

/// How many answers can still come.
pub open spec fn daemon_left(stage: DaemonStage) -> nat {
    match stage {
        DaemonStage::User => 10,
        DaemonStage::Backend => 9,
        DaemonStage::Capture => 8,
        DaemonStage::Build => 7,
        DaemonStage::Play => 6,
        DaemonStage::Interface => 5,
        DaemonStage::Scan => 4,
        DaemonStage::Server => 3,
        DaemonStage::Serve => 2,
        DaemonStage::Stop { .. } => 1,
        DaemonStage::Over => 0,
    }
}

/// What the daemon that waits at `stage` does from there on.
pub open spec fn daemon_run(world: DaemonWorld, stage: DaemonStage) -> Seq<DaemonActionView>
    decreases daemon_left(stage),
{
    match daemon_step(stage, world.answer(stage)) {
        Some((next, action)) => seq![action] + daemon_run(world, next),
        None => Seq::empty(),
    }
}

/// How the daemon ends: with the first thing that fails, or well.
pub open spec fn daemon_outcome(world: DaemonWorld) -> Result<(), DaemonError> {
    if world.euid == 0 {
        Err(DaemonError::Root)
    } else if world.backend is Unavailable {
        Err(DaemonError::NoBackend)
    } else if world.stream is None {
        Err(DaemonError::Capture)
    } else if !world.built {
        Err(DaemonError::Build)
    } else if !world.playing {
        Err(DaemonError::Play)
    } else if !world.server {
        Err(DaemonError::Server)
    } else if !world.served {
        Err(DaemonError::Serve)
    } else {
        Ok(())
    }
}

/// The daemon always ends, and as `daemon_outcome` says.
pub proof fn law_daemon_ends_with_the_outcome(world: DaemonWorld)
    ensures
        daemon_run(world, DaemonStage::User).len() > 0,
        daemon_run(world, DaemonStage::User).last() == DaemonActionView::Finish(
            daemon_outcome(world),
        ),
{
    reveal_with_fuel(daemon_run, 12);
}

/// Whether the daemon gets to have a pipeline.
pub open spec fn has_pipeline(world: DaemonWorld) -> bool {
    world.euid != 0 && world.backend is PipeWirePortal && world.stream is Some && world.built
}

/// A pipeline that was built is stopped as the last thing before the daemon
/// ends, whatever fails in between; and where none was built, none is stopped.
pub proof fn law_built_pipeline_is_stopped(world: DaemonWorld)
    ensures
        ({
            let run = daemon_run(world, DaemonStage::User);
            if has_pipeline(world) {
                run.len() >= 2 && run[run.len() - 2] == DaemonActionView::StopPipeline
            } else {
                forall|i: int|
                    0 <= i < run.len() ==> #[trigger] run[i] != DaemonActionView::StopPipeline
            }
        }),
{
    reveal_with_fuel(daemon_run, 12);
}

/// Whether the pipeline likes to be stopped has no say in how the daemon ends:
/// it ends as was settled before.
pub proof fn law_stopping_keeps_the_result(result: Result<(), DaemonError>)
    ensures
        daemon_step(DaemonStage::Stop { result }, DaemonEventView::PipelineStopped) == Some(
            (DaemonStage::Over, DaemonActionView::Finish(result)),
        ),
{
}

/// Run as root, the daemon does nothing but refuse.
pub proof fn law_root_is_refused_at_once(world: DaemonWorld)
    requires
        world.euid == 0,
    ensures
        daemon_run(world, DaemonStage::User) == seq![
            DaemonActionView::Finish(Err(DaemonError::Root)),
        ],
{
    reveal_with_fuel(daemon_run, 3);
}

/// Where nothing fails, the pipeline is built for the very stream that was
/// captured, the default server is run, and the pipeline is stopped at the end.
pub proof fn law_daemon_serves_what_it_captures(world: DaemonWorld)
    requires
        daemon_outcome(world) is Ok,
    ensures
        daemon_run(world, DaemonStage::User) == seq![
            DaemonActionView::DetectBackend,
            DaemonActionView::Capture {
                include_cursor: false,
                source_type: PortalSourceType::Monitor,
                restore_token: None,
            },
            DaemonActionView::Build(config_for((world.stream->0).0, (world.stream->0).1)),
            DaemonActionView::Play,
            DaemonActionView::ReadInterface,
            DaemonActionView::Scan { interface: world.interface, timeout: 30 },
            DaemonActionView::CreateServer {
                address: "0.0.0.0"@,
                port: 7236,
                path: "/live"@,
                launch: None,
            },
            DaemonActionView::Serve,
            DaemonActionView::StopPipeline,
            DaemonActionView::Finish(Ok(())),
        ],
{
    reveal_with_fuel(daemon_run, 12);
}

/// The pipeline is built for the very stream that was captured: its descriptor
/// and its node, whatever they are; the rest is as by default.
pub proof fn law_pipeline_is_built_for_the_stream(fd: i32, node_id: u32, default: PipelineConfig)
    requires
        call_ensures(<PipelineConfig as Default>::default, (), default),
    ensures
        daemon_step(DaemonStage::Capture, DaemonEventView::Captured(Some((fd, node_id)))) matches Some(
            (stage, DaemonActionView::Build(config)),
        ) && {
            &&& stage == DaemonStage::Build
            &&& config.pipewire_fd == fd
            &&& config.pipewire_node_id == node_id
            &&& config.bitrate_kbps == 4_000
            &&& config.framerate == 30
            &&& config.max_width == default.max_width
            &&& config.max_height == default.max_height
            &&& config.encoder_override is None
        },
{
}

/// The sinks are searched for with the interface that the variable names, as it
/// names it, or with none where it is not set.
pub proof fn law_variable_names_the_interface(
    interface: Option<String>,
    scanner: WpaSupplicantScanner,
)
    requires
        call_ensures(Daemon::choose_scanner, (interface,), scanner),
    ensures
        interface matches Some(name) ==> scanner.interface is Some && scanner.interface->0@ == name@,
        interface is None ==> scanner.interface is None,
        daemon_step(DaemonStage::Interface, DaemonEventView::Interface(opt_view(interface)))
            matches Some((stage, action)) && {
            &&& stage == DaemonStage::Scan
            &&& action is Scan
            &&& interface matches Some(name) ==> action->interface == Some(name@)
            &&& interface is None ==> action->interface is None
            &&& action->timeout == scanner.scan_timeout_secs
        },
{
}

/// The daemon ends well exactly where it is not root and nothing fails; else it
/// ends with the first thing that failed.
pub proof fn law_daemon_ends_well_where_nothing_fails(world: DaemonWorld)
    ensures
        daemon_outcome(world) is Ok <==> has_pipeline(world) && world.playing && world.server
            && world.served,
        daemon_outcome(world) == Err::<(), DaemonError>(DaemonError::Root) <==> world.euid == 0,
        daemon_outcome(world) == Err::<(), DaemonError>(DaemonError::NoBackend) <==> world.euid != 0
            && world.backend is Unavailable,
        daemon_outcome(world) == Err::<(), DaemonError>(DaemonError::Capture) <==> world.euid != 0
            && world.backend is PipeWirePortal && world.stream is None,
        daemon_outcome(world) == Err::<(), DaemonError>(DaemonError::Build) <==> world.euid != 0
            && world.backend is PipeWirePortal && world.stream is Some && !world.built,
        daemon_outcome(world) == Err::<(), DaemonError>(DaemonError::Play) <==> has_pipeline(world)
            && !world.playing,
        daemon_outcome(world) == Err::<(), DaemonError>(DaemonError::Server) <==> has_pipeline(
            world,
        ) && world.playing && !world.server,
        daemon_outcome(world) == Err::<(), DaemonError>(DaemonError::Serve) <==> has_pipeline(world)
            && world.playing && world.server && !world.served,
{
}

/// What the daemon does is what it then waits for.
pub proof fn law_daemon_waits_for_what_it_does(stage: DaemonStage, event: DaemonEventView)
    requires
        daemon_step(stage, event) is Some,
    ensures
        ({
            let (next, action) = daemon_step(stage, event)->0;
            match next {
                DaemonStage::User => false,
                DaemonStage::Backend => action is DetectBackend,
                DaemonStage::Capture => action is Capture,
                DaemonStage::Build => action is Build,
                DaemonStage::Play => action is Play,
                DaemonStage::Interface => action is ReadInterface,
                DaemonStage::Scan => action is Scan,
                DaemonStage::Server => action is CreateServer,
                DaemonStage::Serve => action is Serve,
                DaemonStage::Stop { .. } => action is StopPipeline,
                DaemonStage::Over => action is Finish,
            }
        }),
{
}

/// The daemon takes in only the answer that it waits for, and takes that in
/// always.
pub proof fn law_daemon_takes_in_what_it_waits_for(stage: DaemonStage, event: DaemonEventView)
    ensures
        daemon_step(stage, event) is Some <==> match stage {
            DaemonStage::User => event is User,
            DaemonStage::Backend => event is Backend,
            DaemonStage::Capture => event is Captured,
            DaemonStage::Build => event is Built,
            DaemonStage::Play => event is Playing,
            DaemonStage::Interface => event is Interface,
            DaemonStage::Scan => event is Scanning,
            DaemonStage::Server => event is ServerCreated,
            DaemonStage::Serve => event is Served,
            DaemonStage::Stop { .. } => event is PipelineStopped,
            DaemonStage::Over => false,
        },
{
}

/// What is said of an error names what failed.
pub proof fn law_daemon_error_says_what_failed(error: DaemonError, text: String)
    requires
        call_ensures(DaemonError::to_string, (&error,), text),
    ensures
        match error {
            DaemonError::Root => text@ == ROOT_REFUSED@,
            DaemonError::NoBackend => text@ == NO_BACKEND@,
            DaemonError::Capture => text@ == "Failed to open PipeWire capture stream"@,
            DaemonError::Build => text@ == "Failed to build GStreamer pipeline"@,
            DaemonError::Play => text@ == "Failed to start pipeline"@,
            DaemonError::Server => text@ == "Failed to create RTSP server"@,
            DaemonError::Serve => text@ == "RTSP server error"@,
        },
{
}

/// What is seen of an answer is what it holds.
pub proof fn law_daemon_answers_are_seen_as_they_are(event: DaemonEvent)
    ensures
        match event {
            DaemonEvent::User(euid) => event@ == DaemonEventView::User(euid),
            DaemonEvent::Backend(backend) => event@ == DaemonEventView::Backend(backend),
            DaemonEvent::Captured(stream) => event@ == DaemonEventView::Captured(stream),
            DaemonEvent::Built(ok) => event@ == DaemonEventView::Built(ok),
            DaemonEvent::Playing(ok) => event@ == DaemonEventView::Playing(ok),
            DaemonEvent::Interface(name) => event@ matches DaemonEventView::Interface(seen) && (
            match name {
                Some(name) => seen == Some(name@),
                None => seen is None,
            }),
            DaemonEvent::Scanning => event@ is Scanning,
            DaemonEvent::ServerCreated(ok) => event@ == DaemonEventView::ServerCreated(ok),
            DaemonEvent::Served(ok) => event@ == DaemonEventView::Served(ok),
            DaemonEvent::PipelineStopped => event@ is PipelineStopped,
        },
{
}

/// What is seen of an action is what it holds.
pub proof fn law_daemon_actions_are_seen_as_they_are(action: DaemonAction)
    ensures
        match action {
            DaemonAction::ReadUser => action@ is ReadUser,
            DaemonAction::DetectBackend => action@ is DetectBackend,
            DaemonAction::Capture(options) => {
                &&& action@ is Capture
                &&& action@->include_cursor == options.include_cursor
                &&& action@->source_type == options.source_type
                &&& options.restore_token matches Some(token) ==> action@->restore_token == Some(
                    token@,
                )
                &&& options.restore_token is None ==> action@->restore_token is None
            },
            DaemonAction::Build(config) => action@ == DaemonActionView::Build(config),
            DaemonAction::Play => action@ is Play,
            DaemonAction::ReadInterface => action@ is ReadInterface,
            DaemonAction::Scan(scanner) => {
                &&& action@ is Scan
                &&& scanner.interface matches Some(name) ==> action@->interface == Some(name@)
                &&& scanner.interface is None ==> action@->interface is None
                &&& action@->timeout == scanner.scan_timeout_secs
            },
            DaemonAction::CreateServer(config) => {
                &&& action@ is CreateServer
                &&& action@->address == config.bind_address@
                &&& action@->port == config.port
                &&& action@->path == config.mount_path@
                &&& config.launch_pipeline matches Some(launch) ==> action@->launch == Some(
                    launch@,
                )
                &&& config.launch_pipeline is None ==> action@->launch is None
            },
            DaemonAction::Serve => action@ is Serve,
            DaemonAction::StopPipeline => action@ is StopPipeline,
            DaemonAction::Finish(result) => action@ == DaemonActionView::Finish(result),
        },
{
}

/// The daemon begins by looking at who runs it, and ends as `daemon_outcome`
/// says.
pub proof fn law_begun_daemon_ends_with_the_outcome(
    begun: (Daemon, DaemonAction),
    world: DaemonWorld,
)
    requires
        call_ensures(Daemon::begin, (), begun),
    ensures
        begun.1 is ReadUser,
        daemon_run(world, begun.0.stage()).len() > 0,
        daemon_run(world, begun.0.stage()).last() == DaemonActionView::Finish(
            daemon_outcome(world),
        ),
{
    law_daemon_ends_with_the_outcome(world);
}

} // verus!
