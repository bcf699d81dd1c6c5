//! The RTSP server that offers the stream, by default at
//! `rtsp://<host>:7236/live`.
//!
//! [`ServerRun`] says what to do next with `gst-rtsp-server`; the program around
//! it does it, and hands back what came of it.

use crate::text::{decimal, decimal_text, law_decimal_reads_back, number_of};
use vstd::prelude::*;
use vstd::string::*;

verus! {

// ---------------------------------------------------------------------------
// Errors
// ---------------------------------------------------------------------------

/// Why there is no server.
#[derive(Debug)]
pub enum ServerError {
    /// GStreamer could not be initialised.
    GstInit(String),
    /// The address could not be bound.
    Bind { address: String, reason: String },
    /// The server could not be attached to the main loop.
    Attach(String),
    /// The description of the pipeline is no good.
    LaunchString(String),
    /// Anything else.
    Internal(String),
}

/// The result of an operation on the server.
pub type ServerResult<T> = Result<T, ServerError>;

/// What a [`ServerError`] holds, as plain values.
pub enum ServerErrorView {
    GstInit(Seq<char>),
    Bind { address: Seq<char>, reason: Seq<char> },
    Attach(Seq<char>),
    LaunchString(Seq<char>),
    Internal(Seq<char>),
}

impl View for ServerError {
    type V = ServerErrorView;

    open spec fn view(&self) -> ServerErrorView {
        match self {
            ServerError::GstInit(text) => ServerErrorView::GstInit(text@),
            ServerError::Bind { address, reason } => ServerErrorView::Bind {
                address: address@,
                reason: reason@,
            },
            ServerError::Attach(text) => ServerErrorView::Attach(text@),
            ServerError::LaunchString(text) => ServerErrorView::LaunchString(text@),
            ServerError::Internal(text) => ServerErrorView::Internal(text@),
        }
    }
}

impl ServerErrorView {
    /// What is said of an error.
    pub open spec fn text(self) -> Seq<char> {
        match self {
            ServerErrorView::GstInit(cause) => "GStreamer initialisation failed: "@ + cause,
            ServerErrorView::Bind { address, reason } => "RTSP server bind failed on "@ + address
                + ": "@ + reason,
            ServerErrorView::Attach(cause) => "Failed to attach server to GLib main loop: "@
                + cause,
            ServerErrorView::LaunchString(cause) => "Pipeline launch string error: "@ + cause,
            ServerErrorView::Internal(cause) => "Internal error: "@ + cause,
        }
    }
}

impl ServerError {
    /// What is said of the error.
    pub fn to_string(&self) -> (r: String)
        ensures
            r@ == self@.text(),
    {
        match self {
            ServerError::GstInit(cause) => {
                "GStreamer initialisation failed: ".to_owned().concat(cause.as_str())
            },
            ServerError::Bind { address, reason } => {
                "RTSP server bind failed on ".to_owned().concat(address.as_str()).concat(
                    ": ",
                ).concat(reason.as_str())
            },
            ServerError::Attach(cause) => {
                "Failed to attach server to GLib main loop: ".to_owned().concat(cause.as_str())
            },
            ServerError::LaunchString(cause) => {
                "Pipeline launch string error: ".to_owned().concat(cause.as_str())
            },
            ServerError::Internal(cause) => {
                "Internal error: ".to_owned().concat(cause.as_str())
            },
        }
    }
}

// ---------------------------------------------------------------------------
// Configuration
// ---------------------------------------------------------------------------

/// The pipeline that is offered unless another is given, in the notation of
/// `gst-launch`. As in the media pipeline, no filter stands before the encoder.
pub const DEFAULT_LAUNCH_PIPELINE: &'static str =
    "( pipewiresrc                ! videoconvert                ! videoscale method=1                ! videorate max-rate=30 drop-only=true                ! x264enc tune=zerolatency speed-preset=ultrafast bitrate=4000                ! h264parse                ! video/x-h264,stream-format=byte-stream,alignment=au                ! rtph264pay name=pay0 pt=96 config-interval=1 )";

/// Where and what the server offers.
#[derive(Debug, Clone)]
pub struct ServerConfig {
    /// Address to listen at.
    pub bind_address: String,
    /// Port to listen at.
    pub port: u16,
    /// Path of the stream.
    pub mount_path: String,
    /// The pipeline that is offered, in the notation of `gst-launch`; a default
    /// one where it is `None`.
    pub launch_pipeline: Option<String>,
}

impl Default for ServerConfig {
    /// The Miracast port at every address, and the path `/live`.
    fn default() -> (r: ServerConfig)
        ensures
            r.bind_address@ == "0.0.0.0"@,
            r.port == 7236,
            r.mount_path@ == "/live"@,
            r.launch_pipeline is None,
    {
        ServerConfig {
            bind_address: "0.0.0.0".to_owned(),
            port: 7236,
            mount_path: "/live".to_owned(),
            launch_pipeline: None,
        }
    }
}

impl ServerConfig {
    /// The pipeline that is offered.
    pub open spec fn launch(self) -> Seq<char> {
        match self.launch_pipeline {
            Some(pipeline) => pipeline@,
            None => DEFAULT_LAUNCH_PIPELINE@,
        }
    }

    /// The port as the text that the server takes.
    pub fn service_string(&self) -> (r: String)
        ensures
            r@ == decimal(self.port as nat),
    {
        decimal_text(self.port as u32)
    }

    /// The pipeline that is offered: the one that was given, or else the default
    /// one.
    pub fn effective_launch_pipeline(&self) -> (r: String)
        ensures
            r@ == self.launch(),
    {
        match &self.launch_pipeline {
            Some(pipeline) => pipeline.clone(),
            None => DEFAULT_LAUNCH_PIPELINE.to_owned(),
        }
    }
}

// ---------------------------------------------------------------------------
// The server
// ---------------------------------------------------------------------------

/// An RTSP server. It listens from the time on that it is run.
pub struct RtspServer {
    config: ServerConfig,
}

impl RtspServer {
    /// Where and what the server offers.
    pub closed spec fn config(&self) -> ServerConfig {
        self.config
    }

    /// A server, where `initialised` is what came of initialising GStreamer.
    pub fn new(config: ServerConfig, initialised: Result<(), String>) -> (r: ServerResult<
        RtspServer,
    >)
        ensures
            match r {
                Ok(server) => initialised is Ok && server.config() == config,
                Err(error) => initialised is Err && error@ == ServerErrorView::GstInit(
                    initialised->Err_0@,
                ),
            },
    {
        match initialised {
            Ok(_) => Ok(RtspServer { config }),
            Err(text) => Err(ServerError::GstInit(text)),
        }
    }

    /// Begins to run the server until it is told to stop.
    pub fn run_with_shutdown(&self) -> (r: (ServerRun, ServeAction))
        ensures
            (r.0@, r.1@) == serve_begin(self.config(), true),
    {
        self.begin_run(true)
    }

    /// Begins to run the server for as long as the program runs: as
    /// [`RtspServer::run_with_shutdown`], with nobody to tell it to stop.
    pub fn run(&self) -> (r: (ServerRun, ServeAction))
        ensures
            (r.0@, r.1@) == serve_begin(self.config(), false),
    {
        self.begin_run(false)
    }

    fn begin_run(&self, stoppable: bool) -> (r: (ServerRun, ServeAction))
        ensures
            (r.0@, r.1@) == serve_begin(self.config(), stoppable),
    {
        let run: ServerRun = ServerRun {
            mount_path: self.config.mount_path.clone(),
            launch: self.config.effective_launch_pipeline(),
            stoppable,
            stage: ServeStage::Configuring,
        };
        let action: ServeAction = ServeAction::Configure {
            address: self.config.bind_address.clone(),
            service: self.config.service_string(),
        };
        (run, action)
    }
}

/// What to do next to run the server.
#[derive(Debug)]
pub enum ServeAction {
    /// Make a server for this address and service, and get its mount points.
    Configure { address: String, service: String },
    /// Offer a pipeline at a path; whether its clients share it.
    Mount { path: String, launch: String, shared: bool },
    /// Attach the server to a main loop and run that on a thread of its own.
    Attach,
    /// Wait until the server is told to stop, or nobody is left to tell it.
    AwaitStop,
    /// Wait for as long as the program runs.
    AwaitForever,
    /// Take the server down: let it listen no longer, tell its main loop to
    /// quit, and wait for the thread of that to end.
    TakeDown,
    /// The run is over.
    Finish(ServerResult<()>),
}

/// What a [`ServeAction`] holds, as plain values.
pub enum ServeActionView {
    Configure { address: Seq<char>, service: Seq<char> },
    Mount { path: Seq<char>, launch: Seq<char>, shared: bool },
    Attach,
    AwaitStop,
    AwaitForever,
    TakeDown,
    Finish(Result<(), ServerErrorView>),
}

impl View for ServeAction {
    type V = ServeActionView;

    open spec fn view(&self) -> ServeActionView {
        match self {
            ServeAction::Configure { address, service } => ServeActionView::Configure {
                address: address@,
                service: service@,
            },
            ServeAction::Mount { path, launch, shared } => ServeActionView::Mount {
                path: path@,
                launch: launch@,
                shared: *shared,
            },
            ServeAction::Attach => ServeActionView::Attach,
            ServeAction::AwaitStop => ServeActionView::AwaitStop,
            ServeAction::AwaitForever => ServeActionView::AwaitForever,
            ServeAction::TakeDown => ServeActionView::TakeDown,
            ServeAction::Finish(result) => ServeActionView::Finish(
                match result {
                    Ok(_) => Ok(()),
                    Err(error) => Err(error@),
                },
            ),
        }
    }
}

/// What came of attaching the server.
#[derive(Debug)]
pub enum AttachReply {
    /// The server is attached.
    Attached,
    /// The server was refused, which reads so.
    Refused(String),
    /// The thread of the main loop ended without a word.
    Lost,
}

/// What an [`AttachReply`] holds, as plain values.
pub enum AttachReplyView {
    Attached,
    Refused(Seq<char>),
    Lost,
}

impl View for AttachReply {
    type V = AttachReplyView;

    open spec fn view(&self) -> AttachReplyView {
        match self {
            AttachReply::Attached => AttachReplyView::Attached,
            AttachReply::Refused(text) => AttachReplyView::Refused(text@),
            AttachReply::Lost => AttachReplyView::Lost,
        }
    }
}

/// What came of an action.
#[derive(Debug)]
pub enum ServeEvent {
    /// Whether the server has mount points.
    Configured(bool),
    /// The pipeline is on offer.
    Mounted,
    /// Whether the server is attached.
    AttachDone(AttachReply),
    /// The server was told to stop.
    Stopped,
    /// The server listens no longer, and its main loop has quit.
    TakenDown,
}

/// What a [`ServeEvent`] holds, as plain values.
pub enum ServeEventView {
    Configured(bool),
    Mounted,
    AttachDone(AttachReplyView),
    Stopped,
    TakenDown,
}

impl View for ServeEvent {
    type V = ServeEventView;

    open spec fn view(&self) -> ServeEventView {
        match self {
            ServeEvent::Configured(mounts) => ServeEventView::Configured(*mounts),
            ServeEvent::Mounted => ServeEventView::Mounted,
            ServeEvent::AttachDone(reply) => ServeEventView::AttachDone(reply@),
            ServeEvent::Stopped => ServeEventView::Stopped,
            ServeEvent::TakenDown => ServeEventView::TakenDown,
        }
    }
}

/// How far a run is.
#[derive(Debug, Clone, Copy, PartialEq, Eq, Structural)]
pub enum ServeStage {
    /// Waits for the server.
    Configuring,
    /// Waits for the pipeline to be on offer.
    Mounting,
    /// Waits for the server to be attached.
    Attaching,
    /// Serves.
    Serving,
    /// Waits for the server to be taken down.
    Stopping,
    /// Over.
    Over,
}

/// A run of the server: what it offers, whether it can be told to stop, and how
/// far it is.
pub struct ServeModel {
    pub mount_path: Seq<char>,
    pub launch: Seq<char>,
    pub stoppable: bool,
    pub stage: ServeStage,
}

/// A run begins with a server at the configured address and port.
pub open spec fn serve_begin(
    config: ServerConfig,
    stoppable: bool,
) -> (ServeModel, ServeActionView) {
    (
        ServeModel {
            mount_path: config.mount_path@,
            launch: config.launch(),
            stoppable,
            stage: ServeStage::Configuring,
        },
        ServeActionView::Configure {
            address: config.bind_address@,
            service: decimal(config.port as nat),
        },
    )
}

/// The run ends.
pub open spec fn serve_end(
    result: Result<(), ServerErrorView>,
) -> (ServeStage, ServeActionView) {
    (ServeStage::Over, ServeActionView::Finish(result))
}

/// One step of a run: how far it is after an answer and what is done then.
/// `None` for an answer that it does not wait for.
pub open spec fn serve_step(
    model: ServeModel,
    event: ServeEventView,
) -> Option<(ServeStage, ServeActionView)> {
    match (model.stage, event) {
        (ServeStage::Configuring, ServeEventView::Configured(mounts)) => Some(
            if mounts {
                (
                    ServeStage::Mounting,
                    ServeActionView::Mount {
                        path: model.mount_path,
                        launch: model.launch,
                        shared: true,
                    },
                )
            } else {
                serve_end(Err(ServerErrorView::Internal("no mount points"@)))
            },
        ),
        (ServeStage::Mounting, ServeEventView::Mounted) => Some(
            (ServeStage::Attaching, ServeActionView::Attach),
        ),
        (ServeStage::Attaching, ServeEventView::AttachDone(reply)) => Some(
            match reply {
                AttachReplyView::Attached => (
                    ServeStage::Serving,
                    if model.stoppable {
                        ServeActionView::AwaitStop
                    } else {
                        ServeActionView::AwaitForever
                    },
                ),
                AttachReplyView::Refused(text) => serve_end(Err(ServerErrorView::Attach(text))),
                AttachReplyView::Lost => serve_end(
                    Err(ServerErrorView::Internal("ready channel dropped"@)),
                ),
            },
        ),
        (ServeStage::Serving, ServeEventView::Stopped) => if model.stoppable {
            Some((ServeStage::Stopping, ServeActionView::TakeDown))
        } else {
            None
        },
        (ServeStage::Stopping, ServeEventView::TakenDown) => Some(serve_end(Ok(()))),
        _ => None,
    }
}

/// A run of the server.
pub struct ServerRun {
    mount_path: String,
    launch: String,
    stoppable: bool,
    stage: ServeStage,
}

impl View for ServerRun {
    type V = ServeModel;

    closed spec fn view(&self) -> ServeModel {
        ServeModel {
            mount_path: self.mount_path@,
            launch: self.launch@,
            stoppable: self.stoppable,
            stage: self.stage,
        }
    }
}

impl ServerRun {
    /// Takes in what came of the last action and says what to do next. An
    /// answer that the run does not wait for changes nothing.
    pub fn on_event(&mut self, event: ServeEvent) -> (r: Option<ServeAction>)
        ensures
            final(self)@.mount_path == old(self)@.mount_path,
            final(self)@.launch == old(self)@.launch,
            final(self)@.stoppable == old(self)@.stoppable,
            match serve_step(old(self)@, event@) {
                Some((stage, action)) => final(self)@.stage == stage && r is Some && r->0@
                    == action,
                None => final(self)@.stage == old(self)@.stage && r is None,
            },
    {
        let (stage, action): (ServeStage, Option<ServeAction>) = match (self.stage, event) {
            (ServeStage::Configuring, ServeEvent::Configured(mounts)) => {
                if mounts {
                    (
                        ServeStage::Mounting,
                        Some(
                            ServeAction::Mount {
                                path: self.mount_path.clone(),
                                launch: self.launch.clone(),
                                shared: true,
                            },
                        ),
                    )
                } else {
                    fail_with(ServerError::Internal("no mount points".to_owned()))
                }
            },
            (ServeStage::Mounting, ServeEvent::Mounted) => {
                (ServeStage::Attaching, Some(ServeAction::Attach))
            },
            (ServeStage::Attaching, ServeEvent::AttachDone(reply)) => match reply {
                AttachReply::Attached => {
                    if self.stoppable {
                        (ServeStage::Serving, Some(ServeAction::AwaitStop))
                    } else {
                        (ServeStage::Serving, Some(ServeAction::AwaitForever))
                    }
                },
                AttachReply::Refused(text) => fail_with(ServerError::Attach(text)),
                AttachReply::Lost => fail_with(
                    ServerError::Internal("ready channel dropped".to_owned()),
                ),
            },
            (ServeStage::Serving, ServeEvent::Stopped) => {
                if self.stoppable {
                    (ServeStage::Stopping, Some(ServeAction::TakeDown))
                } else {
                    (ServeStage::Serving, None)
                }
            },
            (ServeStage::Stopping, ServeEvent::TakenDown) => {
                (ServeStage::Over, Some(ServeAction::Finish(Ok(()))))
            },
            (stage, _) => (stage, None),
        };
        self.stage = stage;
        action
    }
}

/// The run fails.
fn fail_with(error: ServerError) -> (r: (ServeStage, Option<ServeAction>))
    ensures
        r.1 is Some,
        (r.0, r.1->0@) == serve_end(Err(error@)),
{
    (ServeStage::Over, Some(ServeAction::Finish(Err(error))))
}

// ---------------------------------------------------------------------------
// Where a run leads
// ---------------------------------------------------------------------------

/// All that a run can be told before it is stopped.
pub struct ServeWorld {
    pub mounts: bool,
    pub attach: AttachReplyView,
}

impl ServeWorld {
    /// The answer to what a run waits for.
    pub open spec fn answer(self, stage: ServeStage) -> ServeEventView {
        match stage {
            ServeStage::Configuring => ServeEventView::Configured(self.mounts),
            ServeStage::Mounting => ServeEventView::Mounted,
            ServeStage::Attaching => ServeEventView::AttachDone(self.attach),
            ServeStage::Serving => ServeEventView::Stopped,
            ServeStage::Stopping => ServeEventView::TakenDown,
            ServeStage::Over => ServeEventView::TakenDown,
        }
    }
}

/// What a run that is told to stop leads to: success, unless the server has no
/// mount points or could not be attached.
pub open spec fn serve_outcome(world: ServeWorld) -> Result<(), ServerErrorView> {
    if !world.mounts {
        Err(ServerErrorView::Internal("no mount points"@))
    } else {
        match world.attach {
            AttachReplyView::Attached => Ok(()),
            AttachReplyView::Refused(text) => Err(ServerErrorView::Attach(text)),
            AttachReplyView::Lost => Err(ServerErrorView::Internal("ready channel dropped"@)),
        }
    }
}

/// How many answers can still come.
pub open spec fn serve_left(stage: ServeStage) -> nat {
    match stage {
        ServeStage::Configuring => 5,
        ServeStage::Mounting => 4,
        ServeStage::Attaching => 3,
        ServeStage::Serving => 2,
        ServeStage::Stopping => 1,
        ServeStage::Over => 0,
    }
}

/// What a run that stands at `model` leads to; `None` where it goes on for ever.
pub open spec fn serve_run(
    world: ServeWorld,
    model: ServeModel,
) -> Option<Result<(), ServerErrorView>>
    decreases serve_left(model.stage),
{
    match serve_step(model, world.answer(model.stage)) {
        Some((_, ServeActionView::Finish(result))) => Some(result),
        Some((stage, _)) => serve_run(world, ServeModel { stage, ..model }),
        None => None,
    }
}

/// A run that can be told to stop, and is, ends with what `serve_outcome` says.
pub proof fn law_run_leads_to_the_outcome(world: ServeWorld, config: ServerConfig)
    ensures
        serve_run(world, serve_begin(config, true).0) == Some(serve_outcome(world)),
{
    reveal_with_fuel(serve_run, 6);
}

/// A run that nobody can stop ends exactly where the server cannot be made or
/// attached, and with the error that a run with a shutdown ends with.
pub proof fn law_plain_run_ends_only_with_the_error(world: ServeWorld, config: ServerConfig)
    ensures
        serve_run(world, serve_begin(config, false).0) == match serve_outcome(world) {
            Ok(_) => None::<Result<(), ServerErrorView>>,
            Err(error) => Some(Err(error)),
        },
        serve_outcome(world) is Err ==> serve_run(world, serve_begin(config, false).0)
            == serve_run(world, serve_begin(config, true).0),
{
    reveal_with_fuel(serve_run, 6);
}

/// What a run that stands at `model` ends with when it is told `events`, one
/// after the other; `None` where it does not end.
pub open spec fn serve_told(
    model: ServeModel,
    events: Seq<ServeEventView>,
) -> Option<Result<(), ServerErrorView>>
    decreases events.len(),
{
    if events.len() == 0 {
        None
    } else {
        match serve_step(model, events[0]) {
            Some((_, ServeActionView::Finish(result))) => Some(result),
            Some((stage, _)) => serve_told(ServeModel { stage, ..model }, events.drop_first()),
            None => serve_told(model, events.drop_first()),
        }
    }
}

/// A run that nobody can stop never ends well, whatever it is told.
pub proof fn law_plain_run_never_ends_well(config: ServerConfig, events: Seq<ServeEventView>)
    ensures
        serve_told(serve_begin(config, false).0, events) != Some(Ok::<(), ServerErrorView>(())),
{
    lemma_plain_run(serve_begin(config, false).0, events);
}

proof fn lemma_plain_run(model: ServeModel, events: Seq<ServeEventView>)
    requires
        !model.stoppable,
        model.stage != ServeStage::Stopping,
    ensures
        serve_told(model, events) != Some(Ok::<(), ServerErrorView>(())),
    decreases events.len(),
{
    if events.len() > 0 {
        match serve_step(model, events[0]) {
            Some((stage, _)) => {
                lemma_plain_run(ServeModel { stage, ..model }, events.drop_first());
            },
            None => {
                lemma_plain_run(model, events.drop_first());
            },
        }
    }
}

/// A run that is never told to stop never ends well either.
pub proof fn law_run_ends_well_only_when_told(
    config: ServerConfig,
    stoppable: bool,
    events: Seq<ServeEventView>,
)
    requires
        forall|i: int| 0 <= i < events.len() ==> !(#[trigger] events[i] is Stopped),
    ensures
        serve_told(serve_begin(config, stoppable).0, events) != Some(
            Ok::<(), ServerErrorView>(()),
        ),
{
    lemma_untold_run(serve_begin(config, stoppable).0, events);
}

proof fn lemma_untold_run(model: ServeModel, events: Seq<ServeEventView>)
    requires
        model.stage != ServeStage::Stopping,
        forall|i: int| 0 <= i < events.len() ==> !(#[trigger] events[i] is Stopped),
    ensures
        serve_told(model, events) != Some(Ok::<(), ServerErrorView>(())),
    decreases events.len(),
{
    if events.len() > 0 {
        let rest = events.drop_first();
        assert forall|i: int| 0 <= i < rest.len() implies !(#[trigger] rest[i] is Stopped) by {
            assert(rest[i] == events[i + 1]);
        }
        assert(!(events[0] is Stopped));
        match serve_step(model, events[0]) {
            Some((stage, _)) => {
                lemma_untold_run(ServeModel { stage, ..model }, rest);
            },
            None => {
                lemma_untold_run(model, rest);
            },
        }
    }
}

/// Once a server is attached, only the word to stop moves its run on, where the
/// run can be told to stop; and then the server is taken down.
pub proof fn law_attached_server_runs_until_stopped(model: ServeModel, event: ServeEventView)
    requires
        model.stage == ServeStage::Serving,
    ensures
        serve_step(model, event) == if model.stoppable && event is Stopped {
            Some((ServeStage::Stopping, ServeActionView::TakeDown))
        } else {
            None
        },
{
}

/// No server is left behind: a run ends well only once the server has been taken
/// down.
pub proof fn law_stopped_server_is_taken_down(model: ServeModel, event: ServeEventView)
    requires
        serve_step(model, event) == Some(serve_end(Ok(()))),
    ensures
        model.stage == ServeStage::Stopping,
        event is TakenDown,
{
}

/// What a server offers is shared by its clients, and it is the configured
/// pipeline at the configured path.
pub proof fn law_clients_share_the_configured_pipeline(model: ServeModel)
    requires
        model.stage == ServeStage::Configuring,
    ensures
        serve_step(model, ServeEventView::Configured(true)) == Some(
            (
                ServeStage::Mounting,
                ServeActionView::Mount {
                    path: model.mount_path,
                    launch: model.launch,
                    shared: true,
                },
            ),
        ),
{
}

/// A run serves what its configuration says: the server is made for the
/// configured address and port, and the given pipeline, or the default one where
/// none is given, is offered to all clients at the configured path.
pub proof fn law_run_serves_the_configuration(
    config: ServerConfig,
    made: ServerResult<RtspServer>,
    stoppable: (ServerRun, ServeAction),
    plain: (ServerRun, ServeAction),
)
    requires
        call_ensures(RtspServer::new, (config, Ok(())), made),
        made is Ok,
        call_ensures(RtspServer::run_with_shutdown, (&made->Ok_0,), stoppable),
        call_ensures(RtspServer::run, (&made->Ok_0,), plain),
    ensures
        begins_as_configured(config, stoppable),
        begins_as_configured(config, plain),
{
    law_decimal_reads_back(config.port as nat);
}

/// Whether a run begins, and goes on once there are mount points, as `config`
/// says.
pub open spec fn begins_as_configured(
    config: ServerConfig,
    begun: (ServerRun, ServeAction),
) -> bool {
    &&& begun.1 matches ServeAction::Configure { address, service } && {
        &&& address@ == config.bind_address@
        &&& number_of(service@) == config.port
        &&& service@.len() > 0
        &&& forall|i: int| 0 <= i < service@.len() ==> '0' <= #[trigger] service@[i] <= '9'
        &&& service@[0] == '0' ==> config.port == 0
    }
    &&& serve_step(begun.0@, ServeEventView::Configured(true)) matches Some(
        (stage, ServeActionView::Mount { path, launch, shared }),
    ) && {
        &&& stage == ServeStage::Mounting
        &&& path == config.mount_path@
        &&& config.launch_pipeline matches Some(pipeline) ==> launch == pipeline@
        &&& config.launch_pipeline is None ==> launch == DEFAULT_LAUNCH_PIPELINE@
        &&& shared
    }
    &&& serve_step(begun.0@, ServeEventView::Configured(false)) == Some(
        (
            ServeStage::Over,
            ServeActionView::Finish(Err(ServerErrorView::Internal("no mount points"@))),
        ),
    )
}

/// A server is made exactly where GStreamer is initialised; else its error is the
/// text of the failure.
pub proof fn law_server_needs_gstreamer(
    config: ServerConfig,
    initialised: Result<(), String>,
    made: ServerResult<RtspServer>,
)
    requires
        call_ensures(RtspServer::new, (config, initialised), made),
    ensures
        made is Ok <==> initialised is Ok,
        initialised matches Err(text) ==> made matches Err(error) && error matches
            ServerError::GstInit(said) && said@ == text@,
{
}

/// The port reads back from its text, and a pipeline that is given is kept as it
/// is.
pub proof fn law_configuration_is_told_as_it_is(
    config: ServerConfig,
    service: String,
    launch: String,
)
    requires
        call_ensures(ServerConfig::service_string, (&config,), service),
        call_ensures(ServerConfig::effective_launch_pipeline, (&config,), launch),
    ensures
        number_of(service@) == config.port,
        service@.len() > 0,
        forall|i: int| 0 <= i < service@.len() ==> '0' <= #[trigger] service@[i] <= '9',
        service@[0] == '0' ==> config.port == 0,
        config.launch_pipeline matches Some(pipeline) ==> launch@ == pipeline@,
        config.launch_pipeline is None ==> launch@ == DEFAULT_LAUNCH_PIPELINE@,
{
    law_decimal_reads_back(config.port as nat);
}

/// A run that is told to stop ends well exactly where there are mount points and
/// the server is attached; else its error says which of the two failed, and how.
pub proof fn law_run_ends_well_where_nothing_fails(world: ServeWorld)
    ensures
        serve_outcome(world) is Ok <==> world.mounts && world.attach is Attached,
        !world.mounts ==> serve_outcome(world) == Err::<(), ServerErrorView>(
            ServerErrorView::Internal("no mount points"@),
        ),
        world.mounts && world.attach is Lost ==> serve_outcome(world) == Err::<(), ServerErrorView>(
            ServerErrorView::Internal("ready channel dropped"@),
        ),
        world.mounts ==> (world.attach matches AttachReplyView::Refused(text) ==> serve_outcome(
            world,
        ) == Err::<(), ServerErrorView>(ServerErrorView::Attach(text))),
{
}

/// What a run does is what it then waits for; an attached server waits for the
/// word to stop exactly where it can be told to.
pub proof fn law_run_waits_for_what_it_does(model: ServeModel, event: ServeEventView)
    requires
        serve_step(model, event) is Some,
    ensures
        ({
            let (next, action) = serve_step(model, event)->0;
            match next {
                ServeStage::Configuring => false,
                ServeStage::Mounting => action is Mount,
                ServeStage::Attaching => action is Attach,
                ServeStage::Serving => (action is AwaitStop <==> model.stoppable) && (
                action is AwaitForever <==> !model.stoppable),
                ServeStage::Stopping => action is TakeDown,
                ServeStage::Over => action is Finish,
            }
        }),
{
}

/// A run takes in only the answer that it waits for, and takes that in always.
pub proof fn law_run_takes_in_what_it_waits_for(model: ServeModel, event: ServeEventView)
    ensures
        serve_step(model, event) is Some <==> match model.stage {
            ServeStage::Configuring => event is Configured,
            ServeStage::Mounting => event is Mounted,
            ServeStage::Attaching => event is AttachDone,
            ServeStage::Serving => event is Stopped && model.stoppable,
            ServeStage::Stopping => event is TakenDown,
            ServeStage::Over => false,
        },
{
}

/// What is said of an error begins with its heading, goes on with the whole of
/// what it holds, and holds nothing else.
pub proof fn law_server_error_says_its_cause(error: ServerError, text: String)
    requires
        call_ensures(ServerError::to_string, (&error,), text),
    ensures
        match error {
            ServerError::GstInit(cause) => text@ == "GStreamer initialisation failed: "@ + cause@,
            ServerError::Bind { address, reason } => text@ == "RTSP server bind failed on "@
                + address@ + ": "@ + reason@,
            ServerError::Attach(cause) => text@ == "Failed to attach server to GLib main loop: "@
                + cause@,
            ServerError::LaunchString(cause) => text@ == "Pipeline launch string error: "@ + cause@,
            ServerError::Internal(cause) => text@ == "Internal error: "@ + cause@,
        },
{
}

/// What is seen of an answer, and of an error, is what it holds.
pub proof fn law_server_answers_are_seen_as_they_are(
    event: ServeEvent,
    reply: AttachReply,
    error: ServerError,
)
    ensures
        match event {
            ServeEvent::Configured(mounts) => event@ == ServeEventView::Configured(mounts),
            ServeEvent::Mounted => event@ is Mounted,
            ServeEvent::AttachDone(reply) => event@ == ServeEventView::AttachDone(reply@),
            ServeEvent::Stopped => event@ is Stopped,
            ServeEvent::TakenDown => event@ is TakenDown,
        },
        match reply {
            AttachReply::Attached => reply@ is Attached,
            AttachReply::Refused(text) => reply@ == AttachReplyView::Refused(text@),
            AttachReply::Lost => reply@ is Lost,
        },
        match error {
            ServerError::GstInit(text) => error@ == ServerErrorView::GstInit(text@),
            ServerError::Bind { address, reason } => error@ is Bind && error@->address == address@
                && error@->reason == reason@,
            ServerError::Attach(text) => error@ == ServerErrorView::Attach(text@),
            ServerError::LaunchString(text) => error@ == ServerErrorView::LaunchString(text@),
            ServerError::Internal(text) => error@ == ServerErrorView::Internal(text@),
        },
{
}

/// What is seen of an action is what it holds.
pub proof fn law_server_actions_are_seen_as_they_are(action: ServeAction)
    ensures
        match action {
            ServeAction::Configure { address, service } => action@ is Configure && action@->address
                == address@ && action@->service == service@,
            ServeAction::Mount { path, launch, shared } => action@ is Mount && action@->path == path@
                && action@->launch == launch@ && action@->shared == shared,
            ServeAction::Attach => action@ is Attach,
            ServeAction::AwaitStop => action@ is AwaitStop,
            ServeAction::AwaitForever => action@ is AwaitForever,
            ServeAction::TakeDown => action@ is TakeDown,
            ServeAction::Finish(result) => action@ matches ServeActionView::Finish(seen) && (
            match result {
                Ok(_) => seen is Ok,
                Err(error) => seen == Err::<(), ServerErrorView>(error@),
            }),
        },
{
}

/// A run with a shutdown that is begun ends with what `serve_outcome` says, and a
/// plain one only with the error.
pub proof fn law_begun_runs_lead_to_the_outcome(
    server: RtspServer,
    stoppable: (ServerRun, ServeAction),
    plain: (ServerRun, ServeAction),
    world: ServeWorld,
    events: Seq<ServeEventView>,
)
    requires
        call_ensures(RtspServer::run_with_shutdown, (&server,), stoppable),
        call_ensures(RtspServer::run, (&server,), plain),
    ensures
        serve_run(world, stoppable.0@) == Some(serve_outcome(world)),
        serve_outcome(world) is Ok ==> serve_run(world, plain.0@) is None,
        serve_outcome(world) is Err ==> serve_run(world, plain.0@) == Some(serve_outcome(world)),
        serve_told(plain.0@, events) != Some(Ok::<(), ServerErrorView>(())),
{
    law_run_leads_to_the_outcome(world, server.config());
    law_plain_run_ends_only_with_the_error(world, server.config());
    law_plain_run_never_ends_well(server.config(), events);
}

} // verus!
