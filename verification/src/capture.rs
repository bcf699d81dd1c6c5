//! Screen capture through the XDG Desktop Portal
//! (`org.freedesktop.portal.ScreenCast`).
//!
//! A capture is a talk with the portal, after which there is a PipeWire file
//! descriptor and the id of the node to read from it. Without a portal (on X11,
//! or on a headless machine) [`CaptureBackend::detect`] says so.
//!
//! [`CaptureSession`] says what to ask the portal next; the program around it
//! asks, and hands back the answer.

use crate::text::{clone_opt, opt_view};
use ashpd::desktop::screencast::{CursorMode, SourceType};
use ashpd::desktop::PersistMode;
use vstd::prelude::*;
use vstd::std_specs::convert::FromSpec;
use vstd::string::*;

verus! {

// ---------------------------------------------------------------------------
// The portal's own types
// ---------------------------------------------------------------------------

/// `ashpd`'s kinds of content to record: `Monitor`, `Window` and `Virtual`.
#[verifier::external_type_specification]
pub struct ExSourceType(SourceType);

/// `ashpd`'s ways to draw the cursor: `Hidden`, `Embedded` and `Metadata`.
#[verifier::external_type_specification]
pub struct ExCursorMode(CursorMode);

/// `ashpd`'s ways to remember a choice: `DoNot`, `Application` and
/// `ExplicitlyRevoked`.
#[verifier::external_type_specification]
pub struct ExPersistMode(PersistMode);

/// `ashpd::Error`, the error of every request to the portal. It is carried as
/// it came and never looked into.
#[verifier::external_type_specification]
#[verifier::external_body]
pub struct ExPortalError(ashpd::Error);

// ---------------------------------------------------------------------------
// Errors
// ---------------------------------------------------------------------------

/// Why there is no capture.
#[derive(Debug)]
pub enum CaptureError {
    /// A request to the portal failed.
    Portal(ashpd::Error),
    /// There is no way to capture the screen here.
    Unavailable(String),
    /// The capture was not started yet.
    NotStarted,
    /// Anything else.
    Internal(String),
}

/// The result of a capture.
pub type CaptureResult<T> = Result<T, CaptureError>;

/// What a [`CaptureError`] holds, with its texts as plain values.
pub enum CaptureErrorView {
    Portal(ashpd::Error),
    Unavailable(Seq<char>),
    NotStarted,
    Internal(Seq<char>),
}

impl View for CaptureError {
    type V = CaptureErrorView;

    open spec fn view(&self) -> CaptureErrorView {
        match self {
            CaptureError::Portal(cause) => CaptureErrorView::Portal(*cause),
            CaptureError::Unavailable(text) => CaptureErrorView::Unavailable(text@),
            CaptureError::NotStarted => CaptureErrorView::NotStarted,
            CaptureError::Internal(text) => CaptureErrorView::Internal(text@),
        }
    }
}

impl From<ashpd::Error> for CaptureError {
    fn from(cause: ashpd::Error) -> (r: CaptureError) {
        CaptureError::Portal(cause)
    }
}

impl vstd::std_specs::convert::FromSpecImpl<ashpd::Error> for CaptureError {
    open spec fn obeys_from_spec() -> bool {
        true
    }

    open spec fn from_spec(cause: ashpd::Error) -> CaptureError {
        CaptureError::Portal(cause)
    }
}

/// What is said of a failed request, given what is said of its cause.
pub open spec fn portal_failure(cause: Seq<char>) -> Seq<char> {
    "XDG portal error: "@ + cause
}

/// Says that a request to the portal failed.
pub fn portal_failure_text(cause: &str) -> (r: String)
    ensures
        r@ == portal_failure(cause@),
{
    "XDG portal error: ".to_owned().concat(cause)
}

impl CaptureError {
    /// Whether `text` is what is said of the error. What is said of a failed
    /// request holds what its cause says of itself, which need not be the same
    /// every time: for a failed system call it is the platform's own description.
    pub open spec fn said_as(self, text: Seq<char>) -> bool {
        match self {
            CaptureError::Portal(cause) => exists|said: String|
                #[trigger] to_string_from_display_ensures::<ashpd::Error>(&cause, said) && text
                    == portal_failure(said@),
            CaptureError::Unavailable(cause) => text == "Capture back-end unavailable: "@ + cause@,
            CaptureError::NotStarted => text
                == "PipeWire FD not yet available – call start() first"@,
            CaptureError::Internal(cause) => text == "Internal error: "@ + cause@,
        }
    }

    /// What is said of the error. After the heading of a failed request stands
    /// the text of its cause.
    pub fn to_string(&self) -> (r: String)
        ensures
            self.said_as(r@),
    {
        match self {
            CaptureError::Portal(cause) => {
                let said: String = cause.to_string();
                portal_failure_text(said.as_str())
            },
            CaptureError::Unavailable(cause) => {
                "Capture back-end unavailable: ".to_owned().concat(cause.as_str())
            },
            CaptureError::NotStarted => {
                "PipeWire FD not yet available – call start() first".to_owned()
            },
            CaptureError::Internal(cause) => {
                "Internal error: ".to_owned().concat(cause.as_str())
            },
        }
    }
}

// ---------------------------------------------------------------------------
// Back-end
// ---------------------------------------------------------------------------

/// How the screen can be captured here.
#[derive(Debug, Clone, PartialEq, Eq, Structural)]
pub enum CaptureBackend {
    /// The portal can be reached.
    PipeWirePortal,
    /// There is no way.
    Unavailable,
}

impl CaptureBackend {
    /// The back-end of a machine, where `portal` is what came of opening the
    /// screen-cast portal.
    pub fn detect(portal: &Result<(), ashpd::Error>) -> (r: CaptureBackend)
        ensures
            r is PipeWirePortal <==> portal is Ok,
            r is Unavailable <==> portal is Err,
    {
        match portal {
            Ok(_) => CaptureBackend::PipeWirePortal,
            Err(_) => CaptureBackend::Unavailable,
        }
    }

    /// Whether a capture is possible.
    pub fn is_available(&self) -> (r: bool)
        ensures
            r == (self is PipeWirePortal),
    {
        matches!(self, CaptureBackend::PipeWirePortal)
    }
}

// ---------------------------------------------------------------------------
// Options
// ---------------------------------------------------------------------------

/// A kind of content to record.
#[derive(Debug, Clone, Copy, PartialEq, Eq, Structural)]
pub enum PortalSourceType {
    Monitor,
    Window,
    Virtual,
}

impl From<PortalSourceType> for SourceType {
    fn from(kind: PortalSourceType) -> (r: SourceType) {
        match kind {
            PortalSourceType::Monitor => SourceType::Monitor,
            PortalSourceType::Window => SourceType::Window,
            PortalSourceType::Virtual => SourceType::Virtual,
        }
    }
}

impl vstd::std_specs::convert::FromSpecImpl<PortalSourceType> for SourceType {
    open spec fn obeys_from_spec() -> bool {
        true
    }

    open spec fn from_spec(kind: PortalSourceType) -> SourceType {
        match kind {
            PortalSourceType::Monitor => SourceType::Monitor,
            PortalSourceType::Window => SourceType::Window,
            PortalSourceType::Virtual => SourceType::Virtual,
        }
    }
}

/// What to capture.
#[derive(Debug, Clone)]
pub struct CaptureOptions {
    /// Whether to capture the cursor as well.
    pub include_cursor: bool,
    /// The kind of content that the portal lets the user choose from.
    pub source_type: PortalSourceType,
    /// Token of an earlier session to restore.
    pub restore_token: Option<String>,
}

impl Default for CaptureOptions {
    /// A monitor, without the cursor.
    fn default() -> (r: CaptureOptions)
        ensures
            !r.include_cursor,
            r.source_type is Monitor,
            r.restore_token is None,
    {
        CaptureOptions {
            include_cursor: false,
            source_type: PortalSourceType::Monitor,
            restore_token: None,
        }
    }
}

// ---------------------------------------------------------------------------
// Stream
// ---------------------------------------------------------------------------

/// A stream of captured frames.
#[derive(Debug)]
pub struct CaptureStream {
    fd: i32,
    node_id: u32,
}

/// What a [`CaptureStream`] holds, as plain values.
pub struct CaptureStreamView {
    pub fd: i32,
    pub node_id: u32,
}

impl View for CaptureStream {
    type V = CaptureStreamView;

    closed spec fn view(&self) -> CaptureStreamView {
        CaptureStreamView { fd: self.fd, node_id: self.node_id }
    }
}

impl CaptureStream {
    /// The PipeWire node to read from.
    pub fn node_id(&self) -> (r: u32)
        ensures
            r == self@.node_id,
    {
        self.node_id
    }

    /// The PipeWire file descriptor.
    pub fn as_raw_fd(&self) -> (r: i32)
        ensures
            r == self@.fd,
    {
        self.fd
    }

    /// The PipeWire file descriptor, which is the caller's to close from here on.
    pub fn into_raw_fd(self) -> (r: i32)
        ensures
            r == self@.fd,
    {
        self.fd
    }
}

// ---------------------------------------------------------------------------
// Session
// ---------------------------------------------------------------------------

/// What the portal is asked to let the user choose from.
#[derive(Debug)]
pub struct SourceSelection {
    /// How the cursor is drawn.
    pub cursor_mode: CursorMode,
    /// The kinds of content on offer.
    pub types: Vec<SourceType>,
    /// Whether more than one source can be chosen.
    pub multiple: bool,
    /// Token of an earlier session to restore.
    pub restore_token: Option<String>,
    /// Whether the choice is remembered.
    pub persist_mode: PersistMode,
}

/// What a [`SourceSelection`] holds, as plain values.
pub struct SourceSelectionView {
    pub cursor_mode: CursorMode,
    pub types: Seq<SourceType>,
    pub multiple: bool,
    pub restore_token: Option<Seq<char>>,
    pub persist_mode: PersistMode,
}

impl View for SourceSelection {
    type V = SourceSelectionView;

    open spec fn view(&self) -> SourceSelectionView {
        SourceSelectionView {
            cursor_mode: self.cursor_mode,
            types: self.types@,
            multiple: self.multiple,
            restore_token: opt_view(self.restore_token),
            persist_mode: self.persist_mode,
        }
    }
}

/// What the portal is asked for: one source of the given kind, with the cursor
/// drawn into it if the options say so, and a choice that is not remembered.
pub open spec fn selection_of(
    include_cursor: bool,
    source_type: PortalSourceType,
    restore_token: Option<Seq<char>>,
) -> SourceSelectionView {
    SourceSelectionView {
        cursor_mode: if include_cursor {
            CursorMode::Embedded
        } else {
            CursorMode::Hidden
        },
        types: seq![<SourceType as FromSpec<PortalSourceType>>::from_spec(source_type)],
        multiple: false,
        restore_token,
        persist_mode: PersistMode::DoNot,
    }
}

/// What to ask the portal next.
#[derive(Debug)]
pub enum CaptureAction {
    /// Open the screen-cast portal.
    OpenPortal,
    /// Create a session.
    CreateSession,
    /// Say what the user can choose from.
    SelectSources(SourceSelection),
    /// Let the user choose.
    StartCast,
    /// Open the PipeWire connection of the session.
    OpenRemote,
    /// The talk is over.
    Finish(CaptureResult<CaptureStream>),
}

/// What a [`CaptureAction`] holds, as plain values.
pub enum CaptureActionView {
    OpenPortal,
    CreateSession,
    SelectSources(SourceSelectionView),
    StartCast,
    OpenRemote,
    Finish(Result<CaptureStreamView, CaptureErrorView>),
}

impl View for CaptureAction {
    type V = CaptureActionView;

    open spec fn view(&self) -> CaptureActionView {
        match self {
            CaptureAction::OpenPortal => CaptureActionView::OpenPortal,
            CaptureAction::CreateSession => CaptureActionView::CreateSession,
            CaptureAction::SelectSources(selection) => CaptureActionView::SelectSources(
                selection@,
            ),
            CaptureAction::StartCast => CaptureActionView::StartCast,
            CaptureAction::OpenRemote => CaptureActionView::OpenRemote,
            CaptureAction::Finish(result) => CaptureActionView::Finish(
                match result {
                    Ok(stream) => Ok(stream@),
                    Err(error) => Err(error@),
                },
            ),
        }
    }
}

/// What came of letting the user choose.
#[derive(Debug)]
pub enum CastReply {
    /// The request failed.
    Failed(ashpd::Error),
    /// The request was answered with a refusal, which reads so.
    Refused(String),
    /// The nodes of the streams that were chosen.
    Streams(Vec<u32>),
}

/// What a [`CastReply`] holds, as plain values.
pub enum CastReplyView {
    Failed(ashpd::Error),
    Refused(Seq<char>),
    Streams(Seq<u32>),
}

impl View for CastReply {
    type V = CastReplyView;

    open spec fn view(&self) -> CastReplyView {
        match self {
            CastReply::Failed(cause) => CastReplyView::Failed(*cause),
            CastReply::Refused(text) => CastReplyView::Refused(text@),
            CastReply::Streams(nodes) => CastReplyView::Streams(nodes@),
        }
    }
}

/// What the portal answered.
#[derive(Debug)]
pub enum CaptureEvent {
    /// Whether the portal could be opened.
    PortalOpened(Result<(), ashpd::Error>),
    /// Whether there is a session.
    SessionCreated(Result<(), ashpd::Error>),
    /// Whether the portal took the selection.
    SourcesSelected(Result<(), ashpd::Error>),
    /// What the user chose.
    CastStarted(CastReply),
    /// The PipeWire file descriptor.
    RemoteOpened(Result<i32, ashpd::Error>),
}

/// What a [`CaptureEvent`] holds, as plain values.
pub enum CaptureEventView {
    PortalOpened(Result<(), ashpd::Error>),
    SessionCreated(Result<(), ashpd::Error>),
    SourcesSelected(Result<(), ashpd::Error>),
    CastStarted(CastReplyView),
    RemoteOpened(Result<i32, ashpd::Error>),
}

impl View for CaptureEvent {
    type V = CaptureEventView;

    open spec fn view(&self) -> CaptureEventView {
        match self {
            CaptureEvent::PortalOpened(reply) => CaptureEventView::PortalOpened(*reply),
            CaptureEvent::SessionCreated(reply) => CaptureEventView::SessionCreated(*reply),
            CaptureEvent::SourcesSelected(reply) => CaptureEventView::SourcesSelected(*reply),
            CaptureEvent::CastStarted(reply) => CaptureEventView::CastStarted(reply@),
            CaptureEvent::RemoteOpened(reply) => CaptureEventView::RemoteOpened(*reply),
        }
    }
}

/// How far the talk with the portal is.
#[derive(Debug, Clone, Copy, PartialEq, Eq, Structural)]
pub enum CaptureStage {
    /// Waits for the portal.
    Portal,
    /// Waits for the session.
    Session,
    /// Waits for the selection to be taken.
    Sources,
    /// Waits for the user's choice.
    Cast,
    /// Waits for the PipeWire connection; the node to read is known.
    Remote { node_id: u32 },
    /// Over.
    Over,
}

/// A talk with the portal: what it is about, and how far it is.
pub struct CaptureModel {
    pub include_cursor: bool,
    pub source_type: PortalSourceType,
    pub restore_token: Option<Seq<char>>,
    pub stage: CaptureStage,
}

/// The talk ends.
pub open spec fn capture_end(
    result: Result<CaptureStreamView, CaptureErrorView>,
) -> (CaptureStage, CaptureActionView) {
    (CaptureStage::Over, CaptureActionView::Finish(result))
}

/// One step of the talk: how far it is after an answer and what is asked then.
/// `None` for an answer that it does not wait for.
pub open spec fn capture_step(
    model: CaptureModel,
    event: CaptureEventView,
) -> Option<(CaptureStage, CaptureActionView)> {
    match (model.stage, event) {
        (CaptureStage::Portal, CaptureEventView::PortalOpened(reply)) => Some(
            match reply {
                Ok(_) => (CaptureStage::Session, CaptureActionView::CreateSession),
                Err(cause) => capture_end(Err(CaptureErrorView::Portal(cause))),
            },
        ),
        (CaptureStage::Session, CaptureEventView::SessionCreated(reply)) => Some(
            match reply {
                Ok(_) => (
                    CaptureStage::Sources,
                    CaptureActionView::SelectSources(
                        selection_of(
                            model.include_cursor,
                            model.source_type,
                            model.restore_token,
                        ),
                    ),
                ),
                Err(cause) => capture_end(Err(CaptureErrorView::Portal(cause))),
            },
        ),
        (CaptureStage::Sources, CaptureEventView::SourcesSelected(reply)) => Some(
            match reply {
                Ok(_) => (CaptureStage::Cast, CaptureActionView::StartCast),
                Err(cause) => capture_end(Err(CaptureErrorView::Portal(cause))),
            },
        ),
        (CaptureStage::Cast, CaptureEventView::CastStarted(reply)) => Some(
            match chosen_node(reply) {
                Ok(node_id) => (CaptureStage::Remote { node_id }, CaptureActionView::OpenRemote),
                Err(error) => capture_end(Err(error)),
            },
        ),
        (CaptureStage::Remote { node_id }, CaptureEventView::RemoteOpened(reply)) => Some(
            match reply {
                Ok(fd) => capture_end(Ok(CaptureStreamView { fd, node_id })),
                Err(cause) => capture_end(Err(CaptureErrorView::Portal(cause))),
            },
        ),
        _ => None,
    }
}

/// The node that was chosen: that of the first stream.
pub open spec fn chosen_node(reply: CastReplyView) -> Result<u32, CaptureErrorView> {
    match reply {
        CastReplyView::Failed(cause) => Err(CaptureErrorView::Portal(cause)),
        CastReplyView::Refused(text) => Err(
            CaptureErrorView::Internal("portal start response: "@ + text),
        ),
        CastReplyView::Streams(nodes) => if nodes.len() > 0 {
            Ok(nodes[0])
        } else {
            Err(CaptureErrorView::Internal("portal returned no streams"@))
        },
    }
}

/// A talk with the portal.
pub struct CaptureSession {
    include_cursor: bool,
    source_type: PortalSourceType,
    restore_token: Option<String>,
    stage: CaptureStage,
}

impl View for CaptureSession {
    type V = CaptureModel;

    closed spec fn view(&self) -> CaptureModel {
        CaptureModel {
            include_cursor: self.include_cursor,
            source_type: self.source_type,
            restore_token: opt_view(self.restore_token),
            stage: self.stage,
        }
    }
}

/// Captures the screen.
pub struct ScreenCapturer {
    options: CaptureOptions,
}

impl ScreenCapturer {
    /// What is captured.
    pub closed spec fn options(&self) -> CaptureOptions {
        self.options
    }

    /// A capturer with these options.
    pub fn new(options: CaptureOptions) -> (r: ScreenCapturer)
        ensures
            r.options() == options,
    {
        ScreenCapturer { options }
    }

    /// Begins the talk with the portal, in which the user chooses what to share.
    pub fn start(&self) -> (r: (CaptureSession, CaptureAction))
        ensures
            r.0@ == (CaptureModel {
                include_cursor: self.options().include_cursor,
                source_type: self.options().source_type,
                restore_token: opt_view(self.options().restore_token),
                stage: CaptureStage::Portal,
            }),
            r.1@ == CaptureActionView::OpenPortal,
    {
        let session: CaptureSession = CaptureSession {
            include_cursor: self.options.include_cursor,
            source_type: self.options.source_type,
            restore_token: clone_opt(&self.options.restore_token),
            stage: CaptureStage::Portal,
        };
        (session, CaptureAction::OpenPortal)
    }
}

/// Says what the user can choose from.
fn select_sources(
    include_cursor: bool,
    source_type: PortalSourceType,
    restore_token: &Option<String>,
) -> (r: SourceSelection)
    ensures
        r@ == selection_of(include_cursor, source_type, opt_view(*restore_token)),
{
    let mut types: Vec<SourceType> = Vec::new();
    types.push(SourceType::from(source_type));
    proof {
        assert(types@ =~= selection_of(include_cursor, source_type, None).types);
    }
    SourceSelection {
        cursor_mode: if include_cursor {
            CursorMode::Embedded
        } else {
            CursorMode::Hidden
        },
        types,
        multiple: false,
        restore_token: clone_opt(restore_token),
        persist_mode: PersistMode::DoNot,
    }
}

/// Takes the node of the first stream that was chosen.
fn first_node(reply: CastReply) -> (r: CaptureResult<u32>)
    ensures
        match r {
            Ok(node_id) => chosen_node(reply@) == Ok::<u32, CaptureErrorView>(node_id),
            Err(error) => chosen_node(reply@) == Err::<u32, CaptureErrorView>(error@),
        },
{
    match reply {
        CastReply::Failed(cause) => Err(CaptureError::from(cause)),
        CastReply::Refused(text) => Err(
            CaptureError::Internal("portal start response: ".to_owned().concat(text.as_str())),
        ),
        CastReply::Streams(nodes) => if nodes.len() > 0 {
            Ok(nodes[0])
        } else {
            Err(CaptureError::Internal("portal returned no streams".to_owned()))
        },
    }
}

/// The talk fails on a request.
fn fail_with(cause: ashpd::Error) -> (r: (CaptureStage, Option<CaptureAction>))
    ensures
        r.1 is Some,
        (r.0, r.1->0@) == capture_end(Err(CaptureErrorView::Portal(cause))),
{
    (CaptureStage::Over, Some(CaptureAction::Finish(Err(CaptureError::from(cause)))))
}

impl CaptureSession {
    /// Takes in what the portal answered and says what to ask next. An answer
    /// that the session does not wait for changes nothing.
    pub fn on_event(&mut self, event: CaptureEvent) -> (r: Option<CaptureAction>)
        ensures
            final(self)@.include_cursor == old(self)@.include_cursor,
            final(self)@.source_type == old(self)@.source_type,
            final(self)@.restore_token == old(self)@.restore_token,
            match capture_step(old(self)@, event@) {
                Some((stage, action)) => final(self)@.stage == stage && r is Some && r->0@
                    == action,
                None => final(self)@.stage == old(self)@.stage && r is None,
            },
    {
        let (stage, action): (CaptureStage, Option<CaptureAction>) = match (self.stage, event) {
            (CaptureStage::Portal, CaptureEvent::PortalOpened(reply)) => match reply {
                Ok(_) => (CaptureStage::Session, Some(CaptureAction::CreateSession)),
                Err(cause) => fail_with(cause),
            },
            (CaptureStage::Session, CaptureEvent::SessionCreated(reply)) => match reply {
                Ok(_) => {
                    let selection: SourceSelection = select_sources(
                        self.include_cursor,
                        self.source_type,
                        &self.restore_token,
                    );
                    (CaptureStage::Sources, Some(CaptureAction::SelectSources(selection)))
                },
                Err(cause) => fail_with(cause),
            },
            (CaptureStage::Sources, CaptureEvent::SourcesSelected(reply)) => match reply {
                Ok(_) => (CaptureStage::Cast, Some(CaptureAction::StartCast)),
                Err(cause) => fail_with(cause),
            },
            (CaptureStage::Cast, CaptureEvent::CastStarted(reply)) => match first_node(reply) {
                Ok(node_id) => (
                    CaptureStage::Remote { node_id },
                    Some(CaptureAction::OpenRemote),
                ),
                Err(error) => (CaptureStage::Over, Some(CaptureAction::Finish(Err(error)))),
            },
            (CaptureStage::Remote { node_id }, CaptureEvent::RemoteOpened(reply)) => match reply {
                Ok(fd) => (
                    CaptureStage::Over,
                    Some(CaptureAction::Finish(Ok(CaptureStream { fd, node_id }))),
                ),
                Err(cause) => fail_with(cause),
            },
            (stage, _) => (stage, None),
        };
        self.stage = stage;
        action
    }
}

// ---------------------------------------------------------------------------
// Where a talk leads
// ---------------------------------------------------------------------------

/// All that the portal can answer in one talk.
pub struct PortalWorld {
    pub portal: Result<(), ashpd::Error>,
    pub session: Result<(), ashpd::Error>,
    pub sources: Result<(), ashpd::Error>,
    pub cast: CastReplyView,
    pub remote: Result<i32, ashpd::Error>,
}

impl PortalWorld {
    /// The answer to what a talk waits for.
    pub open spec fn answer(self, stage: CaptureStage) -> CaptureEventView {
        match stage {
            CaptureStage::Portal => CaptureEventView::PortalOpened(self.portal),
            CaptureStage::Session => CaptureEventView::SessionCreated(self.session),
            CaptureStage::Sources => CaptureEventView::SourcesSelected(self.sources),
            CaptureStage::Cast => CaptureEventView::CastStarted(self.cast),
            CaptureStage::Remote { .. } => CaptureEventView::RemoteOpened(self.remote),
            CaptureStage::Over => CaptureEventView::PortalOpened(self.portal),
        }
    }
}

/// What a talk leads to: a stream if every request is granted, with the node of
/// the first stream that was chosen; or else the error of the first request
/// that is not.
pub open spec fn capture_outcome(
    world: PortalWorld,
) -> Result<CaptureStreamView, CaptureErrorView> {
    match (world.portal, world.session, world.sources, chosen_node(world.cast), world.remote) {
        (Err(cause), _, _, _, _) => Err(CaptureErrorView::Portal(cause)),
        (_, Err(cause), _, _, _) => Err(CaptureErrorView::Portal(cause)),
        (_, _, Err(cause), _, _) => Err(CaptureErrorView::Portal(cause)),
        (_, _, _, Err(error), _) => Err(error),
        (_, _, _, _, Err(cause)) => Err(CaptureErrorView::Portal(cause)),
        (_, _, _, Ok(node_id), Ok(fd)) => Ok(CaptureStreamView { fd, node_id }),
    }
}

/// How many answers can still come.
pub open spec fn answers_left(stage: CaptureStage) -> nat {
    match stage {
        CaptureStage::Portal => 5,
        CaptureStage::Session => 4,
        CaptureStage::Sources => 3,
        CaptureStage::Cast => 2,
        CaptureStage::Remote { .. } => 1,
        CaptureStage::Over => 0,
    }
}

/// What a talk that stands at `model` leads to.
pub open spec fn capture_run(
    world: PortalWorld,
    model: CaptureModel,
) -> Option<Result<CaptureStreamView, CaptureErrorView>>
    decreases answers_left(model.stage),
{
    match capture_step(model, world.answer(model.stage)) {
        Some((_, CaptureActionView::Finish(result))) => Some(result),
        Some((stage, _)) => capture_run(world, CaptureModel { stage, ..model }),
        None => None,
    }
}

/// A talk always ends, and with what `capture_outcome` says.
pub proof fn law_capture_leads_to_the_outcome(world: PortalWorld, model: CaptureModel)
    requires
        model.stage == CaptureStage::Portal,
    ensures
        capture_run(world, model) == Some(capture_outcome(world)),
{
    reveal_with_fuel(capture_run, 6);
}

/// Once there is a session, the portal is asked for the preferred kind of
/// content and for no other.
pub proof fn law_preferred_kind_is_asked_for(model: CaptureModel)
    requires
        model.stage == CaptureStage::Session,
    ensures
        ({
            let step = capture_step(model, CaptureEventView::SessionCreated(Ok(())));
            &&& step is Some
            &&& (step->0).1 is SelectSources
            &&& ((step->0).1->SelectSources_0).types == seq![
                match model.source_type {
                    PortalSourceType::Monitor => SourceType::Monitor,
                    PortalSourceType::Window => SourceType::Window,
                    PortalSourceType::Virtual => SourceType::Virtual,
                },
            ]
        }),
{
}

/// A capture fails with the portal's own error or with an internal one, and
/// with the portal's error where there is no portal.
pub proof fn law_capture_fails_with_a_typed_error(world: PortalWorld)
    ensures
        match capture_outcome(world) {
            Ok(_) => world.portal is Ok,
            Err(error) => error is Portal || error is Internal,
        },
        world.portal matches Err(cause) ==> capture_outcome(world)
            == Err::<CaptureStreamView, CaptureErrorView>(CaptureErrorView::Portal(cause)),
{
}

/// What the portal is asked for is what the options say, each of them on its
/// own: the cursor is drawn in exactly where the options include it, whatever
/// the kind of content and the token; the kind of content is the preferred one
/// and no other; and the token is that of the options. One source can be chosen,
/// and the choice is not remembered.
pub proof fn law_portal_is_asked_for_the_options(
    options: CaptureOptions,
    capturer: ScreenCapturer,
    begun: (CaptureSession, CaptureAction),
    kind: SourceType,
)
    requires
        call_ensures(ScreenCapturer::new, (options,), capturer),
        call_ensures(ScreenCapturer::start, (&capturer,), begun),
        call_ensures(<SourceType as From<PortalSourceType>>::from, (options.source_type,), kind),
    ensures
        begun.1 is OpenPortal,
        begun.0@.stage == CaptureStage::Portal,
        capture_step(begun.0@, CaptureEventView::PortalOpened(Ok(()))) == Some(
            (CaptureStage::Session, CaptureActionView::CreateSession),
        ),
        capture_step(
            (CaptureModel { stage: CaptureStage::Session, ..begun.0@ }),
            CaptureEventView::SessionCreated(Ok(())),
        ) matches Some((stage, CaptureActionView::SelectSources(selection))) && {
            &&& stage == CaptureStage::Sources
            &&& options.include_cursor ==> selection.cursor_mode == CursorMode::Embedded
            &&& !options.include_cursor ==> selection.cursor_mode == CursorMode::Hidden
            &&& selection.types.len() == 1
            &&& selection.types[0] == kind
            &&& options.restore_token matches Some(token) ==> selection.restore_token == Some(
                token@,
            )
            &&& options.restore_token is None ==> selection.restore_token is None
            &&& !selection.multiple
            &&& selection.persist_mode == PersistMode::DoNot
        },
{
}

/// The kinds of content keep their names with the portal.
pub proof fn law_kinds_keep_their_names(source_type: PortalSourceType, kind: SourceType)
    requires
        call_ensures(<SourceType as From<PortalSourceType>>::from, (source_type,), kind),
    ensures
        source_type is Monitor <==> kind is Monitor,
        source_type is Window <==> kind is Window,
        source_type is Virtual <==> kind is Virtual,
{
}

/// There is a stream exactly where every request is granted and at least one
/// stream was chosen; it has the descriptor that was opened and the node of the
/// first stream.
pub proof fn law_stream_is_what_the_portal_gave(world: PortalWorld)
    ensures
        capture_outcome(world) is Ok <==> {
            &&& world.portal is Ok
            &&& world.session is Ok
            &&& world.sources is Ok
            &&& world.cast is Streams
            &&& world.cast->Streams_0.len() > 0
            &&& world.remote is Ok
        },
        capture_outcome(world) matches Ok(stream) ==> stream.fd == world.remote->Ok_0
            && stream.node_id == world.cast->Streams_0[0],
{
}

/// A request that fails before any other is the error of the capture, as the
/// portal gave it; a refusal is told with its text, and a choice of nothing as
/// such.
pub proof fn law_first_failure_is_the_error(world: PortalWorld, cause: ashpd::Error)
    ensures
        world.portal == Err::<(), ashpd::Error>(cause) ==> capture_outcome(world) == Err::<
            CaptureStreamView,
            CaptureErrorView,
        >(CaptureErrorView::Portal(cause)),
        world.portal is Ok && world.session == Err::<(), ashpd::Error>(cause) ==> capture_outcome(
            world,
        ) == Err::<CaptureStreamView, CaptureErrorView>(CaptureErrorView::Portal(cause)),
        world.portal is Ok && world.session is Ok && world.sources == Err::<(), ashpd::Error>(cause)
            ==> capture_outcome(world) == Err::<CaptureStreamView, CaptureErrorView>(
            CaptureErrorView::Portal(cause),
        ),
        world.portal is Ok && world.session is Ok && world.sources is Ok ==> match world.cast {
            CastReplyView::Failed(failure) => capture_outcome(world) == Err::<
                CaptureStreamView,
                CaptureErrorView,
            >(CaptureErrorView::Portal(failure)),
            CastReplyView::Refused(text) => capture_outcome(world) == Err::<
                CaptureStreamView,
                CaptureErrorView,
            >(CaptureErrorView::Internal("portal start response: "@ + text)),
            CastReplyView::Streams(nodes) => {
                &&& nodes.len() == 0 ==> capture_outcome(world) == Err::<
                    CaptureStreamView,
                    CaptureErrorView,
                >(CaptureErrorView::Internal("portal returned no streams"@))
                &&& nodes.len() > 0 && world.remote == Err::<i32, ashpd::Error>(cause)
                    ==> capture_outcome(world) == Err::<CaptureStreamView, CaptureErrorView>(
                    CaptureErrorView::Portal(cause),
                )
            },
        },
{
}

/// What a session asks is what it then waits for.
pub proof fn law_capture_waits_for_what_it_asks(model: CaptureModel, event: CaptureEventView)
    requires
        capture_step(model, event) is Some,
    ensures
        ({
            let (next, action) = capture_step(model, event)->0;
            match next {
                CaptureStage::Portal => false,
                CaptureStage::Session => action is CreateSession,
                CaptureStage::Sources => action is SelectSources,
                CaptureStage::Cast => action is StartCast,
                CaptureStage::Remote { .. } => action is OpenRemote,
                CaptureStage::Over => action is Finish,
            }
        }),
{
}

/// A session takes in only the answer that it waits for, and takes that in
/// always.
pub proof fn law_capture_takes_in_what_it_waits_for(model: CaptureModel, event: CaptureEventView)
    ensures
        capture_step(model, event) is Some <==> match model.stage {
            CaptureStage::Portal => event is PortalOpened,
            CaptureStage::Session => event is SessionCreated,
            CaptureStage::Sources => event is SourcesSelected,
            CaptureStage::Cast => event is CastStarted,
            CaptureStage::Remote { .. } => event is RemoteOpened,
            CaptureStage::Over => false,
        },
{
}

/// There is a back-end exactly where the portal could be opened, and a capture is
/// possible exactly where there is a back-end.
pub proof fn law_portal_makes_the_back_end(
    portal: Result<(), ashpd::Error>,
    backend: CaptureBackend,
    available: bool,
)
    requires
        call_ensures(CaptureBackend::detect, (&portal,), backend),
        call_ensures(CaptureBackend::is_available, (&backend,), available),
    ensures
        available <==> portal is Ok,
        backend is PipeWirePortal <==> portal is Ok,
{
}

/// A stream tells one node, and one descriptor, whether it is borrowed or taken
/// over.
pub proof fn law_stream_keeps_its_descriptor(
    stream: CaptureStream,
    borrowed: i32,
    taken: i32,
    node_id: u32,
)
    requires
        call_ensures(CaptureStream::as_raw_fd, (&stream,), borrowed),
        call_ensures(CaptureStream::into_raw_fd, (stream,), taken),
        call_ensures(CaptureStream::node_id, (&stream,), node_id),
    ensures
        borrowed == taken,
        stream@ == (CaptureStreamView { fd: taken, node_id }),
{
}

/// What is said of an error begins with its heading, goes on with the whole of
/// its cause, and holds nothing else.
pub proof fn law_capture_error_says_its_cause(error: CaptureError, text: String)
    requires
        call_ensures(CaptureError::to_string, (&error,), text),
    ensures
        match error {
            CaptureError::Portal(cause) => exists|said: String|
                {
                    &&& #[trigger] to_string_from_display_ensures::<ashpd::Error>(&cause, said)
                    &&& "XDG portal error: "@.is_prefix_of(text@)
                    &&& text@.skip("XDG portal error: "@.len() as int) == said@
                },
            CaptureError::Unavailable(cause) => {
                &&& "Capture back-end unavailable: "@.is_prefix_of(text@)
                &&& text@.skip("Capture back-end unavailable: "@.len() as int) == cause@
            },
            CaptureError::NotStarted => text@
                == "PipeWire FD not yet available – call start() first"@,
            CaptureError::Internal(cause) => {
                &&& "Internal error: "@.is_prefix_of(text@)
                &&& text@.skip("Internal error: "@.len() as int) == cause@
            },
        },
{
    match error {
        CaptureError::Portal(cause) => {
            let said = choose|said: String|
                #[trigger] to_string_from_display_ensures::<ashpd::Error>(&cause, said) && text@
                    == portal_failure(said@);
            let heading = "XDG portal error: "@;
            assert(to_string_from_display_ensures::<ashpd::Error>(&cause, said));
            assert(text@.subrange(0, heading.len() as int) =~= heading);
            assert(text@.skip(heading.len() as int) =~= said@);
        },
        CaptureError::Unavailable(cause) => {
            let heading = "Capture back-end unavailable: "@;
            assert(text@.subrange(0, heading.len() as int) =~= heading);
            assert(text@.skip(heading.len() as int) =~= cause@);
        },
        CaptureError::Internal(cause) => {
            let heading = "Internal error: "@;
            assert(text@.subrange(0, heading.len() as int) =~= heading);
            assert(text@.skip(heading.len() as int) =~= cause@);
        },
        CaptureError::NotStarted => {},
    }
}

/// The heading says what it says of any text.
pub proof fn law_portal_heading_keeps_the_text(cause: &str, failure: String)
    requires
        call_ensures(portal_failure_text, (cause,), failure),
    ensures
        failure@ == "XDG portal error: "@ + cause@,
{
}

/// What is seen of an answer is what it holds.
pub proof fn law_portal_answers_are_seen_as_they_are(event: CaptureEvent, reply: CastReply)
    ensures
        match event {
            CaptureEvent::PortalOpened(reply) => event@ == CaptureEventView::PortalOpened(reply),
            CaptureEvent::SessionCreated(reply) => event@ == CaptureEventView::SessionCreated(
                reply,
            ),
            CaptureEvent::SourcesSelected(reply) => event@ == CaptureEventView::SourcesSelected(
                reply,
            ),
            CaptureEvent::CastStarted(reply) => event@ == CaptureEventView::CastStarted(reply@),
            CaptureEvent::RemoteOpened(reply) => event@ == CaptureEventView::RemoteOpened(reply),
        },
        match reply {
            CastReply::Failed(cause) => reply@ == CastReplyView::Failed(cause),
            CastReply::Refused(text) => reply@ == CastReplyView::Refused(text@),
            CastReply::Streams(nodes) => reply@ == CastReplyView::Streams(nodes@),
        },
{
}

/// What is seen of a request is what it holds, and so with a selection and with
/// an error.
pub proof fn law_portal_requests_are_seen_as_they_are(
    action: CaptureAction,
    selection: SourceSelection,
    error: CaptureError,
)
    ensures
        match action {
            CaptureAction::OpenPortal => action@ is OpenPortal,
            CaptureAction::CreateSession => action@ is CreateSession,
            CaptureAction::SelectSources(selection) => action@ == CaptureActionView::SelectSources(
                selection@,
            ),
            CaptureAction::StartCast => action@ is StartCast,
            CaptureAction::OpenRemote => action@ is OpenRemote,
            CaptureAction::Finish(result) => action@ matches CaptureActionView::Finish(seen) && (
            match result {
                Ok(stream) => seen == Ok::<CaptureStreamView, CaptureErrorView>(stream@),
                Err(error) => seen == Err::<CaptureStreamView, CaptureErrorView>(error@),
            }),
        },
        selection@.cursor_mode == selection.cursor_mode,
        selection@.types == selection.types@,
        selection@.multiple == selection.multiple,
        selection@.persist_mode == selection.persist_mode,
        selection.restore_token matches Some(token) ==> selection@.restore_token == Some(token@),
        selection.restore_token is None ==> selection@.restore_token is None,
        match error {
            CaptureError::Portal(cause) => error@ == CaptureErrorView::Portal(cause),
            CaptureError::Unavailable(text) => error@ == CaptureErrorView::Unavailable(text@),
            CaptureError::NotStarted => error@ is NotStarted,
            CaptureError::Internal(text) => error@ == CaptureErrorView::Internal(text@),
        },
{
}

/// A capture that is begun opens the portal first, and leads to what
/// `capture_outcome` says.
pub proof fn law_begun_capture_leads_to_the_outcome(
    capturer: ScreenCapturer,
    begun: (CaptureSession, CaptureAction),
    world: PortalWorld,
)
    requires
        call_ensures(ScreenCapturer::start, (&capturer,), begun),
    ensures
        begun.1 is OpenPortal,
        capture_run(world, begun.0@) == Some(capture_outcome(world)),
{
    law_capture_leads_to_the_outcome(world, begun.0@);
}

/// A failed request becomes the error that holds it, as it came.
pub proof fn law_portal_failures_are_kept(cause: ashpd::Error, error: CaptureError)
    requires
        call_ensures(<CaptureError as From<ashpd::Error>>::from, (cause,), error),
    ensures
        error == CaptureError::Portal(cause),
{
}

} // verus!
