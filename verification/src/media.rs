//! The media pipeline: frames from PipeWire, encoded to H.264 and packed for
//! RTP.
//!
//! ```text
//! pipewiresrc -> videoconvert -> videoscale -> videorate
//!     -> vaapih264enc | x264enc
//!     -> h264parse -> capsfilter(byte-stream) -> rtph264pay -> appsink
//! ```
//!
//! No filter stands before the encoder. A constraint there would travel back to
//! `pipewiresrc`, and the portal offers its own formats only.
//!
//! [`PipelineBuild`] says what to make next; the program around it makes it with
//! GStreamer, and hands back whether that worked.

use crate::text::{decimal, decimal_text, law_decimal_reads_back, number_of};
use vstd::prelude::*;
use vstd::string::*;

verus! {

// ---------------------------------------------------------------------------
// Errors
// ---------------------------------------------------------------------------

/// Why there is no pipeline.
#[derive(Debug)]
pub enum MediaError {
    /// GStreamer could not be initialised.
    Init(String),
    /// An element could not be made.
    ElementCreate { name: &'static str },
    /// The elements could not be put together.
    Link(String),
    /// The pipeline did not take a state.
    StateChange(String),
    /// Anything else.
    Internal(String),
}

/// The result of an operation on a pipeline.
pub type MediaResult<T> = Result<T, MediaError>;

/// What a [`MediaError`] holds, as plain values.
pub enum MediaErrorView {
    Init(Seq<char>),
    ElementCreate { name: Seq<char> },
    Link(Seq<char>),
    StateChange(Seq<char>),
    Internal(Seq<char>),
}

impl View for MediaError {
    type V = MediaErrorView;

    open spec fn view(&self) -> MediaErrorView {
        match self {
            MediaError::Init(text) => MediaErrorView::Init(text@),
            MediaError::ElementCreate { name } => MediaErrorView::ElementCreate { name: name@ },
            MediaError::Link(text) => MediaErrorView::Link(text@),
            MediaError::StateChange(text) => MediaErrorView::StateChange(text@),
            MediaError::Internal(text) => MediaErrorView::Internal(text@),
        }
    }
}

impl MediaErrorView {
    /// What is said of an error.
    pub open spec fn text(self) -> Seq<char> {
        match self {
            MediaErrorView::Init(cause) => "GStreamer initialisation failed: "@ + cause,
            MediaErrorView::ElementCreate { name } => "Element `"@ + name
                + "` could not be created: plugin missing?"@,
            MediaErrorView::Link(cause) => "Failed to link elements: "@ + cause,
            MediaErrorView::StateChange(cause) => "Pipeline state change failed: "@ + cause,
            MediaErrorView::Internal(cause) => "Internal error: "@ + cause,
        }
    }
}

impl MediaError {
    /// What is said of the error.
    pub fn to_string(&self) -> (r: String)
        ensures
            r@ == self@.text(),
    {
        match self {
            MediaError::Init(cause) => {
                "GStreamer initialisation failed: ".to_owned().concat(cause.as_str())
            },
            MediaError::ElementCreate { name } => {
                "Element `".to_owned().concat(name).concat(
                    "` could not be created: plugin missing?",
                )
            },
            MediaError::Link(cause) => {
                "Failed to link elements: ".to_owned().concat(cause.as_str())
            },
            MediaError::StateChange(cause) => {
                "Pipeline state change failed: ".to_owned().concat(cause.as_str())
            },
            MediaError::Internal(cause) => {
                "Internal error: ".to_owned().concat(cause.as_str())
            },
        }
    }
}

// ---------------------------------------------------------------------------
// Encoder
// ---------------------------------------------------------------------------

/// An H.264 encoder.
#[derive(Debug, Clone, Copy, PartialEq, Eq, Structural)]
pub enum EncoderBackend {
    /// The hardware encoder behind VA-API (`vaapih264enc`).
    VaapiHardware,
    /// The software encoder x264 (`x264enc`).
    X264Software,
}

impl EncoderBackend {
    /// The text that names an encoder.
    pub open spec fn text(self) -> Seq<char> {
        match self {
            EncoderBackend::VaapiHardware => "vaapih264enc (hardware)"@,
            EncoderBackend::X264Software => "x264enc (software)"@,
        }
    }

    /// The factory that makes an encoder.
    pub open spec fn spec_factory(self) -> Seq<char> {
        match self {
            EncoderBackend::VaapiHardware => "vaapih264enc"@,
            EncoderBackend::X264Software => "x264enc"@,
        }
    }

    /// The text that names the encoder.
    pub fn to_string(&self) -> (r: String)
        ensures
            r@ == self.text(),
    {
        match self {
            EncoderBackend::VaapiHardware => "vaapih264enc (hardware)".to_owned(),
            EncoderBackend::X264Software => "x264enc (software)".to_owned(),
        }
    }

    /// The factory that makes the encoder.
    pub fn factory(&self) -> (r: &'static str)
        ensures
            r@ == self.spec_factory(),
    {
        match self {
            EncoderBackend::VaapiHardware => "vaapih264enc",
            EncoderBackend::X264Software => "x264enc",
        }
    }
}

/// The encoder to prefer: the hardware if it is there, and else the software.
pub open spec fn preferred_encoder(vaapi_available: bool) -> EncoderBackend {
    if vaapi_available {
        EncoderBackend::VaapiHardware
    } else {
        EncoderBackend::X264Software
    }
}

/// The encoder to prefer, where `vaapi_available` is whether there is a factory
/// for `vaapih264enc`.
pub fn detect_encoder(vaapi_available: bool) -> (r: EncoderBackend)
    ensures
        r == preferred_encoder(vaapi_available),
{
    if vaapi_available {
        EncoderBackend::VaapiHardware
    } else {
        EncoderBackend::X264Software
    }
}

// ---------------------------------------------------------------------------
// Configuration
// ---------------------------------------------------------------------------

/// What a pipeline is made for.
#[derive(Debug, Clone)]
pub struct PipelineConfig {
    /// The PipeWire file descriptor from the portal. Only the connection behind
    /// it can see the node.
    pub pipewire_fd: i32,
    /// The PipeWire node.
    pub pipewire_node_id: u32,
    /// Bit rate in kbit/s.
    pub bitrate_kbps: u32,
    /// Frames per second.
    pub framerate: u32,
    /// Width in pixels that the screen is meant to stay within. It limits
    /// nothing: a limit on the size would be a constraint before the encoder.
    pub max_width: u32,
    /// Height in pixels that the screen is meant to stay within. As
    /// `max_width`, it limits nothing.
    pub max_height: u32,
    /// The encoder to use, whatever is available.
    pub encoder_override: Option<EncoderBackend>,
}

impl Default for PipelineConfig {
    /// Thirty frames per second and 4000 kbit/s, with no connection
    /// yet.
    fn default() -> (r: PipelineConfig)
        ensures
            r.pipewire_fd == -1,
            r.pipewire_node_id == 0,
            r.bitrate_kbps == 4_000,
            r.framerate == 30,
            r.max_width == 1920,
            r.max_height == 1080,
            r.encoder_override is None,
    {
        PipelineConfig {
            pipewire_fd: -1,
            pipewire_node_id: 0,
            bitrate_kbps: 4_000,
            framerate: 30,
            max_width: 1920,
            max_height: 1080,
            encoder_override: None,
        }
    }
}

// ---------------------------------------------------------------------------
// Elements
// ---------------------------------------------------------------------------

/// The value of a property of an element.
#[derive(Debug)]
pub enum PropertyValue {
    /// A signed number.
    Int(i32),
    /// An unsigned number.
    UInt(u32),
    /// A truth value.
    Bool(bool),
    /// A text.
    Text(String),
    /// A value in GStreamer's own notation, of whatever type the property has.
    Parsed(&'static str),
    /// Caps: a media type, and fields with their values.
    Caps { media: &'static str, fields: Vec<(&'static str, &'static str)> },
}

/// What a [`PropertyValue`] holds, as plain values.
pub enum PropertyValueView {
    Int(i32),
    UInt(u32),
    Bool(bool),
    Text(Seq<char>),
    Parsed(Seq<char>),
    Caps { media: Seq<char>, fields: Seq<(Seq<char>, Seq<char>)> },
}

impl View for PropertyValue {
    type V = PropertyValueView;

    open spec fn view(&self) -> PropertyValueView {
        match self {
            PropertyValue::Int(value) => PropertyValueView::Int(*value),
            PropertyValue::UInt(value) => PropertyValueView::UInt(*value),
            PropertyValue::Bool(value) => PropertyValueView::Bool(*value),
            PropertyValue::Text(value) => PropertyValueView::Text(value@),
            PropertyValue::Parsed(value) => PropertyValueView::Parsed(value@),
            PropertyValue::Caps { media, fields } => PropertyValueView::Caps {
                media: media@,
                fields: fields@.map_values(
                    |field: (&'static str, &'static str)| (field.0@, field.1@),
                ),
            },
        }
    }
}

/// A property of an element and its value.
#[derive(Debug)]
pub struct Property {
    pub name: &'static str,
    pub value: PropertyValue,
}

/// What a [`Property`] holds, as plain values.
pub struct PropertyView {
    pub name: Seq<char>,
    pub value: PropertyValueView,
}

impl View for Property {
    type V = PropertyView;

    open spec fn view(&self) -> PropertyView {
        PropertyView { name: self.name@, value: self.value@ }
    }
}

/// The properties of a list, as plain values.
pub open spec fn property_views(properties: Seq<Property>) -> Seq<PropertyView> {
    properties.map_values(|property: Property| property@)
}

/// An element of the pipeline: the factory that makes it, the name that it is
/// given, and the properties that are then set, in order.
#[derive(Debug)]
pub struct ElementPlan {
    pub factory: &'static str,
    pub name: Option<&'static str>,
    pub properties: Vec<Property>,
}

/// What an [`ElementPlan`] holds, as plain values.
pub struct ElementView {
    pub factory: Seq<char>,
    pub name: Option<Seq<char>>,
    pub properties: Seq<PropertyView>,
}

impl View for ElementPlan {
    type V = ElementView;

    open spec fn view(&self) -> ElementView {
        ElementView {
            factory: self.factory@,
            name: match self.name {
                Some(name) => Some(name@),
                None => None,
            },
            properties: property_views(self.properties@),
        }
    }
}

/// A frame rate as the signed number that `videorate` takes. One that is out of
/// its range counts down from zero.
pub open spec fn rate_limit(framerate: u32) -> i32 {
    if framerate <= i32::MAX {
        framerate as i32
    } else {
        (framerate - 0x1_0000_0000) as i32
    }
}

/// An element without a name of its own.
pub open spec fn plain(factory: Seq<char>, properties: Seq<PropertyView>) -> ElementView {
    ElementView { factory, name: None, properties }
}

/// A property and its value.
pub open spec fn prop(name: Seq<char>, value: PropertyValueView) -> PropertyView {
    PropertyView { name, value }
}

/// The source: the portal's connection, and the node in it.
pub open spec fn source_element(config: PipelineConfig) -> ElementView {
    plain(
        "pipewiresrc"@,
        seq![
            prop("fd"@, PropertyValueView::Int(config.pipewire_fd)),
            prop("path"@, PropertyValueView::Text(decimal(config.pipewire_node_id as nat))),
            prop("do-timestamp"@, PropertyValueView::Bool(true)),
        ],
    )
}

/// The encoder, under the name by which it can be found again.
pub open spec fn encoder_element(config: PipelineConfig, encoder: EncoderBackend) -> ElementView {
    ElementView {
        factory: encoder.spec_factory(),
        name: Some("lnxcast-encoder"@),
        properties: match encoder {
            EncoderBackend::VaapiHardware => seq![
                prop("bitrate"@, PropertyValueView::UInt(config.bitrate_kbps)),
                prop("rate-control"@, PropertyValueView::Parsed("cbr"@)),
            ],
            EncoderBackend::X264Software => seq![
                prop("bitrate"@, PropertyValueView::UInt(config.bitrate_kbps)),
                prop("tune"@, PropertyValueView::Parsed("zerolatency"@)),
                prop("speed-preset"@, PropertyValueView::Parsed("ultrafast"@)),
            ],
        },
    }
}

/// What the RTP payloader can take: a byte stream, cut at access units.
pub open spec fn stream_caps() -> PropertyValueView {
    PropertyValueView::Caps {
        media: "video/x-h264"@,
        fields: seq![("stream-format"@, "byte-stream"@), ("alignment"@, "au"@)],
    }
}

/// The elements of a pipeline, from the source to the sink.
pub open spec fn pipeline_elements(
    config: PipelineConfig,
    encoder: EncoderBackend,
) -> Seq<ElementView> {
    seq![
        source_element(config),
        plain("videoconvert"@, seq![]),
        plain("videoscale"@, seq![prop("method"@, PropertyValueView::Parsed("bilinear"@))]),
        plain(
            "videorate"@,
            seq![
                prop("max-rate"@, PropertyValueView::Int(rate_limit(config.framerate))),
                prop("drop-only"@, PropertyValueView::Parsed("true"@)),
            ],
        ),
        encoder_element(config, encoder),
        plain("h264parse"@, seq![]),
        plain("capsfilter"@, seq![prop("caps"@, stream_caps())]),
        plain(
            "rtph264pay"@,
            seq![
                prop("config-interval"@, PropertyValueView::Int(1)),
                prop("pt"@, PropertyValueView::UInt(96)),
            ],
        ),
        plain(
            "appsink"@,
            seq![
                prop("emit-signals"@, PropertyValueView::Bool(true)),
                prop("sync"@, PropertyValueView::Bool(false)),
            ],
        ),
    ]
}

/// Adds a property to a list.
fn push_property(properties: &mut Vec<Property>, name: &'static str, value: PropertyValue)
    ensures
        property_views(final(properties)@) == property_views(old(properties)@).push(
            prop(name@, value@),
        ),
{
    let property: Property = Property { name, value };
    let ghost added = property;
    properties.push(property);
    proof {
        assert(property_views(properties@) =~= property_views(old(properties)@).push(added@));
    }
}

/// The frame rate as the signed number that `videorate` takes.
fn signed_rate(framerate: u32) -> (r: i32)
    ensures
        r == rate_limit(framerate),
{
    proof {
        assert(framerate <= 0x7fff_ffff ==> (framerate as i32) == framerate) by (bit_vector);
        assert(framerate > 0x7fff_ffff ==> (framerate as i32) == framerate - 0x1_0000_0000)
            by (bit_vector);
    }
    framerate as i32
}

/// The caps that the RTP payloader can take.
fn make_stream_caps() -> (r: PropertyValue)
    ensures
        r@ == stream_caps(),
{
    let mut fields: Vec<(&'static str, &'static str)> = Vec::new();
    fields.push(("stream-format", "byte-stream"));
    fields.push(("alignment", "au"));
    let r: PropertyValue = PropertyValue::Caps { media: "video/x-h264", fields };
    proof {
        assert(r@->fields =~= stream_caps()->fields);
    }
    r
}

/// Plans the encoder.
fn plan_encoder(config: &PipelineConfig, encoder: EncoderBackend) -> (r: ElementPlan)
    ensures
        r@ == encoder_element(*config, encoder),
{
    let mut properties: Vec<Property> = Vec::new();
    push_property(&mut properties, "bitrate", PropertyValue::UInt(config.bitrate_kbps));
    match encoder {
        EncoderBackend::VaapiHardware => {
            push_property(&mut properties, "rate-control", PropertyValue::Parsed("cbr"));
        },
        EncoderBackend::X264Software => {
            push_property(&mut properties, "tune", PropertyValue::Parsed("zerolatency"));
            push_property(&mut properties, "speed-preset", PropertyValue::Parsed("ultrafast"));
        },
    }
    proof {
        assert(property_views(properties@) =~= encoder_element(*config, encoder).properties);
    }
    ElementPlan { factory: encoder.factory(), name: Some("lnxcast-encoder"), properties }
}

/// The factory of the element at `index`.
fn factory_at(encoder: EncoderBackend, index: usize) -> (r: &'static str)
    requires
        index < 9,
    ensures
        forall|config: PipelineConfig|
            r@ == (#[trigger] pipeline_elements(config, encoder))[index as int].factory,
{
    if index == 0 {
        "pipewiresrc"
    } else if index == 1 {
        "videoconvert"
    } else if index == 2 {
        "videoscale"
    } else if index == 3 {
        "videorate"
    } else if index == 4 {
        encoder.factory()
    } else if index == 5 {
        "h264parse"
    } else if index == 6 {
        "capsfilter"
    } else if index == 7 {
        "rtph264pay"
    } else {
        "appsink"
    }
}

/// Plans the element at `index`.
fn plan_element(config: &PipelineConfig, encoder: EncoderBackend, index: usize) -> (r: ElementPlan)
    requires
        index < 9,
    ensures
        r@ == pipeline_elements(*config, encoder)[index as int],
{
    let ghost wanted = pipeline_elements(*config, encoder)[index as int];
    if index == 4 {
        return plan_encoder(config, encoder);
    }
    let mut properties: Vec<Property> = Vec::new();
    if index == 0 {
        let path: String = decimal_text(config.pipewire_node_id);
        push_property(&mut properties, "fd", PropertyValue::Int(config.pipewire_fd));
        push_property(&mut properties, "path", PropertyValue::Text(path));
        push_property(&mut properties, "do-timestamp", PropertyValue::Bool(true));
    } else if index == 2 {
        push_property(&mut properties, "method", PropertyValue::Parsed("bilinear"));
    } else if index == 3 {
        let limit: i32 = signed_rate(config.framerate);
        push_property(&mut properties, "max-rate", PropertyValue::Int(limit));
        push_property(&mut properties, "drop-only", PropertyValue::Parsed("true"));
    } else if index == 6 {
        push_property(&mut properties, "caps", make_stream_caps());
    } else if index == 7 {
        // The parameter sets go along with the stream, once a second.
        push_property(&mut properties, "config-interval", PropertyValue::Int(1));
        push_property(&mut properties, "pt", PropertyValue::UInt(96));
    } else if index == 8 {
        push_property(&mut properties, "emit-signals", PropertyValue::Bool(true));
        push_property(&mut properties, "sync", PropertyValue::Bool(false));
    }
    proof {
        assert(property_views(properties@) =~= wanted.properties);
    }
    ElementPlan { factory: factory_at(encoder, index), name: None, properties }
}

// ---------------------------------------------------------------------------
// The pipeline
// ---------------------------------------------------------------------------

/// A pipeline that was built.
#[derive(Debug)]
pub struct MediaPipeline {
    encoder: EncoderBackend,
}

/// What a [`MediaPipeline`] holds.
impl View for MediaPipeline {
    type V = EncoderBackend;

    closed spec fn view(&self) -> EncoderBackend {
        self.encoder
    }
}

/// What came of asking the pipeline for a state, given the reply.
pub open spec fn state_reply(reply: Result<(), String>) -> Result<(), MediaErrorView> {
    match reply {
        Ok(_) => Ok(()),
        Err(text) => Err(MediaErrorView::StateChange(text@)),
    }
}

/// The result of an operation, with its error as plain values.
pub open spec fn result_view<T>(result: MediaResult<T>) -> Result<T, MediaErrorView> {
    match result {
        Ok(value) => Ok(value),
        Err(error) => Err(error@),
    }
}

impl MediaPipeline {
    /// Begins to build a pipeline.
    pub fn build(config: &PipelineConfig) -> (r: (PipelineBuild, BuildAction))
        ensures
            r.0.config() == *config,
            r.0.stage() == BuildStage::Initialising,
            r.1@ == BuildActionView::Initialise,
    {
        let config: PipelineConfig = PipelineConfig {
            pipewire_fd: config.pipewire_fd,
            pipewire_node_id: config.pipewire_node_id,
            bitrate_kbps: config.bitrate_kbps,
            framerate: config.framerate,
            max_width: config.max_width,
            max_height: config.max_height,
            encoder_override: config.encoder_override,
        };
        (
            PipelineBuild { config, stage: BuildStage::Initialising },
            BuildAction::Initialise,
        )
    }

    /// The encoder that was chosen.
    pub fn encoder(&self) -> (r: EncoderBackend)
        ensures
            r == self@,
    {
        self.encoder
    }

    /// What came of starting the pipeline, where `reply` is what it said to the
    /// state `PLAYING`.
    pub fn play(&self, reply: Result<(), String>) -> (r: MediaResult<()>)
        ensures
            result_view(r) == state_reply(reply),
    {
        match reply {
            Ok(_) => Ok(()),
            Err(text) => Err(MediaError::StateChange(text)),
        }
    }

    /// What came of stopping the pipeline, where `reply` is what it said to the
    /// state `NULL`.
    pub fn stop(&self, reply: Result<(), String>) -> (r: MediaResult<()>)
        ensures
            result_view(r) == state_reply(reply),
    {
        match reply {
            Ok(_) => Ok(()),
            Err(text) => Err(MediaError::StateChange(text)),
        }
    }
}

/// What to do next to build a pipeline.
#[derive(Debug)]
pub enum BuildAction {
    /// Initialise GStreamer.
    Initialise,
    /// See whether there is a factory of this name.
    FindFactory(&'static str),
    /// Make an empty pipeline of this name.
    CreatePipeline(&'static str),
    /// Make an element and set its properties.
    Make(ElementPlan),
    /// Put all the elements into the pipeline.
    AddAll,
    /// Link the elements, each to the next.
    LinkAll,
    /// The work is over.
    Finish(MediaResult<MediaPipeline>),
}

/// What a [`BuildAction`] holds, as plain values.
pub enum BuildActionView {
    Initialise,
    FindFactory(Seq<char>),
    CreatePipeline(Seq<char>),
    Make(ElementView),
    AddAll,
    LinkAll,
    Finish(Result<EncoderBackend, MediaErrorView>),
}

impl View for BuildAction {
    type V = BuildActionView;

    open spec fn view(&self) -> BuildActionView {
        match self {
            BuildAction::Initialise => BuildActionView::Initialise,
            BuildAction::FindFactory(name) => BuildActionView::FindFactory(name@),
            BuildAction::CreatePipeline(name) => BuildActionView::CreatePipeline(name@),
            BuildAction::Make(element) => BuildActionView::Make(element@),
            BuildAction::AddAll => BuildActionView::AddAll,
            BuildAction::LinkAll => BuildActionView::LinkAll,
            BuildAction::Finish(result) => BuildActionView::Finish(
                match result {
                    Ok(pipeline) => Ok(pipeline@),
                    Err(error) => Err(error@),
                },
            ),
        }
    }
}

/// What came of an action. A failure is told by its text.
#[derive(Debug)]
pub enum BuildEvent {
    /// Whether GStreamer is initialised.
    Initialised(Result<(), String>),
    /// Whether there is such a factory.
    FactoryFound(bool),
    /// There is a pipeline.
    Created,
    /// Whether the element could be made.
    Made(bool),
    /// Whether the elements are in the pipeline.
    Added(Result<(), String>),
    /// Whether the elements are linked.
    Linked(Result<(), String>),
}

/// What a [`BuildEvent`] holds, as plain values.
pub enum BuildEventView {
    Initialised(Result<(), Seq<char>>),
    FactoryFound(bool),
    Created,
    Made(bool),
    Added(Result<(), Seq<char>>),
    Linked(Result<(), Seq<char>>),
}

/// A reply, with the text of a failure as plain values.
pub open spec fn reply_view(reply: Result<(), String>) -> Result<(), Seq<char>> {
    match reply {
        Ok(_) => Ok(()),
        Err(text) => Err(text@),
    }
}

impl View for BuildEvent {
    type V = BuildEventView;

    open spec fn view(&self) -> BuildEventView {
        match self {
            BuildEvent::Initialised(reply) => BuildEventView::Initialised(reply_view(*reply)),
            BuildEvent::FactoryFound(found) => BuildEventView::FactoryFound(*found),
            BuildEvent::Created => BuildEventView::Created,
            BuildEvent::Made(ok) => BuildEventView::Made(*ok),
            BuildEvent::Added(reply) => BuildEventView::Added(reply_view(*reply)),
            BuildEvent::Linked(reply) => BuildEventView::Linked(reply_view(*reply)),
        }
    }
}

/// How far the work is.
#[derive(Debug, Clone, Copy, PartialEq, Eq, Structural)]
pub enum BuildStage {
    /// Waits for GStreamer.
    Initialising,
    /// Waits to hear of the hardware encoder.
    Probing,
    /// Waits for the pipeline.
    Creating { encoder: EncoderBackend },
    /// Waits for the element at `index`.
    Making { encoder: EncoderBackend, index: usize },
    /// Waits for the elements to be in the pipeline.
    Adding { encoder: EncoderBackend },
    /// Waits for the elements to be linked.
    Linking { encoder: EncoderBackend },
    /// Over.
    Over,
}

/// The encoder is settled, and there can be a pipeline.
pub open spec fn build_with(encoder: EncoderBackend) -> (BuildStage, BuildActionView) {
    (
        BuildStage::Creating { encoder },
        BuildActionView::CreatePipeline("lnxcast-pipeline"@),
    )
}

/// The work goes on with the element at `index`.
pub open spec fn build_element(
    config: PipelineConfig,
    encoder: EncoderBackend,
    index: int,
) -> (BuildStage, BuildActionView) {
    (
        BuildStage::Making { encoder, index: index as usize },
        BuildActionView::Make(pipeline_elements(config, encoder)[index]),
    )
}

/// The work ends.
pub open spec fn build_end(
    result: Result<EncoderBackend, MediaErrorView>,
) -> (BuildStage, BuildActionView) {
    (BuildStage::Over, BuildActionView::Finish(result))
}

/// One step of the work: how far it is after an answer and what is done then.
/// `None` for an answer that it does not wait for.
pub open spec fn build_step(
    config: PipelineConfig,
    stage: BuildStage,
    event: BuildEventView,
) -> Option<(BuildStage, BuildActionView)> {
    match (stage, event) {
        (BuildStage::Initialising, BuildEventView::Initialised(reply)) => Some(
            match reply {
                Err(text) => build_end(Err(MediaErrorView::Init(text))),
                Ok(_) => match config.encoder_override {
                    Some(encoder) => build_with(encoder),
                    None => (
                        BuildStage::Probing,
                        BuildActionView::FindFactory("vaapih264enc"@),
                    ),
                },
            },
        ),
        (BuildStage::Probing, BuildEventView::FactoryFound(found)) => Some(
            build_with(preferred_encoder(found)),
        ),
        (BuildStage::Creating { encoder }, BuildEventView::Created) => Some(
            build_element(config, encoder, 0),
        ),
        (BuildStage::Making { encoder, index }, BuildEventView::Made(ok)) => {
            let elements = pipeline_elements(config, encoder);
            Some(
                if !ok {
                    build_end(
                        Err(MediaErrorView::ElementCreate { name: elements[index as int].factory }),
                    )
                } else if index + 1 < elements.len() {
                    build_element(config, encoder, index + 1)
                } else {
                    (BuildStage::Adding { encoder }, BuildActionView::AddAll)
                },
            )
        },
        (BuildStage::Adding { encoder }, BuildEventView::Added(reply)) => Some(
            match reply {
                Ok(_) => (BuildStage::Linking { encoder }, BuildActionView::LinkAll),
                Err(text) => build_end(Err(MediaErrorView::Link(text))),
            },
        ),
        (BuildStage::Linking { encoder }, BuildEventView::Linked(reply)) => Some(
            match reply {
                Ok(_) => build_end(Ok(encoder)),
                Err(text) => build_end(Err(MediaErrorView::Link(text))),
            },
        ),
        _ => None,
    }
}

/// The work of building a pipeline.
pub struct PipelineBuild {
    config: PipelineConfig,
    stage: BuildStage,
}

impl PipelineBuild {
    /// What the pipeline is made for.
    pub closed spec fn config(&self) -> PipelineConfig {
        self.config
    }

    /// How far the work is.
    pub closed spec fn stage(&self) -> BuildStage {
        self.stage
    }

    /// An element that is waited for is one of the nine of the pipeline.
    #[verifier::type_invariant]
    spec fn inv(self) -> bool {
        match self.stage {
            BuildStage::Making { index, .. } => index < 9,
            _ => true,
        }
    }

    /// Takes in what came of the last action and says what to do next. An
    /// answer that the work does not wait for changes nothing.
    pub fn on_event(&mut self, event: BuildEvent) -> (r: Option<BuildAction>)
        ensures
            final(self).config() == old(self).config(),
            match build_step(old(self).config(), old(self).stage(), event@) {
                Some((stage, action)) => final(self).stage() == stage && r is Some && r->0@
                    == action,
                None => final(self).stage() == old(self).stage() && r is None,
            },
    {
        proof {
            use_type_invariant(&*self);
        }
        let (stage, action): (BuildStage, Option<BuildAction>) = match (self.stage, event) {
            (BuildStage::Initialising, BuildEvent::Initialised(reply)) => match reply {
                Err(text) => (
                    BuildStage::Over,
                    Some(BuildAction::Finish(Err(MediaError::Init(text)))),
                ),
                Ok(_) => match self.config.encoder_override {
                    Some(encoder) => (
                        BuildStage::Creating { encoder },
                        Some(BuildAction::CreatePipeline("lnxcast-pipeline")),
                    ),
                    None => (
                        BuildStage::Probing,
                        Some(BuildAction::FindFactory("vaapih264enc")),
                    ),
                },
            },
            (BuildStage::Probing, BuildEvent::FactoryFound(found)) => {
                let encoder: EncoderBackend = detect_encoder(found);
                (
                    BuildStage::Creating { encoder },
                    Some(BuildAction::CreatePipeline("lnxcast-pipeline")),
                )
            },
            (BuildStage::Creating { encoder }, BuildEvent::Created) => {
                let element: ElementPlan = plan_element(&self.config, encoder, 0);
                (BuildStage::Making { encoder, index: 0 }, Some(BuildAction::Make(element)))
            },
            (BuildStage::Making { encoder, index }, BuildEvent::Made(ok)) => {
                if !ok {
                    let name: &'static str = factory_at(encoder, index);
                    (
                        BuildStage::Over,
                        Some(BuildAction::Finish(Err(MediaError::ElementCreate { name }))),
                    )
                } else if index + 1 < 9 {
                    let element: ElementPlan = plan_element(&self.config, encoder, index + 1);
                    (
                        BuildStage::Making { encoder, index: index + 1 },
                        Some(BuildAction::Make(element)),
                    )
                } else {
                    (BuildStage::Adding { encoder }, Some(BuildAction::AddAll))
                }
            },
            (BuildStage::Adding { encoder }, BuildEvent::Added(reply)) => match reply {
                Ok(_) => (BuildStage::Linking { encoder }, Some(BuildAction::LinkAll)),
                Err(text) => (
                    BuildStage::Over,
                    Some(BuildAction::Finish(Err(MediaError::Link(text)))),
                ),
            },
            (BuildStage::Linking { encoder }, BuildEvent::Linked(reply)) => match reply {
                Ok(_) => (
                    BuildStage::Over,
                    Some(BuildAction::Finish(Ok(MediaPipeline { encoder }))),
                ),
                Err(text) => (
                    BuildStage::Over,
                    Some(BuildAction::Finish(Err(MediaError::Link(text)))),
                ),
            },
            (stage, _) => (stage, None),
        };
        self.stage = stage;
        action
    }
}

// ---------------------------------------------------------------------------
// What holds of every pipeline
// ---------------------------------------------------------------------------

/// All that the work can be told: `made` says of each element, in order,
/// whether it can be made.
pub struct GstWorld {
    pub initialised: Result<(), Seq<char>>,
    pub vaapi_available: bool,
    pub made: Seq<bool>,
    pub added: Result<(), Seq<char>>,
    pub linked: Result<(), Seq<char>>,
}

impl GstWorld {
    /// The answer to what the work waits for.
    pub open spec fn answer(self, stage: BuildStage) -> BuildEventView {
        match stage {
            BuildStage::Initialising => BuildEventView::Initialised(self.initialised),
            BuildStage::Probing => BuildEventView::FactoryFound(self.vaapi_available),
            BuildStage::Creating { .. } => BuildEventView::Created,
            BuildStage::Making { index, .. } => BuildEventView::Made(self.made[index as int]),
            BuildStage::Adding { .. } => BuildEventView::Added(self.added),
            BuildStage::Linking { .. } => BuildEventView::Linked(self.linked),
            BuildStage::Over => BuildEventView::Created,
        }
    }
}

/// The encoder of a pipeline: the one that is forced, or else the preferred one.
pub open spec fn chosen_encoder(config: PipelineConfig, vaapi_available: bool) -> EncoderBackend {
    match config.encoder_override {
        Some(encoder) => encoder,
        None => preferred_encoder(vaapi_available),
    }
}

/// The first element from `from` on that cannot be made.
pub open spec fn first_missing(made: Seq<bool>, from: int, count: int) -> Option<int>
    decreases count - from,
{
    if from >= count {
        None
    } else if !made[from] {
        Some(from)
    } else {
        first_missing(made, from + 1, count)
    }
}

/// What the work leads to: a pipeline with the chosen encoder, or the error of
/// the first thing that fails.
pub open spec fn build_outcome(
    config: PipelineConfig,
    world: GstWorld,
) -> Result<EncoderBackend, MediaErrorView> {
    let encoder = chosen_encoder(config, world.vaapi_available);
    let elements = pipeline_elements(config, encoder);
    match (
        world.initialised,
        first_missing(world.made, 0, elements.len() as int),
        world.added,
        world.linked,
    ) {
        (Err(text), _, _, _) => Err(MediaErrorView::Init(text)),
        (_, Some(i), _, _) => Err(MediaErrorView::ElementCreate { name: elements[i].factory }),
        (_, _, Err(text), _) => Err(MediaErrorView::Link(text)),
        (_, _, _, Err(text)) => Err(MediaErrorView::Link(text)),
        _ => Ok(encoder),
    }
}

/// How many kinds of answer can still come.
pub open spec fn build_left(stage: BuildStage) -> nat {
    match stage {
        BuildStage::Initialising => 6,
        BuildStage::Probing => 5,
        BuildStage::Creating { .. } => 4,
        BuildStage::Making { .. } => 3,
        BuildStage::Adding { .. } => 2,
        BuildStage::Linking { .. } => 1,
        BuildStage::Over => 0,
    }
}

/// How many elements are still to be made.
pub open spec fn elements_left(stage: BuildStage) -> nat {
    match stage {
        BuildStage::Making { index, .. } => if index < 9 {
            (9 - index) as nat
        } else {
            0
        },
        _ => 0,
    }
}

/// What the work that stands at `stage` leads to.
pub open spec fn build_run(
    config: PipelineConfig,
    world: GstWorld,
    stage: BuildStage,
) -> Option<Result<EncoderBackend, MediaErrorView>>
    decreases build_left(stage), elements_left(stage),
{
    match build_step(config, stage, world.answer(stage)) {
        Some((_, BuildActionView::Finish(result))) => Some(result),
        Some((next, _)) => build_run(config, world, next),
        None => None,
    }
}

proof fn lemma_making_run(
    config: PipelineConfig,
    world: GstWorld,
    encoder: EncoderBackend,
    index: int,
)
    requires
        0 <= index < 9,
    ensures
        build_run(config, world, BuildStage::Making { encoder, index: index as usize }) == Some(
            match (first_missing(world.made, index, 9), world.added, world.linked) {
                (Some(i), _, _) => Err(
                    MediaErrorView::ElementCreate {
                        name: pipeline_elements(config, encoder)[i].factory,
                    },
                ),
                (_, Err(text), _) => Err(MediaErrorView::Link(text)),
                (_, _, Err(text)) => Err(MediaErrorView::Link(text)),
                _ => Ok(encoder),
            },
        ),
    decreases 9 - index,
{
    reveal_with_fuel(build_run, 4);
    reveal_with_fuel(first_missing, 2);
    if index + 1 < 9 {
        lemma_making_run(config, world, encoder, index + 1);
    }
}

/// The work always ends, and with what `build_outcome` says.
pub proof fn law_build_leads_to_the_outcome(config: PipelineConfig, world: GstWorld)
    ensures
        build_run(config, world, BuildStage::Initialising) == Some(build_outcome(config, world)),
{
    reveal_with_fuel(build_run, 4);
    let encoder = chosen_encoder(config, world.vaapi_available);
    lemma_making_run(config, world, encoder, 0);
}

/// An encoder that is forced is the one that is used; without one, the hardware
/// is used if it is there, and else the software.
pub proof fn law_encoder_is_the_chosen_one(config: PipelineConfig, world: GstWorld)
    requires
        build_outcome(config, world) is Ok,
    ensures
        build_outcome(config, world)->Ok_0 == match config.encoder_override {
            Some(encoder) => encoder,
            None => if world.vaapi_available {
                EncoderBackend::VaapiHardware
            } else {
                EncoderBackend::X264Software
            },
        },
{
}

/// Where there is neither the hardware nor the software encoder, and none is
/// forced, there is no pipeline; and if nothing else is amiss, the error names
/// the software encoder.
pub proof fn law_no_encoder_no_pipeline(config: PipelineConfig, world: GstWorld)
    requires
        config.encoder_override is None,
        !world.vaapi_available,
        !world.made[4],
    ensures
        build_outcome(config, world) is Err,
        world.initialised is Ok && world.made[0] && world.made[1] && world.made[2]
            && world.made[3] ==> build_outcome(config, world) == Err::<
            EncoderBackend,
            MediaErrorView,
        >(MediaErrorView::ElementCreate { name: "x264enc"@ }),
{
    reveal_with_fuel(first_missing, 6);
    assert(pipeline_elements(config, EncoderBackend::X264Software).len() == 9);
}

/// No filter stands before the encoder: no element there is a caps filter or
/// has caps.
pub proof fn law_no_filter_before_the_encoder(
    config: PipelineConfig,
    encoder: EncoderBackend,
    i: int,
)
    requires
        0 <= i < 4,
    ensures
        pipeline_elements(config, encoder)[4] == encoder_element(config, encoder),
        pipeline_elements(config, encoder)[i].factory != "capsfilter"@,
        forall|j: int|
            0 <= j < pipeline_elements(config, encoder)[i].properties.len()
                ==> !((#[trigger] pipeline_elements(config, encoder)[i].properties[j]).value
                is Caps),
{
    reveal_strlit("capsfilter");
    reveal_strlit("pipewiresrc");
    reveal_strlit("videoconvert");
    reveal_strlit("videoscale");
    reveal_strlit("videorate");
    assert("capsfilter"@[0] == 'c');
    assert("pipewiresrc"@[0] == 'p');
    assert("videoconvert"@[0] == 'v');
    assert("videoscale"@[0] == 'v');
    assert("videorate"@[0] == 'v');
}

/// The encoder, and no other element, is found under the name
/// `lnxcast-encoder`.
pub proof fn law_encoder_is_found_by_name(
    config: PipelineConfig,
    encoder: EncoderBackend,
    i: int,
)
    requires
        0 <= i < pipeline_elements(config, encoder).len(),
    ensures
        pipeline_elements(config, encoder)[i].name == Some("lnxcast-encoder"@) <==> i == 4,
        pipeline_elements(config, encoder)[4].factory == encoder.spec_factory(),
{
}

/// A pipeline leads from the portal's node, over the connection that the portal
/// opened, to the sink where its packets are taken out; before the sink they
/// are packed for RTP.
pub proof fn law_pipeline_leads_from_the_portal_to_the_sink(
    config: PipelineConfig,
    encoder: EncoderBackend,
)
    ensures
        ({
            let elements = pipeline_elements(config, encoder);
            &&& elements.first() == source_element(config)
            &&& elements.last().factory == "appsink"@
            &&& elements[elements.len() - 2].factory == "rtph264pay"@
        }),
{
}

/// The element that is made at `index` for a configuration, where every element
/// before it could be made.
pub open spec fn made_at(
    config: PipelineConfig,
    encoder: EncoderBackend,
    index: int,
) -> Option<ElementView> {
    let step = if index == 0 {
        build_step(config, BuildStage::Creating { encoder }, BuildEventView::Created)
    } else {
        build_step(
            config,
            BuildStage::Making { encoder, index: (index - 1) as usize },
            BuildEventView::Made(true),
        )
    };
    match step {
        Some((_, BuildActionView::Make(element))) => Some(element),
        _ => None,
    }
}

/// Whether the property at `j` of an element is this one.
pub open spec fn sets(
    element: ElementView,
    j: int,
    name: Seq<char>,
    value: PropertyValueView,
) -> bool {
    0 <= j < element.properties.len() && element.properties[j].name == name
        && element.properties[j].value == value
}

/// The source reads the very node that is configured, over the very descriptor:
/// whatever they are, the descriptor is set as the number and the node as its
/// decimal text.
pub proof fn law_source_reads_the_configured_stream(config: PipelineConfig, encoder: EncoderBackend)
    ensures
        made_at(config, encoder, 0) matches Some(source) && {
            &&& source.factory == "pipewiresrc"@
            &&& source.name is None
            &&& source.properties.len() == 3
            &&& sets(source, 0, "fd"@, PropertyValueView::Int(config.pipewire_fd))
            &&& source.properties[1].name == "path"@
            &&& source.properties[1].value matches PropertyValueView::Text(path) && {
                &&& number_of(path) == config.pipewire_node_id
                &&& path.len() > 0
                &&& forall|i: int| 0 <= i < path.len() ==> '0' <= #[trigger] path[i] <= '9'
                &&& path[0] == '0' ==> config.pipewire_node_id == 0
            }
            &&& sets(source, 2, "do-timestamp"@, PropertyValueView::Bool(true))
        },
{
    law_decimal_reads_back(config.pipewire_node_id as nat);
}

/// The frames are limited to the configured rate, to the frame; a rate that is
/// no signed number is counted down from zero. Frames are only left out, never
/// repeated.
pub proof fn law_frames_are_limited_to_the_configured_rate(
    config: PipelineConfig,
    encoder: EncoderBackend,
)
    ensures
        made_at(config, encoder, 3) matches Some(rate) && {
            &&& rate.factory == "videorate"@
            &&& rate.name is None
            &&& rate.properties.len() == 2
            &&& rate.properties[0].name == "max-rate"@
            &&& rate.properties[0].value matches PropertyValueView::Int(limit) && {
                &&& config.framerate <= 0x7fff_ffff ==> limit == config.framerate
                &&& config.framerate > 0x7fff_ffff ==> limit + 0x1_0000_0000 == config.framerate
            }
            &&& sets(rate, 1, "drop-only"@, PropertyValueView::Parsed("true"@))
        },
{
}

/// Either encoder works at the configured bit rate, whatever it is, and is found
/// under the name `lnxcast-encoder`. The hardware keeps to that rate; the
/// software is set up for a short delay.
pub proof fn law_encoder_works_at_the_configured_rate(
    config: PipelineConfig,
    encoder: EncoderBackend,
)
    ensures
        made_at(config, encoder, 4) matches Some(element) && {
            &&& element.name == Some("lnxcast-encoder"@)
            &&& sets(element, 0, "bitrate"@, PropertyValueView::UInt(config.bitrate_kbps))
            &&& encoder is VaapiHardware ==> {
                &&& element.factory == "vaapih264enc"@
                &&& element.properties.len() == 2
                &&& sets(element, 1, "rate-control"@, PropertyValueView::Parsed("cbr"@))
            }
            &&& encoder is X264Software ==> {
                &&& element.factory == "x264enc"@
                &&& element.properties.len() == 3
                &&& sets(element, 1, "tune"@, PropertyValueView::Parsed("zerolatency"@))
                &&& sets(element, 2, "speed-preset"@, PropertyValueView::Parsed("ultrafast"@))
            }
        },
{
}

/// The other elements are the same for every configuration and either encoder:
/// the conversion and the parser as they come, a bilinear scaler, a byte stream
/// cut at access units behind the parser, the payloader for type 96 with its
/// parameter sets every second, and a sink that signals and does not wait.
pub proof fn law_other_elements_are_always_the_same(config: PipelineConfig, encoder: EncoderBackend)
    ensures
        made_at(config, encoder, 1) matches Some(element) && element.factory == "videoconvert"@
            && element.name is None && element.properties.len() == 0,
        made_at(config, encoder, 2) matches Some(element) && element.factory == "videoscale"@
            && element.name is None && element.properties.len() == 1 && sets(
            element,
            0,
            "method"@,
            PropertyValueView::Parsed("bilinear"@),
        ),
        made_at(config, encoder, 5) matches Some(element) && element.factory == "h264parse"@
            && element.name is None && element.properties.len() == 0,
        made_at(config, encoder, 6) matches Some(element) && {
            &&& element.factory == "capsfilter"@
            &&& element.name is None
            &&& element.properties.len() == 1
            &&& element.properties[0].name == "caps"@
            &&& element.properties[0].value matches PropertyValueView::Caps { media, fields } && {
                &&& media == "video/x-h264"@
                &&& fields.len() == 2
                &&& fields[0] == ("stream-format"@, "byte-stream"@)
                &&& fields[1] == ("alignment"@, "au"@)
            }
        },
        made_at(config, encoder, 7) matches Some(element) && {
            &&& element.factory == "rtph264pay"@
            &&& element.name is None
            &&& element.properties.len() == 2
            &&& sets(element, 0, "config-interval"@, PropertyValueView::Int(1))
            &&& sets(element, 1, "pt"@, PropertyValueView::UInt(96))
        },
        made_at(config, encoder, 8) matches Some(element) && {
            &&& element.factory == "appsink"@
            &&& element.name is None
            &&& element.properties.len() == 2
            &&& sets(element, 0, "emit-signals"@, PropertyValueView::Bool(true))
            &&& sets(element, 1, "sync"@, PropertyValueView::Bool(false))
        },
{
}

/// A build is for the configuration that it was begun with, and goes through the
/// nine elements in turn: when one is made the next is asked for, and after the
/// last they are put together.
pub proof fn law_elements_are_made_in_turn(
    config: PipelineConfig,
    begun: (PipelineBuild, BuildAction),
    encoder: EncoderBackend,
    index: usize,
)
    requires
        call_ensures(MediaPipeline::build, (&config,), begun),
        index < 9,
    ensures
        begun.1 is Initialise,
        begun.0.stage() == BuildStage::Initialising,
        begun.0.config() == config,
        build_step(config, BuildStage::Creating { encoder }, BuildEventView::Created) matches Some(
            (stage, _),
        ) && stage == (BuildStage::Making { encoder, index: 0 }),
        build_step(config, BuildStage::Making { encoder, index }, BuildEventView::Made(true))
            matches Some((stage, action)) && {
            &&& index < 8 ==> stage == (BuildStage::Making { encoder, index: (index + 1) as usize })
                && action is Make
            &&& index == 8 ==> stage == (BuildStage::Adding { encoder }) && action is AddAll
        },
{
}

/// An element that cannot be made ends the build with the very factory that was
/// asked for.
pub proof fn law_missing_element_is_named(
    config: PipelineConfig,
    stage: BuildStage,
    event: BuildEventView,
)
    requires
        build_step(config, stage, event) is Some,
        (build_step(config, stage, event)->0).1 is Make,
        match stage {
            BuildStage::Making { index, .. } => index < 9,
            _ => true,
        },
    ensures
        ({
            let (making, action) = build_step(config, stage, event)->0;
            build_step(config, making, BuildEventView::Made(false)) == Some(
                (
                    BuildStage::Over,
                    BuildActionView::Finish(
                        Err(MediaErrorView::ElementCreate { name: action->Make_0.factory }),
                    ),
                ),
            )
        }),
{
}

/// A forced encoder is not asked about; without one, the hardware encoder is
/// looked up by its factory, and what is found decides.
pub proof fn law_hardware_is_looked_up(config: PipelineConfig, found: bool)
    ensures
        config.encoder_override matches Some(encoder) ==> build_step(
            config,
            BuildStage::Initialising,
            BuildEventView::Initialised(Ok(())),
        ) == Some(
            (
                BuildStage::Creating { encoder },
                BuildActionView::CreatePipeline("lnxcast-pipeline"@),
            ),
        ),
        config.encoder_override is None ==> build_step(
            config,
            BuildStage::Initialising,
            BuildEventView::Initialised(Ok(())),
        ) == Some((BuildStage::Probing, BuildActionView::FindFactory("vaapih264enc"@))),
        build_step(config, BuildStage::Probing, BuildEventView::FactoryFound(found)) == Some(
            (
                BuildStage::Creating {
                    encoder: if found {
                        EncoderBackend::VaapiHardware
                    } else {
                        EncoderBackend::X264Software
                    },
                },
                BuildActionView::CreatePipeline("lnxcast-pipeline"@),
            ),
        ),
{
}

/// The hardware encoder is preferred exactly where it is there.
pub proof fn law_hardware_is_preferred(available: bool, encoder: EncoderBackend)
    requires
        call_ensures(detect_encoder, (available,), encoder),
    ensures
        encoder is VaapiHardware <==> available,
        encoder is X264Software <==> !available,
{
}

/// There is a pipeline exactly where GStreamer is there, each of the nine
/// elements can be made, and they can be put together; else the error is that of
/// the first thing that fails.
pub proof fn law_pipeline_is_built_where_nothing_fails(config: PipelineConfig, world: GstWorld)
    ensures
        build_outcome(config, world) is Ok <==> {
            &&& world.initialised is Ok
            &&& forall|i: int| 0 <= i < 9 ==> #[trigger] world.made[i]
            &&& world.added is Ok
            &&& world.linked is Ok
        },
        world.initialised matches Err(text) ==> build_outcome(config, world) == Err::<
            EncoderBackend,
            MediaErrorView,
        >(MediaErrorView::Init(text)),
        world.initialised is Ok && !(forall|i: int| 0 <= i < 9 ==> #[trigger] world.made[i])
            ==> (build_outcome(config, world) matches Err(error) && error is ElementCreate),
        world.initialised is Ok && (forall|i: int| 0 <= i < 9 ==> #[trigger] world.made[i]) ==> {
            &&& world.added matches Err(text) ==> build_outcome(config, world) == Err::<
                EncoderBackend,
                MediaErrorView,
            >(MediaErrorView::Link(text))
            &&& world.added is Ok ==> (world.linked matches Err(text) ==> build_outcome(
                config,
                world,
            ) == Err::<EncoderBackend, MediaErrorView>(MediaErrorView::Link(text)))
        },
{
    lemma_first_missing(world.made, 0, 9);
}

proof fn lemma_first_missing(made: Seq<bool>, from: int, count: int)
    ensures
        match first_missing(made, from, count) {
            Some(i) => from <= i < count && !made[i] && forall|j: int|
                from <= j < i ==> #[trigger] made[j],
            None => forall|j: int| from <= j < count ==> #[trigger] made[j],
        },
    decreases count - from,
{
    if from < count && made[from] {
        lemma_first_missing(made, from + 1, count);
    }
}

/// The first element that cannot be made is the one that the error names.
pub proof fn law_first_missing_element_is_the_error(
    config: PipelineConfig,
    world: GstWorld,
    i: int,
)
    requires
        world.initialised is Ok,
        0 <= i < 9,
        !world.made[i],
        forall|j: int| 0 <= j < i ==> #[trigger] world.made[j],
    ensures
        build_outcome(config, world) == Err::<EncoderBackend, MediaErrorView>(
            MediaErrorView::ElementCreate {
                name: made_at(
                    config,
                    match config.encoder_override {
                        Some(encoder) => encoder,
                        None => if world.vaapi_available {
                            EncoderBackend::VaapiHardware
                        } else {
                            EncoderBackend::X264Software
                        },
                    },
                    i,
                )->0.factory,
            },
        ),
{
    lemma_first_missing(world.made, 0, 9);
}

/// What a build does is what it then waits for.
pub proof fn law_build_waits_for_what_it_does(
    config: PipelineConfig,
    stage: BuildStage,
    event: BuildEventView,
)
    requires
        build_step(config, stage, event) is Some,
    ensures
        ({
            let (next, action) = build_step(config, stage, event)->0;
            match next {
                BuildStage::Initialising => false,
                BuildStage::Probing => action is FindFactory,
                BuildStage::Creating { .. } => action is CreatePipeline,
                BuildStage::Making { .. } => action is Make,
                BuildStage::Adding { .. } => action is AddAll,
                BuildStage::Linking { .. } => action is LinkAll,
                BuildStage::Over => action is Finish,
            }
        }),
{
}

/// A build takes in only the answer that it waits for, and takes that in always.
pub proof fn law_build_takes_in_what_it_waits_for(
    config: PipelineConfig,
    stage: BuildStage,
    event: BuildEventView,
)
    ensures
        build_step(config, stage, event) is Some <==> match stage {
            BuildStage::Initialising => event is Initialised,
            BuildStage::Probing => event is FactoryFound,
            BuildStage::Creating { .. } => event is Created,
            BuildStage::Making { .. } => event is Made,
            BuildStage::Adding { .. } => event is Added,
            BuildStage::Linking { .. } => event is Linked,
            BuildStage::Over => false,
        },
{
}

/// Starting and stopping a pipeline work exactly where the pipeline takes the
/// state; else the error is its own text.
pub proof fn law_states_are_told_as_they_are(
    pipeline: MediaPipeline,
    reply: Result<(), String>,
    played: MediaResult<()>,
    stopped: MediaResult<()>,
)
    requires
        call_ensures(MediaPipeline::play, (&pipeline, reply), played),
        call_ensures(MediaPipeline::stop, (&pipeline, reply), stopped),
    ensures
        played is Ok <==> reply is Ok,
        stopped is Ok <==> reply is Ok,
        reply matches Err(text) ==> {
            &&& played->Err_0@ == MediaErrorView::StateChange(text@)
            &&& stopped->Err_0@ == MediaErrorView::StateChange(text@)
        },
{
    assert(result_view(played) == state_reply(reply));
    assert(result_view(stopped) == state_reply(reply));
}

/// What is said of an error begins with its heading, goes on with the whole of
/// what it holds, and holds nothing else.
pub proof fn law_media_error_says_its_cause(error: MediaError, text: String)
    requires
        call_ensures(MediaError::to_string, (&error,), text),
    ensures
        match error {
            MediaError::Init(cause) => text@ == "GStreamer initialisation failed: "@ + cause@,
            MediaError::ElementCreate { name } => text@ == "Element `"@ + name@
                + "` could not be created: plugin missing?"@,
            MediaError::Link(cause) => text@ == "Failed to link elements: "@ + cause@,
            MediaError::StateChange(cause) => text@ == "Pipeline state change failed: "@ + cause@,
            MediaError::Internal(cause) => text@ == "Internal error: "@ + cause@,
        },
{
}

/// What is seen of an answer, and of an error, is what it holds.
pub proof fn law_build_answers_are_seen_as_they_are(event: BuildEvent, error: MediaError)
    ensures
        match event {
            BuildEvent::Initialised(reply) => event@ matches BuildEventView::Initialised(seen) && (
            match reply {
                Ok(_) => seen is Ok,
                Err(text) => seen == Err::<(), Seq<char>>(text@),
            }),
            BuildEvent::FactoryFound(found) => event@ == BuildEventView::FactoryFound(found),
            BuildEvent::Created => event@ is Created,
            BuildEvent::Made(ok) => event@ == BuildEventView::Made(ok),
            BuildEvent::Added(reply) => event@ matches BuildEventView::Added(seen) && (
            match reply {
                Ok(_) => seen is Ok,
                Err(text) => seen == Err::<(), Seq<char>>(text@),
            }),
            BuildEvent::Linked(reply) => event@ matches BuildEventView::Linked(seen) && (
            match reply {
                Ok(_) => seen is Ok,
                Err(text) => seen == Err::<(), Seq<char>>(text@),
            }),
        },
        match error {
            MediaError::Init(text) => error@ == MediaErrorView::Init(text@),
            MediaError::ElementCreate { name } => error@ is ElementCreate && error@->name == name@,
            MediaError::Link(text) => error@ == MediaErrorView::Link(text@),
            MediaError::StateChange(text) => error@ == MediaErrorView::StateChange(text@),
            MediaError::Internal(text) => error@ == MediaErrorView::Internal(text@),
        },
{
}

/// What is seen of an action is what it holds, down to the values of the
/// properties of an element.
pub proof fn law_build_actions_are_seen_as_they_are(
    action: BuildAction,
    element: ElementPlan,
    property: Property,
    pipeline: MediaPipeline,
    encoder: EncoderBackend,
)
    requires
        call_ensures(MediaPipeline::encoder, (&pipeline,), encoder),
    ensures
        match action {
            BuildAction::Initialise => action@ is Initialise,
            BuildAction::FindFactory(name) => action@ == BuildActionView::FindFactory(name@),
            BuildAction::CreatePipeline(name) => action@ == BuildActionView::CreatePipeline(name@),
            BuildAction::Make(element) => action@ == BuildActionView::Make(element@),
            BuildAction::AddAll => action@ is AddAll,
            BuildAction::LinkAll => action@ is LinkAll,
            BuildAction::Finish(result) => action@ matches BuildActionView::Finish(seen) && (
            match result {
                Ok(built) => seen == Ok::<EncoderBackend, MediaErrorView>(built@),
                Err(error) => seen == Err::<EncoderBackend, MediaErrorView>(error@),
            }),
        },
        element@.factory == element.factory@,
        element.name matches Some(name) ==> element@.name == Some(name@),
        element.name is None ==> element@.name is None,
        element@.properties.len() == element.properties@.len(),
        forall|j: int|
            0 <= j < element.properties@.len() ==> #[trigger] element@.properties[j]
                == element.properties@[j]@,
        property@.name == property.name@,
        match property.value {
            PropertyValue::Int(value) => property@.value == PropertyValueView::Int(value),
            PropertyValue::UInt(value) => property@.value == PropertyValueView::UInt(value),
            PropertyValue::Bool(value) => property@.value == PropertyValueView::Bool(value),
            PropertyValue::Text(value) => property@.value == PropertyValueView::Text(value@),
            PropertyValue::Parsed(value) => property@.value == PropertyValueView::Parsed(value@),
            PropertyValue::Caps { media, fields } => property@.value matches
                PropertyValueView::Caps { media: seen_media, fields: seen } && {
                &&& seen_media == media@
                &&& seen.len() == fields@.len()
                &&& forall|j: int|
                    0 <= j < seen.len() ==> #[trigger] seen[j] == (fields@[j].0@, fields@[j].1@)
            },
        },
        pipeline@ == encoder,
{
}

/// A build that is begun initialises GStreamer first, and leads to what
/// `build_outcome` says of its configuration.
pub proof fn law_begun_build_leads_to_the_outcome(
    config: PipelineConfig,
    begun: (PipelineBuild, BuildAction),
    world: GstWorld,
)
    requires
        call_ensures(MediaPipeline::build, (&config,), begun),
    ensures
        begun.1 is Initialise,
        build_run(begun.0.config(), world, begun.0.stage()) == Some(build_outcome(config, world)),
{
    law_build_leads_to_the_outcome(config, world);
}

} // verus!
