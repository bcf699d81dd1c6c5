//! The scanner: sweeps over the peers that `wpa_supplicant` knows.
//!
//! ```text
//! 1. find the interface, unless one was given
//! 2. connect to the daemon
//! 3. ask for the interface         <- optional: without it the scan is passive
//! 4. report the mode
//! 5. search (active) and wait
//! 6. list the objects, report every peer among them, report the end of the
//!    sweep, and go on with 5
//! ```
//!
//! What the bus shows is never taken for granted: a failed question about the
//! interface, a failed search or an unreadable peer does not end the scan.
//!
//! [`ScanSession`] says what to do next; the program around it does it and
//! hands back what came of it.

use crate::net::detect::{
    candidates_left, law_search_fails_only_without_names, law_search_finds_the_outcome,
    listed_sockets, search_outcome, search_run, search_step, stages_left, InterfaceSearch, SearchAction, SearchActionView, SearchEvent, SearchEventView,
    SearchModel, SearchOutcomeView, SearchWorld,
};
use crate::net::device::{
    device_of, mac_text, DeviceEvent, DeviceEventView, P2pDevice, PeerProperties, PeerPropertiesView, ScanMode,
};
use crate::net::error::{NetError, NetErrorView};
use crate::text::{holds_text, lemma_views_push, opt_view, views};
use vstd::prelude::*;
use vstd::string::*;

verus! {

// ---------------------------------------------------------------------------
// The scanner
// ---------------------------------------------------------------------------

/// A scanner for Wi-Fi Direct devices.
pub struct WpaSupplicantScanner {
    /// The P2P interface to use; searched for where it is `None`.
    pub interface: Option<String>,
    /// Seconds that one sweep takes.
    pub scan_timeout_secs: i32,
}

impl Default for WpaSupplicantScanner {
    /// Searches for its interface, and takes thirty seconds for a sweep.
    fn default() -> (r: WpaSupplicantScanner)
        ensures
            r.interface is None,
            r.scan_timeout_secs == 30,
    {
        WpaSupplicantScanner { interface: None, scan_timeout_secs: 30 }
    }
}

impl WpaSupplicantScanner {
    /// A scanner with a given interface.
    pub fn new(interface: String) -> (r: WpaSupplicantScanner)
        ensures
            r.interface == Some(interface),
            r.scan_timeout_secs == 30,
    {
        WpaSupplicantScanner { interface: Some(interface), ..WpaSupplicantScanner::default() }
    }

    /// A scanner that searches for its interface.
    pub fn auto() -> (r: WpaSupplicantScanner)
        ensures
            r.interface is None,
            r.scan_timeout_secs == 30,
    {
        WpaSupplicantScanner::default()
    }

    /// Begins the search for the P2P interface. See [`crate::net::detect`].
    pub fn detect_p2p_interface() -> (r: (InterfaceSearch, SearchAction))
        ensures
            r.0@ == SearchModel::Sockets,
            r.1@ == SearchActionView::ListSockets,
    {
        InterfaceSearch::begin()
    }

    /// Begins a scan.
    pub fn scan(&self) -> (r: (ScanSession, ScanAction))
        ensures
            (r.0@, r.1@) == scan_begin(opt_view(self.interface), self.scan_timeout_secs),
    {
        match &self.interface {
            Some(name) => (
                ScanSession {
                    timeout: self.scan_timeout_secs,
                    stage: Stage::Connecting { iface: name.clone() },
                },
                ScanAction::Connect,
            ),
            None => {
                let (search, action): (InterfaceSearch, SearchAction) =
                    WpaSupplicantScanner::detect_p2p_interface();
                (
                    ScanSession {
                        timeout: self.scan_timeout_secs,
                        stage: Stage::Searching { search },
                    },
                    ScanAction::Search(action),
                )
            },
        }
    }
}

// ---------------------------------------------------------------------------
// Peers
// ---------------------------------------------------------------------------

/// An object of the daemon on the bus.
#[derive(Debug)]
pub struct ManagedObject {
    /// Its object path.
    pub path: String,
    /// The interfaces that it has.
    pub interfaces: Vec<String>,
}

/// What a [`ManagedObject`] holds, as plain values.
pub struct ManagedObjectView {
    pub path: Seq<char>,
    pub interfaces: Seq<Seq<char>>,
}

impl View for ManagedObject {
    type V = ManagedObjectView;

    open spec fn view(&self) -> ManagedObjectView {
        ManagedObjectView { path: self.path@, interfaces: views(self.interfaces@) }
    }
}

/// The objects of a list, as plain values.
pub open spec fn object_views(objects: Seq<ManagedObject>) -> Seq<ManagedObjectView> {
    objects.map_values(|object: ManagedObject| object@)
}

/// The path of an object that is a peer.
pub open spec fn peer_path(object: ManagedObjectView) -> Option<Seq<char>> {
    if object.interfaces.contains("fi.w1.wpa_supplicant1.Peer"@) {
        Some(object.path)
    } else {
        None
    }
}

/// The paths of the peers among `objects`, in their order.
pub open spec fn peer_paths(objects: Seq<ManagedObjectView>) -> Seq<Seq<char>> {
    objects.filter_map(|object: ManagedObjectView| peer_path(object))
}

/// Picks the peers out of the daemon's objects.
pub fn select_peers(objects: &Vec<ManagedObject>) -> (r: Vec<String>)
    ensures
        views(r@) == peer_paths(object_views(objects@)),
{
    let ghost all = object_views(objects@);
    let ghost pick = |object: ManagedObjectView| peer_path(object);
    let mut r: Vec<String> = Vec::new();
    let mut i: usize = 0;
    proof {
        assert(views(r@) =~= all.take(0).filter_map(pick));
    }
    while i < objects.len()
        invariant
            i <= objects.len(),
            all == object_views(objects@),
            pick == (|object: ManagedObjectView| peer_path(object)),
            views(r@) == all.take(i as int).filter_map(pick),
        decreases objects.len() - i,
    {
        proof {
            assert(all.take(i + 1).drop_last() =~= all.take(i as int));
            assert(all.take(i + 1).last() == objects@[i as int]@);
        }
        if holds_text(&objects[i].interfaces, "fi.w1.wpa_supplicant1.Peer") {
            let path: String = objects[i].path.clone();
            proof {
                lemma_views_push(r@, path);
                assert(views(r@).push(path@) =~= views(r@) + seq![path@]);
            }
            r.push(path);
        }
        i += 1;
    }
    proof {
        assert(all.take(all.len() as int) =~= all);
    }
    r
}

// ---------------------------------------------------------------------------
// Questions and answers
// ---------------------------------------------------------------------------

/// What to do next in a scan.
#[derive(Debug)]
pub enum ScanAction {
    /// A step of the search for the interface.
    Search(SearchAction),
    /// Connect to the system bus and to the daemon on it.
    Connect,
    /// Ask the daemon for this interface and connect to it.
    Resolve(String),
    /// Report an event.
    Send(DeviceEvent),
    /// Ask the interface to search for so many seconds.
    Find(i32),
    /// Wait for so many seconds.
    Sleep(u64),
    /// List the objects of the daemon.
    ListObjects,
    /// Read the properties of the peer at this path.
    ReadPeer(String),
    /// The scan is over.
    End(NetError),
}

/// What a [`ScanAction`] holds, as plain values.
pub enum ScanActionView {
    Search(SearchActionView),
    Connect,
    Resolve(Seq<char>),
    Send(DeviceEventView),
    Find(i32),
    Sleep(u64),
    ListObjects,
    ReadPeer(Seq<char>),
    End(NetErrorView),
}

impl View for ScanAction {
    type V = ScanActionView;

    open spec fn view(&self) -> ScanActionView {
        match self {
            ScanAction::Search(action) => ScanActionView::Search(action@),
            ScanAction::Connect => ScanActionView::Connect,
            ScanAction::Resolve(iface) => ScanActionView::Resolve(iface@),
            ScanAction::Send(event) => ScanActionView::Send(event@),
            ScanAction::Find(timeout) => ScanActionView::Find(*timeout),
            ScanAction::Sleep(secs) => ScanActionView::Sleep(*secs),
            ScanAction::ListObjects => ScanActionView::ListObjects,
            ScanAction::ReadPeer(path) => ScanActionView::ReadPeer(path@),
            ScanAction::End(error) => ScanActionView::End(error@),
        }
    }
}

/// What came of an action.
#[derive(Debug)]
pub enum ScanEvent {
    /// An answer to the search for the interface.
    Search(SearchEvent),
    /// Whether the bus and the daemon could be connected to.
    Connected(bool),
    /// Whether the daemon gave the interface and it could be connected to.
    Resolved(bool),
    /// Whether somebody received the event.
    Sent(bool),
    /// Whether the interface took up the search.
    FindReply(bool),
    /// The wait is over.
    Slept,
    /// The objects of the daemon, in the order in which they were listed.
    Objects(Result<Vec<ManagedObject>, zbus::Error>),
    /// The properties of the peer; `None` where it could not be connected to.
    Peer(Option<PeerProperties>),
}

/// What a [`ScanEvent`] holds, as plain values.
pub enum ScanEventView {
    Search(SearchEventView),
    Connected(bool),
    Resolved(bool),
    Sent(bool),
    FindReply(bool),
    Slept,
    Objects(Result<Seq<ManagedObjectView>, zbus::Error>),
    Peer(Option<PeerPropertiesView>),
}

impl View for ScanEvent {
    type V = ScanEventView;

    open spec fn view(&self) -> ScanEventView {
        match self {
            ScanEvent::Search(event) => ScanEventView::Search(event@),
            ScanEvent::Connected(ok) => ScanEventView::Connected(*ok),
            ScanEvent::Resolved(ok) => ScanEventView::Resolved(*ok),
            ScanEvent::Sent(ok) => ScanEventView::Sent(*ok),
            ScanEvent::FindReply(ok) => ScanEventView::FindReply(*ok),
            ScanEvent::Slept => ScanEventView::Slept,
            ScanEvent::Objects(reply) => ScanEventView::Objects(
                match reply {
                    Ok(objects) => Ok(object_views(objects@)),
                    Err(cause) => Err(*cause),
                },
            ),
            ScanEvent::Peer(properties) => ScanEventView::Peer(
                match properties {
                    Some(properties) => Some(properties@),
                    None => None,
                },
            ),
        }
    }
}

// ---------------------------------------------------------------------------
// The scan
// ---------------------------------------------------------------------------

/// How far a scan is, and what it knows.
pub enum ScanStage {
    /// Waits for an answer to the search for the interface.
    Searching { search: SearchModel },
    /// Waits for the connection to the daemon.
    Connecting { iface: Seq<char> },
    /// Waits for the interface.
    Resolving,
    /// Waits for the mode to be received.
    Announcing { mode: ScanMode },
    /// Waits for the interface to take up the search.
    Finding,
    /// Waits for the time to pass.
    Waiting { mode: ScanMode },
    /// Waits for the objects of the daemon.
    Listing { mode: ScanMode },
    /// Waits for the properties of the first of these peers.
    Reading { mode: ScanMode, peers: Seq<Seq<char>> },
    /// Waits for a device to be received; these peers come after it.
    Reporting { mode: ScanMode, peers: Seq<Seq<char>> },
    /// Waits for the end of the sweep to be received.
    Completing { mode: ScanMode },
    /// Over.
    Ended,
}

/// A scan: how far it is, and how long its sweeps take.
pub struct ScanModel {
    pub timeout: i32,
    pub stage: ScanStage,
}

/// The seconds to wait for a time-out that is stated in signed seconds. One
/// below zero counts from the top of the range.
pub open spec fn wait_seconds(timeout: i32) -> u64 {
    if timeout >= 0 {
        timeout as u64
    } else {
        (0x1_0000_0000_0000_0000 + timeout) as u64
    }
}

/// A scan begins with the connection to the daemon, or with the search for the
/// interface where none is given.
pub open spec fn scan_begin(
    interface: Option<Seq<char>>,
    timeout: i32,
) -> (ScanModel, ScanActionView) {
    match interface {
        Some(iface) => (
            ScanModel { timeout, stage: ScanStage::Connecting { iface } },
            ScanActionView::Connect,
        ),
        None => (
            ScanModel { timeout, stage: ScanStage::Searching { search: SearchModel::Sockets } },
            ScanActionView::Search(SearchActionView::ListSockets),
        ),
    }
}

/// A sweep begins: an active one with a search, a passive one with the wait.
pub open spec fn sweep_begin(mode: ScanMode, timeout: i32) -> (ScanStage, ScanActionView) {
    match mode {
        ScanMode::Active => (ScanStage::Finding, ScanActionView::Find(timeout)),
        ScanMode::Passive => (
            ScanStage::Waiting { mode },
            ScanActionView::Sleep(wait_seconds(timeout)),
        ),
    }
}

/// A sweep goes on with the first of `peers`, or ends where there is none.
pub open spec fn sweep_next(
    mode: ScanMode,
    peers: Seq<Seq<char>>,
) -> (ScanStage, ScanActionView) {
    if peers.len() == 0 {
        (ScanStage::Completing { mode }, ScanActionView::Send(DeviceEventView::ScanComplete))
    } else {
        (ScanStage::Reading { mode, peers }, ScanActionView::ReadPeer(peers[0]))
    }
}

/// The scan ends.
pub open spec fn scan_end(error: NetErrorView) -> (ScanStage, ScanActionView) {
    (ScanStage::Ended, ScanActionView::End(error))
}

/// One step of a scan: how far it is after an answer and what it does then.
/// `None` for an answer that it does not wait for.
pub open spec fn scan_step(
    timeout: i32,
    stage: ScanStage,
    event: ScanEventView,
) -> Option<(ScanStage, ScanActionView)> {
    match (stage, event) {
        (ScanStage::Searching { search }, ScanEventView::Search(answer)) => match search_step(
            search,
            answer,
        ) {
            None => None,
            Some((_, SearchActionView::Finish(SearchOutcomeView::Found(iface)))) => Some(
                (ScanStage::Connecting { iface }, ScanActionView::Connect),
            ),
            Some((_, SearchActionView::Finish(SearchOutcomeView::NotFound(tried)))) => Some(
                scan_end(NetErrorView::NoP2pInterface { tried }),
            ),
            Some((next, action)) => Some(
                (ScanStage::Searching { search: next }, ScanActionView::Search(action)),
            ),
        },
        (ScanStage::Connecting { iface }, ScanEventView::Connected(ok)) => Some(
            if ok {
                (ScanStage::Resolving, ScanActionView::Resolve(iface))
            } else {
                scan_end(NetErrorView::WpaNotRunning)
            },
        ),
        (ScanStage::Resolving, ScanEventView::Resolved(ok)) => {
            let mode = if ok {
                ScanMode::Active
            } else {
                ScanMode::Passive
            };
            Some(
                (
                    ScanStage::Announcing { mode },
                    ScanActionView::Send(DeviceEventView::ScanMode(mode)),
                ),
            )
        },
        (ScanStage::Finding, ScanEventView::FindReply(ok)) => Some(
            if ok {
                (
                    ScanStage::Waiting { mode: ScanMode::Active },
                    ScanActionView::Sleep(wait_seconds(timeout)),
                )
            } else {
                (ScanStage::Listing { mode: ScanMode::Active }, ScanActionView::ListObjects)
            },
        ),
        (ScanStage::Waiting { mode }, ScanEventView::Slept) => Some(
            (ScanStage::Listing { mode }, ScanActionView::ListObjects),
        ),
        (ScanStage::Listing { mode }, ScanEventView::Objects(reply)) => Some(
            match reply {
                Ok(objects) => sweep_next(mode, peer_paths(objects)),
                Err(cause) => scan_end(NetErrorView::DbusConnection(cause)),
            },
        ),
        (ScanStage::Reading { mode, peers }, ScanEventView::Peer(properties)) => Some(
            match properties {
                Some(properties) => (
                    ScanStage::Reporting { mode, peers: peers.drop_first() },
                    ScanActionView::Send(
                        DeviceEventView::Discovered(device_of(peers[0], properties)),
                    ),
                ),
                None => sweep_next(mode, peers.drop_first()),
            },
        ),
        (ScanStage::Announcing { mode }, ScanEventView::Sent(ok)) => Some(
            if ok {
                sweep_begin(mode, timeout)
            } else {
                scan_end(NetErrorView::ChannelClosed)
            },
        ),
        (ScanStage::Reporting { mode, peers }, ScanEventView::Sent(ok)) => Some(
            if ok {
                sweep_next(mode, peers)
            } else {
                scan_end(NetErrorView::ChannelClosed)
            },
        ),
        (ScanStage::Completing { mode }, ScanEventView::Sent(ok)) => Some(
            if ok {
                sweep_begin(mode, timeout)
            } else {
                scan_end(NetErrorView::ChannelClosed)
            },
        ),
        _ => None,
    }
}

/// How far a scan is, and what it holds. Of `peers`, those from `next` on are
/// still to come.
enum Stage {
    Searching { search: InterfaceSearch },
    Connecting { iface: String },
    Resolving,
    Announcing { mode: ScanMode },
    Finding,
    Waiting { mode: ScanMode },
    Listing { mode: ScanMode },
    Reading { mode: ScanMode, peers: Vec<String>, next: usize },
    Reporting { mode: ScanMode, peers: Vec<String>, next: usize },
    Completing { mode: ScanMode },
    Ended,
}

impl View for Stage {
    type V = ScanStage;

    closed spec fn view(&self) -> ScanStage {
        match self {
            Stage::Searching { search } => ScanStage::Searching { search: search@ },
            Stage::Connecting { iface } => ScanStage::Connecting { iface: iface@ },
            Stage::Resolving => ScanStage::Resolving,
            Stage::Announcing { mode } => ScanStage::Announcing { mode: *mode },
            Stage::Finding => ScanStage::Finding,
            Stage::Waiting { mode } => ScanStage::Waiting { mode: *mode },
            Stage::Listing { mode } => ScanStage::Listing { mode: *mode },
            Stage::Reading { mode, peers, next } => ScanStage::Reading {
                mode: *mode,
                peers: views(peers@).skip(*next as int),
            },
            Stage::Reporting { mode, peers, next } => ScanStage::Reporting {
                mode: *mode,
                peers: views(peers@).skip(*next as int),
            },
            Stage::Completing { mode } => ScanStage::Completing { mode: *mode },
            Stage::Ended => ScanStage::Ended,
        }
    }
}

impl Stage {
    spec fn inv(&self) -> bool {
        match self {
            Stage::Reading { peers, next, .. } => *next < peers@.len(),
            Stage::Reporting { peers, next, .. } => *next <= peers@.len(),
            _ => true,
        }
    }
}

/// A scan under way.
pub struct ScanSession {
    timeout: i32,
    stage: Stage,
}

impl View for ScanSession {
    type V = ScanModel;

    closed spec fn view(&self) -> ScanModel {
        ScanModel { timeout: self.timeout, stage: self.stage@ }
    }
}

/// The seconds to wait for a time-out in signed seconds.
fn seconds_to_wait(timeout: i32) -> (r: u64)
    ensures
        r == wait_seconds(timeout),
{
    proof {
        assert(timeout < 0 ==> (timeout as u64) == 0x1_0000_0000_0000_0000 + timeout)
            by (bit_vector);
    }
    timeout as u64
}

/// Begins a sweep.
fn begin_sweep(mode: ScanMode, timeout: i32) -> (r: (Stage, ScanAction))
    ensures
        r.0.inv(),
        (r.0@, r.1@) == sweep_begin(mode, timeout),
{
    match mode {
        ScanMode::Active => (Stage::Finding, ScanAction::Find(timeout)),
        ScanMode::Passive => (
            Stage::Waiting { mode },
            ScanAction::Sleep(seconds_to_wait(timeout)),
        ),
    }
}

/// Goes on with the peer at `next`, or ends the sweep.
fn next_peer(mode: ScanMode, peers: Vec<String>, next: usize) -> (r: (Stage, ScanAction))
    requires
        next <= peers@.len(),
    ensures
        r.0.inv(),
        (r.0@, r.1@) == sweep_next(mode, views(peers@).skip(next as int)),
{
    if next < peers.len() {
        let path: String = peers[next].clone();
        (Stage::Reading { mode, peers, next }, ScanAction::ReadPeer(path))
    } else {
        (Stage::Completing { mode }, ScanAction::Send(DeviceEvent::ScanComplete))
    }
}

/// Ends the scan.
fn end_scan(error: NetError) -> (r: (Stage, ScanAction))
    ensures
        r.0.inv(),
        (r.0@, r.1@) == scan_end(error@),
{
    (Stage::Ended, ScanAction::End(error))
}

impl ScanSession {
    /// The peer that is read is one of those that were listed.
    #[verifier::type_invariant]
    spec fn inv(self) -> bool {
        self.stage.inv()
    }

    /// Takes in what came of the last action and says what to do next. An
    /// answer that the scan does not wait for changes nothing.
    pub fn on_event(&mut self, event: ScanEvent) -> (r: Option<ScanAction>)
        ensures
            final(self)@.timeout == old(self)@.timeout,
            match scan_step(old(self)@.timeout, old(self)@.stage, event@) {
                Some((stage, action)) => final(self)@.stage == stage && r is Some && r->0@
                    == action,
                None => final(self)@.stage == old(self)@.stage && r is None,
            },
    {
        proof {
            use_type_invariant(&*self);
        }
        let mut stage: Stage = Stage::Ended;
        core::mem::swap(&mut stage, &mut self.stage);
        let (next, action): (Stage, Option<ScanAction>) = match (stage, event) {
            (Stage::Searching { mut search }, ScanEvent::Search(answer)) => {
                match search.on_event(answer) {
                    None => (Stage::Searching { search }, None),
                    Some(SearchAction::Finish(outcome)) => match outcome.into_result() {
                        Ok(iface) => (Stage::Connecting { iface }, Some(ScanAction::Connect)),
                        Err(error) => some_action(end_scan(error)),
                    },
                    Some(action) => (
                        Stage::Searching { search },
                        Some(ScanAction::Search(action)),
                    ),
                }
            },
            (Stage::Connecting { iface }, ScanEvent::Connected(ok)) => {
                if ok {
                    (Stage::Resolving, Some(ScanAction::Resolve(iface)))
                } else {
                    some_action(end_scan(NetError::WpaNotRunning))
                }
            },
            (Stage::Resolving, ScanEvent::Resolved(ok)) => {
                let mode: ScanMode = if ok {
                    ScanMode::Active
                } else {
                    ScanMode::Passive
                };
                (
                    Stage::Announcing { mode },
                    Some(ScanAction::Send(DeviceEvent::ScanMode(mode))),
                )
            },
            (Stage::Finding, ScanEvent::FindReply(ok)) => {
                let mode: ScanMode = ScanMode::Active;
                if ok {
                    (
                        Stage::Waiting { mode },
                        Some(ScanAction::Sleep(seconds_to_wait(self.timeout))),
                    )
                } else {
                    (Stage::Listing { mode }, Some(ScanAction::ListObjects))
                }
            },
            (Stage::Waiting { mode }, ScanEvent::Slept) => {
                (Stage::Listing { mode }, Some(ScanAction::ListObjects))
            },
            (Stage::Listing { mode }, ScanEvent::Objects(reply)) => {
                match reply {
                    Ok(objects) => {
                        let peers: Vec<String> = select_peers(&objects);
                        proof {
                            assert(views(peers@).skip(0) =~= views(peers@));
                        }
                        some_action(next_peer(mode, peers, 0))
                    },
                    Err(cause) => some_action(end_scan(NetError::from(cause))),
                }
            },
            (Stage::Reading { mode, peers, next }, ScanEvent::Peer(properties)) => {
                proof {
                    assert(next < peers.len());
                    assert(views(peers@).skip(next as int).drop_first() =~= views(peers@).skip(
                        next + 1,
                    ));
                }
                match properties {
                    Some(properties) => {
                        let device: P2pDevice = WpaSupplicantScanner::build_device(
                            peers[next].clone(),
                            properties,
                        );
                        (
                            Stage::Reporting { mode, peers, next: next + 1 },
                            Some(ScanAction::Send(DeviceEvent::Discovered(device))),
                        )
                    },
                    None => some_action(next_peer(mode, peers, next + 1)),
                }
            },
            (Stage::Announcing { mode }, ScanEvent::Sent(ok)) => {
                if ok {
                    some_action(begin_sweep(mode, self.timeout))
                } else {
                    some_action(end_scan(NetError::ChannelClosed))
                }
            },
            (Stage::Reporting { mode, peers, next }, ScanEvent::Sent(ok)) => {
                if ok {
                    some_action(next_peer(mode, peers, next))
                } else {
                    some_action(end_scan(NetError::ChannelClosed))
                }
            },
            (Stage::Completing { mode }, ScanEvent::Sent(ok)) => {
                if ok {
                    some_action(begin_sweep(mode, self.timeout))
                } else {
                    some_action(end_scan(NetError::ChannelClosed))
                }
            },
            (stage, _) => (stage, None),
        };
        self.stage = next;
        action
    }
}

/// A stage and the action that goes with it.
fn some_action(step: (Stage, ScanAction)) -> (r: (Stage, Option<ScanAction>))
    ensures
        r.0 == step.0,
        r.1 == Some(step.1),
{
    (step.0, Some(step.1))
}

// ---------------------------------------------------------------------------
// What holds of every scan
// ---------------------------------------------------------------------------

/// The mode of a scan, from its announcement on.
pub open spec fn mode_of(stage: ScanStage) -> Option<ScanMode> {
    match stage {
        ScanStage::Announcing { mode } => Some(mode),
        ScanStage::Finding => Some(ScanMode::Active),
        ScanStage::Waiting { mode } => Some(mode),
        ScanStage::Listing { mode } => Some(mode),
        ScanStage::Reading { mode, .. } => Some(mode),
        ScanStage::Reporting { mode, .. } => Some(mode),
        ScanStage::Completing { mode } => Some(mode),
        _ => None,
    }
}

/// The mode that was announced is kept for as long as the scan goes on.
pub proof fn law_mode_is_kept(timeout: i32, stage: ScanStage, event: ScanEventView)
    requires
        mode_of(stage) is Some,
        scan_step(timeout, stage, event) is Some,
    ensures
        ({
            let (next, _) = scan_step(timeout, stage, event)->0;
            next is Ended || mode_of(next) == mode_of(stage)
        }),
{
}

/// The mode is the first thing that a scan reports, and it is active exactly
/// where the interface could be had.
pub proof fn law_mode_is_reported_first(timeout: i32, stage: ScanStage, event: ScanEventView)
    requires
        mode_of(stage) is None,
        scan_step(timeout, stage, event) is Some,
    ensures
        match (scan_step(timeout, stage, event)->0).1 {
            ScanActionView::Send(report) => {
                &&& stage is Resolving
                &&& event is Resolved
                &&& report == DeviceEventView::ScanMode(
                    if event->Resolved_0 {
                        ScanMode::Active
                    } else {
                        ScanMode::Passive
                    },
                )
            },
            _ => true,
        },
{
}

/// A scan ends only where no interface is found, the daemon cannot be reached,
/// nobody receives its events, or the daemon's objects cannot be listed; and
/// it says which.
pub proof fn law_scan_ends_only_with_cause(
    timeout: i32,
    stage: ScanStage,
    event: ScanEventView,
    error: NetErrorView,
)
    requires
        scan_step(timeout, stage, event) is Some,
        (scan_step(timeout, stage, event)->0).1 == ScanActionView::End(error),
    ensures
        (scan_step(timeout, stage, event)->0).0 is Ended,
        match error {
            NetErrorView::NoP2pInterface { tried } => {
                &&& stage is Searching
                &&& event is Search
                &&& search_step(stage->search, event->Search_0) is Some
                &&& (search_step(stage->search, event->Search_0)->0).1 == SearchActionView::Finish(
                    SearchOutcomeView::NotFound(tried),
                )
            },
            NetErrorView::WpaNotRunning => stage is Connecting && event
                == ScanEventView::Connected(false),
            NetErrorView::ChannelClosed => event == ScanEventView::Sent(false),
            NetErrorView::DbusConnection(cause) => stage is Listing && event
                == ScanEventView::Objects(Err(cause)),
            NetErrorView::Internal(_) => false,
        },
{
}

/// Where a scan gets that searches for its interface in `world`.
pub open spec fn scan_search_run(
    timeout: i32,
    world: SearchWorld,
    search: SearchModel,
) -> Option<(ScanStage, ScanActionView)>
    decreases stages_left(search), candidates_left(search),
{
    match scan_step(
        timeout,
        ScanStage::Searching { search },
        ScanEventView::Search(world.answer(search)),
    ) {
        Some((ScanStage::Searching { search: next }, _)) => scan_search_run(timeout, world, next),
        other => other,
    }
}

proof fn lemma_scan_search_run(timeout: i32, world: SearchWorld, search: SearchModel)
    requires
        search_run(world, search) is Some,
    ensures
        scan_search_run(timeout, world, search) == Some(
            match search_run(world, search)->0 {
                SearchOutcomeView::Found(iface) => (
                    ScanStage::Connecting { iface },
                    ScanActionView::Connect,
                ),
                SearchOutcomeView::NotFound(tried) => scan_end(
                    NetErrorView::NoP2pInterface { tried },
                ),
            },
        ),
    decreases stages_left(search), candidates_left(search),
{
    match search_step(search, world.answer(search)) {
        Some((next, action)) => {
            if !(action is Finish) {
                lemma_scan_search_run(timeout, world, next);
            }
        },
        None => {},
    }
}

/// A scan to which no interface is given goes on with the one that the search
/// finds, or ends where it finds none.
pub proof fn law_scan_uses_the_interface_found(timeout: i32, world: SearchWorld)
    ensures
        scan_search_run(timeout, world, SearchModel::Sockets) == Some(
            match search_outcome(world) {
                SearchOutcomeView::Found(iface) => (
                    ScanStage::Connecting { iface },
                    ScanActionView::Connect,
                ),
                SearchOutcomeView::NotFound(tried) => scan_end(
                    NetErrorView::NoP2pInterface { tried },
                ),
            },
        ),
{
    law_search_finds_the_outcome(world);
    lemma_scan_search_run(timeout, world, SearchModel::Sockets);
}

/// Where there is a control socket or a Wi-Fi adapter, the search for the
/// interface leads on to the daemon, whatever that answered to the questions.
pub proof fn law_search_does_not_block_the_scan(timeout: i32, world: SearchWorld)
    requires
        listed_sockets(world.sockets).len() > 0 || world.adapters().len() > 0,
    ensures
        ({
            let reached = scan_search_run(timeout, world, SearchModel::Sockets);
            &&& reached is Some
            &&& (reached->0).0 is Connecting
            &&& (reached->0).1 == ScanActionView::Connect
        }),
{
    law_scan_uses_the_interface_found(timeout, world);
    law_search_fails_only_without_names(world);
}

/// A question about the interface that fails never ends a scan: it makes it a
/// passive one.
pub proof fn law_unresolved_interface_scans_passively(timeout: i32)
    ensures
        scan_step(timeout, ScanStage::Resolving, ScanEventView::Resolved(false)) == Some(
            (
                ScanStage::Announcing { mode: ScanMode::Passive },
                ScanActionView::Send(DeviceEventView::ScanMode(ScanMode::Passive)),
            ),
        ),
        scan_step(
            timeout,
            ScanStage::Announcing { mode: ScanMode::Passive },
            ScanEventView::Sent(true),
        ) == Some(
            (
                ScanStage::Waiting { mode: ScanMode::Passive },
                ScanActionView::Sleep(wait_seconds(timeout)),
            ),
        ),
{
}

/// How a sweep that has begun gets to the objects of the daemon: `found` is
/// whether the interface took up a search.
pub open spec fn sweep_listing(
    mode: ScanMode,
    timeout: i32,
    found: bool,
) -> Option<(ScanStage, ScanActionView)> {
    let (stage, action) = sweep_begin(mode, timeout);
    if action is Find {
        let (stage, action) = scan_step(timeout, stage, ScanEventView::FindReply(found))->0;
        if action is Sleep {
            scan_step(timeout, stage, ScanEventView::Slept)
        } else {
            Some((stage, action))
        }
    } else {
        scan_step(timeout, stage, ScanEventView::Slept)
    }
}

/// Every sweep lists the objects of the daemon, whatever the mode and whether
/// or not a search was taken up.
pub proof fn law_every_sweep_lists_the_objects(mode: ScanMode, timeout: i32, found: bool)
    ensures
        sweep_listing(mode, timeout, found) == Some(
            (ScanStage::Listing { mode }, ScanActionView::ListObjects),
        ),
{
}

/// What a sweep over `peers` reports, where `reads` is what could be read of
/// each: a device for every peer that could be read, in the order of the peers,
/// and then the end of the sweep.
pub open spec fn sweep_reports(
    peers: Seq<Seq<char>>,
    reads: Seq<Option<PeerPropertiesView>>,
) -> Seq<DeviceEventView>
    decreases peers.len(),
{
    if peers.len() == 0 {
        seq![DeviceEventView::ScanComplete]
    } else {
        let rest = sweep_reports(peers.drop_first(), reads.drop_first());
        match reads[0] {
            Some(properties) => seq![
                DeviceEventView::Discovered(device_of(peers[0], properties)),
            ] + rest,
            None => rest,
        }
    }
}

/// A measure of what is left of a sweep.
pub open spec fn sweep_left(stage: ScanStage) -> nat {
    match stage {
        ScanStage::Reading { peers, .. } => 2 * peers.len(),
        ScanStage::Reporting { peers, .. } => 2 * peers.len() + 1,
        _ => 0,
    }
}

/// What a sweep that stands at `step` goes on to report, where `reads` is what
/// can still be read and every report is received.
pub open spec fn sweep_run(
    timeout: i32,
    step: (ScanStage, ScanActionView),
    reads: Seq<Option<PeerPropertiesView>>,
) -> Seq<DeviceEventView>
    decreases sweep_left(step.0),
{
    match step.0 {
        ScanStage::Reading { peers, .. } => if peers.len() > 0 {
            sweep_run(
                timeout,
                scan_step(timeout, step.0, ScanEventView::Peer(reads[0]))->0,
                reads.drop_first(),
            )
        } else {
            Seq::empty()
        },
        ScanStage::Reporting { .. } => seq![step.1->Send_0] + sweep_run(
            timeout,
            scan_step(timeout, step.0, ScanEventView::Sent(true))->0,
            reads,
        ),
        ScanStage::Completing { .. } => seq![step.1->Send_0],
        _ => Seq::empty(),
    }
}

proof fn lemma_sweep_run(
    timeout: i32,
    mode: ScanMode,
    peers: Seq<Seq<char>>,
    reads: Seq<Option<PeerPropertiesView>>,
)
    ensures
        sweep_run(timeout, sweep_next(mode, peers), reads) == sweep_reports(peers, reads),
    decreases peers.len(),
{
    reveal_with_fuel(sweep_run, 3);
    if peers.len() > 0 {
        lemma_sweep_run(timeout, mode, peers.drop_first(), reads.drop_first());
    }
}

/// Once the daemon's objects are listed, a sweep reports every peer among them
/// that can be read, in their order, and then that it is complete.
pub proof fn law_sweep_reports_every_readable_peer(
    timeout: i32,
    mode: ScanMode,
    objects: Seq<ManagedObjectView>,
    reads: Seq<Option<PeerPropertiesView>>,
)
    ensures
        ({
            let listed = scan_step(
                timeout,
                ScanStage::Listing { mode },
                ScanEventView::Objects(Ok(objects)),
            );
            &&& listed is Some
            &&& sweep_run(timeout, listed->0, reads) == sweep_reports(peer_paths(objects), reads)
        }),
{
    lemma_sweep_run(timeout, mode, peer_paths(objects), reads);
}

/// After the end of a sweep is received the next one begins.
pub proof fn law_sweeps_repeat(timeout: i32, mode: ScanMode)
    ensures
        scan_step(timeout, ScanStage::Completing { mode }, ScanEventView::Sent(true)) == Some(
            sweep_begin(mode, timeout),
        ),
{
}

/// A sweep over no objects has no peers; an object that is added to the list adds
/// its path where it has the interface of a peer, and nothing else. The order is
/// kept.
pub proof fn law_peers_are_the_objects_with_the_interface(
    objects: Seq<ManagedObjectView>,
    object: ManagedObjectView,
)
    ensures
        peer_paths(Seq::empty()).len() == 0,
        peer_paths(objects.push(object)) == if object.interfaces.contains(
            "fi.w1.wpa_supplicant1.Peer"@,
        ) {
            peer_paths(objects).push(object.path)
        } else {
            peer_paths(objects)
        },
{
    let pick = |object: ManagedObjectView| peer_path(object);
    assert(objects.push(object).drop_last() =~= objects);
    assert(Seq::<ManagedObjectView>::empty().filter_map(pick) =~= Seq::empty());
    if object.interfaces.contains("fi.w1.wpa_supplicant1.Peer"@) {
        assert(peer_paths(objects.push(object)) =~= peer_paths(objects).push(object.path));
    } else {
        assert(peer_paths(objects.push(object)) =~= peer_paths(objects));
    }
}

/// The path of every object with the interface of a peer is picked, and no other
/// path.
pub proof fn law_every_peer_is_picked(
    objects: Vec<ManagedObject>,
    peers: Vec<String>,
    path: Seq<char>,
)
    requires
        call_ensures(select_peers, (&objects,), peers),
    ensures
        views(peers@).contains(path) <==> exists|i: int|
            #![trigger objects@[i]]
            0 <= i < objects@.len() && objects@[i].path@ == path && views(
                objects@[i].interfaces@,
            ).contains("fi.w1.wpa_supplicant1.Peer"@),
{
    let all = object_views(objects@);
    lemma_picked(all, path);
    assert forall|i: int| 0 <= i < all.len() implies #[trigger] all[i] == objects@[i]@ by {}
    if views(peers@).contains(path) {
        let i = choose|i: int|
            #![trigger all[i]]
            0 <= i < all.len() && all[i].path == path && all[i].interfaces.contains(
                "fi.w1.wpa_supplicant1.Peer"@,
            );
        assert(objects@[i].path@ == path);
    }
    if exists|i: int|
        #![trigger objects@[i]]
        0 <= i < objects@.len() && objects@[i].path@ == path && views(
            objects@[i].interfaces@,
        ).contains("fi.w1.wpa_supplicant1.Peer"@) {
        let i = choose|i: int|
            #![trigger objects@[i]]
            0 <= i < objects@.len() && objects@[i].path@ == path && views(
                objects@[i].interfaces@,
            ).contains("fi.w1.wpa_supplicant1.Peer"@);
        assert(all[i].path == path);
    }
}

proof fn lemma_picked(all: Seq<ManagedObjectView>, path: Seq<char>)
    ensures
        peer_paths(all).contains(path) <==> exists|i: int|
            #![trigger all[i]]
            0 <= i < all.len() && all[i].path == path && all[i].interfaces.contains(
                "fi.w1.wpa_supplicant1.Peer"@,
            ),
    decreases all.len(),
{
    if all.len() == 0 {
        assert(peer_paths(all).len() == 0);
    } else {
        let rest = all.drop_last();
        let last = all.last();
        assert(rest.push(last) =~= all);
        law_peers_are_the_objects_with_the_interface(rest, last);
        lemma_picked(rest, path);
        let before = peer_paths(rest);
        if last.interfaces.contains("fi.w1.wpa_supplicant1.Peer"@) {
            let now = before.push(last.path);
            assert(now[before.len() as int] == last.path);
            if before.contains(path) {
                let k = choose|k: int| 0 <= k < before.len() && before[k] == path;
                assert(now[k] == path);
            }
            if now.contains(path) {
                let k = choose|k: int| 0 <= k < now.len() && now[k] == path;
                if k < before.len() {
                    assert(before[k] == path);
                } else {
                    assert(all[all.len() - 1].path == path);
                }
            }
        }
        if exists|i: int|
            #![trigger rest[i]]
            0 <= i < rest.len() && rest[i].path == path && rest[i].interfaces.contains(
                "fi.w1.wpa_supplicant1.Peer"@,
            ) {
            let i = choose|i: int|
                #![trigger rest[i]]
                0 <= i < rest.len() && rest[i].path == path && rest[i].interfaces.contains(
                    "fi.w1.wpa_supplicant1.Peer"@,
                );
            assert(all[i] == rest[i]);
        }
        if exists|i: int|
            #![trigger all[i]]
            0 <= i < all.len() && all[i].path == path && all[i].interfaces.contains(
                "fi.w1.wpa_supplicant1.Peer"@,
            ) {
            let i = choose|i: int|
                #![trigger all[i]]
                0 <= i < all.len() && all[i].path == path && all[i].interfaces.contains(
                    "fi.w1.wpa_supplicant1.Peer"@,
                );
            if i < rest.len() {
                assert(all[i] == rest[i]);
            }
        }
    }
}

/// The wait is the time-out, to the second; one below zero is counted from the
/// top of the range.
pub proof fn law_wait_is_the_time_out(timeout: i32)
    ensures
        timeout >= 0 ==> wait_seconds(timeout) == timeout,
        timeout < 0 ==> wait_seconds(timeout) - timeout == 0x1_0000_0000_0000_0000,
{
}

/// A scanner with an interface begins with the daemon and asks it for that very
/// interface; one without begins with the search. Either way it keeps its
/// time-out.
pub proof fn law_scan_begins_with_the_given_interface(
    scanner: WpaSupplicantScanner,
    begun: (ScanSession, ScanAction),
)
    requires
        call_ensures(WpaSupplicantScanner::scan, (&scanner,), begun),
    ensures
        begun.0@.timeout == scanner.scan_timeout_secs,
        match scanner.interface {
            Some(name) => {
                &&& begun.1 is Connect
                &&& scan_step(
                    scanner.scan_timeout_secs,
                    begun.0@.stage,
                    ScanEventView::Connected(true),
                ) matches Some((_, action)) && action == ScanActionView::Resolve(name@)
            },
            None => {
                &&& begun.1@ == ScanActionView::Search(SearchActionView::ListSockets)
                &&& begun.0@.stage == ScanStage::Searching { search: SearchModel::Sockets }
            },
        },
{
}

/// Once the daemon is there, it is asked for the interface that was given or
/// found, and for no other.
pub proof fn law_interface_is_asked_for(timeout: i32, iface: Seq<char>)
    ensures
        scan_step(timeout, ScanStage::Connecting { iface }, ScanEventView::Connected(true)) == Some(
            (ScanStage::Resolving, ScanActionView::Resolve(iface)),
        ),
{
}

/// An interface that can be had makes the scan active, and one that cannot makes
/// it passive.
pub proof fn law_mode_follows_the_interface(timeout: i32, had: bool)
    ensures
        scan_step(timeout, ScanStage::Resolving, ScanEventView::Resolved(had)) matches Some(
            (stage, action),
        ) && {
            &&& mode_of(stage) == Some(
                if had {
                    ScanMode::Active
                } else {
                    ScanMode::Passive
                },
            )
            &&& action == ScanActionView::Send(DeviceEventView::ScanMode(mode_of(stage)->0))
        },
{
}

/// An active sweep begins with a search for the time-out, and where that is taken
/// up it waits as long; a passive sweep begins with the wait. After the wait, or
/// where the search is not taken up, the objects are listed.
pub proof fn law_sweep_takes_the_time_out(timeout: i32, mode: ScanMode, seconds: u64)
    requires
        timeout >= 0 ==> seconds == timeout,
        timeout < 0 ==> seconds - timeout == 0x1_0000_0000_0000_0000,
    ensures
        scan_step(timeout, ScanStage::Announcing { mode }, ScanEventView::Sent(true)) == scan_step(
            timeout,
            ScanStage::Completing { mode },
            ScanEventView::Sent(true),
        ),
        match mode {
            ScanMode::Active => {
                &&& scan_step(timeout, ScanStage::Announcing { mode }, ScanEventView::Sent(true))
                    == Some((ScanStage::Finding, ScanActionView::Find(timeout)))
                &&& scan_step(timeout, ScanStage::Finding, ScanEventView::FindReply(true)) == Some(
                    (ScanStage::Waiting { mode }, ScanActionView::Sleep(seconds)),
                )
                &&& scan_step(timeout, ScanStage::Finding, ScanEventView::FindReply(false)) == Some(
                    (ScanStage::Listing { mode }, ScanActionView::ListObjects),
                )
            },
            ScanMode::Passive => scan_step(
                timeout,
                ScanStage::Announcing { mode },
                ScanEventView::Sent(true),
            ) == Some((ScanStage::Waiting { mode }, ScanActionView::Sleep(seconds))),
        },
        scan_step(timeout, ScanStage::Waiting { mode }, ScanEventView::Slept) == Some(
            (ScanStage::Listing { mode }, ScanActionView::ListObjects),
        ),
{
}

/// The peer that is read is the one that is reported: its device has the path
/// that was read, and every field of it is the peer's.
pub proof fn law_reported_device_is_the_peer_read(
    timeout: i32,
    stage: ScanStage,
    event: ScanEventView,
    properties: PeerPropertiesView,
)
    requires
        scan_step(timeout, stage, event) is Some,
        (scan_step(timeout, stage, event)->0).1 is ReadPeer,
    ensures
        ({
            let (reading, action) = scan_step(timeout, stage, event)->0;
            let path = action->ReadPeer_0;
            &&& scan_step(timeout, reading, ScanEventView::Peer(Some(properties))) matches Some(
                (_, ScanActionView::Send(DeviceEventView::Discovered(device))),
            ) && {
                &&& device.object_path == path
                &&& device.signal_level == properties.level
                &&& properties.device_name is Some ==> device.device_name
                    == properties.device_name->0
                &&& properties.device_name is None ==> device.device_name == "Unknown"@
                &&& properties.device_address is Some ==> device.device_addr == mac_text(
                    properties.device_address->0,
                )
                &&& properties.device_address is None ==> device.device_addr.len() == 0
                &&& device.wfd_capable <==> properties.ies is Some && properties.ies->0.len() >= 1
            }
        }),
{
}

/// The peers that a sweep that stands at `step` goes on to read, where `reads` is
/// what can be read of them and every report is received.
pub open spec fn sweep_read_run(
    timeout: i32,
    step: (ScanStage, ScanActionView),
    reads: Seq<Option<PeerPropertiesView>>,
) -> Seq<Seq<char>>
    decreases sweep_left(step.0),
{
    match step.0 {
        ScanStage::Reading { peers, .. } => if peers.len() > 0 {
            seq![step.1->ReadPeer_0] + sweep_read_run(
                timeout,
                scan_step(timeout, step.0, ScanEventView::Peer(reads[0]))->0,
                reads.drop_first(),
            )
        } else {
            Seq::empty()
        },
        ScanStage::Reporting { .. } => sweep_read_run(
            timeout,
            scan_step(timeout, step.0, ScanEventView::Sent(true))->0,
            reads,
        ),
        _ => Seq::empty(),
    }
}

proof fn lemma_sweep_read_run(
    timeout: i32,
    mode: ScanMode,
    peers: Seq<Seq<char>>,
    reads: Seq<Option<PeerPropertiesView>>,
)
    ensures
        sweep_read_run(timeout, sweep_next(mode, peers), reads) == peers,
    decreases peers.len(),
{
    reveal_with_fuel(sweep_read_run, 3);
    if peers.len() > 0 {
        lemma_sweep_read_run(timeout, mode, peers.drop_first(), reads.drop_first());
        assert(seq![peers[0]] + peers.drop_first() =~= peers);
    } else {
        assert(sweep_read_run(timeout, sweep_next(mode, peers), reads) =~= peers);
    }
}

/// A sweep reads every peer among the objects, one after the other and each once,
/// whichever of them can be read.
pub proof fn law_sweep_reads_every_peer(
    timeout: i32,
    mode: ScanMode,
    objects: Seq<ManagedObjectView>,
    reads: Seq<Option<PeerPropertiesView>>,
)
    ensures
        ({
            let listed = scan_step(
                timeout,
                ScanStage::Listing { mode },
                ScanEventView::Objects(Ok(objects)),
            );
            &&& listed is Some
            &&& sweep_read_run(timeout, listed->0, reads) == peer_paths(objects)
        }),
{
    lemma_sweep_read_run(timeout, mode, peer_paths(objects), reads);
}

/// How many of the first `count` peers could be read.
pub open spec fn readable(reads: Seq<Option<PeerPropertiesView>>, count: int) -> nat
    decreases count,
{
    if count <= 0 {
        0
    } else {
        readable(reads, count - 1) + if reads[count - 1] is Some {
            1nat
        } else {
            0nat
        }
    }
}

/// A sweep makes one report for each peer that could be read and one for its end,
/// which comes last; each peer that could be read is reported, at its place among
/// them, under its own path.
pub proof fn law_sweep_reports_are_complete(
    peers: Seq<Seq<char>>,
    reads: Seq<Option<PeerPropertiesView>>,
)
    requires
        reads.len() == peers.len(),
    ensures
        sweep_reports(peers, reads).len() == readable(reads, reads.len() as int) + 1,
        sweep_reports(peers, reads).last() is ScanComplete,
        forall|k: int|
            0 <= k < peers.len() && #[trigger] reads[k] is Some ==> {
                &&& readable(reads, k) < readable(reads, reads.len() as int)
                &&& sweep_reports(peers, reads)[readable(reads, k) as int] matches
                    DeviceEventView::Discovered(device) && device.object_path == peers[k]
                    && device.signal_level == reads[k]->0.level
            },
    decreases peers.len(),
{
    if peers.len() > 0 {
        let rest = reads.drop_first();
        law_sweep_reports_are_complete(peers.drop_first(), rest);
        lemma_readable(reads, reads.len() as int);
        assert forall|k: int| 0 <= k < peers.len() && #[trigger] reads[k] is Some implies {
            &&& readable(reads, k) < readable(reads, reads.len() as int)
            &&& sweep_reports(peers, reads)[readable(reads, k) as int] matches
                DeviceEventView::Discovered(device) && device.object_path == peers[k]
                && device.signal_level == reads[k]->0.level
        } by {
            lemma_readable(reads, k);
            if k > 0 {
                assert(rest[k - 1] == reads[k]);
                assert(peers.drop_first()[k - 1] == peers[k]);
            }
        }
    }
}

proof fn lemma_readable(reads: Seq<Option<PeerPropertiesView>>, count: int)
    requires
        reads.len() > 0,
        0 <= count <= reads.len(),
    ensures
        count > 0 ==> readable(reads, count) == readable(reads.drop_first(), count - 1) + (
        if reads[0] is Some {
            1nat
        } else {
            0nat
        }),
    decreases count,
{
    reveal_with_fuel(readable, 2);
    if count > 1 {
        lemma_readable(reads, count - 1);
        assert(reads.drop_first()[count - 2] == reads[count - 1]);
    }
}

/// Every cause ends the scan with its own error: a daemon that cannot be reached,
/// a report that nobody receives, and objects that cannot be listed.
pub proof fn law_every_cause_ends_the_scan(
    timeout: i32,
    iface: Seq<char>,
    mode: ScanMode,
    peers: Seq<Seq<char>>,
    cause: zbus::Error,
)
    ensures
        scan_step(timeout, ScanStage::Connecting { iface }, ScanEventView::Connected(false))
            == Some((ScanStage::Ended, ScanActionView::End(NetErrorView::WpaNotRunning))),
        scan_step(timeout, ScanStage::Announcing { mode }, ScanEventView::Sent(false)) == Some(
            (ScanStage::Ended, ScanActionView::End(NetErrorView::ChannelClosed)),
        ),
        scan_step(timeout, ScanStage::Reporting { mode, peers }, ScanEventView::Sent(false))
            == Some((ScanStage::Ended, ScanActionView::End(NetErrorView::ChannelClosed))),
        scan_step(timeout, ScanStage::Completing { mode }, ScanEventView::Sent(false)) == Some(
            (ScanStage::Ended, ScanActionView::End(NetErrorView::ChannelClosed)),
        ),
        scan_step(timeout, ScanStage::Listing { mode }, ScanEventView::Objects(Err(cause)))
            == Some((ScanStage::Ended, ScanActionView::End(NetErrorView::DbusConnection(cause)))),
{
}

/// A scan takes in only the answer that it waits for, and takes that in always.
pub proof fn law_scan_takes_in_what_it_waits_for(
    timeout: i32,
    stage: ScanStage,
    event: ScanEventView,
)
    ensures
        scan_step(timeout, stage, event) is Some <==> match stage {
            ScanStage::Searching { search } => event is Search && search_step(
                search,
                event->Search_0,
            ) is Some,
            ScanStage::Connecting { .. } => event is Connected,
            ScanStage::Resolving => event is Resolved,
            ScanStage::Finding => event is FindReply,
            ScanStage::Waiting { .. } => event is Slept,
            ScanStage::Listing { .. } => event is Objects,
            ScanStage::Reading { .. } => event is Peer,
            ScanStage::Announcing { .. } => event is Sent,
            ScanStage::Reporting { .. } => event is Sent,
            ScanStage::Completing { .. } => event is Sent,
            ScanStage::Ended => false,
        },
{
}

/// What a scan does is what it then waits for.
pub proof fn law_scan_waits_for_what_it_does(
    timeout: i32,
    stage: ScanStage,
    event: ScanEventView,
)
    requires
        scan_step(timeout, stage, event) is Some,
    ensures
        ({
            let (next, action) = scan_step(timeout, stage, event)->0;
            match next {
                ScanStage::Searching { search } => action is Search && search_step(
                    stage->search,
                    event->Search_0,
                ) == Some((search, action->Search_0)),
                ScanStage::Connecting { .. } => action is Connect,
                ScanStage::Resolving => action is Resolve,
                ScanStage::Announcing { .. } => action is Send,
                ScanStage::Finding => action is Find,
                ScanStage::Waiting { .. } => action is Sleep,
                ScanStage::Listing { .. } => action is ListObjects,
                ScanStage::Reading { peers, .. } => peers.len() > 0 && action
                    == ScanActionView::ReadPeer(peers[0]),
                ScanStage::Reporting { .. } => action is Send,
                ScanStage::Completing { .. } => action == ScanActionView::Send(
                    DeviceEventView::ScanComplete,
                ),
                ScanStage::Ended => action is End,
            }
        }),
{
}

/// What is seen of an answer is what it holds.
pub proof fn law_scan_answers_are_seen_as_they_are(event: ScanEvent, object: ManagedObject)
    ensures
        match event {
            ScanEvent::Search(answer) => event@ == ScanEventView::Search(answer@),
            ScanEvent::Connected(ok) => event@ == ScanEventView::Connected(ok),
            ScanEvent::Resolved(ok) => event@ == ScanEventView::Resolved(ok),
            ScanEvent::Sent(ok) => event@ == ScanEventView::Sent(ok),
            ScanEvent::FindReply(ok) => event@ == ScanEventView::FindReply(ok),
            ScanEvent::Slept => event@ is Slept,
            ScanEvent::Objects(reply) => event@ matches ScanEventView::Objects(seen) && match reply {
                Ok(objects) => seen matches Ok(list) && list.len() == objects@.len() && forall|
                    i: int,
                |
                    0 <= i < list.len() ==> #[trigger] list[i] == objects@[i]@,
                Err(cause) => seen == Err::<Seq<ManagedObjectView>, zbus::Error>(cause),
            },
            ScanEvent::Peer(properties) => event@ matches ScanEventView::Peer(seen) && match properties {
                Some(properties) => seen == Some(properties@),
                None => seen is None,
            },
        },
        object@.path == object.path@,
        object@.interfaces == views(object.interfaces@),
{
}

/// What is seen of an action is what it holds.
pub proof fn law_scan_actions_are_seen_as_they_are(action: ScanAction)
    ensures
        match action {
            ScanAction::Search(question) => action@ == ScanActionView::Search(question@),
            ScanAction::Connect => action@ is Connect,
            ScanAction::Resolve(iface) => action@ == ScanActionView::Resolve(iface@),
            ScanAction::Send(event) => action@ == ScanActionView::Send(event@),
            ScanAction::Find(timeout) => action@ == ScanActionView::Find(timeout),
            ScanAction::Sleep(secs) => action@ == ScanActionView::Sleep(secs),
            ScanAction::ListObjects => action@ is ListObjects,
            ScanAction::ReadPeer(path) => action@ == ScanActionView::ReadPeer(path@),
            ScanAction::End(error) => action@ == ScanActionView::End(error@),
        },
{
}

/// A scanner with an interface keeps it as given; one without searches. Unless
/// told otherwise, a sweep takes thirty seconds.
pub proof fn law_scanners_keep_their_interface(
    interface: String,
    given: WpaSupplicantScanner,
    searching: WpaSupplicantScanner,
)
    requires
        call_ensures(WpaSupplicantScanner::new, (interface,), given),
        call_ensures(WpaSupplicantScanner::auto, (), searching),
    ensures
        given.interface == Some(interface),
        searching.interface is None,
        given.scan_timeout_secs == 30,
        searching.scan_timeout_secs == 30,
{
}

} // verus!
