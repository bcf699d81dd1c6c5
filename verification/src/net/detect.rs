//! Which P2P interface to scan with.
//!
//! The search goes from what is surest to what is a guess:
//!
//! 1. a control socket in `/run/wpa_supplicant` whose name begins with
//!    `p2p-dev-`;
//! 2. a name derived from a Wi-Fi adapter or from another control socket, if
//!    the daemon confirms it over D-Bus;
//! 3. a derived name that nobody confirmed, where the daemon cannot be asked or
//!    knows none of the names.
//!
//! The daemon's word is welcome but not needed: where another program manages
//! the interfaces, it may refuse every question about them. So the search fails
//! only where there is nothing to derive a name from.
//!
//! [`InterfaceSearch`] says what to look up next; the program around it looks
//! it up and hands the answer back.

use crate::net::error::{NetError, NetErrorView, NetResult};
use crate::net::interfaces::{
    class_adapters, socket_interfaces, table_adapters, wifi_interfaces_from_proc,
    wifi_interfaces_from_sysfs, wpa_socket_interfaces,
};
use crate::text::{lemma_views_push, opt_view, starts_with, views};
use vstd::prelude::*;
use vstd::string::*;

verus! {

// ---------------------------------------------------------------------------
// Questions and answers
// ---------------------------------------------------------------------------

/// What came back when the daemon was asked for an interface that cannot exist.
#[derive(Debug, Clone, Copy, PartialEq, Eq, Structural)]
pub enum ProbeReply {
    /// The system bus, or the daemon's object on it, could not be reached.
    NoConnection,
    /// The daemon answered the call.
    Answered,
    /// The daemon answered with a D-Bus method error.
    MethodError,
    /// The call failed in another way.
    Failed,
}

impl ProbeReply {
    /// Whether the reply shows that the daemon is there.
    pub open spec fn shows_daemon(self) -> bool {
        self is Answered || self is MethodError
    }

    /// Whether the reply shows that the daemon is there.
    pub fn is_alive(&self) -> (r: bool)
        ensures
            r == self.shows_daemon(),
    {
        match self {
            ProbeReply::Answered => true,
            ProbeReply::MethodError => true,
            ProbeReply::NoConnection => false,
            ProbeReply::Failed => false,
        }
    }
}

/// How a search ended.
#[derive(Debug)]
pub enum SearchOutcome {
    /// The interface to use.
    Found(String),
    /// No interface; the names that were tried.
    NotFound(Vec<String>),
}

/// What a [`SearchOutcome`] holds, as plain values.
pub enum SearchOutcomeView {
    Found(Seq<char>),
    NotFound(Seq<Seq<char>>),
}

impl View for SearchOutcome {
    type V = SearchOutcomeView;

    open spec fn view(&self) -> SearchOutcomeView {
        match self {
            SearchOutcome::Found(name) => SearchOutcomeView::Found(name@),
            SearchOutcome::NotFound(tried) => SearchOutcomeView::NotFound(views(tried@)),
        }
    }
}

impl SearchOutcome {
    /// The interface, or the error that none was found.
    pub fn into_result(self) -> (r: NetResult<String>)
        ensures
            match r {
                Ok(name) => self@ == SearchOutcomeView::Found(name@),
                Err(error) => self is NotFound && error@ == (NetErrorView::NoP2pInterface {
                    tried: self@->NotFound_0,
                }),
            },
    {
        match self {
            SearchOutcome::Found(name) => Ok(name),
            SearchOutcome::NotFound(tried) => Err(NetError::NoP2pInterface { tried }),
        }
    }
}

/// What to do next in a search.
#[derive(Debug)]
pub enum SearchAction {
    /// List `/run/wpa_supplicant`.
    ListSockets,
    /// Read `/proc/net/wireless`.
    ReadWirelessTable,
    /// List `/sys/class/net`.
    ListNetClass,
    /// Ask the daemon for an interface that cannot exist.
    ProbeDaemon,
    /// Ask the daemon for this interface.
    QueryInterface(String),
    /// The search is over.
    Finish(SearchOutcome),
}

/// What a [`SearchAction`] holds, as plain values.
pub enum SearchActionView {
    ListSockets,
    ReadWirelessTable,
    ListNetClass,
    ProbeDaemon,
    QueryInterface(Seq<char>),
    Finish(SearchOutcomeView),
}

impl View for SearchAction {
    type V = SearchActionView;

    open spec fn view(&self) -> SearchActionView {
        match self {
            SearchAction::ListSockets => SearchActionView::ListSockets,
            SearchAction::ReadWirelessTable => SearchActionView::ReadWirelessTable,
            SearchAction::ListNetClass => SearchActionView::ListNetClass,
            SearchAction::ProbeDaemon => SearchActionView::ProbeDaemon,
            SearchAction::QueryInterface(name) => SearchActionView::QueryInterface(name@),
            SearchAction::Finish(outcome) => SearchActionView::Finish(outcome@),
        }
    }
}

/// What came of an action. A file or a directory that could not be read is
/// `None`.
#[derive(Debug)]
pub enum SearchEvent {
    /// The entries of `/run/wpa_supplicant`.
    Sockets(Option<Vec<String>>),
    /// The content of `/proc/net/wireless`.
    WirelessTable(Option<String>),
    /// The entries of `/sys/class/net`.
    NetClass(Option<Vec<String>>),
    /// What the daemon said to the impossible question.
    DaemonProbe(ProbeReply),
    /// Whether the daemon knows the interface that it was asked for.
    InterfaceReply(bool),
}

/// What a [`SearchEvent`] holds, as plain values.
pub enum SearchEventView {
    Sockets(Option<Seq<Seq<char>>>),
    WirelessTable(Option<Seq<char>>),
    NetClass(Option<Seq<Seq<char>>>),
    DaemonProbe(ProbeReply),
    InterfaceReply(bool),
}

/// The names of a listing, where there is one.
pub open spec fn listing_view(listing: Option<Vec<String>>) -> Option<Seq<Seq<char>>> {
    match listing {
        Some(entries) => Some(views(entries@)),
        None => None,
    }
}

impl View for SearchEvent {
    type V = SearchEventView;

    open spec fn view(&self) -> SearchEventView {
        match self {
            SearchEvent::Sockets(listing) => SearchEventView::Sockets(listing_view(*listing)),
            SearchEvent::WirelessTable(content) => SearchEventView::WirelessTable(
                opt_view(*content),
            ),
            SearchEvent::NetClass(listing) => SearchEventView::NetClass(listing_view(*listing)),
            SearchEvent::DaemonProbe(reply) => SearchEventView::DaemonProbe(*reply),
            SearchEvent::InterfaceReply(known) => SearchEventView::InterfaceReply(*known),
        }
    }
}

// ---------------------------------------------------------------------------
// Names
// ---------------------------------------------------------------------------

/// Whether a name is that of a P2P device interface.
pub open spec fn is_p2p(name: Seq<char>) -> bool {
    "p2p-dev-"@.is_prefix_of(name)
}

/// The P2P device interface that belongs to the interface `parent`.
pub open spec fn p2p_name(parent: Seq<char>) -> Seq<char> {
    "p2p-dev-"@ + parent
}

/// The first P2P device interface among `names`.
pub open spec fn first_p2p(names: Seq<Seq<char>>) -> Option<Seq<char>>
    decreases names.len(),
{
    if names.len() == 0 {
        None
    } else if is_p2p(names[0]) {
        Some(names[0])
    } else {
        first_p2p(names.drop_first())
    }
}

/// The names to ask the daemon for: those derived from the Wi-Fi adapters, then
/// those derived from the control sockets.
pub open spec fn candidates(
    wifi: Seq<Seq<char>>,
    sockets: Seq<Seq<char>>,
) -> Seq<Seq<char>> {
    (wifi + sockets).map_values(|parent: Seq<char>| p2p_name(parent))
}

/// The control sockets of a listing; none where it could not be read.
pub open spec fn listed_sockets(listing: Option<Seq<Seq<char>>>) -> Seq<Seq<char>> {
    match listing {
        Some(entries) => socket_interfaces(entries),
        None => Seq::empty(),
    }
}

/// The adapters of a listing of `/sys/class/net`; none where it could not be read.
pub open spec fn listed_adapters(listing: Option<Seq<Seq<char>>>) -> Seq<Seq<char>> {
    match listing {
        Some(entries) => class_adapters(entries),
        None => Seq::empty(),
    }
}

/// What to use where the daemon confirms nothing: the name derived from the
/// first control socket, or else from the first Wi-Fi adapter.
pub open spec fn best_guess(
    sockets: Seq<Seq<char>>,
    wifi: Seq<Seq<char>>,
) -> SearchOutcomeView {
    if sockets.len() > 0 {
        SearchOutcomeView::Found(p2p_name(sockets[0]))
    } else if wifi.len() > 0 {
        SearchOutcomeView::Found(p2p_name(wifi[0]))
    } else {
        SearchOutcomeView::NotFound(sockets)
    }
}

/// `first_p2p` finds nothing exactly where no name is a P2P interface, and else
/// the one that has none before it.
pub proof fn lemma_first_p2p(names: Seq<Seq<char>>)
    ensures
        first_p2p(names) is None ==> forall|i: int|
            0 <= i < names.len() ==> !is_p2p(#[trigger] names[i]),
        first_p2p(names) is Some ==> exists|i: int|
            {
                &&& 0 <= i < names.len()
                &&& is_p2p(names[i])
                &&& first_p2p(names) == Some(#[trigger] names[i])
                &&& forall|j: int| 0 <= j < i ==> !is_p2p(#[trigger] names[j])
            },
    decreases names.len(),
{
    if names.len() > 0 && !is_p2p(names[0]) {
        let rest = names.drop_first();
        lemma_first_p2p(rest);
        if first_p2p(names) is None {
            assert forall|i: int| 0 <= i < names.len() implies !is_p2p(#[trigger] names[i]) by {
                if i > 0 {
                    assert(rest[i - 1] == names[i]);
                }
            }
        } else {
            let k = choose|i: int|
                {
                    &&& 0 <= i < rest.len()
                    &&& is_p2p(rest[i])
                    &&& first_p2p(rest) == Some(#[trigger] rest[i])
                    &&& forall|j: int| 0 <= j < i ==> !is_p2p(#[trigger] rest[j])
                };
            assert(names[k + 1] == rest[k]);
            assert forall|j: int| 0 <= j < k + 1 implies !is_p2p(#[trigger] names[j]) by {
                if j > 0 {
                    assert(rest[j - 1] == names[j]);
                }
            }
        }
    } else if names.len() > 0 {
        assert(first_p2p(names) == Some(names[0]));
    }
}

/// The index of the first P2P device interface among `names`, or their number.
fn find_p2p(names: &Vec<String>) -> (r: usize)
    ensures
        r <= names.len(),
        first_p2p(views(names@)) == if r < names.len() {
            Some(names@[r as int]@)
        } else {
            None
        },
{
    let ghost all = views(names@);
    let mut i: usize = 0;
    proof {
        assert(all.skip(0) =~= all);
    }
    while i < names.len()
        invariant
            i <= names.len(),
            all == views(names@),
            first_p2p(all) == first_p2p(all.skip(i as int)),
        decreases names.len() - i,
    {
        proof {
            assert(all.skip(i as int)[0] == names@[i as int]@);
            assert(all.skip(i as int).drop_first() =~= all.skip(i + 1));
        }
        if starts_with(names[i].as_str(), "p2p-dev-") {
            return i;
        }
        i += 1;
    }
    i
}

/// Derives the P2P device interface of `parent`.
fn derive_name(parent: &str) -> (r: String)
    ensures
        r@ == p2p_name(parent@),
{
    "p2p-dev-".to_owned().concat(parent)
}

/// Derives the names to ask the daemon for.
fn derive_candidates(wifi: &Vec<String>, sockets: &Vec<String>) -> (r: Vec<String>)
    ensures
        views(r@) == candidates(views(wifi@), views(sockets@)),
{
    let ghost parents = views(wifi@) + views(sockets@);
    let ghost all = candidates(views(wifi@), views(sockets@));
    let mut r: Vec<String> = Vec::new();
    let mut i: usize = 0;
    while i < wifi.len()
        invariant
            i <= wifi.len(),
            parents == views(wifi@) + views(sockets@),
            all == candidates(views(wifi@), views(sockets@)),
            views(r@) == all.take(i as int),
        decreases wifi.len() - i,
    {
        let name: String = derive_name(wifi[i].as_str());
        proof {
            lemma_views_push(r@, name);
            assert(parents[i as int] == wifi@[i as int]@);
            assert(all.take(i + 1) =~= all.take(i as int).push(name@));
        }
        r.push(name);
        i += 1;
    }
    let mut j: usize = 0;
    while j < sockets.len()
        invariant
            j <= sockets.len(),
            parents == views(wifi@) + views(sockets@),
            all == candidates(views(wifi@), views(sockets@)),
            views(r@) == all.take(wifi@.len() + j),
        decreases sockets.len() - j,
    {
        let name: String = derive_name(sockets[j].as_str());
        proof {
            lemma_views_push(r@, name);
            assert(parents[wifi@.len() + j] == sockets@[j as int]@);
            assert(all.take(wifi@.len() + j + 1) =~= all.take(wifi@.len() + j).push(name@));
        }
        r.push(name);
        j += 1;
    }
    proof {
        assert(all.take(all.len() as int) =~= all);
    }
    r
}

/// Guesses the interface where the daemon confirms nothing.
fn guess(sockets: Vec<String>, wifi: &Vec<String>) -> (r: SearchOutcome)
    ensures
        r@ == best_guess(views(sockets@), views(wifi@)),
{
    if sockets.len() > 0 {
        SearchOutcome::Found(derive_name(sockets[0].as_str()))
    } else if wifi.len() > 0 {
        SearchOutcome::Found(derive_name(wifi[0].as_str()))
    } else {
        SearchOutcome::NotFound(sockets)
    }
}

// ---------------------------------------------------------------------------
// The search
// ---------------------------------------------------------------------------

/// How far a search is, and what it knows.
pub enum SearchModel {
    /// Waits for the control sockets.
    Sockets,
    /// Waits for the wireless table.
    WirelessTable { sockets: Seq<Seq<char>> },
    /// Waits for the network class, as there was no wireless table.
    NetClass { sockets: Seq<Seq<char>> },
    /// Waits for the daemon to show that it is there.
    Daemon { sockets: Seq<Seq<char>>, wifi: Seq<Seq<char>> },
    /// Waits for the daemon's answer on the candidate at `next`.
    Query { sockets: Seq<Seq<char>>, wifi: Seq<Seq<char>>, next: int },
    /// Over.
    Over,
}

/// One step of a search: what it knows after an answer and what it does then.
/// `None` for an answer that it does not wait for.
pub open spec fn search_step(
    model: SearchModel,
    event: SearchEventView,
) -> Option<(SearchModel, SearchActionView)> {
    match (model, event) {
        (SearchModel::Sockets, SearchEventView::Sockets(listing)) => {
            let sockets = listed_sockets(listing);
            match first_p2p(sockets) {
                Some(name) => Some(finish_with(SearchOutcomeView::Found(name))),
                None => Some(
                    (SearchModel::WirelessTable { sockets }, SearchActionView::ReadWirelessTable),
                ),
            }
        },
        (
            SearchModel::WirelessTable { sockets },
            SearchEventView::WirelessTable(content),
        ) => match content {
            Some(text) => Some(
                (
                    SearchModel::Daemon { sockets, wifi: table_adapters(text) },
                    SearchActionView::ProbeDaemon,
                ),
            ),
            None => Some((SearchModel::NetClass { sockets }, SearchActionView::ListNetClass)),
        },
        (SearchModel::NetClass { sockets }, SearchEventView::NetClass(listing)) => Some(
            (
                SearchModel::Daemon { sockets, wifi: listed_adapters(listing) },
                SearchActionView::ProbeDaemon,
            ),
        ),
        (SearchModel::Daemon { sockets, wifi }, SearchEventView::DaemonProbe(reply)) => {
            if reply.shows_daemon() && candidates(wifi, sockets).len() > 0 {
                Some(ask_for(sockets, wifi, 0))
            } else {
                Some(finish_with(best_guess(sockets, wifi)))
            }
        },
        (
            SearchModel::Query { sockets, wifi, next },
            SearchEventView::InterfaceReply(known),
        ) => {
            let names = candidates(wifi, sockets);
            if known {
                Some(finish_with(SearchOutcomeView::Found(names[next])))
            } else if next + 1 < names.len() {
                Some(ask_for(sockets, wifi, next + 1))
            } else {
                Some(finish_with(best_guess(sockets, wifi)))
            }
        },
        _ => None,
    }
}

/// The search ends.
pub open spec fn finish_with(outcome: SearchOutcomeView) -> (SearchModel, SearchActionView) {
    (SearchModel::Over, SearchActionView::Finish(outcome))
}

/// The search asks the daemon for the candidate at `next`.
pub open spec fn ask_for(
    sockets: Seq<Seq<char>>,
    wifi: Seq<Seq<char>>,
    next: int,
) -> (SearchModel, SearchActionView) {
    (
        SearchModel::Query { sockets, wifi, next },
        SearchActionView::QueryInterface(candidates(wifi, sockets)[next]),
    )
}

/// How far a search is, and what it holds.
enum Stage {
    Sockets,
    WirelessTable { sockets: Vec<String> },
    NetClass { sockets: Vec<String> },
    Daemon { sockets: Vec<String>, wifi: Vec<String> },
    Query { sockets: Vec<String>, wifi: Vec<String>, names: Vec<String>, next: usize },
    Over,
}

/// A search for the P2P interface.
pub struct InterfaceSearch {
    stage: Stage,
}

impl View for InterfaceSearch {
    type V = SearchModel;

    closed spec fn view(&self) -> SearchModel {
        match self.stage {
            Stage::Sockets => SearchModel::Sockets,
            Stage::WirelessTable { sockets } => SearchModel::WirelessTable {
                sockets: views(sockets@),
            },
            Stage::NetClass { sockets } => SearchModel::NetClass { sockets: views(sockets@) },
            Stage::Daemon { sockets, wifi } => SearchModel::Daemon {
                sockets: views(sockets@),
                wifi: views(wifi@),
            },
            Stage::Query { sockets, wifi, next, .. } => SearchModel::Query {
                sockets: views(sockets@),
                wifi: views(wifi@),
                next: next as int,
            },
            Stage::Over => SearchModel::Over,
        }
    }
}

impl InterfaceSearch {
    /// The names to ask for are the candidates, and a question to the daemon is
    /// about one of them.
    #[verifier::type_invariant]
    spec fn inv(self) -> bool {
        match self.stage {
            Stage::Query { sockets, wifi, names, next } => {
                &&& views(names@) == candidates(views(wifi@), views(sockets@))
                &&& next < names@.len()
            },
            _ => true,
        }
    }

    /// Begins a search.
    pub fn begin() -> (r: (InterfaceSearch, SearchAction))
        ensures
            r.0@ == SearchModel::Sockets,
            r.1@ == SearchActionView::ListSockets,
    {
        (InterfaceSearch { stage: Stage::Sockets }, SearchAction::ListSockets)
    }

    /// Takes in what came of the last action and says what to do next. An
    /// answer that the search does not wait for changes nothing.
    pub fn on_event(&mut self, event: SearchEvent) -> (r: Option<SearchAction>)
        ensures
            match search_step(old(self)@, event@) {
                Some((model, action)) => final(self)@ == model && r is Some && r->0@ == action,
                None => final(self)@ == old(self)@ && r is None,
            },
    {
        proof {
            use_type_invariant(&*self);
        }
        let mut stage: Stage = Stage::Over;
        core::mem::swap(&mut stage, &mut self.stage);
        let (next, action): (Stage, Option<SearchAction>) = match (stage, event) {
            (Stage::Sockets, SearchEvent::Sockets(listing)) => {
                let sockets: Vec<String> = match listing {
                    Some(entries) => wpa_socket_interfaces(&entries),
                    None => Vec::new(),
                };
                proof {
                    assert(views(sockets@) =~= listed_sockets(event@->Sockets_0));
                }
                let k: usize = find_p2p(&sockets);
                if k < sockets.len() {
                    let name: String = sockets[k].clone();
                    (Stage::Over, Some(SearchAction::Finish(SearchOutcome::Found(name))))
                } else {
                    (Stage::WirelessTable { sockets }, Some(SearchAction::ReadWirelessTable))
                }
            },
            (Stage::WirelessTable { sockets }, SearchEvent::WirelessTable(content)) => {
                match content {
                    Some(text) => {
                        let wifi: Vec<String> = wifi_interfaces_from_proc(text.as_str());
                        (Stage::Daemon { sockets, wifi }, Some(SearchAction::ProbeDaemon))
                    },
                    None => (Stage::NetClass { sockets }, Some(SearchAction::ListNetClass)),
                }
            },
            (Stage::NetClass { sockets }, SearchEvent::NetClass(listing)) => {
                let wifi: Vec<String> = match listing {
                    Some(entries) => wifi_interfaces_from_sysfs(&entries),
                    None => Vec::new(),
                };
                proof {
                    assert(views(wifi@) =~= listed_adapters(event@->NetClass_0));
                }
                (Stage::Daemon { sockets, wifi }, Some(SearchAction::ProbeDaemon))
            },
            (Stage::Daemon { sockets, wifi }, SearchEvent::DaemonProbe(reply)) => {
                if reply.is_alive() && (wifi.len() > 0 || sockets.len() > 0) {
                    let names: Vec<String> = derive_candidates(&wifi, &sockets);
                    proof {
                        assert(views(names@).len() == wifi@.len() + sockets@.len());
                    }
                    let first: String = names[0].clone();
                    (
                        Stage::Query { sockets, wifi, names, next: 0 },
                        Some(SearchAction::QueryInterface(first)),
                    )
                } else {
                    (Stage::Over, Some(SearchAction::Finish(guess(sockets, &wifi))))
                }
            },
            (Stage::Query { sockets, wifi, names, next }, SearchEvent::InterfaceReply(known)) => {
                let count: usize = names.len();
                if known {
                    let name: String = names[next].clone();
                    (Stage::Over, Some(SearchAction::Finish(SearchOutcome::Found(name))))
                } else if next + 1 < count {
                    let name: String = names[next + 1].clone();
                    (
                        Stage::Query { sockets, wifi, names, next: next + 1 },
                        Some(SearchAction::QueryInterface(name)),
                    )
                } else {
                    (Stage::Over, Some(SearchAction::Finish(guess(sockets, &wifi))))
                }
            },
            (stage, _) => (stage, None),
        };
        self.stage = next;
        action
    }
}

// ---------------------------------------------------------------------------
// Where a search leads
// ---------------------------------------------------------------------------

/// All that a search can be told. The daemon's answers on the candidates are
/// listed in the order of the questions.
pub struct SearchWorld {
    pub sockets: Option<Seq<Seq<char>>>,
    pub table: Option<Seq<char>>,
    pub net_class: Option<Seq<Seq<char>>>,
    pub probe: ProbeReply,
    pub replies: Seq<bool>,
}

impl SearchWorld {
    /// The Wi-Fi adapters: those of the wireless table or, where it cannot be
    /// read, those of the network class.
    pub open spec fn adapters(self) -> Seq<Seq<char>> {
        match self.table {
            Some(text) => table_adapters(text),
            None => listed_adapters(self.net_class),
        }
    }

    /// The answer to what a search waits for.
    pub open spec fn answer(self, model: SearchModel) -> SearchEventView {
        match model {
            SearchModel::Sockets => SearchEventView::Sockets(self.sockets),
            SearchModel::WirelessTable { .. } => SearchEventView::WirelessTable(self.table),
            SearchModel::NetClass { .. } => SearchEventView::NetClass(self.net_class),
            SearchModel::Daemon { .. } => SearchEventView::DaemonProbe(self.probe),
            SearchModel::Query { next, .. } => SearchEventView::InterfaceReply(self.replies[next]),
            SearchModel::Over => SearchEventView::InterfaceReply(false),
        }
    }
}

/// The first of the answers from `from` on, and before `end`, that is a yes.
pub open spec fn first_yes(replies: Seq<bool>, from: int, end: int) -> Option<int>
    decreases end - from,
{
    if from >= end {
        None
    } else if replies[from] {
        Some(from)
    } else {
        first_yes(replies, from + 1, end)
    }
}

/// The interface that a search finds in `world`.
///
/// A P2P control socket comes first. Without one, where the daemon is there, it
/// is the first of the candidates that the daemon knows. Where the daemon is not
/// there, or knows none of them, it is the best guess.
pub open spec fn search_outcome(world: SearchWorld) -> SearchOutcomeView {
    let sockets = listed_sockets(world.sockets);
    let names = candidates(world.adapters(), sockets);
    match first_p2p(sockets) {
        Some(name) => SearchOutcomeView::Found(name),
        None => if world.probe.shows_daemon() {
            match first_yes(world.replies, 0, names.len() as int) {
                Some(i) => SearchOutcomeView::Found(names[i]),
                None => best_guess(sockets, world.adapters()),
            }
        } else {
            best_guess(sockets, world.adapters())
        },
    }
}

/// How many kinds of question can still come.
pub open spec fn stages_left(model: SearchModel) -> nat {
    match model {
        SearchModel::Sockets => 5,
        SearchModel::WirelessTable { .. } => 4,
        SearchModel::NetClass { .. } => 3,
        SearchModel::Daemon { .. } => 2,
        SearchModel::Query { .. } => 1,
        SearchModel::Over => 0,
    }
}

/// How many candidates are still to be asked for.
pub open spec fn candidates_left(model: SearchModel) -> nat {
    match model {
        SearchModel::Query { sockets, wifi, next } => if next < candidates(wifi, sockets).len() {
            (candidates(wifi, sockets).len() - next) as nat
        } else {
            0
        },
        _ => 0,
    }
}

/// Where a search that stands at `model` ends in `world`.
pub open spec fn search_run(world: SearchWorld, model: SearchModel) -> Option<SearchOutcomeView>
    decreases stages_left(model), candidates_left(model),
{
    match search_step(model, world.answer(model)) {
        Some((_, SearchActionView::Finish(outcome))) => Some(outcome),
        Some((next, _)) => search_run(world, next),
        None => None,
    }
}

/// Asking for the candidates one by one finds the first that the daemon knows,
/// and leads to the best guess where it knows none.
proof fn lemma_query_run(
    world: SearchWorld,
    sockets: Seq<Seq<char>>,
    wifi: Seq<Seq<char>>,
    next: int,
)
    requires
        0 <= next < candidates(wifi, sockets).len(),
    ensures
        search_run(world, SearchModel::Query { sockets, wifi, next }) == Some(
            match first_yes(world.replies, next, candidates(wifi, sockets).len() as int) {
                Some(i) => SearchOutcomeView::Found(candidates(wifi, sockets)[i]),
                None => best_guess(sockets, wifi),
            },
        ),
    decreases candidates(wifi, sockets).len() - next,
{
    reveal_with_fuel(first_yes, 2);
    if !world.replies[next] && next + 1 < candidates(wifi, sockets).len() {
        lemma_query_run(world, sockets, wifi, next + 1);
    }
}

/// A search always ends, and it ends with the interface that `search_outcome`
/// names.
pub proof fn law_search_finds_the_outcome(world: SearchWorld)
    ensures
        search_run(world, SearchModel::Sockets) == Some(search_outcome(world)),
{
    reveal_with_fuel(search_run, 5);
    let sockets = listed_sockets(world.sockets);
    let names = candidates(world.adapters(), sockets);
    if first_p2p(sockets) is None && world.probe.shows_daemon() && names.len() > 0 {
        lemma_query_run(world, sockets, world.adapters(), 0);
    }
}

/// Whatever a search finds is a P2P device interface; its name is never empty.
pub proof fn law_found_interface_is_p2p(world: SearchWorld)
    ensures
        search_outcome(world) matches SearchOutcomeView::Found(name) ==> is_p2p(name) && name.len()
            > 0,
{
    let sockets = listed_sockets(world.sockets);
    let wifi = world.adapters();
    let names = candidates(wifi, sockets);
    reveal_strlit("p2p-dev-");
    lemma_first_p2p(sockets);
    lemma_first_yes(world.replies, 0, names.len() as int);
    assert forall|parent: Seq<char>| is_p2p(#[trigger] p2p_name(parent)) by {
        assert(p2p_name(parent).subrange(0, "p2p-dev-"@.len() as int) =~= "p2p-dev-"@);
    }
}

/// A search fails exactly where there is neither a control socket nor a Wi-Fi
/// adapter, and then it has tried nothing. What the daemon answers never makes
/// it fail.
pub proof fn law_search_fails_only_without_names(world: SearchWorld)
    ensures
        search_outcome(world) is NotFound <==> listed_sockets(world.sockets).len() == 0
            && world.adapters().len() == 0,
        search_outcome(world) matches SearchOutcomeView::NotFound(tried) ==> tried.len() == 0,
{
    let sockets = listed_sockets(world.sockets);
    lemma_first_p2p(sockets);
    lemma_first_yes(world.replies, 0, candidates(world.adapters(), sockets).len() as int);
}

/// A daemon that refuses every name leaves the search where it would be without
/// the daemon.
pub proof fn law_refusals_are_not_fatal(world: SearchWorld)
    requires
        forall|i: int|
            0 <= i < candidates(world.adapters(), listed_sockets(world.sockets)).len()
                ==> !#[trigger] world.replies[i],
    ensures
        search_outcome(world) == search_outcome(
            (SearchWorld { probe: ProbeReply::NoConnection, ..world }),
        ),
{
    let count = candidates(world.adapters(), listed_sockets(world.sockets)).len() as int;
    lemma_first_yes(world.replies, 0, count);
}

proof fn lemma_first_yes(replies: Seq<bool>, from: int, end: int)
    ensures
        match first_yes(replies, from, end) {
            Some(i) => from <= i < end && replies[i],
            None => true,
        },
    decreases end - from,
{
    if from < end && !replies[from] {
        lemma_first_yes(replies, from + 1, end);
    }
}

/// Once no control socket is a P2P interface, no name derived from a Wi-Fi
/// adapter can be among the control sockets: only the daemon can confirm it.
pub proof fn law_derived_names_have_no_socket(sockets: Seq<Seq<char>>, parent: Seq<char>)
    requires
        first_p2p(sockets) is None,
    ensures
        !sockets.contains(p2p_name(parent)),
{
    lemma_first_p2p(sockets);
    assert(p2p_name(parent).subrange(0, "p2p-dev-"@.len() as int) =~= "p2p-dev-"@);
    assert(is_p2p(p2p_name(parent)));
}

/// A search asks nothing of the daemon where a control socket settles it.
pub proof fn law_p2p_socket_ends_the_search(listing: Option<Seq<Seq<char>>>)
    requires
        first_p2p(listed_sockets(listing)) is Some,
    ensures
        search_step(SearchModel::Sockets, SearchEventView::Sockets(listing)) == Some(
            finish_with(SearchOutcomeView::Found(first_p2p(listed_sockets(listing))->0)),
        ),
{
}

// ---------------------------------------------------------------------------
// What the search decides, name by name
// ---------------------------------------------------------------------------

/// A P2P interface is one whose name begins with the eight characters
/// `p2p-dev-`.
pub proof fn law_p2p_names_begin_so(name: Seq<char>)
    ensures
        is_p2p(name) <==> name.len() >= 8 && name.take(8) == seq![
            'p', '2', 'p', '-', 'd', 'e', 'v', '-',
        ],
{
    reveal_strlit("p2p-dev-");
    assert("p2p-dev-"@ =~= seq!['p', '2', 'p', '-', 'd', 'e', 'v', '-']);
    if name.len() >= 8 {
        assert(name.take(8) =~= name.subrange(0, 8));
    }
}

/// A derived name is a P2P name, and behind its eight characters stands the
/// whole name that it is derived from: no two interfaces derive the same name.
pub proof fn law_derived_name_keeps_the_parent(parent: Seq<char>, other: Seq<char>)
    ensures
        p2p_name(parent).len() == 8 + parent.len(),
        p2p_name(parent).take(8) == seq!['p', '2', 'p', '-', 'd', 'e', 'v', '-'],
        p2p_name(parent).skip(8) == parent,
        p2p_name(parent) == p2p_name(other) ==> parent == other,
{
    reveal_strlit("p2p-dev-");
    assert(p2p_name(parent).take(8) =~= seq!['p', '2', 'p', '-', 'd', 'e', 'v', '-']);
    assert(p2p_name(parent).skip(8) =~= parent);
    assert(p2p_name(other).skip(8) =~= other);
}

/// The daemon is asked for one name for each Wi-Fi adapter and then one for each
/// control socket: none is left out and none is added.
pub proof fn law_every_parent_is_a_candidate(wifi: Seq<Seq<char>>, sockets: Seq<Seq<char>>, i: int)
    ensures
        candidates(wifi, sockets).len() == wifi.len() + sockets.len(),
        0 <= i < wifi.len() ==> candidates(wifi, sockets)[i] == "p2p-dev-"@ + wifi[i],
        0 <= i < sockets.len() ==> candidates(wifi, sockets)[wifi.len() + i] == "p2p-dev-"@
            + sockets[i],
{
}

/// The daemon is taken to be there exactly where it answered, be it with a
/// method error.
pub proof fn law_answers_show_the_daemon(reply: ProbeReply, alive: bool)
    requires
        call_ensures(ProbeReply::is_alive, (&reply,), alive),
    ensures
        alive <==> !(reply is NoConnection) && !(reply is Failed),
{
}

/// The control sockets are those of the listing, and the adapters those of the
/// wireless table or, where that cannot be read, those of the network class. A
/// listing that cannot be read counts as empty.
pub proof fn law_names_come_from_the_listings(world: SearchWorld)
    ensures
        world.sockets matches Some(entries) ==> listed_sockets(world.sockets) == socket_interfaces(
            entries,
        ),
        world.sockets is None ==> listed_sockets(world.sockets).len() == 0,
        world.table matches Some(text) ==> world.adapters() == table_adapters(text),
        world.table is None && world.net_class is Some ==> world.adapters() == class_adapters(
            world.net_class->0,
        ),
        world.table is None && world.net_class is None ==> world.adapters().len() == 0,
{
}

/// The first control socket whose name begins with `p2p-dev-` is what the search
/// finds, whatever else there is.
pub proof fn law_first_p2p_socket_is_found(world: SearchWorld, i: int)
    requires
        0 <= i < listed_sockets(world.sockets).len(),
        is_p2p(listed_sockets(world.sockets)[i]),
        forall|j: int| 0 <= j < i ==> !is_p2p(#[trigger] listed_sockets(world.sockets)[j]),
    ensures
        search_outcome(world) == SearchOutcomeView::Found(listed_sockets(world.sockets)[i]),
{
    let sockets = listed_sockets(world.sockets);
    lemma_first_p2p(sockets);
    let k = choose|k: int|
        {
            &&& 0 <= k < sockets.len()
            &&& is_p2p(sockets[k])
            &&& first_p2p(sockets) == Some(#[trigger] sockets[k])
            &&& forall|j: int| 0 <= j < k ==> !is_p2p(#[trigger] sockets[j])
        };
    assert(first_p2p(sockets) is Some);
    assert(k == i);
}

/// Without a P2P socket, the first name that the daemon knows is what the search
/// finds: that of an adapter, or else that of a control socket.
pub proof fn law_first_known_name_is_found(world: SearchWorld, i: int)
    requires
        forall|j: int|
            0 <= j < listed_sockets(world.sockets).len() ==> !is_p2p(
                #[trigger] listed_sockets(world.sockets)[j],
            ),
        world.probe is Answered || world.probe is MethodError,
        0 <= i < world.adapters().len() + listed_sockets(world.sockets).len(),
        world.replies[i],
        forall|j: int| 0 <= j < i ==> !#[trigger] world.replies[j],
    ensures
        search_outcome(world) == SearchOutcomeView::Found(
            "p2p-dev-"@ + (world.adapters() + listed_sockets(world.sockets))[i],
        ),
{
    let sockets = listed_sockets(world.sockets);
    lemma_first_p2p(sockets);
    let names = candidates(world.adapters(), sockets);
    lemma_first_yes_is(world.replies, 0, names.len() as int, i);
}

proof fn lemma_first_yes_is(replies: Seq<bool>, from: int, end: int, i: int)
    requires
        from <= i < end,
        replies[i],
        forall|j: int| from <= j < i ==> !#[trigger] replies[j],
    ensures
        first_yes(replies, from, end) == Some(i),
    decreases i - from,
{
    if from < i {
        assert(!replies[from]);
        lemma_first_yes_is(replies, from + 1, end, i);
    }
}

/// Without a P2P socket and without a name that the daemon knows, the search
/// finds the name of the first control socket, or else that of the first
/// adapter; with neither, it finds none and has tried nothing.
pub proof fn law_unconfirmed_search_takes_the_first_parent(world: SearchWorld)
    requires
        forall|j: int|
            0 <= j < listed_sockets(world.sockets).len() ==> !is_p2p(
                #[trigger] listed_sockets(world.sockets)[j],
            ),
        world.probe is NoConnection || world.probe is Failed || forall|i: int|
            0 <= i < world.adapters().len() + listed_sockets(world.sockets).len()
                ==> !#[trigger] world.replies[i],
    ensures
        ({
            let sockets = listed_sockets(world.sockets);
            let wifi = world.adapters();
            &&& sockets.len() > 0 ==> search_outcome(world) == SearchOutcomeView::Found(
                "p2p-dev-"@ + sockets[0],
            )
            &&& sockets.len() == 0 && wifi.len() > 0 ==> search_outcome(world)
                == SearchOutcomeView::Found("p2p-dev-"@ + wifi[0])
            &&& sockets.len() == 0 && wifi.len() == 0 ==> search_outcome(world) is NotFound
                && search_outcome(world)->NotFound_0.len() == 0
        }),
{
    let sockets = listed_sockets(world.sockets);
    lemma_first_p2p(sockets);
    lemma_first_yes(world.replies, 0, candidates(world.adapters(), sockets).len() as int);
}

/// What a search asks is what it then waits for. A question to the daemon is
/// about the next of the parents, and a yes to it finds the very name that was
/// asked for.
pub proof fn law_search_waits_for_what_it_asks(model: SearchModel, event: SearchEventView)
    requires
        search_step(model, event) is Some,
    ensures
        ({
            let (next, action) = search_step(model, event)->0;
            match next {
                SearchModel::Sockets => false,
                SearchModel::WirelessTable { .. } => action is ReadWirelessTable,
                SearchModel::NetClass { .. } => action is ListNetClass,
                SearchModel::Daemon { .. } => action is ProbeDaemon,
                SearchModel::Query { sockets, wifi, next: i } => {
                    &&& action == SearchActionView::QueryInterface(
                        "p2p-dev-"@ + (wifi + sockets)[i],
                    ) || !(0 <= i < wifi.len() + sockets.len())
                    &&& action is QueryInterface
                    &&& search_step(next, SearchEventView::InterfaceReply(true)) == Some(
                        (
                            SearchModel::Over,
                            SearchActionView::Finish(
                                SearchOutcomeView::Found(action->QueryInterface_0),
                            ),
                        ),
                    )
                },
                SearchModel::Over => action is Finish,
            }
        }),
{
}

/// A search takes in only the answer that it waits for, and takes that in
/// always.
pub proof fn law_search_takes_in_what_it_waits_for(model: SearchModel, event: SearchEventView)
    ensures
        search_step(model, event) is Some <==> match model {
            SearchModel::Sockets => event is Sockets,
            SearchModel::WirelessTable { .. } => event is WirelessTable,
            SearchModel::NetClass { .. } => event is NetClass,
            SearchModel::Daemon { .. } => event is DaemonProbe,
            SearchModel::Query { .. } => event is InterfaceReply,
            SearchModel::Over => false,
        },
{
}

/// What is seen of an answer is what it holds.
pub proof fn law_search_answers_are_seen_as_they_are(event: SearchEvent)
    ensures
        match event {
            SearchEvent::Sockets(listing) => event@ is Sockets && match listing {
                Some(entries) => event@->Sockets_0 == Some(views(entries@)),
                None => event@->Sockets_0 is None,
            },
            SearchEvent::WirelessTable(content) => event@ is WirelessTable && match content {
                Some(text) => event@->WirelessTable_0 == Some(text@),
                None => event@->WirelessTable_0 is None,
            },
            SearchEvent::NetClass(listing) => event@ is NetClass && match listing {
                Some(entries) => event@->NetClass_0 == Some(views(entries@)),
                None => event@->NetClass_0 is None,
            },
            SearchEvent::DaemonProbe(reply) => event@ == SearchEventView::DaemonProbe(reply),
            SearchEvent::InterfaceReply(known) => event@ == SearchEventView::InterfaceReply(known),
        },
{
}

/// What is seen of a question is what it holds, and so with an outcome.
pub proof fn law_search_questions_are_seen_as_they_are(
    action: SearchAction,
    outcome: SearchOutcome,
)
    ensures
        match action {
            SearchAction::ListSockets => action@ is ListSockets,
            SearchAction::ReadWirelessTable => action@ is ReadWirelessTable,
            SearchAction::ListNetClass => action@ is ListNetClass,
            SearchAction::ProbeDaemon => action@ is ProbeDaemon,
            SearchAction::QueryInterface(name) => action@ == SearchActionView::QueryInterface(
                name@,
            ),
            SearchAction::Finish(end) => action@ == SearchActionView::Finish(end@),
        },
        match outcome {
            SearchOutcome::Found(name) => outcome@ == SearchOutcomeView::Found(name@),
            SearchOutcome::NotFound(tried) => outcome@ == SearchOutcomeView::NotFound(
                views(tried@),
            ),
        },
{
}

/// An interface that was found is the result, under the very name; one that was
/// not is the error, with the names that were tried.
pub proof fn law_outcome_is_the_result(outcome: SearchOutcome, result: NetResult<String>)
    requires
        call_ensures(SearchOutcome::into_result, (outcome,), result),
    ensures
        match outcome {
            SearchOutcome::Found(name) => result is Ok && result->Ok_0@ == name@,
            SearchOutcome::NotFound(tried) => result matches Err(error) && error@ matches
                NetErrorView::NoP2pInterface { tried: said } && said == views(tried@),
        },
{
}

/// A search that is begun looks at the control sockets first, and ends with the
/// interface that `search_outcome` names.
pub proof fn law_begun_search_finds_the_outcome(
    begun: (InterfaceSearch, SearchAction),
    world: SearchWorld,
)
    requires
        call_ensures(InterfaceSearch::begin, (), begun),
    ensures
        begun.1 is ListSockets,
        search_run(world, begun.0@) == Some(search_outcome(world)),
{
    law_search_finds_the_outcome(world);
}

} // verus!
