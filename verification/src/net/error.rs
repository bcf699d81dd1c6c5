//! What can go wrong while devices are searched.

use crate::text::views;
use vstd::prelude::*;
use vstd::string::*;

verus! {

/// `zbus::Error`, the error of every D-Bus call. It is carried as it came and
/// never looked into.
#[verifier::external_type_specification]
#[verifier::external_body]
pub struct ExZbusError(zbus::Error);

/// Why a search for devices failed.
#[derive(Debug)]
pub enum NetError {
    /// A D-Bus call failed.
    DbusConnection(zbus::Error),
    /// `wpa_supplicant` is not running, or the system bus cannot be reached.
    WpaNotRunning,
    /// No P2P interface was found; the names that were tried.
    NoP2pInterface { tried: Vec<String> },
    /// Nobody receives the events any more.
    ChannelClosed,
    /// Anything else.
    Internal(String),
}

/// The result of a search for devices.
pub type NetResult<T> = Result<T, NetError>;

/// What a [`NetError`] holds, with its texts as plain values.
pub enum NetErrorView {
    DbusConnection(zbus::Error),
    WpaNotRunning,
    NoP2pInterface { tried: Seq<Seq<char>> },
    ChannelClosed,
    Internal(Seq<char>),
}

impl View for NetError {
    type V = NetErrorView;

    open spec fn view(&self) -> NetErrorView {
        match self {
            NetError::DbusConnection(cause) => NetErrorView::DbusConnection(*cause),
            NetError::WpaNotRunning => NetErrorView::WpaNotRunning,
            NetError::NoP2pInterface { tried } => NetErrorView::NoP2pInterface {
                tried: views(tried@),
            },
            NetError::ChannelClosed => NetErrorView::ChannelClosed,
            NetError::Internal(text) => NetErrorView::Internal(text@),
        }
    }
}

impl From<zbus::Error> for NetError {
    fn from(cause: zbus::Error) -> (r: NetError) {
        NetError::DbusConnection(cause)
    }
}

impl vstd::std_specs::convert::FromSpecImpl<zbus::Error> for NetError {
    open spec fn obeys_from_spec() -> bool {
        true
    }

    open spec fn from_spec(cause: zbus::Error) -> NetError {
        NetError::DbusConnection(cause)
    }
}

/// The text that `{:?}` gives of a list of strings.
pub uninterp spec fn debug_list(items: Seq<Seq<char>>) -> Seq<char>;

/// Writes a list of strings with `std`'s `Debug` for `Vec<String>`.
///
/// Claimed of it: the text depends on the strings of the list alone. How it
/// quotes and escapes them is left unsaid.
#[verifier::external_body]
fn debug_of_list(items: &Vec<String>) -> (r: String)
    ensures
        r@ == debug_list(views(items@)),
{
    format!("{:?}", items)
}

/// What is said of a failed D-Bus call, given what is said of its cause.
pub open spec fn dbus_failure(cause: Seq<char>) -> Seq<char> {
    "D-Bus connection failed: "@ + cause
}

/// What is said when no interface was found, given the list of what was tried.
pub open spec fn no_interface(list: Seq<char>) -> Seq<char> {
    "Nenhuma interface P2P encontrada (tentadas: "@ + list + ")"@
}

/// Says that a D-Bus call failed.
pub fn dbus_failure_text(cause: &str) -> (r: String)
    ensures
        r@ == dbus_failure(cause@),
{
    "D-Bus connection failed: ".to_owned().concat(cause)
}

/// Says that no interface was found.
pub fn no_interface_text(list: &str) -> (r: String)
    ensures
        r@ == no_interface(list@),
{
    "Nenhuma interface P2P encontrada (tentadas: ".to_owned().concat(list).concat(")")
}

impl NetError {
    /// Whether `text` is what is said of the error. What is said of a failed
    /// D-Bus call holds what its cause says of itself, which need not be the same
    /// every time: for a failed system call it is the platform's own description.
    pub open spec fn said_as(self, text: Seq<char>) -> bool {
        match self {
            NetError::DbusConnection(cause) => exists|said: String|
                #[trigger] to_string_from_display_ensures::<zbus::Error>(&cause, said) && text
                    == dbus_failure(said@),
            NetError::WpaNotRunning => text
                == "wpa_supplicant não está rodando ou inacessível no system D-Bus"@,
            NetError::NoP2pInterface { tried } => text == no_interface(debug_list(views(tried@))),
            NetError::ChannelClosed => text == "Canal fechado pelo consumidor"@,
            NetError::Internal(cause) => text == "Erro interno: "@ + cause@,
        }
    }

    /// What is said of the error. After the heading of a failed D-Bus call
    /// stands the text of its cause.
    pub fn to_string(&self) -> (r: String)
        ensures
            self.said_as(r@),
    {
        match self {
            NetError::DbusConnection(cause) => {
                let said: String = cause.to_string();
                dbus_failure_text(said.as_str())
            },
            NetError::WpaNotRunning => {
                "wpa_supplicant não está rodando ou inacessível no system D-Bus".to_owned()
            },
            NetError::NoP2pInterface { tried } => {
                let list: String = debug_of_list(tried);
                no_interface_text(list.as_str())
            },
            NetError::ChannelClosed => "Canal fechado pelo consumidor".to_owned(),
            NetError::Internal(cause) => "Erro interno: ".to_owned().concat(cause.as_str()),
        }
    }
}

/// What is said of an error begins with its heading, goes on with the whole of
/// its cause, and holds nothing else.
pub proof fn law_net_error_says_its_cause(error: NetError, text: String)
    requires
        call_ensures(NetError::to_string, (&error,), text),
    ensures
        match error {
            NetError::DbusConnection(cause) => exists|said: String|
                {
                    &&& #[trigger] to_string_from_display_ensures::<zbus::Error>(&cause, said)
                    &&& "D-Bus connection failed: "@.is_prefix_of(text@)
                    &&& text@.skip("D-Bus connection failed: "@.len() as int) == said@
                },
            NetError::WpaNotRunning => text@
                == "wpa_supplicant não está rodando ou inacessível no system D-Bus"@,
            NetError::NoP2pInterface { tried } => {
                let heading = "Nenhuma interface P2P encontrada (tentadas: "@;
                &&& heading.is_prefix_of(text@)
                &&& text@.skip(heading.len() as int) == debug_list(views(tried@)) + ")"@
            },
            NetError::ChannelClosed => text@ == "Canal fechado pelo consumidor"@,
            NetError::Internal(cause) => "Erro interno: "@.is_prefix_of(text@) && text@.skip(
                "Erro interno: "@.len() as int,
            ) == cause@,
        },
{
    match error {
        NetError::DbusConnection(cause) => {
            let said = choose|said: String|
                #[trigger] to_string_from_display_ensures::<zbus::Error>(&cause, said) && text@
                    == dbus_failure(said@);
            let heading = "D-Bus connection failed: "@;
            assert(to_string_from_display_ensures::<zbus::Error>(&cause, said));
            assert(text@.subrange(0, heading.len() as int) =~= heading);
            assert(text@.skip(heading.len() as int) =~= said@);
        },
        NetError::NoP2pInterface { tried } => {
            let heading = "Nenhuma interface P2P encontrada (tentadas: "@;
            assert(text@.subrange(0, heading.len() as int) =~= heading);
            assert(text@.skip(heading.len() as int) =~= debug_list(views(tried@)) + ")"@);
        },
        NetError::Internal(cause) => {
            let heading = "Erro interno: "@;
            assert(text@.subrange(0, heading.len() as int) =~= heading);
            assert(text@.skip(heading.len() as int) =~= cause@);
        },
        _ => {},
    }
}

/// The headings say what they say of any text.
pub proof fn law_net_headings_keep_the_text(
    cause: &str,
    failure: String,
    list: &str,
    none: String,
)
    requires
        call_ensures(dbus_failure_text, (cause,), failure),
        call_ensures(no_interface_text, (list,), none),
    ensures
        failure@ == "D-Bus connection failed: "@ + cause@,
        none@ == "Nenhuma interface P2P encontrada (tentadas: "@ + list@ + ")"@,
{
}

/// What is seen of an error is what it holds.
pub proof fn law_net_errors_are_seen_as_they_are(error: NetError)
    ensures
        match error {
            NetError::DbusConnection(cause) => error@ == NetErrorView::DbusConnection(cause),
            NetError::WpaNotRunning => error@ is WpaNotRunning,
            NetError::NoP2pInterface { tried } => error@ matches NetErrorView::NoP2pInterface {
                tried: seen,
            } && seen == views(tried@),
            NetError::ChannelClosed => error@ is ChannelClosed,
            NetError::Internal(text) => error@ == NetErrorView::Internal(text@),
        },
{
}

/// A failed D-Bus call becomes the error that holds it, as it came.
pub proof fn law_dbus_failures_are_kept(cause: zbus::Error, error: NetError)
    requires
        call_ensures(<NetError as From<zbus::Error>>::from, (cause,), error),
    ensures
        error == NetError::DbusConnection(cause),
{
}

} // verus!
