use vstd::prelude::*;
use vstd::string::*;

verus! {

/// Where the daemon's geo-IP lookup places the current exit.
#[derive(Clone, Debug, PartialEq, Eq)]
pub struct GeoLocation {
    pub country: String,
    pub city: Option<String>,
    pub hostname: Option<String>,
}

/// Descriptive data about the relay in use; for display only.
#[derive(Clone, Debug, PartialEq, Eq)]
pub struct RelayInfo {
    pub location: Option<GeoLocation>,
}

/// The cause that the daemon attaches to an error state.
#[derive(Clone, Debug, PartialEq, Eq)]
pub struct ErrorDetail {
    pub cause: String,
}

/// The payload of a tunnel-state notification, as the daemon sends it.
#[derive(Clone, Debug, PartialEq, Eq)]
pub enum TunnelStateKind {
    Connecting { relay_info: Option<RelayInfo> },
    Connected { relay_info: Option<RelayInfo> },
    Disconnecting,
    Disconnected,
    Error { error_state: Option<ErrorDetail> },
}

/// A tunnel-state notification; the payload may be missing.
#[derive(Clone, Debug, PartialEq, Eq)]
pub struct TunnelState {
    pub state: Option<TunnelStateKind>,
}

/// The connection state that the tray shows. Exactly one variant holds.
#[derive(Clone, Debug, PartialEq, Eq)]
pub enum ConnectionStatus {
    Inactive,
    Connecting(Option<RelayInfo>),
    Connected(Option<RelayInfo>),
    Disconnecting,
    Disconnected,
    Error(Option<ErrorDetail>),
}

/// The status that a notification stands for.
pub open spec fn status_of(raw: TunnelState) -> ConnectionStatus {
    match raw.state {
        None => ConnectionStatus::Inactive,
        Some(TunnelStateKind::Connecting { relay_info }) => ConnectionStatus::Connecting(relay_info),
        Some(TunnelStateKind::Connected { relay_info }) => ConnectionStatus::Connected(relay_info),
        Some(TunnelStateKind::Disconnecting) => ConnectionStatus::Disconnecting,
        Some(TunnelStateKind::Disconnected) => ConnectionStatus::Disconnected,
        Some(TunnelStateKind::Error { error_state }) => ConnectionStatus::Error(error_state),
    }
}

/// Maps a notification to the status it stands for. Never fails.
pub fn project(raw: TunnelState) -> (s: ConnectionStatus)
    ensures
        s == status_of(raw),
{
    match raw.state {
        None => ConnectionStatus::Inactive,
        Some(TunnelStateKind::Connecting { relay_info }) => ConnectionStatus::Connecting(relay_info),
        Some(TunnelStateKind::Connected { relay_info }) => ConnectionStatus::Connected(relay_info),
        Some(TunnelStateKind::Disconnecting) => ConnectionStatus::Disconnecting,
        Some(TunnelStateKind::Disconnected) => ConnectionStatus::Disconnected,
        Some(TunnelStateKind::Error { error_state }) => ConnectionStatus::Error(error_state),
    }
}

impl From<TunnelState> for ConnectionStatus {
    fn from(raw: TunnelState) -> (s: ConnectionStatus) {
        project(raw)
    }
}

impl vstd::std_specs::convert::FromSpecImpl<TunnelState> for ConnectionStatus {
    open spec fn obeys_from_spec() -> bool {
        true
    }

    open spec fn from_spec(raw: TunnelState) -> ConnectionStatus {
        status_of(raw)
    }
}

/// Projection is a function of the notification alone: equal notifications,
/// projected at any time and any number of times, give equal statuses.
pub proof fn lemma_project_deterministic(a: TunnelState, b: TunnelState)
    requires
        a == b,
    ensures
        status_of(a) == status_of(b),
        a.state is None ==> status_of(a) is Inactive,
{
}

/// The hostname that the relay data names, if any.
pub open spec fn relay_hostname(info: Option<RelayInfo>) -> Option<Seq<char>> {
    match info {
        Some(RelayInfo { location: Some(GeoLocation { hostname: Some(h), .. }) }) => Some(h@),
        _ => None,
    }
}

/// The text that follows the application prefix in the tray title.
pub open spec fn phrase_of(s: ConnectionStatus) -> Seq<char> {
    match s {
        ConnectionStatus::Inactive => "inactive"@,
        ConnectionStatus::Connected(info) => match relay_hostname(info) {
            Some(h) => "connected to "@ + h,
            None => "connected to an unknown server"@,
        },
        ConnectionStatus::Connecting(info) => match relay_hostname(info) {
            Some(h) => "connecting to "@ + h + ".."@,
            None => "connecting.."@,
        },
        ConnectionStatus::Disconnecting => "disconnecting.."@,
        ConnectionStatus::Disconnected => "disconnected"@,
        ConnectionStatus::Error(detail) => match detail {
            Some(d) => "error "@ + d.cause@,
            None => "error"@,
        },
    }
}

/// The full tray title of a status.
pub open spec fn title_of(s: ConnectionStatus) -> Seq<char> {
    "mulltray - "@ + phrase_of(s)
}

/// The symbolic icon of a status.
pub open spec fn icon_of(s: ConnectionStatus) -> Seq<char> {
    match s {
        ConnectionStatus::Inactive => "network-vpn-offline-symbolic"@,
        ConnectionStatus::Error(_) => "network-vpn-error-symbolic"@,
        ConnectionStatus::Connecting(_) => "network-vpn-acquiring-symbolic"@,
        ConnectionStatus::Disconnecting => "network-vpn-acquiring-symbolic"@,
        ConnectionStatus::Disconnected => "network-vpn-disconnected-symbolic"@,
        ConnectionStatus::Connected(_) => "network-vpn-symbolic"@,
    }
}

/// The variant of a status, with the two transitional ones counted as one.
pub open spec fn icon_class(s: ConnectionStatus) -> int {
    match s {
        ConnectionStatus::Inactive => 0,
        ConnectionStatus::Error(_) => 1,
        ConnectionStatus::Connecting(_) => 2,
        ConnectionStatus::Disconnecting => 2,
        ConnectionStatus::Disconnected => 3,
        ConnectionStatus::Connected(_) => 4,
    }
}

/// Whether the "Connect" action is offered.
pub open spec fn connect_enabled(s: ConnectionStatus) -> bool {
    s is Disconnected
}

/// Whether the "Disconnect" action is offered.
pub open spec fn disconnect_enabled(s: ConnectionStatus) -> bool {
    s is Connected || s is Connecting
}

impl ConnectionStatus {
    /// The text that follows the application prefix in the tray title.
    pub fn phrase(&self) -> (r: String)
        ensures
            r@ == phrase_of(*self),
    {
        match self {
            ConnectionStatus::Inactive => String::from_str("inactive"),
            ConnectionStatus::Connected(info) => {
                match hostname(info) {
                    Some(h) => {
                        let mut r = String::from_str("connected to ");
                        r.append(h.as_str());
                        r
                    },
                    None => String::from_str("connected to an unknown server"),
                }
            },
            ConnectionStatus::Connecting(info) => {
                match hostname(info) {
                    Some(h) => {
                        let mut r = String::from_str("connecting to ");
                        r.append(h.as_str());
                        r.append("..");
                        r
                    },
                    None => String::from_str("connecting.."),
                }
            },
            ConnectionStatus::Disconnecting => String::from_str("disconnecting.."),
            ConnectionStatus::Disconnected => String::from_str("disconnected"),
            ConnectionStatus::Error(detail) => {
                match detail {
                    Some(d) => {
                        let mut r = String::from_str("error ");
                        r.append(d.cause.as_str());
                        r
                    },
                    None => String::from_str("error"),
                }
            },
        }
    }

    /// The full tray title.
    pub fn title(&self) -> (r: String)
        ensures
            r@ == title_of(*self),
    {
        let mut r = String::from_str("mulltray - ");
        let p = self.phrase();
        r.append(p.as_str());
        r
    }

    /// The symbolic icon name.
    pub fn icon_name(&self) -> (r: String)
        ensures
            r@ == icon_of(*self),
    {
        match self {
            ConnectionStatus::Inactive => String::from_str("network-vpn-offline-symbolic"),
            ConnectionStatus::Error(_) => String::from_str("network-vpn-error-symbolic"),
            ConnectionStatus::Connecting(_) => String::from_str("network-vpn-acquiring-symbolic"),
            ConnectionStatus::Disconnecting => String::from_str("network-vpn-acquiring-symbolic"),
            ConnectionStatus::Disconnected => String::from_str(
                "network-vpn-disconnected-symbolic",
            ),
            ConnectionStatus::Connected(_) => String::from_str("network-vpn-symbolic"),
        }
    }

    /// Whether the "Connect" action is offered.
    pub fn can_connect(&self) -> (r: bool)
        ensures
            r == connect_enabled(*self),
    {
        matches!(self, ConnectionStatus::Disconnected)
    }

    /// Whether the "Disconnect" action is offered.
    pub fn can_disconnect(&self) -> (r: bool)
        ensures
            r == disconnect_enabled(*self),
    {
        matches!(self, ConnectionStatus::Connected(_) | ConnectionStatus::Connecting(_))
    }
}

/// The hostname in the relay data, if any.
fn hostname(info: &Option<RelayInfo>) -> (r: Option<&String>)
    ensures
        match r {
            Some(h) => relay_hostname(*info) == Some(h@),
            None => relay_hostname(*info) is None,
        },
{
    match info {
        Some(RelayInfo { location: Some(GeoLocation { hostname: Some(h), .. }) }) => Some(h),
        _ => None,
    }
}


/// Each status shows one of the fixed icons, and two statuses share an icon
/// exactly when they are of the same variant, the two transitional variants
/// (connecting and disconnecting) counting as one.
pub proof fn lemma_icon_per_variant(a: ConnectionStatus, b: ConnectionStatus)
    ensures
        icon_of(a) == icon_of(b) <==> icon_class(a) == icon_class(b),
        0 <= icon_class(a) < 5,
{
    reveal_strlit("network-vpn-offline-symbolic");
    reveal_strlit("network-vpn-error-symbolic");
    reveal_strlit("network-vpn-acquiring-symbolic");
    reveal_strlit("network-vpn-disconnected-symbolic");
    reveal_strlit("network-vpn-symbolic");
    if icon_class(a) != icon_class(b) {
        assert(icon_of(a).len() != icon_of(b).len());
    }
}

/// "Connect" and "Disconnect" are never offered together; exactly one is
/// offered unless the status is disconnecting, an error or inactive, in which
/// case neither is.
pub proof fn lemma_enablement(s: ConnectionStatus)
    ensures
        !(connect_enabled(s) && disconnect_enabled(s)),
        (connect_enabled(s) || disconnect_enabled(s)) <==> !(s is Disconnecting || s is Error
            || s is Inactive),
{
}

/// A title never belongs to two statuses with different icons: whoever reads
/// a title together with the icon of the same status sees them agree.
pub proof fn lemma_title_determines_icon(a: ConnectionStatus, b: ConnectionStatus)
    requires
        title_of(a) == title_of(b),
    ensures
        icon_of(a) == icon_of(b),
{
    reveal_strlit("mulltray - ");
    let ta = title_of(a);
    assert(phrase_of(a) =~= ta.subrange(11, ta.len() as int));
    assert(phrase_of(b) =~= ta.subrange(11, ta.len() as int));
    lemma_phrase_class(a);
    lemma_phrase_class(b);
    lemma_icon_per_variant(a, b);
}

/// The first letters of a phrase tell its icon class apart.
proof fn lemma_phrase_class(s: ConnectionStatus)
    ensures
        phrase_of(s).len() >= 5,
        phrase_of(s)[0] == 'c' ==> phrase_of(s).len() > 7,
        phrase_of(s)[0] == 'd' ==> phrase_of(s).len() > 10,
        phrase_of(s)[0] == 'i' <==> icon_class(s) == 0,
        phrase_of(s)[0] == 'e' <==> icon_class(s) == 1,
        icon_class(s) == 2 <==> (phrase_of(s)[0] == 'c' && phrase_of(s)[7] == 'i') || (
        phrase_of(s)[0] == 'd' && phrase_of(s)[10] == 'i'),
        icon_class(s) == 3 <==> phrase_of(s)[0] == 'd' && phrase_of(s)[10] == 'e',
        icon_class(s) == 4 <==> phrase_of(s)[0] == 'c' && phrase_of(s)[7] == 'e',
{
    reveal_strlit("inactive");
    reveal_strlit("connected to ");
    reveal_strlit("connected to an unknown server");
    reveal_strlit("connecting to ");
    reveal_strlit("..");
    reveal_strlit("connecting..");
    reveal_strlit("disconnecting..");
    reveal_strlit("disconnected");
    reveal_strlit("error ");
    reveal_strlit("error");
}

} // verus!
