use vstd::prelude::*;
use vstd::string::*;

use crate::catalog::{
    names, names_sorted, sort_regions, sorts_regions, EndpointKind, Relay, RelayList,
    RelayListCity, RelayListCountry,
};
use crate::status::{
    connect_enabled, disconnect_enabled, icon_of, title_of, ConnectionStatus,
};

verus! {

/// A location to move to: a region, and optionally a city and a host in it.
#[derive(Clone, Debug, PartialEq, Eq)]
pub struct GeographicLocationConstraint {
    pub country: String,
    pub city: Option<String>,
    pub hostname: Option<String>,
}

/// A constraint on where the daemon may connect.
#[derive(Clone, Debug, PartialEq, Eq)]
pub enum LocationConstraint {
    Location(GeographicLocationConstraint),
    CustomList(String),
}

impl From<GeographicLocationConstraint> for LocationConstraint {
    fn from(geo: GeographicLocationConstraint) -> (r: LocationConstraint) {
        LocationConstraint::Location(geo)
    }
}

impl vstd::std_specs::convert::FromSpecImpl<GeographicLocationConstraint> for LocationConstraint {
    open spec fn obeys_from_spec() -> bool {
        true
    }

    open spec fn from_spec(geo: GeographicLocationConstraint) -> LocationConstraint {
        LocationConstraint::Location(geo)
    }
}

/// A command that a menu action hands to the daemon.
#[derive(Clone, Debug, PartialEq, Eq)]
pub enum Command {
    Connect,
    Disconnect,
    SetLocation(GeographicLocationConstraint),
}

/// The settings of a relay selection that follows constraints.
#[derive(Clone, Debug, PartialEq, Eq)]
pub struct NormalRelaySettings {
    pub location: Option<LocationConstraint>,
}

/// How the daemon picks its relay.
#[derive(Clone, Debug, PartialEq, Eq)]
pub enum RelayEndpoint {
    Normal(NormalRelaySettings),
    Custom,
}

/// The relay part of the daemon's settings.
#[derive(Clone, Debug, PartialEq, Eq)]
pub struct RelaySettings {
    pub endpoint: Option<RelayEndpoint>,
}

/// Why a location cannot be set.
#[derive(Clone, Copy, Debug, PartialEq, Eq)]
pub enum RelocateError {
    /// The daemon's settings hold no relay settings at all.
    MissingRelaySettings,
    /// The relay settings are not constraint-based.
    UnsupportedEndpoint,
}

/// The relay settings after a move to `target`.
pub open spec fn relocated(settings: Option<RelaySettings>, target: GeographicLocationConstraint) -> Result<
    RelaySettings,
    RelocateError,
> {
    match settings {
        None => Err(RelocateError::MissingRelaySettings),
        Some(RelaySettings { endpoint: Some(RelayEndpoint::Normal(_)) }) => Ok(
            RelaySettings {
                endpoint: Some(
                    RelayEndpoint::Normal(
                        NormalRelaySettings {
                            location: Some(LocationConstraint::Location(target)),
                        },
                    ),
                ),
            },
        ),
        Some(_) => Err(RelocateError::UnsupportedEndpoint),
    }
}

/// Replaces the location constraint of constraint-based relay settings.
pub fn relocate(settings: Option<RelaySettings>, target: GeographicLocationConstraint) -> (r: Result<
    RelaySettings,
    RelocateError,
>)
    ensures
        r == relocated(settings, target),
{
    match settings {
        None => Err(RelocateError::MissingRelaySettings),
        Some(RelaySettings { endpoint: Some(RelayEndpoint::Normal(mut norm)) }) => {
            norm.location = Some(LocationConstraint::from(target));
            Ok(RelaySettings { endpoint: Some(RelayEndpoint::Normal(norm)) })
        },
        Some(_) => Err(RelocateError::UnsupportedEndpoint),
    }
}

/// A host entry of the location menu.
#[derive(Clone, Debug, PartialEq, Eq)]
pub struct HostItem {
    pub label: String,
    pub command: Command,
}

/// The submenu of one region.
#[derive(Clone, Debug, PartialEq, Eq)]
pub struct RegionMenu {
    pub label: String,
    pub hosts: Vec<HostItem>,
}

/// A plain menu action.
#[derive(Clone, Debug, PartialEq, Eq)]
pub struct ActionItem {
    pub label: String,
    pub enabled: bool,
    pub command: Command,
}

/// The tray menu: the location submenu, then "Connect", then "Disconnect".
#[derive(Clone, Debug, PartialEq, Eq)]
pub struct TrayMenu {
    pub locations_label: String,
    pub locations: Vec<RegionMenu>,
    pub connect: ActionItem,
    pub disconnect: ActionItem,
}

/// The view of an optional string.
pub open spec fn opt_view(o: Option<String>) -> Option<Seq<char>> {
    match o {
        Some(s) => Some(s@),
        None => None,
    }
}

/// The (city code, hostname) pairs of the relays that serve the supported
/// protocol, in list order.
pub open spec fn relay_entries(city: Seq<char>, relays: Seq<Relay>) -> Seq<(Seq<char>, Seq<char>)>
    decreases relays.len(),
{
    if relays.len() == 0 {
        seq![]
    } else {
        let prev = relay_entries(city, relays.drop_last());
        if relays.last().endpoint_type is Wireguard {
            prev.push((city, relays.last().hostname@))
        } else {
            prev
        }
    }
}

/// The host entries of a region's cities, city after city.
pub open spec fn city_entries(cities: Seq<RelayListCity>) -> Seq<(Seq<char>, Seq<char>)>
    decreases cities.len(),
{
    if cities.len() == 0 {
        seq![]
    } else {
        city_entries(cities.drop_last()) + relay_entries(cities.last().code@, cities.last().relays@)
    }
}

/// `cmd` moves to the given region, city and host.
pub open spec fn is_set_location(cmd: Command, country: Seq<char>, city: Seq<char>, host: Seq<char>) -> bool {
    match cmd {
        Command::SetLocation(g) => g.country@ == country && opt_view(g.city) == Some(city)
            && opt_view(g.hostname) == Some(host),
        _ => false,
    }
}

/// `item` shows host `e.1` of city `e.0` in region `country`, and moves there.
pub open spec fn host_item_is(item: HostItem, country: Seq<char>, e: (Seq<char>, Seq<char>)) -> bool {
    item.label@ == e.1 && is_set_location(item.command, country, e.0, e.1)
}

/// `m` is the submenu of region `c`.
pub open spec fn region_menu_is(m: RegionMenu, c: RelayListCountry) -> bool {
    let es = city_entries(c.cities@);
    &&& m.label@ == c.name@
    &&& m.hosts@.len() == es.len()
    &&& forall|k: int| 0 <= k < es.len() ==> #[trigger] host_item_is(m.hosts@[k], c.code@, es[k])
}

/// `m` is the tray menu for status `s` over the regions `regions`.
pub open spec fn menu_is(m: TrayMenu, s: ConnectionStatus, regions: Seq<RelayListCountry>) -> bool {
    &&& m.locations_label@ == "Choose location"@
    &&& m.locations@.len() == regions.len()
    &&& forall|i: int| 0 <= i < regions.len() ==> #[trigger] region_menu_is(m.locations@[i], regions[i])
    &&& m.connect.label@ == "Connect"@
    &&& m.connect.enabled == connect_enabled(s)
    &&& m.connect.command is Connect
    &&& m.disconnect.label@ == "Disconnect"@
    &&& m.disconnect.enabled == disconnect_enabled(s)
    &&& m.disconnect.command is Disconnect
}

/// Builds the submenu of one region: one entry per relay of the supported
/// protocol, across its cities.
pub fn region_menu(c: &RelayListCountry) -> (m: RegionMenu)
    ensures
        region_menu_is(m, *c),
{
    let mut hosts: Vec<HostItem> = Vec::new();
    let mut i: usize = 0;
    while i < c.cities.len()
        invariant
            i <= c.cities@.len(),
            hosts@.len() == city_entries(c.cities@.subrange(0, i as int)).len(),
            forall|k: int|
                0 <= k < hosts@.len() ==> #[trigger] host_item_is(
                    hosts@[k],
                    c.code@,
                    city_entries(c.cities@.subrange(0, i as int))[k],
                ),
        decreases c.cities@.len() - i,
    {
        let city = &c.cities[i];
        let ghost done = city_entries(c.cities@.subrange(0, i as int));
        let mut j: usize = 0;
        while j < city.relays.len()
            invariant
                i < c.cities@.len(),
                *city == c.cities@[i as int],
                j <= city.relays@.len(),
                done == city_entries(c.cities@.subrange(0, i as int)),
                hosts@.len() == done.len() + relay_entries(
                    city.code@,
                    city.relays@.subrange(0, j as int),
                ).len(),
                forall|k: int|
                    0 <= k < hosts@.len() ==> #[trigger] host_item_is(
                        hosts@[k],
                        c.code@,
                        (done + relay_entries(city.code@, city.relays@.subrange(0, j as int)))[k],
                    ),
            decreases city.relays@.len() - j,
        {
            let relay = &city.relays[j];
            let ghost prev = relay_entries(city.code@, city.relays@.subrange(0, j as int));
            assert(city.relays@.subrange(0, j + 1).drop_last() =~= city.relays@.subrange(
                0,
                j as int,
            ));
            if matches!(relay.endpoint_type, EndpointKind::Wireguard) {
                let target = GeographicLocationConstraint {
                    country: c.code.clone(),
                    city: Some(city.code.clone()),
                    hostname: Some(relay.hostname.clone()),
                };
                let item = HostItem { label: relay.hostname.clone(), command: Command::SetLocation(target) };
                let ghost e = (city.code@, relay.hostname@);
                hosts.push(item);
                assert(done + prev.push(e) =~= (done + prev).push(e));
            }
            j = j + 1;
        }
        assert(city.relays@.subrange(0, j as int) =~= city.relays@);
        assert(c.cities@.subrange(0, i + 1).drop_last() =~= c.cities@.subrange(0, i as int));
        i = i + 1;
    }
    assert(c.cities@.subrange(0, i as int) =~= c.cities@);
    RegionMenu { label: c.name.clone(), hosts }
}

/// Builds the tray menu for a status over a list of regions.
pub fn build_menu(status: &ConnectionStatus, regions: &Vec<RelayListCountry>) -> (m: TrayMenu)
    ensures
        menu_is(m, *status, regions@),
{
    let mut locations: Vec<RegionMenu> = Vec::new();
    let mut i: usize = 0;
    while i < regions.len()
        invariant
            i <= regions@.len(),
            locations@.len() == i,
            forall|k: int| 0 <= k < i ==> #[trigger] region_menu_is(locations@[k], regions@[k]),
        decreases regions@.len() - i,
    {
        let r = region_menu(&regions[i]);
        locations.push(r);
        i = i + 1;
    }
    TrayMenu {
        locations_label: String::from_str("Choose location"),
        locations,
        connect: ActionItem {
            label: String::from_str("Connect"),
            enabled: status.can_connect(),
            command: Command::Connect,
        },
        disconnect: ActionItem {
            label: String::from_str("Disconnect"),
            enabled: status.can_disconnect(),
            command: Command::Disconnect,
        },
    }
}

/// The labels of the region entries of a menu, in menu order.
pub open spec fn region_labels(m: TrayMenu) -> Seq<Seq<char>> {
    m.locations@.map_values(|r: RegionMenu| r.label@)
}

/// The region entries of a model's menu stand in ascending order of name,
/// and hold exactly the names of the regions that the daemon listed.
pub proof fn lemma_menu_regions_ascending(
    listed: Seq<RelayListCountry>,
    model: TrayModel,
    m: TrayMenu,
)
    requires
        sorts_regions(listed, model.spec_regions()),
        menu_is(m, model.spec_status(), model.spec_regions()),
    ensures
        names_sorted(region_labels(m)),
        region_labels(m).to_multiset() == names(listed).to_multiset(),
{
    let rs = model.spec_regions();
    assert forall|i: int| 0 <= i < m.locations@.len() implies #[trigger] region_labels(m)[i]
        == names(rs)[i] by {
        assert(region_menu_is(m.locations@[i], rs[i]));
    }
    assert(region_labels(m) =~= names(rs));
}

/// The tray's state: the current status and the regions, ordered by name.
/// Only the status ever changes, and only as a whole.
pub struct TrayModel {
    status: ConnectionStatus,
    regions: Vec<RelayListCountry>,
}

impl TrayModel {
    /// The status now held.
    pub closed spec fn spec_status(&self) -> ConnectionStatus {
        self.status
    }

    /// The regions, in menu order.
    pub closed spec fn spec_regions(&self) -> Seq<RelayListCountry> {
        self.regions@
    }

    /// A model with an initial status and the daemon's location list, whose
    /// regions it puts in ascending order of name.
    pub fn new(status: ConnectionStatus, locations: RelayList) -> (r: TrayModel)
        ensures
            r.spec_status() == status,
            sorts_regions(locations.countries@, r.spec_regions()),
    {
        TrayModel { status, regions: sort_regions(locations.countries) }
    }

    /// Replaces the status as a whole; the regions stay.
    pub fn apply_status(&mut self, status: ConnectionStatus)
        ensures
            final(self).spec_status() == status,
            final(self).spec_regions() == old(self).spec_regions(),
    {
        self.status = status;
    }

    /// The status now held.
    pub fn status(&self) -> (r: &ConnectionStatus)
        ensures
            *r == self.spec_status(),
    {
        &self.status
    }

    /// The regions, in menu order.
    pub fn regions(&self) -> (r: &Vec<RelayListCountry>)
        ensures
            r@ == self.spec_regions(),
    {
        &self.regions
    }

    /// The tray title of the current status.
    pub fn title(&self) -> (r: String)
        ensures
            r@ == title_of(self.spec_status()),
    {
        self.status.title()
    }

    /// The icon of the current status.
    pub fn icon_name(&self) -> (r: String)
        ensures
            r@ == icon_of(self.spec_status()),
    {
        self.status.icon_name()
    }

    /// The menu for the current status, built afresh.
    pub fn menu(&self) -> (m: TrayMenu)
        ensures
            menu_is(m, self.spec_status(), self.spec_regions()),
    {
        build_menu(&self.status, &self.regions)
    }

    /// The command behind "Connect". The model itself is left as it is.
    pub fn connect(&self) -> (c: Command)
        ensures
            c is Connect,
    {
        Command::Connect
    }

    /// The command behind "Disconnect". The model itself is left as it is.
    pub fn disconnect(&self) -> (c: Command)
        ensures
            c is Disconnect,
    {
        Command::Disconnect
    }

    /// The command behind a host entry: a move to exactly these fields. The
    /// model itself, its status included, is left as it is.
    pub fn set_location(&self, country: String, city: Option<String>, hostname: Option<String>) -> (c:
        Command)
        ensures
            c == Command::SetLocation(GeographicLocationConstraint { country, city, hostname }),
    {
        Command::SetLocation(GeographicLocationConstraint { country, city, hostname })
    }
}

} // verus!
