use mulltray::catalog::{
    name_le_exec, sort_regions, EndpointKind, Relay, RelayList, RelayListCity, RelayListCountry,
};
use mulltray::events::{next_step, DaemonEvent, DaemonEventKind, LoopStep};
use mulltray::status::{ConnectionStatus, GeoLocation, RelayInfo, TunnelState, TunnelStateKind};
use mulltray::tray::{
    build_menu, relocate, Command, GeographicLocationConstraint, LocationConstraint,
    NormalRelaySettings, RelayEndpoint, RelaySettings, RelocateError, TrayModel,
};

fn relay(hostname: &str, kind: EndpointKind) -> Relay {
    Relay { hostname: hostname.to_string(), endpoint_type: kind }
}

fn country(name: &str, code: &str, cities: Vec<RelayListCity>) -> RelayListCountry {
    RelayListCountry { name: name.to_string(), code: code.to_string(), cities }
}

fn city(name: &str, code: &str, relays: Vec<Relay>) -> RelayListCity {
    RelayListCity { name: name.to_string(), code: code.to_string(), relays }
}

fn sweden() -> RelayListCountry {
    country(
        "Sweden",
        "se",
        vec![
            city(
                "Gothenburg",
                "got",
                vec![
                    relay("se-got-wg-001", EndpointKind::Wireguard),
                    relay("se-got-ovpn-001", EndpointKind::OpenVpn),
                ],
            ),
            city("Stockholm", "sto", vec![relay("se-sto-wg-002", EndpointKind::Wireguard)]),
        ],
    )
}

fn finland() -> RelayListCountry {
    country(
        "Finland",
        "fi",
        vec![city("Helsinki", "hel", vec![relay("fi-hel-wg-101", EndpointKind::Wireguard)])],
    )
}

fn austria() -> RelayListCountry {
    country("Austria", "at", vec![city("Vienna", "vie", vec![relay("at-vie-br-001", EndpointKind::Bridge)])])
}

fn connected_to(hostname: &str) -> ConnectionStatus {
    ConnectionStatus::Connected(Some(RelayInfo {
        location: Some(GeoLocation {
            country: "Finland".to_string(),
            city: None,
            hostname: Some(hostname.to_string()),
        }),
    }))
}

fn region_labels(model: &TrayModel) -> Vec<String> {
    model.menu().locations.iter().map(|r| r.label.clone()).collect()
}

#[test]
fn regions_are_ordered_by_name_whatever_the_input_order() {
    let a = TrayModel::new(
        ConnectionStatus::Inactive,
        RelayList { countries: vec![sweden(), austria(), finland()] },
    );
    let b = TrayModel::new(
        ConnectionStatus::Inactive,
        RelayList { countries: vec![finland(), sweden(), austria()] },
    );
    assert_eq!(region_labels(&a), vec!["Austria", "Finland", "Sweden"]);
    assert_eq!(region_labels(&a), region_labels(&b));
}

#[test]
fn region_order_is_case_sensitive() {
    let sorted = sort_regions(vec![
        country("alpha", "a", vec![]),
        country("Zeta", "z", vec![]),
        country("Beta", "b", vec![]),
    ]);
    let names: Vec<&str> = sorted.iter().map(|c| c.name.as_str()).collect();
    assert_eq!(names, vec!["Beta", "Zeta", "alpha"]);
}

#[test]
fn sort_keeps_regions_of_equal_name_in_order() {
    let mut list = RelayList {
        countries: vec![country("Same", "x", vec![]), country("Alpha", "a", vec![]), country("Same", "y", vec![])],
    };
    list.sort_by_name();
    let codes: Vec<&str> = list.countries.iter().map(|c| c.code.as_str()).collect();
    assert_eq!(codes, vec!["a", "x", "y"]);
}

#[test]
fn sort_of_empty_list_is_empty() {
    assert!(sort_regions(vec![]).is_empty());
}

#[test]
fn name_order_compares_by_character() {
    assert!(name_le_exec("Austria", "Finland"));
    assert!(!name_le_exec("Finland", "Austria"));
    assert!(name_le_exec("Swe", "Sweden"));
    assert!(!name_le_exec("Sweden", "Swe"));
    assert!(name_le_exec("", ""));
    assert!(name_le_exec("Same", "Same"));
    assert!(name_le_exec("Zeta", "alpha"));
}

#[test]
fn menu_lists_only_supported_relays_across_cities() {
    let model = TrayModel::new(ConnectionStatus::Disconnected, RelayList { countries: vec![sweden(), austria()] });
    let menu = model.menu();
    assert_eq!(menu.locations_label, "Choose location");
    assert_eq!(menu.locations.len(), 2);
    assert_eq!(menu.locations[0].label, "Austria");
    assert!(menu.locations[0].hosts.is_empty());
    let swedish = &menu.locations[1];
    let labels: Vec<&str> = swedish.hosts.iter().map(|h| h.label.as_str()).collect();
    assert_eq!(labels, vec!["se-got-wg-001", "se-sto-wg-002"]);
    assert_eq!(
        swedish.hosts[1].command,
        Command::SetLocation(GeographicLocationConstraint {
            country: "se".to_string(),
            city: Some("sto".to_string()),
            hostname: Some("se-sto-wg-002".to_string()),
        })
    );
}

#[test]
fn menu_actions_follow_the_status() {
    let mut model = TrayModel::new(ConnectionStatus::Disconnected, RelayList { countries: vec![] });
    let menu = model.menu();
    assert_eq!(menu.connect.label, "Connect");
    assert_eq!(menu.disconnect.label, "Disconnect");
    assert!(menu.connect.enabled && !menu.disconnect.enabled);
    assert_eq!(menu.connect.command, Command::Connect);
    assert_eq!(menu.disconnect.command, Command::Disconnect);
    model.apply_status(connected_to("fi-hel-wg-101"));
    let menu = model.menu();
    assert!(!menu.connect.enabled && menu.disconnect.enabled);
    model.apply_status(ConnectionStatus::Disconnecting);
    let menu = model.menu();
    assert!(!menu.connect.enabled && !menu.disconnect.enabled);
}

#[test]
fn build_menu_on_empty_catalog_has_no_regions() {
    let menu = build_menu(&ConnectionStatus::Inactive, &vec![]);
    assert!(menu.locations.is_empty());
    assert!(!menu.connect.enabled && !menu.disconnect.enabled);
}

#[test]
fn connected_title_names_the_host() {
    let mut model = TrayModel::new(ConnectionStatus::Inactive, RelayList { countries: vec![] });
    model.apply_status(connected_to("fi-hel-wg-101"));
    assert_eq!(model.title(), "mulltray - connected to fi-hel-wg-101");
}

#[test]
fn event_without_state_payload_gives_inactive() {
    let mut model = TrayModel::new(ConnectionStatus::Disconnected, RelayList { countries: vec![] });
    let event = DaemonEvent { event: Some(DaemonEventKind::TunnelState(TunnelState { state: None })) };
    assert!(model.reconcile(Some(event)));
    assert_eq!(*model.status(), ConnectionStatus::Inactive);
    assert_eq!(model.title(), "mulltray - inactive");
    assert_eq!(model.icon_name(), "network-vpn-offline-symbolic");
}

#[test]
fn title_and_icon_agree_across_back_to_back_updates() {
    let mut model = TrayModel::new(ConnectionStatus::Disconnected, RelayList { countries: vec![] });
    let connecting = TunnelState {
        state: Some(TunnelStateKind::Connecting {
            relay_info: Some(RelayInfo {
                location: Some(GeoLocation {
                    country: "Finland".to_string(),
                    city: None,
                    hostname: Some("fi-hel-wg-101".to_string()),
                }),
            }),
        }),
    };
    let connected = TunnelState { state: Some(TunnelStateKind::Connected { relay_info: None }) };
    let mut seen = vec![(model.title(), model.icon_name())];
    for raw in [connecting, connected] {
        model.reconcile(Some(DaemonEvent { event: Some(DaemonEventKind::TunnelState(raw)) }));
        seen.push((model.title(), model.icon_name()));
    }
    assert_eq!(
        seen,
        vec![
            ("mulltray - disconnected".to_string(), "network-vpn-disconnected-symbolic".to_string()),
            ("mulltray - connecting to fi-hel-wg-101..".to_string(), "network-vpn-acquiring-symbolic".to_string()),
            ("mulltray - connected to an unknown server".to_string(), "network-vpn-symbolic".to_string()),
        ]
    );
}

#[test]
fn set_location_dispatches_exact_fields_and_keeps_status() {
    let model = TrayModel::new(ConnectionStatus::Disconnected, RelayList { countries: vec![sweden()] });
    let command = model.set_location(
        "se".to_string(),
        Some("got".to_string()),
        Some("se-got-wg-001".to_string()),
    );
    assert_eq!(
        command,
        Command::SetLocation(GeographicLocationConstraint {
            country: "se".to_string(),
            city: Some("got".to_string()),
            hostname: Some("se-got-wg-001".to_string()),
        })
    );
    assert_eq!(*model.status(), ConnectionStatus::Disconnected);
    assert_eq!(model.connect(), Command::Connect);
    assert_eq!(model.disconnect(), Command::Disconnect);
    assert_eq!(model.regions().len(), 1);
}

#[test]
fn relocate_replaces_the_location() {
    let target = GeographicLocationConstraint {
        country: "se".to_string(),
        city: Some("got".to_string()),
        hostname: Some("se-got-wg-001".to_string()),
    };
    let settings = RelaySettings {
        endpoint: Some(RelayEndpoint::Normal(NormalRelaySettings {
            location: Some(LocationConstraint::CustomList("favourites".to_string())),
        })),
    };
    assert_eq!(
        relocate(Some(settings), target.clone()),
        Ok(RelaySettings {
            endpoint: Some(RelayEndpoint::Normal(NormalRelaySettings {
                location: Some(LocationConstraint::from(target)),
            })),
        })
    );
}

#[test]
fn relocate_reports_missing_and_unsupported_settings() {
    let target = GeographicLocationConstraint { country: "fi".to_string(), city: None, hostname: None };
    assert_eq!(relocate(None, target.clone()), Err(RelocateError::MissingRelaySettings));
    assert_eq!(
        relocate(Some(RelaySettings { endpoint: Some(RelayEndpoint::Custom) }), target.clone()),
        Err(RelocateError::UnsupportedEndpoint)
    );
    assert_eq!(
        relocate(Some(RelaySettings { endpoint: None }), target),
        Err(RelocateError::UnsupportedEndpoint)
    );
}

#[test]
fn event_loop_steps() {
    assert_eq!(next_step(None), LoopStep::Stop);
    assert_eq!(next_step(Some(DaemonEvent { event: None })), LoopStep::Stop);
    assert_eq!(next_step(Some(DaemonEvent { event: Some(DaemonEventKind::Settings) })), LoopStep::Ignore);
    assert_eq!(
        next_step(Some(DaemonEvent {
            event: Some(DaemonEventKind::TunnelState(TunnelState {
                state: Some(TunnelStateKind::Disconnected)
            }))
        })),
        LoopStep::Apply(ConnectionStatus::Disconnected)
    );
}

#[test]
fn ignored_events_and_end_of_stream_keep_the_status() {
    let mut model = TrayModel::new(ConnectionStatus::Disconnected, RelayList { countries: vec![] });
    for kind in [
        DaemonEventKind::Settings,
        DaemonEventKind::RelayList,
        DaemonEventKind::VersionInfo,
        DaemonEventKind::Device,
        DaemonEventKind::RemoveDevice,
        DaemonEventKind::NewAccessMethod,
    ] {
        assert!(model.reconcile(Some(DaemonEvent { event: Some(kind) })));
    }
    assert!(!model.reconcile(None));
    assert_eq!(*model.status(), ConnectionStatus::Disconnected);
}
