use netman::connection::{wifi_strength, ConnectionProfile};
use netman::connection::{
    merge_modem_live_data, merge_wifi_scan_data, AccessTechnology, Connection, ConnectionKind,
    ConnectionStatus, ModemInfo, ModemLiveData, NmState, VpnInfo, WifiInfo, WifiMode,
    WifiSecurity,
};

fn wifi_connection(strength: u8, security: WifiSecurity, status: ConnectionStatus) -> Connection {
    Connection {
        id: "Test WiFi".into(),
        uuid: "aaaaaaaa-bbbb-cccc-dddd-eeeeeeeeeeee".into(),
        kind: ConnectionKind::Wifi(WifiInfo {
            ssid: "TestNet".into(),
            strength,
            security,
            frequency: Some(5180),
            bssid: Some("aa:bb:cc:dd:ee:ff".into()),
            mode: WifiMode::Infrastructure,
        }),
        status,
        ip4: None,
        ip6: None,
        device: Some("wlan0".into()),
        saved: true,
    }
}

fn info(strength: u8, security: WifiSecurity, frequency: Option<u32>) -> WifiInfo {
    WifiInfo {
        ssid: "X".into(),
        strength,
        security,
        frequency,
        bssid: None,
        mode: WifiMode::Infrastructure,
    }
}

#[test]
fn connection_label_returns_ssid_for_wifi() {
    let conn = wifi_connection(80, WifiSecurity::Wpa2, ConnectionStatus::Active);
    assert_eq!(conn.label(), "TestNet");
}

#[test]
fn connection_is_active() {
    let active = wifi_connection(80, WifiSecurity::Wpa2, ConnectionStatus::Active);
    let inactive = wifi_connection(80, WifiSecurity::Wpa2, ConnectionStatus::Inactive);
    assert!(active.is_active());
    assert!(!inactive.is_active());
}

#[test]
fn wifi_strength_bar_full() {
    assert_eq!(info(100, WifiSecurity::Open, None).strength_bar(), "████");
}

#[test]
fn wifi_strength_bar_empty() {
    assert_eq!(info(0, WifiSecurity::Open, None).strength_bar(), "░░░░");
}

#[test]
fn wifi_strength_bar_partial() {
    let bar = info(50, WifiSecurity::Wpa2, Some(2412)).strength_bar();
    assert_eq!(bar.chars().count(), 4);
}

#[test]
fn wifi_band_label_2ghz() {
    assert_eq!(info(70, WifiSecurity::Wpa2, Some(2412)).band_label(), Some("2.4 GHz"));
}

#[test]
fn wifi_band_label_5ghz() {
    assert_eq!(info(70, WifiSecurity::Wpa2, Some(5180)).band_label(), Some("5 GHz"));
}

#[test]
fn wifi_security_labels() {
    assert_eq!(WifiSecurity::Open.label(), "Open");
    assert_eq!(WifiSecurity::Wpa2.label(), "WPA2");
    assert_eq!(WifiSecurity::Wpa3.label(), "WPA3");
    assert!(WifiSecurity::Wpa2.is_secured());
    assert!(!WifiSecurity::Open.is_secured());
}

#[test]
fn connection_status_indicators() {
    assert_eq!(ConnectionStatus::Active.indicator(), '●');
    assert_eq!(ConnectionStatus::Inactive.indicator(), '○');
}

#[test]
fn nm_state_from_u32() {
    assert_eq!(NmState::from_u32(70), NmState::ConnectedGlobal);
    assert_eq!(NmState::from_u32(20), NmState::Disconnected);
    assert_eq!(NmState::from_u32(99), NmState::Unknown);
}

#[test]
fn nm_state_is_connected() {
    assert!(NmState::ConnectedGlobal.is_connected());
    assert!(NmState::ConnectedLocal.is_connected());
    assert!(!NmState::Disconnected.is_connected());
}

#[test]
fn connection_kind_type_label() {
    assert_eq!(
        ConnectionKind::Wifi(info(0, WifiSecurity::Open, None)).type_label(),
        "Wi-Fi"
    );
    assert_eq!(ConnectionKind::Ethernet.type_label(), "Ethernet");
    assert_eq!(
        ConnectionKind::Vpn(VpnInfo {
            service_type: "openvpn".into()
        })
        .type_label(),
        "VPN"
    );
}

#[test]
fn merge_wifi_scan_data_updates_saved_and_adds_visible() {
    let mut connections = vec![wifi_connection(
        0,
        WifiSecurity::Wpa2,
        ConnectionStatus::Inactive,
    )];

    merge_wifi_scan_data(
        &mut connections,
        vec![
            WifiInfo {
                ssid: "TestNet".into(),
                strength: 72,
                security: WifiSecurity::Wpa3,
                frequency: Some(2437),
                bssid: Some("aa:bb:cc:dd:ee:01".into()),
                mode: WifiMode::Infrastructure,
            },
            WifiInfo {
                ssid: "OpenCafe".into(),
                strength: 55,
                security: WifiSecurity::Open,
                frequency: Some(5240),
                bssid: None,
                mode: WifiMode::Infrastructure,
            },
        ],
    );

    let wifi = &connections[0];
    let ConnectionKind::Wifi(info) = &wifi.kind else {
        panic!("expected wifi");
    };
    assert_eq!(info.strength, 72);
    assert_eq!(info.security, WifiSecurity::Wpa3);
    assert!(connections
        .iter()
        .any(|c| !c.saved && c.label() == "OpenCafe"));
}

#[test]
fn modem_strength_bar_full() {
    let info = ModemInfo {
        apn: None,
        operator_name: None,
        operator_code: None,
        signal_quality: 100,
        access_technology: AccessTechnology::Lte,
        sim_locked: false,
    };
    assert_eq!(info.strength_bar(), "████");
}

#[test]
fn merge_modem_live_data_updates_matching_device() {
    let mut connections = vec![Connection {
        id: "Mobile".into(),
        uuid: "uuid-mobile".into(),
        kind: ConnectionKind::Modem(ModemInfo {
            apn: Some("old".into()),
            operator_name: None,
            operator_code: None,
            signal_quality: 0,
            access_technology: AccessTechnology::Unknown,
            sim_locked: false,
        }),
        status: ConnectionStatus::Inactive,
        ip4: None,
        ip6: None,
        device: Some("wwan0".into()),
        saved: true,
    }];

    merge_modem_live_data(
        &mut connections,
        &[ModemLiveData {
            interface: "wwan0".into(),
            apn: Some("internet".into()),
            operator_name: Some("Carrier".into()),
            operator_code: Some("00101".into()),
            signal_quality: 65,
            access_technology: AccessTechnology::Lte,
            sim_locked: true,
        }],
    );

    let ConnectionKind::Modem(m) = &connections[0].kind else {
        panic!("expected modem");
    };
    assert_eq!(m.apn.as_deref(), Some("internet"));
    assert_eq!(m.operator_name.as_deref(), Some("Carrier"));
    assert_eq!(m.signal_quality, 65);
    assert!(m.sim_locked);
}

// ── further cases ────────────────────────────────────────────────────────────

#[test]
fn strength_bar_cells_follow_quarters() {
    assert_eq!(info(24, WifiSecurity::Open, None).strength_bar(), "░░░░");
    assert_eq!(info(25, WifiSecurity::Open, None).strength_bar(), "█░░░");
    assert_eq!(info(50, WifiSecurity::Open, None).strength_bar(), "██░░");
    assert_eq!(info(75, WifiSecurity::Open, None).strength_bar(), "███░");
    assert_eq!(info(255, WifiSecurity::Open, None).strength_bar(), "████");
}

#[test]
fn band_label_boundary_and_absent() {
    assert_eq!(info(1, WifiSecurity::Open, Some(2999)).band_label(), Some("2.4 GHz"));
    assert_eq!(info(1, WifiSecurity::Open, Some(3000)).band_label(), Some("5 GHz"));
    assert_eq!(info(1, WifiSecurity::Open, None).band_label(), None);
}

#[test]
fn label_of_non_wifi_is_profile_name() {
    let mut c = wifi_connection(1, WifiSecurity::Open, ConnectionStatus::Inactive);
    c.kind = ConnectionKind::Ethernet;
    assert_eq!(c.label(), "Test WiFi");
}

#[test]
fn nm_state_codes_and_labels() {
    assert_eq!(NmState::from_u32(10), NmState::Asleep);
    assert_eq!(NmState::from_u32(40), NmState::Connecting);
    assert_eq!(NmState::from_u32(60), NmState::ConnectedSite);
    assert_eq!(NmState::Connecting.label(), "Connecting…");
    assert!(!NmState::Connecting.is_connected());
}

#[test]
fn editable_security_cycles() {
    assert_eq!(WifiSecurity::Open.next_editable(), WifiSecurity::Wpa2);
    assert_eq!(WifiSecurity::Wpa3.next_editable(), WifiSecurity::Open);
    assert_eq!(WifiSecurity::Open.prev_editable(), WifiSecurity::Wpa3);
    assert_eq!(WifiSecurity::Wpa2.next_editable().prev_editable(), WifiSecurity::Wpa2);
}

#[test]
fn scan_keeps_saved_entries_first_and_skips_listed_ssids() {
    let mut connections = vec![wifi_connection(10, WifiSecurity::Wpa2, ConnectionStatus::Active)];
    merge_wifi_scan_data(
        &mut connections,
        vec![
            WifiInfo {
                ssid: "Other".into(),
                strength: 30,
                security: WifiSecurity::Open,
                frequency: None,
                bssid: None,
                mode: WifiMode::Infrastructure,
            },
            WifiInfo {
                ssid: "Other".into(),
                strength: 60,
                security: WifiSecurity::Open,
                frequency: None,
                bssid: None,
                mode: WifiMode::Infrastructure,
            },
        ],
    );
    assert_eq!(connections.len(), 2);
    assert!(connections[0].saved);
    assert_eq!(connections[1].uuid, "visible:Other");
    let ConnectionKind::Wifi(w) = &connections[1].kind else {
        panic!("expected wifi");
    };
    assert_eq!(w.strength, 60);
}

#[test]
fn saved_flag_strength_and_editability() {
    let mut c = wifi_connection(42, WifiSecurity::Wpa2, ConnectionStatus::Inactive);
    assert!(c.is_saved());
    assert_eq!(wifi_strength(&c), 42);
    c.kind = ConnectionKind::Ethernet;
    c.saved = false;
    assert!(!c.is_saved());
    assert_eq!(wifi_strength(&c), 0);
    let unsupported = ConnectionProfile::Unsupported {
        id: "lo".into(),
        conn_type: "loopback".into(),
    };
    assert!(!unsupported.is_editable());
}

#[test]
fn merging_the_same_scan_twice_changes_nothing() {
    let scan = || {
        vec![
            WifiInfo {
                ssid: "TestNet".into(),
                strength: 72,
                security: WifiSecurity::Wpa3,
                frequency: Some(2437),
                bssid: Some("aa:bb:cc:dd:ee:01".into()),
                mode: WifiMode::Infrastructure,
            },
            WifiInfo {
                ssid: "OpenCafe".into(),
                strength: 55,
                security: WifiSecurity::Open,
                frequency: Some(5240),
                bssid: None,
                mode: WifiMode::Infrastructure,
            },
        ]
    };
    let mut connections = vec![wifi_connection(0, WifiSecurity::Wpa2, ConnectionStatus::Inactive)];
    merge_wifi_scan_data(&mut connections, scan());
    let once: Vec<String> = connections.iter().map(|c| format!("{c:?}")).collect();
    merge_wifi_scan_data(&mut connections, scan());
    let twice: Vec<String> = connections.iter().map(|c| format!("{c:?}")).collect();
    assert_eq!(once, twice);
}
