use netman::app::{build_list_items, demo_connections, is_inflight_status, Action, App, ListItem};
use netman::connection::{
    Connection, ConnectionKind, ConnectionStatus, NmState, VpnInfo, WifiInfo, WifiMode,
    WifiSecurity,
};
use netman::ui::Key;

fn wifi(ssid: &str, strength: u8, active: bool) -> Connection {
    Connection {
        id: ssid.into(),
        uuid: format!("uuid-{ssid}"),
        kind: ConnectionKind::Wifi(WifiInfo {
            ssid: ssid.into(),
            strength,
            security: WifiSecurity::Wpa2,
            frequency: Some(5180),
            bssid: None,
            mode: WifiMode::Infrastructure,
        }),
        status: if active {
            ConnectionStatus::Active
        } else {
            ConnectionStatus::Inactive
        },
        ip4: None,
        ip6: None,
        device: None,
        saved: true,
    }
}

fn ethernet(id: &str) -> Connection {
    Connection {
        id: id.into(),
        uuid: format!("uuid-{id}"),
        kind: ConnectionKind::Ethernet,
        status: ConnectionStatus::Inactive,
        ip4: None,
        ip6: None,
        device: None,
        saved: true,
    }
}

fn vpn(id: &str) -> Connection {
    Connection {
        id: id.into(),
        uuid: format!("uuid-{id}"),
        kind: ConnectionKind::Vpn(VpnInfo {
            service_type: "org.freedesktop.NetworkManager.openvpn".into(),
        }),
        status: ConnectionStatus::Inactive,
        ip4: None,
        ip6: None,
        device: None,
        saved: true,
    }
}

fn header(item: &ListItem) -> Option<&str> {
    match item {
        ListItem::Header(h) => Some(h.as_str()),
        _ => None,
    }
}

#[test]
fn build_list_items_groups_by_type() {
    let conns = vec![
        ethernet("eth0"),
        wifi("Home", 90, true),
        wifi("Cafe", 50, false),
    ];
    let items = build_list_items(conns);

    assert!(matches!(&items[0], ListItem::Header(h) if h == "Wi-Fi"));
    assert!(items[1].is_connection());
    assert!(items[2].is_connection());
    assert!(matches!(&items[3], ListItem::HiddenWifiConnect));
    assert!(matches!(&items[4], ListItem::Header(h) if h == "Ethernet"));
    assert!(items[5].is_connection());
    assert_eq!(items.len(), 6);
}

#[test]
fn build_list_items_empty_input_includes_hidden_entry() {
    let items = build_list_items(vec![]);
    assert_eq!(items.len(), 2);
    assert!(matches!(&items[0], ListItem::Header(h) if h == "Wi-Fi"));
    assert!(matches!(&items[1], ListItem::HiddenWifiConnect));
}

#[test]
fn hidden_wifi_entry_is_selectable() {
    let items = build_list_items(vec![]);
    assert!(items[1].is_selectable());
    assert!(!items[1].is_connection());
}

#[test]
fn nm_state_label_connected_global() {
    assert_eq!(NmState::ConnectedGlobal.label(), "Connected");
}

#[test]
fn connection_status_indicator_active() {
    assert_eq!(ConnectionStatus::Active.indicator(), '●');
}

#[test]
fn inflight_status_messages() {
    assert!(is_inflight_status("Activating…"));
    assert!(is_inflight_status("Deactivating…"));
    assert!(!is_inflight_status("Activation failed: no device"));
    assert!(!is_inflight_status("Demo mode — connect not available"));
}

// ── further cases ────────────────────────────────────────────────────────────

#[test]
fn sections_keep_input_order() {
    let items = build_list_items(vec![
        vpn("Work"),
        wifi("B", 10, false),
        ethernet("eth1"),
        wifi("A", 20, false),
        ethernet("eth0"),
    ]);
    let labels: Vec<String> = items
        .iter()
        .map(|i| match i {
            ListItem::Header(h) => format!("[{h}]"),
            ListItem::Connection(c) => c.label().to_string(),
            ListItem::HiddenWifiConnect => "hidden".to_string(),
        })
        .collect();
    assert_eq!(
        labels,
        vec!["[Wi-Fi]", "B", "A", "hidden", "[Ethernet]", "eth1", "eth0", "[VPN]", "Work"]
    );
    assert_eq!(header(&items[7]), Some("VPN"));
}

#[test]
fn other_kinds_go_last() {
    let mut lo = ethernet("lo");
    lo.kind = ConnectionKind::Loopback;
    let items = build_list_items(vec![lo, vpn("V")]);
    assert_eq!(items.len(), 6);
    assert_eq!(header(&items[2]), Some("VPN"));
    assert_eq!(header(&items[4]), Some("Other"));
    assert_eq!(items[5].as_connection().unwrap().id, "lo");
}

fn live_app(conns: Vec<Connection>) -> App {
    let mut app = App::live(true);
    app.apply_refresh(NmState::ConnectedGlobal, conns);
    app
}

#[test]
fn selection_wraps_over_selectable_rows() {
    let mut app = live_app(vec![wifi("Home", 90, true), ethernet("eth0")]);
    // selectable rows: Home, hidden entry, eth0
    assert_eq!(app.selectable_count(), 3);
    assert_eq!(app.selected_conn().unwrap().label(), "Home");
    assert_eq!(app.handle_key(Key::Up, false), Action::Continue);
    assert_eq!(app.selected, 2);
    assert_eq!(app.selected_conn().unwrap().label(), "eth0");
    app.handle_key(Key::Char('j'), false);
    assert_eq!(app.selected, 0);
    app.handle_key(Key::Down, false);
    assert!(app.selected_conn().is_none());
    app.move_selection(-7);
    assert_eq!(app.selected, 0);
}

#[test]
fn enter_and_d_report_on_selected_connection() {
    let mut app = live_app(vec![wifi("Home", 90, true), ethernet("eth0")]);
    app.handle_key(Key::Enter, false);
    assert_eq!(app.status_message.as_deref(), Some("'Home' is already connected."));
    app.handle_key(Key::Char('d'), false);
    assert_eq!(app.status_message.as_deref(), Some("Disconnecting 'Home'…"));
    app.handle_key(Key::Up, false);
    app.handle_key(Key::Enter, false);
    assert_eq!(app.status_message.as_deref(), Some("Connecting to 'eth0'…"));
    app.handle_key(Key::Delete, false);
    assert_eq!(app.status_message.as_deref(), Some("'eth0' is not active."));
}

#[test]
fn quit_help_and_detail_keys() {
    let mut app = live_app(vec![]);
    assert_eq!(app.handle_key(Key::Char('q'), false), Action::Quit);
    assert_eq!(app.handle_key(Key::Char('Q'), false), Action::Quit);
    assert_eq!(app.handle_key(Key::Char('c'), true), Action::Quit);
    assert_eq!(app.handle_key(Key::Char('c'), false), Action::Continue);
    app.handle_key(Key::Char('?'), false);
    assert!(app.show_help);
    app.handle_key(Key::Esc, false);
    assert!(!app.show_help);
    app.handle_key(Key::Tab, false);
    assert!(!app.show_detail);
    app.handle_key(Key::Char('p'), false);
    assert!(app.show_detail);
    app.handle_key(Key::F(5), false);
    assert_eq!(app.status_message.as_deref(), Some("Refreshing…"));
}

#[test]
fn refresh_clamps_selection_and_demo_ignores_refresh() {
    let mut app = live_app(vec![wifi("A", 1, false), wifi("B", 1, false), wifi("C", 1, false)]);
    app.handle_key(Key::Up, false);
    assert_eq!(app.selected, 3);
    app.apply_refresh(NmState::Disconnected, vec![]);
    assert_eq!(app.selected, 0);
    assert_eq!(app.nm_state, NmState::Disconnected);

    let mut demo = App::demo(false);
    let before = demo.items.len();
    demo.apply_refresh(NmState::Asleep, vec![]);
    assert_eq!(demo.items.len(), before);
    assert_eq!(demo.nm_state, NmState::ConnectedGlobal);
    assert_eq!(
        demo.status_message.as_deref(),
        Some("Demo mode — NetworkManager not available")
    );
}

#[test]
fn demo_data_has_five_connections() {
    let cs = demo_connections();
    assert_eq!(cs.len(), 5);
    assert_eq!(cs[0].label(), "Home Network");
    assert!(cs[0].is_active());
    assert_eq!(cs[4].kind.type_label(), "VPN");
    let app = App::demo(true);
    // Wi-Fi header, 3 networks, hidden entry, Ethernet header + 1, VPN header + 1
    assert_eq!(app.items.len(), 9);
}

#[test]
fn n_and_w_ask_to_switch_radios() {
    let mut app = live_app(vec![]);
    assert_eq!(app.handle_key(Key::Char('n'), false), Action::SetNetworking(false));
    assert_eq!(app.handle_key(Key::Char('w'), false), Action::SetWireless(false));
    app.wireless_enabled = false;
    assert_eq!(app.handle_key(Key::Char('w'), false), Action::SetWireless(true));
    assert!(app.networking_enabled);
}
