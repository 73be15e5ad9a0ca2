use netman::ui::detail::{build_lines, detail_panel};
use netman::ui::status::status_pieces;
use netman::ui::status::{status_bar, StatusBar};
use netman::app::App;
use netman::connection::{
    Connection, ConnectionKind, ConnectionStatus, Ip4Config, NmState, VpnInfo, WifiInfo,
    WifiMode, WifiSecurity,
};
use netman::ui::detail::{detail_lines, detail_tone, DetailLine};
use netman::ui::layout::{centered, Area};
use netman::ui::rows::{connection_row, status_tone, strength_tone, truncate, Tone};
use netman::ui::status::status_line;

fn make_wifi(strength: u8) -> WifiInfo {
    WifiInfo {
        ssid: "test".into(),
        strength,
        security: WifiSecurity::Open,
        frequency: None,
        bssid: None,
        mode: WifiMode::Infrastructure,
    }
}

#[test]
fn strength_bar_boundaries() {
    let full = make_wifi(100);
    let empty = make_wifi(0);
    assert_eq!(full.strength_bar(), "████");
    assert_eq!(empty.strength_bar(), "░░░░");

    for s in [25u8, 50, 75, 99] {
        let w = make_wifi(s);
        let bar = w.strength_bar();
        assert_eq!(bar.chars().count(), 4, "bar must be 4 chars wide at {s}%");
    }
}

fn conn(kind: ConnectionKind, status: ConnectionStatus) -> Connection {
    Connection {
        id: "Profile".into(),
        uuid: "u".into(),
        kind,
        status,
        ip4: None,
        ip6: None,
        device: None,
        saved: true,
    }
}

fn texts(row: &[netman::ui::rows::Styled]) -> Vec<&str> {
    row.iter().map(|s| s.text.as_str()).collect()
}

#[test]
fn wifi_row_cells() {
    let mut w = make_wifi(61);
    w.ssid = "CoffeeShop".into();
    w.frequency = Some(5240);
    let mut c = conn(ConnectionKind::Wifi(w), ConnectionStatus::Inactive);
    c.saved = false;
    let row = connection_row(&c);
    assert_eq!(
        texts(&row),
        vec![
            " ○ ",
            "CoffeeShop              ",
            " +",
            "██░░",
            "  61%",
            "   ",
            " 5 GHz"
        ]
    );
    assert_eq!(row[3].tone, Tone::SignalGood);
    assert_eq!(row[2].tone, Tone::Warn);
}

#[test]
fn ethernet_vpn_and_other_rows() {
    let eth = conn(ConnectionKind::Ethernet, ConnectionStatus::Active);
    let row = connection_row(&eth);
    assert_eq!(texts(&row)[2], " [eth?]");
    assert_eq!(row[1].tone, Tone::Active);
    let vpn = conn(
        ConnectionKind::Vpn(VpnInfo { service_type: "x".into() }),
        ConnectionStatus::Activating,
    );
    let row = connection_row(&vpn);
    assert_eq!(texts(&row), vec![" ◌ ", "Profile                 ", " VPN"]);
    assert_eq!(row[0].tone, Tone::Warn);
    let lo = conn(ConnectionKind::Loopback, ConnectionStatus::Unknown);
    assert_eq!(texts(&connection_row(&lo)), vec![" Profile"]);
}

#[test]
fn truncate_marks_cut_text() {
    assert_eq!(truncate("abcdef", 4), "abc…");
    assert_eq!(truncate("abc", 3), "abc");
    assert_eq!(truncate("", 0), "");
}

#[test]
fn tones() {
    assert_eq!(strength_tone(100), Tone::SignalStrong);
    assert_eq!(strength_tone(101), Tone::SignalWeak);
    assert_eq!(strength_tone(49), Tone::SignalFair);
    assert_eq!(strength_tone(24), Tone::SignalWeak);
    assert_eq!(status_tone(ConnectionStatus::Unknown), Tone::Dim);
    assert_eq!(detail_tone(ConnectionStatus::Inactive), Tone::Dim);
}

#[test]
fn overlay_is_centred_and_fits() {
    let area = Area { x: 0, y: 0, width: 100, height: 40 };
    assert_eq!(centered(area, 52, 20), Area { x: 24, y: 10, width: 52, height: 20 });
    let small = Area { x: 5, y: 1, width: 30, height: 10 };
    assert_eq!(centered(small, 52, 20), Area { x: 7, y: 3, width: 26, height: 6 });
    let tiny = Area { x: 0, y: 0, width: 3, height: 2 };
    assert_eq!(centered(tiny, 52, 20), Area { x: 1, y: 1, width: 0, height: 0 });
}

#[test]
fn detail_lines_for_connected_wifi() {
    let mut w = make_wifi(87);
    w.ssid = "Home".into();
    w.security = WifiSecurity::Wpa3;
    w.frequency = Some(5180);
    w.bssid = Some("aa:bb".into());
    let mut c = conn(ConnectionKind::Wifi(w), ConnectionStatus::Active);
    c.device = Some("wlan0".into());
    c.ip4 = Some(Ip4Config {
        address: "192.168.1.100/24".into(),
        gateway: Some("192.168.1.1".into()),
        nameservers: vec!["1.1.1.1".into(), "8.8.8.8".into()],
    });
    let lines = detail_lines(&c);
    let fields: Vec<(String, String)> = lines
        .iter()
        .filter_map(|l| match l {
            DetailLine::Field { label, value } => Some((label.clone(), value.clone())),
            _ => None,
        })
        .collect();
    let expect = vec![
        ("Type", "Wi-Fi"),
        ("SSID", "Home"),
        ("Security", "WPA3"),
        ("Signal", "87% ███░"),
        ("Band", "5 GHz"),
        ("Frequency", "5180 MHz"),
        ("BSSID", "aa:bb"),
        ("Device", "wlan0"),
        ("Address", "192.168.1.100/24"),
        ("Gateway", "192.168.1.1"),
        ("DNS", "1.1.1.1"),
        ("", "8.8.8.8"),
    ];
    let expect: Vec<(String, String)> =
        expect.into_iter().map(|(a, b)| (a.to_string(), b.to_string())).collect();
    assert_eq!(fields, expect);
    assert!(matches!(&lines[0], DetailLine::Title { indicator: '●', label } if label == "Home"));
    assert!(matches!(lines.last(), Some(DetailLine::Status(s)) if s == "Status: Active"));
}

#[test]
fn detail_lines_show_vpn_plugin_short_name() {
    let c = conn(
        ConnectionKind::Vpn(VpnInfo {
            service_type: "org.freedesktop.NetworkManager.openvpn".into(),
        }),
        ConnectionStatus::Inactive,
    );
    let lines = detail_lines(&c);
    assert!(lines.iter().any(
        |l| matches!(l, DetailLine::Field { label, value } if label == "Plugin" && value == "openvpn")
    ));
    assert_eq!(lines.len(), 6);
}

#[test]
fn status_line_summarises_active_connection() {
    let app = App::demo(true);
    let line = status_line(&app);
    assert_eq!(line.indicator, '●');
    assert!(line.connected);
    assert_eq!(line.state_label, "Connected");
    let active = line.active.unwrap();
    assert_eq!(active.label, "Home Network");
    assert_eq!(active.device.as_deref(), Some("wlan0"));
    assert_eq!(active.address.as_deref(), Some("192.168.1.100"));
    assert!(!line.networking_off);

    let mut live = App::live(true);
    live.apply_refresh(NmState::Connecting, vec![]);
    live.wireless_enabled = false;
    let line = status_line(&live);
    assert_eq!(line.indicator, '◌');
    assert!(line.active.is_none());
    assert!(line.wireless_off);
}

#[test]
fn status_bar_prefers_pending_message() {
    let demo = App::demo(true);
    match status_bar(&demo) {
        StatusBar::Message(m) => assert_eq!(m, "Demo mode — NetworkManager not available"),
        other => panic!("unexpected {other:?}"),
    }
    let live = App::live(false);
    assert!(matches!(status_bar(&live), StatusBar::Summary(s) if s.indicator == '?'));
}

fn line_texts(lines: Vec<Vec<netman::ui::rows::Piece>>) -> Vec<String> {
    lines
        .into_iter()
        .map(|l| l.into_iter().map(|p| p.text).collect::<String>())
        .collect()
}

#[test]
fn detail_panel_text_for_vpn() {
    let mut app = App::live(true);
    let mut c = conn(
        ConnectionKind::Vpn(VpnInfo {
            service_type: "org.freedesktop.NetworkManager.openvpn".into(),
        }),
        ConnectionStatus::Inactive,
    );
    c.id = "Work VPN".into();
    app.apply_refresh(NmState::ConnectedGlobal, vec![c]);
    // selectable rows: hidden entry, then the VPN
    app.handle_key(netman::ui::Key::Down, false);
    let texts = line_texts(detail_panel(&app));
    assert_eq!(
        texts,
        vec![
            "  ○ Work VPN",
            "",
            "  Type        VPN",
            "  Plugin      openvpn",
            "",
            "  Status: Inactive"
        ]
    );
    let none = line_texts(detail_panel(&App::live(true)));
    assert_eq!(none, vec!["  No connection selected"]);
}

#[test]
fn status_text_of_demo_and_live_sessions() {
    let mut demo = App::demo(true);
    demo.status_message = None;
    demo.networking_enabled = false;
    let text: String = status_pieces(&demo).into_iter().map(|p| p.text).collect();
    assert_eq!(
        text,
        " ● Connected  ─  Home Network [wlan0]  192.168.1.100  ─  Net: off"
    );
    let msg: String = status_pieces(&App::demo(true)).into_iter().map(|p| p.text).collect();
    assert_eq!(msg, " Demo mode — NetworkManager not available");
}

#[test]
fn detail_lines_with_ipv4_section() {
    let mut c = conn(ConnectionKind::Ethernet, ConnectionStatus::Active);
    c.id = "Wired".into();
    c.device = Some("eth0".into());
    c.ip4 = Some(Ip4Config {
        address: "10.0.0.5/24".into(),
        gateway: None,
        nameservers: vec!["1.1.1.1".into(), "9.9.9.9".into()],
    });
    assert_eq!(
        line_texts(build_lines(&c)),
        vec![
            "  ● Wired",
            "",
            "  Type        Ethernet",
            "  Device      eth0",
            "",
            "  IPv4",
            "  Address     10.0.0.5/24",
            "  DNS         1.1.1.1",
            "              9.9.9.9",
            "",
            "  Status: Active"
        ]
    );
}
