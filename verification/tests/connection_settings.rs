use netman::nm::wifi_settings::wifi_connection_settings;
use netman::connection::{
    ConnectionProfile, EthernetProfile, IpMethod, Ipv4Profile, Ipv6Profile, VpnProfile,
    WifiProfile, WifiSecurity,
};
use netman::error::Error;
use netman::nm::connection_settings::{
    apply_profile, dotted_quad_string, ip_method_to_nm, parse_ip_method, parse_profile,
    profile_to_settings,
};
use netman::nm::dict::{FieldValue, NmSettings, Record, Section, SettingValue, StrMap};

fn str_value(s: &str) -> SettingValue {
    SettingValue::Str(s.to_string())
}

fn section(pairs: Vec<(&str, SettingValue)>) -> Section {
    let mut s = StrMap::new();
    for (k, v) in pairs {
        s.insert(k.to_string(), v);
    }
    s
}

fn wifi_raw() -> NmSettings {
    let mut settings = StrMap::new();
    settings.insert(
        "connection".to_string(),
        section(vec![
            ("type", str_value("802-11-wireless")),
            ("id", str_value("Home")),
            ("uuid", str_value("test-uuid")),
        ]),
    );
    settings.insert(
        "802-11-wireless".to_string(),
        section(vec![
            ("ssid", SettingValue::Bytes(b"Home".to_vec())),
            ("mode", str_value("infrastructure")),
        ]),
    );
    settings.insert(
        "802-11-wireless-security".to_string(),
        section(vec![
            ("key-mgmt", str_value("wpa-psk")),
            ("psk", str_value("secret123")),
        ]),
    );
    settings.insert("ipv4".to_string(), section(vec![("method", str_value("auto"))]));
    settings
}

fn wired_raw(eth: Section) -> NmSettings {
    let mut settings = StrMap::new();
    settings.insert(
        "connection".to_string(),
        section(vec![
            ("type", str_value("802-3-ethernet")),
            ("id", str_value("Wired")),
        ]),
    );
    settings.insert("802-3-ethernet".to_string(), eth);
    settings.insert("ipv4".to_string(), section(vec![("method", str_value("auto"))]));
    settings
}

#[test]
fn parse_wifi_profile() {
    let raw = wifi_raw();
    let profile = parse_profile(&raw, None);
    let ConnectionProfile::Wifi(w) = profile else {
        panic!("expected wifi profile");
    };
    assert_eq!(w.ssid, "Home");
    assert_eq!(w.security, WifiSecurity::Wpa2);
    assert_eq!(w.psk, "secret123");
    assert_eq!(w.ipv4.method, IpMethod::Auto);
}

#[test]
fn apply_wifi_changes_ssid_and_ipv4() {
    let raw = wifi_raw();
    let mut profile = parse_profile(&raw, None);
    let ConnectionProfile::Wifi(ref mut w) = profile else {
        panic!("expected wifi");
    };
    w.ssid = "Office".into();
    w.psk = String::new();
    w.ipv4.method = IpMethod::Manual;
    w.ipv4.address = "10.0.0.5".into();
    w.ipv4.prefix = 24;
    w.ipv4.gateway = "10.0.0.1".into();
    w.ipv4.dns = "1.1.1.1".into();

    let updated = apply_profile(&raw, &profile).unwrap();
    let reparsed = parse_profile(&updated, None);
    let ConnectionProfile::Wifi(w) = reparsed else {
        panic!("expected wifi");
    };
    assert_eq!(w.ssid, "Office");
    assert_eq!(w.ipv4.method, IpMethod::Manual);
    assert_eq!(w.ipv4.address, "10.0.0.5");
    assert_eq!(w.ipv4.gateway, "10.0.0.1");
    assert_eq!(w.ipv4.dns, "1.1.1.1");
}

#[test]
fn parse_ethernet_profile() {
    let settings = wired_raw(section(vec![("mtu", SettingValue::U32(9000))]));
    let profile = parse_profile(&settings, None);
    let ConnectionProfile::Ethernet(e) = profile else {
        panic!("expected ethernet");
    };
    assert_eq!(e.name, "Wired");
    assert_eq!(e.mtu, "9000");
    assert_eq!(e.ipv4.method, IpMethod::Auto);
}

#[test]
fn manual_ipv4_requires_address() {
    let raw = wifi_raw();
    let profile = ConnectionProfile::Wifi(WifiProfile {
        ssid: "Home".into(),
        security: WifiSecurity::Wpa2,
        psk: String::new(),
        hidden: false,
        autoconnect: true,
        vpn_secondary: None,
        ipv4: Ipv4Profile {
            method: IpMethod::Manual,
            ..Ipv4Profile::default()
        },
        ipv6: Ipv6Profile::default(),
    });
    assert!(apply_profile(&raw, &profile).is_err());
}

#[test]
fn ethernet_round_trip_mtu() {
    let settings = wired_raw(StrMap::new());
    let profile = ConnectionProfile::Ethernet(EthernetProfile {
        name: "Wired".into(),
        autoconnect: true,
        vpn_secondary: None,
        ipv4: Ipv4Profile::default(),
        ipv6: Ipv6Profile::default(),
        mtu: "1500".into(),
        cloned_mac: String::new(),
    });
    let updated = apply_profile(&settings, &profile).unwrap();
    let reparsed = parse_profile(&updated, None);
    let ConnectionProfile::Ethernet(e) = reparsed else {
        panic!("expected ethernet");
    };
    assert_eq!(e.mtu, "1500");
}

#[test]
fn profile_to_settings_builds_new_wifi() {
    let profile = ConnectionProfile::Wifi(WifiProfile {
        ssid: "NewNet".into(),
        security: WifiSecurity::Wpa2,
        psk: "secret".into(),
        hidden: false,
        autoconnect: true,
        vpn_secondary: None,
        ipv4: Ipv4Profile::default(),
        ipv6: Ipv6Profile::default(),
    });
    let settings = profile_to_settings(&profile).unwrap();
    let reparsed = parse_profile(&settings, None);
    let ConnectionProfile::Wifi(w) = reparsed else {
        panic!("expected wifi");
    };
    assert_eq!(w.ssid, "NewNet");
    assert_eq!(w.security, WifiSecurity::Wpa2);
}

#[test]
fn ipv6_and_autoconnect_round_trip() {
    let mut settings = wifi_raw();
    let mut connection = settings.remove("connection").unwrap();
    connection.insert("autoconnect".into(), SettingValue::Bool(false));
    connection.insert(
        "secondaries".into(),
        SettingValue::StrList(vec!["vpn-uuid".to_owned()]),
    );
    settings.insert("connection".into(), connection);
    let mut addr_entry: Record = StrMap::new();
    addr_entry.insert("address".into(), FieldValue::Str("2001:db8::1".into()));
    addr_entry.insert("prefix".into(), FieldValue::U32(64));
    settings.insert(
        "ipv6".into(),
        section(vec![
            ("method", str_value("manual")),
            ("address-data", SettingValue::Records(vec![addr_entry])),
        ]),
    );

    let profile = parse_profile(&settings, None);
    let ConnectionProfile::Wifi(w) = profile else {
        panic!("expected wifi");
    };
    assert!(!w.autoconnect);
    assert_eq!(w.vpn_secondary.as_deref(), Some("vpn-uuid"));
    assert_eq!(w.ipv6.method, IpMethod::Manual);
    assert_eq!(w.ipv6.address, "2001:db8::1");
    assert_eq!(w.ipv6.prefix, 64);

    let updated = apply_profile(&settings, &ConnectionProfile::Wifi(w)).unwrap();
    let reparsed = parse_profile(&updated, None);
    let ConnectionProfile::Wifi(w2) = reparsed else {
        panic!("expected wifi");
    };
    assert!(!w2.autoconnect);
    assert_eq!(w2.vpn_secondary.as_deref(), Some("vpn-uuid"));
    assert_eq!(w2.ipv6.address, "2001:db8::1");
}

#[test]
fn profile_to_settings_rejects_secured_wifi_without_password() {
    let profile = ConnectionProfile::Wifi(WifiProfile {
        ssid: "NewNet".into(),
        security: WifiSecurity::Wpa2,
        psk: String::new(),
        hidden: false,
        autoconnect: true,
        vpn_secondary: None,
        ipv4: Ipv4Profile::default(),
        ipv6: Ipv6Profile::default(),
    });
    assert!(profile_to_settings(&profile).is_err());
}

// ── further cases ────────────────────────────────────────────────────────────

#[test]
fn ip_method_names_round_trip() {
    for m in IpMethod::all() {
        assert_eq!(parse_ip_method(ip_method_to_nm(m)), m);
    }
    assert_eq!(parse_ip_method("link-local"), IpMethod::LinkLocal);
    assert_eq!(parse_ip_method("bogus"), IpMethod::Auto);
    assert_eq!(ip_method_to_nm(IpMethod::Disabled), "disabled");
}

#[test]
fn dotted_quad_reads_most_significant_octet_first() {
    assert_eq!(dotted_quad_string(0xc0a80101), "192.168.1.1");
    assert_eq!(dotted_quad_string(0x0101a8c0), "1.1.168.192");
    assert_eq!(dotted_quad_string(0), "0.0.0.0");
}

#[test]
fn apply_keeps_uuid_and_sets_name() {
    let raw = wifi_raw();
    let profile = parse_profile(&raw, None);
    let updated = apply_profile(&raw, &profile).unwrap();
    let conn = updated.get("connection").unwrap();
    let Some(SettingValue::Str(uuid)) = conn.get("uuid") else {
        panic!("uuid missing");
    };
    assert_eq!(uuid, "test-uuid");
}

#[test]
fn manual_ipv4_round_trip_keeps_prefix() {
    let raw = wifi_raw();
    let mut profile = parse_profile(&raw, None);
    let ConnectionProfile::Wifi(ref mut w) = profile else {
        panic!("expected wifi");
    };
    w.ipv4.method = IpMethod::Manual;
    w.ipv4.address = "192.168.7.2".into();
    w.ipv4.prefix = 16;
    let updated = apply_profile(&raw, &profile).unwrap();
    let ConnectionProfile::Wifi(w2) = parse_profile(&updated, None) else {
        panic!("expected wifi");
    };
    assert_eq!(w2.ipv4.prefix, 16);
    assert_eq!(w2.ipv4.gateway, "");
}

#[test]
fn vpn_profile_round_trip() {
    let mut settings = StrMap::new();
    settings.insert(
        "connection".to_string(),
        section(vec![
            ("type", str_value("vpn")),
            ("id", str_value("Work")),
        ]),
    );
    settings.insert(
        "vpn".to_string(),
        section(vec![("service-type", str_value("org.freedesktop.NetworkManager.openvpn"))]),
    );
    let profile = ConnectionProfile::Vpn(VpnProfile {
        name: "Office VPN".into(),
        service_type: "org.freedesktop.NetworkManager.openvpn".into(),
        ..VpnProfile::default()
    });
    let updated = apply_profile(&settings, &profile).unwrap();
    let ConnectionProfile::Vpn(v) = parse_profile(&updated, None) else {
        panic!("expected vpn");
    };
    assert_eq!(v.name, "Office VPN");
    assert_eq!(v.protocol, "udp");
}

#[test]
fn new_profile_error_messages() {
    let profile = ConnectionProfile::Wifi(WifiProfile {
        ssid: String::new(),
        security: WifiSecurity::Open,
        psk: String::new(),
        hidden: false,
        autoconnect: true,
        vpn_secondary: None,
        ipv4: Ipv4Profile::default(),
        ipv6: Ipv6Profile::default(),
    });
    match profile_to_settings(&profile) {
        Err(Error::OperationFailed(msg)) => assert!(!msg.is_empty()),
        other => panic!("unexpected result {other:?}"),
    }
}

#[test]
fn new_wifi_profile_gets_fresh_uuid() {
    let profile = ConnectionProfile::Wifi(WifiProfile {
        ssid: "Fresh".into(),
        security: WifiSecurity::Open,
        psk: String::new(),
        hidden: true,
        autoconnect: true,
        vpn_secondary: None,
        ipv4: Ipv4Profile::default(),
        ipv6: Ipv6Profile::default(),
    });
    let settings = profile_to_settings(&profile).unwrap();
    let Some(SettingValue::Str(uuid)) = settings.get("connection").unwrap().get("uuid") else {
        panic!("uuid missing");
    };
    assert_eq!(uuid.len(), 36);
    assert_eq!(uuid.chars().filter(|c| *c == '-').count(), 4);
}

fn failure(r: Result<NmSettings, Error>) -> String {
    match r {
        Err(Error::OperationFailed(msg)) => msg,
        other => panic!("expected a failure, got {other:?}"),
    }
}

#[test]
fn apply_profile_error_cases() {
    let wired = wired_raw(StrMap::new());
    let bad_mtu = ConnectionProfile::Ethernet(EthernetProfile {
        name: "Wired".into(),
        autoconnect: true,
        vpn_secondary: None,
        ipv4: Ipv4Profile::default(),
        ipv6: Ipv6Profile::default(),
        mtu: "big".into(),
        cloned_mac: String::new(),
    });
    assert_eq!(failure(apply_profile(&wired, &bad_mtu)), "MTU must be a number");

    let unsupported = ConnectionProfile::Unsupported {
        id: "lo".into(),
        conn_type: "loopback".into(),
    };
    assert_eq!(
        failure(apply_profile(&wired, &unsupported)),
        "this connection type cannot be edited"
    );

    let raw = wifi_raw();
    let ConnectionProfile::Wifi(mut enterprise) = parse_profile(&raw, None) else {
        panic!("expected wifi");
    };
    enterprise.security = WifiSecurity::Enterprise;
    let msg = failure(apply_profile(&raw, &ConnectionProfile::Wifi(enterprise)));
    assert!(!msg.is_empty());
    let ConnectionProfile::Wifi(mut w) = parse_profile(&raw, None) else {
        panic!("expected wifi");
    };
    w.ipv4.method = IpMethod::Manual;
    w.ipv4.address = "   ".into();
    assert_eq!(
        failure(apply_profile(&raw, &ConnectionProfile::Wifi(w))),
        "Address is required for manual IPv4"
    );
}

#[test]
fn open_wifi_drops_security_sections() {
    let raw = wifi_raw();
    let ConnectionProfile::Wifi(mut w) = parse_profile(&raw, None) else {
        panic!("expected wifi");
    };
    w.security = WifiSecurity::Open;
    let updated = apply_profile(&raw, &ConnectionProfile::Wifi(w)).unwrap();
    assert!(!updated.contains_key("802-11-wireless-security"));
    let ConnectionProfile::Wifi(back) = parse_profile(&updated, None) else {
        panic!("expected wifi");
    };
    assert_eq!(back.security, WifiSecurity::Open);
    assert_eq!(back.psk, "");
}

#[test]
fn new_wifi_connection_reads_back() {
    let s = wifi_connection_settings("Café", WifiSecurity::Wpa, Some("pw"), true).unwrap();
    let ConnectionProfile::Wifi(w) = parse_profile(&s, None) else {
        panic!("expected wifi");
    };
    assert_eq!(w.ssid, "Café");
    assert_eq!(w.security, WifiSecurity::Wpa2);
    assert_eq!(w.psk, "pw");
    assert!(w.hidden);
    assert!(w.autoconnect);
    assert_eq!(w.vpn_secondary, None);
}
