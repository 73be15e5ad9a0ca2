use netman::config::config_path;
use netman::nm::modem::{no_locked_modem, pin_step, PinProbe, PinStep};
use netman::connection::ConnectionKind;
use netman::nm::order::{kind_order, sort_connections};
use netman::connection::{AccessTechnology, ConnectionStatus, WifiSecurity};
use netman::error::Error;
use netman::nm::client::{connection_from_settings, status_from_active_state};
use netman::nm::dict::{NmSettings, SettingValue, StrMap};
use netman::nm::modem::{
    build_modem_info, caps_to_access_technology, is_sim_pin_locked, mm_access_technology,
    modem_live_data, ModemManagerReadings, MM_ACCESS_TECH_5GNR, MM_ACCESS_TECH_GSM,
    MM_ACCESS_TECH_LTE, MM_ACCESS_TECH_UMTS, NM_MODEM_CAP_5GNR, NM_MODEM_CAP_LTE,
};
use netman::nm::numbers::{decimal_string, parse_u32};
use netman::nm::wifi_settings::wifi_connection_settings;

fn key_mgmt(settings: &NmSettings) -> Option<String> {
    let sec = settings.get("802-11-wireless-security")?;
    match sec.get("key-mgmt") {
        Some(SettingValue::Str(s)) => Some(s.clone()),
        _ => None,
    }
}

#[test]
fn mm_access_technology_maps_5g() {
    assert_eq!(mm_access_technology(MM_ACCESS_TECH_5GNR), AccessTechnology::Nr5G);
}

#[test]
fn mm_access_technology_maps_lte() {
    assert_eq!(mm_access_technology(MM_ACCESS_TECH_LTE), AccessTechnology::Lte);
}

#[test]
fn caps_to_access_technology_prefers_5g() {
    assert_eq!(
        caps_to_access_technology(NM_MODEM_CAP_5GNR | NM_MODEM_CAP_LTE),
        AccessTechnology::Nr5G
    );
}

#[test]
fn build_modem_info_reads_apn() {
    let mut gsm = StrMap::new();
    gsm.insert("apn".to_owned(), SettingValue::Str("internet".into()));
    let mut raw = StrMap::new();
    raw.insert("gsm".to_owned(), gsm);

    let info = build_modem_info(&raw);
    assert_eq!(info.apn.as_deref(), Some("internet"));
    assert!(!info.sim_locked);
}

#[test]
fn open_network_has_no_security_section() {
    let settings = wifi_connection_settings("Cafe", WifiSecurity::Open, None, false).unwrap();
    assert!(settings.contains_key("connection"));
    assert!(settings.contains_key("802-11-wireless"));
    assert!(!settings.contains_key("802-11-wireless-security"));
}

#[test]
fn wpa2_network_requires_password() {
    assert!(wifi_connection_settings("Home", WifiSecurity::Wpa2, None, false).is_err());
    assert!(wifi_connection_settings("Home", WifiSecurity::Wpa2, Some(""), false).is_err());
}

#[test]
fn wpa2_network_includes_psk() {
    let settings =
        wifi_connection_settings("Home", WifiSecurity::Wpa2, Some("secret"), false).unwrap();
    assert_eq!(key_mgmt(&settings).as_deref(), Some("wpa-psk"));
    let sec = settings.get("802-11-wireless-security").unwrap();
    let Some(SettingValue::Str(psk)) = sec.get("psk") else {
        panic!("psk missing");
    };
    assert_eq!(psk, "secret");
}

#[test]
fn wpa3_uses_sae_key_mgmt() {
    let settings =
        wifi_connection_settings("Home", WifiSecurity::Wpa3, Some("secret"), false).unwrap();
    assert_eq!(key_mgmt(&settings).as_deref(), Some("sae"));
}

#[test]
fn enterprise_is_rejected() {
    assert!(wifi_connection_settings("Corp", WifiSecurity::Enterprise, Some("x"), false).is_err());
}

// ── further cases ────────────────────────────────────────────────────────────

#[test]
fn wifi_settings_errors_name_the_problem() {
    let Err(Error::OperationFailed(msg)) =
        wifi_connection_settings("", WifiSecurity::Open, None, false)
    else {
        panic!("expected failure");
    };
    assert_eq!(msg, "SSID must not be empty");
    let Err(Error::OperationFailed(msg)) =
        wifi_connection_settings("Old", WifiSecurity::Wep, Some("k"), false)
    else {
        panic!("expected failure");
    };
    assert_eq!(msg, "WEP networks are not supported here");
}

#[test]
fn hidden_network_is_marked_hidden() {
    let settings = wifi_connection_settings("Secret", WifiSecurity::Open, None, true).unwrap();
    let wireless = settings.get("802-11-wireless").unwrap();
    assert!(matches!(wireless.get("hidden"), Some(SettingValue::Bool(true))));
    let Some(SettingValue::Bytes(ssid)) = wireless.get("ssid") else {
        panic!("ssid missing");
    };
    assert_eq!(ssid, b"Secret");
}

#[test]
fn new_wifi_settings_get_distinct_uuids() {
    let a = wifi_connection_settings("A", WifiSecurity::Open, None, false).unwrap();
    let b = wifi_connection_settings("A", WifiSecurity::Open, None, false).unwrap();
    let uuid = |s: &NmSettings| match s.get("connection").unwrap().get("uuid") {
        Some(SettingValue::Str(u)) => u.clone(),
        _ => panic!("uuid missing"),
    };
    assert_eq!(uuid(&a).len(), 36);
    assert_ne!(uuid(&a), uuid(&b));
}

#[test]
fn access_technology_codes() {
    assert_eq!(mm_access_technology(MM_ACCESS_TECH_GSM), AccessTechnology::Gsm);
    assert_eq!(mm_access_technology(MM_ACCESS_TECH_UMTS), AccessTechnology::Umts);
    assert_eq!(mm_access_technology(0), AccessTechnology::Unknown);
    assert_eq!(caps_to_access_technology(NM_MODEM_CAP_LTE), AccessTechnology::Lte);
    assert_eq!(caps_to_access_technology(0), AccessTechnology::Unknown);
    assert!(is_sim_pin_locked(2));
    assert!(!is_sim_pin_locked(1));
}

#[test]
fn modem_live_data_clamps_signal_and_reads_lock() {
    let live = modem_live_data(
        "wwan0".into(),
        Some(String::new()),
        Some("internet".into()),
        NM_MODEM_CAP_LTE,
        Some(ModemManagerReadings {
            signal_quality: Some(140),
            unlock_required: 2,
            access_technologies: None,
            operator_name: Some("Carrier".into()),
        }),
    );
    assert_eq!(live.signal_quality, 100);
    assert!(live.sim_locked);
    assert_eq!(live.access_technology, AccessTechnology::Lte);
    assert_eq!(live.operator_code, None);
    assert_eq!(live.apn.as_deref(), Some("internet"));
}

#[test]
fn numbers_print_and_parse() {
    assert_eq!(decimal_string(0), "0");
    assert_eq!(decimal_string(4294967295), "4294967295");
    assert_eq!(parse_u32("1500"), Some(1500));
    assert_eq!(parse_u32("+7"), Some(7));
    assert_eq!(parse_u32("4294967296"), None);
    assert_eq!(parse_u32(""), None);
    assert_eq!(parse_u32("12a"), None);
}

#[test]
fn active_state_codes() {
    assert_eq!(status_from_active_state(2), ConnectionStatus::Active);
    assert_eq!(status_from_active_state(1), ConnectionStatus::Activating);
    assert_eq!(status_from_active_state(3), ConnectionStatus::Deactivating);
    assert_eq!(status_from_active_state(77), ConnectionStatus::Unknown);
}

#[test]
fn saved_profile_becomes_list_entry() {
    let mut connection = StrMap::new();
    connection.insert("type".to_string(), SettingValue::Str("vpn".into()));
    connection.insert("id".to_string(), SettingValue::Str("Work".into()));
    let mut vpn = StrMap::new();
    vpn.insert("service-type".to_string(), SettingValue::Str("org.x.openvpn".into()));
    let mut raw = StrMap::new();
    raw.insert("connection".to_string(), connection);
    raw.insert("vpn".to_string(), vpn);
    let c = connection_from_settings(&raw, ConnectionStatus::Inactive, None, None, None);
    assert_eq!(c.id, "Work");
    assert_eq!(c.uuid, "");
    assert!(c.saved);
    assert_eq!(c.kind.type_label(), "VPN");
}

fn plain(id: &str, uuid: &str, kind: netman::connection::ConnectionKind, active: bool) -> netman::connection::Connection {
    netman::connection::Connection {
        id: id.into(),
        uuid: uuid.into(),
        kind,
        status: if active { ConnectionStatus::Active } else { ConnectionStatus::Inactive },
        ip4: None,
        ip6: None,
        device: None,
        saved: true,
    }
}

#[test]
fn sort_puts_active_first_then_kind_then_label_and_is_stable() {
    let sorted = sort_connections(vec![
        plain("b-eth", "1", ConnectionKind::Ethernet, false),
        plain("a-eth", "2", ConnectionKind::Ethernet, false),
        plain("z-lo", "3", ConnectionKind::Loopback, true),
        plain("same", "4", ConnectionKind::Ethernet, false),
        plain("same", "5", ConnectionKind::Ethernet, false),
    ]);
    let uuids: Vec<&str> = sorted.iter().map(|c| c.uuid.as_str()).collect();
    assert_eq!(uuids, vec!["3", "2", "1", "4", "5"]);
    assert_eq!(kind_order(&ConnectionKind::Loopback), 3);
    assert_eq!(kind_order(&ConnectionKind::Other("x".into())), 4);
}

#[test]
fn pin_search_steps() {
    use_pin_steps();
}

fn probe(t: u32, id: Option<&str>, unlock: Option<u32>, sim: Option<&str>) -> PinProbe {
    PinProbe {
        device_type: t,
        device_id: id.map(|s| s.to_string()),
        unlock_required: unlock,
        sim_path: sim.map(|s| s.to_string()),
    }
}

fn use_pin_steps() {
    assert!(matches!(pin_step(&probe(2, None, None, None)), PinStep::NextDevice));
    assert!(matches!(pin_step(&probe(8, None, None, None)), PinStep::ReadDeviceId));
    assert!(matches!(pin_step(&probe(8, Some(""), None, None)), PinStep::NextDevice));
    assert!(matches!(pin_step(&probe(8, Some("/m/0"), None, None)), PinStep::ReadUnlock));
    assert!(matches!(pin_step(&probe(8, Some("/m/0"), Some(1), None)), PinStep::NextDevice));
    assert!(matches!(pin_step(&probe(8, Some("/m/0"), Some(2), None)), PinStep::ReadSim));
    assert!(matches!(
        pin_step(&probe(8, Some("/m/0"), Some(2), Some("/"))),
        PinStep::Fail(Error::OperationFailed(m)) if m == "no SIM present"
    ));
    assert!(matches!(pin_step(&probe(8, Some("/m/0"), Some(2), Some("/s/0"))), PinStep::SendPin));
    assert!(matches!(no_locked_modem(), Error::DeviceNotFound(m) if m == "locked modem"));
}

#[test]
fn config_file_location() {
    assert_eq!(config_path(Some("/etc/x.toml".into()), Some("/c".into()), None).as_deref(), Some("/etc/x.toml"));
    assert_eq!(config_path(None, Some("/c".into()), Some("/h".into())).as_deref(), Some("/c/netman/config.toml"));
    assert_eq!(config_path(None, Some("/c/".into()), None).as_deref(), Some("/c/netman/config.toml"));
    assert_eq!(config_path(None, None, Some("/home/u".into())).as_deref(), Some("/home/u/.config/netman/config.toml"));
    assert_eq!(config_path(None, None, None), None);
}
