use netman::vpn_plugins::{
    humanize_plugin_name, parse_import_uuid, parse_name_file_content, sort_and_dedup_plugins,
    VpnPluginInfo,
};

#[test]
fn parse_import_uuid_from_nmcli_output() {
    let stdout =
        "Connection 'Work VPN' (65d9e7f2-3c1a-4b2e-9f0a-1234567890ab) successfully added.\n";
    assert_eq!(
        parse_import_uuid(stdout),
        Some("65d9e7f2-3c1a-4b2e-9f0a-1234567890ab".into())
    );
}

#[test]
fn list_plugins_from_temp_dir() {
    let content = "[VPN Connection]\nname=openvpn\nservice=org.freedesktop.NetworkManager.openvpn\n\n";
    let plugin = parse_name_file_content(content).unwrap();
    assert_eq!(plugin.name, "openvpn");
    assert_eq!(plugin.service_type, "org.freedesktop.NetworkManager.openvpn");
    assert_eq!(plugin.label, "OpenVPN");
}

#[test]
fn name_file_needs_name_and_service() {
    assert!(parse_name_file_content("[VPN Connection]\nname=x\n").is_none());
    assert!(parse_name_file_content("# comment\nservice=a.b\n").is_none());
    let p = parse_name_file_content("  name = vpnc \n#x\nservice=org.x.vpnc\n").unwrap();
    assert_eq!(p.name, "vpnc");
    assert_eq!(p.label, "VPNC");
}

#[test]
fn plugin_labels() {
    assert_eq!(humanize_plugin_name("openvpn"), "OpenVPN");
    assert_eq!(humanize_plugin_name("wireguard"), "WireGuard");
    assert_eq!(humanize_plugin_name("fortisslvpn"), "Fortinet SSL VPN");
    assert_eq!(humanize_plugin_name("strongswan"), "Strongswan");
    assert_eq!(humanize_plugin_name(""), "VPN");
}

#[test]
fn import_uuid_needs_parentheses() {
    assert_eq!(parse_import_uuid("no uuid here"), None);
    assert_eq!(parse_import_uuid("broken (abc"), None);
    assert_eq!(parse_import_uuid("x () y"), None);
}

fn plugin(name: &str, service: &str) -> VpnPluginInfo {
    VpnPluginInfo {
        name: name.into(),
        service_type: service.into(),
        label: humanize_plugin_name(name),
    }
}

#[test]
fn plugins_sorted_by_label_without_duplicate_services() {
    let out = sort_and_dedup_plugins(vec![
        plugin("wireguard", "s.wg"),
        plugin("openvpn", "s.ovpn"),
        plugin("openvpn", "s.ovpn"),
    ]);
    let labels: Vec<&str> = out.iter().map(|p| p.label.as_str()).collect();
    assert_eq!(labels, vec!["OpenVPN", "WireGuard"]);
}

#[test]
fn dedup_keeps_first_plugin_of_each_service() {
    let mut a = plugin("a", "x");
    a.label = "A".into();
    let mut b = plugin("b", "y");
    b.label = "B".into();
    let mut c = plugin("c", "x");
    c.label = "C".into();
    let out = sort_and_dedup_plugins(vec![c, b, a]);
    let labels: Vec<&str> = out.iter().map(|p| p.label.as_str()).collect();
    assert_eq!(labels, vec!["A", "B"]);
}

#[test]
fn unknown_names_capitalise_ascii_first_letter() {
    assert_eq!(humanize_plugin_name("strongswan"), "Strongswan");
    assert_eq!(humanize_plugin_name("1vpn"), "1vpn");
}
