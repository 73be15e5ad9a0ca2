//! Parse and serialize NetworkManager connection profile settings.

use vstd::prelude::*;
use crate::connection::profile::{
    ConnectionProfile, ConnectionProfileView, EthernetProfile, EthernetProfileView, IpMethod,
    IpProfileView, Ipv4Profile, Ipv6Profile, VpnProfile, VpnProfileView, WifiProfile,
    WifiProfileView, opt_view, vpn_profile_default,
};
use crate::connection::WifiSecurity;
use crate::error::Error;
use crate::nm::dict::{
    FieldValue, FieldValueView, NmSettings, Record, Section, SectionView, SettingValue,
    SettingValueView, SettingsView, StrMap,
};
use crate::nm::numbers::{decimal, decimal_string, parse_u32, parse_u32_spec};
use crate::text::{own, str_eq, string_from_utf8, trim, trim_str, is_blank, concat2};
use crate::nm::dict::Duplicate;

verus! {

// ── Reading values (specification) ───────────────────────────────────────────

/// The section `name` of `s`, or an empty section.
pub open spec fn section_or_empty(s: SettingsView, name: Seq<char>) -> SectionView {
    if s.contains_key(name) { s[name] } else { Map::empty() }
}

/// The string stored under `key`, if that value is a string.
pub open spec fn sec_str(sec: SectionView, key: Seq<char>) -> Option<Seq<char>> {
    if sec.contains_key(key) {
        match sec[key] {
            SettingValueView::Str(s) => Some(s),
            _ => None,
        }
    } else {
        None
    }
}

pub open spec fn sec_bool(sec: SectionView, key: Seq<char>) -> Option<bool> {
    if sec.contains_key(key) {
        match sec[key] {
            SettingValueView::Bool(b) => Some(b),
            _ => None,
        }
    } else {
        None
    }
}

pub open spec fn sec_u32(sec: SectionView, key: Seq<char>) -> Option<u32> {
    if sec.contains_key(key) {
        match sec[key] {
            SettingValueView::U32(n) => Some(n),
            _ => None,
        }
    } else {
        None
    }
}

/// The string at `section.key` of the settings.
pub open spec fn str_field(raw: SettingsView, section: Seq<char>, key: Seq<char>) -> Option<
    Seq<char>,
> {
    sec_str(section_or_empty(raw, section), key)
}

pub open spec fn or_else(o: Option<Seq<char>>, d: Seq<char>) -> Seq<char> {
    match o {
        Some(s) => s,
        None => d,
    }
}

pub open spec fn rec_str(r: Map<Seq<char>, FieldValueView>, key: Seq<char>) -> Option<Seq<char>> {
    if r.contains_key(key) {
        match r[key] {
            FieldValueView::Str(s) => Some(s),
            _ => None,
        }
    } else {
        None
    }
}

pub open spec fn rec_u32(r: Map<Seq<char>, FieldValueView>, key: Seq<char>) -> Option<u32> {
    if r.contains_key(key) {
        match r[key] {
            FieldValueView::U32(n) => Some(n),
            _ => None,
        }
    } else {
        None
    }
}

/// First entry of `address-data` with an address: the address and its prefix.
pub open spec fn address_data_of(sec: SectionView, default_prefix: u32) -> Option<(Seq<char>, u32)> {
    if sec.contains_key("address-data"@) {
        match sec["address-data"@] {
            SettingValueView::Records(l) => if l.len() > 0 {
                match rec_str(l[0], "address"@) {
                    Some(a) => Some(
                        (
                            a,
                            match rec_u32(l[0], "prefix"@) {
                                Some(p) => p,
                                None => default_prefix,
                            },
                        ),
                    ),
                    None => None,
                }
            } else {
                None
            },
            _ => None,
        }
    } else {
        None
    }
}

/// First pair of the legacy `addresses` list.
pub open spec fn legacy_address_of(sec: SectionView) -> Option<(Seq<char>, u32)> {
    if sec.contains_key("addresses"@) {
        match sec["addresses"@] {
            SettingValueView::AddressPairs(l) => if l.len() > 0 {
                Some(l[0])
            } else {
                None
            },
            _ => None,
        }
    } else {
        None
    }
}

/// Address of the first entry of `dns-data`.
pub open spec fn dns_data_of(sec: SectionView) -> Option<Seq<char>> {
    if sec.contains_key("dns-data"@) {
        match sec["dns-data"@] {
            SettingValueView::Records(l) => if l.len() > 0 {
                rec_str(l[0], "address"@)
            } else {
                None
            },
            _ => None,
        }
    } else {
        None
    }
}

/// Dotted-quad rendering of an address whose bytes, most significant first,
/// are the four octets.
pub open spec fn dotted_quad(v: u32) -> Seq<char> {
    decimal(v as nat / 16777216) + "."@ + decimal((v as nat / 65536) % 256) + "."@ + decimal(
        (v as nat / 256) % 256,
    ) + "."@ + decimal(v as nat % 256)
}

/// First address of the legacy `dns` list.
pub open spec fn legacy_dns_of(sec: SectionView) -> Option<Seq<char>> {
    if sec.contains_key("dns"@) {
        match sec["dns"@] {
            SettingValueView::U32List(l) => if l.len() > 0 {
                Some(dotted_quad(l[0]))
            } else {
                None
            },
            _ => None,
        }
    } else {
        None
    }
}

/// NM method name to method; unknown names read as automatic.
pub open spec fn ip_method_of(m: Seq<char>) -> IpMethod {
    if m == "manual"@ {
        IpMethod::Manual
    } else if m == "disabled"@ {
        IpMethod::Disabled
    } else if m == "shared"@ {
        IpMethod::Shared
    } else if m == "link-local"@ {
        IpMethod::LinkLocal
    } else {
        IpMethod::Auto
    }
}

/// Method to NM method name.
pub open spec fn ip_method_name(m: IpMethod) -> Seq<char> {
    match m {
        IpMethod::Auto => "auto"@,
        IpMethod::Manual => "manual"@,
        IpMethod::Disabled => "disabled"@,
        IpMethod::Shared => "shared"@,
        IpMethod::LinkLocal => "link-local"@,
    }
}

/// The IP profile read from section `name` of the settings.
pub open spec fn ip_profile_of(raw: SettingsView, name: Seq<char>, default_prefix: u32) -> IpProfileView {
    let sec = section_or_empty(raw, name);
    let addr = match address_data_of(sec, default_prefix) {
        Some(a) => Some(a),
        None => legacy_address_of(sec),
    };
    IpProfileView {
        method: match sec_str(sec, "method"@) {
            Some(m) => ip_method_of(m),
            None => IpMethod::Auto,
        },
        address: match addr {
            Some(a) => a.0,
            None => Seq::empty(),
        },
        prefix: match addr {
            Some(a) => a.1,
            None => default_prefix,
        },
        gateway: or_else(sec_str(sec, "gateway"@), Seq::empty()),
        dns: match dns_data_of(sec) {
            Some(d) => d,
            None => or_else(legacy_dns_of(sec), Seq::empty()),
        },
    }
}

/// Security mode detected from the security sections of the settings.
pub open spec fn security_of(raw: SettingsView) -> WifiSecurity {
    if raw.contains_key("802-1x"@) {
        WifiSecurity::Enterprise
    } else {
        match str_field(raw, "802-11-wireless-security"@, "key-mgmt"@) {
            Some(k) => if k == "wpa-psk"@ {
                WifiSecurity::Wpa2
            } else if k == "sae"@ {
                WifiSecurity::Wpa3
            } else if k == "wpa-eap"@ {
                WifiSecurity::Enterprise
            } else if k == "none"@ || k == "ieee8021x"@ {
                WifiSecurity::Wep
            } else {
                WifiSecurity::Open
            },
            None => WifiSecurity::Open,
        }
    }
}

/// SSID stored as bytes in the wireless section, if they are valid UTF-8.
pub open spec fn ssid_of(raw: SettingsView) -> Seq<char> {
    let sec = section_or_empty(raw, "802-11-wireless"@);
    if sec.contains_key("ssid"@) {
        match sec["ssid"@] {
            SettingValueView::Bytes(b) => if vstd::utf8::valid_utf8(b) {
                vstd::utf8::decode_utf8(b)
            } else {
                Seq::empty()
            },
            _ => Seq::empty(),
        }
    } else {
        Seq::empty()
    }
}

/// `connection.autoconnect`, which defaults to on.
pub open spec fn autoconnect_of(raw: SettingsView) -> bool {
    match sec_bool(section_or_empty(raw, "connection"@), "autoconnect"@) {
        Some(b) => b,
        None => true,
    }
}

/// First entry of `connection.secondaries`.
pub open spec fn secondary_of(raw: SettingsView) -> Option<Seq<char>> {
    let sec = section_or_empty(raw, "connection"@);
    if sec.contains_key("secondaries"@) {
        match sec["secondaries"@] {
            SettingValueView::StrList(l) => if l.len() > 0 {
                Some(l[0])
            } else {
                None
            },
            _ => None,
        }
    } else {
        None
    }
}

/// The connection's display name, `Unknown` when absent.
pub open spec fn id_of(raw: SettingsView) -> Seq<char> {
    or_else(str_field(raw, "connection"@, "id"@), "Unknown"@)
}

/// The pre-shared key: from the secrets when they hold one, else from the settings.
pub open spec fn psk_of(raw: SettingsView, secrets: Option<SettingsView>) -> Seq<char> {
    let from_secrets = match secrets {
        Some(s) => str_field(s, "802-11-wireless-security"@, "psk"@),
        None => None,
    };
    match from_secrets {
        Some(p) => p,
        None => or_else(str_field(raw, "802-11-wireless-security"@, "psk"@), Seq::empty()),
    }
}

pub open spec fn wifi_profile_of(raw: SettingsView, secrets: Option<SettingsView>) -> WifiProfileView {
    WifiProfileView {
        ssid: ssid_of(raw),
        security: security_of(raw),
        psk: psk_of(raw, secrets),
        hidden: match sec_bool(section_or_empty(raw, "802-11-wireless"@), "hidden"@) {
            Some(b) => b,
            None => false,
        },
        autoconnect: autoconnect_of(raw),
        vpn_secondary: secondary_of(raw),
        ipv4: ip_profile_of(raw, "ipv4"@, 24),
        ipv6: ip_profile_of(raw, "ipv6"@, 64),
    }
}

pub open spec fn ethernet_profile_of(raw: SettingsView) -> EthernetProfileView {
    let eth = section_or_empty(raw, "802-3-ethernet"@);
    EthernetProfileView {
        name: id_of(raw),
        autoconnect: autoconnect_of(raw),
        vpn_secondary: secondary_of(raw),
        ipv4: ip_profile_of(raw, "ipv4"@, 24),
        ipv6: ip_profile_of(raw, "ipv6"@, 64),
        mtu: match sec_u32(eth, "mtu"@) {
            Some(m) => decimal(m as nat),
            None => Seq::empty(),
        },
        cloned_mac: or_else(sec_str(eth, "cloned-mac-address"@), Seq::empty()),
    }
}

pub open spec fn vpn_profile_of(raw: SettingsView) -> VpnProfileView {
    VpnProfileView {
        name: id_of(raw),
        service_type: or_else(str_field(raw, "vpn"@, "service-type"@), Seq::empty()),
        ipv4: ip_profile_of(raw, "ipv4"@, 24),
        ipv6: ip_profile_of(raw, "ipv6"@, 64),
        ..vpn_profile_default()
    }
}

/// The editable profile described by the settings (and optional secrets).
pub open spec fn profile_of(raw: SettingsView, secrets: Option<SettingsView>) -> ConnectionProfileView {
    let t = or_else(str_field(raw, "connection"@, "type"@), Seq::empty());
    if t == "802-11-wireless"@ {
        ConnectionProfileView::Wifi(wifi_profile_of(raw, secrets))
    } else if t == "802-3-ethernet"@ {
        ConnectionProfileView::Ethernet(ethernet_profile_of(raw))
    } else if t == "vpn"@ {
        ConnectionProfileView::Vpn(vpn_profile_of(raw))
    } else {
        ConnectionProfileView::Unsupported { id: id_of(raw), conn_type: t }
    }
}

pub open spec fn opt_settings_view(o: Option<&NmSettings>) -> Option<SettingsView> {
    match o {
        Some(s) => Some(s@),
        None => None,
    }
}

// ── Reading values (code) ────────────────────────────────────────────────────

fn get_str_value(sec: &Section, key: &str) -> (r: Option<String>)
    ensures
        opt_view(r) == sec_str(sec@, key@),
{
    match sec.get(key) {
        Some(SettingValue::Str(s)) => Some(s.clone()),
        _ => None,
    }
}

fn get_bool_value(sec: &Section, key: &str) -> (r: Option<bool>)
    ensures
        r == sec_bool(sec@, key@),
{
    match sec.get(key) {
        Some(SettingValue::Bool(b)) => Some(*b),
        _ => None,
    }
}

fn get_u32_value(sec: &Section, key: &str) -> (r: Option<u32>)
    ensures
        r == sec_u32(sec@, key@),
{
    match sec.get(key) {
        Some(SettingValue::U32(n)) => Some(*n),
        _ => None,
    }
}

/// The string at `section.key`.
pub fn get_str_field(raw: &NmSettings, section: &str, key: &str) -> (r: Option<String>)
    ensures
        opt_view(r) == str_field(raw@, section@, key@),
{
    match raw.get(section) {
        Some(sec) => get_str_value(sec, key),
        None => None,
    }
}

fn unwrap_or_string(o: Option<String>, d: &str) -> (r: String)
    ensures
        r@ == or_else(opt_view(o), d@),
{
    match o {
        Some(s) => s,
        None => own(d),
    }
}

fn unwrap_or_empty(o: Option<String>) -> (r: String)
    ensures
        r@ == or_else(opt_view(o), Seq::empty()),
{
    match o {
        Some(s) => s,
        None => String::new(),
    }
}

fn record_str(r: &Record, key: &str) -> (out: Option<String>)
    ensures
        opt_view(out) == rec_str(r@, key@),
{
    match r.get(key) {
        Some(FieldValue::Str(s)) => Some(s.clone()),
        _ => None,
    }
}

fn record_u32(r: &Record, key: &str) -> (out: Option<u32>)
    ensures
        out == rec_u32(r@, key@),
{
    match r.get(key) {
        Some(FieldValue::U32(n)) => Some(*n),
        _ => None,
    }
}

pub open spec fn opt_pair_view(o: Option<(String, u32)>) -> Option<(Seq<char>, u32)> {
    match o {
        Some(p) => Some((p.0@, p.1)),
        None => None,
    }
}

fn get_address_data(sec: &Section, default_prefix: u32) -> (r: Option<(String, u32)>)
    ensures
        opt_pair_view(r) == address_data_of(sec@, default_prefix),
{
    match sec.get("address-data") {
        Some(SettingValue::Records(l)) => {
            if l.len() == 0 {
                return None;
            }
            let first = &l[0];
            assert(l@.map_values(|r: Record| r@)[0] == first@);
            match record_str(first, "address") {
                Some(a) => {
                    let p = match record_u32(first, "prefix") {
                        Some(p) => p,
                        None => default_prefix,
                    };
                    Some((a, p))
                },
                None => None,
            }
        },
        _ => None,
    }
}

fn get_legacy_address(sec: &Section) -> (r: Option<(String, u32)>)
    ensures
        opt_pair_view(r) == legacy_address_of(sec@),
{
    match sec.get("addresses") {
        Some(SettingValue::AddressPairs(l)) => {
            if l.len() == 0 {
                return None;
            }
            let a = l[0].0.clone();
            let p = l[0].1;
            Some((a, p))
        },
        _ => None,
    }
}

fn get_dns_data(sec: &Section) -> (r: Option<String>)
    ensures
        opt_view(r) == dns_data_of(sec@),
{
    match sec.get("dns-data") {
        Some(SettingValue::Records(l)) => {
            if l.len() == 0 {
                return None;
            }
            assert(l@.map_values(|r: Record| r@)[0] == l@[0]@);
            record_str(&l[0], "address")
        },
        _ => None,
    }
}

/// Dotted-quad rendering of a big-endian IPv4 address.
pub fn dotted_quad_string(v: u32) -> (r: String)
    ensures
        r@ == dotted_quad(v),
{
    let mut s = decimal_string(v / 16777216);
    s.append(".");
    s.append(decimal_string((v / 65536) % 256).as_str());
    s.append(".");
    s.append(decimal_string((v / 256) % 256).as_str());
    s.append(".");
    s.append(decimal_string(v % 256).as_str());
    s
}

fn get_legacy_dns(sec: &Section) -> (r: Option<String>)
    ensures
        opt_view(r) == legacy_dns_of(sec@),
{
    match sec.get("dns") {
        Some(SettingValue::U32List(l)) => {
            if l.len() == 0 {
                return None;
            }
            Some(dotted_quad_string(l[0]))
        },
        _ => None,
    }
}

/// Reads an NM method name.
pub fn parse_ip_method(raw: &str) -> (r: IpMethod)
    ensures
        r == ip_method_of(raw@),
{
    if str_eq(raw, "manual") {
        IpMethod::Manual
    } else if str_eq(raw, "disabled") {
        IpMethod::Disabled
    } else if str_eq(raw, "shared") {
        IpMethod::Shared
    } else if str_eq(raw, "link-local") {
        IpMethod::LinkLocal
    } else {
        IpMethod::Auto
    }
}

/// The NM method name of a method.
pub fn ip_method_to_nm(method: IpMethod) -> (r: &'static str)
    ensures
        r@ == ip_method_name(method),
{
    match method {
        IpMethod::Auto => "auto",
        IpMethod::Manual => "manual",
        IpMethod::Disabled => "disabled",
        IpMethod::Shared => "shared",
        IpMethod::LinkLocal => "link-local",
    }
}

/// Reads the address, prefix, gateway and DNS of one IP section.
fn parse_ip(raw: &NmSettings, name: &str, default_prefix: u32) -> (r: (IpMethod, String, u32, String, String))
    ensures
        ({
            let v = ip_profile_of(raw@, name@, default_prefix);
            r.0 == v.method && r.1@ == v.address && r.2 == v.prefix && r.3@ == v.gateway && r.4@
                == v.dns
        }),
{
    let empty = StrMap::new();
    let sec = match raw.get(name) {
        Some(s) => s,
        None => &empty,
    };
    assert(sec@ == section_or_empty(raw@, name@));
    let method = match get_str_value(sec, "method") {
        Some(m) => parse_ip_method(m.as_str()),
        None => IpMethod::Auto,
    };
    let addr = match get_address_data(sec, default_prefix) {
        Some(a) => Some(a),
        None => get_legacy_address(sec),
    };
    let (address, prefix) = match addr {
        Some(a) => a,
        None => (String::new(), default_prefix),
    };
    let gateway = unwrap_or_empty(get_str_value(sec, "gateway"));
    let dns = match get_dns_data(sec) {
        Some(d) => d,
        None => unwrap_or_empty(get_legacy_dns(sec)),
    };
    (method, address, prefix, gateway, dns)
}

fn parse_ipv4(raw: &NmSettings) -> (r: Ipv4Profile)
    ensures
        r@ == ip_profile_of(raw@, "ipv4"@, 24),
{
    let (method, address, prefix, gateway, dns) = parse_ip(raw, "ipv4", 24);
    Ipv4Profile { method, address, prefix, gateway, dns }
}

fn parse_ipv6(raw: &NmSettings) -> (r: Ipv6Profile)
    ensures
        r@ == ip_profile_of(raw@, "ipv6"@, 64),
{
    let (method, address, prefix, gateway, dns) = parse_ip(raw, "ipv6", 64);
    Ipv6Profile { method, address, prefix, gateway, dns }
}

/// Security mode detected from the security sections.
pub fn detect_wifi_security(raw: &NmSettings) -> (r: WifiSecurity)
    ensures
        r == security_of(raw@),
{
    if raw.contains_key("802-1x") {
        return WifiSecurity::Enterprise;
    }
    match get_str_field(raw, "802-11-wireless-security", "key-mgmt") {
        Some(k) => {
            let k = k.as_str();
            if str_eq(k, "wpa-psk") {
                WifiSecurity::Wpa2
            } else if str_eq(k, "sae") {
                WifiSecurity::Wpa3
            } else if str_eq(k, "wpa-eap") {
                WifiSecurity::Enterprise
            } else if str_eq(k, "none") || str_eq(k, "ieee8021x") {
                WifiSecurity::Wep
            } else {
                WifiSecurity::Open
            }
        },
        None => WifiSecurity::Open,
    }
}

/// The SSID of the wireless section, empty when absent or not UTF-8.
pub fn parse_ssid(raw: &NmSettings) -> (r: String)
    ensures
        r@ == ssid_of(raw@),
{
    let empty = StrMap::new();
    let sec = match raw.get("802-11-wireless") {
        Some(s) => s,
        None => &empty,
    };
    match sec.get("ssid") {
        Some(SettingValue::Bytes(b)) => match string_from_utf8(b.clone()) {
            Some(s) => s,
            None => String::new(),
        },
        _ => String::new(),
    }
}

fn parse_autoconnect(raw: &NmSettings) -> (r: bool)
    ensures
        r == autoconnect_of(raw@),
{
    match raw.get("connection") {
        Some(sec) => match get_bool_value(sec, "autoconnect") {
            Some(b) => b,
            None => true,
        },
        None => true,
    }
}

fn parse_secondary(raw: &NmSettings) -> (r: Option<String>)
    ensures
        opt_view(r) == secondary_of(raw@),
{
    match raw.get("connection") {
        Some(sec) => match sec.get("secondaries") {
            Some(SettingValue::StrList(l)) => {
                if l.len() == 0 {
                    None
                } else {
                    Some(l[0].clone())
                }
            },
            _ => None,
        },
        None => None,
    }
}

fn parse_wifi(raw: &NmSettings, secrets: Option<&NmSettings>) -> (r: WifiProfile)
    ensures
        r@ == wifi_profile_of(raw@, opt_settings_view(secrets)),
{
    let ssid = parse_ssid(raw);
    let hidden = match raw.get("802-11-wireless") {
        Some(sec) => match get_bool_value(sec, "hidden") {
            Some(b) => b,
            None => false,
        },
        None => false,
    };
    let security = detect_wifi_security(raw);
    let from_secrets = match secrets {
        Some(s) => get_str_field(s, "802-11-wireless-security", "psk"),
        None => None,
    };
    let psk = match from_secrets {
        Some(p) => p,
        None => unwrap_or_empty(get_str_field(raw, "802-11-wireless-security", "psk")),
    };
    WifiProfile {
        ssid,
        security,
        psk,
        hidden,
        autoconnect: parse_autoconnect(raw),
        vpn_secondary: parse_secondary(raw),
        ipv4: parse_ipv4(raw),
        ipv6: parse_ipv6(raw),
    }
}

fn parse_ethernet(raw: &NmSettings) -> (r: EthernetProfile)
    ensures
        r@ == ethernet_profile_of(raw@),
{
    let empty = StrMap::new();
    let eth = match raw.get("802-3-ethernet") {
        Some(s) => s,
        None => &empty,
    };
    let mtu = match get_u32_value(eth, "mtu") {
        Some(m) => decimal_string(m),
        None => String::new(),
    };
    let cloned_mac = unwrap_or_empty(get_str_value(eth, "cloned-mac-address"));
    EthernetProfile {
        name: unwrap_or_string(get_str_field(raw, "connection", "id"), "Unknown"),
        autoconnect: parse_autoconnect(raw),
        vpn_secondary: parse_secondary(raw),
        ipv4: parse_ipv4(raw),
        ipv6: parse_ipv6(raw),
        mtu,
        cloned_mac,
    }
}

fn parse_vpn(raw: &NmSettings) -> (r: VpnProfile)
    ensures
        r@ == vpn_profile_of(raw@),
{
    let mut p = VpnProfile::default();
    p.name = unwrap_or_string(get_str_field(raw, "connection", "id"), "Unknown");
    p.service_type = unwrap_or_empty(get_str_field(raw, "vpn", "service-type"));
    p.ipv4 = parse_ipv4(raw);
    p.ipv6 = parse_ipv6(raw);
    p
}

/// Parse a saved connection profile from NM settings (and optional secrets).
pub fn parse_profile(raw: &NmSettings, secrets: Option<&NmSettings>) -> (r: ConnectionProfile)
    ensures
        r@ == profile_of(raw@, opt_settings_view(secrets)),
{
    let conn_type = unwrap_or_empty(get_str_field(raw, "connection", "type"));
    let t = conn_type.as_str();
    if str_eq(t, "802-11-wireless") {
        ConnectionProfile::Wifi(parse_wifi(raw, secrets))
    } else if str_eq(t, "802-3-ethernet") {
        ConnectionProfile::Ethernet(parse_ethernet(raw))
    } else if str_eq(t, "vpn") {
        ConnectionProfile::Vpn(parse_vpn(raw))
    } else {
        let id = unwrap_or_string(get_str_field(raw, "connection", "id"), "Unknown");
        ConnectionProfile::Unsupported { id, conn_type }
    }
}


// ── Writing values (specification) ───────────────────────────────────────────

/// `section.key` set to `v` (the section is created when absent).
pub open spec fn with_value(s: SettingsView, section: Seq<char>, key: Seq<char>, v: SettingValueView) -> SettingsView {
    s.insert(section, section_or_empty(s, section).insert(key, v))
}

/// One `address-data` entry.
pub open spec fn address_record(address: Seq<char>, prefix: u32) -> Map<Seq<char>, FieldValueView> {
    Map::empty().insert("address"@, FieldValueView::Str(address)).insert(
        "prefix"@,
        FieldValueView::U32(prefix),
    )
}

/// One `dns-data` entry.
pub open spec fn dns_record(address: Seq<char>) -> Map<Seq<char>, FieldValueView> {
    Map::empty().insert("address"@, FieldValueView::Str(address))
}

/// The IPv4 section written from an IPv4 profile.
pub open spec fn ipv4_section(sec0: SectionView, ip: IpProfileView) -> SectionView {
    let sec1 = sec0.insert("method"@, SettingValueView::Str(ip_method_name(ip.method)));
    if ip.method == IpMethod::Manual {
        let prefix = if ip.prefix == 0 { 24u32 } else { ip.prefix };
        let sec2 = sec1.insert(
            "address-data"@,
            SettingValueView::Records(seq![address_record(ip.address, prefix)]),
        ).remove("addresses"@);
        let sec3 = if trim(ip.gateway).len() > 0 {
            sec2.insert("gateway"@, SettingValueView::Str(trim(ip.gateway)))
        } else {
            sec2.remove("gateway"@)
        };
        if trim(ip.dns).len() > 0 {
            sec3.insert("dns-data"@, SettingValueView::Records(seq![dns_record(ip.dns)])).remove(
                "dns"@,
            )
        } else {
            sec3.remove("dns-data"@).remove("dns"@)
        }
    } else {
        sec1.remove("address-data"@).remove("addresses"@).remove("gateway"@).remove(
            "dns-data"@,
        ).remove("dns"@)
    }
}

/// Writes an IPv4 profile; a manual method needs an address.
pub open spec fn apply_ipv4_spec(s: SettingsView, ip: IpProfileView) -> Result<SettingsView, Seq<char>> {
    if ip.method == IpMethod::Manual && trim(ip.address).len() == 0 {
        Err("Address is required for manual IPv4"@)
    } else {
        Ok(s.insert("ipv4"@, ipv4_section(section_or_empty(s, "ipv4"@), ip)))
    }
}

/// Writes `connection.autoconnect` and `connection.secondaries`.
pub open spec fn with_autoconnect(s: SettingsView, autoconnect: bool, secondary: Option<Seq<char>>) -> SettingsView {
    let c1 = section_or_empty(s, "connection"@).insert(
        "autoconnect"@,
        SettingValueView::Bool(autoconnect),
    );
    let c2 = match secondary {
        Some(u) => c1.insert("secondaries"@, SettingValueView::StrList(seq![u])),
        None => c1.remove("secondaries"@),
    };
    s.insert("connection"@, c2)
}

/// Writes `connection.id` when the name is not empty.
pub open spec fn with_id(s: SettingsView, name: Seq<char>) -> SettingsView {
    if name.len() > 0 {
        with_value(s, "connection"@, "id"@, SettingValueView::Str(name))
    } else {
        s
    }
}

/// The wireless section written from a Wi-Fi profile.
pub open spec fn wireless_section(sec0: SectionView, w: WifiProfileView) -> SectionView {
    let sec1 = sec0.insert("ssid"@, SettingValueView::Bytes(vstd::utf8::encode_utf8(w.ssid))).insert(
        "mode"@,
        SettingValueView::Str("infrastructure"@),
    );
    if w.hidden {
        sec1.insert("hidden"@, SettingValueView::Bool(true))
    } else {
        sec1.remove("hidden"@)
    }
}

/// The security section written from a secured Wi-Fi profile.
pub open spec fn security_section(sec0: SectionView, w: WifiProfileView) -> SectionView {
    let sec1 = match w.security {
        WifiSecurity::Wpa3 => sec0.insert("key-mgmt"@, SettingValueView::Str("sae"@)),
        WifiSecurity::Wpa | WifiSecurity::Wpa2 => sec0.insert(
            "key-mgmt"@,
            SettingValueView::Str("wpa-psk"@),
        ).insert("auth-alg"@, SettingValueView::Str("open"@)),
        _ => sec0,
    };
    if w.psk.len() > 0 {
        sec1.insert("psk"@, SettingValueView::Str(w.psk))
    } else {
        sec1
    }
}

/// Error text for a security mode this editor does not write.
pub open spec fn unsupported_security_text(sec: WifiSecurity) -> Seq<char> {
    sec.spec_label() + " networks cannot be edited here"@
}

pub open spec fn apply_wifi_spec(s: SettingsView, w: WifiProfileView) -> Result<SettingsView, Seq<char>> {
    if w.ssid.len() == 0 {
        Err("SSID must not be empty"@)
    } else if w.security == WifiSecurity::Enterprise || w.security == WifiSecurity::Wep {
        Err(unsupported_security_text(w.security))
    } else {
        let s1 = s.insert(
            "802-11-wireless"@,
            wireless_section(section_or_empty(s, "802-11-wireless"@), w),
        );
        let s2 = if w.security != WifiSecurity::Open {
            s1.insert(
                "802-11-wireless-security"@,
                security_section(section_or_empty(s1, "802-11-wireless-security"@), w),
            )
        } else {
            s1.remove("802-11-wireless-security"@).remove("802-1x"@)
        };
        apply_ipv4_spec(with_autoconnect(s2, w.autoconnect, w.vpn_secondary), w.ipv4)
    }
}

/// The Ethernet section written from an Ethernet profile, or the MTU error.
pub open spec fn ethernet_section(sec0: SectionView, e: EthernetProfileView) -> Option<SectionView> {
    let sec1 = if trim(e.mtu).len() == 0 {
        Some(sec0.remove("mtu"@))
    } else {
        match parse_u32_spec(trim(e.mtu)) {
            Some(m) => Some(sec0.insert("mtu"@, SettingValueView::U32(m))),
            None => None,
        }
    };
    match sec1 {
        Some(sec1) => Some(
            if trim(e.cloned_mac).len() == 0 {
                sec1.remove("cloned-mac-address"@)
            } else {
                sec1.insert("cloned-mac-address"@, SettingValueView::Str(trim(e.cloned_mac)))
            },
        ),
        None => None,
    }
}

pub open spec fn apply_ethernet_spec(s: SettingsView, e: EthernetProfileView) -> Result<SettingsView, Seq<char>> {
    match ethernet_section(section_or_empty(s, "802-3-ethernet"@), e) {
        None => Err("MTU must be a number"@),
        Some(eth) => {
            let s1 = s.insert("802-3-ethernet"@, eth);
            apply_ipv4_spec(with_autoconnect(with_id(s1, e.name), e.autoconnect, e.vpn_secondary), e.ipv4)
        },
    }
}

pub open spec fn apply_vpn_spec(s: SettingsView, v: VpnProfileView) -> Result<SettingsView, Seq<char>> {
    apply_ipv4_spec(with_id(s, v.name), v.ipv4)
}

/// The settings with the editable fields of `p` merged in, or the reason
/// they cannot be.
pub open spec fn apply_spec(raw: SettingsView, p: ConnectionProfileView) -> Result<SettingsView, Seq<char>> {
    match p {
        ConnectionProfileView::Wifi(w) => apply_wifi_spec(raw, w),
        ConnectionProfileView::Ethernet(e) => apply_ethernet_spec(raw, e),
        ConnectionProfileView::Vpn(v) => apply_vpn_spec(raw, v),
        ConnectionProfileView::Unsupported { .. } => Err("this connection type cannot be edited"@),
    }
}

/// `Ok` settings are related to `spec` by their view; an error is
/// `OperationFailed` with the text `spec` gives.
pub open spec fn settings_result_matches(
    r: Result<NmSettings, Error>,
    spec: Result<SettingsView, Seq<char>>,
) -> bool {
    match r {
        Ok(s) => spec == Ok::<SettingsView, Seq<char>>(s@),
        Err(e) => e is OperationFailed && spec == Err::<SettingsView, Seq<char>>(e.failure_text()),
    }
}

// ── Writing values (code) ────────────────────────────────────────────────────

fn str_value(s: &str) -> (r: SettingValue)
    ensures
        r@ == SettingValueView::Str(s@),
{
    SettingValue::Str(own(s))
}

fn failed(msg: &str) -> (e: Error)
    ensures
        e is OperationFailed,
        e.failure_text() == msg@,
{
    Error::OperationFailed(own(msg))
}

/// A copy of section `name`, or an empty section.
fn section_copy(s: &NmSettings, name: &str) -> (r: Section)
    ensures
        r@ == section_or_empty(s@, name@),
{
    match s.get(name) {
        Some(sec) => sec.duplicate(),
        None => StrMap::new(),
    }
}

fn apply_ipv4(settings: &mut NmSettings, ipv4: &Ipv4Profile) -> (r: Result<(), Error>)
    ensures
        match r {
            Ok(_) => apply_ipv4_spec(old(settings)@, ipv4@) == Ok::<SettingsView, Seq<char>>(
                final(settings)@,
            ),
            Err(e) => e is OperationFailed && apply_ipv4_spec(old(settings)@, ipv4@) == Err::<
                SettingsView,
                Seq<char>,
            >(e.failure_text()),
        },
{
    let ghost s0 = settings@;
    let mut section = section_copy(settings, "ipv4");
    let ghost sec0 = section@;
    section.insert(own("method"), str_value(ip_method_to_nm(ipv4.method)));
    if ipv4.method == IpMethod::Manual {
        if is_blank(ipv4.address.as_str()) {
            return Err(failed("Address is required for manual IPv4"));
        }
        let prefix: u32 = if ipv4.prefix == 0 { 24 } else { ipv4.prefix };
        let mut entry: Record = StrMap::new();
        entry.insert(own("address"), FieldValue::Str(ipv4.address.clone()));
        entry.insert(own("prefix"), FieldValue::U32(prefix));
        let records = vec![entry];
        assert(records@.map_values(|r: Record| r@) =~= seq![address_record(ipv4.address@, prefix)]);
        section.insert(own("address-data"), SettingValue::Records(records));
        section.remove("addresses");
        if !is_blank(ipv4.gateway.as_str()) {
            section.insert(own("gateway"), SettingValue::Str(trim_str(ipv4.gateway.as_str())));
        } else {
            section.remove("gateway");
        }
        if !is_blank(ipv4.dns.as_str()) {
            let mut dns_entry: Record = StrMap::new();
            dns_entry.insert(own("address"), FieldValue::Str(ipv4.dns.clone()));
            let dns_records = vec![dns_entry];
            assert(dns_records@.map_values(|r: Record| r@) =~= seq![dns_record(ipv4.dns@)]);
            section.insert(own("dns-data"), SettingValue::Records(dns_records));
            section.remove("dns");
        } else {
            section.remove("dns-data");
            section.remove("dns");
        }
    } else {
        section.remove("address-data");
        section.remove("addresses");
        section.remove("gateway");
        section.remove("dns-data");
        section.remove("dns");
    }
    assert(section@ == ipv4_section(sec0, ipv4@));
    settings.insert(own("ipv4"), section);
    Ok(())
}

fn set_autoconnect(settings: &mut NmSettings, autoconnect: bool, secondary: &Option<String>)
    ensures
        final(settings)@ == with_autoconnect(old(settings)@, autoconnect, opt_view(*secondary)),
{
    let mut conn = section_copy(settings, "connection");
    conn.insert(own("autoconnect"), SettingValue::Bool(autoconnect));
    match secondary {
        Some(u) => {
            let l = vec![u.clone()];
            assert(l@.map_values(|s: String| s@) =~= seq![u@]);
            conn.insert(own("secondaries"), SettingValue::StrList(l));
        },
        None => {
            conn.remove("secondaries");
        },
    }
    settings.insert(own("connection"), conn);
}

fn set_id(settings: &mut NmSettings, name: &String)
    ensures
        final(settings)@ == with_id(old(settings)@, name@),
{
    if name.as_str().is_empty() {
        return;
    }
    let mut conn = section_copy(settings, "connection");
    conn.insert(own("id"), SettingValue::Str(name.clone()));
    settings.insert(own("connection"), conn);
}

/// The UTF-8 bytes of a string.
fn utf8_bytes(s: &String) -> (r: Vec<u8>)
    ensures
        r@ == vstd::utf8::encode_utf8(s@),
{
    let b = s.as_str().as_bytes();
    vstd::slice::slice_to_vec(b)
}

fn apply_wifi(settings: &mut NmSettings, wifi: &WifiProfile) -> (r: Result<(), Error>)
    ensures
        match r {
            Ok(_) => apply_wifi_spec(old(settings)@, wifi@) == Ok::<SettingsView, Seq<char>>(
                final(settings)@,
            ),
            Err(e) => e is OperationFailed && apply_wifi_spec(old(settings)@, wifi@) == Err::<
                SettingsView,
                Seq<char>,
            >(e.failure_text()),
        },
{
    if wifi.ssid.as_str().is_empty() {
        return Err(failed("SSID must not be empty"));
    }
    if wifi.security == WifiSecurity::Enterprise || wifi.security == WifiSecurity::Wep {
        let msg = concat2(wifi.security.label(), " networks cannot be edited here");
        return Err(Error::OperationFailed(msg));
    }
    let mut wireless = section_copy(settings, "802-11-wireless");
    wireless.insert(own("ssid"), SettingValue::Bytes(utf8_bytes(&wifi.ssid)));
    wireless.insert(own("mode"), str_value("infrastructure"));
    if wifi.hidden {
        wireless.insert(own("hidden"), SettingValue::Bool(true));
    } else {
        wireless.remove("hidden");
    }
    settings.insert(own("802-11-wireless"), wireless);

    if wifi.security.is_secured() {
        let mut sec = section_copy(settings, "802-11-wireless-security");
        match wifi.security {
            WifiSecurity::Wpa3 => {
                sec.insert(own("key-mgmt"), str_value("sae"));
            },
            WifiSecurity::Wpa | WifiSecurity::Wpa2 => {
                sec.insert(own("key-mgmt"), str_value("wpa-psk"));
                sec.insert(own("auth-alg"), str_value("open"));
            },
            _ => {},
        }
        if !wifi.psk.as_str().is_empty() {
            sec.insert(own("psk"), SettingValue::Str(wifi.psk.clone()));
        }
        settings.insert(own("802-11-wireless-security"), sec);
    } else {
        settings.remove("802-11-wireless-security");
        settings.remove("802-1x");
    }

    set_autoconnect(settings, wifi.autoconnect, &wifi.vpn_secondary);
    apply_ipv4(settings, &wifi.ipv4)
}

fn apply_ethernet(settings: &mut NmSettings, eth: &EthernetProfile) -> (r: Result<(), Error>)
    ensures
        match r {
            Ok(_) => apply_ethernet_spec(old(settings)@, eth@) == Ok::<SettingsView, Seq<char>>(
                final(settings)@,
            ),
            Err(e) => e is OperationFailed && apply_ethernet_spec(old(settings)@, eth@) == Err::<
                SettingsView,
                Seq<char>,
            >(e.failure_text()),
        },
{
    let mut section = section_copy(settings, "802-3-ethernet");
    let ghost sec0 = section@;
    if is_blank(eth.mtu.as_str()) {
        section.remove("mtu");
    } else {
        let t = trim_str(eth.mtu.as_str());
        match parse_u32(t.as_str()) {
            Some(mtu) => {
                section.insert(own("mtu"), SettingValue::U32(mtu));
            },
            None => {
                return Err(failed("MTU must be a number"));
            },
        }
    }
    if is_blank(eth.cloned_mac.as_str()) {
        section.remove("cloned-mac-address");
    } else {
        section.insert(
            own("cloned-mac-address"),
            SettingValue::Str(trim_str(eth.cloned_mac.as_str())),
        );
    }
    assert(ethernet_section(sec0, eth@) == Some(section@));
    settings.insert(own("802-3-ethernet"), section);
    set_id(settings, &eth.name);
    set_autoconnect(settings, eth.autoconnect, &eth.vpn_secondary);
    apply_ipv4(settings, &eth.ipv4)
}

fn apply_vpn(settings: &mut NmSettings, vpn: &VpnProfile) -> (r: Result<(), Error>)
    ensures
        match r {
            Ok(_) => apply_vpn_spec(old(settings)@, vpn@) == Ok::<SettingsView, Seq<char>>(
                final(settings)@,
            ),
            Err(e) => e is OperationFailed && apply_vpn_spec(old(settings)@, vpn@) == Err::<
                SettingsView,
                Seq<char>,
            >(e.failure_text()),
        },
{
    set_id(settings, &vpn.name);
    apply_ipv4(settings, &vpn.ipv4)
}

/// Merge editable profile fields into an existing NM settings dict.
pub fn apply_profile(raw: &NmSettings, profile: &ConnectionProfile) -> (r: Result<NmSettings, Error>)
    ensures
        settings_result_matches(r, apply_spec(raw@, profile@)),
{
    let mut settings = raw.duplicate();
    let res = match profile {
        ConnectionProfile::Wifi(w) => apply_wifi(&mut settings, w),
        ConnectionProfile::Ethernet(e) => apply_ethernet(&mut settings, e),
        ConnectionProfile::Vpn(v) => apply_vpn(&mut settings, v),
        ConnectionProfile::Unsupported { .. } => {
            return Err(failed("this connection type cannot be edited"));
        },
    };
    match res {
        Ok(_) => Ok(settings),
        Err(e) => Err(e),
    }
}


// ── Round trip ───────────────────────────────────────────────────────────────

/// What reading back an IPv4 section written from `ip` gives: a manual
/// configuration keeps its address, its prefix (0 meaning 24), its trimmed
/// gateway and its DNS server when that is not blank; any other method keeps
/// only the method.
pub open spec fn ip_saved(ip: IpProfileView) -> IpProfileView {
    if ip.method == IpMethod::Manual {
        IpProfileView {
            method: IpMethod::Manual,
            address: ip.address,
            prefix: if ip.prefix == 0 { 24u32 } else { ip.prefix },
            gateway: trim(ip.gateway),
            dns: if trim(ip.dns).len() > 0 { ip.dns } else { Seq::empty() },
        }
    } else {
        IpProfileView { method: ip.method, ..ip_profile_default_view(24) }
    }
}

pub open spec fn ip_profile_default_view(prefix: u32) -> IpProfileView {
    crate::connection::profile::ip_profile_default(prefix)
}

/// The Wi-Fi profile read back after saving `w` over `raw`: an empty key
/// keeps the stored one, an open network has none, IPv6 stays as stored.
pub open spec fn wifi_saved(raw: SettingsView, w: WifiProfileView) -> WifiProfileView {
    WifiProfileView {
        ssid: w.ssid,
        security: w.security,
        psk: if w.security == WifiSecurity::Open {
            Seq::empty()
        } else if w.psk.len() > 0 {
            w.psk
        } else {
            or_else(str_field(raw, "802-11-wireless-security"@, "psk"@), Seq::empty())
        },
        hidden: w.hidden,
        autoconnect: w.autoconnect,
        vpn_secondary: w.vpn_secondary,
        ipv4: ip_saved(w.ipv4),
        ipv6: ip_profile_of(raw, "ipv6"@, 64),
    }
}

/// The Ethernet profile read back after saving `e` over `raw`.
pub open spec fn ethernet_saved(raw: SettingsView, e: EthernetProfileView) -> EthernetProfileView {
    EthernetProfileView {
        name: if e.name.len() > 0 { e.name } else { id_of(raw) },
        autoconnect: e.autoconnect,
        vpn_secondary: e.vpn_secondary,
        ipv4: ip_saved(e.ipv4),
        ipv6: ip_profile_of(raw, "ipv6"@, 64),
        mtu: if trim(e.mtu).len() == 0 {
            Seq::empty()
        } else {
            decimal(parse_u32_spec(trim(e.mtu))->0 as nat)
        },
        cloned_mac: trim(e.cloned_mac),
    }
}


/// The names of settings sections and keys that the library reads and
/// writes are distinct from each other.
pub proof fn lemma_keys_distinct()
    ensures
        "connection"@ != "802-11-wireless"@,
        "connection"@ != "802-11-wireless-security"@,
        "connection"@ != "802-1x"@,
        "connection"@ != "802-3-ethernet"@,
        "connection"@ != "ipv4"@,
        "connection"@ != "ipv6"@,
        "connection"@ != "vpn"@,
        "802-11-wireless"@ != "802-11-wireless-security"@,
        "802-11-wireless"@ != "802-1x"@,
        "802-11-wireless"@ != "802-3-ethernet"@,
        "802-11-wireless"@ != "ipv4"@,
        "802-11-wireless"@ != "ipv6"@,
        "802-11-wireless"@ != "vpn"@,
        "802-11-wireless-security"@ != "802-1x"@,
        "802-11-wireless-security"@ != "802-3-ethernet"@,
        "802-11-wireless-security"@ != "ipv4"@,
        "802-11-wireless-security"@ != "ipv6"@,
        "802-11-wireless-security"@ != "vpn"@,
        "802-1x"@ != "802-3-ethernet"@,
        "802-1x"@ != "ipv4"@,
        "802-1x"@ != "ipv6"@,
        "802-1x"@ != "vpn"@,
        "802-3-ethernet"@ != "ipv4"@,
        "802-3-ethernet"@ != "ipv6"@,
        "802-3-ethernet"@ != "vpn"@,
        "ipv4"@ != "ipv6"@,
        "ipv4"@ != "vpn"@,
        "ipv6"@ != "vpn"@,
        "type"@ != "uuid"@,
        "type"@ != "id"@,
        "type"@ != "autoconnect"@,
        "type"@ != "secondaries"@,
        "uuid"@ != "id"@,
        "uuid"@ != "autoconnect"@,
        "uuid"@ != "secondaries"@,
        "id"@ != "autoconnect"@,
        "id"@ != "secondaries"@,
        "autoconnect"@ != "secondaries"@,
        "ssid"@ != "mode"@,
        "ssid"@ != "hidden"@,
        "mode"@ != "hidden"@,
        "key-mgmt"@ != "auth-alg"@,
        "key-mgmt"@ != "psk"@,
        "auth-alg"@ != "psk"@,
        "method"@ != "address-data"@,
        "method"@ != "addresses"@,
        "method"@ != "gateway"@,
        "method"@ != "dns-data"@,
        "method"@ != "dns"@,
        "address-data"@ != "addresses"@,
        "address-data"@ != "gateway"@,
        "address-data"@ != "dns-data"@,
        "address-data"@ != "dns"@,
        "addresses"@ != "gateway"@,
        "addresses"@ != "dns-data"@,
        "addresses"@ != "dns"@,
        "gateway"@ != "dns-data"@,
        "gateway"@ != "dns"@,
        "dns-data"@ != "dns"@,
        "address"@ != "prefix"@,
        "mtu"@ != "cloned-mac-address"@,
        "wpa-psk"@ != "sae"@,
        "wpa-psk"@ != "wpa-eap"@,
        "wpa-psk"@ != "none"@,
        "wpa-psk"@ != "ieee8021x"@,
        "sae"@ != "wpa-eap"@,
        "sae"@ != "none"@,
        "sae"@ != "ieee8021x"@,
        "wpa-eap"@ != "none"@,
        "wpa-eap"@ != "ieee8021x"@,
        "none"@ != "ieee8021x"@,
{
    reveal_strlit("802-11-wireless");
    assert("802-11-wireless"@.len() == 15);
    reveal_strlit("802-11-wireless-security");
    assert("802-11-wireless-security"@.len() == 24);
    reveal_strlit("802-1x");
    assert("802-1x"@.len() == 6);
    reveal_strlit("802-3-ethernet");
    assert("802-3-ethernet"@.len() == 14);
    reveal_strlit("address");
    assert("address"@.len() == 7);
    reveal_strlit("address-data");
    assert("address-data"@.len() == 12);
    reveal_strlit("addresses");
    assert("addresses"@.len() == 9);
    reveal_strlit("auth-alg");
    assert("auth-alg"@.len() == 8);
    reveal_strlit("autoconnect");
    assert("autoconnect"@.len() == 11);
    reveal_strlit("cloned-mac-address");
    assert("cloned-mac-address"@.len() == 18);
    reveal_strlit("connection");
    assert("connection"@.len() == 10);
    reveal_strlit("dns");
    assert("dns"@.len() == 3);
    reveal_strlit("dns-data");
    assert("dns-data"@.len() == 8);
    reveal_strlit("gateway");
    assert("gateway"@.len() == 7);
    reveal_strlit("hidden");
    assert("hidden"@.len() == 6);
    reveal_strlit("id");
    assert("id"@.len() == 2);
    reveal_strlit("ieee8021x");
    assert("ieee8021x"@.len() == 9);
    reveal_strlit("ipv4");
    assert("ipv4"@.len() == 4);
    reveal_strlit("ipv6");
    assert("ipv6"@.len() == 4);
    reveal_strlit("key-mgmt");
    assert("key-mgmt"@.len() == 8);
    reveal_strlit("method");
    assert("method"@.len() == 6);
    reveal_strlit("mode");
    assert("mode"@.len() == 4);
    reveal_strlit("mtu");
    assert("mtu"@.len() == 3);
    reveal_strlit("none");
    assert("none"@.len() == 4);
    reveal_strlit("prefix");
    assert("prefix"@.len() == 6);
    reveal_strlit("psk");
    assert("psk"@.len() == 3);
    reveal_strlit("sae");
    assert("sae"@.len() == 3);
    reveal_strlit("secondaries");
    assert("secondaries"@.len() == 11);
    reveal_strlit("ssid");
    assert("ssid"@.len() == 4);
    reveal_strlit("type");
    assert("type"@.len() == 4);
    reveal_strlit("uuid");
    assert("uuid"@.len() == 4);
    reveal_strlit("vpn");
    assert("vpn"@.len() == 3);
    reveal_strlit("wpa-eap");
    assert("wpa-eap"@.len() == 7);
    reveal_strlit("wpa-psk");
    assert("wpa-psk"@.len() == 7);
    assert("ipv4"@[3] == '4' && "ipv6"@[3] == '6');
    assert("type"@[0] == 't' && "uuid"@[0] == 'u');
    assert("autoconnect"@[0] == 'a' && "secondaries"@[0] == 's');
    assert("ssid"@[0] == 's' && "mode"@[0] == 'm');
    assert("key-mgmt"@[0] == 'k' && "auth-alg"@[0] == 'a');
    assert("wpa-psk"@[4] == 'p' && "wpa-eap"@[4] == 'e');
}

/// Reading a method name back gives the method.
pub proof fn lemma_ip_method_name(m: IpMethod)
    ensures
        ip_method_of(ip_method_name(m)) == m,
{
    reveal_strlit("auto");
    assert("auto"@.len() == 4);
    reveal_strlit("manual");
    assert("manual"@.len() == 6);
    reveal_strlit("disabled");
    assert("disabled"@.len() == 8);
    reveal_strlit("shared");
    assert("shared"@.len() == 6);
    reveal_strlit("link-local");
    assert("link-local"@.len() == 10);
    assert("manual"@[0] == 'm' && "shared"@[0] == 's');
    match m {
        IpMethod::Auto => {
            assert("auto"@ != "manual"@);
            assert("auto"@ != "disabled"@);
            assert("auto"@ != "shared"@);
            assert("auto"@ != "link-local"@);
        },
        IpMethod::Disabled => {
            assert("disabled"@ != "manual"@);
        },
        IpMethod::Shared => {
            assert("shared"@ != "manual"@);
            assert("shared"@ != "disabled"@);
        },
        IpMethod::LinkLocal => {
            assert("link-local"@ != "manual"@);
            assert("link-local"@ != "disabled"@);
            assert("link-local"@ != "shared"@);
        },
        IpMethod::Manual => {},
    }
}

/// Reading back the IPv4 section written from `ip` gives `ip_saved(ip)`,
/// whatever else the settings hold.
pub proof fn lemma_ipv4_round_trip(s: SettingsView, ip: IpProfileView)
    requires
        apply_ipv4_spec(s, ip) is Ok,
    ensures
        ip_profile_of(apply_ipv4_spec(s, ip)->Ok_0, "ipv4"@, 24) == ip_saved(ip),
{
    lemma_keys_distinct();
    let t = apply_ipv4_spec(s, ip)->Ok_0;
    let sec = section_or_empty(t, "ipv4"@);
    assert(sec == ipv4_section(section_or_empty(s, "ipv4"@), ip));
    lemma_ip_method_name(ip.method);
    if ip.method == IpMethod::Manual {
        let prefix = if ip.prefix == 0 { 24u32 } else { ip.prefix };
        let rec = address_record(ip.address, prefix);
        assert(rec_str(rec, "address"@) == Some(ip.address));
        assert(rec_u32(rec, "prefix"@) == Some(prefix));
        if trim(ip.dns).len() > 0 {
            assert(rec_str(dns_record(ip.dns), "address"@) == Some(ip.dns));
        }
        if trim(ip.gateway).len() == 0 {
            assert(trim(ip.gateway) =~= Seq::<char>::empty());
        }
    }
    assert(ip_profile_of(t, "ipv4"@, 24) =~= ip_saved(ip));
}

/// Saving a Wi-Fi profile and reading the settings back gives the profile as
/// saved (`wifi_saved`).  Plain WPA is written as WPA-PSK, which reads back
/// as WPA2, and a stored 802.1X section reads back as enterprise security;
/// the law leaves those inputs out.
pub proof fn lemma_wifi_round_trip(raw: SettingsView, w: WifiProfileView)
    requires
        str_field(raw, "connection"@, "type"@) == Some("802-11-wireless"@),
        apply_wifi_spec(raw, w) is Ok,
        w.security != WifiSecurity::Wpa,
        w.security == WifiSecurity::Open || !raw.contains_key("802-1x"@),
    ensures
        profile_of(apply_wifi_spec(raw, w)->Ok_0, None) == ConnectionProfileView::Wifi(
            wifi_saved(raw, w),
        ),
{
    lemma_keys_distinct();
    vstd::utf8::encode_utf8_decode_utf8(w.ssid);
    vstd::utf8::encode_utf8_valid_utf8(w.ssid);
    let s1 = raw.insert(
        "802-11-wireless"@,
        wireless_section(section_or_empty(raw, "802-11-wireless"@), w),
    );
    let s2 = if w.security != WifiSecurity::Open {
        s1.insert(
            "802-11-wireless-security"@,
            security_section(section_or_empty(s1, "802-11-wireless-security"@), w),
        )
    } else {
        s1.remove("802-11-wireless-security"@).remove("802-1x"@)
    };
    let s3 = with_autoconnect(s2, w.autoconnect, w.vpn_secondary);
    lemma_ipv4_round_trip(s3, w.ipv4);
    let t = apply_wifi_spec(raw, w)->Ok_0;
    assert(t == s3.insert("ipv4"@, ipv4_section(section_or_empty(s3, "ipv4"@), w.ipv4)));
    assert(str_field(t, "connection"@, "type"@) == Some("802-11-wireless"@));
    assert(ssid_of(t) == w.ssid);
    assert(security_of(t) == w.security);
    assert(ip_profile_of(t, "ipv6"@, 64) == ip_profile_of(raw, "ipv6"@, 64)) by {
        assert(section_or_empty(t, "ipv6"@) == section_or_empty(raw, "ipv6"@));
    }
    assert(wifi_profile_of(t, None) =~= wifi_saved(raw, w));
}

/// Saving an Ethernet profile and reading the settings back gives the
/// profile as saved (`ethernet_saved`).
pub proof fn lemma_ethernet_round_trip(raw: SettingsView, e: EthernetProfileView)
    requires
        str_field(raw, "connection"@, "type"@) == Some("802-3-ethernet"@),
        apply_ethernet_spec(raw, e) is Ok,
    ensures
        profile_of(apply_ethernet_spec(raw, e)->Ok_0, None) == ConnectionProfileView::Ethernet(
            ethernet_saved(raw, e),
        ),
{
    lemma_keys_distinct();
    reveal_strlit("802-11-wireless");
    let eth = ethernet_section(section_or_empty(raw, "802-3-ethernet"@), e)->Some_0;
    let s1 = raw.insert("802-3-ethernet"@, eth);
    let s2 = with_autoconnect(with_id(s1, e.name), e.autoconnect, e.vpn_secondary);
    lemma_ipv4_round_trip(s2, e.ipv4);
    let t = apply_ethernet_spec(raw, e)->Ok_0;
    assert(str_field(t, "connection"@, "type"@) == Some("802-3-ethernet"@));
    assert(ip_profile_of(t, "ipv6"@, 64) == ip_profile_of(raw, "ipv6"@, 64)) by {
        assert(section_or_empty(t, "ipv6"@) == section_or_empty(raw, "ipv6"@));
    }
    if trim(e.cloned_mac).len() == 0 {
        assert(trim(e.cloned_mac) =~= Seq::<char>::empty());
    }
    assert(ethernet_profile_of(t) =~= ethernet_saved(raw, e));
}


/// The VPN profile read back after saving `v` over `raw`: only the name and
/// the IPv4 section are written, the rest reads as stored.
pub open spec fn vpn_saved(raw: SettingsView, v: VpnProfileView) -> VpnProfileView {
    VpnProfileView {
        name: if v.name.len() > 0 { v.name } else { id_of(raw) },
        ipv4: ip_saved(v.ipv4),
        ..vpn_profile_of(raw)
    }
}

/// Saving a VPN profile and reading the settings back gives `vpn_saved`.
/// The gateway, user name, password, port, protocol and group name are not
/// written to the settings, so they read back empty (`udp` for the protocol).
pub proof fn lemma_vpn_round_trip(raw: SettingsView, v: VpnProfileView)
    requires
        str_field(raw, "connection"@, "type"@) == Some("vpn"@),
        apply_vpn_spec(raw, v) is Ok,
    ensures
        profile_of(apply_vpn_spec(raw, v)->Ok_0, None) == ConnectionProfileView::Vpn(
            vpn_saved(raw, v),
        ),
{
    lemma_keys_distinct();
    reveal_strlit("802-11-wireless");
    reveal_strlit("802-3-ethernet");
    reveal_strlit("vpn");
    assert("802-11-wireless"@.len() == 15 && "802-3-ethernet"@.len() == 14 && "vpn"@.len() == 3);
    let s1 = with_id(raw, v.name);
    lemma_ipv4_round_trip(s1, v.ipv4);
    let t = apply_vpn_spec(raw, v)->Ok_0;
    assert(str_field(t, "connection"@, "type"@) == Some("vpn"@));
    assert(section_or_empty(t, "ipv6"@) == section_or_empty(raw, "ipv6"@));
    assert(section_or_empty(t, "vpn"@) == section_or_empty(raw, "vpn"@));
    assert(vpn_profile_of(t) =~= vpn_saved(raw, v));
}

/// The error that saving the profile gives, whatever settings it is saved
/// over.
pub open spec fn profile_error(p: ConnectionProfileView) -> Option<Seq<char>> {
    match p {
        ConnectionProfileView::Wifi(w) => if w.ssid.len() == 0 {
            Some("SSID must not be empty"@)
        } else if w.security == WifiSecurity::Enterprise || w.security == WifiSecurity::Wep {
            Some(unsupported_security_text(w.security))
        } else {
            ipv4_error(w.ipv4)
        },
        ConnectionProfileView::Ethernet(e) => if trim(e.mtu).len() > 0 && parse_u32_spec(
            trim(e.mtu),
        ) is None {
            Some("MTU must be a number"@)
        } else {
            ipv4_error(e.ipv4)
        },
        ConnectionProfileView::Vpn(v) => ipv4_error(v.ipv4),
        ConnectionProfileView::Unsupported { .. } => Some("this connection type cannot be edited"@),
    }
}

pub open spec fn ipv4_error(ip: IpProfileView) -> Option<Seq<char>> {
    if ip.method == IpMethod::Manual && trim(ip.address).len() == 0 {
        Some("Address is required for manual IPv4"@)
    } else {
        None
    }
}

/// Whether saving fails depends on the profile alone, never on the settings
/// it is saved over.
pub proof fn lemma_apply_error(s: SettingsView, p: ConnectionProfileView)
    ensures
        apply_spec(s, p) is Err <==> profile_error(p) is Some,
        apply_spec(s, p) is Err ==> apply_spec(s, p)->Err_0 == profile_error(p)->Some_0,
{
    match p {
        ConnectionProfileView::Ethernet(e) => {
            let sec1 = if trim(e.mtu).len() == 0 {
                Some(section_or_empty(s, "802-3-ethernet"@).remove("mtu"@))
            } else {
                match parse_u32_spec(trim(e.mtu)) {
                    Some(m) => Some(section_or_empty(s, "802-3-ethernet"@).insert("mtu"@, SettingValueView::U32(m))),
                    None => None,
                }
            };
            assert(ethernet_section(section_or_empty(s, "802-3-ethernet"@), e) is None <==> sec1 is None);
        },
        _ => {},
    }
}


/// The settings a new profile starts from before its fields are written:
/// type, UUID and name, the VPN service type, and IPv6 ignored.
pub open spec fn new_profile_base(p: ConnectionProfileView, uuid: Seq<char>) -> SettingsView {
    let ipv6 = Map::empty().insert("method"@, SettingValueView::Str("ignore"@));
    let conn = |t: Seq<char>, name: Seq<char>|
        Map::empty().insert("type"@, SettingValueView::Str(t)).insert(
            "uuid"@,
            SettingValueView::Str(uuid),
        ).insert("id"@, SettingValueView::Str(name));
    match p {
        ConnectionProfileView::Wifi(w) => Map::empty().insert(
            "connection"@,
            conn("802-11-wireless"@, w.ssid),
        ).insert("ipv6"@, ipv6),
        ConnectionProfileView::Ethernet(e) => Map::empty().insert(
            "connection"@,
            conn("802-3-ethernet"@, e.name),
        ).insert("ipv6"@, ipv6),
        ConnectionProfileView::Vpn(v) => Map::empty().insert("connection"@, conn("vpn"@, v.name)).insert(
            "vpn"@,
            Map::empty().insert("service-type"@, SettingValueView::Str(v.service_type)),
        ).insert("ipv6"@, ipv6),
        ConnectionProfileView::Unsupported { .. } => Map::empty(),
    }
}

/// Why a new connection cannot be built from the profile, if it cannot: a
/// secured Wi-Fi network needs its key.
pub open spec fn new_profile_error(p: ConnectionProfileView) -> Option<Seq<char>> {
    match p {
        ConnectionProfileView::Wifi(w) => if w.ssid.len() == 0 || w.security
            == WifiSecurity::Enterprise || w.security == WifiSecurity::Wep {
            profile_error(p)
        } else if w.security != WifiSecurity::Open && w.psk.len() == 0 {
            Some("Password is required for secured networks"@)
        } else {
            profile_error(p)
        },
        _ => profile_error(p),
    }
}

pub open spec fn conn_uuid(s: SettingsView) -> Seq<char> {
    crate::nm::wifi_settings::uuid_of(s)
}

fn connection_section(t: &str, uuid: String, name: &String) -> (r: Section)
    ensures
        r@ == Map::<Seq<char>, SettingValueView>::empty().insert("type"@, SettingValueView::Str(t@)).insert(
            "uuid"@,
            SettingValueView::Str(uuid@),
        ).insert("id"@, SettingValueView::Str(name@)),
{
    let mut c: Section = StrMap::new();
    c.insert(own("type"), str_value(t));
    c.insert(own("uuid"), SettingValue::Str(uuid));
    c.insert(own("id"), SettingValue::Str(name.clone()));
    c
}

/// Build the settings of a new connection from an edited profile.
pub fn profile_to_settings(profile: &ConnectionProfile) -> (r: Result<NmSettings, Error>)
    ensures
        r is Err <==> new_profile_error(profile@) is Some,
        r matches Err(e) ==> e is OperationFailed && e.failure_text() == new_profile_error(
            profile@,
        )->Some_0,
        r matches Ok(s) ==> crate::nm::wifi_settings::is_uuid_text(conn_uuid(s@)) && apply_spec(
            new_profile_base(profile@, conn_uuid(s@)),
            profile@,
        ) == Ok::<SettingsView, Seq<char>>(s@),
{
    if let ConnectionProfile::Wifi(w) = profile {
        let early = w.ssid.as_str().is_empty() || w.security == WifiSecurity::Enterprise
            || w.security == WifiSecurity::Wep;
        if !early && w.security.is_secured() && w.psk.as_str().is_empty() {
            return Err(failed("Password is required for secured networks"));
        }
    }
    let uuid = crate::nm::wifi_settings::new_uuid();
    let ghost u = uuid@;
    let mut base: NmSettings = StrMap::new();
    match profile {
        ConnectionProfile::Wifi(w) => {
            base.insert(own("connection"), connection_section("802-11-wireless", uuid, &w.ssid));
        },
        ConnectionProfile::Ethernet(e) => {
            base.insert(own("connection"), connection_section("802-3-ethernet", uuid, &e.name));
        },
        ConnectionProfile::Vpn(v) => {
            base.insert(own("connection"), connection_section("vpn", uuid, &v.name));
            let mut vpn: Section = StrMap::new();
            vpn.insert(own("service-type"), SettingValue::Str(v.service_type.clone()));
            base.insert(own("vpn"), vpn);
        },
        ConnectionProfile::Unsupported { .. } => {
            return Err(failed("this connection type cannot be edited"));
        },
    }
    base.insert(own("ipv6"), crate::nm::wifi_settings::one_str_section("method", "ignore"));
    proof {
        lemma_keys_distinct();
        assert(base@ =~= new_profile_base(profile@, u));
        lemma_apply_error(base@, profile@);
    }
    let r = apply_profile(&base, profile);
    proof {
        if r is Ok {
            lemma_apply_keeps_uuid(base@, profile@);
            lemma_keys_distinct();
            assert(conn_uuid(base@) == u);
        }
    }
    r
}

/// Saving a profile leaves `connection.uuid` as it was.
pub proof fn lemma_apply_keeps_uuid(s: SettingsView, p: ConnectionProfileView)
    requires
        apply_spec(s, p) is Ok,
    ensures
        conn_uuid(apply_spec(s, p)->Ok_0) == conn_uuid(s),
{
    lemma_keys_distinct();
    let t = apply_spec(s, p)->Ok_0;
    assert(section_or_empty(t, "connection"@).contains_key("uuid"@) == section_or_empty(
        s,
        "connection"@,
    ).contains_key("uuid"@));
    if section_or_empty(s, "connection"@).contains_key("uuid"@) {
        assert(section_or_empty(t, "connection"@)["uuid"@] == section_or_empty(
            s,
            "connection"@,
        )["uuid"@]);
    }
}


/// A new connection built from a profile reads back as the profile saved over
/// its starting settings (plain WPA, written as WPA-PSK, reads back as WPA2
/// and is left out).
pub proof fn lemma_new_profile_round_trip(p: ConnectionProfileView, uuid: Seq<char>)
    requires
        apply_spec(new_profile_base(p, uuid), p) is Ok,
        p matches ConnectionProfileView::Wifi(w) ==> w.security != WifiSecurity::Wpa,
    ensures
        ({
            let base = new_profile_base(p, uuid);
            let s = apply_spec(base, p)->Ok_0;
            match p {
                ConnectionProfileView::Wifi(w) => profile_of(s, None)
                    == ConnectionProfileView::Wifi(wifi_saved(base, w)),
                ConnectionProfileView::Ethernet(e) => profile_of(s, None)
                    == ConnectionProfileView::Ethernet(ethernet_saved(base, e)),
                ConnectionProfileView::Vpn(v) => profile_of(s, None) == ConnectionProfileView::Vpn(
                    vpn_saved(base, v),
                ),
                _ => true,
            }
        }),
{
    lemma_keys_distinct();
    let base = new_profile_base(p, uuid);
    reveal_strlit("type");
    reveal_strlit("uuid");
    reveal_strlit("id");
    assert("type"@ != "uuid"@ && "type"@ != "id"@);
    match p {
        ConnectionProfileView::Wifi(w) => {
            assert(str_field(base, "connection"@, "type"@) == Some("802-11-wireless"@));
            lemma_wifi_round_trip(base, w);
        },
        ConnectionProfileView::Ethernet(e) => {
            assert(str_field(base, "connection"@, "type"@) == Some("802-3-ethernet"@));
            lemma_ethernet_round_trip(base, e);
        },
        ConnectionProfileView::Vpn(v) => {
            assert(str_field(base, "connection"@, "type"@) == Some("vpn"@));
            lemma_vpn_round_trip(base, v);
        },
        _ => {},
    }
}

/// Where a Wi-Fi profile's pre-shared key comes from: the secrets' key when
/// they hold one (GetSettings leaves it out of the settings), else the key in
/// the settings themselves, else nothing.
pub proof fn lemma_wifi_psk_source(raw: SettingsView, secrets: Option<SettingsView>)
    requires
        str_field(raw, "connection"@, "type"@) == Some("802-11-wireless"@),
    ensures
        profile_of(raw, secrets) is Wifi,
        (secrets is Some && str_field(secrets->0, "802-11-wireless-security"@, "psk"@) is Some)
            ==> profile_of(raw, secrets)->Wifi_0.psk == str_field(
            secrets->0,
            "802-11-wireless-security"@,
            "psk"@,
        )->0,
        ((secrets is None || str_field(secrets->0, "802-11-wireless-security"@, "psk"@) is None)
            && str_field(raw, "802-11-wireless-security"@, "psk"@) is Some) ==> profile_of(
            raw,
            secrets,
        )->Wifi_0.psk == str_field(raw, "802-11-wireless-security"@, "psk"@)->0,
        ((secrets is None || str_field(secrets->0, "802-11-wireless-security"@, "psk"@) is None)
            && str_field(raw, "802-11-wireless-security"@, "psk"@) is None) ==> profile_of(
            raw,
            secrets,
        )->Wifi_0.psk == Seq::<char>::empty(),
{
}

/// The kind of profile follows `connection.type`: Wi-Fi, Ethernet and VPN
/// settings give profiles of those kinds, anything else an unsupported
/// profile that keeps the type and the name.
pub proof fn lemma_profile_kind(raw: SettingsView, secrets: Option<SettingsView>)
    ensures
        str_field(raw, "connection"@, "type"@) == Some("802-11-wireless"@) ==> profile_of(
            raw,
            secrets,
        ) is Wifi,
        str_field(raw, "connection"@, "type"@) == Some("802-3-ethernet"@) ==> profile_of(
            raw,
            secrets,
        ) is Ethernet,
        str_field(raw, "connection"@, "type"@) == Some("vpn"@) ==> profile_of(raw, secrets) is Vpn,
        (str_field(raw, "connection"@, "type"@) is None) ==> profile_of(raw, secrets) is Unsupported,
        forall|t: Seq<char>|
            #[trigger] str_field(raw, "connection"@, "type"@) == Some(t) && t != "802-11-wireless"@
                && t != "802-3-ethernet"@ && t != "vpn"@ ==> profile_of(raw, secrets) is Unsupported
                && profile_of(raw, secrets)->conn_type == t,
{
    lemma_keys_distinct();
    reveal_strlit("");
    reveal_strlit("802-11-wireless");
    assert("802-11-wireless"@.len() == 15);
    reveal_strlit("802-3-ethernet");
    assert("802-3-ethernet"@.len() == 14);
    reveal_strlit("vpn");
    assert("vpn"@.len() == 3);
}

/// The security mode of a Wi-Fi profile: enterprise when the settings hold
/// an 802.1X section, else by `key-mgmt`: `wpa-psk` is WPA2, `sae` is WPA3,
/// `wpa-eap` is enterprise, `none` and `ieee8021x` are WEP, anything else or
/// nothing is open.  The hidden flag is the wireless section's `hidden`,
/// off when absent.
pub proof fn lemma_wifi_security_and_hidden(raw: SettingsView, secrets: Option<SettingsView>)
    requires
        str_field(raw, "connection"@, "type"@) == Some("802-11-wireless"@),
    ensures
        raw.contains_key("802-1x"@) ==> profile_of(raw, secrets)->Wifi_0.security
            == WifiSecurity::Enterprise,
        !raw.contains_key("802-1x"@) && str_field(raw, "802-11-wireless-security"@, "key-mgmt"@)
            == Some("wpa-psk"@) ==> profile_of(raw, secrets)->Wifi_0.security == WifiSecurity::Wpa2,
        !raw.contains_key("802-1x"@) && str_field(raw, "802-11-wireless-security"@, "key-mgmt"@)
            == Some("sae"@) ==> profile_of(raw, secrets)->Wifi_0.security == WifiSecurity::Wpa3,
        !raw.contains_key("802-1x"@) && str_field(raw, "802-11-wireless-security"@, "key-mgmt"@)
            == Some("wpa-eap"@) ==> profile_of(raw, secrets)->Wifi_0.security
            == WifiSecurity::Enterprise,
        !raw.contains_key("802-1x"@) && (str_field(raw, "802-11-wireless-security"@, "key-mgmt"@)
            == Some("none"@) || str_field(raw, "802-11-wireless-security"@, "key-mgmt"@) == Some(
            "ieee8021x"@,
        )) ==> profile_of(raw, secrets)->Wifi_0.security == WifiSecurity::Wep,
        !raw.contains_key("802-1x"@) && (str_field(
            raw,
            "802-11-wireless-security"@,
            "key-mgmt"@,
        ) is None) ==> profile_of(raw, secrets)->Wifi_0.security == WifiSecurity::Open,
        sec_bool(section_or_empty(raw, "802-11-wireless"@), "hidden"@) == Some(true) ==> profile_of(
            raw,
            secrets,
        )->Wifi_0.hidden,
        sec_bool(section_or_empty(raw, "802-11-wireless"@), "hidden"@) != Some(true) ==> !profile_of(
            raw,
            secrets,
        )->Wifi_0.hidden,
{
    lemma_keys_distinct();
}

} // verus!
