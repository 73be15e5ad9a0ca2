//! Decisions of the NetworkManager client: how saved settings and the state
//! of active connections become the connection list.

use vstd::prelude::*;
use crate::connection::{
    Connection, ConnectionKind, ConnectionStatus, Ip4Config, Ip6Config, VpnInfo, WifiInfo, WifiMode,
};
use crate::connection::profile::opt_view;
use crate::nm::connection_settings::{
    detect_wifi_security, get_str_field, or_else, parse_ssid, rec_str, rec_u32, section_or_empty,
    sec_str, security_of, ssid_of, str_field,
};
use crate::nm::dict::{FieldValue, NmSettings, Record, SettingsView, StrMap};
use crate::nm::modem::{build_modem_info, saved_modem_info};
use crate::nm::numbers::{decimal, decimal_string};
use crate::text::{own, str_eq, push_char};

verus! {

/// Lifecycle state of an active connection (`ActiveConnection.State`).
pub open spec fn active_status(state: u32) -> ConnectionStatus {
    if state == 1 {
        ConnectionStatus::Activating
    } else if state == 2 {
        ConnectionStatus::Active
    } else if state == 3 {
        ConnectionStatus::Deactivating
    } else {
        ConnectionStatus::Unknown
    }
}

pub fn status_from_active_state(state: u32) -> (r: ConnectionStatus)
    ensures
        r == active_status(state),
{
    match state {
        1 => ConnectionStatus::Activating,
        2 => ConnectionStatus::Active,
        3 => ConnectionStatus::Deactivating,
        _ => ConnectionStatus::Unknown,
    }
}

/// Wi-Fi mode named in the wireless section; infrastructure when absent.
pub open spec fn wifi_mode_of(raw: SettingsView) -> WifiMode {
    match sec_str(section_or_empty(raw, "802-11-wireless"@), "mode"@) {
        Some(m) => if m == "infrastructure"@ {
            WifiMode::Infrastructure
        } else if m == "adhoc"@ {
            WifiMode::AdHoc
        } else if m == "ap"@ {
            WifiMode::Ap
        } else if m == "mesh"@ {
            WifiMode::Mesh
        } else {
            WifiMode::Unknown
        },
        None => WifiMode::Infrastructure,
    }
}

/// `w` is the Wi-Fi data of the saved settings `raw`: SSID, security and
/// mode from the settings, no signal, frequency or BSSID.
pub open spec fn saved_wifi_info(w: WifiInfo, raw: SettingsView) -> bool {
    &&& w.ssid@ == ssid_of(raw)
    &&& w.security == security_of(raw)
    &&& w.mode == wifi_mode_of(raw)
    &&& w.strength == 0
    &&& w.frequency is None
    &&& w.bssid is None
}

/// `k` is the kind that connection type `t` names in the settings `raw`.
pub open spec fn kind_of_type(k: ConnectionKind, t: Seq<char>, raw: SettingsView) -> bool {
    if t == "802-11-wireless"@ {
        k matches ConnectionKind::Wifi(w) && saved_wifi_info(w, raw)
    } else if t == "802-3-ethernet"@ {
        k is Ethernet
    } else if t == "vpn"@ {
        k matches ConnectionKind::Vpn(v) && v.service_type@ == or_else(
            str_field(raw, "vpn"@, "service-type"@),
            "unknown"@,
        )
    } else if t == "loopback"@ {
        k is Loopback
    } else if t == "gsm"@ {
        k matches ConnectionKind::Modem(m) && saved_modem_info(m, raw)
    } else {
        k matches ConnectionKind::Other(o) && o@ == t
    }
}

/// Wi-Fi data of a saved profile: its SSID, security and mode; nothing live.
pub fn build_wifi_info(raw: &NmSettings) -> (r: WifiInfo)
    ensures
        saved_wifi_info(r, raw@),
{
    let mode = match raw.get("802-11-wireless") {
        Some(sec) => match sec.get("mode") {
            Some(crate::nm::dict::SettingValue::Str(m)) => {
                let m = m.as_str();
                if str_eq(m, "infrastructure") {
                    WifiMode::Infrastructure
                } else if str_eq(m, "adhoc") {
                    WifiMode::AdHoc
                } else if str_eq(m, "ap") {
                    WifiMode::Ap
                } else if str_eq(m, "mesh") {
                    WifiMode::Mesh
                } else {
                    WifiMode::Unknown
                }
            },
            _ => WifiMode::Infrastructure,
        },
        None => WifiMode::Infrastructure,
    };
    WifiInfo {
        ssid: parse_ssid(raw),
        strength: 0,
        security: detect_wifi_security(raw),
        frequency: None,
        bssid: None,
        mode,
    }
}

/// The kind a connection type names: Wi-Fi, Ethernet, VPN, loopback or a
/// mobile broadband (`gsm`) profile; any other type is kept by name.
pub fn build_kind(conn_type: &str, raw: &NmSettings) -> (r: ConnectionKind)
    ensures
        kind_of_type(r, conn_type@, raw@),
{
    if str_eq(conn_type, "802-11-wireless") {
        ConnectionKind::Wifi(build_wifi_info(raw))
    } else if str_eq(conn_type, "802-3-ethernet") {
        ConnectionKind::Ethernet
    } else if str_eq(conn_type, "vpn") {
        let service_type = match get_str_field(raw, "vpn", "service-type") {
            Some(s) => s,
            None => own("unknown"),
        };
        ConnectionKind::Vpn(VpnInfo { service_type })
    } else if str_eq(conn_type, "loopback") {
        ConnectionKind::Loopback
    } else if str_eq(conn_type, "gsm") {
        ConnectionKind::Modem(build_modem_info(raw))
    } else {
        ConnectionKind::Other(own(conn_type))
    }
}

/// A saved profile as a list entry, given what its active connection (if
/// any) reports.
pub fn connection_from_settings(
    raw: &NmSettings,
    status: ConnectionStatus,
    device: Option<String>,
    ip4: Option<Ip4Config>,
    ip6: Option<Ip6Config>,
) -> (r: Connection)
    ensures
        r.id@ == or_else(str_field(raw@, "connection"@, "id"@), "Unknown"@),
        r.uuid@ == or_else(str_field(raw@, "connection"@, "uuid"@), Seq::empty()),
        r.status == status,
        r.device == device,
        r.ip4 == ip4,
        r.ip6 == ip6,
        r.saved,
        kind_of_type(r.kind, or_else(str_field(raw@, "connection"@, "type"@), Seq::empty()), raw@),
{
    let id = match get_str_field(raw, "connection", "id") {
        Some(s) => s,
        None => own("Unknown"),
    };
    let uuid = match get_str_field(raw, "connection", "uuid") {
        Some(s) => s,
        None => String::new(),
    };
    let conn_type = match get_str_field(raw, "connection", "type") {
        Some(s) => s,
        None => String::new(),
    };
    let kind = build_kind(conn_type.as_str(), raw);
    Connection { id, uuid, kind, status, ip4, ip6, device, saved: true }
}

/// `address/prefix` text of the first `address-data` entry with an address
/// (prefix 24 when absent).
pub open spec fn cidr_of(addresses: Seq<Map<Seq<char>, crate::nm::dict::FieldValueView>>) -> Option<Seq<char>> {
    if addresses.len() > 0 {
        match rec_str(addresses[0], "address"@) {
            Some(a) => Some(
                a + "/"@ + decimal(
                    match rec_u32(addresses[0], "prefix"@) {
                        Some(p) => p as nat,
                        None => 24,
                    },
                ),
            ),
            None => None,
        }
    } else {
        None
    }
}

/// Addresses of the name-server entries that have one, in order.
pub open spec fn nameserver_addresses(records: Seq<Map<Seq<char>, crate::nm::dict::FieldValueView>>) -> Seq<Seq<char>>
    decreases records.len(),
{
    if records.len() == 0 {
        Seq::empty()
    } else {
        let prev = nameserver_addresses(records.drop_last());
        match rec_str(records.last(), "address"@) {
            Some(a) => prev.push(a),
            None => prev,
        }
    }
}

fn record_string(r: &Record, key: &str) -> (out: Option<String>)
    ensures
        opt_view(out) == rec_str(r@, key@),
{
    match r.get(key) {
        Some(FieldValue::Str(s)) => Some(s.clone()),
        _ => None,
    }
}

/// The IPv4 configuration of an active connection, from its `AddressData`,
/// `Gateway` and `NameserverData` properties; none without an address.  An
/// empty gateway counts as absent.
pub fn ip4_config_from(
    addresses: &Vec<Record>,
    gateway: Option<String>,
    nameservers: &Vec<Record>,
) -> (r: Option<Ip4Config>)
    ensures
        r is Some <==> cidr_of(addresses@.map_values(|x: Record| x@)) is Some,
        r matches Some(c) ==> ({
            &&& c.address@ == cidr_of(addresses@.map_values(|x: Record| x@))->Some_0
            &&& opt_view(c.gateway) == crate::nm::modem::non_empty(opt_view(gateway))
            &&& c.nameservers@.map_values(|s: String| s@) == nameserver_addresses(
                nameservers@.map_values(|x: Record| x@),
            )
        }),
{
    if addresses.len() == 0 {
        return None;
    }
    let first = &addresses[0];
    assert(addresses@.map_values(|x: Record| x@)[0] == first@);
    let addr = match record_string(first, "address") {
        Some(a) => a,
        None => {
            return None;
        },
    };
    let prefix: u32 = match first.get("prefix") {
        Some(FieldValue::U32(p)) => *p,
        _ => 24,
    };
    let mut address = addr;
    address.append("/");
    address.append(decimal_string(prefix).as_str());
    let gateway = match gateway {
        Some(g) => if g.as_str().is_empty() { None } else { Some(g) },
        None => None,
    };
    let mut names: Vec<String> = Vec::new();
    let mut i: usize = 0;
    while i < nameservers.len()
        invariant
            i <= nameservers@.len(),
            names@.map_values(|s: String| s@) == nameserver_addresses(
                nameservers@.take(i as int).map_values(|x: Record| x@),
            ),
        decreases nameservers@.len() - i,
    {
        let ghost before = nameservers@.take(i as int).map_values(|x: Record| x@);
        let ghost after = nameservers@.take(i + 1).map_values(|x: Record| x@);
        assert(after.drop_last() =~= before);
        assert(after.last() == nameservers@[i as int]@);
        match record_string(&nameservers[i], "address") {
            Some(a) => {
                names.push(a);
                assert(names@.map_values(|s: String| s@) =~= nameserver_addresses(before).push(
                    nameservers@[i as int]@[("address"@)]->Str_0,
                ));
            },
            None => {},
        }
        i = i + 1;
    }
    assert(nameservers@.take(nameservers@.len() as int) =~= nameservers@);
    Some(Ip4Config { address, gateway, nameservers: names })
}

} // verus!
