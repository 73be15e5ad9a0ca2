//! Domain types for network connections, devices, and access points.
//!
//! These types mirror the data exposed by NetworkManager but are decoupled
//! from D-Bus specifics.

use vstd::prelude::*;
use crate::text::repeat_char;

pub mod profile;
pub mod scan;

pub use scan::{merge_modem_live_data, merge_wifi_scan_data};
pub use profile::{
    ConnectionProfile, EthernetProfile, IpMethod, Ipv4Profile, Ipv6Profile, VpnProfile,
    WifiProfile,
};

verus! {

// ── ConnectionKind ───────────────────────────────────────────────────────────

/// The type-specific data for a connection.
#[derive(Debug)]
pub enum ConnectionKind {
    Wifi(WifiInfo),
    Ethernet,
    Vpn(VpnInfo),
    Loopback,
    Modem(ModemInfo),
    Other(String),
}

impl ConnectionKind {
    pub open spec fn spec_type_label(&self) -> Seq<char> {
        match self {
            ConnectionKind::Wifi(_) => "Wi-Fi"@,
            ConnectionKind::Ethernet => "Ethernet"@,
            ConnectionKind::Vpn(_) => "VPN"@,
            ConnectionKind::Loopback => "Loopback"@,
            ConnectionKind::Modem(_) => "Mobile broadband"@,
            ConnectionKind::Other(t) => t@,
        }
    }

    /// Short type label used for section headers and detail views.
    pub fn type_label(&self) -> (r: &str)
        ensures
            r@ == self.spec_type_label(),
    {
        match self {
            ConnectionKind::Wifi(_) => "Wi-Fi",
            ConnectionKind::Ethernet => "Ethernet",
            ConnectionKind::Vpn(_) => "VPN",
            ConnectionKind::Loopback => "Loopback",
            ConnectionKind::Modem(_) => "Mobile broadband",
            ConnectionKind::Other(t) => t.as_str(),
        }
    }
}

// ── Signal bars ──────────────────────────────────────────────────────────────

/// Number of filled cells (0 to 4) of a four-cell bar for a 0–100 strength.
pub open spec fn filled_cells(strength: u8) -> nat {
    let b = (strength as nat * 4) / 100;
    if b > 4 { 4 } else { b }
}

/// The bar itself: filled cells `█` followed by empty cells `░`, four in all.
pub open spec fn bar_of(strength: u8) -> Seq<char> {
    Seq::new(4, |i: int| if i < filled_cells(strength) { '█' } else { '░' })
}

/// Renders a 0–100 strength as a four-cell bar.
pub fn strength_bar_of(strength: u8) -> (r: String)
    ensures
        r@ == bar_of(strength),
        r@.len() == 4,
{
    let prod: usize = strength as usize * 4 / 100;
    let bars: usize = if prod > 4 { 4 } else { prod };
    let filled = repeat_char('█', bars);
    let empty = repeat_char('░', 4 - bars);
    let mut r = filled;
    r.append(empty.as_str());
    assert(r@ =~= bar_of(strength));
    r
}

// ── WifiInfo ─────────────────────────────────────────────────────────────────

/// Wi-Fi–specific connection data.
#[derive(Debug)]
pub struct WifiInfo {
    /// SSID as a UTF-8 string.
    pub ssid: String,
    /// Signal strength 0–100.
    pub strength: u8,
    /// Security mode.
    pub security: WifiSecurity,
    /// Operating frequency in MHz (e.g. 2412 for 2.4 GHz channel 1).
    pub frequency: Option<u32>,
    /// Access-point hardware address (BSSID).
    pub bssid: Option<String>,
    /// Wi-Fi mode (infrastructure, ad-hoc, …).
    pub mode: WifiMode,
}

pub fn clone_opt_string(s: &Option<String>) -> (r: Option<String>)
    ensures
        r == *s,
{
    match s {
        Some(x) => Some(x.clone()),
        None => None,
    }
}

impl Clone for WifiInfo {
    fn clone(&self) -> (r: Self)
        ensures
            r == *self,
    {
        WifiInfo {
            ssid: self.ssid.clone(),
            strength: self.strength,
            security: self.security,
            frequency: self.frequency,
            bssid: clone_opt_string(&self.bssid),
            mode: self.mode,
        }
    }
}

/// Band of a frequency in MHz: below 3000 MHz is 2.4 GHz, the rest 5 GHz.
pub open spec fn band_of(f: u32) -> Seq<char> {
    if f < 3000 { "2.4 GHz"@ } else { "5 GHz"@ }
}

impl WifiInfo {
    /// Renders signal strength as a four-cell bar.
    pub fn strength_bar(&self) -> (r: String)
        ensures
            r@ == bar_of(self.strength),
            r@.len() == 4,
    {
        strength_bar_of(self.strength)
    }

    /// Frequency band label: "2.4 GHz" or "5 GHz".
    pub fn band_label(&self) -> (r: Option<&'static str>)
        ensures
            r is Some <==> self.frequency is Some,
            r matches Some(l) ==> l@ == band_of(self.frequency->0),
    {
        match self.frequency {
            Some(f) => if f < 3000 { Some("2.4 GHz") } else { Some("5 GHz") },
            None => None,
        }
    }
}

// ── WifiSecurity ─────────────────────────────────────────────────────────────

/// Wi-Fi security modes.
#[derive(Debug, Clone, Copy, PartialEq, Eq, Structural)]
pub enum WifiSecurity {
    Open,
    Wep,
    Wpa,
    Wpa2,
    Wpa3,
    Enterprise,
}

/// The security modes the connection editor cycles through, in order.
pub open spec fn editable_security() -> Seq<WifiSecurity> {
    seq![WifiSecurity::Open, WifiSecurity::Wpa2, WifiSecurity::Wpa3]
}

/// Position of `s` among the editable modes, 0 for a mode that is not editable.
pub open spec fn editable_index(s: WifiSecurity) -> int {
    match s {
        WifiSecurity::Wpa2 => 1,
        WifiSecurity::Wpa3 => 2,
        _ => 0,
    }
}

impl WifiSecurity {
    pub open spec fn spec_label(self) -> Seq<char> {
        match self {
            WifiSecurity::Open => "Open"@,
            WifiSecurity::Wep => "WEP"@,
            WifiSecurity::Wpa => "WPA"@,
            WifiSecurity::Wpa2 => "WPA2"@,
            WifiSecurity::Wpa3 => "WPA3"@,
            WifiSecurity::Enterprise => "802.1X"@,
        }
    }

    /// Short label shown in lists and prompts.
    pub fn label(self) -> (r: &'static str)
        ensures
            r@ == self.spec_label(),
    {
        match self {
            WifiSecurity::Open => "Open",
            WifiSecurity::Wep => "WEP",
            WifiSecurity::Wpa => "WPA",
            WifiSecurity::Wpa2 => "WPA2",
            WifiSecurity::Wpa3 => "WPA3",
            WifiSecurity::Enterprise => "802.1X",
        }
    }

    /// Every mode but `Open` needs credentials.
    pub fn is_secured(self) -> (r: bool)
        ensures
            r == (self != WifiSecurity::Open),
    {
        !matches!(self, WifiSecurity::Open)
    }

    /// Security modes the connection editor allows cycling through.
    pub fn editable_values() -> (r: Vec<WifiSecurity>)
        ensures
            r@ == editable_security(),
    {
        let r = vec![WifiSecurity::Open, WifiSecurity::Wpa2, WifiSecurity::Wpa3];
        assert(r@ =~= editable_security());
        r
    }

    /// The next editable mode, wrapping around; a mode that is not editable
    /// counts as the first one.
    pub fn next_editable(self) -> (r: WifiSecurity)
        ensures
            r == editable_security()[(editable_index(self) + 1) % 3],
    {
        let all = Self::editable_values();
        let idx = position_of_security(&all, self);
        all[(idx + 1) % all.len()]
    }

    /// The previous editable mode, wrapping around; a mode that is not
    /// editable counts as the first one.
    pub fn prev_editable(self) -> (r: WifiSecurity)
        ensures
            r == editable_security()[(editable_index(self) + 2) % 3],
    {
        let all = Self::editable_values();
        let idx = position_of_security(&all, self);
        all[(idx + all.len() - 1) % all.len()]
    }
}

/// For an editable mode, stepping forward and then back returns to it.
pub proof fn lemma_editable_cycle(s: WifiSecurity)
    requires
        editable_security().contains(s),
    ensures
        editable_security()[(editable_index(editable_security()[(editable_index(s) + 1) % 3]) + 2)
            % 3] == s,
        editable_security()[(editable_index(editable_security()[(editable_index(s) + 2) % 3]) + 1)
            % 3] == s,
{
}

/// Index of the first occurrence of `s` in `all`, or 0 when absent.
fn position_of_security(all: &Vec<WifiSecurity>, s: WifiSecurity) -> (r: usize)
    requires
        all@ == editable_security(),
    ensures
        r == editable_index(s),
{
    let mut i: usize = 0;
    while i < all.len()
        invariant
            all@ == editable_security(),
            i <= all.len(),
            forall|j: int| 0 <= j < i ==> all@[j] != s,
        decreases all.len() - i,
    {
        if all[i] == s {
            return i;
        }
        i = i + 1;
    }
    0
}

/// Wi-Fi operating mode.
#[derive(Debug, Clone, Copy, PartialEq, Eq, Structural)]
pub enum WifiMode {
    Infrastructure,
    AdHoc,
    Ap,
    Mesh,
    Unknown,
}

// ── VpnInfo ──────────────────────────────────────────────────────────────────

/// VPN-specific connection data.
#[derive(Debug)]
pub struct VpnInfo {
    /// VPN service type (e.g. `org.freedesktop.NetworkManager.openvpn`).
    pub service_type: String,
}

// ── Mobile broadband ─────────────────────────────────────────────────────────

/// Radio access technology of a mobile broadband modem.
#[derive(Debug, Clone, Copy, PartialEq, Eq, Structural)]
pub enum AccessTechnology {
    Unknown,
    Gsm,
    Umts,
    Lte,
    Nr5G,
}

/// Mobile broadband connection data.
#[derive(Debug)]
pub struct ModemInfo {
    /// Access point name of the profile or the live bearer.
    pub apn: Option<String>,
    /// Registered operator name.
    pub operator_name: Option<String>,
    /// Registered operator code (MCC+MNC).
    pub operator_code: Option<String>,
    /// Signal quality 0–100.
    pub signal_quality: u8,
    pub access_technology: AccessTechnology,
    /// Whether the SIM waits for its PIN.
    pub sim_locked: bool,
}

impl ModemInfo {
    /// Renders signal quality as a four-cell bar.
    pub fn strength_bar(&self) -> (r: String)
        ensures
            r@ == bar_of(self.signal_quality),
            r@.len() == 4,
    {
        strength_bar_of(self.signal_quality)
    }
}

/// Live data read from one modem device.
#[derive(Debug)]
pub struct ModemLiveData {
    /// Interface name of the modem device (e.g. `wwan0`).
    pub interface: String,
    pub apn: Option<String>,
    pub operator_name: Option<String>,
    pub operator_code: Option<String>,
    pub signal_quality: u8,
    pub access_technology: AccessTechnology,
    pub sim_locked: bool,
}

// ── ConnectionStatus ─────────────────────────────────────────────────────────

/// Lifecycle state of a connection.
#[derive(Debug, Clone, Copy, PartialEq, Eq, Structural)]
pub enum ConnectionStatus {
    /// Connection is fully established.
    Active,
    /// Connection is in the process of being established.
    Activating,
    /// Connection is being deactivated.
    Deactivating,
    /// Connection is saved but not currently active.
    Inactive,
    /// State cannot be determined.
    Unknown,
}

impl ConnectionStatus {
    pub open spec fn spec_indicator(self) -> char {
        match self {
            ConnectionStatus::Active => '●',
            ConnectionStatus::Activating | ConnectionStatus::Deactivating => '◌',
            ConnectionStatus::Inactive => '○',
            ConnectionStatus::Unknown => '?',
        }
    }

    /// One-character status marker.
    pub fn indicator(self) -> (r: char)
        ensures
            r == self.spec_indicator(),
    {
        match self {
            ConnectionStatus::Active => '●',
            ConnectionStatus::Activating | ConnectionStatus::Deactivating => '◌',
            ConnectionStatus::Inactive => '○',
            ConnectionStatus::Unknown => '?',
        }
    }

    pub open spec fn spec_label(self) -> Seq<char> {
        match self {
            ConnectionStatus::Active => "Active"@,
            ConnectionStatus::Activating => "Activating…"@,
            ConnectionStatus::Deactivating => "Deactivating…"@,
            ConnectionStatus::Inactive => "Inactive"@,
            ConnectionStatus::Unknown => "Unknown"@,
        }
    }

    pub fn label(self) -> (r: &'static str)
        ensures
            r@ == self.spec_label(),
    {
        match self {
            ConnectionStatus::Active => "Active",
            ConnectionStatus::Activating => "Activating…",
            ConnectionStatus::Deactivating => "Deactivating…",
            ConnectionStatus::Inactive => "Inactive",
            ConnectionStatus::Unknown => "Unknown",
        }
    }
}

// ── Ip4Config ────────────────────────────────────────────────────────────────

/// IPv4 network configuration for an active connection.
#[derive(Debug)]
pub struct Ip4Config {
    /// Address in CIDR notation (e.g. `192.168.1.100/24`).
    pub address: String,
    /// Default gateway address.
    pub gateway: Option<String>,
    /// DNS server addresses.
    pub nameservers: Vec<String>,
}

// ── Ip6Config ────────────────────────────────────────────────────────────────

/// IPv6 network configuration for an active connection.
#[derive(Debug)]
pub struct Ip6Config {
    /// Address in CIDR notation (e.g. `2001:db8::10/64`).
    pub address: String,
    /// Default gateway address.
    pub gateway: Option<String>,
    /// DNS server addresses.
    pub nameservers: Vec<String>,
}

// ── Connection ───────────────────────────────────────────────────────────────

/// A network connection known to NetworkManager (saved or active).
#[derive(Debug)]
pub struct Connection {
    /// Human-readable connection name (from NM connection profile).
    pub id: String,
    /// Unique identifier assigned by NetworkManager.
    pub uuid: String,
    /// Connection kind and its type-specific data.
    pub kind: ConnectionKind,
    /// Current lifecycle state.
    pub status: ConnectionStatus,
    /// Network layer details; populated only for active connections.
    pub ip4: Option<Ip4Config>,
    /// IPv6 details; populated only for active connections.
    pub ip6: Option<Ip6Config>,
    /// Interface name of the attached device (e.g. `wlan0`, `eth0`).
    pub device: Option<String>,
    /// Whether this entry is a saved NM profile (`true`) or a visible-only AP (`false`).
    pub saved: bool,
}

impl Connection {
    pub open spec fn spec_label(&self) -> Seq<char> {
        match self.kind {
            ConnectionKind::Wifi(w) => w.ssid@,
            _ => self.id@,
        }
    }

    /// Returns `true` if the connection is currently active.
    pub fn is_active(&self) -> (r: bool)
        ensures
            r == (self.status == ConnectionStatus::Active),
    {
        matches!(self.status, ConnectionStatus::Active)
    }

    /// Returns `true` if this entry is a saved connection profile.
    pub fn is_saved(&self) -> (r: bool)
        ensures
            r == self.saved,
    {
        self.saved
    }

    /// Short label for list display: the SSID for Wi-Fi, the profile name otherwise.
    pub fn label(&self) -> (r: &str)
        ensures
            r@ == self.spec_label(),
    {
        match &self.kind {
            ConnectionKind::Wifi(w) => w.ssid.as_str(),
            _ => self.id.as_str(),
        }
    }
}

/// Returns Wi-Fi signal strength for sorting, or 0 for non-Wi-Fi entries.
pub fn wifi_strength(conn: &Connection) -> (r: u8)
    ensures
        r == (match conn.kind {
            ConnectionKind::Wifi(w) => w.strength,
            _ => 0u8,
        }),
{
    match &conn.kind {
        ConnectionKind::Wifi(w) => w.strength,
        _ => 0,
    }
}

// ── NmState ──────────────────────────────────────────────────────────────────

/// Overall NetworkManager connectivity state.
#[derive(Debug, Clone, Copy, PartialEq, Eq, Structural)]
pub enum NmState {
    Unknown,
    Asleep,
    Disconnected,
    Disconnecting,
    Connecting,
    ConnectedLocal,
    ConnectedSite,
    ConnectedGlobal,
}

impl NmState {
    pub open spec fn spec_from_u32(v: u32) -> NmState {
        if v == 10 {
            NmState::Asleep
        } else if v == 20 {
            NmState::Disconnected
        } else if v == 30 {
            NmState::Disconnecting
        } else if v == 40 {
            NmState::Connecting
        } else if v == 50 {
            NmState::ConnectedLocal
        } else if v == 60 {
            NmState::ConnectedSite
        } else if v == 70 {
            NmState::ConnectedGlobal
        } else {
            NmState::Unknown
        }
    }

    /// Decodes the `State` property of NetworkManager.
    pub fn from_u32(v: u32) -> (r: NmState)
        ensures
            r == Self::spec_from_u32(v),
    {
        match v {
            10 => NmState::Asleep,
            20 => NmState::Disconnected,
            30 => NmState::Disconnecting,
            40 => NmState::Connecting,
            50 => NmState::ConnectedLocal,
            60 => NmState::ConnectedSite,
            70 => NmState::ConnectedGlobal,
            _ => NmState::Unknown,
        }
    }

    pub open spec fn spec_label(self) -> Seq<char> {
        match self {
            NmState::Unknown => "Unknown"@,
            NmState::Asleep => "Asleep"@,
            NmState::Disconnected => "Disconnected"@,
            NmState::Disconnecting => "Disconnecting…"@,
            NmState::Connecting => "Connecting…"@,
            NmState::ConnectedLocal => "Connected (local only)"@,
            NmState::ConnectedSite => "Connected (site)"@,
            NmState::ConnectedGlobal => "Connected"@,
        }
    }

    pub fn label(self) -> (r: &'static str)
        ensures
            r@ == self.spec_label(),
    {
        match self {
            NmState::Unknown => "Unknown",
            NmState::Asleep => "Asleep",
            NmState::Disconnected => "Disconnected",
            NmState::Disconnecting => "Disconnecting…",
            NmState::Connecting => "Connecting…",
            NmState::ConnectedLocal => "Connected (local only)",
            NmState::ConnectedSite => "Connected (site)",
            NmState::ConnectedGlobal => "Connected",
        }
    }

    pub open spec fn spec_is_connected(self) -> bool {
        self == NmState::ConnectedLocal || self == NmState::ConnectedSite || self
            == NmState::ConnectedGlobal
    }

    pub fn is_connected(self) -> (r: bool)
        ensures
            r == self.spec_is_connected(),
    {
        matches!(self, NmState::ConnectedLocal | NmState::ConnectedSite | NmState::ConnectedGlobal)
    }
}

// ── ConnectivityState ────────────────────────────────────────────────────────

/// Internet connectivity check result (separate from NM state).
#[derive(Debug, Clone, Copy, PartialEq, Eq, Structural)]
pub enum ConnectivityState {
    Unknown,
    NoConnectivity,
    Portal,
    Limited,
    Full,
}

impl ConnectivityState {
    /// Decodes the `Connectivity` property of NetworkManager.
    pub fn from_u32(v: u32) -> (r: ConnectivityState)
        ensures
            r == (if v == 1 {
                ConnectivityState::NoConnectivity
            } else if v == 2 {
                ConnectivityState::Portal
            } else if v == 3 {
                ConnectivityState::Limited
            } else if v == 4 {
                ConnectivityState::Full
            } else {
                ConnectivityState::Unknown
            }),
    {
        match v {
            1 => ConnectivityState::NoConnectivity,
            2 => ConnectivityState::Portal,
            3 => ConnectivityState::Limited,
            4 => ConnectivityState::Full,
            _ => ConnectivityState::Unknown,
        }
    }
}

} // verus!
