//! Editable connection profile settings (saved NM profiles, not live IP config).

use vstd::prelude::*;
use super::WifiSecurity;

verus! {

/// IP configuration method for a saved connection profile.
#[derive(Debug, Clone, Copy, PartialEq, Eq, Structural)]
pub enum IpMethod {
    Auto,
    Manual,
    Disabled,
    Shared,
    LinkLocal,
}

/// All methods, in the order the editor cycles through them.
pub open spec fn all_ip_methods() -> Seq<IpMethod> {
    seq![IpMethod::Auto, IpMethod::Manual, IpMethod::Disabled, IpMethod::Shared, IpMethod::LinkLocal]
}

/// Position of a method in `all_ip_methods()`.
pub open spec fn ip_method_index(m: IpMethod) -> int {
    match m {
        IpMethod::Auto => 0,
        IpMethod::Manual => 1,
        IpMethod::Disabled => 2,
        IpMethod::Shared => 3,
        IpMethod::LinkLocal => 4,
    }
}

impl IpMethod {
    pub open spec fn spec_label(self) -> Seq<char> {
        match self {
            IpMethod::Auto => "Automatic (DHCP)"@,
            IpMethod::Manual => "Manual"@,
            IpMethod::Disabled => "Disabled"@,
            IpMethod::Shared => "Shared"@,
            IpMethod::LinkLocal => "Link-local"@,
        }
    }

    pub fn label(self) -> (r: &'static str)
        ensures
            r@ == self.spec_label(),
    {
        match self {
            IpMethod::Auto => "Automatic (DHCP)",
            IpMethod::Manual => "Manual",
            IpMethod::Disabled => "Disabled",
            IpMethod::Shared => "Shared",
            IpMethod::LinkLocal => "Link-local",
        }
    }

    pub fn all() -> (r: Vec<IpMethod>)
        ensures
            r@ == all_ip_methods(),
    {
        let r = vec![
            IpMethod::Auto,
            IpMethod::Manual,
            IpMethod::Disabled,
            IpMethod::Shared,
            IpMethod::LinkLocal,
        ];
        assert(r@ =~= all_ip_methods());
        r
    }

    /// The next method, wrapping around.
    pub fn next(self) -> (r: IpMethod)
        ensures
            r == all_ip_methods()[(ip_method_index(self) + 1) % 5],
    {
        let all = Self::all();
        let idx = position_of_method(&all, self);
        all[(idx + 1) % all.len()]
    }

    /// The previous method, wrapping around.
    pub fn prev(self) -> (r: IpMethod)
        ensures
            r == all_ip_methods()[(ip_method_index(self) + 4) % 5],
    {
        let all = Self::all();
        let idx = position_of_method(&all, self);
        all[(idx + all.len() - 1) % all.len()]
    }
}

/// Stepping forward and then back through the methods returns to the start,
/// and five steps forward go all the way round.
pub proof fn lemma_ip_method_cycle(m: IpMethod)
    ensures
        all_ip_methods()[(ip_method_index(all_ip_methods()[(ip_method_index(m) + 1) % 5]) + 4)
            % 5] == m,
        all_ip_methods()[(ip_method_index(all_ip_methods()[(ip_method_index(m) + 4) % 5]) + 1)
            % 5] == m,
        all_ip_methods()[ip_method_index(m)] == m,
{
}

fn position_of_method(all: &Vec<IpMethod>, m: IpMethod) -> (r: usize)
    requires
        all@ == all_ip_methods(),
    ensures
        r == ip_method_index(m),
{
    let mut i: usize = 0;
    while i < all.len()
        invariant
            all@ == all_ip_methods(),
            i <= all.len(),
            forall|j: int| 0 <= j < i ==> all@[j] != m,
        decreases all.len() - i,
    {
        if all[i] == m {
            return i;
        }
        i = i + 1;
    }
    0
}

/// Mathematical value of an IPv4 or IPv6 profile section.
pub struct IpProfileView {
    pub method: IpMethod,
    pub address: Seq<char>,
    pub prefix: u32,
    pub gateway: Seq<char>,
    pub dns: Seq<char>,
}

/// An IP section with the given default prefix and nothing else set.
pub open spec fn ip_profile_default(prefix: u32) -> IpProfileView {
    IpProfileView {
        method: IpMethod::Auto,
        address: Seq::empty(),
        prefix,
        gateway: Seq::empty(),
        dns: Seq::empty(),
    }
}

/// IPv4 settings stored in a connection profile.
#[derive(Debug)]
pub struct Ipv4Profile {
    pub method: IpMethod,
    /// Host address without prefix (e.g. `192.168.1.10`).
    pub address: String,
    /// CIDR prefix length (e.g. `24`).
    pub prefix: u32,
    pub gateway: String,
    /// Primary DNS server address.
    pub dns: String,
}

impl View for Ipv4Profile {
    type V = IpProfileView;

    open spec fn view(&self) -> IpProfileView {
        IpProfileView {
            method: self.method,
            address: self.address@,
            prefix: self.prefix,
            gateway: self.gateway@,
            dns: self.dns@,
        }
    }
}

impl Default for Ipv4Profile {
    fn default() -> (r: Self)
        ensures
            r@ == ip_profile_default(24),
    {
        Ipv4Profile {
            method: IpMethod::Auto,
            address: String::new(),
            prefix: 24,
            gateway: String::new(),
            dns: String::new(),
        }
    }
}

impl Clone for Ipv4Profile {
    fn clone(&self) -> (r: Self)
        ensures
            r@ == self@,
    {
        Ipv4Profile {
            method: self.method,
            address: self.address.clone(),
            prefix: self.prefix,
            gateway: self.gateway.clone(),
            dns: self.dns.clone(),
        }
    }
}

/// IPv6 settings stored in a connection profile.
#[derive(Debug)]
pub struct Ipv6Profile {
    pub method: IpMethod,
    /// Host address without prefix (e.g. `2001:db8::10`).
    pub address: String,
    /// CIDR prefix length (e.g. `64`).
    pub prefix: u32,
    pub gateway: String,
    /// Primary DNS server address.
    pub dns: String,
}

impl View for Ipv6Profile {
    type V = IpProfileView;

    open spec fn view(&self) -> IpProfileView {
        IpProfileView {
            method: self.method,
            address: self.address@,
            prefix: self.prefix,
            gateway: self.gateway@,
            dns: self.dns@,
        }
    }
}

impl Default for Ipv6Profile {
    fn default() -> (r: Self)
        ensures
            r@ == ip_profile_default(64),
    {
        Ipv6Profile {
            method: IpMethod::Auto,
            address: String::new(),
            prefix: 64,
            gateway: String::new(),
            dns: String::new(),
        }
    }
}

impl Clone for Ipv6Profile {
    fn clone(&self) -> (r: Self)
        ensures
            r@ == self@,
    {
        Ipv6Profile {
            method: self.method,
            address: self.address.clone(),
            prefix: self.prefix,
            gateway: self.gateway.clone(),
            dns: self.dns.clone(),
        }
    }
}

/// Mathematical value of a Wi-Fi profile.
pub struct WifiProfileView {
    pub ssid: Seq<char>,
    pub security: WifiSecurity,
    pub psk: Seq<char>,
    pub hidden: bool,
    pub autoconnect: bool,
    pub vpn_secondary: Option<Seq<char>>,
    pub ipv4: IpProfileView,
    pub ipv6: IpProfileView,
}

pub open spec fn opt_view(o: Option<String>) -> Option<Seq<char>> {
    match o {
        Some(s) => Some(s@),
        None => None,
    }
}

/// Editable Wi-Fi profile fields.
#[derive(Debug)]
pub struct WifiProfile {
    pub ssid: String,
    pub security: WifiSecurity,
    /// Pre-shared key; empty means "leave unchanged" on save.
    pub psk: String,
    pub hidden: bool,
    pub autoconnect: bool,
    /// VPN profile UUID to activate when this connection comes up.
    pub vpn_secondary: Option<String>,
    pub ipv4: Ipv4Profile,
    pub ipv6: Ipv6Profile,
}

impl View for WifiProfile {
    type V = WifiProfileView;

    open spec fn view(&self) -> WifiProfileView {
        WifiProfileView {
            ssid: self.ssid@,
            security: self.security,
            psk: self.psk@,
            hidden: self.hidden,
            autoconnect: self.autoconnect,
            vpn_secondary: opt_view(self.vpn_secondary),
            ipv4: self.ipv4@,
            ipv6: self.ipv6@,
        }
    }
}

/// Mathematical value of an Ethernet profile.
pub struct EthernetProfileView {
    pub name: Seq<char>,
    pub autoconnect: bool,
    pub vpn_secondary: Option<Seq<char>>,
    pub ipv4: IpProfileView,
    pub ipv6: IpProfileView,
    pub mtu: Seq<char>,
    pub cloned_mac: Seq<char>,
}

/// Editable Ethernet profile fields.
#[derive(Debug)]
pub struct EthernetProfile {
    /// Connection display name (NM `connection.id`).
    pub name: String,
    pub autoconnect: bool,
    /// VPN profile UUID to activate when this connection comes up.
    pub vpn_secondary: Option<String>,
    pub ipv4: Ipv4Profile,
    pub ipv6: Ipv6Profile,
    /// Empty string means leave MTU unchanged / default.
    pub mtu: String,
    /// Empty string means leave MAC unchanged / default.
    pub cloned_mac: String,
}

impl View for EthernetProfile {
    type V = EthernetProfileView;

    open spec fn view(&self) -> EthernetProfileView {
        EthernetProfileView {
            name: self.name@,
            autoconnect: self.autoconnect,
            vpn_secondary: opt_view(self.vpn_secondary),
            ipv4: self.ipv4@,
            ipv6: self.ipv6@,
            mtu: self.mtu@,
            cloned_mac: self.cloned_mac@,
        }
    }
}

/// Mathematical value of a VPN profile.
pub struct VpnProfileView {
    pub name: Seq<char>,
    pub service_type: Seq<char>,
    pub gateway: Seq<char>,
    pub username: Seq<char>,
    pub password: Seq<char>,
    pub port: Seq<char>,
    pub protocol: Seq<char>,
    pub group_name: Seq<char>,
    pub ipv4: IpProfileView,
    pub ipv6: IpProfileView,
}

/// Editable VPN profile fields.
#[derive(Debug)]
pub struct VpnProfile {
    /// Connection display name (NM `connection.id`).
    pub name: String,
    pub service_type: String,
    /// VPN gateway / remote host (plugin-specific key).
    pub gateway: String,
    pub username: String,
    /// VPN password; stored in `vpn-secrets` when non-empty.
    pub password: String,
    /// OpenVPN port; empty leaves unchanged.
    pub port: String,
    /// OpenVPN transport (`tcp` / `udp`).
    pub protocol: String,
    /// Cisco VPNC group name.
    pub group_name: String,
    pub ipv4: Ipv4Profile,
    pub ipv6: Ipv6Profile,
}

impl View for VpnProfile {
    type V = VpnProfileView;

    open spec fn view(&self) -> VpnProfileView {
        VpnProfileView {
            name: self.name@,
            service_type: self.service_type@,
            gateway: self.gateway@,
            username: self.username@,
            password: self.password@,
            port: self.port@,
            protocol: self.protocol@,
            group_name: self.group_name@,
            ipv4: self.ipv4@,
            ipv6: self.ipv6@,
        }
    }
}

/// A VPN profile with every text field empty but the `udp` transport.
pub open spec fn vpn_profile_default() -> VpnProfileView {
    VpnProfileView {
        name: Seq::empty(),
        service_type: Seq::empty(),
        gateway: Seq::empty(),
        username: Seq::empty(),
        password: Seq::empty(),
        port: Seq::empty(),
        protocol: "udp"@,
        group_name: Seq::empty(),
        ipv4: ip_profile_default(24),
        ipv6: ip_profile_default(64),
    }
}

impl Default for VpnProfile {
    fn default() -> (r: Self)
        ensures
            r@ == vpn_profile_default(),
    {
        VpnProfile {
            name: String::new(),
            service_type: String::new(),
            gateway: String::new(),
            username: String::new(),
            password: String::new(),
            port: String::new(),
            protocol: crate::text::own("udp"),
            group_name: String::new(),
            ipv4: Ipv4Profile::default(),
            ipv6: Ipv6Profile::default(),
        }
    }
}

/// Mathematical value of a connection profile.
pub enum ConnectionProfileView {
    Wifi(WifiProfileView),
    Ethernet(EthernetProfileView),
    Vpn(VpnProfileView),
    Unsupported { id: Seq<char>, conn_type: Seq<char> },
}

/// Top-level editable profile, keyed by connection kind.
#[derive(Debug)]
pub enum ConnectionProfile {
    Wifi(WifiProfile),
    Ethernet(EthernetProfile),
    Vpn(VpnProfile),
    /// Connection types without an editor (loopback, etc.).
    Unsupported { id: String, conn_type: String },
}

impl View for ConnectionProfile {
    type V = ConnectionProfileView;

    open spec fn view(&self) -> ConnectionProfileView {
        match self {
            ConnectionProfile::Wifi(w) => ConnectionProfileView::Wifi(w@),
            ConnectionProfile::Ethernet(e) => ConnectionProfileView::Ethernet(e@),
            ConnectionProfile::Vpn(v) => ConnectionProfileView::Vpn(v@),
            ConnectionProfile::Unsupported { id, conn_type } => ConnectionProfileView::Unsupported {
                id: id@,
                conn_type: conn_type@,
            },
        }
    }
}

impl ConnectionProfile {
    /// Every kind but `Unsupported` has an editor.
    pub fn is_editable(&self) -> (r: bool)
        ensures
            r == !(self is Unsupported),
    {
        !matches!(self, ConnectionProfile::Unsupported { .. })
    }
}

} // verus!
