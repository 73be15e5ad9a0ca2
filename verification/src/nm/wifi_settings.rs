//! Building NetworkManager settings for new connections.

use vstd::prelude::*;
use crate::connection::WifiSecurity;
use crate::error::Error;
use crate::nm::dict::{NmSettings, Section, SettingValue, SettingValueView, SettingsView, StrMap};
use crate::text::own;
use crate::connection::profile::ConnectionProfileView;
use crate::nm::connection_settings::{lemma_keys_distinct, profile_of, wifi_profile_of};

verus! {

pub open spec fn is_hex_lower(c: char) -> bool {
    ('0' <= c && c <= '9') || ('a' <= c && c <= 'f')
}

/// Hyphenated lower-case UUID text: 8-4-4-4-12 hexadecimal digits.
pub open spec fn is_uuid_text(u: Seq<char>) -> bool {
    &&& u.len() == 36
    &&& forall|i: int|
        0 <= i < 36 ==> if i == 8 || i == 13 || i == 18 || i == 23 {
            #[trigger] u[i] == '-'
        } else {
            is_hex_lower(u[i])
        }
}

/// A fresh random (version 4) UUID in its hyphenated lower-case text form
/// (`uuid::Uuid::new_v4`, rendered by its `Display` impl).  The value is
/// random: two calls may differ.
#[verifier::external_body]
pub(crate) fn new_uuid() -> (r: String)
    ensures
        is_uuid_text(r@),
{
    uuid::Uuid::new_v4().to_string()
}

/// A section with one string value.
pub open spec fn one_str(key: Seq<char>, v: Seq<char>) -> Map<Seq<char>, SettingValueView> {
    Map::empty().insert(key, SettingValueView::Str(v))
}

/// Settings for a new Wi-Fi connection with the given UUID.
pub open spec fn new_wifi_settings(
    ssid: Seq<char>,
    security: WifiSecurity,
    password: Seq<char>,
    hidden: bool,
    uuid: Seq<char>,
) -> SettingsView {
    let connection = Map::empty().insert("type"@, SettingValueView::Str("802-11-wireless"@)).insert(
        "uuid"@,
        SettingValueView::Str(uuid),
    ).insert("id"@, SettingValueView::Str(ssid));
    let wireless0 = Map::empty().insert(
        "ssid"@,
        SettingValueView::Bytes(vstd::utf8::encode_utf8(ssid)),
    ).insert("mode"@, SettingValueView::Str("infrastructure"@));
    let wireless = if hidden {
        wireless0.insert("hidden"@, SettingValueView::Bool(true))
    } else {
        wireless0
    };
    let base = Map::empty().insert("connection"@, connection).insert("802-11-wireless"@, wireless);
    let with_sec = if security != WifiSecurity::Open {
        let sec0 = if security == WifiSecurity::Wpa3 {
            Map::empty().insert("key-mgmt"@, SettingValueView::Str("sae"@))
        } else {
            Map::empty().insert("key-mgmt"@, SettingValueView::Str("wpa-psk"@)).insert(
                "auth-alg"@,
                SettingValueView::Str("open"@),
            )
        };
        base.insert(
            "802-11-wireless-security"@,
            sec0.insert("psk"@, SettingValueView::Str(password)),
        )
    } else {
        base
    };
    with_sec.insert("ipv4"@, one_str("method"@, "auto"@)).insert(
        "ipv6"@,
        one_str("method"@, "ignore"@),
    )
}

/// Why a new Wi-Fi connection cannot be built, if it cannot.
pub open spec fn new_wifi_error(ssid: Seq<char>, security: WifiSecurity, password: Option<Seq<char>>) -> Option<Seq<char>> {
    if ssid.len() == 0 {
        Some("SSID must not be empty"@)
    } else if security == WifiSecurity::Enterprise {
        Some("802.1X enterprise networks are not supported here"@)
    } else if security == WifiSecurity::Wep {
        Some("WEP networks are not supported here"@)
    } else if security != WifiSecurity::Open && (password is None || password->0.len() == 0) {
        Some("Password is required for secured networks"@)
    } else {
        None
    }
}

pub open spec fn opt_str_view(o: Option<&str>) -> Option<Seq<char>> {
    match o {
        Some(s) => Some(s@),
        None => None,
    }
}

/// The UUID text stored in `connection.uuid`.
pub open spec fn uuid_of(s: SettingsView) -> Seq<char> {
    if s.contains_key("connection"@) && s["connection"@].contains_key("uuid"@) {
        match s["connection"@]["uuid"@] {
            SettingValueView::Str(u) => u,
            _ => Seq::empty(),
        }
    } else {
        Seq::empty()
    }
}

fn str_value(s: &str) -> (r: SettingValue)
    ensures
        r@ == SettingValueView::Str(s@),
{
    SettingValue::Str(own(s))
}

/// A section holding `key = v` only.
pub(crate) fn one_str_section(key: &str, v: &str) -> (r: Section)
    ensures
        r@ == one_str(key@, v@),
{
    let mut s = StrMap::new();
    s.insert(own(key), str_value(v));
    s
}

/// Build a connection settings dict suitable for `AddAndActivateConnection`.
pub fn wifi_connection_settings(
    ssid: &str,
    security: WifiSecurity,
    password: Option<&str>,
    hidden: bool,
) -> (r: Result<NmSettings, Error>)
    ensures
        r is Err <==> new_wifi_error(ssid@, security, opt_str_view(password)) is Some,
        r matches Err(e) ==> e is OperationFailed && e.failure_text() == new_wifi_error(
            ssid@,
            security,
            opt_str_view(password),
        )->Some_0,
        r matches Ok(s) ==> is_uuid_text(uuid_of(s@)) && s@ == new_wifi_settings(
            ssid@,
            security,
            match password {
                Some(p) => p@,
                None => Seq::empty(),
            },
            hidden,
            uuid_of(s@),
        ),
{
    if ssid.is_empty() {
        return Err(Error::OperationFailed(own("SSID must not be empty")));
    }
    match security {
        WifiSecurity::Enterprise => {
            return Err(
                Error::OperationFailed(own("802.1X enterprise networks are not supported here")),
            );
        },
        WifiSecurity::Wep => {
            return Err(Error::OperationFailed(own("WEP networks are not supported here")));
        },
        WifiSecurity::Open => {},
        WifiSecurity::Wpa | WifiSecurity::Wpa2 | WifiSecurity::Wpa3 => {
            let missing = match password {
                Some(p) => p.is_empty(),
                None => true,
            };
            if missing {
                return Err(
                    Error::OperationFailed(own("Password is required for secured networks")),
                );
            }
        },
    }
    let psk: &str = match password {
        Some(p) => p,
        None => "",
    };
    let uuid = new_uuid();
    let ghost u = uuid@;

    let mut settings: NmSettings = StrMap::new();
    let mut connection: Section = StrMap::new();
    connection.insert(own("type"), str_value("802-11-wireless"));
    connection.insert(own("uuid"), SettingValue::Str(uuid));
    connection.insert(own("id"), str_value(ssid));
    settings.insert(own("connection"), connection);

    let mut wireless: Section = StrMap::new();
    let ssid_owned = own(ssid);
    let bytes = vstd::slice::slice_to_vec(ssid_owned.as_str().as_bytes());
    wireless.insert(own("ssid"), SettingValue::Bytes(bytes));
    wireless.insert(own("mode"), str_value("infrastructure"));
    if hidden {
        wireless.insert(own("hidden"), SettingValue::Bool(true));
    }
    settings.insert(own("802-11-wireless"), wireless);

    if security.is_secured() {
        let mut sec: Section = StrMap::new();
        if security == WifiSecurity::Wpa3 {
            sec.insert(own("key-mgmt"), str_value("sae"));
        } else {
            sec.insert(own("key-mgmt"), str_value("wpa-psk"));
            sec.insert(own("auth-alg"), str_value("open"));
        }
        sec.insert(own("psk"), str_value(psk));
        settings.insert(own("802-11-wireless-security"), sec);
    }
    settings.insert(own("ipv4"), one_str_section("method", "auto"));
    settings.insert(own("ipv6"), one_str_section("method", "ignore"));
    proof {
        crate::nm::connection_settings::lemma_keys_distinct();
        reveal_strlit("uuid");
        reveal_strlit("type");
        assert("uuid"@.len() == 4 && "type"@.len() == 4);
        assert("uuid"@[0] == 'u' && "type"@[0] == 't');
        reveal_strlit("id");
        assert("id"@.len() == 2);
        assert(uuid_of(settings@) == u);
    }
    Ok(settings)
}


/// A new Wi-Fi connection reads back as a Wi-Fi profile with the SSID,
/// password and hidden flag it was built with, switched on for automatic
/// connection. WPA reads back as WPA2: both are written as WPA-PSK.
pub proof fn lemma_new_wifi_reads_back(
    ssid: Seq<char>,
    security: WifiSecurity,
    password: Seq<char>,
    hidden: bool,
    uuid: Seq<char>,
)
    requires
        security != WifiSecurity::Enterprise,
        security != WifiSecurity::Wep,
    ensures
        ({
            let s = new_wifi_settings(ssid, security, password, hidden, uuid);
            let w = wifi_profile_of(s, None);
            &&& profile_of(s, None) == ConnectionProfileView::Wifi(w)
            &&& w.ssid == ssid
            &&& w.security == (if security == WifiSecurity::Wpa {
                WifiSecurity::Wpa2
            } else {
                security
            })
            &&& w.psk == (if security == WifiSecurity::Open {
                Seq::<char>::empty()
            } else {
                password
            })
            &&& w.hidden == hidden
            &&& w.autoconnect
            &&& w.vpn_secondary is None
        }),
{
    lemma_keys_distinct();
    vstd::utf8::encode_utf8_decode_utf8(ssid);
    vstd::utf8::encode_utf8_valid_utf8(ssid);
    reveal_strlit("type");
    reveal_strlit("uuid");
    reveal_strlit("id");
    reveal_strlit("ssid");
    reveal_strlit("mode");
    reveal_strlit("hidden");
    reveal_strlit("key-mgmt");
    reveal_strlit("auth-alg");
    reveal_strlit("psk");
    reveal_strlit("autoconnect");
    reveal_strlit("secondaries");
    reveal_strlit("wpa-psk");
    reveal_strlit("sae");
    reveal_strlit("wpa-eap");
    reveal_strlit("none");
    reveal_strlit("ieee8021x");
    assert("type"@ != "uuid"@ && "type"@ != "id"@ && "uuid"@ != "id"@);
    assert("ssid"@ != "mode"@ && "ssid"@ != "hidden"@ && "mode"@ != "hidden"@);
    assert("key-mgmt"@ != "psk"@ && "auth-alg"@ != "psk"@ && "key-mgmt"@ != "auth-alg"@);
    assert("autoconnect"@ != "type"@ && "autoconnect"@ != "uuid"@ && "autoconnect"@ != "id"@);
    assert("secondaries"@ != "type"@ && "secondaries"@ != "uuid"@ && "secondaries"@ != "id"@);
    assert("wpa-psk"@ != "sae"@ && "sae"@ != "wpa-eap"@ && "sae"@ != "none"@ && "sae"@
        != "ieee8021x"@);
    assert("wpa-psk"@ != "wpa-eap"@ && "wpa-psk"@ != "none"@ && "wpa-psk"@ != "ieee8021x"@);
}

} // verus!
