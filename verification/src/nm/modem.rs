//! Mobile broadband data from NetworkManager's modem devices and ModemManager.

use vstd::prelude::*;
use crate::connection::{AccessTechnology, ModemInfo, ModemLiveData};
use crate::connection::profile::opt_view;
use crate::nm::dict::{NmSettings, SettingValue, SettingsView, SettingValueView};
use crate::nm::connection_settings::{get_str_field, str_field};
use crate::error::Error;
use crate::text::own;

verus! {

/// NM device type constant for mobile broadband modems.
pub const DEVICE_TYPE_MODEM: u32 = 8;

/// ModemManager lock: SIM PIN required.
pub const MM_MODEM_LOCK_SIM_PIN: u32 = 2;

/// ModemManager access technology bit flags.
pub const MM_ACCESS_TECH_GSM: u32 = 0x2;
pub const MM_ACCESS_TECH_UMTS: u32 = 0x20;
pub const MM_ACCESS_TECH_LTE: u32 = 0x800;
pub const MM_ACCESS_TECH_5GNR: u32 = 0x10000;

/// NM modem capability bit flags.
pub const NM_MODEM_CAP_LTE: u32 = 0x4;
pub const NM_MODEM_CAP_5GNR: u32 = 0x8;

/// Whether an NM device of type `device_type` is a modem.
pub fn is_modem_device(device_type: u32) -> (r: bool)
    ensures
        r == (device_type == 8),
{
    device_type == DEVICE_TYPE_MODEM
}

/// What is known so far of one device while looking for a modem that waits
/// for its SIM PIN; each reading is taken only when the ones before it do not
/// already settle the device.
#[derive(Debug)]
pub struct PinProbe {
    /// The NM device type.
    pub device_type: u32,
    /// The ModemManager id of the modem, once read.
    pub device_id: Option<String>,
    /// The ModemManager lock, once read.
    pub unlock_required: Option<u32>,
    /// The object path of the SIM, once read.
    pub sim_path: Option<String>,
}

/// The next step of the search on one device.
#[derive(Debug)]
pub enum PinStep {
    /// The device is not a modem waiting for its PIN: go on to the next one.
    NextDevice,
    /// Read the modem's ModemManager id.
    ReadDeviceId,
    /// Read the modem's lock.
    ReadUnlock,
    /// Read the modem's SIM path.
    ReadSim,
    /// The modem waits for its PIN but has no SIM: the search fails.
    Fail(Error),
    /// Send the PIN to the SIM at the probe's path; the search ends.
    SendPin,
}

/// The decision [`pin_step`] takes, as the contracts see it.
pub enum PinDecision {
    NextDevice,
    ReadDeviceId,
    ReadUnlock,
    ReadSim,
    NoSim,
    SendPin,
}

/// What to do next with a device, given what has been read of it.
pub open spec fn spec_pin_step(p: PinProbe) -> PinDecision {
    if p.device_type != 8 {
        PinDecision::NextDevice
    } else {
        match p.device_id {
            None => PinDecision::ReadDeviceId,
            Some(id) => if id@.len() == 0 {
                PinDecision::NextDevice
            } else {
                match p.unlock_required {
                    None => PinDecision::ReadUnlock,
                    Some(u) => if u != 2 {
                        PinDecision::NextDevice
                    } else {
                        match p.sim_path {
                            None => PinDecision::ReadSim,
                            Some(path) => if path@ == "/"@ {
                                PinDecision::NoSim
                            } else {
                                PinDecision::SendPin
                            },
                        }
                    },
                }
            },
        }
    }
}

/// The next step of the search for a modem waiting for its SIM PIN: devices
/// that are not modems, modems without a ModemManager id and modems not
/// locked by a SIM PIN are passed over; the first modem waiting for its PIN
/// gets it, or the search fails with `no SIM present` when it has no SIM.
pub fn pin_step(p: &PinProbe) -> (r: PinStep)
    ensures
        match spec_pin_step(*p) {
            PinDecision::NoSim => r matches PinStep::Fail(e) && e is OperationFailed
                && e.failure_text() == "no SIM present"@,
            PinDecision::NextDevice => r is NextDevice,
            PinDecision::ReadDeviceId => r is ReadDeviceId,
            PinDecision::ReadUnlock => r is ReadUnlock,
            PinDecision::ReadSim => r is ReadSim,
            PinDecision::SendPin => r is SendPin,
        },
{
    if !is_modem_device(p.device_type) {
        return PinStep::NextDevice;
    }
    let id = match &p.device_id {
        None => {
            return PinStep::ReadDeviceId;
        },
        Some(id) => id,
    };
    if id.as_str().is_empty() {
        return PinStep::NextDevice;
    }
    let unlock = match p.unlock_required {
        None => {
            return PinStep::ReadUnlock;
        },
        Some(u) => u,
    };
    if !is_sim_pin_locked(unlock) {
        return PinStep::NextDevice;
    }
    match &p.sim_path {
        None => PinStep::ReadSim,
        Some(path) => if crate::text::str_eq(path.as_str(), "/") {
            PinStep::Fail(Error::OperationFailed(own("no SIM present")))
        } else {
            PinStep::SendPin
        },
    }
}

/// The error of a search that found no modem waiting for its SIM PIN.
pub fn no_locked_modem() -> (r: Error)
    ensures
        r matches Error::DeviceNotFound(s) && s@ == "locked modem"@,
{
    Error::DeviceNotFound(own("locked modem"))
}

/// Technology from NM's current modem capabilities: 5G NR first, then LTE.
pub open spec fn caps_technology(caps: u32) -> AccessTechnology {
    if caps & 0x8 != 0 {
        AccessTechnology::Nr5G
    } else if caps & 0x4 != 0 {
        AccessTechnology::Lte
    } else {
        AccessTechnology::Unknown
    }
}

/// Technology from ModemManager's access technology flags, newest first.
pub open spec fn mm_technology(tech: u32) -> AccessTechnology {
    if tech & 0x10000 != 0 {
        AccessTechnology::Nr5G
    } else if tech & 0x800 != 0 {
        AccessTechnology::Lte
    } else if tech & 0x20 != 0 {
        AccessTechnology::Umts
    } else if tech & 0x2 != 0 {
        AccessTechnology::Gsm
    } else {
        AccessTechnology::Unknown
    }
}

pub fn caps_to_access_technology(caps: u32) -> (r: AccessTechnology)
    ensures
        r == caps_technology(caps),
{
    if caps & NM_MODEM_CAP_5GNR != 0 {
        AccessTechnology::Nr5G
    } else if caps & NM_MODEM_CAP_LTE != 0 {
        AccessTechnology::Lte
    } else {
        AccessTechnology::Unknown
    }
}

pub fn mm_access_technology(tech: u32) -> (r: AccessTechnology)
    ensures
        r == mm_technology(tech),
{
    if tech & MM_ACCESS_TECH_5GNR != 0 {
        AccessTechnology::Nr5G
    } else if tech & MM_ACCESS_TECH_LTE != 0 {
        AccessTechnology::Lte
    } else if tech & MM_ACCESS_TECH_UMTS != 0 {
        AccessTechnology::Umts
    } else if tech & MM_ACCESS_TECH_GSM != 0 {
        AccessTechnology::Gsm
    } else {
        AccessTechnology::Unknown
    }
}

/// A string that is present and not empty.
pub open spec fn non_empty(o: Option<Seq<char>>) -> Option<Seq<char>> {
    match o {
        Some(s) => if s.len() > 0 { Some(s) } else { None },
        None => None,
    }
}

fn keep_non_empty(o: Option<String>) -> (r: Option<String>)
    ensures
        opt_view(r) == non_empty(opt_view(o)),
{
    match o {
        Some(s) => if s.as_str().is_empty() { None } else { Some(s) },
        None => None,
    }
}

/// Build initial modem info from a saved GSM connection profile: the APN
/// of the `gsm` section when it is not empty, nothing live yet.
/// `m` is the modem data of the saved settings `raw`: the APN when set,
/// nothing live.
pub open spec fn saved_modem_info(m: ModemInfo, raw: SettingsView) -> bool {
    &&& opt_view(m.apn) == non_empty(str_field(raw, "gsm"@, "apn"@))
    &&& m.operator_name is None
    &&& m.operator_code is None
    &&& m.signal_quality == 0
    &&& m.access_technology == AccessTechnology::Unknown
    &&& !m.sim_locked
}

pub fn build_modem_info(raw: &NmSettings) -> (r: ModemInfo)
    ensures
        saved_modem_info(r, raw@),
{
    ModemInfo {
        apn: keep_non_empty(get_str_field(raw, "gsm", "apn")),
        operator_name: None,
        operator_code: None,
        signal_quality: 0,
        access_technology: AccessTechnology::Unknown,
        sim_locked: false,
    }
}

/// What ModemManager reported for one modem.
#[derive(Debug)]
pub struct ModemManagerReadings {
    /// Signal quality in percent, when it could be read.
    pub signal_quality: Option<u32>,
    /// The lock that the modem waits on (0 when it could not be read).
    pub unlock_required: u32,
    /// Access technology flags, when they could be read.
    pub access_technologies: Option<u32>,
    /// Operator name from the 3GPP interface, when it could be read.
    pub operator_name: Option<String>,
}

/// Whether a modem waits for its SIM PIN.
pub fn is_sim_pin_locked(unlock_required: u32) -> (r: bool)
    ensures
        r == (unlock_required == 2),
{
    unlock_required == MM_MODEM_LOCK_SIM_PIN
}

/// Combines what NetworkManager and ModemManager report for one modem.
///
/// Empty operator codes, APNs and operator names count as absent.  Without
/// ModemManager readings the quality is 0, the SIM counts as unlocked and
/// the technology comes from NM's capabilities; with them, the quality is
/// capped at 100 and ModemManager's technology wins when it was read.
pub fn modem_live_data(
    interface: String,
    operator_code: Option<String>,
    apn: Option<String>,
    current_caps: u32,
    mm: Option<ModemManagerReadings>,
) -> (r: ModemLiveData)
    ensures
        r.interface == interface,
        opt_view(r.operator_code) == non_empty(opt_view(operator_code)),
        opt_view(r.apn) == non_empty(opt_view(apn)),
        r.signal_quality == (match mm {
            Some(m) => match m.signal_quality {
                Some(q) => if q > 100 { 100 } else { q },
                None => 0,
            },
            None => 0,
        }),
        r.sim_locked == (mm is Some && mm->0.unlock_required == 2),
        r.access_technology == (match mm {
            Some(m) => match m.access_technologies {
                Some(t) => mm_technology(t),
                None => caps_technology(current_caps),
            },
            None => caps_technology(current_caps),
        }),
        opt_view(r.operator_name) == (match mm {
            Some(m) => non_empty(opt_view(m.operator_name)),
            None => None,
        }),
{
    let mut signal_quality: u8 = 0;
    let mut access_technology = caps_to_access_technology(current_caps);
    let mut operator_name: Option<String> = None;
    let mut sim_locked = false;
    match mm {
        Some(m) => {
            if let Some(q) = m.signal_quality {
                signal_quality = if q > 100 { 100 } else { q as u8 };
            }
            sim_locked = is_sim_pin_locked(m.unlock_required);
            if let Some(t) = m.access_technologies {
                access_technology = mm_access_technology(t);
            }
            operator_name = keep_non_empty(m.operator_name);
        },
        None => {},
    }
    ModemLiveData {
        interface,
        apn: keep_non_empty(apn),
        operator_name,
        operator_code: keep_non_empty(operator_code),
        signal_quality,
        access_technology,
        sim_locked,
    }
}

} // verus!
