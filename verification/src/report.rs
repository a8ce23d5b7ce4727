//! The fields the tool reads from the data of the features state, LAN
//! interface settings and AMT state responses.
use vstd::prelude::*;

use crate::wire::{le_u32_at, read_u32_le};

verus! {

/// The enabled-features bitmask and the features it names.
#[derive(Clone, Copy, Debug, PartialEq, Eq, Structural)]
pub struct FeaturesState {
    pub mask: u32,
    pub redirection: bool,
    pub kvm: bool,
    pub serial_over_lan: bool,
}

/// Reads the features bitmask from the start of the features state data;
/// `None` when fewer than four bytes are given.
pub fn decode_features(data: &[u8]) -> (f: Option<FeaturesState>)
    ensures
        match f {
            Some(f) => {
                &&& data@.len() >= 4
                &&& f.mask == le_u32_at(data@, 0)
                &&& f.redirection == (f.mask & 0x01 != 0)
                &&& f.kvm == (f.mask & 0x02 != 0)
                &&& f.serial_over_lan == (f.mask & 0x04 != 0)
            },
            None => data@.len() < 4,
        },
{
    if data.len() < 4 {
        return None;
    }
    let mask = read_u32_le(data, 0);
    Some(
        FeaturesState {
            mask,
            redirection: mask & 0x01 != 0,
            kvm: mask & 0x02 != 0,
            serial_over_lan: mask & 0x04 != 0,
        },
    )
}

/// Size of the LAN settings structure.
pub const LAN_SETTINGS_LEN: usize = 14;

/// The LAN settings of an interface.
#[derive(Clone, Copy, Debug, PartialEq, Eq)]
pub struct LanSettings {
    pub enabled: bool,
    /// The address in display order: the stored little-endian `u32`, most
    /// significant octet first.
    pub ipv4: [u8; 4],
    pub dhcp_enabled: bool,
    pub dhcp_ip_mode: u8,
    pub link_status: u8,
    pub mac: [u8; 6],
}

/// Reads the LAN settings structure: enabled flag (1 byte), IPv4 address
/// (little-endian `u32`), DHCP flag (1 byte), DHCP mode, link status and MAC
/// address.  `None` when fewer than fourteen bytes are given.
pub fn decode_lan_settings(data: &[u8]) -> (s: Option<LanSettings>)
    ensures
        match s {
            Some(s) => {
                &&& data@.len() >= LAN_SETTINGS_LEN
                &&& s.enabled == (data@[0] != 0)
                &&& s.ipv4@ == seq![data@[4], data@[3], data@[2], data@[1]]
                &&& s.dhcp_enabled == (data@[5] != 0)
                &&& s.dhcp_ip_mode == data@[6]
                &&& s.link_status == data@[7]
                &&& s.mac@ == data@.subrange(8, 14)
            },
            None => data@.len() < LAN_SETTINGS_LEN,
        },
{
    if data.len() < LAN_SETTINGS_LEN {
        return None;
    }
    let ipv4 = [data[4], data[3], data[2], data[1]];
    let mac = [data[8], data[9], data[10], data[11], data[12], data[13]];
    assert(ipv4@ =~= seq![data@[4], data@[3], data@[2], data@[1]]);
    assert(mac@ =~= data@.subrange(8, 14));
    Some(
        LanSettings {
            enabled: data[0] != 0,
            ipv4,
            dhcp_enabled: data[5] != 0,
            dhcp_ip_mode: data[6],
            link_status: data[7],
            mac,
        },
    )
}

/// Length of the UUID and array size that precede the AMT state bytes.
pub const AMT_STATE_PREFIX_LEN: usize = 20;

/// The AMT state variables the tool reports.
#[derive(Clone, Debug, PartialEq, Eq)]
pub struct AmtStateInfo {
    pub link_up: bool,
    pub crypto_fuse_enabled: bool,
    pub flash_protection_enabled: bool,
    pub last_me_reset: u8,
    /// All bytes after the UUID and array size.
    pub raw_state: Vec<u8>,
}

/// What the AMT state data allows the tool to report.
#[derive(Clone, Debug, PartialEq, Eq)]
pub enum AmtStateView {
    /// At most twenty bytes: nothing past the UUID and array size.
    TooShort,
    /// Some state bytes, but fewer than five.
    Partial,
    /// The state variables.
    State(AmtStateInfo),
}

/// Reads the AMT state data: a UUID (16 bytes) and array size (4 bytes),
/// then link status, a reserved byte, crypto fuse, flash protection and last
/// ME reset.
pub fn decode_amt_state(data: &[u8]) -> (v: AmtStateView)
    ensures
        data@.len() <= AMT_STATE_PREFIX_LEN ==> v == AmtStateView::TooShort,
        AMT_STATE_PREFIX_LEN < data@.len() < AMT_STATE_PREFIX_LEN + 5 ==> v == AmtStateView::Partial,
        AMT_STATE_PREFIX_LEN + 5 <= data@.len() ==> (v matches AmtStateView::State(s) && {
            &&& s.link_up == (data@[20] == 1)
            &&& s.crypto_fuse_enabled == (data@[22] == 1)
            &&& s.flash_protection_enabled == (data@[23] == 1)
            &&& s.last_me_reset == data@[24]
            &&& s.raw_state@ == data@.subrange(20, data@.len() as int)
        }),
{
    if data.len() <= AMT_STATE_PREFIX_LEN {
        return AmtStateView::TooShort;
    }
    if data.len() < AMT_STATE_PREFIX_LEN + 5 {
        return AmtStateView::Partial;
    }
    let mut raw_state: Vec<u8> = Vec::new();
    let mut i: usize = AMT_STATE_PREFIX_LEN;
    while i < data.len()
        invariant
            AMT_STATE_PREFIX_LEN <= i <= data@.len(),
            raw_state@ == data@.subrange(20, i as int),
        decreases data@.len() - i,
    {
        raw_state.push(data[i]);
        i = i + 1;
        assert(raw_state@ =~= data@.subrange(20, i as int));
    }
    AmtStateView::State(
        AmtStateInfo {
            link_up: data[20] == 1,
            crypto_fuse_enabled: data[22] == 1,
            flash_protection_enabled: data[23] == 1,
            last_me_reset: data[24],
            raw_state,
        },
    )
}

} // verus!
