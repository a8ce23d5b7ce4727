//! Human-readable names of the codes the AMT Host Interface reports.
use vstd::prelude::*;

verus! {

/// Provisioning state: not configured.
pub const PROVISIONING_STATE_PRE: u32 = 0;

/// Provisioning state: being configured.
pub const PROVISIONING_STATE_IN: u32 = 1;

/// Provisioning state: configured.
pub const PROVISIONING_STATE_POST: u32 = 2;

/// Provisioning mode: none.
pub const PROVISIONING_MODE_NONE: u32 = 0;

/// Provisioning mode: enterprise.
pub const PROVISIONING_MODE_ENTERPRISE: u32 = 1;

/// Provisioning mode: small business.
pub const PROVISIONING_MODE_SMALL_BUSINESS: u32 = 2;

/// Name of an AMT Host Interface status code.
pub open spec fn amt_status_name(status: u32) -> &'static str {
    if status == 0x00 {
        "SUCCESS"
    } else if status == 0x01 {
        "INTERNAL_ERROR"
    } else if status == 0x02 {
        "NOT_READY"
    } else if status == 0x03 {
        "INVALID_PT_MODE/INVALID_AMT_MODE"
    } else if status == 0x04 {
        "INVALID_MESSAGE_LENGTH"
    } else if status == 0x10 {
        "NOT_PERMITTED"
    } else if status == 0x1E {
        "REQUEST_UNEXPECTED"
    } else if status == 0x20 {
        "INVALID_PROVISIONING_STATE"
    } else if status == 0x21 {
        "UNSUPPORTED_OBJECT (command not supported on this AMT version)"
    } else if status == 0x22 {
        "INVALID_TIME"
    } else if status == 0x23 {
        "INVALID_INDEX"
    } else if status == 0x24 {
        "INVALID_PARAMETER"
    } else if status == 0x400 {
        "DISABLED_BY_POLICY"
    } else if status == 0x803 {
        "INVALID_COMMAND"
    } else if status == 0x812 {
        "UNSUPPORTED"
    } else if status == 0x814 {
        "NOT_FOUND"
    } else if status == 0x815 {
        "INVALID_CREDENTIALS"
    } else {
        "UNKNOWN_ERROR"
    }
}

/// Returns the name of an AMT Host Interface status code.
pub fn amt_status_to_string(status: u32) -> (name: &'static str)
    ensures
        name == amt_status_name(status),
{
    match status {
        0x00 => "SUCCESS",
        0x01 => "INTERNAL_ERROR",
        0x02 => "NOT_READY",
        0x03 => "INVALID_PT_MODE/INVALID_AMT_MODE",
        0x04 => "INVALID_MESSAGE_LENGTH",
        0x10 => "NOT_PERMITTED",
        0x1E => "REQUEST_UNEXPECTED",
        0x20 => "INVALID_PROVISIONING_STATE",
        0x21 => "UNSUPPORTED_OBJECT (command not supported on this AMT version)",
        0x22 => "INVALID_TIME",
        0x23 => "INVALID_INDEX",
        0x24 => "INVALID_PARAMETER",
        0x400 => "DISABLED_BY_POLICY",
        0x803 => "INVALID_COMMAND",
        0x812 => "UNSUPPORTED",
        0x814 => "NOT_FOUND",
        0x815 => "INVALID_CREDENTIALS",
        _ => "UNKNOWN_ERROR",
    }
}

/// Name of a provisioning state.
pub open spec fn provisioning_state_name(state: u32) -> &'static str {
    if state == PROVISIONING_STATE_PRE {
        "Pre-provisioning (not configured)"
    } else if state == PROVISIONING_STATE_IN {
        "In provisioning (being configured)"
    } else if state == PROVISIONING_STATE_POST {
        "Post-provisioning (configured)"
    } else {
        "Unknown state"
    }
}

/// Returns the name of a provisioning state.
pub fn provisioning_state_to_string(state: u32) -> (name: &'static str)
    ensures
        name == provisioning_state_name(state),
{
    match state {
        PROVISIONING_STATE_PRE => "Pre-provisioning (not configured)",
        PROVISIONING_STATE_IN => "In provisioning (being configured)",
        PROVISIONING_STATE_POST => "Post-provisioning (configured)",
        _ => "Unknown state",
    }
}

/// Name of a provisioning mode.
pub open spec fn provisioning_mode_name(mode: u32) -> &'static str {
    if mode == PROVISIONING_MODE_NONE {
        "None"
    } else if mode == PROVISIONING_MODE_ENTERPRISE {
        "Enterprise"
    } else if mode == PROVISIONING_MODE_SMALL_BUSINESS {
        "Small Business"
    } else {
        "Unknown mode"
    }
}

/// Returns the name of a provisioning mode.
pub fn provisioning_mode_to_string(mode: u32) -> (name: &'static str)
    ensures
        name == provisioning_mode_name(mode),
{
    match mode {
        0 => "None",
        1 => "Enterprise",
        2 => "Small Business",
        _ => "Unknown mode",
    }
}

/// Name of the link status byte of the LAN interface settings.
pub open spec fn lan_link_status_name(status: u8) -> &'static str {
    if status == 0 {
        "Down"
    } else if status == 1 {
        "Up"
    } else {
        "Unknown"
    }
}

/// Returns the name of the link status byte of the LAN interface settings.
pub fn lan_link_status_to_string(status: u8) -> (name: &'static str)
    ensures
        name == lan_link_status_name(status),
{
    match status {
        0 => "Down",
        1 => "Up",
        _ => "Unknown",
    }
}

/// Name of the kind of the last ME reset the AMT state reports.
pub open spec fn me_reset_name(reset: u8) -> &'static str {
    if reset == 0 {
        "None"
    } else if reset == 1 {
        "ME Reset"
    } else if reset == 2 {
        "Global Reset"
    } else if reset == 3 {
        "Exception"
    } else {
        "Unknown"
    }
}

/// Returns the name of the kind of the last ME reset.
pub fn me_reset_to_string(reset: u8) -> (name: &'static str)
    ensures
        name == me_reset_name(reset),
{
    match reset {
        0 => "None",
        1 => "ME Reset",
        2 => "Global Reset",
        3 => "Exception",
        _ => "Unknown",
    }
}

/// The AMT status codes with a name of their own.
pub open spec fn is_named_status(status: u32) -> bool {
    status == 0x00 || status == 0x01 || status == 0x02 || status == 0x03 || status == 0x04
        || status == 0x10 || status == 0x1E || status == 0x20 || status == 0x21 || status == 0x22
        || status == 0x23 || status == 0x24 || status == 0x400 || status == 0x803 || status == 0x812
        || status == 0x814 || status == 0x815
}

/// The status names of Intel LMS: seventeen codes with their own name, every
/// other code "UNKNOWN_ERROR".
pub proof fn lemma_status_name_table(status: u32)
    ensures
        amt_status_name(0x00) == "SUCCESS",
        amt_status_name(0x01) == "INTERNAL_ERROR",
        amt_status_name(0x02) == "NOT_READY",
        amt_status_name(0x03) == "INVALID_PT_MODE/INVALID_AMT_MODE",
        amt_status_name(0x04) == "INVALID_MESSAGE_LENGTH",
        amt_status_name(0x10) == "NOT_PERMITTED",
        amt_status_name(0x1E) == "REQUEST_UNEXPECTED",
        amt_status_name(0x20) == "INVALID_PROVISIONING_STATE",
        amt_status_name(0x21) == "UNSUPPORTED_OBJECT (command not supported on this AMT version)",
        amt_status_name(0x22) == "INVALID_TIME",
        amt_status_name(0x23) == "INVALID_INDEX",
        amt_status_name(0x24) == "INVALID_PARAMETER",
        amt_status_name(0x400) == "DISABLED_BY_POLICY",
        amt_status_name(0x803) == "INVALID_COMMAND",
        amt_status_name(0x812) == "UNSUPPORTED",
        amt_status_name(0x814) == "NOT_FOUND",
        amt_status_name(0x815) == "INVALID_CREDENTIALS",
        !is_named_status(status) ==> amt_status_name(status) == "UNKNOWN_ERROR",
{
}

/// Provisioning states 0, 1 and 2 are pre-, in- and post-provisioning;
/// any other value is an unknown state.  Provisioning modes 0, 1 and 2 are
/// none, enterprise and small business; any other value is an unknown mode.
pub proof fn lemma_provisioning_name_tables(v: u32)
    ensures
        provisioning_state_name(0) == "Pre-provisioning (not configured)",
        provisioning_state_name(1) == "In provisioning (being configured)",
        provisioning_state_name(2) == "Post-provisioning (configured)",
        v > 2 ==> provisioning_state_name(v) == "Unknown state",
        provisioning_mode_name(0) == "None",
        provisioning_mode_name(1) == "Enterprise",
        provisioning_mode_name(2) == "Small Business",
        v > 2 ==> provisioning_mode_name(v) == "Unknown mode",
{
}

/// Link status 0 is down and 1 is up; ME reset kinds 0 to 3 are none, ME
/// reset, global reset and exception; other values are unknown.
pub proof fn lemma_link_and_reset_name_tables(b: u8)
    ensures
        lan_link_status_name(0) == "Down",
        lan_link_status_name(1) == "Up",
        b > 1 ==> lan_link_status_name(b) == "Unknown",
        me_reset_name(0) == "None",
        me_reset_name(1) == "ME Reset",
        me_reset_name(2) == "Global Reset",
        me_reset_name(3) == "Exception",
        b > 3 ==> me_reset_name(b) == "Unknown",
{
}

} // verus!
