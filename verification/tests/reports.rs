use mei::cli::{parse_args, parse_unprovision_mode, CliError, Command};
use mei::names::{
    amt_status_to_string, lan_link_status_to_string, me_reset_to_string,
    provisioning_mode_to_string, provisioning_state_to_string,
};
use mei::report::{decode_amt_state, decode_features, decode_lan_settings, AmtStateView};
use mei::message::AmtRequest;
use mei::report_error::{error_report, ErrorMessage, ErrorReport, IoErrorKind};
use mei::response::AmtError;
use mei::text::{decode_field_text, trim_nuls};
use mei::versions::parse_code_versions;

fn counted(text: &[u8], len: u16) -> Vec<u8> {
    let mut v = len.to_le_bytes().to_vec();
    let mut t = text.to_vec();
    t.resize(20, 0);
    v.extend_from_slice(&t);
    v
}

fn versions_response(status: u32, count: u32, entries: &[Vec<u8>]) -> Vec<u8> {
    let mut r = vec![1u8, 1, 0, 0, 0x1A, 0, 0x80, 0x04, 0, 0, 0, 0];
    r.extend_from_slice(&status.to_le_bytes());
    r.extend_from_slice(&[b'B'; 65]);
    r.extend_from_slice(&count.to_le_bytes());
    for e in entries {
        r.extend_from_slice(e);
    }
    r
}

fn entry(desc: &[u8], desc_len: u16, ver: &[u8], ver_len: u16) -> Vec<u8> {
    let mut e = counted(desc, desc_len);
    e.extend_from_slice(&counted(ver, ver_len));
    e
}

fn args(words: &[&str]) -> Vec<String> {
    words.iter().map(|w| w.to_string()).collect()
}

#[test]
fn status_names() {
    assert_eq!(amt_status_to_string(0x00), "SUCCESS");
    assert_eq!(amt_status_to_string(0x03), "INVALID_PT_MODE/INVALID_AMT_MODE");
    assert_eq!(
        amt_status_to_string(0x21),
        "UNSUPPORTED_OBJECT (command not supported on this AMT version)"
    );
    assert_eq!(amt_status_to_string(0x400), "DISABLED_BY_POLICY");
    assert_eq!(amt_status_to_string(0x815), "INVALID_CREDENTIALS");
    assert_eq!(amt_status_to_string(0x05), "UNKNOWN_ERROR");
    assert_eq!(amt_status_to_string(u32::MAX), "UNKNOWN_ERROR");
}

#[test]
fn provisioning_names() {
    assert_eq!(provisioning_state_to_string(0), "Pre-provisioning (not configured)");
    assert_eq!(provisioning_state_to_string(1), "In provisioning (being configured)");
    assert_eq!(provisioning_state_to_string(2), "Post-provisioning (configured)");
    assert_eq!(provisioning_state_to_string(3), "Unknown state");
    assert_eq!(provisioning_mode_to_string(0), "None");
    assert_eq!(provisioning_mode_to_string(1), "Enterprise");
    assert_eq!(provisioning_mode_to_string(2), "Small Business");
    assert_eq!(provisioning_mode_to_string(7), "Unknown mode");
}

#[test]
fn link_and_reset_names() {
    assert_eq!(lan_link_status_to_string(0), "Down");
    assert_eq!(lan_link_status_to_string(1), "Up");
    assert_eq!(lan_link_status_to_string(2), "Unknown");
    assert_eq!(me_reset_to_string(0), "None");
    assert_eq!(me_reset_to_string(1), "ME Reset");
    assert_eq!(me_reset_to_string(2), "Global Reset");
    assert_eq!(me_reset_to_string(3), "Exception");
    assert_eq!(me_reset_to_string(4), "Unknown");
}

#[test]
fn field_text_trims_only_trailing_nuls() {
    assert_eq!(trim_nuls("9.1\0\0"), "9.1");
    assert_eq!(trim_nuls("\0a\0"), "\0a");
    assert_eq!(trim_nuls(""), "");
    assert_eq!(decode_field_text(b"Corporate\0"), "Corporate");
    assert_eq!(decode_field_text(&[0xc3, 0xa9, 0]), "\u{e9}");
}

#[test]
fn code_versions_are_listed() {
    let r = versions_response(
        0,
        2,
        &[entry(b"AMT", 3, b"9.1.37.1002", 11), entry(b"Sku\0\0", 5, b"Corporate", 9)],
    );
    assert_eq!(
        parse_code_versions(&r),
        Ok(vec![
            ("AMT".to_string(), "9.1.37.1002".to_string()),
            ("Sku".to_string(), "Corporate".to_string()),
        ])
    );
}

#[test]
fn code_versions_skip_overlong_entries() {
    let r = versions_response(
        0,
        3,
        &[entry(b"A", 1, b"1", 1), entry(b"B", 21, b"2", 1), entry(b"C", 1, b"3", 20)],
    );
    assert_eq!(
        parse_code_versions(&r),
        Ok(vec![("A".to_string(), "1".to_string()), ("C".to_string(), "3".to_string())])
    );
}

#[test]
fn code_versions_stop_at_end_of_data() {
    let mut r = versions_response(0, 5, &[entry(b"A", 1, b"1", 1)]);
    r.extend_from_slice(&[0; 43]);
    assert_eq!(parse_code_versions(&r), Ok(vec![("A".to_string(), "1".to_string())]));
}

#[test]
fn code_versions_read_at_most_the_stated_count() {
    let r = versions_response(0, 1, &[entry(b"A", 1, b"1", 1), entry(b"B", 1, b"2", 1)]);
    assert_eq!(parse_code_versions(&r), Ok(vec![("A".to_string(), "1".to_string())]));
    let r = versions_response(0, 0, &[entry(b"A", 1, b"1", 1)]);
    assert_eq!(parse_code_versions(&r), Ok(vec![]));
}

#[test]
fn code_versions_read_at_most_fifty() {
    let entries: Vec<Vec<u8>> = (0..52).map(|_| entry(b"X", 1, b"Y", 1)).collect();
    let r = versions_response(0, 1000, &entries);
    let v = parse_code_versions(&r).unwrap();
    assert_eq!(v.len(), 50);
}

#[test]
fn code_versions_errors() {
    let r = versions_response(0x21, 1, &[]);
    assert_eq!(parse_code_versions(&r), Err(AmtError::Status { code: 0x21 }));
    let mut r = versions_response(0, 1, &[]);
    r.truncate(16 + 68);
    assert_eq!(parse_code_versions(&r), Err(AmtError::VersionDataTooShort { len: 68 }));
    assert_eq!(parse_code_versions(&[]), Err(AmtError::NoResponse));
    assert_eq!(parse_code_versions(&[0; 4]), Err(AmtError::TooShort { len: 4 }));
}

#[test]
fn features_bits() {
    let f = decode_features(&[0x05, 0, 0, 0, 0xff]).unwrap();
    assert_eq!(f.mask, 5);
    assert!(f.redirection);
    assert!(!f.kvm);
    assert!(f.serial_over_lan);
    let f = decode_features(&[0x02, 0, 0, 0x80]).unwrap();
    assert_eq!(f.mask, 0x80000002);
    assert!(!f.redirection && f.kvm && !f.serial_over_lan);
    assert_eq!(decode_features(&[1, 2, 3]), None);
}

#[test]
fn lan_settings_fields() {
    let data = [
        1, // enabled
        0x0a, 0x01, 0xa8, 0xc0, // address, little-endian
        0,    // dhcp disabled
        0x02, 0x01, // dhcp mode, link up
        0x00, 0x1b, 0x21, 0xaa, 0xbb, 0xcc, 0xee,
    ];
    let s = decode_lan_settings(&data).unwrap();
    assert!(s.enabled);
    assert_eq!(s.ipv4, [0xc0, 0xa8, 0x01, 0x0a]);
    assert!(!s.dhcp_enabled);
    assert_eq!(s.dhcp_ip_mode, 2);
    assert_eq!(s.link_status, 1);
    assert_eq!(s.mac, [0x00, 0x1b, 0x21, 0xaa, 0xbb, 0xcc]);
    assert_eq!(decode_lan_settings(&data[..13]), None);
    assert!(decode_lan_settings(&data[..14]).is_some());
}

#[test]
fn amt_state_fields() {
    let mut data = vec![0u8; 20];
    assert_eq!(decode_amt_state(&data), AmtStateView::TooShort);
    data.push(1);
    assert_eq!(decode_amt_state(&data), AmtStateView::Partial);
    data.extend_from_slice(&[9, 1, 0, 2, 7]);
    match decode_amt_state(&data) {
        AmtStateView::State(s) => {
            assert!(s.link_up);
            assert!(s.crypto_fuse_enabled);
            assert!(!s.flash_protection_enabled);
            assert_eq!(s.last_me_reset, 2);
            assert_eq!(s.raw_state, vec![1, 9, 1, 0, 2, 7]);
        }
        other => panic!("unexpected {:?}", other),
    }
}

#[test]
fn unprovision_modes() {
    assert_eq!(parse_unprovision_mode(&"0".to_string()), Some(0));
    assert_eq!(parse_unprovision_mode(&"none".to_string()), Some(0));
    assert_eq!(parse_unprovision_mode(&"1".to_string()), Some(1));
    assert_eq!(parse_unprovision_mode(&"enterprise".to_string()), Some(1));
    assert_eq!(parse_unprovision_mode(&"2".to_string()), None);
    assert_eq!(parse_unprovision_mode(&"Enterprise".to_string()), None);
}

#[test]
fn command_line() {
    assert_eq!(parse_args(&args(&["mei"])), Ok(Command::Query));
    assert_eq!(parse_args(&args(&[])), Ok(Command::Query));
    assert_eq!(parse_args(&args(&["mei", "help"])), Ok(Command::Help));
    assert_eq!(parse_args(&args(&["mei", "--help"])), Ok(Command::Help));
    assert_eq!(parse_args(&args(&["mei", "-h", "x"])), Ok(Command::Help));
    assert_eq!(
        parse_args(&args(&["mei", "unprovision", "enterprise"])),
        Ok(Command::Unprovision { mode: 1 })
    );
    assert_eq!(
        parse_args(&args(&["mei", "unprovision", "0"])),
        Ok(Command::Unprovision { mode: 0 })
    );
    assert_eq!(parse_args(&args(&["mei", "unprovision"])), Err(CliError::MissingMode));
    assert_eq!(
        parse_args(&args(&["mei", "unprovision", "small"])),
        Err(CliError::InvalidMode { mode: "small".to_string() })
    );
    assert_eq!(
        parse_args(&args(&["mei", "status"])),
        Err(CliError::UnknownCommand { command: "status".to_string() })
    );
}

#[test]
fn refused_responses_are_reported_per_request() {
    assert_eq!(
        error_report(&AmtRequest::Fqdn, AmtError::NoResponse),
        ErrorReport {
            kind: IoErrorKind::UnexpectedEof,
            message: ErrorMessage::Text { text: "No response from device" }
        }
    );
    assert_eq!(
        error_report(&AmtRequest::ProvisioningState, AmtError::TooShort { len: 9 }),
        ErrorReport { kind: IoErrorKind::InvalidData, message: ErrorMessage::TooShortGot { len: 9 } }
    );
    assert_eq!(
        error_report(&AmtRequest::AmtState, AmtError::TooShort { len: 9 }),
        ErrorReport {
            kind: IoErrorKind::InvalidData,
            message: ErrorMessage::Text { text: "Response too short" }
        }
    );
    assert_eq!(
        error_report(&AmtRequest::Unprovision { mode: 0 }, AmtError::Status { code: 0x20 }),
        ErrorReport {
            kind: IoErrorKind::Other,
            message: ErrorMessage::AmtStatus { code: 0x20, name: "INVALID_PROVISIONING_STATE" }
        }
    );
    assert_eq!(
        error_report(&AmtRequest::ProvisioningMode, AmtError::MissingData),
        ErrorReport {
            kind: IoErrorKind::InvalidData,
            message: ErrorMessage::Text { text: "Response missing provisioning mode data" }
        }
    );
    assert_eq!(
        error_report(&AmtRequest::ProvisioningState, AmtError::MissingData),
        ErrorReport {
            kind: IoErrorKind::InvalidData,
            message: ErrorMessage::Text { text: "Response missing provisioning state data" }
        }
    );
    assert_eq!(
        error_report(&AmtRequest::CodeVersions, AmtError::VersionDataTooShort { len: 68 }),
        ErrorReport {
            kind: IoErrorKind::InvalidData,
            message: ErrorMessage::VersionDataTooShort { len: 68, need: 69 }
        }
    );
}

#[test]
fn version_fields_are_short_and_untrailed() {
    let r = versions_response(0, 1, &[entry(&[b'x'; 20], 20, b"v\0\0", 3)]);
    let v = parse_code_versions(&r).unwrap();
    assert_eq!(v, vec![("x".repeat(20), "v".to_string())]);
}
