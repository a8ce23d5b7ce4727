use mei::client::{decode_client_properties, MeiClient, AMT_UUID};
use mei::message::{
    decode_header, decode_resp_header, encode_header, request_header, request_writes, AmtRequest,
    MsgHeader, AMT_HOST_IF_GET_AMT_STATE_REQUEST, AMT_HOST_IF_LAN_INTERFACE_SETTINGS_REQUEST,
    AMT_HOST_IF_PROVISIONING_STATE_REQUEST, AMT_HOST_IF_UNPROVISION_REQUEST, AMT_UUID_LINK_STATE,
};
use mei::response::{
    check_response, parse_provisioning_mode, parse_provisioning_state, parse_text,
    parse_unprovision, response_payload, AmtError,
};
use mei::wire::{push_u32_le, read_u16_le, read_u32_le};

fn response(status: u32, data: &[u8]) -> Vec<u8> {
    let mut r = vec![1u8, 1, 0, 0, 0x11, 0, 0x80, 0x04, 0, 0, 0, 0];
    r.extend_from_slice(&status.to_le_bytes());
    r.extend_from_slice(data);
    r
}

#[test]
fn little_endian_fields() {
    let b = [0x78u8, 0x56, 0x34, 0x12, 0xff];
    assert_eq!(read_u32_le(&b, 0), 0x12345678);
    assert_eq!(read_u16_le(&b, 3), 0xff12);
    let mut out = Vec::new();
    push_u32_le(&mut out, 0x04000011);
    assert_eq!(out, vec![0x11, 0x00, 0x00, 0x04]);
}

#[test]
fn request_header_wire_form() {
    let h = request_header(AMT_HOST_IF_PROVISIONING_STATE_REQUEST, 0);
    assert_eq!(
        encode_header(&h),
        vec![1, 1, 0, 0, 0x11, 0x00, 0x00, 0x04, 0, 0, 0, 0]
    );
    let h = request_header(AMT_HOST_IF_UNPROVISION_REQUEST, 4);
    assert_eq!(h.length, 4);
    assert_eq!(
        encode_header(&h),
        vec![1, 1, 0, 0, 0x10, 0x00, 0x00, 0x04, 4, 0, 0, 0]
    );
}

#[test]
fn header_roundtrip() {
    let h = MsgHeader { major: 3, minor: 7, reserved: 0xbeef, command: 0x0480001A, length: 70000 };
    let bytes = encode_header(&h);
    assert_eq!(bytes.len(), 12);
    assert_eq!(decode_header(&bytes), Some(h));
    assert_eq!(decode_header(&bytes[..11]), None);
}

#[test]
fn response_header_is_read() {
    let r = response(0x21, &[9, 9]);
    let h = decode_resp_header(&r).unwrap();
    assert_eq!(h.status, 0x21);
    assert_eq!(h.header.command, 0x04800011);
    assert_eq!(h.header.major, 1);
    assert_eq!(decode_resp_header(&r[..15]), None);
}

#[test]
fn framing_of_requests_without_payload() {
    let w = request_writes(&AmtRequest::ProvisioningState);
    assert_eq!(w, vec![vec![1, 1, 0, 0, 0x11, 0x00, 0x00, 0x04, 0, 0, 0, 0]]);
    let w = request_writes(&AmtRequest::CodeVersions);
    assert_eq!(w, vec![vec![1, 1, 0, 0, 0x1A, 0x00, 0x00, 0x04, 0, 0, 0, 0]]);
    let w = request_writes(&AmtRequest::Fqdn);
    assert_eq!(w, vec![vec![1, 1, 0, 0, 0x56, 0x00, 0x00, 0x04, 0, 0, 0, 0]]);
}

#[test]
fn framing_of_amt_state_request() {
    let w = request_writes(&AmtRequest::AmtState);
    assert_eq!(w.len(), 2);
    let h = decode_header(&w[0]).unwrap();
    assert_eq!(h.command, AMT_HOST_IF_GET_AMT_STATE_REQUEST);
    assert_eq!(h.length, 16);
    assert_eq!(w[1], AMT_UUID_LINK_STATE.to_vec());
}

#[test]
fn framing_of_lan_interface_request() {
    let w = request_writes(&AmtRequest::LanInterfaceSettings { interface_id: 0x01020304 });
    assert_eq!(w.len(), 1);
    assert_eq!(w[0].len(), 16);
    let h = decode_header(&w[0]).unwrap();
    assert_eq!(h.command, AMT_HOST_IF_LAN_INTERFACE_SETTINGS_REQUEST);
    assert_eq!(h.length, 4);
    assert_eq!(&w[0][12..], &[4, 3, 2, 1]);
}

#[test]
fn framing_of_unprovision_request() {
    let w = request_writes(&AmtRequest::Unprovision { mode: 1 });
    assert_eq!(
        w,
        vec![vec![1, 1, 0, 0, 0x10, 0x00, 0x00, 0x04, 4, 0, 0, 0], vec![1, 0, 0, 0]]
    );
}

#[test]
fn empty_response_is_no_response() {
    assert_eq!(check_response(&[]), Err(AmtError::NoResponse));
    assert_eq!(parse_provisioning_state(&[]), Err(AmtError::NoResponse));
}

#[test]
fn short_response_is_too_short() {
    assert_eq!(check_response(&[1, 2, 3]), Err(AmtError::TooShort { len: 3 }));
    assert_eq!(response_payload(&[0; 15]), Err(AmtError::TooShort { len: 15 }));
}

#[test]
fn failed_status_is_reported() {
    let r = response(0x21, &[2, 0, 0, 0]);
    assert_eq!(check_response(&r), Err(AmtError::Status { code: 0x21 }));
    assert_eq!(parse_provisioning_mode(&r), Err(AmtError::Status { code: 0x21 }));
    assert_eq!(parse_unprovision(&r), Err(AmtError::Status { code: 0x21 }));
}

#[test]
fn accepted_response_gives_its_data() {
    let r = response(0, &[7, 8, 9]);
    assert_eq!(response_payload(&r), Ok(vec![7, 8, 9]));
    assert_eq!(response_payload(&response(0, &[])), Ok(vec![]));
    assert_eq!(parse_unprovision(&r), Ok(()));
}

#[test]
fn provisioning_mode_value() {
    assert_eq!(parse_provisioning_mode(&response(0, &[1, 0, 0, 0])), Ok(1));
    assert_eq!(parse_provisioning_mode(&response(0, &[2, 0, 0, 1, 5])), Ok(0x01000002));
    assert_eq!(parse_provisioning_mode(&response(0, &[1, 0, 0])), Err(AmtError::MissingData));
}

#[test]
fn provisioning_state_value() {
    assert_eq!(parse_provisioning_state(&response(0, &[2])), Ok(2));
    assert_eq!(parse_provisioning_state(&response(0, &[0, 9, 9])), Ok(0));
    assert_eq!(parse_provisioning_state(&response(0, &[])), Err(AmtError::MissingData));
}

#[test]
fn text_response_is_trimmed() {
    let r = response(0, b"host.example.com\0\0\0");
    assert_eq!(parse_text(&r), Ok("host.example.com".to_string()));
    assert_eq!(parse_text(&response(0, b"\0\0")), Ok(String::new()));
    assert_eq!(parse_text(&response(0, b"a\0b\0")), Ok("a\0b".to_string()));
}

#[test]
fn text_response_replaces_invalid_utf8() {
    let r = response(0, &[b'a', 0xff, b'b', 0]);
    assert_eq!(parse_text(&r), Ok("a\u{FFFD}b".to_string()));
    assert_eq!(parse_text(&response(5, b"x")), Err(AmtError::Status { code: 5 }));
}

#[test]
fn client_properties() {
    let mut data = [0u8; 16];
    data[0] = 0x80;
    data[4] = 2;
    assert_eq!(
        decode_client_properties(&data),
        MeiClient { max_msg_length: 128, protocol_version: 2 }
    );
    assert_eq!(AMT_UUID[0], 0x28);
    assert_eq!(AMT_UUID[15], 0x4c);
}

#[test]
fn client_uuid_uses_mixed_endianness() {
    // 12f80028-b4b7-4b2d-aca8-46e0ff65814c: the first three fields
    // little-endian, the rest as written.
    let mut expected = Vec::new();
    expected.extend_from_slice(&0x12f80028u32.to_le_bytes());
    expected.extend_from_slice(&0xb4b7u16.to_le_bytes());
    expected.extend_from_slice(&0x4b2du16.to_le_bytes());
    expected.extend_from_slice(&[0xac, 0xa8, 0x46, 0xe0, 0xff, 0x65, 0x81, 0x4c]);
    assert_eq!(AMT_UUID.to_vec(), expected);
}

#[test]
fn header_status_and_data_decide_the_verdict() {
    let h = request_header(AMT_HOST_IF_PROVISIONING_STATE_REQUEST, 0);
    let mut ok = encode_header(&h);
    push_u32_le(&mut ok, 0);
    ok.extend_from_slice(&[2]);
    assert_eq!(response_payload(&ok), Ok(vec![2]));
    let mut refused = encode_header(&h);
    push_u32_le(&mut refused, 0x20);
    refused.extend_from_slice(&[2]);
    assert_eq!(response_payload(&refused), Err(AmtError::Status { code: 0x20 }));
}
