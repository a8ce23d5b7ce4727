//! Checking AMT Host Interface responses and reading the values they carry.
use vstd::prelude::*;

use crate::message::{
    decode_resp_header, header_at_start, header_bytes, lemma_header_roundtrip, resp_header_at_start,
    MsgHeader, RespHeader, RESP_HEADER_LEN,
};
use crate::text::{decode_field_text, field_text};
use crate::wire::{copy_range, le_u32_at, le_u32_bytes, lemma_le_u32_roundtrip, read_u32_le};

verus! {

/// Why a response was not accepted.
#[derive(Clone, Copy, Debug, PartialEq, Eq, Structural)]
pub enum AmtError {
    /// The device answered with no bytes.
    NoResponse,
    /// The response is shorter than a response header.
    TooShort { len: usize },
    /// The response header carries a status other than success.
    Status { code: u32 },
    /// The response ends before the value the request asks for.
    MissingData,
    /// The code versions payload is shorter than the BIOS version and count.
    VersionDataTooShort { len: usize },
}

/// The status code of a successful response.
pub const AMT_STATUS_SUCCESS: u32 = 0;

/// The status field of a response of at least sixteen bytes.
pub open spec fn response_status(resp: Seq<u8>) -> u32 {
    le_u32_at(resp, 12) as u32
}

/// Why a response is refused, if it is: no bytes at all, fewer bytes than a
/// response header, or a status other than success.
pub open spec fn response_error(resp: Seq<u8>) -> Option<AmtError> {
    if resp.len() == 0 {
        Some(AmtError::NoResponse)
    } else if resp.len() < RESP_HEADER_LEN {
        Some(AmtError::TooShort { len: resp.len() as usize })
    } else if response_status(resp) != AMT_STATUS_SUCCESS {
        Some(AmtError::Status { code: response_status(resp) })
    } else {
        None
    }
}

/// The bytes after the response header.
pub open spec fn response_data(resp: Seq<u8>) -> Seq<u8> {
    resp.subrange(RESP_HEADER_LEN as int, resp.len() as int)
}

/// Checks a response and returns its header when it is accepted.
pub fn check_response(resp: &[u8]) -> (r: Result<RespHeader, AmtError>)
    ensures
        match r {
            Ok(h) => response_error(resp@) is None && h == resp_header_at_start(resp@),
            Err(e) => response_error(resp@) == Some(e),
        },
{
    if resp.len() == 0 {
        return Err(AmtError::NoResponse);
    }
    match decode_resp_header(resp) {
        None => Err(AmtError::TooShort { len: resp.len() }),
        Some(h) => {
            if h.status != AMT_STATUS_SUCCESS {
                Err(AmtError::Status { code: h.status })
            } else {
                Ok(h)
            }
        },
    }
}

/// The data of an accepted response, as the AMT state, features state,
/// platform type and LAN interface settings queries return it.
pub fn response_payload(resp: &[u8]) -> (r: Result<Vec<u8>, AmtError>)
    ensures
        match r {
            Ok(data) => response_error(resp@) is None && data@ == response_data(resp@),
            Err(e) => response_error(resp@) == Some(e),
        },
{
    check_response(resp)?;
    Ok(copy_range(resp, RESP_HEADER_LEN, resp.len()))
}

/// The provisioning mode a response carries: the little-endian `u32` after
/// the header.
pub fn parse_provisioning_mode(resp: &[u8]) -> (r: Result<u32, AmtError>)
    ensures
        match r {
            Ok(mode) => response_error(resp@) is None && resp@.len() >= RESP_HEADER_LEN + 4
                && mode == le_u32_at(resp@, RESP_HEADER_LEN as int),
            Err(e) => match response_error(resp@) {
                Some(e0) => e == e0,
                None => resp@.len() < RESP_HEADER_LEN + 4 && e == AmtError::MissingData,
            },
        },
{
    check_response(resp)?;
    if resp.len() < RESP_HEADER_LEN + 4 {
        return Err(AmtError::MissingData);
    }
    Ok(read_u32_le(resp, RESP_HEADER_LEN))
}

/// The provisioning state a response carries: the byte after the header.
pub fn parse_provisioning_state(resp: &[u8]) -> (r: Result<u32, AmtError>)
    ensures
        match r {
            Ok(state) => response_error(resp@) is None && resp@.len() >= RESP_HEADER_LEN + 1
                && state == resp@[RESP_HEADER_LEN as int],
            Err(e) => match response_error(resp@) {
                Some(e0) => e == e0,
                None => resp@.len() < RESP_HEADER_LEN + 1 && e == AmtError::MissingData,
            },
        },
{
    check_response(resp)?;
    if resp.len() < RESP_HEADER_LEN + 1 {
        return Err(AmtError::MissingData);
    }
    Ok(resp[RESP_HEADER_LEN] as u32)
}

/// Whether an unprovision request was accepted.
pub fn parse_unprovision(resp: &[u8]) -> (r: Result<(), AmtError>)
    ensures
        match r {
            Ok(()) => response_error(resp@) is None,
            Err(e) => response_error(resp@) == Some(e),
        },
{
    check_response(resp)?;
    Ok(())
}

/// The text an FQDN or DNS suffix response carries: the data after the
/// header, decoded leniently as UTF-8 and without trailing NULs.
pub fn parse_text(resp: &[u8]) -> (r: Result<String, AmtError>)
    ensures
        match r {
            Ok(s) => response_error(resp@) is None && s@ == field_text(response_data(resp@)),
            Err(e) => response_error(resp@) == Some(e),
        },
{
    let data = response_payload(resp)?;
    Ok(decode_field_text(data.as_slice()))
}

/// A response made of a header, a status and data is accepted exactly when
/// the status is success, and its data is then what follows the status; any
/// other status refuses it with that status.
pub proof fn lemma_response_verdict(h: MsgHeader, status: u32, data: Seq<u8>)
    ensures
        ({
            let resp = header_bytes(h) + le_u32_bytes(status) + data;
            &&& resp_header_at_start(resp) == (RespHeader { header: h, status })
            &&& response_error(resp) == if status == AMT_STATUS_SUCCESS {
                None
            } else {
                Some(AmtError::Status { code: status })
            }
            &&& response_data(resp) == data
        }),
{
    let hb = header_bytes(h);
    let sb = le_u32_bytes(status);
    let resp = hb + sb + data;
    lemma_header_roundtrip(h);
    lemma_le_u32_roundtrip(status);
    assert(resp.subrange(0, 12) =~= hb);
    assert(header_at_start(resp) == header_at_start(hb));
    assert(resp.subrange(12, 16) =~= sb);
    assert(le_u32_at(resp, 12) == le_u32_at(sb, 0));
    assert(response_data(resp) =~= data);
}

/// A response with no bytes is refused as no response; one of one to
/// fifteen bytes is refused as too short, with its length; from sixteen
/// bytes on, the status in bytes 12..16 (least significant byte first)
/// decides, and an accepted response's data starts at byte 16.
pub proof fn lemma_response_classes(resp: Seq<u8>)
    ensures
        resp.len() == 0 ==> response_error(resp) == Some(AmtError::NoResponse),
        0 < resp.len() < 16 ==> response_error(resp) == Some(
            AmtError::TooShort { len: resp.len() as usize },
        ),
        resp.len() >= 16 ==> {
            let status = resp[12] + 256 * resp[13] + 65536 * resp[14] + 16777216 * resp[15];
            &&& status == 0 ==> response_error(resp) is None
            &&& status != 0 ==> response_error(resp) == Some(
                AmtError::Status { code: status as u32 },
            )
            &&& response_data(resp).len() == resp.len() - 16
            &&& forall|i: int| 0 <= i < resp.len() - 16 ==> #[trigger] response_data(resp)[i] == resp[i + 16]
        },
{
}

} // verus!
