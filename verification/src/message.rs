//! Request headers of the AMT Host Interface and the byte frames written for
//! each request.
use vstd::prelude::*;

use crate::wire::{le_u16_at, le_u16_bytes, le_u32_at, le_u32_bytes, push_u16_le, push_u32_le, read_u16_le, read_u32_le, lemma_le_u16_roundtrip, lemma_le_u32_roundtrip};

verus! {

/// Protocol major version sent in every request header.
pub const AMT_MAJOR_VERSION: u8 = 1;

/// Protocol minor version sent in every request header.
pub const AMT_MINOR_VERSION: u8 = 1;

/// Firmware code versions.
pub const AMT_HOST_IF_CODE_VERSIONS_REQUEST: u32 = 0x0400001A;

/// Provisioning mode (none, enterprise, small business).
pub const AMT_HOST_IF_PROVISIONING_MODE_REQUEST: u32 = 0x04000008;

/// Provisioning state (pre, in, post).
pub const AMT_HOST_IF_PROVISIONING_STATE_REQUEST: u32 = 0x04000011;

/// AMT state variable query; takes a state UUID as payload.
pub const AMT_HOST_IF_GET_AMT_STATE_REQUEST: u32 = 0x01000001;

/// DNS suffix.
pub const AMT_HOST_IF_DNS_SUFFIX_REQUEST: u32 = 0x04000036;

/// LAN interface settings; takes the interface id as payload.
pub const AMT_HOST_IF_LAN_INTERFACE_SETTINGS_REQUEST: u32 = 0x04000048;

/// Fully qualified domain name.
pub const AMT_HOST_IF_FQDN_REQUEST: u32 = 0x04000056;

/// Unprovision; takes the target provisioning mode as payload.
pub const AMT_HOST_IF_UNPROVISION_REQUEST: u32 = 0x04000010;

/// Enabled features bitmask (experimental).
pub const AMT_HOST_IF_FEATURES_STATE_REQUEST: u32 = 0x04000017;

/// Platform type (experimental).
pub const AMT_HOST_IF_PLATFORM_TYPE_REQUEST: u32 = 0x04000019;

/// Size in bytes of a request header on the wire.
pub const MSG_HEADER_LEN: usize = 12;

/// Size in bytes of a response header (request header plus status) on the wire.
pub const RESP_HEADER_LEN: usize = 16;

/// Size of the buffer a response is read into.
pub const RESPONSE_BUFFER_LEN: usize = 8192;

/// The state variable identifier asked for by the AMT state query
/// (link state, crypto fuse, flash protection, last ME reset).
pub const AMT_UUID_LINK_STATE: [u8; 16] = [
    0x00, 0x00, 0x00, 0x00, 0x00, 0x00, 0x00, 0x00, 0x00, 0x00, 0x00, 0x00, 0x00, 0x00, 0x00, 0x01,
];

/// Header of every AMT Host Interface message.
#[derive(Clone, Copy, Debug, PartialEq, Eq, Structural)]
pub struct MsgHeader {
    pub major: u8,
    pub minor: u8,
    pub reserved: u16,
    pub command: u32,
    pub length: u32,
}

/// Header of every AMT Host Interface response: the message header and a status.
#[derive(Clone, Copy, Debug, PartialEq, Eq, Structural)]
pub struct RespHeader {
    pub header: MsgHeader,
    pub status: u32,
}

/// The wire form of a header: version bytes, then reserved, command and
/// length, each little-endian.
pub open spec fn header_bytes(h: MsgHeader) -> Seq<u8> {
    seq![h.major, h.minor] + le_u16_bytes(h.reserved) + le_u32_bytes(h.command) + le_u32_bytes(
        h.length,
    )
}

/// The header read from the first twelve bytes of `b`.
pub open spec fn header_at_start(b: Seq<u8>) -> MsgHeader {
    MsgHeader {
        major: b[0],
        minor: b[1],
        reserved: le_u16_at(b, 2) as u16,
        command: le_u32_at(b, 4) as u32,
        length: le_u32_at(b, 8) as u32,
    }
}

/// The response header read from the first sixteen bytes of `b`.
pub open spec fn resp_header_at_start(b: Seq<u8>) -> RespHeader {
    RespHeader { header: header_at_start(b), status: le_u32_at(b, 12) as u32 }
}

/// The header of a request for `command` carrying `payload_len` bytes.
/// The length field holds `payload_len` truncated to 32 bits.
pub open spec fn request_header_spec(command: u32, payload_len: usize) -> MsgHeader {
    MsgHeader {
        major: AMT_MAJOR_VERSION,
        minor: AMT_MINOR_VERSION,
        reserved: 0,
        command,
        length: payload_len as u32,
    }
}

/// Builds the header of a request for `command` carrying `payload_len` bytes.
pub fn request_header(command: u32, payload_len: usize) -> (h: MsgHeader)
    ensures
        h == request_header_spec(command, payload_len),
{
    MsgHeader {
        major: AMT_MAJOR_VERSION,
        minor: AMT_MINOR_VERSION,
        reserved: 0,
        command,
        length: payload_len as u32,
    }
}

/// Encodes a header in its wire form.
pub fn encode_header(h: &MsgHeader) -> (bytes: Vec<u8>)
    ensures
        bytes@ == header_bytes(*h),
        bytes@.len() == MSG_HEADER_LEN,
{
    let mut out: Vec<u8> = Vec::new();
    out.push(h.major);
    out.push(h.minor);
    push_u16_le(&mut out, h.reserved);
    push_u32_le(&mut out, h.command);
    push_u32_le(&mut out, h.length);
    assert(out@ =~= header_bytes(*h));
    out
}

/// Reads a header from the start of `bytes`; `None` when fewer than twelve
/// bytes are given.
pub fn decode_header(bytes: &[u8]) -> (h: Option<MsgHeader>)
    ensures
        match h {
            Some(h) => bytes@.len() >= MSG_HEADER_LEN && h == header_at_start(bytes@),
            None => bytes@.len() < MSG_HEADER_LEN,
        },
{
    if bytes.len() < MSG_HEADER_LEN {
        return None;
    }
    Some(
        MsgHeader {
            major: bytes[0],
            minor: bytes[1],
            reserved: read_u16_le(bytes, 2),
            command: read_u32_le(bytes, 4),
            length: read_u32_le(bytes, 8),
        },
    )
}

/// Reads a response header from the start of `bytes`; `None` when fewer than
/// sixteen bytes are given.
pub fn decode_resp_header(bytes: &[u8]) -> (h: Option<RespHeader>)
    ensures
        match h {
            Some(h) => bytes@.len() >= RESP_HEADER_LEN && h == resp_header_at_start(bytes@),
            None => bytes@.len() < RESP_HEADER_LEN,
        },
{
    if bytes.len() < RESP_HEADER_LEN {
        return None;
    }
    match decode_header(bytes) {
        Some(header) => Some(RespHeader { header, status: read_u32_le(bytes, 12) }),
        None => None,
    }
}

/// Reading a header back from its wire form gives the header that was encoded.
pub proof fn lemma_header_roundtrip(h: MsgHeader)
    ensures
        header_bytes(h).len() == MSG_HEADER_LEN,
        header_at_start(header_bytes(h)) == h,
{
    let b = header_bytes(h);
    lemma_le_u16_roundtrip(h.reserved);
    lemma_le_u32_roundtrip(h.command);
    lemma_le_u32_roundtrip(h.length);
    assert(b.subrange(2, 4) =~= le_u16_bytes(h.reserved));
    assert(b.subrange(4, 8) =~= le_u32_bytes(h.command));
    assert(b.subrange(8, 12) =~= le_u32_bytes(h.length));
    assert(le_u16_at(b, 2) == le_u16_at(le_u16_bytes(h.reserved), 0));
    assert(le_u32_at(b, 4) == le_u32_at(le_u32_bytes(h.command), 0));
    assert(le_u32_at(b, 8) == le_u32_at(le_u32_bytes(h.length), 0));
}

/// A request the tool sends to the AMT Host Interface.
#[derive(Clone, Copy, Debug, PartialEq, Eq, Structural)]
pub enum AmtRequest {
    CodeVersions,
    ProvisioningMode,
    ProvisioningState,
    AmtState,
    FeaturesState,
    PlatformType,
    LanInterfaceSettings { interface_id: u32 },
    Fqdn,
    DnsSuffix,
    Unprovision { mode: u32 },
}

/// The command code of a request.
pub open spec fn request_command(r: AmtRequest) -> u32 {
    match r {
        AmtRequest::CodeVersions => AMT_HOST_IF_CODE_VERSIONS_REQUEST,
        AmtRequest::ProvisioningMode => AMT_HOST_IF_PROVISIONING_MODE_REQUEST,
        AmtRequest::ProvisioningState => AMT_HOST_IF_PROVISIONING_STATE_REQUEST,
        AmtRequest::AmtState => AMT_HOST_IF_GET_AMT_STATE_REQUEST,
        AmtRequest::FeaturesState => AMT_HOST_IF_FEATURES_STATE_REQUEST,
        AmtRequest::PlatformType => AMT_HOST_IF_PLATFORM_TYPE_REQUEST,
        AmtRequest::LanInterfaceSettings { .. } => AMT_HOST_IF_LAN_INTERFACE_SETTINGS_REQUEST,
        AmtRequest::Fqdn => AMT_HOST_IF_FQDN_REQUEST,
        AmtRequest::DnsSuffix => AMT_HOST_IF_DNS_SUFFIX_REQUEST,
        AmtRequest::Unprovision { .. } => AMT_HOST_IF_UNPROVISION_REQUEST,
    }
}

/// The bytes that follow the header of a request.
pub open spec fn request_payload(r: AmtRequest) -> Seq<u8> {
    match r {
        AmtRequest::AmtState => AMT_UUID_LINK_STATE@,
        AmtRequest::LanInterfaceSettings { interface_id } => le_u32_bytes(interface_id),
        AmtRequest::Unprovision { mode } => le_u32_bytes(mode),
        _ => Seq::empty(),
    }
}

/// The buffers written to the device for a request, in order.  A request
/// without payload is its header alone; the AMT state and unprovision
/// requests write the header and then the payload; the LAN interface request
/// writes header and interface id as one buffer.
pub open spec fn request_writes_spec(r: AmtRequest) -> Seq<Seq<u8>> {
    let payload = request_payload(r);
    let header = header_bytes(request_header_spec(request_command(r), payload.len() as usize));
    match r {
        AmtRequest::LanInterfaceSettings { .. } => seq![header + payload],
        AmtRequest::AmtState => seq![header, payload],
        AmtRequest::Unprovision { .. } => seq![header, payload],
        _ => seq![header],
    }
}

/// Returns the command code of a request.
pub fn command_of(r: &AmtRequest) -> (c: u32)
    ensures
        c == request_command(*r),
{
    match r {
        AmtRequest::CodeVersions => AMT_HOST_IF_CODE_VERSIONS_REQUEST,
        AmtRequest::ProvisioningMode => AMT_HOST_IF_PROVISIONING_MODE_REQUEST,
        AmtRequest::ProvisioningState => AMT_HOST_IF_PROVISIONING_STATE_REQUEST,
        AmtRequest::AmtState => AMT_HOST_IF_GET_AMT_STATE_REQUEST,
        AmtRequest::FeaturesState => AMT_HOST_IF_FEATURES_STATE_REQUEST,
        AmtRequest::PlatformType => AMT_HOST_IF_PLATFORM_TYPE_REQUEST,
        AmtRequest::LanInterfaceSettings { .. } => AMT_HOST_IF_LAN_INTERFACE_SETTINGS_REQUEST,
        AmtRequest::Fqdn => AMT_HOST_IF_FQDN_REQUEST,
        AmtRequest::DnsSuffix => AMT_HOST_IF_DNS_SUFFIX_REQUEST,
        AmtRequest::Unprovision { .. } => AMT_HOST_IF_UNPROVISION_REQUEST,
    }
}

/// Returns the bytes that follow the header of a request.
pub fn payload_of(r: &AmtRequest) -> (p: Vec<u8>)
    ensures
        p@ == request_payload(*r),
{
    let mut p: Vec<u8> = Vec::new();
    match r {
        AmtRequest::AmtState => {
            let uuid = AMT_UUID_LINK_STATE;
            let mut i: usize = 0;
            while i < 16
                invariant
                    i <= 16,
                    uuid@ == AMT_UUID_LINK_STATE@,
                    p@ == uuid@.take(i as int),
                decreases 16 - i,
            {
                p.push(uuid[i]);
                i = i + 1;
                assert(p@ =~= uuid@.take(i as int));
            }
            assert(uuid@.take(16) =~= uuid@);
        },
        AmtRequest::LanInterfaceSettings { interface_id } => {
            push_u32_le(&mut p, *interface_id);
            assert(p@ =~= le_u32_bytes(*interface_id));
        },
        AmtRequest::Unprovision { mode } => {
            push_u32_le(&mut p, *mode);
            assert(p@ =~= le_u32_bytes(*mode));
        },
        _ => {
            assert(p@ =~= Seq::<u8>::empty());
        },
    }
    p
}

/// Builds the buffers to write to the device for a request, in order.
pub fn request_writes(r: &AmtRequest) -> (writes: Vec<Vec<u8>>)
    ensures
        writes@.map_values(|w: Vec<u8>| w@) == request_writes_spec(*r),
{
    let payload = payload_of(r);
    let header = encode_header(&request_header(command_of(r), payload.len()));
    let mut writes: Vec<Vec<u8>> = Vec::new();
    match r {
        AmtRequest::LanInterfaceSettings { .. } => {
            let mut frame = header;
            let mut i: usize = 0;
            let ghost h = frame@;
            while i < payload.len()
                invariant
                    i <= payload@.len(),
                    frame@ == h + payload@.take(i as int),
                decreases payload@.len() - i,
            {
                frame.push(payload[i]);
                i = i + 1;
                assert(frame@ =~= h + payload@.take(i as int));
            }
            assert(payload@.take(payload@.len() as int) =~= payload@);
            writes.push(frame);
        },
        AmtRequest::AmtState | AmtRequest::Unprovision { .. } => {
            writes.push(header);
            writes.push(payload);
        },
        _ => {
            writes.push(header);
        },
    }
    assert(writes@.map_values(|w: Vec<u8>| w@) =~= request_writes_spec(*r));
    writes
}

/// Flattens the buffers written for a request into the byte stream they form.
pub open spec fn concat_writes(writes: Seq<Seq<u8>>) -> Seq<u8>
    decreases writes.len(),
{
    if writes.len() == 0 {
        Seq::empty()
    } else {
        concat_writes(writes.drop_last()) + writes.last()
    }
}

/// Every request reaches the device as a header that reads back as protocol
/// version 1.1, the request's command and the payload's length, followed by
/// the payload.
pub proof fn lemma_request_framing(r: AmtRequest)
    ensures
        ({
            let stream = concat_writes(request_writes_spec(r));
            let payload = request_payload(r);
            &&& stream == header_bytes(request_header_spec(request_command(r), payload.len() as usize)) + payload
            &&& header_at_start(stream) == request_header_spec(request_command(r), payload.len() as usize)
            &&& header_at_start(stream).length == payload.len()
            &&& stream.subrange(MSG_HEADER_LEN as int, stream.len() as int) == payload
        }),
{
    let payload = request_payload(r);
    let h = request_header_spec(request_command(r), payload.len() as usize);
    let writes = request_writes_spec(r);
    lemma_header_roundtrip(h);
    reveal_with_fuel(concat_writes, 3);
    assert(payload.len() <= 16);
    match r {
        AmtRequest::LanInterfaceSettings { .. } => {
            assert(writes.drop_last() =~= Seq::<Seq<u8>>::empty());
        },
        AmtRequest::AmtState | AmtRequest::Unprovision { .. } => {
            assert(writes.drop_last() =~= seq![header_bytes(h)]);
            assert(writes.drop_last().drop_last() =~= Seq::<Seq<u8>>::empty());
        },
        _ => {
            assert(writes.drop_last() =~= Seq::<Seq<u8>>::empty());
            assert(header_bytes(h) + payload =~= header_bytes(h));
        },
    }
    let stream = concat_writes(writes);
    assert(stream =~= header_bytes(h) + payload);
    assert(stream.subrange(0, 12) =~= header_bytes(h));
    assert(header_at_start(stream) == header_at_start(header_bytes(h)));
    assert(stream.subrange(MSG_HEADER_LEN as int, stream.len() as int) =~= payload);
}

/// The frame of a request without payload: version 1.1, reserved zero, the
/// command little-endian, length zero.
pub open spec fn bare_frame(c0: u8, c1: u8, c2: u8, c3: u8) -> Seq<Seq<u8>> {
    seq![seq![1u8, 1u8, 0u8, 0u8, c0, c1, c2, c3, 0u8, 0u8, 0u8, 0u8]]
}

/// Each query without payload is sent as one twelve-byte frame carrying its
/// own command code: code versions 0x0400001A, provisioning mode 0x04000008,
/// provisioning state 0x04000011, features state 0x04000017, platform type
/// 0x04000019, FQDN 0x04000056, DNS suffix 0x04000036.
pub proof fn lemma_query_frames()
    ensures
        request_writes_spec(AmtRequest::CodeVersions) == bare_frame(0x1A, 0x00, 0x00, 0x04),
        request_writes_spec(AmtRequest::ProvisioningMode) == bare_frame(0x08, 0x00, 0x00, 0x04),
        request_writes_spec(AmtRequest::ProvisioningState) == bare_frame(0x11, 0x00, 0x00, 0x04),
        request_writes_spec(AmtRequest::FeaturesState) == bare_frame(0x17, 0x00, 0x00, 0x04),
        request_writes_spec(AmtRequest::PlatformType) == bare_frame(0x19, 0x00, 0x00, 0x04),
        request_writes_spec(AmtRequest::Fqdn) == bare_frame(0x56, 0x00, 0x00, 0x04),
        request_writes_spec(AmtRequest::DnsSuffix) == bare_frame(0x36, 0x00, 0x00, 0x04),
{
    assert(request_writes_spec(AmtRequest::CodeVersions) =~~= bare_frame(0x1A, 0x00, 0x00, 0x04));
    assert(request_writes_spec(AmtRequest::ProvisioningMode) =~~= bare_frame(0x08, 0x00, 0x00, 0x04));
    assert(request_writes_spec(AmtRequest::ProvisioningState) =~~= bare_frame(0x11, 0x00, 0x00, 0x04));
    assert(request_writes_spec(AmtRequest::FeaturesState) =~~= bare_frame(0x17, 0x00, 0x00, 0x04));
    assert(request_writes_spec(AmtRequest::PlatformType) =~~= bare_frame(0x19, 0x00, 0x00, 0x04));
    assert(request_writes_spec(AmtRequest::Fqdn) =~~= bare_frame(0x56, 0x00, 0x00, 0x04));
    assert(request_writes_spec(AmtRequest::DnsSuffix) =~~= bare_frame(0x36, 0x00, 0x00, 0x04));
}

/// The AMT state query is a header (command 0x01000001, length 16) written
/// apart from the link-state UUID 00..00 01.
pub proof fn lemma_amt_state_frames()
    ensures
        request_writes_spec(AmtRequest::AmtState) == seq![
            seq![1u8, 1u8, 0u8, 0u8, 0x01u8, 0x00u8, 0x00u8, 0x01u8, 16u8, 0u8, 0u8, 0u8],
            seq![0u8, 0u8, 0u8, 0u8, 0u8, 0u8, 0u8, 0u8, 0u8, 0u8, 0u8, 0u8, 0u8, 0u8, 0u8, 1u8],
        ],
{
    assert(request_writes_spec(AmtRequest::AmtState) =~~= seq![
        seq![1u8, 1u8, 0u8, 0u8, 0x01u8, 0x00u8, 0x00u8, 0x01u8, 16u8, 0u8, 0u8, 0u8],
        seq![0u8, 0u8, 0u8, 0u8, 0u8, 0u8, 0u8, 0u8, 0u8, 0u8, 0u8, 0u8, 0u8, 0u8, 0u8, 1u8],
    ]);
}

/// An unprovision request to mode `m` is a header (command 0x04000010,
/// length 4) followed, as a separate write, by four bytes that hold `m`
/// least significant byte first.
pub proof fn lemma_unprovision_frames(m: u32)
    ensures
        ({
            let w = request_writes_spec(AmtRequest::Unprovision { mode: m });
            &&& w.len() == 2
            &&& w[0] == seq![1u8, 1u8, 0u8, 0u8, 0x10u8, 0x00u8, 0x00u8, 0x04u8, 4u8, 0u8, 0u8, 0u8]
            &&& w[1].len() == 4
            &&& w[1][0] + 256 * w[1][1] + 65536 * w[1][2] + 16777216 * w[1][3] == m
        }),
{
    let w = request_writes_spec(AmtRequest::Unprovision { mode: m });
    lemma_le_u32_roundtrip(m);
    assert(w[0] =~= seq![1u8, 1u8, 0u8, 0u8, 0x10u8, 0x00u8, 0x00u8, 0x04u8, 4u8, 0u8, 0u8, 0u8]);
}

/// A LAN interface settings request for interface `id` is one sixteen-byte
/// write: a header (command 0x04000048, length 4) and then `id`, least
/// significant byte first.
pub proof fn lemma_lan_interface_frames(id: u32)
    ensures
        ({
            let w = request_writes_spec(AmtRequest::LanInterfaceSettings { interface_id: id });
            &&& w.len() == 1
            &&& w[0].len() == 16
            &&& w[0].subrange(0, 12) == seq![1u8, 1u8, 0u8, 0u8, 0x48u8, 0x00u8, 0x00u8, 0x04u8, 4u8, 0u8, 0u8, 0u8]
            &&& w[0][12] + 256 * w[0][13] + 65536 * w[0][14] + 16777216 * w[0][15] == id
        }),
{
    let w = request_writes_spec(AmtRequest::LanInterfaceSettings { interface_id: id });
    lemma_le_u32_roundtrip(id);
    assert(w[0].subrange(0, 12) =~= seq![1u8, 1u8, 0u8, 0u8, 0x48u8, 0x00u8, 0x00u8, 0x04u8, 4u8, 0u8, 0u8, 0u8]);
}

/// Different kinds of request carry different command codes, and requests
/// of one kind carry the same code whatever their parameter.
pub proof fn lemma_command_identifies_kind(a: AmtRequest, b: AmtRequest)
    ensures
        request_command(a) == request_command(b) <==> (
            (a is CodeVersions && b is CodeVersions)
            || (a is ProvisioningMode && b is ProvisioningMode)
            || (a is ProvisioningState && b is ProvisioningState)
            || (a is AmtState && b is AmtState)
            || (a is FeaturesState && b is FeaturesState)
            || (a is PlatformType && b is PlatformType)
            || (a is LanInterfaceSettings && b is LanInterfaceSettings)
            || (a is Fqdn && b is Fqdn)
            || (a is DnsSuffix && b is DnsSuffix)
            || (a is Unprovision && b is Unprovision)
        ),
{
}

} // verus!
