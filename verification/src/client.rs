//! The MEI client the tool connects to, and the properties the driver
//! reports on connection.
use vstd::prelude::*;

use crate::wire::{le_u32_at, read_u32_le};

verus! {

/// UUID of the AMT Host Interface (IAMTHIF) client,
/// 12f80028-b4b7-4b2d-aca8-46e0ff65814c, in the byte order the driver takes
/// (first three fields little-endian).
pub const AMT_UUID: [u8; 16] = [
    0x28, 0x00, 0xf8, 0x12, 0xb7, 0xb4, 0x2d, 0x4b, 0xac, 0xa8, 0x46, 0xe0, 0xff, 0x65, 0x81, 0x4c,
];

/// Size of the connect-client data the driver reads and overwrites.
pub const MEI_CONNECT_DATA_LEN: usize = 16;

/// Properties of a connected MEI client.
#[derive(Clone, Copy, Debug, PartialEq, Eq, Structural)]
pub struct MeiClient {
    pub max_msg_length: u32,
    pub protocol_version: u8,
}

/// The client properties held in the connect-client data the driver returns:
/// the maximum message length (little-endian `u32`) then the protocol version.
pub open spec fn client_properties(data: Seq<u8>) -> MeiClient {
    MeiClient { max_msg_length: le_u32_at(data, 0) as u32, protocol_version: data[4] }
}

/// Reads the client properties from the connect-client data the driver
/// returns.
pub fn decode_client_properties(data: &[u8; 16]) -> (c: MeiClient)
    ensures
        c == client_properties(data@),
{
    let bytes = data.as_slice();
    MeiClient { max_msg_length: read_u32_le(bytes, 0), protocol_version: bytes[4] }
}

/// The maximum message length is the `u32` held in the first four bytes,
/// least significant byte first, and the protocol version is the fifth byte.
pub proof fn lemma_client_properties_layout(data: Seq<u8>)
    requires
        data.len() >= 5,
    ensures
        client_properties(data).max_msg_length == data[0] + 256 * data[1] + 65536 * data[2]
            + 16777216 * data[3],
        client_properties(data).protocol_version == data[4],
{
}

} // verus!
