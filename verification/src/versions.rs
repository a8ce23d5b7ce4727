//! The firmware code versions response.
//!
//! After the response header come the BIOS version (65 bytes), the number of
//! version entries (little-endian `u32`) and the entries themselves.  Each
//! entry is two counted strings, a description and a version, each a
//! little-endian `u16` length followed by 20 bytes of text.
use vstd::prelude::*;

use crate::response::{check_response, response_error, AmtError};
use crate::message::RESP_HEADER_LEN;
use crate::text::{decode_field_text, field_text};
use crate::wire::{copy_range, le_u16_at, le_u32_at, read_u16_le, read_u32_le};

verus! {

/// Length of the BIOS version field.
pub const AMT_BIOS_VERSION_LEN: usize = 65;

/// Largest number of version entries a response holds.
pub const AMT_VERSIONS_NUMBER: usize = 50;

/// Capacity of the text of a counted string.
pub const AMT_UNICODE_STRING_LEN: usize = 20;

/// Size of a counted string: length field and text.
pub const AMT_UNICODE_STRING_SIZE: usize = 22;

/// Size of a version entry: description and version.
pub const AMT_VERSION_TYPE_SIZE: usize = 44;

/// Offset of the entry count in the response.
pub const VERSION_COUNT_OFFSET: usize = 81;

/// Offset of the first entry in the response.
pub const VERSIONS_OFFSET: usize = 85;

/// Offset of entry `i` in the response.
pub open spec fn entry_offset(i: int) -> int {
    VERSIONS_OFFSET + i * AMT_VERSION_TYPE_SIZE
}

/// Entry `i` lies wholly inside the response.
pub open spec fn entry_fits(resp: Seq<u8>, i: int) -> bool {
    entry_offset(i) + AMT_VERSION_TYPE_SIZE <= resp.len()
}

/// Length field of the description of entry `i`.
pub open spec fn description_len(resp: Seq<u8>, i: int) -> int {
    le_u16_at(resp, entry_offset(i))
}

/// Length field of the version of entry `i`.
pub open spec fn version_len(resp: Seq<u8>, i: int) -> int {
    le_u16_at(resp, entry_offset(i) + AMT_UNICODE_STRING_SIZE)
}

/// Entry `i` is reported: it fits and both its lengths are within capacity.
pub open spec fn entry_reported(resp: Seq<u8>, i: int) -> bool {
    &&& entry_fits(resp, i)
    &&& description_len(resp, i) <= AMT_UNICODE_STRING_LEN
    &&& version_len(resp, i) <= AMT_UNICODE_STRING_LEN
}

/// The (description, version) text pair of entry `i`.
pub open spec fn entry_text(resp: Seq<u8>, i: int) -> (Seq<char>, Seq<char>) {
    let off = entry_offset(i);
    let desc = off + 2;
    let ver = off + AMT_UNICODE_STRING_SIZE + 2;
    (
        field_text(resp.subrange(desc, desc + description_len(resp, i))),
        field_text(resp.subrange(ver, ver + version_len(resp, i))),
    )
}

/// The text pairs of the reported entries among the first `n`, in order.
pub open spec fn reported_entries(resp: Seq<u8>, n: nat) -> Seq<(Seq<char>, Seq<char>)>
    decreases n,
{
    if n == 0 {
        Seq::empty()
    } else {
        let prev = reported_entries(resp, (n - 1) as nat);
        if entry_reported(resp, n - 1) {
            prev.push(entry_text(resp, n - 1))
        } else {
            prev
        }
    }
}

/// The entry count the response states.
pub open spec fn version_count(resp: Seq<u8>) -> int {
    le_u32_at(resp, VERSION_COUNT_OFFSET as int)
}

/// How many entries are looked at: the stated count, at most fifty.
pub open spec fn entries_examined(resp: Seq<u8>) -> nat {
    if version_count(resp) < AMT_VERSIONS_NUMBER {
        version_count(resp) as nat
    } else {
        AMT_VERSIONS_NUMBER as nat
    }
}

/// What a code versions response yields.
pub open spec fn code_versions_spec(resp: Seq<u8>) -> Result<Seq<(Seq<char>, Seq<char>)>, AmtError> {
    match response_error(resp) {
        Some(e) => Err(e),
        None => if resp.len() - RESP_HEADER_LEN < AMT_BIOS_VERSION_LEN + 4 {
            Err(AmtError::VersionDataTooShort { len: (resp.len() - RESP_HEADER_LEN) as usize })
        } else {
            Ok(reported_entries(resp, entries_examined(resp)))
        },
    }
}

/// A reported text: at most twenty characters, not ending in NUL.
pub open spec fn short_field(t: Seq<char>) -> bool {
    t.len() <= AMT_UNICODE_STRING_LEN && (t.len() == 0 || t.last() != '\0')
}

/// Every description and version listed is a reported text.
pub open spec fn all_fields_short(v: Seq<(String, String)>) -> bool {
    forall|k: int| 0 <= k < v.len() ==> short_field(#[trigger] v[k].0@) && short_field(v[k].1@)
}

/// Entries past one that does not fit add nothing.
proof fn lemma_entries_stop(resp: Seq<u8>, i: nat, n: nat)
    requires
        i <= n,
        !entry_fits(resp, i as int),
    ensures
        reported_entries(resp, n) == reported_entries(resp, i),
    decreases n - i,
{
    if n > i {
        lemma_entries_stop(resp, i, (n - 1) as nat);
        assert(!entry_fits(resp, n - 1));
    }
}

/// At most one entry is reported per entry examined.
pub proof fn lemma_reported_entries_len(resp: Seq<u8>, n: nat)
    ensures
        reported_entries(resp, n).len() <= n,
    decreases n,
{
    if n > 0 {
        lemma_reported_entries_len(resp, (n - 1) as nat);
    }
}

/// Reads the firmware code versions a response lists.
pub fn parse_code_versions(resp: &[u8]) -> (r: Result<Vec<(String, String)>, AmtError>)
    ensures
        match r {
            Ok(v) => {
                &&& code_versions_spec(resp@) == Ok::<_, AmtError>(v.deep_view())
                &&& v@.len() <= entries_examined(resp@) <= AMT_VERSIONS_NUMBER
                &&& all_fields_short(v@)
            },
            Err(e) => code_versions_spec(resp@) == Err::<Seq<(Seq<char>, Seq<char>)>, _>(e),
        },
{
    check_response(resp)?;
    let data_len = resp.len() - RESP_HEADER_LEN;
    if data_len < AMT_BIOS_VERSION_LEN + 4 {
        return Err(AmtError::VersionDataTooShort { len: data_len });
    }
    let count = read_u32_le(resp, VERSION_COUNT_OFFSET);
    let limit: usize = if (count as usize) < AMT_VERSIONS_NUMBER {
        count as usize
    } else {
        AMT_VERSIONS_NUMBER
    };
    assert(limit == entries_examined(resp@));
    let mut result: Vec<(String, String)> = Vec::new();
    let mut i: usize = 0;
    while i < limit
        invariant
            i <= limit <= AMT_VERSIONS_NUMBER,
            limit == entries_examined(resp@),
            result.deep_view() == reported_entries(resp@, i as nat),
            all_fields_short(result@),
        ensures
            result.deep_view() == reported_entries(resp@, limit as nat),
            all_fields_short(result@),
        decreases limit - i,
    {
        let entry_offset = VERSIONS_OFFSET + i * AMT_VERSION_TYPE_SIZE;
        if entry_offset + AMT_VERSION_TYPE_SIZE > resp.len() {
            proof {
                lemma_entries_stop(resp@, i as nat, limit as nat);
            }
            break;
        }
        let desc_len = read_u16_le(resp, entry_offset) as usize;
        let ver_len = read_u16_le(resp, entry_offset + AMT_UNICODE_STRING_SIZE) as usize;
        let ghost before = result.deep_view();
        if desc_len <= AMT_UNICODE_STRING_LEN && ver_len <= AMT_UNICODE_STRING_LEN {
            let desc_start = entry_offset + 2;
            let ver_start = entry_offset + AMT_UNICODE_STRING_SIZE + 2;
            let description = decode_field_text(
                copy_range(resp, desc_start, desc_start + desc_len).as_slice(),
            );
            let version = decode_field_text(
                copy_range(resp, ver_start, ver_start + ver_len).as_slice(),
            );
            assert(short_field(description@) && short_field(version@));
            let ghost prev = result@;
            let ghost pair = (description, version);
            result.push((description, version));
            assert(result@ == prev.push(pair));
            assert forall|k: int| 0 <= k < result@.len() implies short_field(
                #[trigger] result@[k].0@,
            ) && short_field(result@[k].1@) by {
                if k < prev.len() {
                    assert(result@[k] == prev[k]);
                } else {
                    assert(result@[k] == pair);
                }
            }
            assert(result.deep_view() =~= before.push(entry_text(resp@, i as int)));
        }
        i = i + 1;
    }
    proof {
        lemma_reported_entries_len(resp@, limit as nat);
    }
    Ok(result)
}

/// The layout of a code versions response: the entry count follows the
/// sixteen-byte response header and the 65-byte BIOS version; entry `i`
/// starts right after the count plus `i` entries of two counted strings, each
/// a two-byte length and twenty bytes of text; at most fifty entries are
/// examined.
pub proof fn lemma_code_versions_layout(i: int)
    ensures
        VERSION_COUNT_OFFSET == 16 + 65,
        entry_offset(i) == 16 + 65 + 4 + i * (2 * (2 + 20)),
        AMT_UNICODE_STRING_SIZE == 2 + 20,
        AMT_UNICODE_STRING_LEN == 20,
        AMT_VERSIONS_NUMBER == 50,
{
}

/// Entry `i` is reported exactly when it ends within the response and both
/// its length fields (least significant byte first) are at most 20; the
/// description is read from the two bytes after its length field on, the
/// version from the two bytes after the version length field on.
pub proof fn lemma_entry_reporting(resp: Seq<u8>, i: int)
    requires
        0 <= i,
    ensures
        ({
            let off = 85 + 44 * i;
            &&& entry_reported(resp, i) <==> (off + 44 <= resp.len()
                && resp[off] + 256 * resp[off + 1] <= 20
                && resp[off + 22] + 256 * resp[off + 23] <= 20)
            &&& entry_reported(resp, i) ==> entry_text(resp, i) == (
                field_text(resp.subrange(off + 2, off + 2 + resp[off] + 256 * resp[off + 1])),
                field_text(resp.subrange(off + 24, off + 24 + resp[off + 22] + 256 * resp[off + 23])),
            )
        }),
{
}

/// The listed entries are the reported ones among those examined, in
/// order: examining one more entry appends its text exactly when it is
/// reported; examining none lists nothing.
pub proof fn lemma_reported_entries_step(resp: Seq<u8>, n: nat)
    ensures
        reported_entries(resp, 0) == Seq::<(Seq<char>, Seq<char>)>::empty(),
        reported_entries(resp, n + 1) == if entry_reported(resp, n as int) {
            reported_entries(resp, n).push(entry_text(resp, n as int))
        } else {
            reported_entries(resp, n)
        },
        entries_examined(resp) == if version_count(resp) < 50 {
            version_count(resp)
        } else {
            50
        },
        resp.len() >= 85 ==> version_count(resp) == resp[81] + 256 * resp[82] + 65536 * resp[83]
            + 16777216 * resp[84],
{
}

/// An accepted code versions response shorter than 85 bytes (header, BIOS
/// version and count) is refused with the length of its data; a longer one
/// lists the reported entries among the first min(count, 50).
pub proof fn lemma_code_versions_result(resp: Seq<u8>)
    ensures
        response_error(resp) is Some ==> code_versions_spec(resp) == Err::<Seq<(Seq<char>, Seq<char>)>, _>(
            response_error(resp)->0,
        ),
        response_error(resp) is None && resp.len() < 85 ==> code_versions_spec(resp) == Err::<
            Seq<(Seq<char>, Seq<char>)>,
            _,
        >(AmtError::VersionDataTooShort { len: (resp.len() - 16) as usize }),
        response_error(resp) is None && resp.len() >= 85 ==> code_versions_spec(resp) == Ok::<_, AmtError>(
            reported_entries(resp, entries_examined(resp)),
        ),
{
}

} // verus!
