//! Traversal of a process-table snapshot.
//!
//! A snapshot is a single contiguous byte buffer filled by the system-wide
//! process enumeration. It holds a sequence of variable-length records; each
//! record begins with a byte offset to the next one, a zero offset ending the
//! chain. The field offsets below are those of the 64-bit enumeration record
//! layout, under which the record's image name is given by a length in bytes
//! and an absolute pointer into the snapshot's memory.

use vstd::prelude::*;

use crate::record::ProcessRecord;
use crate::record::SpecProcessRecord;
use crate::record::record_option_view;

verus! {

/// Byte offset, within a record, of the offset to the next record.
pub const NEXT_ENTRY_OFFSET_POS: usize = 0;

/// Byte offset, within a record, of the image name's length in bytes.
pub const IMAGE_NAME_LENGTH_POS: usize = 56;

/// Byte offset, within a record, of the image name's address.
pub const IMAGE_NAME_BUFFER_POS: usize = 64;

/// Byte offset, within a record, of the process identifier.
pub const UNIQUE_PROCESS_ID_POS: usize = 80;

/// Byte offset, within a record, of the session identifier.
pub const SESSION_ID_POS: usize = 100;

/// Number of leading bytes a record must have for every read field to lie
/// within it.
pub const RECORD_HEADER_LEN: usize = 104;

/// Defensive cap on the number of records a traversal visits, guarding
/// against a corrupted or adversarial next-offset chain.
pub const MAX_RECORDS: usize = 1024;

/// The little-endian 16-bit value at byte position `i`.
pub open spec fn spec_u16_le(b: Seq<u8>, i: int) -> u16
    recommends
        0 <= i,
        i + 2 <= b.len(),
{
    (b[i] as u16) | ((b[i + 1] as u16) << 8)
}

/// The little-endian 32-bit value at byte position `i`.
pub open spec fn spec_u32_le(b: Seq<u8>, i: int) -> u32
    recommends
        0 <= i,
        i + 4 <= b.len(),
{
    (b[i] as u32) | ((b[i + 1] as u32) << 8) | ((b[i + 2] as u32) << 16) | ((b[i + 3] as u32)
        << 24)
}

/// The little-endian 64-bit value at byte position `i`.
pub open spec fn spec_u64_le(b: Seq<u8>, i: int) -> u64
    recommends
        0 <= i,
        i + 8 <= b.len(),
{
    (b[i] as u64) | ((b[i + 1] as u64) << 8) | ((b[i + 2] as u64) << 16) | ((b[i + 3] as u64)
        << 24) | ((b[i + 4] as u64) << 32) | ((b[i + 5] as u64) << 40) | ((b[i + 6] as u64) << 48)
        | ((b[i + 7] as u64) << 56)
}

fn u16_le_at(b: &Vec<u8>, i: usize) -> (r: u16)
    requires
        i + 2 <= b.len(),
    ensures
        r == spec_u16_le(b@, i as int),
{
    (b[i] as u16) | ((b[i + 1] as u16) << 8)
}

fn u32_le_at(b: &Vec<u8>, i: usize) -> (r: u32)
    requires
        i + 4 <= b.len(),
    ensures
        r == spec_u32_le(b@, i as int),
{
    (b[i] as u32) | ((b[i + 1] as u32) << 8) | ((b[i + 2] as u32) << 16) | ((b[i + 3] as u32)
        << 24)
}

fn u64_le_at(b: &Vec<u8>, i: usize) -> (r: u64)
    requires
        i + 8 <= b.len(),
    ensures
        r == spec_u64_le(b@, i as int),
{
    (b[i] as u64) | ((b[i + 1] as u64) << 8) | ((b[i + 2] as u64) << 16) | ((b[i + 3] as u64)
        << 24) | ((b[i + 4] as u64) << 32) | ((b[i + 5] as u64) << 40) | ((b[i + 6] as u64) << 48)
        | ((b[i + 7] as u64) << 56)
}

/// The `n` 16-bit code units stored little-endian from byte position `start`.
pub open spec fn spec_name_units(b: Seq<u8>, start: int, n: nat) -> Seq<u16> {
    Seq::new(n, |i: int| spec_u16_le(b, start + 2 * i))
}

/// The character sequence that decoding a sequence of UTF-16 code units
/// yields, invalid data replaced by the replacement character.
pub uninterp spec fn utf16_decoded(units: Seq<u16>) -> Seq<char>;

/// The name substituted for a record whose image name is absent or does not
/// lie within the snapshot.
pub open spec fn placeholder_name() -> Seq<char> {
    "<null>"@
}

/// Relies on String::from_utf16_lossy: the result depends on the code units
/// alone, and an empty input decodes to the empty string.
#[verifier::external_body]
fn decode_utf16_units(units: &Vec<u16>) -> (r: String)
    ensures
        r@ == utf16_decoded(units@),
        units@.len() == 0 ==> r@.len() == 0,
{
    String::from_utf16_lossy(units)
}

fn name_units(b: &Vec<u8>, start: usize, n: usize) -> (r: Vec<u16>)
    requires
        start + 2 * n <= b.len(),
    ensures
        r@ == spec_name_units(b@, start as int, n as nat),
{
    let mut units: Vec<u16> = Vec::new();
    let mut i: usize = 0;
    while i < n
        invariant
            i <= n,
            start + 2 * n <= b.len(),
            units@.len() == i,
            forall|j: int| 0 <= j < i ==> units@[j] == spec_u16_le(b@, start + 2 * j),
        decreases n - i,
    {
        units.push(u16_le_at(b, start + 2 * i));
        i = i + 1;
    }
    proof {
        assert(units@ =~= spec_name_units(b@, start as int, n as nat));
    }
    units
}

/// The image name a record carries: the decoded code units where the name's
/// address is set and its bytes lie within the snapshot, the placeholder
/// otherwise.
pub open spec fn spec_image_name(b: Seq<u8>, base: u64, pos: int) -> Seq<char> {
    let name_len = spec_u16_le(b, pos + IMAGE_NAME_LENGTH_POS);
    let name_ptr = spec_u64_le(b, pos + IMAGE_NAME_BUFFER_POS);
    let n_units = name_len as int / 2;
    if name_ptr == 0 {
        placeholder_name()
    } else if name_ptr >= base && name_ptr - base + 2 * n_units <= b.len() {
        utf16_decoded(spec_name_units(b, name_ptr - base, n_units as nat))
    } else {
        placeholder_name()
    }
}

/// The record stored at byte position `pos` of a snapshot whose first byte
/// sat at address `base` when it was filled.
pub open spec fn spec_record_at(b: Seq<u8>, base: u64, pos: int) -> SpecProcessRecord {
    SpecProcessRecord {
        pid: spec_u64_le(b, pos + UNIQUE_PROCESS_ID_POS),
        session_id: spec_u32_le(b, pos + SESSION_ID_POS),
        image_name: spec_image_name(b, base, pos),
    }
}

fn image_name_at(b: &Vec<u8>, base: u64, pos: usize) -> (r: String)
    requires
        pos + RECORD_HEADER_LEN <= b.len(),
    ensures
        r@ == spec_image_name(b@, base, pos as int),
{
    let name_len = u16_le_at(b, pos + IMAGE_NAME_LENGTH_POS);
    let name_ptr = u64_le_at(b, pos + IMAGE_NAME_BUFFER_POS);
    let n: usize = (name_len / 2) as usize;
    if name_ptr == 0 {
        "<null>".to_owned()
    } else if name_ptr >= base {
        let rel = name_ptr - base;
        let len64 = b.len() as u64;
        if rel <= len64 && 2 * (n as u64) <= len64 - rel {
            let units = name_units(b, rel as usize, n);
            decode_utf16_units(&units)
        } else {
            "<null>".to_owned()
        }
    } else {
        "<null>".to_owned()
    }
}

fn record_at(b: &Vec<u8>, base: u64, pos: usize) -> (r: ProcessRecord)
    requires
        pos + RECORD_HEADER_LEN <= b.len(),
    ensures
        r@ == spec_record_at(b@, base, pos as int),
{
    let pid = u64_le_at(b, pos + UNIQUE_PROCESS_ID_POS);
    let session_id = u32_le_at(b, pos + SESSION_ID_POS);
    let image_name = image_name_at(b, base, pos);
    ProcessRecord { pid, session_id, image_name }
}

/// The walk of the next-offset chain from byte position `pos`, visiting at
/// most `fuel` records: the first record whose identifier equals `pid`, or
/// nothing once the chain ends, leaves the buffer, or the fuel runs out.
pub open spec fn spec_find_from(b: Seq<u8>, base: u64, pid: u64, pos: int, fuel: nat) -> Option<
    SpecProcessRecord,
>
    decreases fuel,
{
    if fuel == 0 {
        Option::None
    } else if pos + RECORD_HEADER_LEN > b.len() {
        Option::None
    } else if spec_u64_le(b, pos + UNIQUE_PROCESS_ID_POS) == pid {
        Option::Some(spec_record_at(b, base, pos))
    } else if spec_u32_le(b, pos + NEXT_ENTRY_OFFSET_POS) == 0 {
        Option::None
    } else {
        spec_find_from(b, base, pid, pos + spec_u32_le(b, pos + NEXT_ENTRY_OFFSET_POS), (fuel
            - 1) as nat)
    }
}

/// The record of process `pid` in a snapshot, as the bounded walk from the
/// snapshot's first record finds it.
pub open spec fn spec_find_process(b: Seq<u8>, base: u64, pid: u64) -> Option<SpecProcessRecord> {
    spec_find_from(b, base, pid, 0, MAX_RECORDS as nat)
}

/// Walk a snapshot's record chain and return the first record whose process
/// identifier equals `pid`, or `None` when the chain ends without a match.
/// Every advance is checked against the buffer's end, and at most
/// [`MAX_RECORDS`] records are visited.
pub fn find_process(pid: u64, buf: &Vec<u8>, base: u64) -> (r: Option<ProcessRecord>)
    ensures
        record_option_view(r) == spec_find_process(buf@, base, pid),
{
    let n_bytes: usize = buf.len();
    let mut pos: usize = 0;
    let mut fuel: usize = MAX_RECORDS;
    loop
        invariant
            pos <= n_bytes,
            n_bytes == buf@.len(),
            spec_find_from(buf@, base, pid, pos as int, fuel as nat) == spec_find_process(
                buf@,
                base,
                pid,
            ),
        decreases fuel,
    {
        if fuel == 0 {
            return Option::None;
        }
        if n_bytes - pos < RECORD_HEADER_LEN {
            return Option::None;
        }
        let here = u64_le_at(buf, pos + UNIQUE_PROCESS_ID_POS);
        if here == pid {
            return Option::Some(record_at(buf, base, pos));
        }
        let next = u32_le_at(buf, pos + NEXT_ENTRY_OFFSET_POS);
        if next == 0 {
            return Option::None;
        }
        let next_us: usize = next as usize;
        if next_us > n_bytes - pos {
            proof {
                assert(spec_find_from(buf@, base, pid, pos + next_us, (fuel - 1) as nat)
                    == Option::<SpecProcessRecord>::None);
            }
            return Option::None;
        }
        pos = pos + next_us;
        fuel = fuel - 1;
    }
}

} // verus!
