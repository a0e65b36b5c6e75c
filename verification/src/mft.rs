//! MFT record decoding and path resolution.
//!
//! A record buffer is decoded in four steps: signature check, header
//! parse, update-sequence fixup, attribute walk. Decoded records are then
//! joined into full paths by walking parent references with cycle defence.

use vstd::prelude::*;
use vstd::string::StringSliceAdditionalSpecFns;
use crate::error::Error;
use crate::strutil::{le16_at, le32_at, le48_at, le64_at, read_le16, read_le32, read_le48,
    read_le64, utf16_lossy_of, utf16_units_of, dec_of, push_dec};
use crate::datetime::{filetime_to_ticks_spec, convert_filetime};
use crate::simd_optimize::{FILE_SIG_PATTERN, StringPool, apply_fixups_simd, fixup_applied,
    find_attributes_simd, attrs_found};
use crate::types::{Event, EventView, EventTimestamps, AlternateDataStream, AdsView};
use std::collections::HashMap;

verus! {

/// MFT record size in bytes (standard NTFS).
pub const MFT_RECORD_SIZE: usize = 1024;

/// Namespace tag of a $FILE_NAME attribute.
#[derive(Debug, Clone, Copy, PartialEq, Eq, Structural)]
pub enum FileNamespace {
    POSIX,
    Win32,
    DOS,
    Win32AndDos,
}

/// The namespace a tag byte denotes; unknown tags count as POSIX.
pub open spec fn namespace_of(v: u8) -> FileNamespace {
    if v == 0 {
        FileNamespace::POSIX
    } else if v == 1 {
        FileNamespace::Win32
    } else if v == 2 {
        FileNamespace::DOS
    } else if v == 3 {
        FileNamespace::Win32AndDos
    } else {
        FileNamespace::POSIX
    }
}

impl FileNamespace {
    /// Selection priority: the Win32 long name is preferred, then the DOS
    /// short name, then POSIX.
    pub open spec fn priority_spec(self) -> int {
        match self {
            FileNamespace::Win32 => 0,
            FileNamespace::Win32AndDos => 0,
            FileNamespace::DOS => 1,
            FileNamespace::POSIX => 2,
        }
    }

    /// The selection priority of this namespace.
    pub fn priority(self) -> (r: u8)
        ensures
            r == self.priority_spec(),
    {
        match self {
            FileNamespace::Win32 => 0,
            FileNamespace::Win32AndDos => 0,
            FileNamespace::DOS => 1,
            FileNamespace::POSIX => 2,
        }
    }
}

/// Decoded MFT entry header.
#[derive(Debug, Clone)]
pub struct EntryHeader {
    pub signature: [u8; 4],
    pub usa_offset: u16,
    pub usa_size: u16,
    pub metadata_transaction_journal: u64,
    pub sequence: u16,
    pub hard_link_count: u16,
    pub first_attribute_record_offset: u16,
    pub flags: u16,
    pub used_entry_size: u32,
    pub total_entry_size: u32,
    pub base_reference_entry: u64,
    pub base_reference_sequence: u16,
    pub first_attribute_id: u16,
    pub record_number: u64,
}

/// Decoded $FILE_NAME attribute.
#[derive(Debug, Clone)]
pub struct FileNameAttribute {
    pub parent_entry: u64,
    pub created: Option<u64>,
    pub modified: Option<u64>,
    pub mft_modified: Option<u64>,
    pub accessed: Option<u64>,
    pub logical_size: u64,
    pub physical_size: u64,
    pub flags: u32,
    pub name_length: u8,
    pub namespace: FileNamespace,
    pub name: String,
}

/// Spec-level value of a $FILE_NAME attribute.
pub ghost struct FnView {
    pub parent_entry: u64,
    pub created: Option<u64>,
    pub modified: Option<u64>,
    pub mft_modified: Option<u64>,
    pub accessed: Option<u64>,
    pub logical_size: u64,
    pub physical_size: u64,
    pub flags: u32,
    pub name_length: u8,
    pub namespace: FileNamespace,
    pub name: Seq<char>,
}

impl View for FileNameAttribute {
    type V = FnView;

    open spec fn view(&self) -> FnView {
        FnView {
            parent_entry: self.parent_entry,
            created: self.created,
            modified: self.modified,
            mft_modified: self.mft_modified,
            accessed: self.accessed,
            logical_size: self.logical_size,
            physical_size: self.physical_size,
            flags: self.flags,
            name_length: self.name_length,
            namespace: self.namespace,
            name: self.name@,
        }
    }
}

/// The $STANDARD_INFORMATION timestamps of a resident attribute at
/// `off`: four FILETIMEs at the content offset, or the empty quadruple for
/// non-resident or undersized attributes.
#[verifier::opaque]
pub open spec fn si_timestamps_spec(data: Seq<u8>, off: int) -> EventTimestamps {
    if data.len() - off < 24 || data[off + 8] != 0 {
        EventTimestamps { created: None, modified: None, mft_modified: None, accessed: None }
    } else {
        let co = le16_at(data, off + 20);
        if co + 32 > data.len() - off {
            EventTimestamps { created: None, modified: None, mft_modified: None, accessed: None }
        } else {
            let c = off + co;
            EventTimestamps {
                created: filetime_to_ticks_spec(le64_at(data, c) as u64),
                modified: filetime_to_ticks_spec(le64_at(data, c + 8) as u64),
                mft_modified: filetime_to_ticks_spec(le64_at(data, c + 16) as u64),
                accessed: filetime_to_ticks_spec(le64_at(data, c + 24) as u64),
            }
        }
    }
}

/// Parse a $STANDARD_INFORMATION attribute at `off`.
fn parse_standard_information_fast(data: &[u8], off: usize) -> (r: EventTimestamps)
    requires
        off + 16 <= data@.len(),
    ensures
        r == si_timestamps_spec(data@, off as int),
{
    proof {
        reveal(si_timestamps_spec);
    }
    let len = data.len();
    if len - off < 24 || data[off + 8] != 0 {
        return EventTimestamps::default();
    }
    let co = read_le16(data, off + 20) as usize;
    if co + 32 > len - off {
        return EventTimestamps::default();
    }
    let c = off + co;
    EventTimestamps {
        created: convert_filetime(read_le64(data, c)),
        modified: convert_filetime(read_le64(data, c + 8)),
        mft_modified: convert_filetime(read_le64(data, c + 16)),
        accessed: convert_filetime(read_le64(data, c + 24)),
    }
}

/// The decoded $FILE_NAME attribute at `off`, or nothing for non-resident
/// or undersized attributes. The name is the lossy UTF-16 decoding of the
/// name units when they fit in the buffer, else empty.
pub open spec fn fn_attr_spec(data: Seq<u8>, off: int) -> Option<FnView> {
    if data.len() - off < 24 || data[off + 8] != 0 {
        None
    } else {
        let co = le16_at(data, off + 20);
        if co + 66 > data.len() - off {
            None
        } else {
            let c = off + co;
            let nl = data[c + 64];
            Some(FnView {
                parent_entry: le48_at(data, c) as u64,
                created: filetime_to_ticks_spec(le64_at(data, c + 8) as u64),
                modified: filetime_to_ticks_spec(le64_at(data, c + 16) as u64),
                mft_modified: filetime_to_ticks_spec(le64_at(data, c + 24) as u64),
                accessed: filetime_to_ticks_spec(le64_at(data, c + 32) as u64),
                logical_size: le64_at(data, c + 40) as u64,
                physical_size: le64_at(data, c + 48) as u64,
                flags: le32_at(data, c + 56) as u32,
                name_length: nl,
                namespace: namespace_of(data[c + 65]),
                name: if nl > 0 && 66 + nl * 2 <= data.len() - c {
                    utf16_lossy_of(utf16_units_of(data.subrange(c + 66, c + 66 + nl * 2)))
                } else {
                    Seq::empty()
                },
            })
        }
    }
}

/// Parse a $FILE_NAME attribute at `off`.
fn parse_file_name_fast(pool: &mut StringPool, data: &[u8], off: usize) -> (r: Option<
    FileNameAttribute,
>)
    requires
        off + 16 <= data@.len(),
    ensures
        match r {
            Some(a) => fn_attr_spec(data@, off as int) == Some(a@),
            None => fn_attr_spec(data@, off as int) is None,
        },
{
    proof {
        reveal(fn_attr_spec);
    }
    let len = data.len();
    if len - off < 24 || data[off + 8] != 0 {
        return None;
    }
    let co = read_le16(data, off + 20) as usize;
    if co + 66 > len - off {
        return None;
    }
    let c = off + co;
    let parent_entry = read_le48(data, c);
    let created = convert_filetime(read_le64(data, c + 8));
    let modified = convert_filetime(read_le64(data, c + 16));
    let mft_modified = convert_filetime(read_le64(data, c + 24));
    let accessed = convert_filetime(read_le64(data, c + 32));
    let logical_size = read_le64(data, c + 40);
    let physical_size = read_le64(data, c + 48);
    let flags = read_le32(data, c + 56);
    let nl = data[c + 64];
    let ns_byte = data[c + 65];
    let namespace = if ns_byte == 0 {
        FileNamespace::POSIX
    } else if ns_byte == 1 {
        FileNamespace::Win32
    } else if ns_byte == 2 {
        FileNamespace::DOS
    } else if ns_byte == 3 {
        FileNamespace::Win32AndDos
    } else {
        FileNamespace::POSIX
    };
    let name: String = if nl > 0 && 66 + (nl as usize) * 2 <= len - c {
        let name_bytes = vstd::slice::slice_subrange(data, c + 66, c + 66 + (nl as usize) * 2);
        pool.intern_utf16(name_bytes)
    } else {
        String::new()
    };
    Some(FileNameAttribute {
        parent_entry,
        created,
        modified,
        mft_modified,
        accessed,
        logical_size,
        physical_size,
        flags,
        name_length: nl,
        namespace,
        name,
    })
}

/// The stream size a $DATA attribute at `off` reports: the non-resident
/// size at byte 48, or the resident content length at byte 16; undersized
/// attributes report zero.
#[verifier::opaque]
pub open spec fn data_size_spec(data: Seq<u8>, off: int) -> u64 {
    if data.len() - off < 16 {
        0
    } else if data[off + 8] != 0 {
        if data.len() - off >= 56 {
            le64_at(data, off + 48) as u64
        } else {
            0
        }
    } else {
        if data.len() - off >= 20 {
            le32_at(data, off + 16) as u64
        } else {
            0
        }
    }
}

/// Parse the size of a $DATA attribute at `off`.
fn parse_data_size_fast(data: &[u8], off: usize) -> (r: u64)
    requires
        off <= data@.len(),
    ensures
        r == data_size_spec(data@, off as int),
{
    proof {
        reveal(data_size_spec);
    }
    let len = data.len();
    if len - off < 16 {
        0
    } else if data[off + 8] != 0 {
        if len - off >= 56 {
            read_le64(data, off + 48)
        } else {
            0
        }
    } else {
        if len - off >= 20 {
            read_le32(data, off + 16) as u64
        } else {
            0
        }
    }
}

/// The alternate data stream a named $DATA attribute at `off` denotes:
/// name units read at the attribute's name offset, or nothing for the
/// unnamed stream or names that do not fit.
#[verifier::opaque]
pub open spec fn ads_spec(data: Seq<u8>, off: int) -> Option<AdsView> {
    let nl = data[off + 9];
    if nl == 0 {
        None
    } else {
        let no = le16_at(data, off + 10);
        if off + no + nl * 2 <= data.len() {
            Some(AdsView {
                name: utf16_lossy_of(utf16_units_of(data.subrange(off + no, off + no + nl * 2))),
                size: data_size_spec(data, off),
                resident: data[off + 8] == 0,
            })
        } else {
            None
        }
    }
}

/// Parse the alternate data stream of a named $DATA attribute.
fn parse_ads(pool: &mut StringPool, data: &[u8], off: usize) -> (r: Option<AlternateDataStream>)
    requires
        off + 16 <= data@.len(),
    ensures
        match r {
            Some(a) => ads_spec(data@, off as int) == Some(a@),
            None => ads_spec(data@, off as int) is None,
        },
{
    proof {
        reveal(ads_spec);
    }
    let len = data.len();
    let nl = data[off + 9] as usize;
    if nl == 0 {
        return None;
    }
    let no = read_le16(data, off + 10) as usize;
    if off as u128 + no as u128 + (nl as u128) * 2 > len as u128 {
        return None;
    }
    let name_bytes = vstd::slice::slice_subrange(data, off + no, off + no + nl * 2);
    let name = pool.intern_utf16(name_bytes);
    let size = parse_data_size_fast(data, off);
    Some(AlternateDataStream { name, size, resident: data[off + 8] == 0 })
}

/// Parse an MFT entry header from the first 48 bytes of a record buffer.
pub fn parse_entry_header_fast(data: &[u8], entry_number: u64) -> (r: Result<EntryHeader, Error>)
    ensures
        data@.len() >= 48 ==> (r matches Ok(h) ==> h.signature@ == data@.subrange(0, 4)
            && h.usa_offset == le16_at(data@, 4) && h.usa_size == le16_at(data@, 6)
            && h.metadata_transaction_journal == le64_at(data@, 8) && h.sequence == le16_at(
            data@, 16) && h.hard_link_count == le16_at(data@, 18)
            && h.first_attribute_record_offset == le16_at(data@, 20) && h.flags == le16_at(
            data@, 22) && h.used_entry_size == le32_at(data@, 24) && h.total_entry_size == le32_at(
            data@, 28) && h.base_reference_entry == le48_at(data@, 32)
            && h.base_reference_sequence == le16_at(data@, 38) && h.first_attribute_id == le16_at(
            data@, 40) && h.record_number == entry_number),
        data@.len() >= 48 ==> r is Ok,
        data@.len() < 48 ==> r is Err && (r matches Err(e) ==> e is MftParsing),
{
    if data.len() < 48 {
        return Err(Error::MftParsing(String::from_str("Buffer too small for header")));
    }
    let signature = [data[0], data[1], data[2], data[3]];
    let r = EntryHeader {
        signature,
        usa_offset: read_le16(data, 4),
        usa_size: read_le16(data, 6),
        metadata_transaction_journal: read_le64(data, 8),
        sequence: read_le16(data, 16),
        hard_link_count: read_le16(data, 18),
        first_attribute_record_offset: read_le16(data, 20),
        flags: read_le16(data, 22),
        used_entry_size: read_le32(data, 24),
        total_entry_size: read_le32(data, 28),
        base_reference_entry: read_le48(data, 32),
        base_reference_sequence: read_le16(data, 38),
        first_attribute_id: read_le16(data, 40),
        record_number: entry_number,
    };
    proof {
        assert(r.signature@ =~= data@.subrange(0, 4));
    }
    Ok(r)
}

/// The state the attribute fold carries: the last $STANDARD_INFORMATION
/// quadruple, the best $FILE_NAME so far with its priority, the unnamed
/// $DATA size, and the named streams in walk order.
pub ghost struct DecodeState {
    pub si: EventTimestamps,
    pub fn_attr: Option<FnView>,
    pub pri: int,
    pub size: Option<u64>,
    pub ads: Seq<AdsView>,
}

/// The fold's starting state.
pub open spec fn init_state() -> DecodeState {
    DecodeState {
        si: EventTimestamps { created: None, modified: None, mft_modified: None, accessed: None },
        fn_attr: None,
        pri: 255,
        size: None,
        ads: Seq::empty(),
    }
}

/// One fold step: a $STANDARD_INFORMATION attribute overwrites the
/// quadruple; a decodable $FILE_NAME replaces the best one when its
/// namespace priority is strictly lower; a $DATA attribute adds a named
/// stream or, unnamed, fills the size once.
#[verifier::opaque]
pub open spec fn step_state(data: Seq<u8>, st: DecodeState, attr: (u32, int)) -> DecodeState {
    let (ty, off) = attr;
    if ty == 0x10 {
        DecodeState { si: si_timestamps_spec(data, off), ..st }
    } else if ty == 0x30 {
        match fn_attr_spec(data, off) {
            Some(f) => if f.namespace.priority_spec() < st.pri {
                DecodeState { fn_attr: Some(f), pri: f.namespace.priority_spec(), ..st }
            } else {
                st
            },
            None => st,
        }
    } else if ty == 0x80 {
        let st1 = match ads_spec(data, off) {
            Some(a) => DecodeState { ads: st.ads.push(a), ..st },
            None => st,
        };
        if data[off + 9] == 0 && st.size is None {
            DecodeState { size: Some(data_size_spec(data, off)), ..st1 }
        } else {
            st1
        }
    } else {
        st
    }
}

/// The fold of the first `i` walked attributes.
pub open spec fn fold_state(data: Seq<u8>, attrs: Seq<(u32, int)>, i: int) -> DecodeState
    decreases i,
{
    if i <= 0 {
        init_state()
    } else {
        step_state(data, fold_state(data, attrs, i - 1), attrs[i - 1])
    }
}

/// The attribute types the decoder asks the walker for.
pub open spec fn decode_targets() -> Seq<u32> {
    seq![0x10u32, 0x30u32, 0x80u32]
}

/// The record a buffer decodes to, or nothing when the buffer is skipped:
/// buffers without a FILE signature are skipped, as are buffers too short
/// for a header, and buffers whose update sequence array would overflow
/// them are dropped with no output. Fixups are applied when the array is
/// present; the walked attributes then fill the record.
pub open spec fn decode_record_spec(buf: Seq<u8>, rn: u64) -> Option<EventView> {
    if buf.len() < 4 || le32_at(buf, 0) != FILE_SIG_PATTERN || buf.len() < 48 {
        None
    } else if le16_at(buf, 6) > 1 && le16_at(buf, 4) + le16_at(buf, 6) * 2 > buf.len() {
        None
    } else {
        let usa_offset = le16_at(buf, 4);
        let usa_size = le16_at(buf, 6);
        let buf2 = if usa_size > 1 {
            fixup_applied(buf, usa_offset, usa_size)
        } else {
            buf
        };
        let attrs = attrs_found(buf2, decode_targets());
        let st = fold_state(buf2, attrs, attrs.len() as int);
        let flags = le16_at(buf, 22);
        Some(EventView {
            record_number: rn,
            sequence_number: le16_at(buf, 16) as u16,
            filename: match st.fn_attr {
                Some(f) => Some(f.name),
                None => None,
            },
            file_size: if st.size is Some {
                st.size
            } else {
                match st.fn_attr {
                    Some(f) => Some(f.logical_size),
                    None => None,
                }
            },
            allocated_size: if st.size is None {
                match st.fn_attr {
                    Some(f) => Some(f.physical_size),
                    None => None,
                }
            } else {
                None
            },
            is_directory: flags as u16 & 2 != 0,
            is_deleted: flags as u16 & 1 == 0,
            link_count: Some(le16_at(buf, 18) as u16),
            parent_directory: match st.fn_attr {
                Some(f) => Some(f.parent_entry),
                None => None,
            },
            timestamps: st.si,
            fn_timestamps: match st.fn_attr {
                Some(f) => EventTimestamps {
                    created: f.created,
                    modified: f.modified,
                    mft_modified: f.mft_modified,
                    accessed: f.accessed,
                },
                None => EventTimestamps {
                    created: None,
                    modified: None,
                    mft_modified: None,
                    accessed: None,
                },
            },
            alternate_data_streams: st.ads,
            location: None,
            event_source: Some("MFT"@),
        })
    }
}

/// Package the fold's executable state as a spec value.
pub open spec fn as_state(
    si: EventTimestamps,
    fn_attr: Option<FnView>,
    pri: int,
    size: Option<u64>,
    ads: Seq<AdsView>,
) -> DecodeState {
    DecodeState { si, fn_attr, pri, size, ads }
}

/// Apply one walked attribute to the fold state.
fn fold_step(
    pool: &mut StringPool,
    data: &Vec<u8>,
    ty: u32,
    off: usize,
    si: &mut EventTimestamps,
    best_fn: &mut Option<FileNameAttribute>,
    best_pri: &mut u8,
    size: &mut Option<u64>,
    ads: &mut Vec<AlternateDataStream>,
)
    requires
        off + 16 <= data@.len(),
    ensures
        as_state(
            *final(si),
            match *final(best_fn) {
                Some(f) => Some(f@),
                None => None,
            },
            *final(best_pri) as int,
            *final(size),
            final(ads)@.map_values(|a: AlternateDataStream| a@),
        ) == step_state(
            data@,
            as_state(
                *old(si),
                match *old(best_fn) {
                    Some(f) => Some(f@),
                    None => None,
                },
                *old(best_pri) as int,
                *old(size),
                old(ads)@.map_values(|a: AlternateDataStream| a@),
            ),
            (ty, off as int),
        ),
{
    proof {
        reveal(step_state);
    }
    let l = data.len();
    if ty == 0x10 {
        *si = parse_standard_information_fast(data.as_slice(), off);
    } else if ty == 0x30 {
        if let Some(f) = parse_file_name_fast(pool, data.as_slice(), off) {
            let p = f.namespace.priority();
            if p < *best_pri {
                *best_fn = Some(f);
                *best_pri = p;
            }
        }
    } else if ty == 0x80 {
        let ghost prev_ads = ads@.map_values(|a: AlternateDataStream| a@);
        if let Some(a) = parse_ads(pool, data.as_slice(), off) {
            let ghost av = a@;
            ads.push(a);
            proof {
                assert(ads@.map_values(|a: AlternateDataStream| a@) =~= prev_ads.push(av));
            }
        }
        if data[off + 9] == 0 && size.is_none() {
            *size = Some(parse_data_size_fast(data.as_slice(), off));
        }
    }
}

/// Decode one record buffer, applying fixups and walking its attributes.
#[verifier::rlimit(100)]
pub fn parse_single_entry_fast(pool: &mut StringPool, buffer: &[u8], entry_number: u64) -> (r:
    Option<Event>)
    ensures
        match r {
            Some(e) => decode_record_spec(buffer@, entry_number) == Some(e@),
            None => decode_record_spec(buffer@, entry_number) is None,
        },
{
    let len = buffer.len();
    if len < 4 {
        return None;
    }
    let sig = read_le32(buffer, 0);
    if sig != FILE_SIG_PATTERN {
        return None;
    }
    if len < 48 {
        return None;
    }
    let usa_offset = read_le16(buffer, 4);
    let usa_size = read_le16(buffer, 6);
    if usa_size > 1 && usa_offset as usize + usa_size as usize * 2 > len {
        return None;
    }
    let sequence = read_le16(buffer, 16);
    let hard_link_count = read_le16(buffer, 18);
    let flags = read_le16(buffer, 22);
    let mut entry_buffer = vstd::slice::slice_to_vec(buffer);
    let _valid_fixup = apply_fixups_simd(
        &mut entry_buffer,
        usa_offset as usize,
        usa_size as usize,
        entry_number,
    );
    proof {
        assert(entry_buffer@ == (if usa_size > 1 {
            fixup_applied(buffer@, usa_offset as int, usa_size as int)
        } else {
            buffer@
        }));
    }
    let targets: Vec<u32> = vec![0x10u32, 0x30u32, 0x80u32];
    proof {
        assert(targets@ =~= decode_targets());
    }
    let attrs = find_attributes_simd(entry_buffer.as_slice(), targets.as_slice());
    let ghost buf2 = entry_buffer@;
    let ghost attrs_spec = attrs_found(buf2, decode_targets());
    let mut si = EventTimestamps::default();
    let mut best_fn: Option<FileNameAttribute> = None;
    let mut best_pri: u8 = 255;
    let mut size: Option<u64> = None;
    let mut ads: Vec<AlternateDataStream> = Vec::new();
    proof {
        assert(ads@.map_values(|a: AlternateDataStream| a@) =~= Seq::<AdsView>::empty());
        assert(si == EventTimestamps {
            created: None,
            modified: None,
            mft_modified: None,
            accessed: None,
        });
    }
    let mut i: usize = 0;
    while i < attrs.len()
        invariant
            entry_buffer@ == buf2,
            attrs_spec == attrs_found(buf2, decode_targets()),
            attrs@.map_values(|a: (u32, usize)| (a.0, a.1 as int)) == attrs_spec,
            i <= attrs@.len(),
            fold_state(buf2, attrs_spec, i as int) == as_state(
                si,
                match best_fn {
                    Some(f) => Some(f@),
                    None => None,
                },
                best_pri as int,
                size,
                ads@.map_values(|a: AlternateDataStream| a@),
            ),
        decreases attrs@.len() - i,
    {
        let (ty, off) = attrs[i];
        proof {
            assert(attrs_spec[i as int] == (ty, off as int)) by {
                assert(attrs@.map_values(|a: (u32, usize)| (a.0, a.1 as int))[i as int] == (
                    ty,
                    off as int,
                ));
            }
            crate::simd_optimize::lemma_attrs_found_bounds(buf2, decode_targets());
            assert(attrs_found(buf2, decode_targets())[i as int].1 + 16 <= buf2.len());
            assert(off + 16 <= buf2.len());
        }
        fold_step(pool, &entry_buffer, ty, off, &mut si, &mut best_fn, &mut best_pri, &mut size,
            &mut ads);
        proof {
            assert(fold_state(buf2, attrs_spec, i + 1) == step_state(
                buf2, fold_state(buf2, attrs_spec, i as int), attrs_spec[i as int]));
        }
        i = i + 1;
    }
    let record = Event {
        record_number: entry_number,
        sequence_number: sequence,
        filename: match &best_fn {
            Some(f) => Some(f.name.clone()),
            None => None,
        },
        file_size: match size {
            Some(s) => Some(s),
            None => match &best_fn {
                Some(f) => Some(f.logical_size),
                None => None,
            },
        },
        allocated_size: match size {
            Some(_) => None,
            None => match &best_fn {
                Some(f) => Some(f.physical_size),
                None => None,
            },
        },
        is_directory: flags & 2 != 0,
        is_deleted: flags & 1 == 0,
        link_count: Some(hard_link_count),
        parent_directory: match &best_fn {
            Some(f) => Some(f.parent_entry),
            None => None,
        },
        timestamps: si,
        fn_timestamps: match &best_fn {
            Some(f) => EventTimestamps {
                created: f.created,
                modified: f.modified,
                mft_modified: f.mft_modified,
                accessed: f.accessed,
            },
            None => EventTimestamps::default(),
        },
        alternate_data_streams: ads,
        location: None,
        event_source: Some(String::from_str("MFT")),
    };
    proof {
        assert(decode_record_spec(buffer@, entry_number) == Some(record@));
    }
    Some(record)
}

/// The cycle marker for a record: `[Cycle-<id>]`.
pub open spec fn cycle_tag(id: u64) -> Seq<char> {
    "[Cycle-"@ + dec_of(id as int) + "]"@
}

/// The missing-record marker: `[NotFound-<id>]`.
pub open spec fn notfound_tag(id: u64) -> Seq<char> {
    "[NotFound-"@ + dec_of(id as int) + "]"@
}

/// The full path of a record under the parent map `info`:
/// the root (record 5) is empty; a revisited record, or one past the depth
/// budget, is tagged as a cycle; an unknown record is tagged as not found;
/// a child of the root is its bare name; a self-referential or parentless
/// record is tagged as orphaned; anything else is its parent's path, a
/// slash, and its name.
pub open spec fn path_spec(
    info: Map<u64, (Seq<char>, u64)>,
    id: u64,
    visited: Set<u64>,
    fuel: nat,
) -> Seq<char>
    decreases fuel,
{
    if visited.contains(id) {
        cycle_tag(id)
    } else if id == 5 {
        Seq::empty()
    } else if fuel == 0 {
        cycle_tag(id)
    } else if !info.contains_key(id) {
        notfound_tag(id)
    } else {
        let name = info[id].0;
        let parent = info[id].1;
        if parent == 5 {
            name
        } else if parent == id || parent == 0 {
            "[Orphaned]/"@ + name
        } else {
            let pp = path_spec(info, parent, visited.insert(id), (fuel - 1) as nat);
            if pp.len() == 0 {
                name
            } else {
                pp + "/"@ + name
            }
        }
    }
}

/// Cycle tagging: when record `a`'s parent is `b` and `b`'s parent is `a`,
/// both resolve to paths containing the cycle marker, whatever the depth
/// budget.
pub proof fn lemma_cycle_tagging(info: Map<u64, (Seq<char>, u64)>, a: u64, b: u64, fuel: nat)
    requires
        info.contains_key(a),
        info.contains_key(b),
        info[a].1 == b,
        info[b].1 == a,
        a != 5 && b != 5 && a != 0 && b != 0 && a != b,
    ensures
        crate::strutil::seq_contains(path_spec(info, a, Set::empty(), fuel), "[Cycle-"@),
        crate::strutil::seq_contains(path_spec(info, b, Set::empty(), fuel), "[Cycle-"@),
{
    lemma_cycle_path_tagged(info, a, b, Set::empty(), fuel);
    lemma_cycle_path_tagged(info, b, a, Set::empty(), fuel);
}

/// A record on a two-cycle resolves to a path containing the cycle marker,
/// for any visited set that excludes it.
proof fn lemma_cycle_path_tagged(
    info: Map<u64, (Seq<char>, u64)>,
    a: u64,
    b: u64,
    visited: Set<u64>,
    fuel: nat,
)
    requires
        info.contains_key(a),
        info.contains_key(b),
        info[a].1 == b,
        info[b].1 == a,
        a != 5 && b != 5 && a != 0 && b != 0 && a != b,
    ensures
        crate::strutil::seq_contains(path_spec(info, a, visited, fuel), "[Cycle-"@),
    decreases fuel,
{
    let p = path_spec(info, a, visited, fuel);
    if visited.contains(a) || fuel == 0 {
        assert(p == cycle_tag(a));
        crate::strutil::lemma_contains_prefix("[Cycle-"@, dec_of(a as int) + "]"@);
        assert("[Cycle-"@ + (dec_of(a as int) + "]"@) =~= cycle_tag(a));
    } else {
        let pp = path_spec(info, b, visited.insert(a), (fuel - 1) as nat);
        lemma_cycle_path_tagged(info, b, a, visited.insert(a), (fuel - 1) as nat);
        assert(pp.len() > 0) by {
            if pp.len() == 0 {
                assert(crate::strutil::seq_contains(pp, "[Cycle-"@));
                let i = choose|i: int| crate::strutil::seq_matches_at(pp, "[Cycle-"@, i);
                reveal_strlit("[Cycle-");
            }
        }
        assert(p == pp + "/"@ + info[a].0);
        crate::strutil::lemma_contains_concat_right(pp, "/"@, "[Cycle-"@);
        crate::strutil::lemma_contains_concat_right(pp + "/"@, info[a].0, "[Cycle-"@);
    }
}

/// Filename selection: a record carrying two $FILE_NAME attributes with
/// namespaces Win32 and DOS, in either order, keeps the Win32 name.
pub proof fn lemma_filename_selection(data: Seq<u8>, p1: int, p2: int)
    requires
        fn_attr_spec(data, p1) is Some,
        fn_attr_spec(data, p2) is Some,
        ({
            let n1 = fn_attr_spec(data, p1)->Some_0.namespace;
            let n2 = fn_attr_spec(data, p2)->Some_0.namespace;
            (n1 == FileNamespace::Win32 && n2 == FileNamespace::DOS) || (n1 == FileNamespace::DOS
                && n2 == FileNamespace::Win32)
        }),
    ensures
        ({
            let st = fold_state(data, seq![(0x30u32, p1), (0x30u32, p2)], 2);
            let f1 = fn_attr_spec(data, p1)->Some_0;
            let f2 = fn_attr_spec(data, p2)->Some_0;
            st.fn_attr == Some(
                if f1.namespace == FileNamespace::Win32 {
                    f1
                } else {
                    f2
                },
            )
        }),
{
    reveal(step_state);
    let attrs = seq![(0x30u32, p1), (0x30u32, p2)];
    assert(fold_state(data, attrs, 1) == step_state(data, fold_state(data, attrs, 0), attrs[0]));
    assert(fold_state(data, attrs, 2) == step_state(data, fold_state(data, attrs, 1), attrs[1]));
}

/// The record parses but its fixup check fails: the update sequence
/// array is present and fits, and a protected sub-sector does not end in
/// the update sequence number. Such a record is kept, tagged as a soft
/// error.
pub open spec fn record_fixup_bad(buf: Seq<u8>) -> bool {
    buf.len() >= 48 && le32_at(buf, 0) == FILE_SIG_PATTERN && le16_at(buf, 6) > 1 && le16_at(
        buf,
        4,
    ) + le16_at(buf, 6) * 2 <= buf.len() && !crate::simd_optimize::fixup_valid(
        buf,
        le16_at(buf, 4),
        le16_at(buf, 6),
    )
}

/// How many of the first `n` record chunks parse with a failing fixup
/// check.
pub open spec fn fixup_bad_count(data: Seq<u8>, n: int) -> int
    decreases n,
{
    if n <= 0 {
        0
    } else {
        fixup_bad_count(data, n - 1) + if record_fixup_bad(
            data.subrange((n - 1) * 1024, n * 1024),
        ) {
            1int
        } else {
            0int
        }
    }
}

/// Check one record buffer for the fixup soft error.
fn fixup_check_bad(buf: &[u8]) -> (r: bool)
    ensures
        r == record_fixup_bad(buf@),
{
    let len = buf.len();
    if len < 48 {
        return false;
    }
    if read_le32(buf, 0) != FILE_SIG_PATTERN {
        return false;
    }
    let off = read_le16(buf, 4) as usize;
    let size = read_le16(buf, 6) as usize;
    if size <= 1 || off + size * 2 > len {
        return false;
    }
    let mut k: usize = 0;
    let mut ok = true;
    while k < size - 1
        invariant
            len == buf@.len(),
            1 < size <= 0xFFFF,
            off + size * 2 <= len,
            k <= size - 1,
            ok <==> (forall|j: int|
                0 <= j < k && 512 * j + 512 <= len ==> buf@[#[trigger] (512 * j) + 510]
                    == buf@[off as int] && buf@[512 * j + 511] == buf@[off as int + 1]),
        decreases size - 1 - k,
    {
        if 512 * k + 512 <= len {
            if !(buf[512 * k + 510] == buf[off] && buf[512 * k + 511] == buf[off + 1]) {
                ok = false;
            }
        }
        k = k + 1;
    }
    !ok
}

/// Per-record path information collected in the first resolution pass.
struct PathInfo {
    filename: String,
    parent_id: u64,
}

/// MFT parser: decodes record buffers and resolves full paths. The
/// decoding itself is sequential; a caller that shards work across
/// threads must merge results in boundary order to match these contracts.
pub struct MftParser {
    string_pool: StringPool,
    path_info: HashMap<u64, PathInfo>,
    path_cache: HashMap<u64, String>,
    parallel_threads: usize,
    use_simd: bool,
    max_path_depth: usize,
    fixup_errors: u64,
}

/// The parent map a record sequence induces: each named record maps to
/// its filename and parent, later records overriding earlier ones.
pub open spec fn info_of_records(recs: Seq<EventView>, n: int) -> Map<u64, (Seq<char>, u64)>
    decreases n,
{
    if n <= 0 {
        Map::empty()
    } else {
        let m = info_of_records(recs, n - 1);
        let r = recs[n - 1];
        match r.filename {
            Some(f) => m.insert(
                r.record_number,
                (
                    f,
                    match r.parent_directory {
                        Some(p) => p,
                        None => 0,
                    },
                ),
            ),
            None => m,
        }
    }
}

/// A record sequence with every location resolved against the parent map
/// the sequence itself induces.
pub open spec fn resolve_spec(recs: Seq<EventView>, depth: nat) -> Seq<EventView> {
    let info = info_of_records(recs, recs.len() as int);
    recs.map_values(
        |r: EventView|
            EventView {
                location: Some(path_spec(info, r.record_number, Set::empty(), depth)),
                ..r
            },
    )
}

/// The records decoded from the whole 1024-byte chunks of a buffer, in
/// chunk order, skipped chunks omitted.
pub open spec fn decoded_seq(data: Seq<u8>, n: int) -> Seq<EventView>
    decreases n,
{
    if n <= 0 {
        Seq::empty()
    } else {
        decoded_seq(data, n - 1) + (match decode_record_spec(
            data.subrange((n - 1) * 1024, n * 1024),
            (n - 1) as u64,
        ) {
            Some(e) => seq![e],
            None => Seq::empty(),
        })
    }
}

/// The full parse of an MFT buffer: decode each whole 1024-byte chunk,
/// then resolve every record's location.
pub open spec fn mft_parse_spec(data: Seq<u8>, depth: nat) -> Seq<EventView> {
    resolve_spec(decoded_seq(data, data.len() as int / 1024), depth)
}

impl MftParser {
    /// The parent map currently held for path resolution.
    pub closed spec fn info_view(&self) -> Map<u64, (Seq<char>, u64)> {
        Map::new(
            |k: u64| self.path_info@.contains_key(k),
            |k: u64| (self.path_info@[k].filename@, self.path_info@[k].parent_id),
        )
    }

    /// The configured depth budget.
    pub closed spec fn depth(&self) -> nat {
        self.max_path_depth as nat
    }

    /// Every cached path equals the resolution under the current map.
    pub closed spec fn wf(&self) -> bool {
        forall|k: u64|
            self.path_cache@.contains_key(k) ==> (#[trigger] self.path_cache@[k])@ == path_spec(
                self.info_view(), k, Set::empty(), self.depth())
    }

    /// The number of records of the last parse whose fixup check failed.
    pub closed spec fn fixup_errors_spec(&self) -> u64 {
        self.fixup_errors
    }

    /// The number of records of the last parse that were kept although
    /// their fixup check failed: the soft-error count.
    pub fn fixup_error_count(&self) -> (r: u64)
        ensures
            r == self.fixup_errors_spec(),
    {
        self.fixup_errors
    }

    /// A parser with the default configuration: depth budget 50.
    pub fn new() -> (r: Self)
        ensures
            r.wf(),
            r.depth() == 50,
            r.fixup_errors_spec() == 0,
    {
        let r = MftParser {
            string_pool: StringPool::new(),
            path_info: HashMap::new(),
            path_cache: HashMap::new(),
            parallel_threads: 1,
            use_simd: false,
            max_path_depth: 50,
            fixup_errors: 0,
        };
        r
    }

    /// A parser with the given configuration's depth budget.
    pub fn with_config(config: crate::types::ParsingConfig) -> (r: Self)
        ensures
            r.wf(),
            r.depth() == config.max_path_depth,
    {
        let r = MftParser {
            string_pool: StringPool::new(),
            path_info: HashMap::new(),
            path_cache: HashMap::new(),
            parallel_threads: 1,
            use_simd: false,
            max_path_depth: config.max_path_depth,
            fixup_errors: 0,
        };
        r
    }

    /// Walk parent references to build one record's path. Termination is
    /// by the fuel alone, so resolution finishes within the depth budget
    /// on every record graph, cyclic or not.
    fn build_path_recursive(&self, entry_id: u64, visited: &mut Vec<u64>, fuel: usize) -> (r:
        String)
        ensures
            r@ == path_spec(self.info_view(), entry_id, old(visited)@.to_set(), fuel as nat),
        decreases fuel,
    {
        proof {
            broadcast use vstd::seq_lib::group_seq_properties;
        }
        if contains_u64(visited, entry_id) {
            return cycle_tag_string(entry_id);
        }
        if entry_id == 5 {
            return String::new();
        }
        if fuel == 0 {
            return cycle_tag_string(entry_id);
        }
        visited.push(entry_id);
        proof {
            assert(visited@.to_set() =~= old(visited)@.to_set().insert(entry_id));
        }
        match self.path_info.get(&entry_id) {
            None => notfound_tag_string(entry_id),
            Some(info) => {
                let filename = info.filename.clone();
                let parent = info.parent_id;
                if parent == 5 {
                    filename
                } else if parent == entry_id || parent == 0 {
                    let mut s = String::from_str("[Orphaned]/");
                    s.append(filename.as_str());
                    s
                } else {
                    let pp = self.build_path_recursive(parent, visited, fuel - 1);
                    if pp.as_str().unicode_len() == 0 {
                        filename
                    } else {
                        let mut s = pp;
                        s.append("/");
                        s.append(filename.as_str());
                        s
                    }
                }
            },
        }
    }

    /// The full path of a record: served from the cache when present,
    /// else computed and cached.
    pub fn get_full_path_for_record(&mut self, entry_id: u64) -> (r: String)
        requires
            old(self).wf(),
        ensures
            final(self).wf(),
            final(self).info_view() == old(self).info_view(),
            final(self).depth() == old(self).depth(),
            final(self).fixup_errors_spec() == old(self).fixup_errors_spec(),
            r@ == path_spec(old(self).info_view(), entry_id, Set::empty(), old(self).depth()),
    {
        if let Some(cached) = self.path_cache.get(&entry_id) {
            return cached.clone();
        }
        let mut visited: Vec<u64> = Vec::new();
        proof {
            broadcast use vstd::seq_lib::group_seq_properties;
            assert(visited@.to_set() =~= Set::<u64>::empty());
        }
        let fuel = self.max_path_depth;
        let path = self.build_path_recursive(entry_id, &mut visited, fuel);
        self.path_cache.insert(entry_id, path.clone());
        path
    }
}

/// Copy a record, field by field.
fn clone_event(e: &Event) -> (r: Event)
    ensures
        r@ == e@,
{
    let mut ads: Vec<AlternateDataStream> = Vec::new();
    let mut i: usize = 0;
    while i < e.alternate_data_streams.len()
        invariant
            i <= e.alternate_data_streams@.len(),
            ads@.len() == i,
            forall|k: int|
                0 <= k < i ==> (#[trigger] ads@[k])@ == e.alternate_data_streams@[k]@,
        decreases e.alternate_data_streams@.len() - i,
    {
        let ai = &e.alternate_data_streams[i];
        ads.push(AlternateDataStream {
            name: ai.name.clone(),
            size: ai.size,
            resident: ai.resident,
        });
        proof {
            assert(ads@[i as int]@ == e.alternate_data_streams@[i as int]@);
        }
        i = i + 1;
    }
    proof {
        assert(ads@.map_values(|a: AlternateDataStream| a@) =~= e.alternate_data_streams@.map_values(
            |a: AlternateDataStream| a@));
    }
    let r = Event {
        record_number: e.record_number,
        sequence_number: e.sequence_number,
        filename: match &e.filename {
            Some(f) => Some(f.clone()),
            None => None,
        },
        file_size: e.file_size,
        allocated_size: e.allocated_size,
        is_directory: e.is_directory,
        is_deleted: e.is_deleted,
        link_count: e.link_count,
        parent_directory: e.parent_directory,
        timestamps: e.timestamps,
        fn_timestamps: e.fn_timestamps,
        alternate_data_streams: ads,
        location: match &e.location {
            Some(l) => Some(l.clone()),
            None => None,
        },
        event_source: match &e.event_source {
            Some(s) => Some(s.clone()),
            None => None,
        },
    };
    r
}

impl MftParser {
    /// Two-pass path building: collect each named record's parent link,
    /// then resolve and store every record's full location.
    pub fn build_directory_paths_sequential(&mut self, records: &mut Vec<Event>)
        requires
            old(self).wf(),
        ensures
            final(self).wf(),
            final(self).depth() == old(self).depth(),
            final(self).fixup_errors_spec() == old(self).fixup_errors_spec(),
            final(records)@.map_values(|e: Event| e@) == resolve_spec(
                old(records)@.map_values(|e: Event| e@),
                old(self).depth(),
            ),
    {
        let ghost recs = records@.map_values(|e: Event| e@);
        self.path_info.clear();
        self.path_cache.clear();
        let n = records.len();
        let mut i: usize = 0;
        while i < n
            invariant
                old(self).wf(),
                n == records@.len(),
                records@.map_values(|e: Event| e@) == recs,
                i <= n,
                self.path_cache@ =~= Map::<u64, String>::empty(),
                self.info_view() == info_of_records(recs, i as int),
                self.depth() == old(self).depth(),
                self.fixup_errors == old(self).fixup_errors,
            decreases n - i,
        {
            let ghost prev = self.info_view();
            let rec = &records[i];
            if let Some(f) = &rec.filename {
                let parent = match rec.parent_directory {
                    Some(p) => p,
                    None => 0,
                };
                self.path_info.insert(
                    rec.record_number,
                    PathInfo { filename: f.clone(), parent_id: parent },
                );
                proof {
                    assert(recs[i as int] == rec@);
                    assert(self.info_view() =~= prev.insert(
                        rec@.record_number,
                        (
                            rec@.filename->Some_0,
                            if rec@.parent_directory is Some {
                                rec@.parent_directory->Some_0
                            } else {
                                0u64
                            },
                        ),
                    ));
                }
            }
            proof {
                assert(self.info_view() =~= info_of_records(recs, i + 1));
            }
            i = i + 1;
        }
        let ghost info = self.info_view();
        proof {
            assert(self.wf());
            assert(info == info_of_records(recs, recs.len() as int));
        }
        let mut out: Vec<Event> = Vec::new();
        let mut j: usize = 0;
        while j < n
            invariant
                n == records@.len(),
                records@.map_values(|e: Event| e@) == recs,
                j <= n,
                self.wf(),
                self.info_view() == info,
                info == info_of_records(recs, recs.len() as int),
                self.depth() == old(self).depth(),
                self.fixup_errors == old(self).fixup_errors,
                out@.len() == j,
                forall|k: int|
                    0 <= k < j ==> (#[trigger] out@[k])@ == resolve_spec(
                        recs,
                        old(self).depth(),
                    )[k],
            decreases n - j,
        {
            let rn = records[j].record_number;
            let path = self.get_full_path_for_record(rn);
            let mut e = clone_event(&records[j]);
            e.location = Some(path);
            out.push(e);
            proof {
                assert(recs[j as int] == records@.map_values(|e: Event| e@)[j as int]);
                assert(out@[j as int]@ == resolve_spec(recs, old(self).depth())[j as int]);
            }
            j = j + 1;
        }
        proof {
            assert(out@.map_values(|e: Event| e@) =~= resolve_spec(recs, old(self).depth()));
        }
        *records = out;
    }

    /// Parse an MFT buffer: decode every whole 1024-byte record chunk in
    /// order, then resolve all locations. Soft per-record failures skip
    /// the record and never abort the parse.
    pub fn parse_mft_data(&mut self, data: &[u8]) -> (r: Result<Vec<Event>, Error>)
        requires
            old(self).wf(),
        ensures
            final(self).wf(),
            r is Ok,
            r matches Ok(v) ==> v@.map_values(|e: Event| e@) == mft_parse_spec(
                data@, old(self).depth()),
            final(self).fixup_errors_spec() == fixup_bad_count(data@, data@.len() as int / 1024),
    {
        let len = data.len();
        let n = len / MFT_RECORD_SIZE;
        proof {
            assert(n * 1024 <= len) by (nonlinear_arith)
                requires
                    n == len / 1024,
            ;
        }
        self.fixup_errors = 0;
        let mut records: Vec<Event> = Vec::new();
        let mut i: usize = 0;
        while i < n
            invariant
                old(self).wf(),
                len == data@.len(),
                n == len as int / 1024,
                n * 1024 <= len,
                i <= n,
                records@.map_values(|e: Event| e@) == decoded_seq(data@, i as int),
                self.wf(),
                self.info_view() == old(self).info_view(),
                self.depth() == old(self).depth(),
                self.fixup_errors <= i,
                self.fixup_errors == fixup_bad_count(data@, i as int),
            decreases n - i,
        {
            proof {
                assert(i * 1024 <= (n - 1) * 1024 && (i + 1) * 1024 <= n * 1024)
                    by (nonlinear_arith)
                    requires
                        i < n,
                ;
            }
            let start = i * MFT_RECORD_SIZE;
            let chunk = vstd::slice::slice_subrange(data, start, start + MFT_RECORD_SIZE);
            let ghost prev = records@.map_values(|e: Event| e@);
            if fixup_check_bad(chunk) {
                self.fixup_errors = self.fixup_errors + 1;
            }
            match parse_single_entry_fast(&mut self.string_pool, chunk, i as u64) {
                Some(rec) => {
                    records.push(rec);
                },
                None => {},
            }
            proof {
                assert(records@.map_values(|e: Event| e@) =~= decoded_seq(data@, i + 1));
            }
            i = i + 1;
        }
        self.build_directory_paths_sequential(&mut records);
        Ok(records)
    }
}

/// What percent-decoding yields for a path: a function of the text
/// alone; undecodable input comes back unchanged.
pub uninterp spec fn urldecode_of(s: Seq<char>) -> Seq<char>;

/// Relies on urlencoding::decode: percent-decodes the text, handing the
/// input back unchanged when the encoding is invalid.
#[verifier::external_body]
fn urldecode(s: &str) -> (r: String)
    ensures
        r@ == urldecode_of(s@),
{
    match urlencoding::decode(s) {
        Ok(d) => d.into_owned(),
        Err(_) => s.to_string(),
    }
}

/// The position of the first match of the needle, scanning forward.
fn find_pos(h: &[u8], n: &[u8]) -> (r: Option<usize>)
    ensures
        r matches Some(i) ==> crate::strutil::matches_at(h@, n@, i as int),
{
    let hl = h.len();
    let nl = n.len();
    if nl > hl || nl == 0 {
        return None;
    }
    let end = hl - nl;
    let mut i: usize = 0;
    while i <= end
        invariant
            1 <= n@.len() <= h@.len(),
            nl == n@.len(),
            hl == h@.len(),
            end == h@.len() - n@.len(),
            end < usize::MAX,
            i <= end + 1,
        decreases end + 1 - i,
    {
        let mut j: usize = 0;
        let mut ok = true;
        while j < nl
            invariant
                j <= nl,
                nl == n@.len(),
                hl == h@.len(),
                i + nl <= hl,
                ok ==> forall|k: int| 0 <= k < j ==> h@[i + k] == n@[k],
            decreases nl - j,
        {
            if h[i + j] != n[j] {
                ok = false;
            }
            j = j + 1;
        }
        if ok {
            proof {
                assert(h@.subrange(i as int, i + n@.len() as int) =~= n@);
            }
            return Some(i);
        }
        i = i + 1;
    }
    None
}

/// The position after the last path separator, forward or backward:
/// zero when the bytes hold none.
pub open spec fn after_last_sep_spec(b: Seq<u8>) -> int
    decreases b.len(),
{
    if b.len() == 0 {
        0
    } else if b.last() == 47 || b.last() == 92 {
        b.len() as int
    } else {
        after_last_sep_spec(b.drop_last())
    }
}

/// The position after the last path separator, forward or backward.
fn after_last_separator(b: &[u8]) -> (r: usize)
    ensures
        r <= b@.len(),
        r == after_last_sep_spec(b@),
{
    let bl = b.len();
    let mut start: usize = bl;
    proof {
        assert(b@.take(bl as int) =~= b@);
    }
    while start > 0 && b[start - 1] != 47 && b[start - 1] != 92
        invariant
            start <= bl,
            bl == b@.len(),
            after_last_sep_spec(b@) == after_last_sep_spec(b@.take(start as int)),
        decreases start,
    {
        proof {
            assert(b@.take(start as int).drop_last() =~= b@.take(start - 1));
        }
        start = start - 1;
    }
    start
}

impl MftParser {
    /// Clean a jumplist source path: percent-decode it, then keep the
    /// portion from "Users" onward when one appears, else the bare file
    /// name, else the decoded text.
    pub fn clean_jumplist_path(path: &str) -> (r: String)
        ensures
            ({
                let d = urldecode_of(path@);
                let db = vstd::utf8::encode_utf8(d);
                ||| (exists|i: int|
                    #[trigger] crate::strutil::matches_at(db, "Users".spec_bytes(), i) && r@
                        == crate::strutil::utf8_lossy_of(db.subrange(i, db.len() as int)))
                ||| (after_last_sep_spec(db) < db.len() && r@ == crate::strutil::utf8_lossy_of(
                    db.subrange(after_last_sep_spec(db), db.len() as int),
                ))
                ||| r@ == d
            }),
    {
        let decoded = urldecode(path);
        let db = decoded.as_str().as_bytes_vec();
        match find_pos(db.as_slice(), "Users".as_bytes()) {
            Some(p) => crate::strutil::utf8_lossy(
                vstd::slice::slice_subrange(db.as_slice(), p, db.len()),
            ),
            None => {
                let start = after_last_separator(db.as_slice());
                if start < db.len() {
                    crate::strutil::utf8_lossy(
                        vstd::slice::slice_subrange(db.as_slice(), start, db.len()),
                    )
                } else {
                    decoded
                }
            },
        }
    }

    /// Convert a decoded shell link into a record: the target's bare file
    /// name becomes the filename, the full target path the location, and
    /// the link's header timestamps the record's standard timestamps.
    pub fn shell_link_to_mft_record(
        shell_link: &crate::lnk_parser::ShellLink,
        _source_path: &str,
    ) -> (r: Result<Option<Event>, Error>)
        ensures
            r matches Ok(o) && o matches Some(e) ==> e@.record_number == 0 && e@.event_source
                == Some("LNK"@) && e@.timestamps == shell_link.timestamps
                && e@.fn_timestamps.all_absent() && !e@.is_directory && !e@.is_deleted,
            r is Ok,
    {
        let target_path: String = match &shell_link.target_path {
            Some(t) => t.clone(),
            None => String::from_str("Unknown"),
        };
        let tb = target_path.as_str().as_bytes_vec();
        let start = after_last_separator(tb.as_slice());
        let filename: String = if start < tb.len() {
            crate::strutil::utf8_lossy(
                vstd::slice::slice_subrange(tb.as_slice(), start, tb.len()),
            )
        } else {
            target_path.clone()
        };
        let record = Event {
            record_number: 0,
            sequence_number: 0,
            filename: Some(filename),
            file_size: Some(shell_link.header.file_size as u64),
            allocated_size: Some(shell_link.header.file_size as u64),
            is_directory: false,
            is_deleted: false,
            link_count: Some(1),
            parent_directory: None,
            timestamps: shell_link.timestamps,
            fn_timestamps: EventTimestamps::default(),
            alternate_data_streams: Vec::new(),
            location: Some(target_path),
            event_source: Some(String::from_str("LNK")),
        };
        Ok(Some(record))
    }

    /// Convert a jumplist entry into a record: the entry's target becomes
    /// the filename (tagged by destination kind), the cleaned source path
    /// the location, and the entry's timestamps the record's standard
    /// timestamps.
    pub fn jumplist_entry_to_mft_record(
        entry: &crate::jumplist::JumplistEntry,
        source_path: &str,
    ) -> (r: Result<Option<Event>, Error>)
        ensures
            r matches Ok(o) && o matches Some(e) ==> e@.record_number == 0 && e@.event_source
                == Some("Jumplist"@) && e@.timestamps == entry.timestamps
                && e@.fn_timestamps.all_absent(),
            r is Ok,
    {
        let target: String = match &entry.target_path {
            Some(t) => t.clone(),
            None => String::from_str("Unknown Jumplist Entry"),
        };
        let cleaned = Self::clean_jumplist_path(source_path);
        let is_auto = crate::strutil::find_bytes(
            source_path.as_bytes(),
            "automaticDestinations".as_bytes(),
        );
        let mut filename = String::new();
        if is_auto {
            filename.append("AutoDest: ");
        } else {
            filename.append("CustomDest: ");
        }
        filename.append(target.as_str());
        let cb = cleaned.as_str().as_bytes_vec();
        let base_start = after_last_separator(cb.as_slice());
        let base: String = if base_start < cb.len() {
            crate::strutil::utf8_lossy(
                vstd::slice::slice_subrange(cb.as_slice(), base_start, cb.len()),
            )
        } else {
            cleaned.clone()
        };
        let mut location = base;
        location.append(" [Source: ");
        location.append(cleaned.as_str());
        location.append("]");
        let size = match entry.file_size {
            Some(s) => s,
            None => 0,
        };
        let record = Event {
            record_number: 0,
            sequence_number: 0,
            filename: Some(filename),
            file_size: Some(size),
            allocated_size: Some(size),
            is_directory: false,
            is_deleted: false,
            link_count: Some(1),
            parent_directory: None,
            timestamps: entry.timestamps,
            fn_timestamps: EventTimestamps::default(),
            alternate_data_streams: Vec::new(),
            location: Some(location),
            event_source: Some(String::from_str("Jumplist")),
        };
        Ok(Some(record))
    }

    /// Convert a registry timeline event into a record: the key and value
    /// name become the filename, the hive's directory and name the
    /// location, and the event's timestamps carry over.
    pub fn registry_event_to_mft_record(
        event: &crate::registry::RegistryTimelineEvent,
        source_path: &str,
    ) -> (r: Result<Option<Event>, Error>)
        ensures
            r matches Ok(o) && o matches Some(e) ==> e@.record_number == 0 && e@.event_source
                == Some("Registry"@) && e@.timestamps == event.timestamps
                && e@.fn_timestamps.all_absent(),
            r is Ok,
    {
        let mut filename = String::from_str("REG: ");
        filename.append(event.key_path.as_str());
        filename.append("\\");
        match &event.value_name {
            Some(v) => filename.append(v.as_str()),
            None => filename.append("(Default)"),
        }
        let sb = source_path.as_bytes();
        let base_start = after_last_separator(sb);
        let parent: String = if base_start > 0 {
            crate::strutil::utf8_lossy(vstd::slice::slice_subrange(sb, 0, base_start))
        } else {
            String::from_str("Unknown")
        };
        let hive_name: String = if base_start < sb.len() {
            crate::strutil::utf8_lossy(
                vstd::slice::slice_subrange(sb, base_start, sb.len()),
            )
        } else {
            String::from_str("Unknown")
        };
        let mut location = parent;
        location.append(" [Hive: ");
        location.append(hive_name.as_str());
        location.append(", Source: ");
        location.append(source_path);
        location.append("]");
        let size: u64 = match event.data_size {
            Some(s) => s as u64,
            None => 0,
        };
        let record = Event {
            record_number: 0,
            sequence_number: 0,
            filename: Some(filename),
            file_size: Some(size),
            allocated_size: Some(size),
            is_directory: false,
            is_deleted: false,
            link_count: Some(1),
            parent_directory: None,
            timestamps: event.timestamps,
            fn_timestamps: EventTimestamps::default(),
            alternate_data_streams: Vec::new(),
            location: Some(location),
            event_source: Some(String::from_str("Registry")),
        };
        Ok(Some(record))
    }
}

/// Render the cycle marker for a record.
fn cycle_tag_string(id: u64) -> (r: String)
    ensures
        r@ == cycle_tag(id),
{
    let mut s = String::from_str("[Cycle-");
    push_dec(&mut s, id);
    s.append("]");
    proof {
        assert(s@ =~= cycle_tag(id));
    }
    s
}

/// Render the missing-record marker.
fn notfound_tag_string(id: u64) -> (r: String)
    ensures
        r@ == notfound_tag(id),
{
    let mut s = String::from_str("[NotFound-");
    push_dec(&mut s, id);
    s.append("]");
    proof {
        assert(s@ =~= notfound_tag(id));
    }
    s
}

/// Linear membership test on the visited list.
fn contains_u64(v: &Vec<u64>, x: u64) -> (r: bool)
    ensures
        r == v@.to_set().contains(x),
{
    proof {
        broadcast use vstd::seq_lib::group_seq_properties;
    }
    let mut i: usize = 0;
    while i < v.len()
        invariant
            i <= v@.len(),
            forall|j: int| 0 <= j < i ==> v@[j] != x,
        decreases v@.len() - i,
    {
        if v[i] == x {
            proof {
                assert(v@.contains(x));
            }
            return true;
        }
        i = i + 1;
    }
    proof {
        assert(!v@.contains(x));
    }
    false
}

} // verus!
