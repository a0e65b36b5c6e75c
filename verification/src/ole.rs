//! OLE compound document decoding, as jumplist containers use it.
//!
//! All decoding happens over an in-memory buffer; corrupt sector chains
//! are cut off rather than followed forever.

use vstd::prelude::*;
use crate::error::Error;
use crate::strutil::{le16_at, le32_at, le64_at, read_le16, read_le32, read_le64, utf16_lossy,
    utf16_units};
use std::collections::HashMap;

verus! {

/// Free sector marker.
pub const FREESECT: u32 = 0xFFFFFFFF;

/// End-of-chain sector marker.
pub const ENDOFCHAIN: u32 = 0xFFFFFFFE;

/// FAT sector marker.
pub const FATSECT: u32 = 0xFFFFFFFD;

/// DIFAT sector marker.
pub const DIFSECT: u32 = 0xFFFFFFFC;

/// OLE directory entry types.
#[derive(Debug, Clone, Copy, PartialEq, Eq, Structural)]
pub enum OleEntryType {
    Empty,
    Storage,
    Stream,
    LockBytes,
    Property,
    Root,
}

impl OleEntryType {
    /// The type's on-disk tag byte.
    pub open spec fn tag_spec(self) -> int {
        match self {
            OleEntryType::Empty => 0,
            OleEntryType::Storage => 1,
            OleEntryType::Stream => 2,
            OleEntryType::LockBytes => 3,
            OleEntryType::Property => 4,
            OleEntryType::Root => 5,
        }
    }

    /// The entry type a tag byte denotes; unknown tags count as empty.
    pub open spec fn from_tag_spec(value: u8) -> OleEntryType {
        if value == 1 {
            OleEntryType::Storage
        } else if value == 2 {
            OleEntryType::Stream
        } else if value == 3 {
            OleEntryType::LockBytes
        } else if value == 4 {
            OleEntryType::Property
        } else if value == 5 {
            OleEntryType::Root
        } else {
            OleEntryType::Empty
        }
    }
}

impl From<u8> for OleEntryType {
    /// Decode a directory entry type tag.
    fn from(value: u8) -> (r: Self) {
        if value == 1 {
            OleEntryType::Storage
        } else if value == 2 {
            OleEntryType::Stream
        } else if value == 3 {
            OleEntryType::LockBytes
        } else if value == 4 {
            OleEntryType::Property
        } else if value == 5 {
            OleEntryType::Root
        } else {
            OleEntryType::Empty
        }
    }
}

impl vstd::std_specs::convert::FromSpecImpl<u8> for OleEntryType {
    open spec fn obeys_from_spec() -> bool {
        true
    }

    open spec fn from_spec(value: u8) -> Self {
        OleEntryType::from_tag_spec(value)
    }
}

/// OLE compound document header fields.
#[derive(Debug, Clone)]
pub struct OleHeader {
    pub signature: u64,
    pub minor_version: u16,
    pub major_version: u16,
    pub byte_order: u16,
    pub sector_size_power: u16,
    pub mini_sector_size_power: u16,
    pub num_directory_sectors: u32,
    pub num_fat_sectors: u32,
    pub directory_first_sector: u32,
    pub transaction_signature: u32,
    pub mini_stream_cutoff: u32,
    pub mini_fat_first_sector: u32,
    pub num_mini_fat_sectors: u32,
    pub difat_first_sector: u32,
    pub num_difat_sectors: u32,
    pub difat: Vec<u32>,
}

impl OleHeader {
    /// Parse the 512-byte document header.
    pub fn parse(data: &[u8]) -> (r: Result<OleHeader, Error>)
        ensures
            data@.len() >= 512 ==> r is Ok,
            data@.len() < 512 ==> r is Err,
            r matches Ok(h) ==> h.signature == le64_at(data@, 0) && h.sector_size_power
                == le16_at(data@, 30) && h.mini_sector_size_power == le16_at(data@, 32)
                && h.directory_first_sector == le32_at(data@, 48) && h.mini_fat_first_sector
                == le32_at(data@, 60) && h.num_mini_fat_sectors == le32_at(data@, 64)
                && h.difat_first_sector == le32_at(data@, 68) && h.num_difat_sectors == le32_at(
                data@, 72) && h.difat@.len() == 109,
    {
        if data.len() < 512 {
            return Err(Error::ParseError(String::from_str("OLE header too small")));
        }
        let mut difat: Vec<u32> = Vec::new();
        let mut i: usize = 0;
        while i < 109
            invariant
                i <= 109,
                difat@.len() == i,
                data@.len() >= 512,
            decreases 109 - i,
        {
            difat.push(read_le32(data, 76 + 4 * i));
            i = i + 1;
        }
        Ok(OleHeader {
            signature: read_le64(data, 0),
            minor_version: read_le16(data, 24),
            major_version: read_le16(data, 26),
            byte_order: read_le16(data, 28),
            sector_size_power: read_le16(data, 30),
            mini_sector_size_power: read_le16(data, 32),
            num_directory_sectors: read_le32(data, 40),
            num_fat_sectors: read_le32(data, 44),
            directory_first_sector: read_le32(data, 48),
            transaction_signature: read_le32(data, 52),
            mini_stream_cutoff: read_le32(data, 56),
            mini_fat_first_sector: read_le32(data, 60),
            num_mini_fat_sectors: read_le32(data, 64),
            difat_first_sector: read_le32(data, 68),
            num_difat_sectors: read_le32(data, 72),
            difat,
        })
    }
}

/// OLE directory entry (128 bytes on disk).
#[derive(Debug, Clone)]
pub struct DirectoryEntry {
    pub name: String,
    pub name_length: u16,
    pub entry_type: u8,
    pub color_flag: u8,
    pub left_sibling_id: u32,
    pub right_sibling_id: u32,
    pub child_id: u32,
    pub clsid: Vec<u8>,
    pub state_bits: u32,
    pub creation_time: u64,
    pub modified_time: u64,
    pub starting_sector: u32,
    pub size: u64,
}

impl DirectoryEntry {
    /// Parse one 128-byte directory entry.
    pub fn parse(data: &[u8], off: usize) -> (r: Result<DirectoryEntry, Error>)
        ensures
            off + 128 <= data@.len() ==> r is Ok,
            r matches Ok(e) ==> e.entry_type == data@[off + 66] && e.starting_sector == le32_at(
                data@, off + 116) && e.size == le64_at(data@, off + 120),
    {
        let l = data.len();
        if off as u128 + 128 > l as u128 {
            return Err(Error::ParseError(String::from_str("directory entry out of bounds")));
        }
        let name_length = read_le16(data, off + 64);
        let actual_units: usize = if name_length >= 2 && name_length / 2 <= 32 {
            (name_length / 2 - 1) as usize
        } else {
            0
        };
        let name_bytes = vstd::slice::slice_subrange(data, off, off + 2 * actual_units);
        let units = utf16_units(name_bytes);
        let name = utf16_lossy(units.as_slice());
        let mut clsid: Vec<u8> = Vec::new();
        let mut i: usize = 0;
        while i < 16
            invariant
                i <= 16,
                l == data@.len(),
                off + 128 <= l,
            decreases 16 - i,
        {
            clsid.push(data[off + 80 + i]);
            i = i + 1;
        }
        Ok(DirectoryEntry {
            name,
            name_length,
            entry_type: data[off + 66],
            color_flag: data[off + 67],
            left_sibling_id: read_le32(data, off + 68),
            right_sibling_id: read_le32(data, off + 72),
            child_id: read_le32(data, off + 76),
            clsid,
            state_bits: read_le32(data, off + 96),
            creation_time: read_le64(data, off + 100),
            modified_time: read_le64(data, off + 108),
            starting_sector: read_le32(data, off + 116),
            size: le64_to_u64(data, off + 120),
        })
    }
}

/// Read the little-endian 64-bit value at the given offset.
fn le64_to_u64(data: &[u8], off: usize) -> (r: u64)
    requires
        off + 8 <= data@.len(),
    ensures
        r == le64_at(data@, off as int),
{
    read_le64(data, off)
}

/// A decoded OLE compound document.
#[derive(Debug)]
pub struct OleCompoundDocument {
    /// The parsed header.
    pub header: OleHeader,
    /// Every 128-byte directory entry, in directory order.
    pub directory_entries: Vec<DirectoryEntry>,
    /// The file allocation table.
    pub fat: Vec<u32>,
    /// The mini FAT for small streams.
    pub mini_fat: Vec<u32>,
    /// Stream contents by name.
    pub streams: HashMap<String, Vec<u8>>,
    /// Sector size in bytes.
    pub sector_size: usize,
    /// Mini sector size in bytes.
    pub mini_sector_size: usize,
}

/// The OLE magic number.
pub const OLE_SIGNATURE: u64 = 0xE11AB1A1E011CFD0;

impl OleCompoundDocument {
    /// Parse an OLE compound document from bytes. Sector chains are
    /// followed at most once around, so corrupt cyclic tables terminate.
    #[verifier::rlimit(100)]
    #[verifier::spinoff_prover]
    pub fn parse(data: &[u8]) -> (r: Result<OleCompoundDocument, Error>)
        ensures
            r matches Ok(d) ==> d.header.signature == OLE_SIGNATURE && le64_at(data@, 0)
                == OLE_SIGNATURE,
    {
        let dl = data.len();
        let header = match OleHeader::parse(data) {
            Ok(h) => h,
            Err(e) => {
                return Err(e);
            },
        };
        if header.signature != OLE_SIGNATURE {
            return Err(Error::ParseError(String::from_str("Invalid OLE signature")));
        }
        if header.sector_size_power > 20 || header.mini_sector_size_power > 20 {
            return Err(Error::ParseError(String::from_str("Unreasonable OLE sector size")));
        }
        let sector_size: usize = pow2_usize(header.sector_size_power);
        let mini_sector_size: usize = pow2_usize(header.mini_sector_size_power);
        if sector_size < 128 {
            return Err(Error::ParseError(String::from_str("Unreasonable OLE sector size")));
        }
        let difat = read_difat_chain(data, sector_size, &header);
        let fat = read_fat_sectors(data, sector_size, &difat);
        let directory_entries = read_directory_entries(data, sector_size,
            header.directory_first_sector, &fat);
        let mini_fat = read_mini_fat_sectors(data, sector_size, header.mini_fat_first_sector,
            header.num_mini_fat_sectors, &fat);
        // Read every stream.
        let mut doc = OleCompoundDocument {
            header,
            directory_entries,
            fat,
            mini_fat,
            streams: HashMap::new(),
            sector_size,
            mini_sector_size,
        };
        doc.read_all_streams(data);
        proof {
            assert(doc.header.signature == le64_at(data@, 0));
        }
        Ok(doc)
    }

    /// Read every stream entry's contents into the name-keyed map, small
    /// streams through the mini stream.
    pub fn read_all_streams(&mut self, data: &[u8])
        ensures
            final(self).header == old(self).header,
    {
        // Find the root entry's mini stream.
        let mut mini_stream: Vec<u8> = Vec::new();
        let mut i: usize = 0;
        while i < self.directory_entries.len()
            invariant
                self.header == old(self).header,
            decreases self.directory_entries@.len() - i,
        {
            let is_root = self.directory_entries[i].entry_type == 5;
            if is_root && self.directory_entries[i].size > 0 {
                let start = self.directory_entries[i].starting_sector;
                let size = self.directory_entries[i].size;
                mini_stream = self.read_stream_data(data, start, size);
                break ;
            }
            i = i + 1;
        }
        let mut k: usize = 0;
        while k < self.directory_entries.len()
            invariant
                self.header == old(self).header,
            decreases self.directory_entries@.len() - k,
        {
            let is_stream = self.directory_entries[k].entry_type == 2;
            let named = self.directory_entries[k].name.as_str().unicode_len() > 0;
            if is_stream && named {
                let start = self.directory_entries[k].starting_sector;
                let size = self.directory_entries[k].size;
                let contents: Vec<u8> = if size < 4096 && mini_stream.len() > 0 {
                    Self::read_mini_stream_data(
                        &mini_stream,
                        start,
                        size,
                        &self.mini_fat,
                        self.mini_sector_size,
                    )
                } else {
                    self.read_stream_data(data, start, size)
                };
                let name = self.directory_entries[k].name.clone();
                self.streams.insert(name, contents);
            }
            k = k + 1;
        }
    }

    /// Follow a regular sector chain, collecting up to `size` bytes.
    pub fn read_stream_data(&self, data: &[u8], starting_sector: u32, size: u64) -> (r: Vec<u8>)
        ensures
            r@.len() <= size,
    {
        let mut out: Vec<u8> = Vec::new();
        let dl = data.len();
        let mut current = starting_sector;
        let mut remaining: u64 = size;
        let max_hops: usize = dl / 128 + 2;
        let mut hops: usize = 0;
        if self.sector_size == 0 {
            return out;
        }
        while current != ENDOFCHAIN && current != FREESECT && remaining > 0 && hops < max_hops
            invariant
                out@.len() + remaining <= size,
                self.sector_size >= 1,
                dl == data@.len(),
            decreases max_hops - hops,
        {
            match sector_start(current, self.sector_size, dl) {
                Some(b) => {
                    let take: usize = if (self.sector_size as u64) < remaining {
                        self.sector_size
                    } else {
                        remaining as usize
                    };
                    let ghost prior = out@.len();
                    let mut j: usize = 0;
                    while j < take
                        invariant
                            dl == data@.len(),
                            b + self.sector_size <= dl,
                            take <= self.sector_size,
                            j <= take,
                            out@.len() == prior + j,
                            prior + remaining <= size,
                            take <= remaining,
                        decreases take - j,
                    {
                        out.push(data[b + j]);
                        j = j + 1;
                    }
                    remaining = remaining - (take as u64);
                    current = next_sector(&self.fat, current);
                },
                None => {
                    return out;
                },
            }
            hops = hops + 1;
        }
        out
    }

    /// Follow a mini-sector chain inside the mini stream.
    pub fn read_mini_stream_data(
        mini_stream: &Vec<u8>,
        starting_sector: u32,
        size: u64,
        mini_fat: &Vec<u32>,
        mini_sector_size: usize,
    ) -> (r: Vec<u8>)
        ensures
            r@.len() <= size,
    {
        let mut out: Vec<u8> = Vec::new();
        if mini_sector_size == 0 {
            return out;
        }
        let msl = mini_stream.len();
        let mut current = starting_sector;
        let mut remaining: u64 = size;
        let max_hops: usize = msl / 2 + 2;
        let mut hops: usize = 0;
        while current != ENDOFCHAIN && current != FREESECT && remaining > 0 && hops < max_hops
            invariant
                out@.len() + remaining <= size,
                mini_sector_size >= 1,
                msl == mini_stream@.len(),
            decreases max_hops - hops,
        {
            proof {
                assert((current as int) * (mini_sector_size as int) <= 0x100000000
                    * 0xFFFFFFFFFFFFFFFF && 0 <= (current as int) * (mini_sector_size as int))
                    by (nonlinear_arith)
                    requires
                        0 <= current <= 0xFFFFFFFFu32,
                        0 <= mini_sector_size <= 0xFFFFFFFFFFFFFFFFu64,
                ;
            }
            let off128: u128 = (current as u128) * (mini_sector_size as u128);
            if off128 + (mini_sector_size as u128) > msl as u128 {
                return out;
            }
            let off = off128 as usize;
            let take: usize = if (mini_sector_size as u64) < remaining {
                mini_sector_size
            } else {
                remaining as usize
            };
            let ghost prior = out@.len();
            let mut j: usize = 0;
            while j < take
                invariant
                    msl == mini_stream@.len(),
                    off + mini_sector_size <= msl,
                    take <= mini_sector_size,
                    j <= take,
                    out@.len() == prior + j,
                    prior + remaining <= size,
                    take <= remaining,
                decreases take - j,
            {
                out.push(mini_stream[off + j]);
                j = j + 1;
            }
            remaining = remaining - (take as u64);
            current = next_sector(mini_fat, current);
            hops = hops + 1;
        }
        out
    }

    /// Get a stream's contents by name.
    pub fn get_stream(&self, name: &str) -> (r: Option<&Vec<u8>>) {
        self.streams.get(name)
    }

    /// List every stream name.
    pub fn list_streams(&self) -> (r: Vec<String>) {
        let mut names: Vec<String> = Vec::new();
        let mut i: usize = 0;
        while i < self.directory_entries.len()
            decreases self.directory_entries@.len() - i,
        {
            let is_stream = self.directory_entries[i].entry_type == 2;
            let named = self.directory_entries[i].name.as_str().unicode_len() > 0;
            if is_stream && named {
                names.push(self.directory_entries[i].name.clone());
            }
            i = i + 1;
        }
        names
    }
}

/// The byte offset where a sector starts, when the whole sector lies
/// inside the buffer: sector `s` occupies bytes `(s+1)*size ..`.
fn sector_start(sector: u32, sector_size: usize, len: usize) -> (r: Option<usize>)
    requires
        sector_size >= 1,
    ensures
        r matches Some(b) ==> b + sector_size <= len && b == (sector + 1) * sector_size,
{
    proof {
        assert(((sector as int) + 1) * (sector_size as int) <= 0x100000001 * 0xFFFFFFFFFFFFFFFF
            && 0 <= ((sector as int) + 1) * (sector_size as int)) by (nonlinear_arith)
            requires
                0 <= sector <= 0xFFFFFFFFu32,
                1 <= sector_size <= 0xFFFFFFFFFFFFFFFFu64,
        ;
    }
    let b128: u128 = ((sector as u128) + 1) * (sector_size as u128);
    if b128 + (sector_size as u128) > len as u128 {
        None
    } else {
        proof {
            assert(((sector as int) + 1) * (sector_size as int) >= 0) by (nonlinear_arith)
                requires
                    sector_size >= 1,
            ;
        }
        Some(b128 as usize)
    }
}

/// The next sector in a chain, or end-of-chain when the table is short.
fn next_sector(fat: &Vec<u32>, current: u32) -> (r: u32) {
    if (current as usize) < fat.len() {
        fat[current as usize]
    } else {
        ENDOFCHAIN
    }
}


/// Assemble the DIFAT: the header's entries, then the chained sectors.
fn read_difat_chain(data: &[u8], sector_size: usize, header: &OleHeader) -> (r: Vec<u32>)
    requires
        sector_size >= 128,
{
    let dl = data.len();
    let mut difat: Vec<u32> = Vec::new();
    let mut k: usize = 0;
    while k < header.difat.len()
        invariant
            k <= header.difat@.len(),
        decreases header.difat@.len() - k,
    {
        let v = header.difat[k];
        if v != FREESECT {
            difat.push(v);
        }
        k = k + 1;
    }
    let mut current_difat = header.difat_first_sector;
    let mut hops: usize = 0;
    let max_hops: usize = dl / 4 + 2;
    while current_difat != FREESECT && current_difat != ENDOFCHAIN && hops < max_hops
        invariant
            sector_size >= 128,
            dl == data@.len(),
        decreases max_hops - hops,
    {
        let base = sector_start(current_difat, sector_size, dl);
        match base {
            Some(b) => {
                let mut j: usize = 0;
                while j < (sector_size / 4) - 1
                    invariant
                        sector_size >= 128,
                        dl == data@.len(),
                        b + sector_size <= dl,
                        j <= sector_size / 4,
                    decreases sector_size / 4 - j,
                {
                    proof {
                        assert(4 * j + 4 <= sector_size) by (nonlinear_arith)
                            requires
                                j < sector_size / 4,
                        ;
                    }
                    let e = read_le32(data, b + 4 * j);
                    if e != FREESECT {
                        difat.push(e);
                    }
                    j = j + 1;
                }
                proof {
                    assert(4 * ((sector_size / 4) - 1) + 4 <= sector_size) by (nonlinear_arith)
                        requires
                            sector_size >= 128,
                    ;
                }
                current_difat = read_le32(data, b + 4 * ((sector_size / 4) - 1));
            },
            None => {
                return difat;
            },
        }
        hops = hops + 1;
    }
    difat
}

/// Read the FAT from the DIFAT-listed sectors.
fn read_fat_sectors(data: &[u8], sector_size: usize, difat: &Vec<u32>) -> (r: Vec<u32>)
    requires
        sector_size >= 128,
{
    let dl = data.len();
    let mut fat: Vec<u32> = Vec::new();
    let mut fi: usize = 0;
    while fi < difat.len()
        invariant
            sector_size >= 128,
            dl == data@.len(),
        decreases difat@.len() - fi,
    {
        let s = difat[fi];
        if s != FREESECT {
            if let Some(b) = sector_start(s, sector_size, dl) {
                let mut j: usize = 0;
                while j < sector_size / 4
                    invariant
                        sector_size >= 128,
                        dl == data@.len(),
                        b + sector_size <= dl,
                        j <= sector_size / 4,
                    decreases sector_size / 4 - j,
                {
                    proof {
                        assert(4 * j + 4 <= sector_size) by (nonlinear_arith)
                            requires
                                j < sector_size / 4,
                        ;
                    }
                    fat.push(read_le32(data, b + 4 * j));
                    j = j + 1;
                }
            }
        }
        fi = fi + 1;
    }
    fat
}

/// Read the directory entries along the directory chain.
fn read_directory_entries(data: &[u8], sector_size: usize, first: u32, fat: &Vec<u32>) -> (r: Vec<
    DirectoryEntry,
>)
    requires
        sector_size >= 128,
{
    let dl = data.len();
    let mut directory_entries: Vec<DirectoryEntry> = Vec::new();
    let mut current = first;
    let mut dhops: usize = 0;
    let dmax: usize = dl / 128 + 2;
    while current != ENDOFCHAIN && current != FREESECT && dhops < dmax
        invariant
            sector_size >= 128,
            dl == data@.len(),
        decreases dmax - dhops,
    {
        match sector_start(current, sector_size, dl) {
            Some(b) => {
                let mut j: usize = 0;
                while j < sector_size / 128
                    invariant
                        sector_size >= 128,
                        dl == data@.len(),
                        b + sector_size <= dl,
                        j <= sector_size / 128,
                    decreases sector_size / 128 - j,
                {
                    proof {
                        assert(128 * j + 128 <= sector_size) by (nonlinear_arith)
                            requires
                                j < sector_size / 128,
                        ;
                    }
                    match DirectoryEntry::parse(data, b + 128 * j) {
                        Ok(e) => directory_entries.push(e),
                        Err(_) => {},
                    }
                    j = j + 1;
                }
                current = next_sector(fat, current);
            },
            None => {
                return directory_entries;
            },
        }
        dhops = dhops + 1;
    }
    directory_entries
}

/// Read the mini FAT along its chain.
fn read_mini_fat_sectors(data: &[u8], sector_size: usize, first: u32, count: u32, fat: &Vec<
    u32,
>) -> (r: Vec<u32>)
    requires
        sector_size >= 128,
{
    let dl = data.len();
    let mut mini_fat: Vec<u32> = Vec::new();
    let mut mcur = first;
    let mut mh: usize = 0;
    let mmax: usize = if (count as usize) < dl {
        count as usize
    } else {
        dl
    };
    while mcur != ENDOFCHAIN && mcur != FREESECT && mh < mmax
        invariant
            sector_size >= 128,
            dl == data@.len(),
        decreases mmax - mh,
    {
        match sector_start(mcur, sector_size, dl) {
            Some(b) => {
                let mut j: usize = 0;
                while j < sector_size / 4
                    invariant
                        sector_size >= 128,
                        dl == data@.len(),
                        b + sector_size <= dl,
                        j <= sector_size / 4,
                    decreases sector_size / 4 - j,
                {
                    proof {
                        assert(4 * j + 4 <= sector_size) by (nonlinear_arith)
                            requires
                                j < sector_size / 4,
                        ;
                    }
                    mini_fat.push(read_le32(data, b + 4 * j));
                    j = j + 1;
                }
                mcur = next_sector(fat, mcur);
            },
            None => {
                return mini_fat;
            },
        }
        mh = mh + 1;
    }
    mini_fat
}


/// Two to the given power, for sector sizes.
fn pow2_usize(p: u16) -> (r: usize)
    requires
        p <= 20,
    ensures
        1 <= r <= 0x100000,
{
    let mut r: usize = 1;
    let mut k: u16 = 0;
    while k < p
        invariant
            k <= p <= 20,
            1 <= r <= 0x100000,
        decreases p - k,
    {
        if r <= 0x80000 {
            r = r * 2;
        }
        k = k + 1;
    }
    r
}

} // verus!
