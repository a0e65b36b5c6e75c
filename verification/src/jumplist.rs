//! Jumplist decoding: automatic destinations (OLE containers of shell
//! links), custom destinations (scanned for embedded links), the known
//! application identifier table and registry MRU locations.

use vstd::prelude::*;
use crate::error::Error;
use crate::strutil::{le16_at, le32_at, le64_at, read_le16, read_le32, read_le64, utf8_lossy,
    utf16_lossy, utf16_units, fnv1a_spec};
use crate::datetime::{filetime_secs_ticks_spec, convert_filetime_secs_ticks};
use crate::types::EventTimestamps;
use crate::shell_item::ItemIdList;
use crate::ole::OleCompoundDocument;
use std::collections::HashMap;

verus! {

/// One jumplist entry of interest to the timeline.
#[derive(Debug, Clone)]
pub struct JumplistEntry {
    /// Target path.
    pub target_path: Option<String>,
    /// File size.
    pub file_size: Option<u64>,
    /// File attributes.
    pub file_attributes: Option<u32>,
    /// Application identifier.
    pub app_id: Option<String>,
    /// Access count.
    pub access_count: Option<u32>,
    /// Timestamps, in whole-second ticks.
    pub timestamps: EventTimestamps,
}

/// Jumplist parser for automatic and custom destinations files.
pub struct JumplistParser {}

/// Shell link embedded in a jumplist.
#[derive(Debug, Clone)]
pub struct ShellLink {
    /// Shell link header.
    pub header: ShellLinkHeader,
    /// Link target ID list.
    pub id_list: Option<ItemIdList>,
    /// Link info structure.
    pub link_info: Option<LinkInfo>,
    /// String data section.
    pub string_data: Option<StringData>,
    /// Extra data blocks.
    pub extra_data: Vec<ExtraDataBlock>,
    /// The resolved target path.
    pub target_path: Option<String>,
    /// Command-line arguments.
    pub arguments: Option<String>,
    /// Working directory.
    pub working_directory: Option<String>,
    /// Icon location.
    pub icon_location: Option<String>,
    /// File timestamps, in whole-second ticks.
    pub timestamps: EventTimestamps,
}

/// Shell link header (76 bytes on disk).
#[derive(Debug, Clone)]
pub struct ShellLinkHeader {
    pub header_size: u32,
    pub link_clsid: Vec<u8>,
    pub link_flags: u32,
    pub file_attributes: u32,
    pub creation_time: u64,
    pub access_time: u64,
    pub write_time: u64,
    pub file_size: u32,
    pub icon_index: u32,
    pub show_command: u32,
    pub hot_key: u16,
    pub reserved1: u16,
    pub reserved2: u32,
    pub reserved3: u32,
}

/// Link info structure.
#[derive(Debug, Clone)]
pub struct LinkInfo {
    pub size: u32,
    pub header_size: u32,
    pub flags: u32,
    pub volume_id_offset: u32,
    pub local_base_path_offset: u32,
    pub common_network_relative_link_offset: u32,
    pub common_path_suffix_offset: u32,
    pub volume_info: Option<VolumeInfo>,
    pub local_base_path: Option<String>,
    pub common_path_suffix: Option<String>,
}

/// Volume information.
#[derive(Debug, Clone)]
pub struct VolumeInfo {
    pub size: u32,
    pub drive_type: u32,
    pub drive_serial_number: u32,
    pub volume_label_offset: u32,
    pub volume_label: Option<String>,
}

/// String data section.
#[derive(Debug, Clone)]
pub struct StringData {
    pub name_string: Option<String>,
    pub relative_path: Option<String>,
    pub working_directory: Option<String>,
    pub command_line_arguments: Option<String>,
    pub icon_location: Option<String>,
}

/// Extra data block.
#[derive(Debug, Clone)]
pub struct ExtraDataBlock {
    pub size: u32,
    pub signature: u32,
    pub data: Vec<u8>,
}

/// Destinations file header summary.
#[derive(Debug, Clone)]
pub struct DestinationsHeader {
    /// File version.
    pub version: u32,
    /// Number of entries.
    pub entry_count: u32,
    /// Pin count.
    pub pin_count: u32,
}

/// One DestList stream entry.
#[derive(Debug, Clone)]
pub struct DestListEntry {
    /// Entry size.
    pub size: u32,
    /// Entry type.
    pub entry_type: u32,
    /// Pin status.
    pub pin_status: u32,
    /// Access count.
    pub access_count: u32,
    /// Last access time (FILETIME).
    pub last_access_time: u64,
    /// Raw entry identifier.
    pub entry_id: Vec<u8>,
    /// Target path recovered from the identifier.
    pub target_path: Option<String>,
}

/// A category of a custom destinations file.
#[derive(Debug, Clone)]
pub struct CustomCategory {
    /// Category name.
    pub name: String,
    /// Category entries.
    pub entries: Vec<String>,
}

/// A decoded automatic destinations file.
#[derive(Debug)]
pub struct AutomaticDestinations {
    /// Header summary.
    pub header: DestinationsHeader,
    /// DestList entries.
    pub dest_list: Vec<DestListEntry>,
    /// Embedded shell links.
    pub lnk_files: Vec<ShellLink>,
    /// Application identifier.
    pub app_id: String,
}

/// A decoded custom destinations file.
#[derive(Debug)]
pub struct CustomDestinations {
    /// Header summary.
    pub header: DestinationsHeader,
    /// Categories.
    pub categories: Vec<CustomCategory>,
    /// Embedded shell links.
    pub lnk_files: Vec<ShellLink>,
    /// Application identifier.
    pub app_id: String,
}

/// A registry MRU entry referenced from jumplist data.
#[derive(Debug, Clone)]
pub struct RegistryMruEntry {
    /// Registry key path.
    pub key_path: String,
    /// Value name.
    pub value_name: String,
    /// Raw MRU data.
    pub data: Vec<u8>,
    /// Parsed path, when one can be read.
    pub parsed_path: Option<String>,
    /// Last modification time, in whole-second ticks.
    pub last_modified: Option<u64>,
}

/// Wrap raw registry MRU data.
pub fn parse_registry_mru(key_path: &str, value_name: &str, data: &[u8]) -> (r: RegistryMruEntry)
    ensures
        r.key_path@ == key_path@,
        r.value_name@ == value_name@,
        r.data@ == data@,
        r.parsed_path is None,
        r.last_modified is None,
{
    RegistryMruEntry {
        key_path: key_path.to_owned(),
        value_name: value_name.to_owned(),
        data: vstd::slice::slice_to_vec(data),
        parsed_path: None,
        last_modified: None,
    }
}

impl JumplistParser {
    /// Create a new jumplist parser.
    pub fn new() -> (r: Self) {
        JumplistParser {  }
    }

    /// Parse an automatic destinations file: an OLE container whose
    /// numbered streams hold shell links and whose DestList stream holds
    /// access metadata. Buffers that are not OLE documents fall back to a
    /// single raw shell link when their bytes look like one.
    pub fn parse_automatic_destinations(&self, data: &[u8]) -> (r: Result<
        Vec<JumplistEntry>,
        Error,
    >)
        ensures
            r is Ok,
    {
        match OleCompoundDocument::parse(data) {
            Ok(ole_doc) => {
                let mut entries: Vec<JumplistEntry> = Vec::new();
                let mut dest_list_entries: Vec<DestListEntry> = Vec::new();
                if let Some(destlist_data) = ole_doc.get_stream("DestList") {
                    dest_list_entries = self.parse_dest_list_stream(destlist_data.as_slice());
                }
                let names = ole_doc.list_streams();
                let mut i: usize = 0;
                while i < names.len()
                    decreases names@.len() - i,
                {
                    let name = &names[i];
                    if all_ascii_digits(name.as_str()) {
                        if let Some(lnk_data) = ole_doc.get_stream(name.as_str()) {
                            if let Ok(shell_link) = ShellLink::parse(lnk_data.as_slice()) {
                                let stream_num = parse_small_number(name.as_str());
                                let dest_entry: Option<&DestListEntry> = if stream_num >= 1
                                    && stream_num - 1 < dest_list_entries.len() as u64 {
                                    Some(&dest_list_entries[(stream_num - 1) as usize])
                                } else {
                                    None
                                };
                                entries.push(
                                    JumplistEntry {
                                        target_path: clone_opt(&shell_link.target_path),
                                        file_size: Some(shell_link.header.file_size as u64),
                                        file_attributes: Some(shell_link.header.file_attributes),
                                        app_id: None,
                                        access_count: match dest_entry {
                                            Some(d) => Some(d.access_count),
                                            None => None,
                                        },
                                        timestamps: shell_link.timestamps,
                                    },
                                );
                            }
                        }
                    }
                    i = i + 1;
                }
                Ok(entries)
            },
            Err(_) => {
                let dl = data.len();
                if dl > 76 && data[0] == 0x4C && data[1] == 0 && data[2] == 0 && data[3] == 0 {
                    match ShellLink::parse(data) {
                        Ok(shell_link) => {
                            let mut one: Vec<JumplistEntry> = Vec::new();
                            one.push(
                                JumplistEntry {
                                    target_path: clone_opt(&shell_link.target_path),
                                    file_size: Some(shell_link.header.file_size as u64),
                                    file_attributes: Some(shell_link.header.file_attributes),
                                    app_id: None,
                                    access_count: None,
                                    timestamps: shell_link.timestamps,
                                },
                            );
                            Ok(one)
                        },
                        Err(_) => Ok(Vec::new()),
                    }
                } else {
                    Ok(Vec::new())
                }
            },
        }
    }

    /// Parse a custom destinations file by scanning for embedded shell
    /// link signatures; a buffer without any, but long enough to scan,
    /// yields one placeholder entry.
    pub fn parse_custom_destinations(&self, data: &[u8]) -> (r: Result<Vec<JumplistEntry>, Error>)
        ensures
            r matches Ok(v) && (data@.len() < 16 ==> v@.len() == 0) && (data@.len() >= 16
                ==> v@.len() >= 1),
    {
        let dl = data.len();
        let mut entries: Vec<JumplistEntry> = Vec::new();
        if dl < 16 {
            return Ok(entries);
        }
        let mut pos: usize = 0;
        while pos < dl && dl - pos > 76
            invariant
                pos <= dl,
                dl == data@.len(),
            decreases dl - pos,
        {
            let start = match find_lnk_signature(data, pos) {
                Some(s) => s,
                None => {
                    break ;
                },
            };
            if dl - start <= 76 {
                break ;
            }
            let tail = vstd::slice::slice_subrange(data, start, dl);
            match self.estimate_lnk_size(tail) {
                Some(lnk_size) => {
                    if lnk_size <= dl - start {
                        let lnk_data = vstd::slice::slice_subrange(data, start, start + lnk_size);
                        if let Ok(shell_link) = ShellLink::parse(lnk_data) {
                            entries.push(
                                JumplistEntry {
                                    target_path: clone_opt(&shell_link.target_path),
                                    file_size: Some(shell_link.header.file_size as u64),
                                    file_attributes: Some(shell_link.header.file_attributes),
                                    app_id: None,
                                    access_count: None,
                                    timestamps: shell_link.timestamps,
                                },
                            );
                        }
                        if lnk_size > 0 {
                            pos = start + lnk_size;
                        } else {
                            pos = start + 1;
                        }
                    } else {
                        pos = start + 1;
                    }
                },
                None => {
                    pos = start + 1;
                },
            }
        }
        if entries.len() == 0 && dl > 0 {
            entries.push(
                JumplistEntry {
                    target_path: Some(String::from_str("Custom Destinations (unknown format)")),
                    file_size: Some(dl as u64),
                    file_attributes: None,
                    app_id: None,
                    access_count: None,
                    timestamps: EventTimestamps::default(),
                },
            );
        }
        Ok(entries)
    }

    /// Parse a DestList stream: a 32-byte header, then size-prefixed
    /// entries.
    pub fn parse_dest_list_stream(&self, data: &[u8]) -> (r: Vec<DestListEntry>) {
        let dl = data.len();
        let mut entries: Vec<DestListEntry> = Vec::new();
        let mut pos: usize = if dl > 32 {
            32
        } else {
            dl
        };
        while pos < dl && dl - pos >= 24
            invariant
                pos <= dl,
                dl == data@.len(),
            decreases dl - pos,
        {
            let size = read_le32(data, pos);
            let entry_type = read_le32(data, pos + 4);
            let pin_status = read_le32(data, pos + 8);
            let access_count = read_le32(data, pos + 12);
            let last_access_time = read_le64(data, pos + 16);
            let remaining: usize = if size >= 24 {
                (size - 24) as usize
            } else {
                0
            };
            if remaining > dl - pos - 24 {
                break ;
            }
            let entry_id = vstd::slice::slice_to_vec(
                vstd::slice::slice_subrange(data, pos + 24, pos + 24 + remaining),
            );
            let target_path = self.extract_target_path_from_entry_id(entry_id.as_slice());
            entries.push(
                DestListEntry {
                    size,
                    entry_type,
                    pin_status,
                    access_count,
                    last_access_time,
                    entry_id,
                    target_path,
                },
            );
            if remaining == 0 && size <= 24 {
                pos = pos + 24;
            } else {
                pos = pos + 24 + remaining;
            }
        }
        entries
    }

    /// Recover a target path from a DestList entry identifier: first as a
    /// shell item list, then as printable bytes, then as UTF-16 text.
    pub fn extract_target_path_from_entry_id(&self, entry_id: &[u8]) -> (r: Option<String>) {
        if let Ok(idlist) = ItemIdList::parse(entry_id) {
            if let Some(path) = idlist.full_path {
                return Some(path);
            }
        }
        let dl = entry_id.len();
        // Printable single-byte text.
        let mut printable = dl > 0;
        let mut i: usize = 0;
        while i < dl
            invariant
                i <= dl,
                dl == entry_id@.len(),
            decreases dl - i,
        {
            let b = entry_id[i];
            if b != 0 && (b < 0x20 || b > 0x7E) {
                printable = false;
            }
            i = i + 1;
        }
        if printable {
            let mut end: usize = 0;
            while end < dl && entry_id[end] != 0
                invariant
                    end <= dl,
                    dl == entry_id@.len(),
                decreases dl - end,
            {
                end = end + 1;
            }
            if end > 3 {
                return Some(utf8_lossy(vstd::slice::slice_subrange(entry_id, 0, end)));
            }
        }
        // UTF-16 text.
        if dl >= 4 && dl % 2 == 0 {
            let units = utf16_units(entry_id);
            let ul = units.len();
            let mut end: usize = 0;
            while end < ul && units[end] != 0
                invariant
                    end <= ul,
                    ul == units@.len(),
                decreases ul - end,
            {
                end = end + 1;
            }
            if end > 3 {
                let s = utf16_lossy(vstd::slice::slice_subrange(units.as_slice(), 0, end));
                return Some(s);
            }
        }
        None
    }

    /// Estimate the byte size of a shell link at the start of the buffer
    /// by walking its declared sections; capped at the buffer, or 64 KiB
    /// when the estimate runs past it.
    pub fn estimate_lnk_size(&self, data: &[u8]) -> (r: Option<usize>)
        ensures
            data@.len() < 76 ==> r is None,
            r matches Some(n) ==> n <= data@.len(),
    {
        let dl = data.len();
        if dl < 76 {
            return None;
        }
        if !(data[0] == 0x4C && data[1] == 0 && data[2] == 0 && data[3] == 0) {
            return None;
        }
        let link_flags = read_le32(data, 20);
        let mut estimated: u64 = 76;
        let mut pos: usize = 76;
        if link_flags & 0x01 != 0 {
            if pos < dl && dl - pos >= 2 {
                let idlist_size = read_le16(data, pos) as u64;
                estimated = estimated + 2 + idlist_size;
                if idlist_size + 2 <= (dl - pos) as u64 {
                    pos = pos + 2 + idlist_size as usize;
                } else {
                    pos = dl;
                }
            } else {
                return None;
            }
        }
        if link_flags & 0x02 != 0 {
            if pos < dl && dl - pos >= 4 {
                let li_size = read_le32(data, pos) as u64;
                estimated = estimated + li_size;
                if li_size >= 4 && li_size <= (dl - pos) as u64 {
                    pos = pos + li_size as usize;
                } else {
                    pos = dl;
                }
            } else {
                return None;
            }
        }
        let mut flag_bit: u32 = 0x04;
        let mut rounds: u8 = 0;
        while rounds < 5
            invariant
                rounds <= 5,
                pos <= dl,
                dl == data@.len(),
                estimated <= 0x100011000u64 + (rounds as u64) * 0x20004,
            decreases 5 - rounds,
        {
            if link_flags & flag_bit != 0 {
                if pos < dl && dl - pos >= 2 {
                    let count = read_le16(data, pos) as u64;
                    estimated = estimated + 2 + count * 2;
                    if count * 2 <= (dl - pos - 2) as u64 {
                        pos = pos + 2 + (count as usize) * 2;
                    } else {
                        pos = dl;
                    }
                }
            }
            if flag_bit < 0x40 {
                flag_bit = flag_bit * 2;
            }
            rounds = rounds + 1;
        }
        let estimated = estimated + 100;
        if estimated > dl as u64 {
            if dl < 65536 {
                Some(dl)
            } else {
                Some(65536)
            }
        } else {
            Some(estimated as usize)
        }
    }
}

impl Default for JumplistParser {
    /// The default parser.
    fn default() -> (r: Self) {
        JumplistParser::new()
    }
}

impl ShellLink {
    /// Parse a shell link from bytes: the 76-byte header, then the
    /// optional sections its flags announce.
    pub fn parse(data: &[u8]) -> (r: Result<ShellLink, Error>)
        ensures
            data@.len() < 76 ==> r is Err,
            r matches Ok(l) ==> data@.len() >= 76 && l.header.header_size == le32_at(data@, 0)
                && le32_at(data@, 0) == 0x4C && l.timestamps.created == filetime_secs_ticks_spec(
                le64_at(data@, 28) as u64) && l.timestamps.modified == filetime_secs_ticks_spec(
                le64_at(data@, 44) as u64) && l.timestamps.accessed == filetime_secs_ticks_spec(
                le64_at(data@, 36) as u64),
    {
        let dl = data.len();
        if dl < 76 {
            return Err(Error::ParseError(String::from_str("Shell link too small")));
        }
        let header = ShellLinkHeader::parse(data);
        if header.header_size != 0x4C {
            return Err(Error::ParseError(String::from_str("Invalid LNK header size")));
        }
        let creation_time = header.creation_time;
        let access_time = header.access_time;
        let write_time = header.write_time;
        let flags = header.link_flags;
        let mut pos: usize = 76;
        let mut id_list: Option<ItemIdList> = None;
        if flags & 0x01 != 0 {
            if pos < dl && dl - pos >= 2 {
                let idlist_size = read_le16(data, pos) as usize;
                if idlist_size > 0 && idlist_size <= dl - pos - 2 {
                    let sl = vstd::slice::slice_subrange(data, pos, pos + 2 + idlist_size);
                    if let Ok(l) = ItemIdList::parse(sl) {
                        id_list = Some(l);
                    }
                    pos = pos + 2 + idlist_size;
                } else {
                    pos = dl;
                }
            }
        }
        let mut link_info: Option<LinkInfo> = None;
        if flags & 0x02 != 0 {
            if pos < dl && dl - pos >= 28 {
                let size = read_le32(data, pos);
                if size >= 28 && (size as u64) <= (dl - pos) as u64 {
                    let sl = vstd::slice::slice_subrange(data, pos, pos + size as usize);
                    link_info = Some(LinkInfo::parse(sl));
                    pos = pos + size as usize;
                } else {
                    pos = dl;
                }
            }
        }
        let mut string_data: Option<StringData> = None;
        if flags & 0x04 != 0 || flags & 0x08 != 0 || flags & 0x10 != 0 || flags & 0x20 != 0
            || flags & 0x40 != 0 {
            let (sd, next) = StringData::parse(data, pos, flags);
            string_data = Some(sd);
            pos = next;
        }
        let extra_data = parse_extra_blocks(data, pos);
        let mut target_path: Option<String> = match &string_data {
            Some(sd) => clone_opt(&sd.relative_path),
            None => None,
        };
        let arguments = match &string_data {
            Some(sd) => clone_opt(&sd.command_line_arguments),
            None => None,
        };
        let working_directory = match &string_data {
            Some(sd) => clone_opt(&sd.working_directory),
            None => None,
        };
        let icon_location = match &string_data {
            Some(sd) => clone_opt(&sd.icon_location),
            None => None,
        };
        if target_path.is_none() {
            if let Some(idl) = &id_list {
                target_path = clone_opt(&idl.full_path);
            }
        }
        Ok(ShellLink {
            header,
            id_list,
            link_info,
            string_data,
            extra_data,
            target_path,
            arguments,
            working_directory,
            icon_location,
            timestamps: EventTimestamps {
                created: convert_filetime_secs_ticks(creation_time),
                accessed: convert_filetime_secs_ticks(access_time),
                modified: convert_filetime_secs_ticks(write_time),
                mft_modified: convert_filetime_secs_ticks(write_time),
            },
        })
    }
}

impl ShellLinkHeader {
    /// Parse the 76-byte header.
    pub fn parse(data: &[u8]) -> (r: ShellLinkHeader)
        requires
            data@.len() >= 76,
        ensures
            r.header_size == le32_at(data@, 0),
            r.link_flags == le32_at(data@, 20),
            r.file_attributes == le32_at(data@, 24),
            r.creation_time == le64_at(data@, 28),
            r.access_time == le64_at(data@, 36),
            r.write_time == le64_at(data@, 44),
            r.file_size == le32_at(data@, 52),
    {
        let mut link_clsid: Vec<u8> = Vec::new();
        let mut i: usize = 0;
        while i < 16
            invariant
                i <= 16,
                data@.len() >= 76,
            decreases 16 - i,
        {
            link_clsid.push(data[4 + i]);
            i = i + 1;
        }
        ShellLinkHeader {
            header_size: read_le32(data, 0),
            link_clsid,
            link_flags: read_le32(data, 20),
            file_attributes: read_le32(data, 24),
            creation_time: read_le64(data, 28),
            access_time: read_le64(data, 36),
            write_time: read_le64(data, 44),
            file_size: read_le32(data, 52),
            icon_index: read_le32(data, 56),
            show_command: read_le32(data, 60),
            hot_key: read_le16(data, 64),
            reserved1: read_le16(data, 66),
            reserved2: read_le32(data, 68),
            reserved3: read_le32(data, 72),
        }
    }
}

impl LinkInfo {
    /// Parse a link info structure from its own slice.
    pub fn parse(data: &[u8]) -> (r: LinkInfo)
        requires
            data@.len() >= 28,
        ensures
            r.size == le32_at(data@, 0),
    {
        LinkInfo {
            size: read_le32(data, 0),
            header_size: read_le32(data, 4),
            flags: read_le32(data, 8),
            volume_id_offset: read_le32(data, 12),
            local_base_path_offset: read_le32(data, 16),
            common_network_relative_link_offset: read_le32(data, 20),
            common_path_suffix_offset: read_le32(data, 24),
            volume_info: None,
            local_base_path: None,
            common_path_suffix: None,
        }
    }
}

impl StringData {
    /// Parse the string data section at `pos`: one count-prefixed UTF-16
    /// string for each announced flag bit. Returns the section and the
    /// next offset.
    pub fn parse(data: &[u8], pos: usize, flags: u32) -> (r: (StringData, usize))
        requires
            pos <= data@.len(),
        ensures
            pos <= r.1 <= data@.len(),
    {
        let mut sd = StringData {
            name_string: None,
            relative_path: None,
            working_directory: None,
            command_line_arguments: None,
            icon_location: None,
        };
        let mut p = pos;
        if flags & 0x04 != 0 {
            let (s, next) = read_utf16_counted(data, p);
            sd.name_string = s;
            p = next;
        }
        if flags & 0x08 != 0 {
            let (s, next) = read_utf16_counted(data, p);
            sd.relative_path = s;
            p = next;
        }
        if flags & 0x10 != 0 {
            let (s, next) = read_utf16_counted(data, p);
            sd.working_directory = s;
            p = next;
        }
        if flags & 0x20 != 0 {
            let (s, next) = read_utf16_counted(data, p);
            sd.command_line_arguments = s;
            p = next;
        }
        if flags & 0x40 != 0 {
            let (s, next) = read_utf16_counted(data, p);
            sd.icon_location = s;
            p = next;
        }
        (sd, p)
    }
}

/// Read one count-prefixed UTF-16 string; the count names characters.
fn read_utf16_counted(data: &[u8], pos: usize) -> (r: (Option<String>, usize))
    requires
        pos <= data@.len(),
    ensures
        pos <= r.1 <= data@.len(),
{
    let dl = data.len();
    if pos >= dl || dl - pos < 2 {
        return (None, pos);
    }
    let count = read_le16(data, pos) as usize;
    if count == 0 {
        return (Some(String::new()), pos + 2);
    }
    if count > (dl - pos - 2) / 2 {
        return (None, dl);
    }
    let bytes = vstd::slice::slice_subrange(data, pos + 2, pos + 2 + 2 * count);
    let units = utf16_units(bytes);
    let s = utf16_lossy(units.as_slice());
    (Some(s), pos + 2 + 2 * count)
}

/// Parse the extra data blocks from `pos` to the end of the buffer.
fn parse_extra_blocks(data: &[u8], pos: usize) -> (r: Vec<ExtraDataBlock>)
    requires
        pos <= data@.len(),
{
    let dl = data.len();
    let mut blocks: Vec<ExtraDataBlock> = Vec::new();
    let mut p = pos;
    while p < dl && dl - p >= 8
        invariant
            p <= dl,
            dl == data@.len(),
        decreases dl - p,
    {
        let size = read_le32(data, p);
        if size < 8 || (size as u64) > (dl - p) as u64 {
            break ;
        }
        let signature = read_le32(data, p + 4);
        let body = vstd::slice::slice_to_vec(
            vstd::slice::slice_subrange(data, p + 8, p + size as usize),
        );
        blocks.push(ExtraDataBlock { size, signature, data: body });
        p = p + size as usize;
    }
    blocks
}

/// Find the next shell link signature at or after `pos`.
fn find_lnk_signature(data: &[u8], pos: usize) -> (r: Option<usize>)
    requires
        pos <= data@.len(),
    ensures
        r matches Some(s) ==> pos <= s && s + 4 <= data@.len(),
{
    let dl = data.len();
    let mut k = pos;
    while k < dl && dl - k >= 4
        invariant
            pos <= k <= dl,
            dl == data@.len(),
        decreases dl - k,
    {
        if data[k] == 0x4C && data[k + 1] == 0 && data[k + 2] == 0 && data[k + 3] == 0 {
            return Some(k);
        }
        k = k + 1;
    }
    None
}

/// Is the string entirely ASCII digits, and nonempty?
fn all_ascii_digits(s: &str) -> (r: bool) {
    let b = s.as_bytes();
    let n = b.len();
    if n == 0 {
        return false;
    }
    let mut i: usize = 0;
    while i < n
        invariant
            i <= n,
            n == b@.len(),
        decreases n - i,
    {
        if b[i] < 48 || b[i] > 57 {
            return false;
        }
        i = i + 1;
    }
    true
}

/// The small number an ASCII digit string denotes, capped at a million.
fn parse_small_number(s: &str) -> (r: u64) {
    let b = s.as_bytes();
    let n = b.len();
    let mut v: u64 = 0;
    let mut i: usize = 0;
    while i < n
        invariant
            i <= n,
            n == b@.len(),
            v <= 1000000,
        decreases n - i,
    {
        let c = b[i];
        if 48 <= c && c <= 57 && v < 100000 {
            v = v * 10 + ((c - 48) as u64);
        }
        i = i + 1;
    }
    v
}

/// Copy an optional string.
fn clone_opt(s: &Option<String>) -> (r: Option<String>)
    ensures
        match r {
            Some(v) => s matches Some(w) && v@ == w@,
            None => s is None,
        },
{
    match s {
        Some(v) => Some(v.clone()),
        None => None,
    }
}

/// One step of the CRC-64 bit loop.
pub open spec fn crc64_bit_step(c: u64) -> u64 {
    if c & 1 == 1 {
        (c >> 1) ^ 0xC96C5795D7870F42
    } else {
        c >> 1
    }
}

/// `k` steps of the CRC-64 bit loop.
pub open spec fn crc64_bits(c: u64, k: nat) -> u64
    decreases k,
{
    if k == 0 {
        c
    } else {
        crc64_bits(crc64_bit_step(c), (k - 1) as nat)
    }
}

/// The CRC-64 fold over a byte sequence, from the all-ones register.
pub open spec fn crc64_fold(s: Seq<u8>) -> u64
    decreases s.len(),
{
    if s.len() == 0 {
        0xFFFFFFFFFFFFFFFFu64
    } else {
        crc64_bits(crc64_fold(s.drop_last()) ^ (s.last() as u64), 8)
    }
}

/// The CRC-64 application identifier hash of a byte sequence.
pub open spec fn crc64_spec(s: Seq<u8>) -> u64 {
    !crc64_fold(s)
}

/// Calculate the CRC-64 hash used for application identification.
pub fn calculate_crc64(data: &[u8]) -> (r: u64)
    ensures
        r == crc64_spec(data@),
{
    let mut crc: u64 = 0xFFFFFFFFFFFFFFFF;
    let mut i: usize = 0;
    while i < data.len()
        invariant
            i <= data@.len(),
            crc == crc64_fold(data@.take(i as int)),
        decreases data.len() - i,
    {
        crc = crc ^ (data[i] as u64);
        let mut bit: u8 = 0;
        while bit < 8
            invariant
                bit <= 8,
                crc == crc64_bits(
                    crc64_fold(data@.take(i as int)) ^ (data@[i as int] as u64),
                    bit as nat,
                ),
            decreases 8 - bit,
        {
            proof {
                lemma_crc64_bits_snoc(
                    crc64_fold(data@.take(i as int)) ^ (data@[i as int] as u64),
                    bit as nat,
                );
            }
            if crc & 1 == 1 {
                crc = (crc >> 1) ^ 0xC96C5795D7870F42;
            } else {
                crc = crc >> 1;
            }
            bit = bit + 1;
        }
        proof {
            assert(data@.take(i + 1).drop_last() =~= data@.take(i as int));
            assert(data@.take(i + 1).last() == data@[i as int]);
        }
        i = i + 1;
    }
    proof {
        assert(data@.take(data@.len() as int) =~= data@);
    }
    !crc
}

/// The bit loop commutes: one more step equals stepping the result.
proof fn lemma_crc64_bits_snoc(c: u64, k: nat)
    ensures
        crc64_bits(c, (k + 1) as nat) == crc64_bit_step(crc64_bits(c, k)),
    decreases k,
{
    if k == 0 {
        assert(crc64_bits(c, 1) == crc64_bits(crc64_bit_step(c), 0));
        assert(crc64_bits(crc64_bit_step(c), 0) == crc64_bit_step(c));
        assert(crc64_bits(c, 0) == c);
    } else {
        lemma_crc64_bits_snoc(crc64_bit_step(c), (k - 1) as nat);
        assert(crc64_bits(c, (k + 1) as nat) == crc64_bits(crc64_bit_step(c), k as nat));
        assert(crc64_bits(c, k) == crc64_bits(crc64_bit_step(c), (k - 1) as nat));
    }
}

/// The known application identifier table: identifier and application
/// name pairs, in a fixed order.
pub open spec fn known_app_table() -> Seq<(Seq<char>, Seq<char>)> {
    seq![
        ("1BC392681C5D8511"@, "Microsoft Word"@),
        ("4A4F1D0DE3F94223"@, "Microsoft Excel"@),
        ("5D696D521DE238C3"@, "Microsoft PowerPoint"@),
        ("C2C86A1E5FDF4BDC"@, "Microsoft Outlook"@),
        ("76543234ACBD1234"@, "Microsoft OneNote"@),
        ("43DEA41143485508"@, "Microsoft Clipchamp"@),
        ("C9533998E1308D73"@, "Microsoft PhotoManager"@),
        ("D67EEC451F4B0A17"@, "Microsoft Teams x64"@),
        ("82DE7B745170A7A7"@, "Microsoft.DesktopAppInstaller"@),
        ("E0F5DF85162B2E74"@, "Opera"@),
        ("8B3B7A8EE8E24F76"@, "Google Chrome"@),
        ("6B876FA7C71D4567"@, "Mozilla Firefox"@),
        ("A2B1C3D4E5F67890"@, "Microsoft Edge"@),
        ("39CE6EDE51235EDE"@, "Notepad++"@),
        ("437ED96A251C0A4E"@, "IDA Home (PC) ida64.exe"@),
        ("FB5DC9A49DB30CBC"@, "IDA Home (PC) ida64.exe"@),
        ("9EAE1DD4F073BF2E"@, "MiTeC JSON Viewer"@),
        ("1A2B3C4D5E6F7890"@, "Visual Studio Code"@),
        ("2B3C4D5E6F789012"@, "Visual Studio"@),
        ("187AFBEE4F000AF7"@, "WinSCP"@),
        ("B6E75277D637AF45"@, "WinSCP"@),
        ("E58F281BBBF7DB50"@, "WinSCP"@),
        ("DB53B23FD1EDBD46"@, "WINZIP64"@),
        ("E1529BD958616FC"@, "PKZIP for Windows (PKZIP.DropTarget)"@),
        ("3C4D5E6F78901234"@, "7-Zip"@),
        ("4D5E6F7890123456"@, "WinRAR"@),
        ("B4866339A794AFCF"@, "Paint.Net"@),
        ("6D86A7EB1FE36DB5"@, "Corel PhotoPaint Home"@),
        ("5E6F789012345678"@, "Adobe Photoshop"@),
        ("6F78901234567890"@, "VLC Media Player"@),
        ("78901234567890AB"@, "Windows Media Player"@),
        ("6FAC1B1908485D3"@, "Windows Font Viewer (fontview.exe)"@),
        ("BB0EB8DC691DC2CB"@, "Meridian Audio's MConfig.exe"@),
        ("901234567890ABCD"@, "Registry Editor"@),
        ("01234567890ABCDE"@, "Task Manager"@),
        ("3C9CB00791B6B84C"@, "Autodesk DWGTrueView"@),
        ("1234567890ABCDEF"@, "AutoCAD"@),
        ("234567890ABCDEF1"@, "Skype"@),
        ("34567890ABCDEF12"@, "Discord"@),
        ("4567890ABCDEF123"@, "Slack"@),
        ("567890ABCDEF1234"@, "Steam"@),
        ("67890ABCDEF12345"@, "Origin"@),
        ("7890ABCDEF123456"@, "Epic Games Launcher"@),
    ]
}

/// The known application identifier table, as identifier and name pairs.
pub fn known_app_id_pairs() -> (r: Vec<(String, String)>)
    ensures
        r@.map_values(|p: (String, String)| (p.0@, p.1@)) == known_app_table(),
{
    let mut v: Vec<(String, String)> = Vec::new();
    v.push((String::from_str("1BC392681C5D8511"), String::from_str("Microsoft Word")));
    v.push((String::from_str("4A4F1D0DE3F94223"), String::from_str("Microsoft Excel")));
    v.push((String::from_str("5D696D521DE238C3"), String::from_str("Microsoft PowerPoint")));
    v.push((String::from_str("C2C86A1E5FDF4BDC"), String::from_str("Microsoft Outlook")));
    v.push((String::from_str("76543234ACBD1234"), String::from_str("Microsoft OneNote")));
    v.push((String::from_str("43DEA41143485508"), String::from_str("Microsoft Clipchamp")));
    v.push((String::from_str("C9533998E1308D73"), String::from_str("Microsoft PhotoManager")));
    v.push((String::from_str("D67EEC451F4B0A17"), String::from_str("Microsoft Teams x64")));
    v.push((String::from_str("82DE7B745170A7A7"), String::from_str("Microsoft.DesktopAppInstaller")));
    v.push((String::from_str("E0F5DF85162B2E74"), String::from_str("Opera")));
    v.push((String::from_str("8B3B7A8EE8E24F76"), String::from_str("Google Chrome")));
    v.push((String::from_str("6B876FA7C71D4567"), String::from_str("Mozilla Firefox")));
    v.push((String::from_str("A2B1C3D4E5F67890"), String::from_str("Microsoft Edge")));
    v.push((String::from_str("39CE6EDE51235EDE"), String::from_str("Notepad++")));
    v.push((String::from_str("437ED96A251C0A4E"), String::from_str("IDA Home (PC) ida64.exe")));
    v.push((String::from_str("FB5DC9A49DB30CBC"), String::from_str("IDA Home (PC) ida64.exe")));
    v.push((String::from_str("9EAE1DD4F073BF2E"), String::from_str("MiTeC JSON Viewer")));
    v.push((String::from_str("1A2B3C4D5E6F7890"), String::from_str("Visual Studio Code")));
    v.push((String::from_str("2B3C4D5E6F789012"), String::from_str("Visual Studio")));
    v.push((String::from_str("187AFBEE4F000AF7"), String::from_str("WinSCP")));
    v.push((String::from_str("B6E75277D637AF45"), String::from_str("WinSCP")));
    v.push((String::from_str("E58F281BBBF7DB50"), String::from_str("WinSCP")));
    v.push((String::from_str("DB53B23FD1EDBD46"), String::from_str("WINZIP64")));
    v.push((String::from_str("E1529BD958616FC"), String::from_str("PKZIP for Windows (PKZIP.DropTarget)")));
    v.push((String::from_str("3C4D5E6F78901234"), String::from_str("7-Zip")));
    v.push((String::from_str("4D5E6F7890123456"), String::from_str("WinRAR")));
    v.push((String::from_str("B4866339A794AFCF"), String::from_str("Paint.Net")));
    v.push((String::from_str("6D86A7EB1FE36DB5"), String::from_str("Corel PhotoPaint Home")));
    v.push((String::from_str("5E6F789012345678"), String::from_str("Adobe Photoshop")));
    v.push((String::from_str("6F78901234567890"), String::from_str("VLC Media Player")));
    v.push((String::from_str("78901234567890AB"), String::from_str("Windows Media Player")));
    v.push((String::from_str("6FAC1B1908485D3"), String::from_str("Windows Font Viewer (fontview.exe)")));
    v.push((String::from_str("BB0EB8DC691DC2CB"), String::from_str("Meridian Audio's MConfig.exe")));
    v.push((String::from_str("901234567890ABCD"), String::from_str("Registry Editor")));
    v.push((String::from_str("01234567890ABCDE"), String::from_str("Task Manager")));
    v.push((String::from_str("3C9CB00791B6B84C"), String::from_str("Autodesk DWGTrueView")));
    v.push((String::from_str("1234567890ABCDEF"), String::from_str("AutoCAD")));
    v.push((String::from_str("234567890ABCDEF1"), String::from_str("Skype")));
    v.push((String::from_str("34567890ABCDEF12"), String::from_str("Discord")));
    v.push((String::from_str("4567890ABCDEF123"), String::from_str("Slack")));
    v.push((String::from_str("567890ABCDEF1234"), String::from_str("Steam")));
    v.push((String::from_str("67890ABCDEF12345"), String::from_str("Origin")));
    v.push((String::from_str("7890ABCDEF123456"), String::from_str("Epic Games Launcher")));
    proof {
        assert(v@.map_values(|p: (String, String)| (p.0@, p.1@)) =~= known_app_table());
    }
    v
}

/// The known application identifier table for jumplist files, holding
/// exactly the pairs of `known_app_id_pairs`. The text-keyed map itself
/// carries no view contract here; the pairs function states the table.
pub fn get_known_app_ids() -> (r: HashMap<String, String>) {
    let mut pairs = known_app_id_pairs();
    let mut m: HashMap<String, String> = HashMap::new();
    while pairs.len() > 0
        decreases pairs@.len(),
    {
        if let Some(p) = pairs.pop() {
            m.insert(p.0, p.1);
        }
    }
    m
}

/// The texts of the registry MRU locations jumplist analysis consults,
/// in the order consulted.
pub open spec fn mru_location_texts() -> Seq<Seq<char>> {
    seq![
        "Software\\Microsoft\\Windows\\Shell\\BagMRU"@,
        "Software\\Classes\\Local Settings\\Software\\Microsoft\\Windows\\Shell\\BagMRU"@,
        "Software\\Microsoft\\Windows\\CurrentVersion\\Explorer\\RecentDocs"@,
        "Software\\Microsoft\\Windows\\CurrentVersion\\Explorer\\ComDlg32\\OpenSavePidlMRU"@,
        "Software\\Microsoft\\Windows\\CurrentVersion\\Explorer\\ComDlg32\\LastVisitedPidlMRU"@,
        "Software\\Microsoft\\Windows\\CurrentVersion\\Explorer\\ComDlg32\\LastVisitedPidlMRULegacy"@,
        "Software\\Microsoft\\Windows\\CurrentVersion\\Explorer\\TWinUI\\FilePicker\\LastVisitedPidlMRU"@,
        "Software\\Microsoft\\Windows\\CurrentVersion\\Explorer\\Streams"@,
        "Software\\Microsoft\\Windows\\CurrentVersion\\Explorer\\StreamMRU"@,
        "Software\\Microsoft\\Windows\\CurrentVersion\\Explorer\\WordWheelQuery"@,
        "Software\\Microsoft\\Windows\\CurrentVersion\\Search\\JumplistData"@,
        "Software\\Microsoft\\Windows\\CurrentVersion\\Search\\RecentApps"@,
        "Software\\Microsoft\\Windows\\CurrentVersion\\Explorer\\Taskband\\Favorites"@,
        "Software\\Microsoft\\Windows\\CurrentVersion\\Explorer\\Taskband\\FavoritesResolve"@,
        "Software\\Microsoft\\Windows\\CurrentVersion\\Explorer\\StartPage2\\Favorites"@,
        "Software\\Microsoft\\Windows\\CurrentVersion\\Explorer\\StartPage2\\FavoritesResolve"@,
        "Software\\Microsoft\\Windows\\CurrentVersion\\Explorer\\StartPage2\\ProgramsCache"@,
        "Software\\Microsoft\\Windows\\CurrentVersion\\Explorer\\StartPage2\\ProgramsCacheSMP"@,
        "Software\\Microsoft\\Windows\\CurrentVersion\\Explorer\\StartPage2\\ProgramsCacheTBP"@,
        "Software\\Microsoft\\Windows\\CurrentVersion\\Lock Screen"@,
    ]
}

/// The registry MRU locations jumplist analysis consults: exactly the
/// fixed list of `mru_location_texts`.
pub fn get_mru_locations() -> (r: Vec<&'static str>)
    ensures
        r@.map_values(|s: &'static str| s@) == mru_location_texts(),
        r@.len() == 20,
{
    let mut v: Vec<&'static str> = Vec::new();
    v.push("Software\\Microsoft\\Windows\\Shell\\BagMRU");
    v.push("Software\\Classes\\Local Settings\\Software\\Microsoft\\Windows\\Shell\\BagMRU");
    v.push("Software\\Microsoft\\Windows\\CurrentVersion\\Explorer\\RecentDocs");
    v.push("Software\\Microsoft\\Windows\\CurrentVersion\\Explorer\\ComDlg32\\OpenSavePidlMRU");
    v.push("Software\\Microsoft\\Windows\\CurrentVersion\\Explorer\\ComDlg32\\LastVisitedPidlMRU");
    v.push(
        "Software\\Microsoft\\Windows\\CurrentVersion\\Explorer\\ComDlg32\\LastVisitedPidlMRULegacy",
    );
    v.push(
        "Software\\Microsoft\\Windows\\CurrentVersion\\Explorer\\TWinUI\\FilePicker\\LastVisitedPidlMRU",
    );
    v.push("Software\\Microsoft\\Windows\\CurrentVersion\\Explorer\\Streams");
    v.push("Software\\Microsoft\\Windows\\CurrentVersion\\Explorer\\StreamMRU");
    v.push("Software\\Microsoft\\Windows\\CurrentVersion\\Explorer\\WordWheelQuery");
    v.push("Software\\Microsoft\\Windows\\CurrentVersion\\Search\\JumplistData");
    v.push("Software\\Microsoft\\Windows\\CurrentVersion\\Search\\RecentApps");
    v.push("Software\\Microsoft\\Windows\\CurrentVersion\\Explorer\\Taskband\\Favorites");
    v.push("Software\\Microsoft\\Windows\\CurrentVersion\\Explorer\\Taskband\\FavoritesResolve");
    v.push("Software\\Microsoft\\Windows\\CurrentVersion\\Explorer\\StartPage2\\Favorites");
    v.push("Software\\Microsoft\\Windows\\CurrentVersion\\Explorer\\StartPage2\\FavoritesResolve");
    v.push("Software\\Microsoft\\Windows\\CurrentVersion\\Explorer\\StartPage2\\ProgramsCache");
    v.push("Software\\Microsoft\\Windows\\CurrentVersion\\Explorer\\StartPage2\\ProgramsCacheSMP");
    v.push("Software\\Microsoft\\Windows\\CurrentVersion\\Explorer\\StartPage2\\ProgramsCacheTBP");
    v.push("Software\\Microsoft\\Windows\\CurrentVersion\\Lock Screen");
    proof {
        assert(v@.map_values(|s: &'static str| s@) =~= mru_location_texts());
    }
    v
}

} // verus!
