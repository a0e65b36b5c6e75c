//! Shell link (.lnk) decoding: header, target, strings and timestamps.

use vstd::prelude::*;
use crate::error::Error;
use crate::strutil::{le16_at, le32_at, le64_at, read_le16, read_le32, read_le64, utf8_lossy,
    utf16_lossy, utf16_units};
use crate::datetime::{filetime_secs_ticks_spec, convert_filetime_secs_ticks};
use crate::types::EventTimestamps;
use crate::shell_item::ItemIdList;

verus! {

/// Decoded shell link.
#[derive(Debug, Clone)]
pub struct ShellLink {
    /// Shell link header.
    pub header: ShellLinkHeader,
    /// Link target ID list.
    pub id_list: Option<ItemIdList>,
    /// Link info structure.
    pub link_info: Option<LinkInfo>,
    /// String data section.
    pub string_data: Option<StringData>,
    /// Extra data blocks.
    pub extra_data: Vec<ExtraDataBlock>,
    /// The resolved target path.
    pub target_path: Option<String>,
    /// Command-line arguments.
    pub arguments: Option<String>,
    /// Working directory.
    pub working_directory: Option<String>,
    /// Icon location.
    pub icon_location: Option<String>,
    /// File timestamps, in whole-second ticks.
    pub timestamps: EventTimestamps,
}

/// Shell link header (76 bytes on disk).
#[derive(Debug, Clone)]
pub struct ShellLinkHeader {
    /// Header size; a valid link carries 0x4C.
    pub header_size: u32,
    /// Link class identifier.
    pub link_clsid: Vec<u8>,
    /// Link flags.
    pub link_flags: u32,
    /// Target file attributes.
    pub file_attributes: u32,
    /// Creation time (FILETIME).
    pub creation_time: u64,
    /// Access time (FILETIME).
    pub access_time: u64,
    /// Write time (FILETIME).
    pub write_time: u64,
    /// Target file size (low 32 bits).
    pub file_size: u32,
    /// Icon index.
    pub icon_index: u32,
    /// Show command.
    pub show_command: u32,
    /// Hotkey.
    pub hotkey: u16,
    /// Reserved fields.
    pub reserved1: u16,
    pub reserved2: u32,
    pub reserved3: u32,
}

/// Link info structure.
#[derive(Debug, Clone)]
pub struct LinkInfo {
    /// Total structure size.
    pub size: u32,
    /// Structure header size.
    pub header_size: u32,
    /// Link info flags.
    pub flags: u32,
    /// Volume identifier offset.
    pub volume_id_offset: u32,
    /// Local path offset.
    pub local_path_offset: u32,
    /// Network volume table offset.
    pub network_volume_table_offset: u32,
    /// Remaining path offset.
    pub remaining_path_offset: u32,
    /// Parsed volume information.
    pub volume_info: Option<VolumeInfo>,
    /// Local path.
    pub local_path: Option<String>,
    /// Network path.
    pub network_path: Option<String>,
}

/// Volume information.
#[derive(Debug, Clone)]
pub struct VolumeInfo {
    /// Structure size.
    pub size: u32,
    /// Drive type.
    pub drive_type: u32,
    /// Drive serial number.
    pub drive_serial: u32,
    /// Volume label offset.
    pub volume_label_offset: u32,
    /// Volume label.
    pub volume_label: Option<String>,
}

/// String data section.
#[derive(Debug, Clone)]
pub struct StringData {
    /// Name string.
    pub name_string: Option<String>,
    /// Relative path.
    pub relative_path: Option<String>,
    /// Working directory.
    pub working_directory: Option<String>,
    /// Command-line arguments.
    pub command_line_arguments: Option<String>,
    /// Icon location.
    pub icon_location: Option<String>,
}

/// Extra data block.
#[derive(Debug, Clone)]
pub struct ExtraDataBlock {
    /// Block size.
    pub size: u32,
    /// Block signature.
    pub signature: u32,
    /// Block data.
    pub data: Vec<u8>,
    /// Classified block kind.
    pub parsed_data: ExtraDataType,
}

/// Extra data block kinds.
#[derive(Debug, Clone)]
pub enum ExtraDataType {
    ConsoleProps,
    ConsoleCodepage,
    DarwinProps,
    EnvironmentProps,
    IconEnvironmentProps,
    KnownFolderProps,
    PropertyStoreProps,
    ShimProps,
    SpecialFolderProps,
    TrackerProps,
    VistaAndAboveIDListProps,
    VolumeIDProps,
    Unknown(Vec<u8>),
}

/// The number of 100 ns ticks from 1601-01-01 to the Unix epoch.
pub const LNK_FILETIME_EPOCH: u64 = 116444736000000000;

/// The shell link class identifier, as the sixteen bytes at header
/// offset 4.
pub open spec fn lnk_clsid_bytes() -> Seq<u8> {
    seq![
        0x01u8,
        0x14u8,
        0x02u8,
        0x00u8,
        0x00u8,
        0x00u8,
        0x00u8,
        0x00u8,
        0xC0u8,
        0x00u8,
        0x00u8,
        0x00u8,
        0x00u8,
        0x00u8,
        0x00u8,
        0x46u8,
    ]
}

/// LNK file parser.
pub struct LnkParser {
    /// FILETIME epoch difference, in 100 ns ticks.
    pub filetime_epoch_diff: u64,
}

impl LnkParser {
    /// Create a new LNK parser.
    pub fn new() -> (r: Self)
        ensures
            r.filetime_epoch_diff == LNK_FILETIME_EPOCH,
    {
        LnkParser { filetime_epoch_diff: LNK_FILETIME_EPOCH }
    }

    /// Convert a FILETIME to whole-second ticks since the Unix epoch;
    /// zero converts to nothing and earlier instants saturate to the
    /// epoch.
    pub fn filetime_to_datetime(&self, filetime: u64) -> (r: Option<u64>)
        ensures
            r == filetime_secs_ticks_spec(filetime),
    {
        convert_filetime_secs_ticks(filetime)
    }

    /// Parse a shell link from bytes. The buffer must be at least the 76
    /// header bytes, open with header size 0x4C and carry the shell link
    /// class identifier; the decoded header fields are exactly the
    /// little-endian reads at their documented offsets. A buffer meeting
    /// those gates whose flags announce no target-ID list and no link
    /// info always parses.
    pub fn parse_lnk_data(&self, data: &[u8]) -> (r: Result<ShellLink, Error>)
        ensures
            data@.len() < 76 ==> r is Err && (r matches Err(e) ==> e is InvalidInput),
            r is Ok ==> data@.len() >= 76 && le32_at(data@, 0) == 0x4C && data@.subrange(4, 20)
                == lnk_clsid_bytes(),
            data@.len() >= 76 && le32_at(data@, 0) == 0x4C && data@.subrange(4, 20)
                == lnk_clsid_bytes() && (le32_at(data@, 20) as u32) & 0x01 == 0 && (le32_at(
                data@,
                20,
            ) as u32) & 0x02 == 0 ==> r is Ok,
            r matches Ok(link) ==> data@.len() >= 76 && le32_at(data@, 0) == 0x4C
                && link.header.header_size == 0x4C && link.header.link_flags == le32_at(data@, 20)
                && link.header.file_attributes == le32_at(data@, 24) && link.header.creation_time
                == le64_at(data@, 28) && link.header.access_time == le64_at(data@, 36)
                && link.header.write_time == le64_at(data@, 44) && link.header.file_size
                == le32_at(data@, 52) && link.timestamps.created == filetime_secs_ticks_spec(
                le64_at(data@, 28) as u64) && link.timestamps.modified == filetime_secs_ticks_spec(
                le64_at(data@, 44) as u64) && link.timestamps.accessed
                == filetime_secs_ticks_spec(le64_at(data@, 36) as u64)
                && link.timestamps.mft_modified is None,
    {
        let dl = data.len();
        if dl < 76 {
            return Err(Error::InvalidInput(String::from_str(
                "LNK file too small: need at least the 76 header bytes",
            )));
        }
        let header_size = read_le32(data, 0);
        if header_size != 0x4C {
            return Err(Error::InvalidInput(String::from_str(
                "File does not appear to be a valid LNK file",
            )));
        }
        let header = match self.parse_header(data) {
            Ok(h) => h,
            Err(e) => {
                return Err(e);
            },
        };
        let flags = header.link_flags;
        let mut pos: usize = 76;
        // Link target ID list.
        let mut id_list: Option<ItemIdList> = None;
        if flags & 0x01 != 0 {
            if pos < dl && dl - pos >= 2 {
                let idlist_size = read_le16(data, pos) as usize;
                if idlist_size > 0 && idlist_size <= dl - pos - 2 {
                    let idlist_slice = vstd::slice::slice_subrange(
                        data,
                        pos,
                        pos + 2 + idlist_size,
                    );
                    match ItemIdList::parse(idlist_slice) {
                        Ok(l) => {
                            id_list = Some(l);
                        },
                        Err(e) => {
                            return Err(e);
                        },
                    }
                }
                pos = pos + 2 + if idlist_size <= dl - pos - 2 {
                    idlist_size
                } else {
                    dl - pos - 2
                };
            }
        }
        // Link info.
        let mut link_info: Option<LinkInfo> = None;
        if flags & 0x02 != 0 {
            if pos < dl && dl - pos >= 28 {
                let size = read_le32(data, pos);
                if size >= 28 && (size as u64) <= (dl - pos) as u64 {
                    let li_slice = vstd::slice::slice_subrange(data, pos, pos + size as usize);
                    link_info = Some(Self::parse_link_info(li_slice));
                    pos = pos + size as usize;
                } else {
                    return Err(Error::InvalidInput(String::from_str("Invalid LinkInfo size")));
                }
            }
        }
        // String data.
        let mut string_data: Option<StringData> = None;
        if flags & 0x04 != 0 || flags & 0x08 != 0 || flags & 0x10 != 0 || flags & 0x20 != 0
            || flags & 0x40 != 0 {
            let (sd, next) = self.parse_string_data(data, pos, flags);
            string_data = Some(sd);
            pos = next;
        }
        // Extra data blocks.
        let extra_data = Self::parse_extra_data(data, pos);
        // Resolve the target path.
        let target_path = Self::extract_target_path(&id_list, &link_info, &string_data);
        let arguments = match &string_data {
            Some(sd) => clone_opt(&sd.command_line_arguments),
            None => None,
        };
        let working_directory = match &string_data {
            Some(sd) => clone_opt(&sd.working_directory),
            None => None,
        };
        let icon_location = match &string_data {
            Some(sd) => clone_opt(&sd.icon_location),
            None => None,
        };
        let timestamps = EventTimestamps {
            created: convert_filetime_secs_ticks(header.creation_time),
            modified: convert_filetime_secs_ticks(header.write_time),
            accessed: convert_filetime_secs_ticks(header.access_time),
            mft_modified: None,
        };
        Ok(ShellLink {
            header,
            id_list,
            link_info,
            string_data,
            extra_data,
            target_path,
            arguments,
            working_directory,
            icon_location,
            timestamps,
        })
    }

    /// Parse the 76-byte shell link header, checking the class identifier.
    fn parse_header(&self, data: &[u8]) -> (r: Result<ShellLinkHeader, Error>)
        requires
            data@.len() >= 76,
        ensures
            r is Ok <==> data@.subrange(4, 20) == lnk_clsid_bytes(),
            r matches Ok(h) ==> h.header_size == le32_at(data@, 0) && h.link_flags == le32_at(
                data@, 20) && h.file_attributes == le32_at(data@, 24) && h.creation_time
                == le64_at(data@, 28) && h.access_time == le64_at(data@, 36) && h.write_time
                == le64_at(data@, 44) && h.file_size == le32_at(data@, 52),
            r matches Err(e) ==> e is InvalidInput,
    {
        let mut link_clsid: Vec<u8> = Vec::new();
        let mut i: usize = 0;
        while i < 16
            invariant
                i <= 16,
                link_clsid@.len() == i,
                data@.len() >= 76,
                forall|k: int| 0 <= k < i ==> link_clsid@[k] == data@[4 + k],
            decreases 16 - i,
        {
            link_clsid.push(data[4 + i]);
            i = i + 1;
        }
        // The shell link class identifier.
        let expected: [u8; 16] = [
            0x01,
            0x14,
            0x02,
            0x00,
            0x00,
            0x00,
            0x00,
            0x00,
            0xC0,
            0x00,
            0x00,
            0x00,
            0x00,
            0x00,
            0x00,
            0x46,
        ];
        proof {
            assert(link_clsid@ =~= data@.subrange(4, 20));
            assert(expected@ =~= lnk_clsid_bytes());
        }
        let ok = crate::strutil::bytes_eq(link_clsid.as_slice(), expected.as_slice());
        if !ok {
            return Err(Error::InvalidInput(String::from_str("Invalid Shell Link CLSID")));
        }
        Ok(ShellLinkHeader {
            header_size: read_le32(data, 0),
            link_clsid,
            link_flags: read_le32(data, 20),
            file_attributes: read_le32(data, 24),
            creation_time: read_le64(data, 28),
            access_time: read_le64(data, 36),
            write_time: read_le64(data, 44),
            file_size: read_le32(data, 52),
            icon_index: read_le32(data, 56),
            show_command: read_le32(data, 60),
            hotkey: read_le16(data, 64),
            reserved1: read_le16(data, 66),
            reserved2: read_le32(data, 68),
            reserved3: read_le32(data, 72),
        })
    }

    /// Parse a link info structure from its own slice; the local path is
    /// pulled out when the structure's flags carry one.
    fn parse_link_info(data: &[u8]) -> (r: LinkInfo)
        requires
            data@.len() >= 28,
        ensures
            r.size == le32_at(data@, 0),
            r.flags == le32_at(data@, 8),
    {
        let dl = data.len();
        let size = read_le32(data, 0);
        let header_size = read_le32(data, 4);
        let flags = read_le32(data, 8);
        let volume_id_offset = read_le32(data, 12);
        let local_path_offset = read_le32(data, 16);
        let network_volume_table_offset = read_le32(data, 20);
        let remaining_path_offset = read_le32(data, 24);
        let mut local_path: Option<String> = None;
        if flags & 0x01 != 0 && local_path_offset > 0 && (local_path_offset as u64) < dl as u64 {
            let start = local_path_offset as usize;
            let mut end: usize = start;
            while end < dl && data[end] != 0
                invariant
                    start <= end <= dl,
                    dl == data@.len(),
                decreases dl - end,
            {
                end = end + 1;
            }
            if end < dl {
                let path = utf8_lossy(vstd::slice::slice_subrange(data, start, end));
                local_path = Some(path);
            }
        }
        LinkInfo {
            size,
            header_size,
            flags,
            volume_id_offset,
            local_path_offset,
            network_volume_table_offset,
            remaining_path_offset,
            volume_info: None,
            local_path,
            network_path: None,
        }
    }

    /// Parse the string data section at `pos`: for each of the five flag
    /// bits, a count-prefixed string (UTF-16 for unicode links, bytes
    /// otherwise). Returns the section and the next offset.
    pub fn parse_string_data(&self, data: &[u8], pos: usize, flags: u32) -> (r: (
        StringData,
        usize,
    ))
        requires
            pos <= data@.len(),
        ensures
            pos <= r.1 <= data@.len(),
    {
        let is_unicode = flags & 0x80 != 0;
        let mut sd = StringData {
            name_string: None,
            relative_path: None,
            working_directory: None,
            command_line_arguments: None,
            icon_location: None,
        };
        let mut p = pos;
        if flags & 0x04 != 0 {
            let (s, next) = read_counted_string(data, p, is_unicode);
            sd.name_string = s;
            p = next;
        }
        if flags & 0x08 != 0 {
            let (s, next) = read_counted_string(data, p, is_unicode);
            sd.relative_path = s;
            p = next;
        }
        if flags & 0x10 != 0 {
            let (s, next) = read_counted_string(data, p, is_unicode);
            sd.working_directory = s;
            p = next;
        }
        if flags & 0x20 != 0 {
            let (s, next) = read_counted_string(data, p, is_unicode);
            sd.command_line_arguments = s;
            p = next;
        }
        if flags & 0x40 != 0 {
            let (s, next) = read_counted_string(data, p, is_unicode);
            sd.icon_location = s;
            p = next;
        }
        (sd, p)
    }

    /// Parse the extra data blocks from `pos` to the end of the buffer.
    fn parse_extra_data(data: &[u8], pos: usize) -> (r: Vec<ExtraDataBlock>)
        requires
            pos <= data@.len(),
    {
        let dl = data.len();
        let mut blocks: Vec<ExtraDataBlock> = Vec::new();
        let mut p = pos;
        while p < dl && dl - p >= 8
            invariant
                p <= dl,
                dl == data@.len(),
            decreases dl - p,
        {
            let size = read_le32(data, p);
            if size < 8 || (size as u64) > (dl - p) as u64 {
                break ;
            }
            let signature = read_le32(data, p + 4);
            let body = vstd::slice::slice_to_vec(
                vstd::slice::slice_subrange(data, p + 8, p + size as usize),
            );
            let parsed_data: ExtraDataType = if signature == 0xA0000002 {
                ExtraDataType::ConsoleProps
            } else if signature == 0xA0000004 {
                ExtraDataType::ConsoleCodepage
            } else if signature == 0xA0000006 {
                ExtraDataType::DarwinProps
            } else if signature == 0xA0000001 {
                ExtraDataType::EnvironmentProps
            } else if signature == 0xA0000007 {
                ExtraDataType::IconEnvironmentProps
            } else if signature == 0xA000000B {
                ExtraDataType::KnownFolderProps
            } else if signature == 0xA0000009 {
                ExtraDataType::PropertyStoreProps
            } else if signature == 0xA0000008 {
                ExtraDataType::ShimProps
            } else if signature == 0xA0000005 {
                ExtraDataType::SpecialFolderProps
            } else if signature == 0xA0000003 {
                ExtraDataType::TrackerProps
            } else if signature == 0xA000000C {
                ExtraDataType::VistaAndAboveIDListProps
            } else if signature == 0xA0000000 {
                ExtraDataType::VolumeIDProps
            } else {
                ExtraDataType::Unknown(vstd::slice::slice_to_vec(body.as_slice()))
            };
            blocks.push(ExtraDataBlock { size, signature, data: body, parsed_data });
            p = p + size as usize;
        }
        blocks
    }

    /// The target path: the link info's local path first, then the ID
    /// list's reconstructed path, then the name string.
    fn extract_target_path(
        id_list: &Option<ItemIdList>,
        link_info: &Option<LinkInfo>,
        string_data: &Option<StringData>,
    ) -> (r: Option<String>) {
        if let Some(li) = link_info {
            if let Some(lp) = &li.local_path {
                return Some(lp.clone());
            }
            if let Some(np) = &li.network_path {
                return Some(np.clone());
            }
        }
        if let Some(idl) = id_list {
            if let Some(p) = &idl.full_path {
                return Some(p.clone());
            }
        }
        if let Some(sd) = string_data {
            if let Some(n) = &sd.name_string {
                return Some(n.clone());
            }
        }
        None
    }
}

impl Default for LnkParser {
    /// The default parser.
    fn default() -> (r: Self)
        ensures
            r.filetime_epoch_diff == LNK_FILETIME_EPOCH,
    {
        LnkParser::new()
    }
}

/// Read one count-prefixed string: a two-byte character count, then that
/// many UTF-16 units (unicode) or bytes. Returns the string, when it fits
/// in the buffer, and the next offset.
fn read_counted_string(data: &[u8], pos: usize, is_unicode: bool) -> (r: (Option<String>, usize))
    requires
        pos <= data@.len(),
    ensures
        pos <= r.1 <= data@.len(),
{
    let dl = data.len();
    if pos >= dl || dl - pos < 2 {
        return (None, pos);
    }
    let count = read_le16(data, pos) as usize;
    if count == 0 {
        return (Some(String::new()), pos + 2);
    }
    if is_unicode {
        if count > (dl - pos - 2) / 2 {
            return (None, dl);
        }
        let bytes = vstd::slice::slice_subrange(data, pos + 2, pos + 2 + 2 * count);
        let units = utf16_units(bytes);
        let s = utf16_lossy(units.as_slice());
        (Some(s), pos + 2 + 2 * count)
    } else {
        if count > dl - pos - 2 {
            return (None, dl);
        }
        let raw = vstd::slice::slice_subrange(data, pos + 2, pos + 2 + count);
        // Stop at an embedded terminator, as the on-disk strings carry one.
        let mut end: usize = 0;
        let rl = raw.len();
        while end < rl && raw[end] != 0
            invariant
                end <= rl,
                rl == raw@.len(),
            decreases rl - end,
        {
            end = end + 1;
        }
        let s = utf8_lossy(vstd::slice::slice_subrange(raw, 0, end));
        (Some(s), pos + 2 + count)
    }
}

/// Copy an optional string.
fn clone_opt(s: &Option<String>) -> (r: Option<String>)
    ensures
        match r {
            Some(v) => s matches Some(w) && v@ == w@,
            None => s is None,
        },
{
    match s {
        Some(v) => Some(v.clone()),
        None => None,
    }
}

} // verus!
