//! Shell item (IDList) decoding, as LNK targets and jumplist entries
//! carry it. Only what the timeline needs is pulled out: names, sizes and
//! timestamps; timestamps are Unix seconds.

use vstd::prelude::*;
use crate::error::Error;
use crate::strutil::{le16_at, le32_at, read_le16, read_le32, read_le64, utf8_lossy, utf16_lossy,
    utf16_units};
use crate::datetime::{convert_filetime_secs, days_from_civil, days_in_month, sub_floor_spec,
    shifted_day_of_civil, EPOCH_DAY_SHIFT};

verus! {

/// Shell item types.
#[derive(Debug, Clone, Copy, PartialEq, Eq, Structural)]
pub enum ShellItemType {
    /// Root folder (Desktop, My Computer and kin).
    RootFolder,
    /// Volume or drive.
    Volume,
    /// File entry.
    File,
    /// Directory entry.
    Directory,
    /// Network location.
    Network,
    /// Compressed folder.
    CompressedFolder,
    /// URI link.
    Uri,
    /// Control panel entry.
    ControlPanel,
    /// Extension block.
    Extension,
    /// Media transfer protocol item.
    Mtp,
    /// Unknown type, carrying its tag.
    Unknown(u8),
}

/// The shell item type a tag byte denotes. Volume tags take precedence
/// over the directory range they overlap.
pub open spec fn shell_item_type_spec(t: u8) -> ShellItemType {
    if t == 0x1F {
        ShellItemType::RootFolder
    } else if t == 0x2F {
        ShellItemType::Volume
    } else if 0x30 <= t && t <= 0x3F {
        ShellItemType::File
    } else if 0x20 <= t && t <= 0x2F {
        ShellItemType::Directory
    } else if 0x40 <= t && t <= 0x4F {
        ShellItemType::Network
    } else if t == 0x52 {
        ShellItemType::CompressedFolder
    } else if t == 0x61 {
        ShellItemType::Uri
    } else if t == 0x71 {
        ShellItemType::ControlPanel
    } else if t == 0x74 {
        ShellItemType::Mtp
    } else {
        ShellItemType::Unknown(t)
    }
}

impl ShellItemType {
    /// Determine the shell item type from its type indicator byte.
    pub fn from_type_indicator(type_indicator: u8) -> (r: Self)
        ensures
            r == shell_item_type_spec(type_indicator),
    {
        let t = type_indicator;
        if t == 0x1F {
            ShellItemType::RootFolder
        } else if t == 0x2F {
            ShellItemType::Volume
        } else if 0x30 <= t && t <= 0x3F {
            ShellItemType::File
        } else if 0x20 <= t && t <= 0x2F {
            ShellItemType::Directory
        } else if 0x40 <= t && t <= 0x4F {
            ShellItemType::Network
        } else if t == 0x52 {
            ShellItemType::CompressedFolder
        } else if t == 0x61 {
            ShellItemType::Uri
        } else if t == 0x71 {
            ShellItemType::ControlPanel
        } else if t == 0x74 {
            ShellItemType::Mtp
        } else {
            ShellItemType::Unknown(t)
        }
    }

    /// A short name for the type, for metadata rows.
    pub fn kind_name(&self) -> (r: &'static str) {
        match self {
            ShellItemType::RootFolder => "RootFolder",
            ShellItemType::Volume => "Volume",
            ShellItemType::File => "File",
            ShellItemType::Directory => "Directory",
            ShellItemType::Network => "Network",
            ShellItemType::CompressedFolder => "CompressedFolder",
            ShellItemType::Uri => "Uri",
            ShellItemType::ControlPanel => "ControlPanel",
            ShellItemType::Extension => "Extension",
            ShellItemType::Mtp => "Mtp",
            ShellItemType::Unknown(_) => "Unknown",
        }
    }
}

/// Parsed shell item fields; timestamps are Unix seconds.
#[derive(Debug, Clone)]
pub struct ShellItemData {
    /// Item name or filename.
    pub name: Option<String>,
    /// Long filename, when it differs from the name.
    pub long_name: Option<String>,
    /// Creation time.
    pub created: Option<u64>,
    /// Modification time.
    pub modified: Option<u64>,
    /// Access time.
    pub accessed: Option<u64>,
    /// File size in bytes.
    pub file_size: Option<u64>,
    /// DOS attribute flags.
    pub attributes: Option<u32>,
    /// Class identifier of special folders.
    pub clsid: Option<Vec<u8>>,
    /// Additional metadata pairs.
    pub metadata: Vec<(String, String)>,
}

impl Default for ShellItemData {
    /// Empty item data.
    fn default() -> (r: Self)
        ensures
            r.name is None,
            r.file_size is None,
    {
        ShellItemData {
            name: None,
            long_name: None,
            created: None,
            modified: None,
            accessed: None,
            file_size: None,
            attributes: None,
            clsid: None,
            metadata: Vec::new(),
        }
    }
}

/// Extension block inside a shell item.
#[derive(Debug, Clone)]
pub struct ExtensionBlock {
    /// Block size.
    pub size: u16,
    /// Block version.
    pub version: u16,
    /// Block signature.
    pub signature: u32,
    /// Raw block data after the signature.
    pub data: Vec<u8>,
    /// Parsed block contents.
    pub parsed_data: ExtensionData,
}

/// Extension block contents; timestamps are Unix seconds.
#[derive(Debug, Clone)]
pub enum ExtensionData {
    /// Extended file information.
    ExtendedFileInfo {
        long_name: Option<String>,
        creation_time: Option<u64>,
        access_time: Option<u64>,
        write_time: Option<u64>,
        file_size_64: Option<u64>,
        localized_name: Option<String>,
    },
    /// Extended directory information.
    ExtendedDirInfo {
        long_name: Option<String>,
        creation_time: Option<u64>,
        access_time: Option<u64>,
        write_time: Option<u64>,
        localized_name: Option<String>,
    },
    /// Property store block, kept undecoded.
    PropertyStore(Vec<u8>),
    /// Unknown extension.
    Unknown(Vec<u8>),
}

/// One shell item.
#[derive(Debug, Clone)]
pub struct ShellItem {
    /// Item size, including the two size bytes.
    pub size: u16,
    /// Shell item type.
    pub item_type: ShellItemType,
    /// Raw item data, size field excluded.
    pub raw_data: Vec<u8>,
    /// Parsed item fields.
    pub parsed_data: ShellItemData,
}

/// An item ID list and the path its named items spell.
#[derive(Debug, Clone)]
pub struct ItemIdList {
    /// Total declared size of the list.
    pub size: u16,
    /// The shell items, in list order.
    pub items: Vec<ShellItem>,
    /// The reconstructed path, when any item carried a name.
    pub full_path: Option<String>,
}

/// The instant a DOS date and time pair denotes, in Unix seconds:
/// nothing for the zero pair or for invalid calendar components.
pub open spec fn dos_datetime_spec(dos_date: u16, dos_time: u16) -> Option<u64> {
    if dos_date == 0 && dos_time == 0 {
        None
    } else {
        let y = 1980 + (dos_date >> 9) as int;
        let m = ((dos_date >> 5) & 0x0F) as int;
        let d = (dos_date & 0x1F) as int;
        let h = ((dos_time >> 11) & 0x1F) as int;
        let mi = ((dos_time >> 5) & 0x3F) as int;
        let s = 2 * (dos_time & 0x1F) as int;
        if m == 0 || m > 12 || d == 0 || d > days_in_month(y, m) || h > 23 || mi > 59 || s > 59 {
            None
        } else {
            Some(
                (sub_floor_spec(shifted_day_of_civil(y, m, d), EPOCH_DAY_SHIFT as int) * 86400 + h
                    * 3600 + mi * 60 + s) as u64,
            )
        }
    }
}

impl ShellItem {
    /// Convert a DOS date and time to Unix seconds.
    pub fn dos_datetime_to_utc(dos_date: u16, dos_time: u16) -> (r: Option<u64>)
        ensures
            r == dos_datetime_spec(dos_date, dos_time),
    {
        if dos_date == 0 && dos_time == 0 {
            return None;
        }
        let y: u64 = 1980 + (dos_date >> 9) as u64;
        let m: u64 = ((dos_date >> 5) & 0x0F) as u64;
        let d: u64 = (dos_date & 0x1F) as u64;
        let h: u64 = ((dos_time >> 11) & 0x1F) as u64;
        let mi: u64 = ((dos_time >> 5) & 0x3F) as u64;
        let s: u64 = 2 * ((dos_time & 0x1F) as u64);
        proof {
            assert((dos_date >> 9) < 0x80 && ((dos_date >> 5) & 0x0F) <= 0x0F && (dos_date & 0x1F)
                <= 0x1F && ((dos_time >> 11) & 0x1F) <= 0x1F && ((dos_time >> 5) & 0x3F) <= 0x3F
                && (dos_time & 0x1F) <= 0x1F) by (bit_vector);
        }
        if m == 0 || m > 12 || d == 0 || h > 23 || mi > 59 || s > 59 {
            return None;
        }
        if d > days_in_month_exec(y, m) {
            return None;
        }
        let day = days_from_civil(y, m, d);
        let rel: u64 = if day >= EPOCH_DAY_SHIFT {
            day - EPOCH_DAY_SHIFT
        } else {
            0
        };
        Some(rel * 86400 + h * 3600 + mi * 60 + s)
    }
}

/// The number of days in a month, for DOS date validation.
fn days_in_month_exec(y: u64, m: u64) -> (r: u64)
    requires
        1 <= m <= 12,
    ensures
        r == days_in_month(y as int, m as int),
{
    if m == 1 || m == 3 || m == 5 || m == 7 || m == 8 || m == 10 || m == 12 {
        31
    } else if m == 4 || m == 6 || m == 9 || m == 11 {
        30
    } else if y % 4 == 0 && (y % 100 != 0 || y % 400 == 0) {
        29
    } else {
        28
    }
}

impl ItemIdList {
    /// Parse an item ID list: a two-byte size, then size-prefixed shell
    /// items up to a zero terminator. Named items joined by backslashes
    /// give the full path.
    pub fn parse(data: &[u8]) -> (r: Result<ItemIdList, Error>)
        ensures
            data@.len() < 2 ==> r is Err,
            r matches Ok(l) ==> l.size == le16_at(data@, 0),
    {
        let dl = data.len();
        if dl < 2 {
            return Err(Error::ParseError(String::from_str("IDList too small")));
        }
        let size = read_le16(data, 0);
        if size == 0 {
            return Ok(ItemIdList { size, items: Vec::new(), full_path: None });
        }
        let mut items: Vec<ShellItem> = Vec::new();
        let mut path: String = String::new();
        let mut have_path = false;
        let mut pos: usize = 2;
        while pos < dl && dl - pos >= 2
            invariant
                dl == data@.len(),
                pos <= dl,
            decreases dl - pos,
        {
            let item_size = read_le16(data, pos);
            if item_size == 0 {
                break ;
            }
            if item_size < 2 {
                return Err(Error::ParseError(String::from_str("Invalid shell item size")));
            }
            let body = (item_size - 2) as usize;
            if body > dl - (pos + 2) {
                break ;
            }
            let item_data = vstd::slice::slice_subrange(data, pos + 2, pos + 2 + body);
            let item = match ShellItem::parse(item_size, item_data) {
                Ok(it) => it,
                Err(e) => {
                    return Err(e);
                },
            };
            if let Some(name) = &item.parsed_data.name {
                let nonempty = name.as_str().unicode_len() > 0;
                let is_desktop = crate::strutil::str_eq(name.as_str(), "Desktop");
                if nonempty && !is_desktop {
                    if have_path {
                        path.append("\\");
                    }
                    path.append(name.as_str());
                    have_path = true;
                }
            }
            items.push(item);
            pos = pos + 2 + body;
        }
        let full_path = if have_path {
            Some(path)
        } else {
            None
        };
        Ok(ItemIdList { size, items, full_path })
    }
}

impl ShellItem {
    /// Parse one shell item from its data, size field excluded.
    pub fn parse(size: u16, data: &[u8]) -> (r: Result<ShellItem, Error>)
        ensures
            data@.len() == 0 ==> r is Err,
            r matches Ok(it) ==> data@.len() > 0 && it.item_type == shell_item_type_spec(
                data@[0]) && it.size == size,
    {
        if data.len() == 0 {
            return Err(Error::ParseError(String::from_str("Empty shell item data")));
        }
        let type_indicator = data[0];
        let item_type = ShellItemType::from_type_indicator(type_indicator);
        let parsed_data = match item_type {
            ShellItemType::File => Self::parse_file_entry_item(data),
            ShellItemType::Directory => Self::parse_file_entry_item(data),
            ShellItemType::Volume => Self::parse_volume_item(data),
            ShellItemType::RootFolder => Self::parse_root_folder_item(data),
            ShellItemType::Network => Self::parse_network_item(data),
            _ => {
                let mut d = ShellItemData::default();
                let mut meta: Vec<(String, String)> = Vec::new();
                meta.push(
                    (String::from_str("type"), item_type.kind_name().to_owned()),
                );
                d.metadata = meta;
                Ok(d)
            },
        };
        let parsed_data = match parsed_data {
            Ok(d) => d,
            Err(e) => {
                return Err(e);
            },
        };
        Ok(ShellItem { size, item_type, raw_data: vstd::slice::slice_to_vec(data), parsed_data })
    }

    /// Parse a file or directory entry: a 32-bit size, a DOS modification
    /// stamp, attribute flags and a short name, optionally followed by
    /// extension blocks that carry the long name and FILETIME stamps.
    pub fn parse_file_entry_item(data: &[u8]) -> (r: Result<ShellItemData, Error>)
        ensures
            data@.len() < 14 ==> r is Err,
            r matches Ok(d) ==> d.attributes == Some(le32_at(data@, 9) as u32) && data@.len()
                >= 14,
    {
        let dl = data.len();
        if dl < 14 {
            return Err(Error::ParseError(String::from_str(
                "File entry shell item too small",
            )));
        }
        let file_size_32 = read_le32(data, 1);
        let dos_date = read_le16(data, 5);
        let dos_time = read_le16(data, 7);
        let attributes = read_le32(data, 9);
        // Short name: bytes up to the terminator.
        let mut short_end: usize = 13;
        while short_end < dl && data[short_end] != 0
            invariant
                13 <= short_end <= dl,
                dl == data@.len(),
            decreases dl - short_end,
        {
            short_end = short_end + 1;
        }
        let short_bytes = vstd::slice::slice_subrange(data, 13, short_end);
        let short_name = utf8_lossy(short_bytes);
        let mut modified = Self::dos_datetime_to_utc(dos_date, dos_time);
        // Extension blocks.
        let mut pos: usize = if short_end < dl {
            short_end + 1
        } else {
            dl
        };
        let mut long_name: Option<String> = None;
        let mut created: Option<u64> = None;
        let mut accessed: Option<u64> = None;
        let mut file_size_64: Option<u64> = None;
        let mut block_count: u64 = 0;
        while pos < dl && dl - pos >= 4
            invariant
                dl == data@.len(),
                pos <= dl,
            decreases dl - pos,
        {
            let ext_size = read_le16(data, pos) as usize;
            if ext_size < 8 || ext_size > dl - pos {
                break ;
            }
            let block_data = vstd::slice::slice_subrange(data, pos, pos + ext_size);
            let block = ExtensionBlock::parse(block_data);
            match &block.parsed_data {
                ExtensionData::ExtendedFileInfo {
                    long_name: ln,
                    creation_time: ct,
                    access_time: at,
                    write_time: wt,
                    file_size_64: fs,
                    ..
                } => {
                    if ln.is_some() {
                        long_name = clone_opt_string(ln);
                    }
                    if ct.is_some() {
                        created = *ct;
                    }
                    if at.is_some() {
                        accessed = *at;
                    }
                    if wt.is_some() {
                        modified = *wt;
                    }
                    if fs.is_some() {
                        file_size_64 = *fs;
                    }
                },
                ExtensionData::ExtendedDirInfo {
                    long_name: ln,
                    creation_time: ct,
                    access_time: at,
                    write_time: wt,
                    ..
                } => {
                    if ln.is_some() {
                        long_name = clone_opt_string(ln);
                    }
                    if ct.is_some() {
                        created = *ct;
                    }
                    if at.is_some() {
                        accessed = *at;
                    }
                    if wt.is_some() {
                        modified = *wt;
                    }
                },
                _ => {},
            }
            if block_count < 0xFFFFFFFF {
                block_count = block_count + 1;
            }
            pos = pos + ext_size;
        }
        let name: String = match &long_name {
            Some(ln) => ln.clone(),
            None => short_name.clone(),
        };
        let final_long_name: Option<String> = match &long_name {
            Some(ln) => {
                if crate::strutil::str_eq(ln.as_str(), short_name.as_str()) {
                    None
                } else {
                    Some(ln.clone())
                }
            },
            None => None,
        };
        let mut metadata: Vec<(String, String)> = Vec::new();
        metadata.push((String::from_str("short_name"), short_name));
        metadata.push(
            (String::from_str("extension_blocks"), crate::strutil::u64_to_string(block_count)),
        );
        Ok(ShellItemData {
            name: if name.as_str().unicode_len() == 0 {
                None
            } else {
                Some(name)
            },
            long_name: final_long_name,
            created,
            modified,
            accessed,
            file_size: match file_size_64 {
                Some(v) => Some(v),
                None => Some(file_size_32 as u64),
            },
            attributes: Some(attributes),
            clsid: None,
            metadata,
        })
    }

    /// Parse a volume item: the drive label, when printable, follows the
    /// type byte.
    fn parse_volume_item(data: &[u8]) -> (r: Result<ShellItemData, Error>) {
        let dl = data.len();
        let mut d = ShellItemData::default();
        if dl > 1 {
            let mut end: usize = 1;
            while end < dl && data[end] != 0
                invariant
                    1 <= end <= dl,
                    dl == data@.len(),
                decreases dl - end,
            {
                end = end + 1;
            }
            let label = utf8_lossy(vstd::slice::slice_subrange(data, 1, end));
            if label.as_str().unicode_len() > 0 {
                d.name = Some(label);
            }
        }
        let mut meta: Vec<(String, String)> = Vec::new();
        meta.push((String::from_str("type"), String::from_str("Volume")));
        d.metadata = meta;
        Ok(d)
    }

    /// Parse a root folder item: the class identifier follows the sort
    /// index byte.
    fn parse_root_folder_item(data: &[u8]) -> (r: Result<ShellItemData, Error>) {
        let dl = data.len();
        let mut d = ShellItemData::default();
        if dl >= 18 {
            let mut clsid: Vec<u8> = Vec::new();
            let mut i: usize = 0;
            while i < 16
                invariant
                    i <= 16,
                    dl == data@.len(),
                    dl >= 18,
                decreases 16 - i,
            {
                clsid.push(data[2 + i]);
                i = i + 1;
            }
            d.clsid = Some(clsid);
        }
        let mut meta: Vec<(String, String)> = Vec::new();
        meta.push((String::from_str("type"), String::from_str("RootFolder")));
        d.metadata = meta;
        Ok(d)
    }

    /// Parse a network item: the location string follows the flag bytes.
    fn parse_network_item(data: &[u8]) -> (r: Result<ShellItemData, Error>) {
        let dl = data.len();
        let mut d = ShellItemData::default();
        if dl > 4 {
            let mut end: usize = 4;
            while end < dl && data[end] != 0
                invariant
                    4 <= end <= dl,
                    dl == data@.len(),
                decreases dl - end,
            {
                end = end + 1;
            }
            let name = utf8_lossy(vstd::slice::slice_subrange(data, 4, end));
            d.name = Some(name);
        } else {
            d.name = Some(String::from_str("Network Location"));
        }
        let mut meta: Vec<(String, String)> = Vec::new();
        meta.push((String::from_str("type"), String::from_str("Network")));
        d.metadata = meta;
        Ok(d)
    }
}

/// Copy an optional string.
fn clone_opt_string(s: &Option<String>) -> (r: Option<String>)
    ensures
        match r {
            Some(v) => s matches Some(w) && v@ == w@,
            None => s is None,
        },
{
    match s {
        Some(v) => Some(v.clone()),
        None => None,
    }
}

impl ExtensionBlock {
    /// Parse one extension block from its full bytes (size field first).
    /// Blocks that are not extended file or directory information stay
    /// unknown.
    pub fn parse(data: &[u8]) -> (r: ExtensionBlock)
        requires
            data@.len() >= 8,
    {
        let size = read_le16(data, 0);
        let version = read_le16(data, 2);
        let signature = read_le32(data, 4);
        let body = vstd::slice::slice_to_vec(vstd::slice::slice_subrange(data, 8, data.len()));
        let parsed_data: ExtensionData = if signature == 0xBEEF0004 {
            Self::parse_extended_info(&body, true)
        } else if signature == 0xBEEF0005 {
            Self::parse_extended_info(&body, false)
        } else if signature == 0xBEEF0006 {
            ExtensionData::PropertyStore(clone_bytes(&body))
        } else {
            ExtensionData::Unknown(clone_bytes(&body))
        };
        ExtensionBlock { size, version, signature, data: body, parsed_data }
    }

    /// Parse extended file or directory information: three FILETIMEs at
    /// byte 16, the 64-bit size for files, then the UTF-16 long name.
    fn parse_extended_info(body: &Vec<u8>, is_file: bool) -> (r: ExtensionData) {
        let bl = body.len();
        if bl < 26 {
            return ExtensionData::Unknown(clone_bytes(body));
        }
        let file_size_64: Option<u64> = if is_file {
            let v = read_le64(body.as_slice(), 8);
            if v == 0 {
                None
            } else {
                Some(v)
            }
        } else {
            None
        };
        let creation_time = if bl >= 24 {
            convert_filetime_secs(read_le64(body.as_slice(), 16))
        } else {
            None
        };
        let access_time = if bl >= 32 {
            convert_filetime_secs(read_le64(body.as_slice(), 24))
        } else {
            None
        };
        let write_time = if bl >= 40 {
            convert_filetime_secs(read_le64(body.as_slice(), 32))
        } else {
            None
        };
        // Long name: UTF-16 units from byte 40 to the terminator.
        let mut long_name: Option<String> = None;
        if bl >= 42 {
            let mut end: usize = 40;
            while end < bl && bl - end >= 2 && !(body[end] == 0 && body[end + 1] == 0)
                invariant
                    40 <= end <= bl,
                    bl == body@.len(),
                decreases bl - end,
            {
                end = end + 2;
            }
            if end > 40 {
                let name_bytes = vstd::slice::slice_subrange(body.as_slice(), 40, end);
                let units = utf16_units(name_bytes);
                let s = utf16_lossy(units.as_slice());
                if s.as_str().unicode_len() > 0 {
                    long_name = Some(s);
                }
            }
        }
        if is_file {
            ExtensionData::ExtendedFileInfo {
                long_name,
                creation_time,
                access_time,
                write_time,
                file_size_64,
                localized_name: None,
            }
        } else {
            ExtensionData::ExtendedDirInfo {
                long_name,
                creation_time,
                access_time,
                write_time,
                localized_name: None,
            }
        }
    }
}

/// Copy a byte vector.
fn clone_bytes(v: &Vec<u8>) -> (r: Vec<u8>)
    ensures
        r@ == v@,
{
    vstd::slice::slice_to_vec(v.as_slice())
}

} // verus!
