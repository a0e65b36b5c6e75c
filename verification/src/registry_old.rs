//! Earlier-generation registry hive decoding kept for its MRU and shell
//! bag catalogue: hive kind detection, value type decoding and the MRU
//! location table.

use vstd::prelude::*;
use vstd::string::StringSliceAdditionalSpecFns;
use crate::error::Error;
use crate::strutil::{le32_at, le64_at, read_le32, read_le64, to_lower_bytes, find_bytes,
    lower_bytes, contains_bytes, bytes_eq};
use crate::datetime::{filetime_secs_ticks_spec, convert_filetime_secs_ticks};

verus! {

/// Registry event kinds.
#[derive(Debug, Clone, Copy, PartialEq, Eq, Structural)]
pub enum RegistryEventType {
    KeyModified,
    ValueSet,
    MruEntry,
    ShellBag,
    RunEntry,
    RecentDoc,
    SearchHistory,
}

/// Registry hive kinds.
#[derive(Debug, Clone, Copy, PartialEq, Eq, Structural)]
pub enum HiveType {
    /// NTUSER.DAT user hive.
    NtUser,
    /// SYSTEM hive.
    System,
    /// SOFTWARE hive.
    Software,
    /// SAM hive.
    Sam,
    /// SECURITY hive.
    Security,
    /// Unknown hive.
    Unknown,
}

/// Registry hive header fields.
#[derive(Debug, Clone)]
pub struct HiveHeader {
    pub signature: Vec<u8>,
    pub primary_sequence: u32,
    pub secondary_sequence: u32,
    pub last_written: u64,
    pub major_version: u32,
    pub minor_version: u32,
    pub file_type: u32,
    pub file_format: u32,
    pub root_cell_offset: u32,
    pub hive_size: u32,
    pub clustering_factor: u32,
    pub file_name: Option<String>,
}

/// A registry key.
#[derive(Debug)]
pub struct RegistryKey {
    pub name: String,
    pub path: String,
    pub last_written: Option<u64>,
    pub subkeys: Vec<RegistryKey>,
    pub values: Vec<RegistryValue>,
    pub class_name: Option<String>,
    pub security_descriptor: Option<Vec<u8>>,
}

/// A registry value.
#[derive(Debug, Clone)]
pub struct RegistryValue {
    pub name: String,
    pub value_type: RegistryValueType,
    pub data: Vec<u8>,
    pub parsed_data: Option<String>,
    pub data_size: u32,
}

/// Registry value types, as their on-disk tags decode.
#[derive(Debug, Clone, Copy, PartialEq, Eq, Structural)]
pub enum RegistryValueType {
    RegNone,
    RegSz,
    ExpandSz,
    Binary,
    Dword,
    DwordBigEndian,
    Link,
    MultiSz,
    ResourceList,
    FullResourceDescriptor,
    ResourceRequirementsList,
    Qword,
    Unrecognised(u32),
}

/// The value type a tag denotes.
pub open spec fn value_type_spec(value: u32) -> RegistryValueType {
    if value == 0 {
        RegistryValueType::RegNone
    } else if value == 1 {
        RegistryValueType::RegSz
    } else if value == 2 {
        RegistryValueType::ExpandSz
    } else if value == 3 {
        RegistryValueType::Binary
    } else if value == 4 {
        RegistryValueType::Dword
    } else if value == 5 {
        RegistryValueType::DwordBigEndian
    } else if value == 6 {
        RegistryValueType::Link
    } else if value == 7 {
        RegistryValueType::MultiSz
    } else if value == 8 {
        RegistryValueType::ResourceList
    } else if value == 9 {
        RegistryValueType::FullResourceDescriptor
    } else if value == 10 {
        RegistryValueType::ResourceRequirementsList
    } else if value == 11 {
        RegistryValueType::Qword
    } else {
        RegistryValueType::Unrecognised(value)
    }
}

impl From<u32> for RegistryValueType {
    /// Decode a value type tag.
    fn from(value: u32) -> (r: Self) {
        if value == 0 {
            RegistryValueType::RegNone
        } else if value == 1 {
            RegistryValueType::RegSz
        } else if value == 2 {
            RegistryValueType::ExpandSz
        } else if value == 3 {
            RegistryValueType::Binary
        } else if value == 4 {
            RegistryValueType::Dword
        } else if value == 5 {
            RegistryValueType::DwordBigEndian
        } else if value == 6 {
            RegistryValueType::Link
        } else if value == 7 {
            RegistryValueType::MultiSz
        } else if value == 8 {
            RegistryValueType::ResourceList
        } else if value == 9 {
            RegistryValueType::FullResourceDescriptor
        } else if value == 10 {
            RegistryValueType::ResourceRequirementsList
        } else if value == 11 {
            RegistryValueType::Qword
        } else {
            RegistryValueType::Unrecognised(value)
        }
    }
}

impl vstd::std_specs::convert::FromSpecImpl<u32> for RegistryValueType {
    open spec fn obeys_from_spec() -> bool {
        true
    }

    open spec fn from_spec(value: u32) -> Self {
        value_type_spec(value)
    }
}

/// An MRU (most recently used) entry.
#[derive(Debug, Clone)]
pub struct MruEntry {
    /// MRU key path.
    pub key_path: String,
    /// Entry index.
    pub index: u32,
    /// Raw entry data.
    pub data: Vec<u8>,
    /// Parsed path or name.
    pub parsed_value: Option<String>,
    /// Last access time, in whole-second ticks.
    pub last_access: Option<u64>,
    /// The MRU kind.
    pub mru_type: MruType,
}

/// MRU entry kinds.
#[derive(Debug, Clone, Copy, PartialEq, Eq, Structural)]
pub enum MruType {
    RecentDocs,
    BagMru,
    OpenSavePidlMru,
    LastVisitedPidlMru,
    WordWheelQuery,
    JumplistData,
    RecentApps,
    TaskBand,
    StartPage,
    LockScreen,
    Unknown,
}

/// A shell bag entry.
#[derive(Debug, Clone)]
pub struct ShellBag {
    /// Bag key path.
    pub key_path: String,
    /// Bag identifier.
    pub bag_id: u32,
    /// Raw shell item data.
    pub shell_item_data: Vec<u8>,
    /// Parsed path.
    pub path: Option<String>,
    /// Folder size.
    pub folder_size: Option<u64>,
    /// Last access time, in whole-second ticks.
    pub last_access: Option<u64>,
}

/// A decoded registry hive.
#[derive(Debug)]
pub struct RegistryHive {
    pub header: HiveHeader,
    pub root_key: Option<RegistryKey>,
    pub file_path: String,
    pub hive_type: HiveType,
}

/// The hive kind a lower-cased path names; the NTUSER marker carries its
/// extension here.
pub open spec fn hive_type_of_path(lf: Seq<u8>) -> HiveType {
    if contains_bytes(lf, "ntuser.dat".spec_bytes()) {
        HiveType::NtUser
    } else if contains_bytes(lf, "system".spec_bytes()) {
        HiveType::System
    } else if contains_bytes(lf, "software".spec_bytes()) {
        HiveType::Software
    } else if contains_bytes(lf, "sam".spec_bytes()) {
        HiveType::Sam
    } else if contains_bytes(lf, "security".spec_bytes()) {
        HiveType::Security
    } else {
        HiveType::Unknown
    }
}

impl RegistryHive {
    /// Determine the hive kind from its file path.
    pub fn determine_hive_type(file_path: &str) -> (r: HiveType)
        ensures
            r == hive_type_of_path(lower_bytes(file_path.spec_bytes())),
    {
        let lf = to_lower_bytes(file_path.as_bytes());
        if find_bytes(lf.as_slice(), "ntuser.dat".as_bytes()) {
            HiveType::NtUser
        } else if find_bytes(lf.as_slice(), "system".as_bytes()) {
            HiveType::System
        } else if find_bytes(lf.as_slice(), "software".as_bytes()) {
            HiveType::Software
        } else if find_bytes(lf.as_slice(), "sam".as_bytes()) {
            HiveType::Sam
        } else if find_bytes(lf.as_slice(), "security".as_bytes()) {
            HiveType::Security
        } else {
            HiveType::Unknown
        }
    }

    /// Parse a hive from bytes: the header exactly, the kind from the
    /// path, and a placeholder root key when the header points at one.
    pub fn parse(data: &[u8], file_path: String) -> (r: Result<RegistryHive, Error>)
        ensures
            data@.len() < 48 ==> r is Err,
            r matches Ok(h) ==> data@.len() >= 48 && h.header.last_written == le64_at(data@, 12)
                && h.hive_type == hive_type_of_path(lower_bytes(vstd::utf8::encode_utf8(file_path@))),
    {
        let dl = data.len();
        if dl < 48 {
            return Err(Error::ParseError(String::from_str("Registry hive too small")));
        }
        let sig = vstd::slice::slice_subrange(data, 0, 4);
        if !bytes_eq(sig, "regf".as_bytes()) {
            return Err(Error::ParseError(String::from_str(
                "Invalid registry hive signature",
            )));
        }
        let header = HiveHeader {
            signature: vstd::slice::slice_to_vec(sig),
            primary_sequence: read_le32(data, 4),
            secondary_sequence: read_le32(data, 8),
            last_written: read_le64(data, 12),
            major_version: read_le32(data, 20),
            minor_version: read_le32(data, 24),
            file_type: read_le32(data, 28),
            file_format: read_le32(data, 32),
            root_cell_offset: read_le32(data, 36),
            hive_size: read_le32(data, 40),
            clustering_factor: read_le32(data, 44),
            file_name: None,
        };
        let hive_type = Self::determine_hive_type(file_path.as_str());
        let root_key: Option<RegistryKey> = if header.root_cell_offset > 0 {
            Some(
                RegistryKey {
                    name: String::from_str("Root"),
                    path: String::from_str("Root"),
                    last_written: None,
                    subkeys: Vec::new(),
                    values: Vec::new(),
                    class_name: None,
                    security_descriptor: None,
                },
            )
        } else {
            None
        };
        Ok(RegistryHive { header, root_key, file_path, hive_type })
    }
}

/// Registry parser of this generation.
pub struct RegistryParser {
    /// FILETIME epoch difference, in 100 ns ticks.
    pub filetime_epoch_diff: u64,
}

impl RegistryParser {
    /// Create a new registry parser.
    pub fn new() -> (r: Self)
        ensures
            r.filetime_epoch_diff == 116444736000000000u64,
    {
        RegistryParser { filetime_epoch_diff: 116444736000000000 }
    }

    /// Convert a FILETIME to whole-second ticks since the Unix epoch.
    pub fn filetime_to_datetime(&self, filetime: u64) -> (r: Option<u64>)
        ensures
            r == filetime_secs_ticks_spec(filetime),
    {
        convert_filetime_secs_ticks(filetime)
    }
}

/// The known MRU registry locations of an NTUSER.DAT hive: exactly the
/// fixed list of `mru_location_texts`.
pub fn get_ntuser_mru_locations() -> (r: Vec<&'static str>)
    ensures
        r@.map_values(|s: &'static str| s@) == crate::jumplist::mru_location_texts(),
        r@.len() == 20,
{
    crate::jumplist::get_mru_locations()
}

} // verus!
