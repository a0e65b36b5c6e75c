//! Registry hive decoding: the hive header and the hive-level timeline
//! event it yields.

use vstd::prelude::*;
use vstd::string::StringSliceAdditionalSpecFns;
use crate::error::Error;
use crate::strutil::{le32_at, le64_at, read_le32, read_le64, to_lower_bytes, find_bytes,
    lower_bytes, contains_bytes, bytes_eq};
use crate::datetime::{filetime_secs_ticks_spec, convert_filetime_secs_ticks};
use crate::types::EventTimestamps;

verus! {

/// A timeline event extracted from a registry hive.
#[derive(Debug, Clone)]
pub struct RegistryTimelineEvent {
    /// Registry key path.
    pub key_path: String,
    /// Value name, when the event concerns a value.
    pub value_name: Option<String>,
    /// Event kind.
    pub event_type: RegistryEventType,
    /// Value type, when the event concerns a value.
    pub value_type: Option<RegistryValueType>,
    /// Raw data.
    pub data: Option<Vec<u8>>,
    /// Data size.
    pub data_size: Option<u32>,
    /// Timestamps, in whole-second ticks.
    pub timestamps: EventTimestamps,
}

/// Registry event kinds.
#[derive(Debug, Clone, Copy, PartialEq, Eq, Structural)]
pub enum RegistryEventType {
    /// Key creation or modification.
    KeyModified,
    /// Value set or modified.
    ValueSet,
    /// MRU list entry.
    MruEntry,
    /// Shell bag entry.
    ShellBag,
    /// Run key entry.
    RunEntry,
    /// Recent document.
    RecentDoc,
    /// Search history.
    SearchHistory,
}

/// Registry hive kinds.
#[derive(Debug, Clone, Copy, PartialEq, Eq, Structural)]
pub enum HiveType {
    /// NTUSER.DAT user hive.
    NtUser,
    /// SYSTEM hive.
    System,
    /// SOFTWARE hive.
    Software,
    /// SAM hive.
    Sam,
    /// SECURITY hive.
    Security,
    /// Unknown hive.
    Unknown,
}

/// A decoded registry hive.
#[derive(Debug)]
pub struct RegistryHive {
    /// The hive header.
    pub header: HiveHeader,
    /// The root key, when decoded.
    pub root_key: Option<RegistryKey>,
    /// The hive's file path.
    pub file_path: String,
    /// The hive kind.
    pub hive_type: HiveType,
}

/// Registry hive header fields.
#[derive(Debug, Clone)]
pub struct HiveHeader {
    /// Signature bytes; a valid hive reads "regf".
    pub signature: Vec<u8>,
    /// Primary sequence number.
    pub primary_sequence: u32,
    /// Secondary sequence number.
    pub secondary_sequence: u32,
    /// Last written timestamp (FILETIME).
    pub last_written: u64,
    /// Major version.
    pub major_version: u32,
    /// Minor version.
    pub minor_version: u32,
    /// File type.
    pub file_type: u32,
    /// File format.
    pub file_format: u32,
    /// Root cell offset.
    pub root_cell_offset: u32,
    /// Hive size.
    pub hive_size: u32,
    /// Clustering factor.
    pub clustering_factor: u32,
    /// Embedded file name, when present.
    pub file_name: Option<String>,
}

/// A registry key.
#[derive(Debug)]
pub struct RegistryKey {
    /// Key name.
    pub name: String,
    /// Key path.
    pub path: String,
    /// Last written time, in whole-second ticks.
    pub last_written: Option<u64>,
    /// Subkeys.
    pub subkeys: Vec<RegistryKey>,
    /// Values.
    pub values: Vec<RegistryValue>,
    /// Key class name.
    pub class_name: Option<String>,
    /// Security descriptor bytes.
    pub security_descriptor: Option<Vec<u8>>,
}

/// A registry value.
#[derive(Debug, Clone)]
pub struct RegistryValue {
    /// Value name.
    pub name: String,
    /// Value type.
    pub value_type: RegistryValueType,
    /// Raw data.
    pub data: Vec<u8>,
    /// Parsed textual form, when one exists.
    pub parsed_data: Option<String>,
    /// Data size.
    pub data_size: u32,
}

/// Registry value types.
#[derive(Debug, Clone, Copy, PartialEq, Eq, Structural)]
pub enum RegistryValueType {
    RegNone,
    RegSz,
    ExpandSz,
    Binary,
    Dword,
    DwordBigEndian,
    Link,
    MultiSz,
    ResourceList,
    FullResourceDescriptor,
    ResourceRequirementsList,
    Qword,
    Unrecognised(u32),
}

/// The number of 100 ns ticks from 1601-01-01 to the Unix epoch.
pub const REGISTRY_FILETIME_EPOCH: u64 = 116444736000000000;

/// The hive kind a lower-cased path names, by its markers.
pub open spec fn hive_type_spec(lf: Seq<u8>) -> HiveType {
    if contains_bytes(lf, "ntuser".spec_bytes()) {
        HiveType::NtUser
    } else if contains_bytes(lf, "system".spec_bytes()) {
        HiveType::System
    } else if contains_bytes(lf, "software".spec_bytes()) {
        HiveType::Software
    } else if contains_bytes(lf, "sam".spec_bytes()) {
        HiveType::Sam
    } else if contains_bytes(lf, "security".spec_bytes()) {
        HiveType::Security
    } else {
        HiveType::Unknown
    }
}

/// Registry parser for hive files.
pub struct RegistryParser {
    /// FILETIME epoch difference, in 100 ns ticks.
    pub filetime_epoch_diff: u64,
}

impl RegistryParser {
    /// Create a new registry parser.
    pub fn new() -> (r: Self)
        ensures
            r.filetime_epoch_diff == REGISTRY_FILETIME_EPOCH,
    {
        RegistryParser { filetime_epoch_diff: REGISTRY_FILETIME_EPOCH }
    }

    /// Convert a FILETIME to whole-second ticks since the Unix epoch.
    pub fn filetime_to_datetime(&self, filetime: u64) -> (r: Option<u64>)
        ensures
            r == filetime_secs_ticks_spec(filetime),
    {
        convert_filetime_secs_ticks(filetime)
    }

    /// Parse a hive from bytes and its file name: the header is decoded
    /// exactly, and the hive kind follows the file name's markers.
    pub fn parse_registry_data(&self, data: &[u8], filename: &str) -> (r: Result<
        RegistryHive,
        Error,
    >)
        ensures
            r is Ok <==> data@.len() >= 48 && data@.subrange(0, 4) == "regf".spec_bytes(),
            r matches Ok(h) ==> data@.len() >= 48 && h.header.last_written == le64_at(data@, 12)
                && h.header.root_cell_offset == le32_at(data@, 36) && h.header.hive_size
                == le32_at(data@, 40) && h.hive_type == hive_type_spec(
                lower_bytes(filename.spec_bytes())) && h.root_key is None,
            r matches Err(e) ==> e is InvalidInput,
    {
        if data.len() < 32 {
            return Err(Error::InvalidInput(String::from_str("Registry file too small")));
        }
        let header = match self.parse_hive_header(data) {
            Ok(h) => h,
            Err(e) => {
                return Err(e);
            },
        };
        let lf = to_lower_bytes(filename.as_bytes());
        let hive_type = if find_bytes(lf.as_slice(), "ntuser".as_bytes()) {
            HiveType::NtUser
        } else if find_bytes(lf.as_slice(), "system".as_bytes()) {
            HiveType::System
        } else if find_bytes(lf.as_slice(), "software".as_bytes()) {
            HiveType::Software
        } else if find_bytes(lf.as_slice(), "sam".as_bytes()) {
            HiveType::Sam
        } else if find_bytes(lf.as_slice(), "security".as_bytes()) {
            HiveType::Security
        } else {
            HiveType::Unknown
        };
        Ok(RegistryHive { header, root_key: None, file_path: filename.to_owned(), hive_type })
    }

    /// Extract timeline events from a hive: one hive-level event carrying
    /// the last-written time.
    pub fn extract_timeline_events(&self, hive: &RegistryHive) -> (r: Result<
        Vec<RegistryTimelineEvent>,
        Error,
    >)
        ensures
            r matches Ok(v) ==> v@.len() == 1 && v@[0].timestamps.created
                == filetime_secs_ticks_spec(hive.header.last_written)
                && v@[0].timestamps.modified == filetime_secs_ticks_spec(
                hive.header.last_written) && v@[0].data_size == Some(hive.header.hive_size),
            r is Ok,
    {
        let mut events: Vec<RegistryTimelineEvent> = Vec::new();
        events.push(
            RegistryTimelineEvent {
                key_path: String::from_str("ROOT"),
                value_name: None,
                event_type: RegistryEventType::KeyModified,
                value_type: None,
                data: None,
                data_size: Some(hive.header.hive_size),
                timestamps: EventTimestamps {
                    created: convert_filetime_secs_ticks(hive.header.last_written),
                    modified: convert_filetime_secs_ticks(hive.header.last_written),
                    accessed: None,
                    mft_modified: None,
                },
            },
        );
        Ok(events)
    }

    /// Parse the hive header: the "regf" signature, sequence numbers,
    /// last-written time and layout fields.
    fn parse_hive_header(&self, data: &[u8]) -> (r: Result<HiveHeader, Error>)
        ensures
            r is Ok <==> data@.len() >= 48 && data@.subrange(0, 4) == "regf".spec_bytes(),
            r matches Ok(h) ==> data@.len() >= 48 && h.signature@ == data@.subrange(0, 4)
                && h.last_written == le64_at(data@, 12) && h.root_cell_offset == le32_at(data@, 36)
                && h.hive_size == le32_at(data@, 40),
            r matches Err(e) ==> e is InvalidInput,
    {
        let dl = data.len();
        if dl < 48 {
            return Err(Error::InvalidInput(String::from_str("Registry file too small")));
        }
        let sig = vstd::slice::slice_subrange(data, 0, 4);
        if !bytes_eq(sig, "regf".as_bytes()) {
            return Err(Error::InvalidInput(String::from_str("Invalid registry signature")));
        }
        Ok(HiveHeader {
            signature: vstd::slice::slice_to_vec(sig),
            primary_sequence: read_le32(data, 4),
            secondary_sequence: read_le32(data, 8),
            last_written: read_le64(data, 12),
            major_version: read_le32(data, 20),
            minor_version: read_le32(data, 24),
            file_type: read_le32(data, 28),
            file_format: read_le32(data, 32),
            root_cell_offset: read_le32(data, 36),
            hive_size: read_le32(data, 40),
            clustering_factor: read_le32(data, 44),
            file_name: None,
        })
    }
}

impl Default for RegistryParser {
    /// The default parser.
    fn default() -> (r: Self)
        ensures
            r.filetime_epoch_diff == REGISTRY_FILETIME_EPOCH,
    {
        RegistryParser::new()
    }
}

} // verus!
