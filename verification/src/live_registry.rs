//! Live registry value decoding and the live-access stub.
//!
//! Reading a live registry needs an operating system handle, which this
//! library does not open; the accessor here reports that plainly, while
//! the pure value decoders below work on bytes any caller hands in.

use vstd::prelude::*;
use crate::error::Error;
use crate::strutil::{read_le32, read_le64, utf8_lossy, utf16_lossy, utf16_units, u64_to_string,
    push_dec};
use crate::jumplist::RegistryMruEntry;
use crate::property_store::push_hex2;

verus! {

/// Live registry accessor. Without an operating system handle every read
/// reports that live access is unavailable.
pub struct LiveRegistryAccess;

/// A registry value with metadata.
#[derive(Debug, Clone)]
pub struct LiveRegistryValue {
    /// Value name.
    pub name: String,
    /// Value type tag.
    pub value_type: u32,
    /// Raw data.
    pub data: Vec<u8>,
    /// Parsed textual form, when one exists.
    pub parsed_data: Option<String>,
    /// Size in bytes.
    pub size: u32,
}

/// A registry key with its values and subkey names.
#[derive(Debug, Clone)]
pub struct LiveRegistryKey {
    /// Key path.
    pub path: String,
    /// Values in this key.
    pub values: Vec<LiveRegistryValue>,
    /// Subkey names.
    pub subkeys: Vec<String>,
    /// Last write time, in whole-second ticks.
    pub last_write_time: Option<u64>,
}

impl LiveRegistryAccess {
    /// Create a new live registry accessor.
    pub fn new() -> (r: Self) {
        LiveRegistryAccess
    }

    /// Live MRU enumeration needs an operating system handle.
    pub fn get_live_mru_entries(&mut self) -> (r: Result<Vec<RegistryMruEntry>, Error>)
        ensures
            r is Err && (r matches Err(e) ==> e is Generic),
    {
        Err(Error::Generic(String::from_str(
            "Live registry access is only available on Windows",
        )))
    }

    /// Live key reads need an operating system handle.
    pub fn read_registry_key(&mut self, _key_path: &str) -> (r: Result<LiveRegistryKey, Error>)
        ensures
            r is Err && (r matches Err(e) ==> e is Generic),
    {
        Err(Error::Generic(String::from_str(
            "Live registry access is only available on Windows",
        )))
    }

    /// The current user identifier needs an operating system handle.
    pub fn get_current_user_sid(&self) -> (r: Result<String, Error>)
        ensures
            r is Err && (r matches Err(e) ==> e is Generic),
    {
        Err(Error::Generic(String::from_str(
            "Live registry access is only available on Windows",
        )))
    }

    /// Without live access no key exists.
    pub fn key_exists(&self, _key_path: &str) -> (r: bool)
        ensures
            !r,
    {
        false
    }

    /// Parse a UTF-16 string from registry data: nothing for short or
    /// odd-length buffers, else the units up to the terminator, lossily
    /// decoded; an empty text is nothing.
    pub fn parse_unicode_string(data: &[u8]) -> (r: Option<String>) {
        let dl = data.len();
        if dl < 2 || dl % 2 != 0 {
            return None;
        }
        let units = utf16_units(data);
        let ul = units.len();
        let mut end: usize = 0;
        while end < ul && units[end] != 0
            invariant
                end <= ul,
                ul == units@.len(),
            decreases ul - end,
        {
            end = end + 1;
        }
        if end == 0 {
            return None;
        }
        let s = utf16_lossy(vstd::slice::slice_subrange(units.as_slice(), 0, end));
        Some(s)
    }

    /// Parse a single-byte string from registry data: the bytes up to the
    /// terminator, lossily decoded and trimmed of leading and trailing
    /// ASCII whitespace; an empty text is nothing.
    pub fn parse_ansi_string(data: &[u8]) -> (r: Option<String>) {
        let dl = data.len();
        let mut end: usize = 0;
        while end < dl && data[end] != 0
            invariant
                end <= dl,
                dl == data@.len(),
            decreases dl - end,
        {
            end = end + 1;
        }
        let mut start: usize = 0;
        while start < end && data[start] <= 32
            invariant
                start <= end <= dl,
                dl == data@.len(),
            decreases end - start,
        {
            start = start + 1;
        }
        let mut last = end;
        while last > start && data[last - 1] <= 32
            invariant
                start <= last <= end <= dl,
                dl == data@.len(),
            decreases last,
        {
            last = last - 1;
        }
        if start >= last {
            return None;
        }
        Some(utf8_lossy(vstd::slice::slice_subrange(data, start, last)))
    }

    /// Parse a registry value's data to text by its type tag: strings and
    /// multi-strings decode as UTF-16, numbers render in decimal, binary
    /// data renders as a hex preview.
    pub fn parse_registry_value(data: &[u8], value_type: u32) -> (r: Option<String>) {
        if value_type == 1 || value_type == 2 {
            return Self::parse_unicode_string(data);
        }
        if value_type == 7 {
            // Multi-string: pieces separated by terminators.
            let units = utf16_units(data);
            let ul = units.len();
            let mut out = String::new();
            let mut have = false;
            let mut i: usize = 0;
            while i < ul
                invariant
                    i <= ul,
                    ul == units@.len(),
                decreases ul - i,
            {
                let mut j = i;
                while j < ul && units[j] != 0
                    invariant
                        i <= j <= ul,
                        ul == units@.len(),
                    decreases ul - j,
                {
                    j = j + 1;
                }
                if j > i {
                    let piece = utf16_lossy(
                        vstd::slice::slice_subrange(units.as_slice(), i, j),
                    );
                    if have {
                        out.append("; ");
                    }
                    out.append(piece.as_str());
                    have = true;
                }
                if j < ul {
                    i = j + 1;
                } else {
                    i = ul;
                }
            }
            if have {
                return Some(out);
            }
            return None;
        }
        if value_type == 4 {
            if data.len() >= 4 {
                let v = read_le32(data, 0);
                return Some(u64_to_string(v as u64));
            }
            return None;
        }
        if value_type == 11 {
            if data.len() >= 8 {
                let v = read_le64(data, 0);
                return Some(u64_to_string(v));
            }
            return None;
        }
        if value_type == 3 {
            let dl = data.len();
            let mut s = String::from_str("Binary (");
            push_dec(&mut s, dl as u64);
            s.append(" bytes):");
            let take: usize = if dl < 16 {
                dl
            } else {
                16
            };
            let mut i: usize = 0;
            while i < take
                invariant
                    i <= take,
                    take <= data@.len(),
                decreases take - i,
            {
                s.push(' ');
                push_hex2(&mut s, data[i]);
                i = i + 1;
            }
            return Some(s);
        }
        None
    }
}

impl Default for LiveRegistryAccess {
    /// The default accessor.
    fn default() -> (r: Self) {
        LiveRegistryAccess::new()
    }
}

} // verus!
