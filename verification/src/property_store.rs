//! Property store helpers: GUID and key formatting, type sizes and the
//! known property description table. The store's full decoding lives with
//! the outside shell-item tooling and is not re-implemented here.

use vstd::prelude::*;
use crate::strutil::{dec_of, push_dec};
use std::collections::HashMap;

verus! {

/// Property store header fields.
#[derive(Debug, Clone)]
pub struct PropertyStoreHeader {
    /// Total size of the store.
    pub size: u32,
    /// Store version.
    pub version: u32,
    /// Format identifier (GUID bytes).
    pub format_id: Vec<u8>,
}

/// The character of one upper-case hex digit.
pub open spec fn hex_digit(d: int) -> char {
    if d == 0 {
        '0'
    } else if d == 1 {
        '1'
    } else if d == 2 {
        '2'
    } else if d == 3 {
        '3'
    } else if d == 4 {
        '4'
    } else if d == 5 {
        '5'
    } else if d == 6 {
        '6'
    } else if d == 7 {
        '7'
    } else if d == 8 {
        '8'
    } else if d == 9 {
        '9'
    } else if d == 10 {
        'A'
    } else if d == 11 {
        'B'
    } else if d == 12 {
        'C'
    } else if d == 13 {
        'D'
    } else if d == 14 {
        'E'
    } else {
        'F'
    }
}

/// Two upper-case hex digits of a byte.
pub open spec fn hex2(b: u8) -> Seq<char> {
    seq![hex_digit(b as int / 16), hex_digit(b as int % 16)]
}

/// The canonical GUID text of sixteen bytes: the first three groups are
/// read little-endian, the last two big-endian, in upper-case hex.
pub open spec fn guid_text(g: Seq<u8>) -> Seq<char> {
    hex2(g[3]) + hex2(g[2]) + hex2(g[1]) + hex2(g[0]) + seq!['-'] + hex2(g[5]) + hex2(g[4]) + seq![
        '-',
    ] + hex2(g[7]) + hex2(g[6]) + seq!['-'] + hex2(g[8]) + hex2(g[9]) + seq!['-'] + hex2(g[10])
        + hex2(g[11]) + hex2(g[12]) + hex2(g[13]) + hex2(g[14]) + hex2(g[15])
}

/// The character of one hex digit value.
fn hex_char(d: u8) -> (c: char)
    requires
        d < 16,
    ensures
        c == hex_digit(d as int),
{
    match d {
        0 => '0',
        1 => '1',
        2 => '2',
        3 => '3',
        4 => '4',
        5 => '5',
        6 => '6',
        7 => '7',
        8 => '8',
        9 => '9',
        10 => 'A',
        11 => 'B',
        12 => 'C',
        13 => 'D',
        14 => 'E',
        _ => 'F',
    }
}

/// Append a byte as two upper-case hex digits.
pub fn push_hex2(s: &mut String, b: u8)
    ensures
        final(s)@ == old(s)@ + hex2(b),
{
    s.push(hex_char(b / 16));
    s.push(hex_char(b % 16));
    proof {
        assert(old(s)@ + hex2(b) =~= old(s)@.push(hex_digit(b as int / 16)).push(
            hex_digit(b as int % 16)));
    }
}

/// Format sixteen GUID bytes as canonical upper-case text.
pub fn format_guid(guid: &[u8]) -> (r: String)
    requires
        guid@.len() == 16,
    ensures
        r@ == guid_text(guid@),
{
    let mut s = String::new();
    push_hex2(&mut s, guid[3]);
    push_hex2(&mut s, guid[2]);
    push_hex2(&mut s, guid[1]);
    push_hex2(&mut s, guid[0]);
    s.push('-');
    push_hex2(&mut s, guid[5]);
    push_hex2(&mut s, guid[4]);
    s.push('-');
    push_hex2(&mut s, guid[7]);
    push_hex2(&mut s, guid[6]);
    s.push('-');
    push_hex2(&mut s, guid[8]);
    push_hex2(&mut s, guid[9]);
    s.push('-');
    push_hex2(&mut s, guid[10]);
    push_hex2(&mut s, guid[11]);
    push_hex2(&mut s, guid[12]);
    push_hex2(&mut s, guid[13]);
    push_hex2(&mut s, guid[14]);
    push_hex2(&mut s, guid[15]);
    proof {
        assert(s@ =~= guid_text(guid@));
    }
    s
}

/// The index key of a property: the GUID text, a backslash and the
/// decimal property identifier.
pub open spec fn property_key_text(g: Seq<u8>, property_id: u32) -> Seq<char> {
    guid_text(g) + seq!['\\'] + dec_of(property_id as int)
}

/// Build the index key of a property.
pub fn make_property_key(format_id: &[u8], property_id: u32) -> (r: String)
    requires
        format_id@.len() == 16,
    ensures
        r@ == property_key_text(format_id@, property_id),
{
    let mut s = format_guid(format_id);
    s.push('\\');
    push_dec(&mut s, property_id as u64);
    proof {
        assert(s@ =~= property_key_text(format_id@, property_id));
    }
    s
}

/// The fixed byte size of a basic property type; zero for variable-sized
/// types.
pub open spec fn type_size_spec(prop_type: u16) -> int {
    if prop_type == 2 || prop_type == 18 || prop_type == 11 {
        2
    } else if prop_type == 3 || prop_type == 19 || prop_type == 4 {
        4
    } else if prop_type == 20 || prop_type == 21 || prop_type == 5 || prop_type == 64 {
        8
    } else if prop_type == 72 {
        16
    } else {
        0
    }
}

/// Get the fixed size for basic property types.
pub fn get_type_size(prop_type: u16) -> (r: usize)
    ensures
        r == type_size_spec(prop_type),
{
    if prop_type == 2 || prop_type == 18 || prop_type == 11 {
        2
    } else if prop_type == 3 || prop_type == 19 || prop_type == 4 {
        4
    } else if prop_type == 20 || prop_type == 21 || prop_type == 5 || prop_type == 64 {
        8
    } else if prop_type == 72 {
        16
    } else {
        0
    }
}

/// The known property description table, keyed by GUID and identifier.
pub fn get_property_descriptions() -> (r: HashMap<String, String>) {
    let mut m: HashMap<String, String> = HashMap::new();
    m.insert(
        String::from_str("28636AA6-953D-11D2-B5D6-00C04FD918D0\\0"),
        String::from_str("FindData"),
    );
    m.insert(
        String::from_str("28636AA6-953D-11D2-B5D6-00C04FD918D0\\1"),
        String::from_str("Network Resource"),
    );
    m.insert(
        String::from_str("28636AA6-953D-11D2-B5D6-00C04FD918D0\\2"),
        String::from_str("DescriptionID"),
    );
    m.insert(
        String::from_str("28636AA6-953D-11D2-B5D6-00C04FD918D0\\3"),
        String::from_str("Which Folder"),
    );
    m.insert(
        String::from_str("28636AA6-953D-11D2-B5D6-00C04FD918D0\\4"),
        String::from_str("Network Location"),
    );
    m.insert(
        String::from_str("28636AA6-953D-11D2-B5D6-00C04FD918D0\\5"),
        String::from_str("ComputerName"),
    );
    m.insert(
        String::from_str("28636AA6-953D-11D2-B5D6-00C04FD918D0\\6"),
        String::from_str("NamespaceCLSID"),
    );
    m.insert(
        String::from_str("28636AA6-953D-11D2-B5D6-00C04FD918D0\\8"),
        String::from_str("ItemPathDisplayNarrow"),
    );
    m.insert(
        String::from_str("28636AA6-953D-11D2-B5D6-00C04FD918D0\\9"),
        String::from_str("PerceivedType"),
    );
    m.insert(
        String::from_str("28636AA6-953D-11D2-B5D6-00C04FD918D0\\10"),
        String::from_str("Computer Simple Name"),
    );
    m.insert(
        String::from_str("28636AA6-953D-11D2-B5D6-00C04FD918D0\\11"),
        String::from_str("ItemType"),
    );
    m.insert(
        String::from_str("28636AA6-953D-11D2-B5D6-00C04FD918D0\\12"),
        String::from_str("FileCount"),
    );
    m.insert(
        String::from_str("28636AA6-953D-11D2-B5D6-00C04FD918D0\\14"),
        String::from_str("TotalFileSize"),
    );
    m.insert(
        String::from_str("28636AA6-953D-11D2-B5D6-00C04FD918D0\\22"),
        String::from_str("Max Stack Count"),
    );
    m.insert(
        String::from_str("28636AA6-953D-11D2-B5D6-00C04FD918D0\\23"),
        String::from_str("List Description"),
    );
    m.insert(
        String::from_str("28636AA6-953D-11D2-B5D6-00C04FD918D0\\24"),
        String::from_str("ParsingName"),
    );
    m.insert(
        String::from_str("28636AA6-953D-11D2-B5D6-00C04FD918D0\\25"),
        String::from_str("SFGAOFlags"),
    );
    m.insert(
        String::from_str("B725F130-47EF-101A-A5F1-02608C9EEBAC\\2"),
        String::from_str("FileSize"),
    );
    m.insert(
        String::from_str("B725F130-47EF-101A-A5F1-02608C9EEBAC\\3"),
        String::from_str("DateCreated"),
    );
    m.insert(
        String::from_str("B725F130-47EF-101A-A5F1-02608C9EEBAC\\4"),
        String::from_str("DateAccessed"),
    );
    m.insert(
        String::from_str("B725F130-47EF-101A-A5F1-02608C9EEBAC\\5"),
        String::from_str("DateModified"),
    );
    m.insert(
        String::from_str("B725F130-47EF-101A-A5F1-02608C9EEBAC\\10"),
        String::from_str("FileName"),
    );
    m.insert(
        String::from_str("B725F130-47EF-101A-A5F1-02608C9EEBAC\\11"),
        String::from_str("FileAttributes"),
    );
    m.insert(
        String::from_str("F29F85E0-4FF9-1068-AB91-08002B27B3D9\\2"),
        String::from_str("Title"),
    );
    m.insert(
        String::from_str("F29F85E0-4FF9-1068-AB91-08002B27B3D9\\4"),
        String::from_str("Author"),
    );
    m.insert(
        String::from_str("F29F85E0-4FF9-1068-AB91-08002B27B3D9\\5"),
        String::from_str("Subject"),
    );
    m.insert(
        String::from_str("F29F85E0-4FF9-1068-AB91-08002B27B3D9\\6"),
        String::from_str("Comments"),
    );
    m.insert(
        String::from_str("F29F85E0-4FF9-1068-AB91-08002B27B3D9\\12"),
        String::from_str("CreateDateTime"),
    );
    m.insert(
        String::from_str("F29F85E0-4FF9-1068-AB91-08002B27B3D9\\13"),
        String::from_str("LastSaveDateTime"),
    );
    m.insert(
        String::from_str("9B174B35-40FF-11D2-A27E-00C04FC30871\\2"),
        String::from_str("VolumeLabel"),
    );
    m.insert(
        String::from_str("9B174B35-40FF-11D2-A27E-00C04FC30871\\3"),
        String::from_str("VolumeSerial"),
    );
    m.insert(
        String::from_str("9B174B35-40FF-11D2-A27E-00C04FC30871\\4"),
        String::from_str("FileSystem"),
    );
    m.insert(
        String::from_str("9B174B35-40FF-11D2-A27E-00C04FC30871\\5"),
        String::from_str("DriveType"),
    );
    m.insert(
        String::from_str("46588AE2-4CBC-4338-BBFC-139326986DCE\\4"),
        String::from_str("SID"),
    );
    m
}

} // verus!
