//! NTFS Master File Table timeline library.
//!
//! Decodes MFT record buffers into logical records, resolves full directory
//! paths across parent-reference chains, explodes records into timestamped
//! events, and orders those events deterministically for timeline review.

use vstd::prelude::*;
use vstd::string::StringSliceAdditionalSpecFns;

pub mod benchmark;
pub mod cli;
pub mod container;
pub mod datetime;
pub mod error;
pub mod fast_formatter;
pub mod formatter;
pub mod jumplist;
pub mod lnk_parser;
pub mod live_registry;
pub mod mft;
pub mod ole;
pub mod output;
pub mod property_store;
pub mod registry;
pub mod registry_old;
pub mod shell_item;
pub mod simd_optimize;
pub mod strutil;
pub mod types;

verus! {

/// The drive letter named by an input such as "C:": the first byte,
/// upper-cased, when the input is exactly two bytes ending in ':'.
pub open spec fn drive_letter_spec(bytes: Seq<u8>) -> Option<char> {
    if bytes.len() == 2 && bytes[1] == 58 && bytes[0] < 128 {
        if 97 <= bytes[0] && bytes[0] <= 122 {
            Some(((bytes[0] - 32) as u8) as char)
        } else {
            Some(bytes[0] as char)
        }
    } else {
        None
    }
}

/// Parse a drive letter from an input string such as "C:".
pub fn parse_drive_letter(input: &str) -> (r: Option<char>)
    ensures
        r == drive_letter_spec(input.spec_bytes()),
{
    let b = input.as_bytes();
    if b.len() == 2 && b[1] == 58 && b[0] < 128 {
        let c = b[0];
        if 97 <= c && c <= 122 {
            Some((c - 32) as char)
        } else {
            Some(c as char)
        }
    } else {
        None
    }
}

} // verus!
