//! Command-line facing types and input classification.

use vstd::prelude::*;
use vstd::string::StringSliceAdditionalSpecFns;
use crate::error::Error;
use crate::strutil::{lower_bytes, to_lower_bytes, contains_bytes, ends_with_bytes, find_bytes,
    ends_with, bytes_eq};

verus! {

/// Input file types supported by the library.
#[derive(Debug, Clone, Copy, PartialEq, Eq, Structural)]
pub enum InputType {
    /// MFT file (.mft, .bin, .gz or bare).
    Mft,
    /// Shell link (.lnk).
    Lnk,
    /// Automatic Destinations jumplist.
    AutomaticDestinations,
    /// Custom Destinations jumplist.
    CustomDestinations,
    /// Registry hive (NTUSER.DAT, SYSTEM, SOFTWARE and kin).
    Registry,
    /// Live volume named by a drive letter.
    LiveSystem,
    /// ZIP archive container.
    ZipContainer,
    /// EWF image container.
    E01Container,
    /// Raw disk image (.dd, .raw, .img).
    RawContainer,
}

/// Parsed command-line arguments, as plain values.
#[derive(Debug, Clone)]
pub struct Args {
    /// Input file path or drive designator.
    pub input_file: Option<String>,
    /// Case-insensitive filter pattern over filename and location.
    pub filter: Option<String>,
    /// Keep records with timestamps after this date.
    pub after: Option<String>,
    /// Keep records with timestamps before this date.
    pub before: Option<String>,
    /// Output destination; `-` names standard output.
    pub output: Option<String>,
    /// Display timezone, `UTC` or a whole-hour offset.
    pub timezone: String,
    /// Password for encrypted ZIP archives.
    pub password: Option<String>,
}

/// The final path component: everything after the last `/` or `\`.
pub open spec fn file_name_of(b: Seq<u8>) -> Seq<u8>
    decreases b.len(),
{
    if b.len() == 0 {
        b
    } else if b.last() == 47 || b.last() == 92 {
        Seq::empty()
    } else {
        file_name_of(b.drop_last()).push(b.last())
    }
}

/// The extension of the final component: the bytes after the last dot,
/// provided the dot is not the component's first byte.
pub open spec fn extension_of(b: Seq<u8>) -> Option<Seq<u8>> {
    ext_of_name(file_name_of(b))
}

/// The extension of a bare file name.
pub open spec fn ext_of_name(n: Seq<u8>) -> Option<Seq<u8>>
    decreases n.len(),
{
    if n.len() <= 1 {
        None
    } else if n.last() == 46 {
        if n.len() >= 2 {
            Some(Seq::empty())
        } else {
            None
        }
    } else {
        match ext_of_name(n.drop_last()) {
            Some(e) => Some(e.push(n.last())),
            None => None,
        }
    }
}

/// The final path component of a path string's bytes.
pub fn file_name_bytes(b: &[u8]) -> (r: Vec<u8>)
    ensures
        r@ == file_name_of(b@),
{
    let mut start: usize = b.len();
    while start > 0 && b[start - 1] != 47 && b[start - 1] != 92
        invariant
            start <= b@.len(),
            forall|k: int| start <= k < b@.len() ==> b@[k] != 47 && b@[k] != 92,
        decreases start,
    {
        start = start - 1;
    }
    let mut r: Vec<u8> = Vec::new();
    let mut i = start;
    while i < b.len()
        invariant
            start <= i <= b@.len(),
            r@.len() == i - start,
            forall|k: int| 0 <= k < r@.len() ==> r@[k] == b@[start + k],
        decreases b@.len() - i,
    {
        r.push(b[i]);
        i = i + 1;
    }
    proof {
        lemma_file_name_suffix(b@, start as int);
        assert(r@ =~= b@.subrange(start as int, b@.len() as int));
    }
    r
}

/// The final component is the suffix after the last separator.
proof fn lemma_file_name_suffix(b: Seq<u8>, start: int)
    requires
        0 <= start <= b.len(),
        forall|k: int| start <= k < b.len() ==> b[k] != 47 && b[k] != 92,
        start > 0 ==> b[start - 1] == 47 || b[start - 1] == 92,
    ensures
        file_name_of(b) == b.subrange(start, b.len() as int),
    decreases b.len() - start,
{
    if start == b.len() {
        lemma_file_name_of_ends(b, start);
        assert(b.subrange(0, start) =~= b);
        assert(b.subrange(start, b.len() as int) =~= Seq::<u8>::empty());
    } else {
        lemma_file_name_suffix_step(b, start, b.len() as int);
        assert(b.subrange(0, b.len() as int) =~= b);
    }
}

/// Unrolling `file_name_of` over a separator-free suffix.
proof fn lemma_file_name_suffix_step(b: Seq<u8>, start: int, upto: int)
    requires
        0 <= start <= upto <= b.len(),
        forall|k: int| start <= k < b.len() ==> b[k] != 47 && b[k] != 92,
        start > 0 ==> b[start - 1] == 47 || b[start - 1] == 92,
    ensures
        file_name_of(b.subrange(0, upto)) == b.subrange(start, upto),
    decreases upto - start,
{
    let prefix = b.subrange(0, upto);
    if upto == start {
        lemma_file_name_of_ends(prefix, start);
    } else {
        assert(prefix.last() == b[upto - 1]);
        assert(prefix.drop_last() =~= b.subrange(0, upto - 1));
        lemma_file_name_suffix_step(b, start, upto - 1);
        assert(file_name_of(prefix) =~= b.subrange(start, upto));
    }
}

/// A sequence ending at a separator (or empty) has an empty component.
proof fn lemma_file_name_of_ends(b: Seq<u8>, start: int)
    requires
        0 <= start <= b.len(),
        start > 0 ==> b[start - 1] == 47 || b[start - 1] == 92,
    ensures
        file_name_of(b.subrange(0, start)) == Seq::<u8>::empty(),
{
    let p = b.subrange(0, start);
    if start == 0 {
        assert(p =~= Seq::<u8>::empty());
        assert(file_name_of(p) =~= Seq::<u8>::empty());
    } else {
        assert(p.last() == b[start - 1]);
    }
}

/// The lower-cased extension of a path, empty marker when there is none.
pub fn extension_lower(path: &str) -> (r: Option<Vec<u8>>)
    ensures
        match r {
            Some(v) => extension_of(path.spec_bytes()) is Some && v@ == lower_bytes(
                extension_of(path.spec_bytes())->Some_0),
            None => extension_of(path.spec_bytes()) is None,
        },
{
    let name = file_name_bytes(path.as_bytes());
    let n = name.len();
    let mut dot: usize = n;
    while dot > 0 && name[dot - 1] != 46
        invariant
            dot <= n,
            n == name@.len(),
            forall|k: int| dot <= k < n ==> name@[k] != 46,
        decreases dot,
    {
        dot = dot - 1;
    }
    if dot <= 1 {
        proof {
            lemma_ext_of_name(name@, dot as int);
        }
        return None;
    }
    let mut e: Vec<u8> = Vec::new();
    let mut i = dot;
    while i < n
        invariant
            dot <= i <= n,
            n == name@.len(),
            e@.len() == i - dot,
            forall|k: int| 0 <= k < e@.len() ==> e@[k] == name@[dot + k],
        decreases n - i,
    {
        e.push(name[i]);
        i = i + 1;
    }
    proof {
        lemma_ext_of_name(name@, dot as int);
        assert(e@ =~= name@.subrange(dot as int, n as int));
    }
    Some(to_lower_bytes(e.as_slice()))
}

/// The lower-cased extension, or empty when there is none.
pub open spec fn ext_lower_or_empty(b: Seq<u8>) -> Seq<u8> {
    match extension_of(b) {
        Some(e) => lower_bytes(e),
        None => Seq::empty(),
    }
}

/// The lower-cased file name carries one of the registry hive markers.
pub open spec fn has_hive_marker(lf: Seq<u8>) -> bool {
    ||| contains_bytes(lf, "ntuser".spec_bytes())
    ||| contains_bytes(lf, "system".spec_bytes())
    ||| contains_bytes(lf, "software".spec_bytes())
    ||| contains_bytes(lf, "sam".spec_bytes())
    ||| contains_bytes(lf, "security".spec_bytes())
}

/// The input kind a path denotes: a two-character drive designator names
/// a live volume; otherwise the lower-cased extension decides, with `.dat`
/// split by hive markers, `.ms` split by the jumplist suffixes, and
/// unknown extensions falling back to registry or MFT by file name.
pub open spec fn input_type_spec(b: Seq<u8>) -> Option<InputType> {
    if b.len() == 2 && b[1] == 58 && ((65 <= b[0] && b[0] <= 90) || (97 <= b[0] && b[0] <= 122)) {
        Some(InputType::LiveSystem)
    } else if ends_with_bytes(file_name_of(b), ".automaticDestinations-ms".spec_bytes()) {
        Some(InputType::AutomaticDestinations)
    } else if ends_with_bytes(file_name_of(b), ".customDestinations-ms".spec_bytes()) {
        Some(InputType::CustomDestinations)
    } else {
        let ext = ext_lower_or_empty(b);
        let lf = lower_bytes(file_name_of(b));
        if ext == "lnk".spec_bytes() {
            Some(InputType::Lnk)
        } else if ext == "dat".spec_bytes() {
            if has_hive_marker(lf) {
                Some(InputType::Registry)
            } else {
                Some(InputType::Mft)
            }
        } else if ext == "mft".spec_bytes() || ext == "bin".spec_bytes() || ext
            == "gz".spec_bytes() {
            Some(InputType::Mft)
        } else if ext == "zip".spec_bytes() {
            Some(InputType::ZipContainer)
        } else if ext == "e01".spec_bytes() {
            Some(InputType::E01Container)
        } else if ext == "dd".spec_bytes() || ext == "raw".spec_bytes() || ext
            == "img".spec_bytes() {
            Some(InputType::RawContainer)
        } else if ext == "ms".spec_bytes() {
            if ends_with_bytes(file_name_of(b), ".automaticDestinations-ms".spec_bytes()) {
                Some(InputType::AutomaticDestinations)
            } else if ends_with_bytes(file_name_of(b), ".customDestinations-ms".spec_bytes()) {
                Some(InputType::CustomDestinations)
            } else {
                None
            }
        } else {
            if has_hive_marker(lf) {
                Some(InputType::Registry)
            } else {
                Some(InputType::Mft)
            }
        }
    }
}

/// Classify an input path or drive designator.
pub fn detect_input_type(input_file: &str) -> (r: Result<InputType, Error>)
    ensures
        r matches Ok(t) ==> input_type_spec(input_file.spec_bytes()) == Some(t),
        r is Err ==> input_type_spec(input_file.spec_bytes()) is None && (r matches Err(e) ==> e
            is InvalidInput),
{
    let b = input_file.as_bytes();
    if b.len() == 2 && b[1] == 58 && ((65 <= b[0] && b[0] <= 90) || (97 <= b[0] && b[0]
        <= 122)) {
        return Ok(InputType::LiveSystem);
    }
    let early_name = file_name_bytes(b);
    if ends_with(early_name.as_slice(), ".automaticDestinations-ms".as_bytes()) {
        return Ok(InputType::AutomaticDestinations);
    }
    if ends_with(early_name.as_slice(), ".customDestinations-ms".as_bytes()) {
        return Ok(InputType::CustomDestinations);
    }
    let ext: Vec<u8> = match extension_lower(input_file) {
        Some(e) => e,
        None => Vec::new(),
    };
    proof {
        assert(ext@ =~= ext_lower_or_empty(input_file.spec_bytes()));
    }
    let name = file_name_bytes(b);
    let lf = to_lower_bytes(name.as_slice());
    if bytes_eq(ext.as_slice(), "lnk".as_bytes()) {
        Ok(InputType::Lnk)
    } else if bytes_eq(ext.as_slice(), "dat".as_bytes()) {
        if find_bytes(lf.as_slice(), "ntuser".as_bytes()) || find_bytes(
            lf.as_slice(),
            "system".as_bytes(),
        ) || find_bytes(lf.as_slice(), "software".as_bytes()) || find_bytes(
            lf.as_slice(),
            "sam".as_bytes(),
        ) || find_bytes(lf.as_slice(), "security".as_bytes()) {
            Ok(InputType::Registry)
        } else {
            Ok(InputType::Mft)
        }
    } else if bytes_eq(ext.as_slice(), "mft".as_bytes()) || bytes_eq(
        ext.as_slice(),
        "bin".as_bytes(),
    ) || bytes_eq(ext.as_slice(), "gz".as_bytes()) {
        Ok(InputType::Mft)
    } else if bytes_eq(ext.as_slice(), "zip".as_bytes()) {
        Ok(InputType::ZipContainer)
    } else if bytes_eq(ext.as_slice(), "e01".as_bytes()) {
        Ok(InputType::E01Container)
    } else if bytes_eq(ext.as_slice(), "dd".as_bytes()) || bytes_eq(
        ext.as_slice(),
        "raw".as_bytes(),
    ) || bytes_eq(ext.as_slice(), "img".as_bytes()) {
        Ok(InputType::RawContainer)
    } else if bytes_eq(ext.as_slice(), "ms".as_bytes()) {
        if ends_with(name.as_slice(), ".automaticDestinations-ms".as_bytes()) {
            Ok(InputType::AutomaticDestinations)
        } else if ends_with(name.as_slice(), ".customDestinations-ms".as_bytes()) {
            Ok(InputType::CustomDestinations)
        } else {
            Err(Error::InvalidInput(String::from_str("Unknown .ms file type")))
        }
    } else {
        if find_bytes(lf.as_slice(), "ntuser".as_bytes()) || find_bytes(
            lf.as_slice(),
            "system".as_bytes(),
        ) || find_bytes(lf.as_slice(), "software".as_bytes()) || find_bytes(
            lf.as_slice(),
            "sam".as_bytes(),
        ) || find_bytes(lf.as_slice(), "security".as_bytes()) {
            Ok(InputType::Registry)
        } else {
            Ok(InputType::Mft)
        }
    }
}

/// The extension is the suffix after the last dot, none when the dot is
/// missing or leads the name.
proof fn lemma_ext_of_name(n: Seq<u8>, dot: int)
    requires
        0 <= dot <= n.len(),
        forall|k: int| dot <= k < n.len() ==> n[k] != 46,
        dot > 0 ==> n[dot - 1] == 46,
    ensures
        dot <= 1 ==> ext_of_name(n) is None,
        dot > 1 ==> ext_of_name(n) == Some(n.subrange(dot, n.len() as int)),
    decreases n.len(),
{
    if n.len() == 0 {
    } else if dot == n.len() {
        if dot > 1 {
            assert(n.last() == 46);
            assert(n.subrange(dot, n.len() as int) =~= Seq::<u8>::empty());
        } else if dot == 1 {
            assert(n.last() == 46);
        }
    } else {
        assert(n.last() != 46);
        lemma_ext_of_name(n.drop_last(), dot);
        if dot > 1 {
            assert(n.drop_last().subrange(dot, n.len() - 1).push(n.last()) =~= n.subrange(
                dot, n.len() as int));
        }
    }
}

} // verus!
