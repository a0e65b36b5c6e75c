//! Container dispatch: locating MFT bytes inside ZIP archives and raw
//! disk images, and classifying sibling artifacts.

use vstd::prelude::*;
use vstd::string::StringSliceAdditionalSpecFns;
use crate::error::Error;
use crate::cli::{InputType, extension_of, ext_lower_or_empty, extension_lower, file_name_of,
    file_name_bytes, has_hive_marker};
use crate::strutil::{le16_at, le64_at, read_le16, read_le64, le32_at, lower_bytes, to_lower_bytes,
    contains_bytes, ends_with_bytes, starts_with_bytes, find_bytes, ends_with, starts_with,
    bytes_eq};
use crate::simd_optimize::{FILE_SIG_PATTERN, file_sig_at};
use std::io::Read;

verus! {

/// Container kind for the supported archive formats.
#[derive(Debug, Clone, Copy, PartialEq, Eq, Structural)]
pub enum ContainerType {
    Zip,
    E01,
    Raw,
}

/// One artifact pulled out of a container.
#[derive(Debug)]
pub struct ExtractedArtifact {
    /// Entry name inside the container.
    pub name: String,
    /// The classified artifact kind.
    pub artifact_type: InputType,
    /// The artifact's bytes.
    pub data: Vec<u8>,
}

/// Everything extracted from one container.
#[derive(Debug)]
pub struct ExtractedArtifacts {
    pub artifacts: Vec<ExtractedArtifact>,
}

/// Container extractor over in-memory container bytes.
pub struct ContainerExtractor;

/// The number of 1024-aligned FILE signatures among the first `n` strides.
pub open spec fn file_sig_count(data: Seq<u8>, n: int) -> int
    decreases n,
{
    if n <= 0 {
        0
    } else {
        file_sig_count(data, n - 1) + if file_sig_at(data, (n - 1) * 1024) {
            1int
        } else {
            0int
        }
    }
}

/// A buffer is MFT-like: it is at least one record long, and a FILE
/// signature appears at the start, at one of the offsets 512, 1024 or
/// 2048, or at three or more 1024-aligned positions.
pub open spec fn mft_signature_valid(data: Seq<u8>) -> bool {
    data.len() >= 1024 && (file_sig_at(data, 0) || file_sig_at(data, 512) || file_sig_at(
        data, 1024) || file_sig_at(data, 2048) || file_sig_count(
        data, data.len() as int / 1024) >= 3)
}

impl ContainerExtractor {
    /// Check a buffer for the MFT signature heuristic.
    pub fn validate_mft_signature(data: &[u8]) -> (r: bool)
        ensures
            r == mft_signature_valid(data@),
    {
        let len = data.len();
        if len < 1024 {
            return false;
        }
        if check_file_sig(data, 0) || check_file_sig(data, 512) || check_file_sig(data, 1024)
            || check_file_sig(data, 2048) {
            return true;
        }
        let n = len / 1024;
        proof {
            assert(n * 1024 <= len) by (nonlinear_arith)
                requires
                    n == len / 1024,
            ;
        }
        let mut count: u64 = 0;
        let mut i: usize = 0;
        while i < n
            invariant
                len == data@.len(),
                n == len as int / 1024,
                n * 1024 <= len,
                i <= n,
                count == file_sig_count(data@, i as int),
                count <= i,
            decreases n - i,
        {
            proof {
                assert(i * 1024 <= (n - 1) * 1024) by (nonlinear_arith)
                    requires
                        i < n,
                ;
            }
            if check_file_sig(data, i * 1024) {
                count = count + 1;
            }
            i = i + 1;
        }
        let r = count >= 3;
        proof {
            assert(r == mft_signature_valid(data@));
        }
        r
    }

    /// Classify a container entry by its file name: MFT names first, then
    /// shell links (excluding recycle-bin metadata), jumplists and
    /// registry hives; unknown names classify as nothing.
    pub fn detect_artifact_type(filename: &str) -> (r: Option<InputType>)
        ensures
            r == artifact_type_spec(filename.spec_bytes()),
    {
        let b = filename.as_bytes();
        let lower = to_lower_bytes(b);
        let ln = lower.as_slice();
        if find_bytes(ln, "$mft".as_bytes()) || bytes_eq(ln, "mft".as_bytes()) || ends_with(
            ln,
            ".mft".as_bytes(),
        ) {
            return Some(InputType::Mft);
        }
        if ends_with(ln, ".lnk".as_bytes()) {
            let base = file_name_bytes(b);
            if starts_with(base.as_slice(), "$I".as_bytes()) && find_bytes(
                b,
                "$Recycle.Bin".as_bytes(),
            ) {
                return None;
            }
            return Some(InputType::Lnk);
        }
        if ends_with(ln, ".automaticdestinations-ms".as_bytes()) {
            return Some(InputType::AutomaticDestinations);
        }
        if ends_with(ln, ".customdestinations-ms".as_bytes()) {
            return Some(InputType::CustomDestinations);
        }
        if find_bytes(ln, "ntuser".as_bytes()) || find_bytes(ln, "system".as_bytes())
            || find_bytes(ln, "software".as_bytes()) || find_bytes(ln, "sam".as_bytes())
            || find_bytes(ln, "security".as_bytes()) || ends_with(ln, ".dat".as_bytes()) {
            return Some(InputType::Registry);
        }
        None
    }
}

/// The artifact kind an entry name denotes.
pub open spec fn artifact_type_spec(b: Seq<u8>) -> Option<InputType> {
    let ln = lower_bytes(b);
    if contains_bytes(ln, "$mft".spec_bytes()) || ln == "mft".spec_bytes() || ends_with_bytes(
        ln, ".mft".spec_bytes()) {
        Some(InputType::Mft)
    } else if ends_with_bytes(ln, ".lnk".spec_bytes()) {
        if starts_with_bytes(file_name_of(b), "$I".spec_bytes()) && contains_bytes(
            b, "$Recycle.Bin".spec_bytes()) {
            None
        } else {
            Some(InputType::Lnk)
        }
    } else if ends_with_bytes(ln, ".automaticdestinations-ms".spec_bytes()) {
        Some(InputType::AutomaticDestinations)
    } else if ends_with_bytes(ln, ".customdestinations-ms".spec_bytes()) {
        Some(InputType::CustomDestinations)
    } else if has_hive_marker(ln) || ends_with_bytes(ln, ".dat".spec_bytes()) {
        Some(InputType::Registry)
    } else {
        None
    }
}

/// Read one FILE signature probe.
fn check_file_sig(data: &[u8], p: usize) -> (r: bool)
    ensures
        r == file_sig_at(data@, p as int),
{
    let len = data.len();
    if p <= len && len - p >= 4 {
        crate::strutil::read_le32(data, p) == FILE_SIG_PATTERN
    } else {
        false
    }
}

/// The container kind a path's extension names, in the order the
/// dispatcher checks them.
pub open spec fn container_kind_spec(b: Seq<u8>) -> Option<ContainerType> {
    let ext = ext_lower_or_empty(b);
    if ext == "zip".spec_bytes() {
        Some(ContainerType::Zip)
    } else if ext == "e01".spec_bytes() {
        Some(ContainerType::E01)
    } else if ext == "dd".spec_bytes() || ext == "raw".spec_bytes() || ext == "img".spec_bytes() {
        Some(ContainerType::Raw)
    } else {
        None
    }
}

/// Is the path one of the container formats, by extension?
pub open spec fn is_container_spec(b: Seq<u8>) -> bool {
    let ext = ext_lower_or_empty(b);
    ext == "zip".spec_bytes() || ext == "e01".spec_bytes() || ext == "dd".spec_bytes() || ext
        == "raw".spec_bytes() || ext == "img".spec_bytes()
}

/// Determine whether a path names a container format.
pub fn is_container_format(path: &str) -> (r: bool)
    ensures
        r == is_container_spec(path.spec_bytes()),
{
    let ext: Vec<u8> = match extension_lower(path) {
        Some(e) => e,
        None => Vec::new(),
    };
    proof {
        assert(ext@ =~= ext_lower_or_empty(path.spec_bytes()));
    }
    bytes_eq(ext.as_slice(), "zip".as_bytes()) || bytes_eq(ext.as_slice(), "e01".as_bytes())
        || bytes_eq(ext.as_slice(), "dd".as_bytes()) || bytes_eq(
        ext.as_slice(),
        "raw".as_bytes(),
    ) || bytes_eq(ext.as_slice(), "img".as_bytes())
}

/// NTFS boot sector fields the MFT locator needs.
#[derive(Debug, Clone)]
pub struct BootSector {
    /// Bytes per sector, read at offset 11.
    pub bytes_per_sector: u16,
    /// Sectors per cluster, read at offset 13.
    pub sectors_per_cluster: u8,
    /// First cluster of the MFT, read at offset 48.
    pub mft_cluster_number: u64,
}

/// The boot block carries the NTFS OEM signature at bytes 3 to 10.
pub open spec fn ntfs_boot_signature(b: Seq<u8>) -> bool {
    b.len() >= 512 && b.subrange(3, 11) == "NTFS    ".spec_bytes()
}

impl BootSector {
    /// Parse the NTFS boot sector from the first 512 bytes of an image.
    pub fn parse(b: &[u8]) -> (r: Result<BootSector, Error>)
        ensures
            r matches Ok(bs) ==> ntfs_boot_signature(b@) && bs.bytes_per_sector == le16_at(b@, 11)
                && bs.sectors_per_cluster == b@[13] && bs.mft_cluster_number == le64_at(b@, 48),
            r is Err ==> !ntfs_boot_signature(b@) && (r matches Err(e) ==> e is InvalidInput),
    {
        if b.len() < 512 {
            return Err(Error::InvalidInput(String::from_str(
                "Raw image does not contain NTFS filesystem signature",
            )));
        }
        let sig = vstd::slice::slice_subrange(b, 3, 11);
        if !bytes_eq(sig, "NTFS    ".as_bytes()) {
            return Err(Error::InvalidInput(String::from_str(
                "Raw image does not contain NTFS filesystem signature",
            )));
        }
        Ok(BootSector {
            bytes_per_sector: read_le16(b, 11),
            sectors_per_cluster: b[13],
            mft_cluster_number: read_le64(b, 48),
        })
    }

    /// The byte offset of the MFT this boot sector names.
    pub open spec fn mft_offset_spec(&self) -> int {
        self.mft_cluster_number * (self.bytes_per_sector as int) * (self.sectors_per_cluster
            as int)
    }
}

/// The MFT bytes located in a raw NTFS image: at the boot sector's MFT
/// offset, up to ten MiB, bounded by the image; nothing when the
/// signature, the offset or the leading FILE record is wrong.
pub open spec fn raw_mft_spec(data: Seq<u8>) -> Option<Seq<u8>> {
    if !ntfs_boot_signature(data) {
        None
    } else {
        let bps = le16_at(data, 11);
        let spc = data[13];
        let off = le64_at(data, 48) * bps * spc;
        if off >= data.len() {
            None
        } else {
            let take = if data.len() - off < 10485760 {
                data.len() - off
            } else {
                10485760int
            };
            let mft = data.subrange(off, off + take);
            if file_sig_at(mft, 0) {
                Some(mft)
            } else {
                None
            }
        }
    }
}

impl ContainerExtractor {
    /// Locate and copy the MFT from a raw NTFS disk image.
    pub fn extract_from_raw(data: &[u8]) -> (r: Result<Vec<u8>, Error>)
        ensures
            r matches Ok(v) ==> raw_mft_spec(data@) == Some(v@),
            r is Err ==> raw_mft_spec(data@) is None && (r matches Err(e) ==> e is InvalidInput),
    {
        let len = data.len();
        let bs = match BootSector::parse(data) {
            Ok(bs) => bs,
            Err(e) => {
                return Err(e);
            },
        };
        proof {
            let a = bs.mft_cluster_number as int;
            let bb = bs.bytes_per_sector as int;
            let c = bs.sectors_per_cluster as int;
            assert(a * bb <= 0xFFFFFFFFFFFFFFFF * 0xFFFF && a * bb * c <= 0xFFFFFFFFFFFFFFFF
                * 0xFFFF * 0xFF && 0 <= a * bb) by (nonlinear_arith)
                requires
                    0 <= a <= 0xFFFFFFFFFFFFFFFF,
                    0 <= bb <= 0xFFFF,
                    0 <= c <= 0xFF,
            ;
        }
        let off128: u128 = (bs.mft_cluster_number as u128) * (bs.bytes_per_sector as u128) * (
        bs.sectors_per_cluster as u128);
        if off128 >= len as u128 {
            return Err(Error::InvalidInput(String::from_str("MFT offset exceeds file size")));
        }
        let off = off128 as usize;
        proof {
            assert(off == bs.mft_offset_spec());
        }
        let take: usize = if len - off < 10485760 {
            len - off
        } else {
            10485760
        };
        let mft = vstd::slice::slice_subrange(data, off, off + take);
        if !check_file_sig(mft, 0) {
            return Err(Error::InvalidInput(String::from_str(
                "Invalid MFT signature at computed offset",
            )));
        }
        let v = vstd::slice::slice_to_vec(mft);
        Ok(v)
    }

    /// EWF images are not decoded.
    pub fn extract_from_e01(_data: &[u8]) -> (r: Result<Vec<u8>, Error>)
        ensures
            r matches Err(e) && e is Unsupported,
    {
        Err(Error::Unsupported(String::from_str(
            "E01 Expert Witness format support is not implemented; extract the disk image first",
        )))
    }
}

/// How many entries the ZIP archive in these bytes holds; nothing when
/// the bytes are not a readable archive. A function of the bytes alone.
pub uninterp spec fn zip_entry_count(data: Seq<u8>) -> Option<int>;

/// The name of entry `i` of the archive. A function of the bytes alone.
pub uninterp spec fn zip_entry_name(data: Seq<u8>, i: int) -> Seq<char>;

/// The uncompressed size entry `i` declares. A function of the bytes alone.
pub uninterp spec fn zip_entry_size(data: Seq<u8>, i: int) -> int;

/// The uncompressed bytes of entry `i`, decrypted with the given password
/// when one is supplied; nothing when the entry cannot be decoded. A
/// function of the bytes, the index and the password alone.
pub uninterp spec fn zip_entry_bytes(data: Seq<u8>, i: int, password: Option<Seq<u8>>) -> Option<
    Seq<u8>,
>;

/// What gunzip decompression yields for these bytes, or nothing when they
/// are not a valid gzip stream. A function of the bytes alone.
pub uninterp spec fn gunzip_of(data: Seq<u8>) -> Option<Seq<u8>>;

/// The spec-level view of an optional password.
pub open spec fn pw_view(p: Option<&Vec<u8>>) -> Option<Seq<u8>> {
    match p {
        Some(v) => Some(v@),
        None => None,
    }
}

/// Entry `i`'s name, as the bytes the searches test.
pub open spec fn zip_name_bytes(data: Seq<u8>, i: int) -> Seq<u8> {
    vstd::utf8::encode_utf8(zip_entry_name(data, i))
}

/// Entry `i`'s name carries one of the MFT name patterns.
pub open spec fn zip_mft_name_match(data: Seq<u8>, i: int) -> bool {
    let nb = zip_name_bytes(data, i);
    contains_bytes(nb, "$MFT".spec_bytes()) || contains_bytes(nb, "$mft".spec_bytes())
        || contains_bytes(nb, "MFT".spec_bytes()) || contains_bytes(nb, "mft".spec_bytes())
}

/// The MFT bytes entry `i` yields on the name pass: present when the name
/// matches, the entry decodes (gunzipped when the name ends `.gz`), and
/// the decoded bytes pass the signature heuristic.
pub open spec fn zip_mft_candidate(data: Seq<u8>, i: int, pw: Option<Seq<u8>>) -> Option<Seq<u8>> {
    if !zip_mft_name_match(data, i) {
        None
    } else {
        match zip_entry_bytes(data, i, pw) {
            None => None,
            Some(raw) => {
                let content = if ends_with_bytes(zip_name_bytes(data, i), ".gz".spec_bytes()) {
                    gunzip_of(raw)
                } else {
                    Some(raw)
                };
                match content {
                    None => None,
                    Some(c) => if mft_signature_valid(c) {
                        Some(c)
                    } else {
                        None
                    },
                }
            },
        }
    }
}

/// The first name-pass candidate among the archive's first `n` entries.
pub open spec fn zip_mft_scan(data: Seq<u8>, n: int, pw: Option<Seq<u8>>) -> Option<Seq<u8>>
    decreases n,
{
    if n <= 0 {
        None
    } else if zip_mft_scan(data, n - 1, pw) is Some {
        zip_mft_scan(data, n - 1, pw)
    } else {
        zip_mft_candidate(data, n - 1, pw)
    }
}

/// A scan over entries that yield no candidate finds nothing.
proof fn lemma_mft_scan_none(data: Seq<u8>, n: int, pw: Option<Seq<u8>>)
    requires
        forall|k: int| 0 <= k < n ==> zip_mft_candidate(data, k, pw) is None,
    ensures
        zip_mft_scan(data, n, pw) is None,
    decreases n,
{
    if n > 0 {
        lemma_mft_scan_none(data, n - 1, pw);
    }
}

/// The first candidate found is what every longer scan returns.
proof fn lemma_mft_scan_found(data: Seq<u8>, i: int, n: int, pw: Option<Seq<u8>>)
    requires
        0 <= i < n,
        forall|k: int| 0 <= k < i ==> zip_mft_candidate(data, k, pw) is None,
        zip_mft_candidate(data, i, pw) is Some,
    ensures
        zip_mft_scan(data, n, pw) == zip_mft_candidate(data, i, pw),
    decreases n,
{
    if n - 1 == i {
        lemma_mft_scan_none(data, i, pw);
    } else {
        lemma_mft_scan_found(data, i, n - 1, pw);
    }
}

/// Spec-level value of an extracted artifact.
pub ghost struct ArtifactView {
    pub name: Seq<char>,
    pub artifact_type: InputType,
    pub data: Seq<u8>,
}

impl View for ExtractedArtifact {
    type V = ArtifactView;

    open spec fn view(&self) -> ArtifactView {
        ArtifactView { name: self.name@, artifact_type: self.artifact_type, data: self.data@ }
    }
}

/// The artifact walk over the archive's first `n` entries: one artifact
/// for each entry whose name classifies and whose bytes decode, carrying
/// the classified kind and the decoded bytes (gunzipped when the name
/// ends `.gz`), in entry order. Nothing when a gzipped entry fails to
/// inflate, which aborts the walk.
pub open spec fn zip_artifact_scan(data: Seq<u8>, n: int, pw: Option<Seq<u8>>) -> Option<
    Seq<ArtifactView>,
>
    decreases n,
{
    if n <= 0 {
        Some(Seq::empty())
    } else {
        match zip_artifact_scan(data, n - 1, pw) {
            None => None,
            Some(s) => {
                let nb = zip_name_bytes(data, n - 1);
                match artifact_type_spec(nb) {
                    None => Some(s),
                    Some(kind) => match zip_entry_bytes(data, n - 1, pw) {
                        None => Some(s),
                        Some(raw) => if ends_with_bytes(nb, ".gz".spec_bytes()) {
                            match gunzip_of(raw) {
                                None => None,
                                Some(c) => Some(
                                    s.push(
                                        ArtifactView {
                                            name: zip_entry_name(data, n - 1),
                                            artifact_type: kind,
                                            data: c,
                                        },
                                    ),
                                ),
                            }
                        } else {
                            Some(
                                s.push(
                                    ArtifactView {
                                        name: zip_entry_name(data, n - 1),
                                        artifact_type: kind,
                                        data: raw,
                                    },
                                ),
                            )
                        },
                    },
                }
            },
        }
    }
}

/// An aborted artifact walk stays aborted over more entries.
proof fn lemma_artifact_scan_none(data: Seq<u8>, m: int, n: int, pw: Option<Seq<u8>>)
    requires
        0 <= m <= n,
        zip_artifact_scan(data, m, pw) is None,
    ensures
        zip_artifact_scan(data, n, pw) is None,
    decreases n,
{
    if n > m {
        lemma_artifact_scan_none(data, m, n - 1, pw);
    }
}

/// Relies on zip::ZipArchive::new over an in-memory cursor and on
/// ZipArchive::len: the number of central-directory entries.
#[verifier::external_body]
fn zip_len(data: &Vec<u8>) -> (r: Option<usize>)
    ensures
        match r {
            Some(n) => zip_entry_count(data@) == Some(n as int),
            None => zip_entry_count(data@) is None,
        },
{
    match zip::ZipArchive::new(std::io::Cursor::new(data.as_slice())) {
        Ok(a) => Some(a.len()),
        Err(_) => None,
    }
}

/// Relies on zip::ZipArchive::new and ZipArchive::name_for_index: the
/// entry's name, present for every index below the entry count.
#[verifier::external_body]
fn zip_name(data: &Vec<u8>, i: usize) -> (r: Option<String>)
    ensures
        r matches Some(s) ==> s@ == zip_entry_name(data@, i as int),
        zip_entry_count(data@) matches Some(n) && (i as int) < n ==> r is Some,
{
    match zip::ZipArchive::new(std::io::Cursor::new(data.as_slice())) {
        Ok(a) => a.name_for_index(i).map(|s| s.to_string()),
        Err(_) => None,
    }
}

/// Relies on zip::ZipArchive::by_index_raw and ZipFile::size: the
/// uncompressed size the central directory declares for the entry.
#[verifier::external_body]
fn zip_size(data: &Vec<u8>, i: usize) -> (r: Option<u64>)
    ensures
        r matches Some(v) ==> zip_entry_size(data@, i as int) == v as int,
{
    match zip::ZipArchive::new(std::io::Cursor::new(data.as_slice())) {
        Ok(mut a) => a.by_index_raw(i).ok().map(|f| f.size()),
        Err(_) => None,
    }
}

/// Relies on zip::ZipArchive::by_index / by_index_decrypt and
/// Read::read_to_end: the entry's uncompressed bytes, decrypted with the
/// password when one is given; decoding is deterministic in the bytes,
/// the index and the password.
#[verifier::external_body]
fn zip_read(data: &Vec<u8>, i: usize, password: Option<&Vec<u8>>) -> (r: Option<Vec<u8>>)
    ensures
        match r {
            Some(v) => zip_entry_bytes(data@, i as int, pw_view(password)) == Some(v@),
            None => zip_entry_bytes(data@, i as int, pw_view(password)) is None,
        },
{
    let mut a = zip::ZipArchive::new(std::io::Cursor::new(data.as_slice())).ok()?;
    let mut f = match password {
        Some(p) => a.by_index_decrypt(i, p.as_slice()).ok()?,
        None => a.by_index(i).ok()?,
    };
    let mut out = Vec::new();
    f.read_to_end(&mut out).ok()?;
    Some(out)
}

/// Relies on flate2::read::GzDecoder and Read::read_to_end: gunzip
/// decompression of an in-memory stream, deterministic in the bytes.
#[verifier::external_body]
fn gunzip(data: &Vec<u8>) -> (r: Option<Vec<u8>>)
    ensures
        match r {
            Some(v) => gunzip_of(data@) == Some(v@),
            None => gunzip_of(data@) is None,
        },
{
    let mut d = flate2::read::GzDecoder::new(data.as_slice());
    let mut out = Vec::new();
    match d.read_to_end(&mut out) {
        Ok(_) => Some(out),
        Err(_) => None,
    }
}

/// The first eight KiB of a buffer, or all of it when shorter.
pub open spec fn head8k(s: Seq<u8>) -> Seq<u8> {
    if s.len() < 8192 {
        s
    } else {
        s.subrange(0, 8192)
    }
}

impl ContainerExtractor {
    /// Search a ZIP archive for MFT bytes: first by entry name, then by
    /// content signature over every plausibly sized entry. Whatever the
    /// archive holds, bytes are returned only when they pass the MFT
    /// signature heuristic, on the whole buffer or on its first eight
    /// KiB; an archive with a name-pass candidate always yields the first
    /// one.
    pub fn extract_from_zip(data: &Vec<u8>, password: Option<&Vec<u8>>) -> (r: Result<
        Vec<u8>,
        Error,
    >)
        ensures
            r matches Ok(v) ==> mft_signature_valid(v@) || mft_signature_valid(head8k(v@)),
            r matches Err(e) ==> e is InvalidInput || e is Zip,
            zip_entry_count(data@) is None ==> (r matches Err(e) && e is Zip),
            zip_entry_count(data@) matches Some(n) ==> match zip_mft_scan(
                data@,
                n,
                pw_view(password),
            ) {
                Some(b) => r matches Ok(v) && v@ == b,
                None => true,
            },
    {
        let n = match zip_len(data) {
            Some(n) => n,
            None => {
                return Err(Error::Zip(String::from_str("invalid or unreadable ZIP archive")));
            },
        };
        let mut i: usize = 0;
        while i < n
            invariant
                zip_entry_count(data@) == Some(n as int),
                forall|k: int|
                    0 <= k < i ==> zip_mft_candidate(data@, k, pw_view(password)) is None,
            decreases n - i,
        {
            if let Some(name) = zip_name(data, i) {
                let nb = name.as_str().as_bytes();
                proof {
                    assert(nb@ == zip_name_bytes(data@, i as int));
                }
                if find_bytes(nb, "$MFT".as_bytes()) || find_bytes(nb, "$mft".as_bytes())
                    || find_bytes(nb, "MFT".as_bytes()) || find_bytes(nb, "mft".as_bytes()) {
                    if let Some(raw) = zip_read(data, i, password) {
                        let content: Option<Vec<u8>> = if ends_with(nb, ".gz".as_bytes()) {
                            gunzip(&raw)
                        } else {
                            Some(raw)
                        };
                        if let Some(bytes) = content {
                            if ContainerExtractor::validate_mft_signature(bytes.as_slice()) {
                                proof {
                                    assert(zip_mft_candidate(data@, i as int, pw_view(password))
                                        == Some(bytes@));
                                    lemma_mft_scan_found(
                                        data@,
                                        i as int,
                                        n as int,
                                        pw_view(password),
                                    );
                                }
                                return Ok(bytes);
                            }
                        }
                    }
                }
            } else {
                proof {
                    assert(false);
                }
            }
            i = i + 1;
        }
        proof {
            lemma_mft_scan_none(data@, n as int, pw_view(password));
        }
        let mut j: usize = 0;
        while j < n
            invariant
                zip_entry_count(data@) == Some(n as int),
                zip_mft_scan(data@, n as int, pw_view(password)) is None,
            decreases n - j,
        {
            let size = match zip_size(data, j) {
                Some(s) => s,
                None => {
                    j = j + 1;
                    continue ;
                },
            };
            if size >= 1024 && size <= 10737418240 {
                if let Some(bytes) = zip_read(data, j, password) {
                    let head_len: usize = if bytes.len() < 8192 {
                        bytes.len()
                    } else {
                        8192
                    };
                    let head = vstd::slice::slice_subrange(bytes.as_slice(), 0, head_len);
                    proof {
                        assert(head@ =~= head8k(bytes@));
                    }
                    if ContainerExtractor::validate_mft_signature(head) {
                        return Ok(bytes);
                    }
                }
            }
            j = j + 1;
        }
        Err(Error::InvalidInput(String::from_str(
            "No valid MFT file found in ZIP archive. Searched by filename patterns and MFT signatures.",
        )))
    }

    /// Walk a ZIP archive and pull out every recognised artifact: exactly
    /// the entries whose names classify and whose bytes decode, in entry
    /// order, each carrying its classified kind; a gzipped entry that
    /// fails to inflate aborts the walk, and an empty result is an error.
    pub fn extract_all_from_zip(data: &Vec<u8>, password: Option<&Vec<u8>>) -> (r: Result<
        ExtractedArtifacts,
        Error,
    >)
        ensures
            r matches Ok(a) ==> a.artifacts@.len() > 0 && (forall|k: int|
                0 <= k < a.artifacts@.len() ==> artifact_type_spec(
                    vstd::utf8::encode_utf8((#[trigger] a.artifacts@[k]).name@),
                ) == Some(a.artifacts@[k].artifact_type)),
            r matches Err(e) ==> e is InvalidInput || e is Zip || e is Io,
            zip_entry_count(data@) is None ==> (r matches Err(e) && e is Zip),
            zip_entry_count(data@) matches Some(n) ==> match zip_artifact_scan(
                data@,
                n,
                pw_view(password),
            ) {
                None => r matches Err(e) && e is Io,
                Some(s) => if s.len() == 0 {
                    r matches Err(e) && e is InvalidInput
                } else {
                    r matches Ok(a) && a.artifacts@.map_values(|x: ExtractedArtifact| x@) == s
                },
            },
    {
        let n = match zip_len(data) {
            Some(n) => n,
            None => {
                return Err(Error::Zip(String::from_str("invalid or unreadable ZIP archive")));
            },
        };
        let mut artifacts: Vec<ExtractedArtifact> = Vec::new();
        let mut i: usize = 0;
        while i < n
            invariant
                zip_entry_count(data@) == Some(n as int),
                i <= n,
                forall|k: int|
                    0 <= k < artifacts@.len() ==> artifact_type_spec(
                        vstd::utf8::encode_utf8((#[trigger] artifacts@[k]).name@),
                    ) == Some(artifacts@[k].artifact_type),
                zip_artifact_scan(data@, i as int, pw_view(password)) == Some(
                    artifacts@.map_values(|x: ExtractedArtifact| x@),
                ),
            decreases n - i,
        {
            let ghost prev = artifacts@.map_values(|x: ExtractedArtifact| x@);
            let name = match zip_name(data, i) {
                Some(s) => s,
                None => {
                    proof {
                        assert(false);
                    }
                    i = i + 1;
                    continue ;
                },
            };
            proof {
                assert(vstd::utf8::encode_utf8(name@) == zip_name_bytes(data@, i as int));
            }
            let kind = match ContainerExtractor::detect_artifact_type(name.as_str()) {
                Some(t) => t,
                None => {
                    i = i + 1;
                    continue ;
                },
            };
            let raw = match zip_read(data, i, password) {
                Some(v) => v,
                None => {
                    i = i + 1;
                    continue ;
                },
            };
            let content: Vec<u8> = if ends_with(name.as_str().as_bytes(), ".gz".as_bytes()) {
                match gunzip(&raw) {
                    Some(v) => v,
                    None => {
                        proof {
                            lemma_artifact_scan_none(
                                data@,
                                i + 1,
                                n as int,
                                pw_view(password),
                            );
                        }
                        return Err(Error::Io(String::from_str(
                            "failed to decompress gzipped archive entry",
                        )));
                    },
                }
            } else {
                raw
            };
            artifacts.push(ExtractedArtifact { name, artifact_type: kind, data: content });
            proof {
                broadcast use Seq::lemma_push_map_commute;

                assert(artifacts@.map_values(|x: ExtractedArtifact| x@) =~= prev.push(
                    artifacts@.last()@,
                ));
            }
            i = i + 1;
        }
        if artifacts.len() == 0 {
            return Err(Error::InvalidInput(String::from_str(
                "No supported artifacts found in ZIP archive. Expected MFT, LNK, jumplist, or registry files.",
            )));
        }
        Ok(ExtractedArtifacts { artifacts })
    }

    /// Extract every artifact a container holds, dispatching on the
    /// path's extension: ZIP archives are walked, raw images yield their
    /// MFT as a single artifact, EWF images and unknown extensions are
    /// rejected.
    pub fn extract_artifacts(data: &Vec<u8>, path: &str, password: Option<&Vec<u8>>) -> (r:
        Result<ExtractedArtifacts, Error>)
        ensures
            container_kind_spec(path.spec_bytes()) is None ==> (r matches Err(e) && e
                is InvalidInput),
            container_kind_spec(path.spec_bytes()) == Some(ContainerType::E01) ==> (r matches Err(
                e,
            ) && e is Unsupported),
            container_kind_spec(path.spec_bytes()) == Some(ContainerType::Zip) ==> ({
                &&& (r matches Ok(a) ==> a.artifacts@.len() > 0)
                &&& (zip_entry_count(data@) is None ==> (r matches Err(e) && e is Zip))
                &&& (zip_entry_count(data@) matches Some(n) ==> match zip_artifact_scan(
                    data@,
                    n,
                    pw_view(password),
                ) {
                    None => r matches Err(e) && e is Io,
                    Some(s) => if s.len() == 0 {
                        r matches Err(e) && e is InvalidInput
                    } else {
                        r matches Ok(a) && a.artifacts@.map_values(|x: ExtractedArtifact| x@)
                            == s
                    },
                })
            }),
            container_kind_spec(path.spec_bytes()) == Some(ContainerType::Raw) ==> match
                raw_mft_spec(data@) {
                Some(m) => r matches Ok(a) && a.artifacts@.len() == 1 && a.artifacts@[0].data@
                    == m && a.artifacts@[0].artifact_type == InputType::Mft,
                None => r matches Err(e) && e is InvalidInput,
            },
    {
        let ext: Vec<u8> = match extension_lower(path) {
            Some(e) => e,
            None => Vec::new(),
        };
        proof {
            assert(ext@ =~= ext_lower_or_empty(path.spec_bytes()));
        }
        if bytes_eq(ext.as_slice(), "zip".as_bytes()) {
            ContainerExtractor::extract_all_from_zip(data, password)
        } else if bytes_eq(ext.as_slice(), "e01".as_bytes()) {
            Err(Error::Unsupported(String::from_str(
                "E01 multi-artifact extraction is not implemented; extract individual files first",
            )))
        } else if bytes_eq(ext.as_slice(), "dd".as_bytes()) || bytes_eq(
            ext.as_slice(),
            "raw".as_bytes(),
        ) || bytes_eq(ext.as_slice(), "img".as_bytes()) {
            ContainerExtractor::extract_all_from_raw(data)
        } else {
            Err(Error::InvalidInput(String::from_str("Unsupported container format")))
        }
    }

    /// Extract MFT bytes from a container, dispatching on the path's
    /// extension.
    pub fn extract_mft_data(data: &Vec<u8>, path: &str, password: Option<&Vec<u8>>) -> (r: Result<
        Vec<u8>,
        Error,
    >)
        ensures
            container_kind_spec(path.spec_bytes()) is None ==> (r matches Err(e) && e
                is InvalidInput),
            container_kind_spec(path.spec_bytes()) == Some(ContainerType::E01) ==> (r matches Err(
                e,
            ) && e is Unsupported),
            container_kind_spec(path.spec_bytes()) == Some(ContainerType::Zip) ==> ({
                &&& (r matches Ok(v) ==> mft_signature_valid(v@) || mft_signature_valid(
                    head8k(v@),
                ))
                &&& (zip_entry_count(data@) is None ==> (r matches Err(e) && e is Zip))
                &&& (zip_entry_count(data@) matches Some(n) ==> match zip_mft_scan(
                    data@,
                    n,
                    pw_view(password),
                ) {
                    Some(b) => r matches Ok(v) && v@ == b,
                    None => true,
                })
            }),
            container_kind_spec(path.spec_bytes()) == Some(ContainerType::Raw) ==> match
                raw_mft_spec(data@) {
                Some(m) => r matches Ok(v) && v@ == m,
                None => r matches Err(e) && e is InvalidInput,
            },
    {
        let ext: Vec<u8> = match extension_lower(path) {
            Some(e) => e,
            None => Vec::new(),
        };
        proof {
            assert(ext@ =~= ext_lower_or_empty(path.spec_bytes()));
        }
        if bytes_eq(ext.as_slice(), "zip".as_bytes()) {
            ContainerExtractor::extract_from_zip(data, password)
        } else if bytes_eq(ext.as_slice(), "e01".as_bytes()) {
            ContainerExtractor::extract_from_e01(data.as_slice())
        } else if bytes_eq(ext.as_slice(), "dd".as_bytes()) || bytes_eq(
            ext.as_slice(),
            "raw".as_bytes(),
        ) || bytes_eq(ext.as_slice(), "img".as_bytes()) {
            ContainerExtractor::extract_from_raw(data.as_slice())
        } else {
            Err(Error::InvalidInput(String::from_str("Unsupported container format")))
        }
    }

    /// Inflate a gzip stream held in memory; nothing when the bytes are
    /// not a valid gzip stream.
    pub fn decompress_gzip(data: &Vec<u8>) -> (r: Option<Vec<u8>>)
        ensures
            match r {
                Some(v) => gunzip_of(data@) == Some(v@),
                None => gunzip_of(data@) is None,
            },
    {
        gunzip(data)
    }

    /// Raw images yield their MFT as the single artifact.
    pub fn extract_all_from_raw(data: &Vec<u8>) -> (r: Result<ExtractedArtifacts, Error>)
        ensures
            match raw_mft_spec(data@) {
                Some(m) => r matches Ok(a) && a.artifacts@.len() == 1 && a.artifacts@[0].data@
                    == m && a.artifacts@[0].artifact_type == InputType::Mft,
                None => r matches Err(e) && e is InvalidInput,
            },
    {
        let mft_data = match ContainerExtractor::extract_from_raw(data.as_slice()) {
            Ok(v) => v,
            Err(e) => {
                return Err(e);
            },
        };
        let mut artifacts: Vec<ExtractedArtifact> = Vec::new();
        artifacts.push(
            ExtractedArtifact {
                name: String::from_str("$MFT"),
                artifact_type: InputType::Mft,
                data: mft_data,
            },
        );
        Ok(ExtractedArtifacts { artifacts })
    }
}

} // verus!
