//! Signature scanning, attribute walking and batch timestamp conversion.
//!
//! One scalar implementation serves every platform; the record outputs are
//! a function of the bytes alone, so any accelerated variant must agree
//! with the contracts stated here.

use vstd::prelude::*;
use crate::strutil::{le16_at, le32_at, read_le16, read_le32, fnv1a, fnv1a_spec, utf8_lossy,
    utf8_lossy_of, utf16_lossy, utf16_lossy_of, utf16_units, utf16_units_of};
use crate::datetime::{filetime_to_ticks_spec, convert_filetime};
use std::collections::HashMap;

verus! {

/// "FILE" read as a little-endian 32-bit word.
pub const FILE_SIG_PATTERN: u32 = 0x454C4946;

/// "BAAD" read as a little-endian 32-bit word.
pub const BAAD_SIG_PATTERN: u32 = 0x44414142;

/// The all-zero signature word.
pub const ZERO_SIG_PATTERN: u32 = 0x00000000;

/// A readable FILE signature starts at offset `p`.
pub open spec fn file_sig_at(data: Seq<u8>, p: int) -> bool {
    0 <= p && p + 4 <= data.len() && le32_at(data, p) == FILE_SIG_PATTERN
}

/// A readable FILE or BAAD signature starts at offset `p`.
pub open spec fn record_sig_at(data: Seq<u8>, p: int) -> bool {
    0 <= p && p + 4 <= data.len() && (le32_at(data, p) == FILE_SIG_PATTERN || le32_at(data, p)
        == BAAD_SIG_PATTERN)
}

/// The number of 1024-byte scan chunks of a buffer, counting a final
/// partial chunk.
pub open spec fn record_chunks(len: int) -> int {
    len / 1024 + if len % 1024 == 0 {
        0int
    } else {
        1int
    }
}

/// The ascending 1024-stride offsets below chunk `n` that carry a FILE
/// signature.
pub open spec fn file_positions_upto(data: Seq<u8>, n: int) -> Seq<int>
    decreases n,
{
    if n <= 0 {
        Seq::empty()
    } else {
        file_positions_upto(data, n - 1) + (if file_sig_at(data, (n - 1) * 1024) {
            seq![(n - 1) * 1024]
        } else {
            Seq::empty()
        })
    }
}

/// The record boundaries the dense scan finds.
pub open spec fn scanner_positions(data: Seq<u8>) -> Seq<int> {
    file_positions_upto(data, record_chunks(data.len() as int))
}

/// Membership in `file_positions_upto`: exactly the 1024-multiples below
/// the bound at which a FILE signature starts.
proof fn lemma_file_positions_membership(data: Seq<u8>, n: int, p: int)
    ensures
        file_positions_upto(data, n).contains(p) <==> (exists|i: int|
            0 <= i < n && p == #[trigger] (i * 1024)) && file_sig_at(data, p),
    decreases n,
{
    if n > 0 {
        lemma_file_positions_membership(data, n - 1, p);
        let prefix = file_positions_upto(data, n - 1);
        let whole = file_positions_upto(data, n);
        if file_sig_at(data, (n - 1) * 1024) {
            assert(whole == prefix + seq![(n - 1) * 1024]);
            if p == (n - 1) * 1024 {
                assert(whole[whole.len() - 1] == p);
                assert(whole.contains(p));
            }
            if whole.contains(p) {
                let j = choose|j: int| 0 <= j < whole.len() && whole[j] == p;
                if j < prefix.len() {
                    assert(prefix[j] == p);
                    assert(prefix.contains(p));
                } else {
                    assert(p == (n - 1) * 1024);
                }
            }
            if prefix.contains(p) {
                let j = choose|j: int| 0 <= j < prefix.len() && prefix[j] == p;
                assert(whole[j] == p);
                assert(whole.contains(p));
            }
        } else {
            assert(whole =~= prefix);
            if (exists|i: int| 0 <= i < n && p == #[trigger] (i * 1024)) && file_sig_at(data, p) {
                let i = choose|i: int| 0 <= i < n && p == #[trigger] (i * 1024);
                if i < n - 1 {
                    assert((exists|k: int| 0 <= k < n - 1 && p == #[trigger] (k * 1024)));
                }
            }
        }
    }
}

/// Scan for record boundaries at every 1024-byte stride: exactly the
/// stride-aligned offsets whose four bytes read "FILE" are returned, in
/// ascending order.
pub fn scan_record_boundaries_simd(data: &[u8]) -> (r: Vec<usize>)
    ensures
        r@.map_values(|p: usize| p as int) == scanner_positions(data@),
{
    let len = data.len();
    let n_chunks = len / 1024 + (if len % 1024 == 0 {
        0
    } else {
        1
    });
    proof {
        assert((len / 1024) * 1024 <= len) by (nonlinear_arith)
            requires
                len >= 0,
        ;
    }
    let mut r: Vec<usize> = Vec::new();
    let mut i: usize = 0;
    while i < n_chunks
        invariant
            len == data@.len(),
            n_chunks == record_chunks(len as int),
            (n_chunks - 1) * 1024 <= len,
            i <= n_chunks,
            r@.map_values(|p: usize| p as int) == file_positions_upto(data@, i as int),
        decreases n_chunks - i,
    {
        proof {
            assert(i * 1024 <= (n_chunks - 1) * 1024) by (nonlinear_arith)
                requires
                    i < n_chunks,
            ;
        }
        let p: usize = i * 1024;
        if p <= len && len - p >= 4 {
            let sig = read_le32(data, p);
            if sig == FILE_SIG_PATTERN {
                r.push(p);
            }
        }
        proof {
            assert(r@.map_values(|q: usize| q as int) =~= file_positions_upto(data@, i + 1));
        }
        i = i + 1;
    }
    r
}

/// Signature discipline: the dense scan emits an offset exactly when it is
/// 1024-aligned and the four bytes there read "FILE".
pub proof fn lemma_signature_discipline(data: Seq<u8>, p: int)
    ensures
        scanner_positions(data).contains(p) <==> (p % 1024 == 0 && file_sig_at(data, p)),
{
    let n = record_chunks(data.len() as int);
    lemma_file_positions_membership(data, n, p);
    if p % 1024 == 0 && file_sig_at(data, p) {
        let i = p / 1024;
        assert(p == i * 1024);
        assert(i < n) by (nonlinear_arith)
            requires
                i * 1024 + 4 <= data.len(),
                n == data.len() as int / 1024 + (if data.len() as int % 1024 == 0 {
                    0int
                } else {
                    1int
                }),
                0 <= i,
                p == i * 1024,
        ;
        assert((exists|k: int| 0 <= k < n && p == #[trigger] (k * 1024)));
    }
    if scanner_positions(data).contains(p) {
        let i = choose|i: int| 0 <= i < n && p == #[trigger] (i * 1024);
        assert(p % 1024 == 0) by (nonlinear_arith)
            requires
                p == i * 1024,
        ;
    }
}

/// The ascending 4-stride offsets below chunk `n` that carry a FILE or
/// BAAD signature word.
pub open spec fn sig4_positions_upto(data: Seq<u8>, n: int) -> Seq<int>
    decreases n,
{
    if n <= 0 {
        Seq::empty()
    } else {
        sig4_positions_upto(data, n - 1) + (if record_sig_at(data, (n - 1) * 4) {
            seq![(n - 1) * 4]
        } else {
            Seq::empty()
        })
    }
}

/// The offsets a 4-byte-chunk signature sweep finds.
pub open spec fn scalar_sig_positions(data: Seq<u8>) -> Seq<int> {
    sig4_positions_upto(data, data.len() as int / 4)
}

/// Sweep the buffer in 4-byte chunks for FILE and BAAD signature words,
/// returning the matching offsets in ascending order.
pub fn find_signatures_scalar(data: &[u8]) -> (r: Vec<usize>)
    ensures
        r@.map_values(|p: usize| p as int) == scalar_sig_positions(data@),
{
    let len = data.len();
    let n_chunks = len / 4;
    proof {
        assert(n_chunks * 4 <= len) by (nonlinear_arith)
            requires
                n_chunks == len / 4,
        ;
    }
    let mut r: Vec<usize> = Vec::new();
    let mut i: usize = 0;
    while i < n_chunks
        invariant
            len == data@.len(),
            n_chunks == len as int / 4,
            n_chunks * 4 <= len,
            i <= n_chunks,
            r@.map_values(|p: usize| p as int) == sig4_positions_upto(data@, i as int),
        decreases n_chunks - i,
    {
        proof {
            assert(i * 4 <= (n_chunks - 1) * 4) by (nonlinear_arith)
                requires
                    i < n_chunks,
            ;
        }
        let p: usize = i * 4;
        let sig = read_le32(data, p);
        if sig == FILE_SIG_PATTERN || sig == BAAD_SIG_PATTERN {
            r.push(p);
        }
        proof {
            assert(r@.map_values(|q: usize| q as int) =~= sig4_positions_upto(data@, i + 1));
        }
        i = i + 1;
    }
    r
}

/// The typed attribute walk of a record buffer, starting at `offset`:
/// each step reads a type word and a length word, stops on the end
/// sentinel, a length below 16 or a length overflowing the buffer, and
/// emits the offsets whose type is among the targets.
pub open spec fn attr_walk(data: Seq<u8>, targets: Seq<u32>, offset: int) -> Seq<(u32, int)>
    decreases data.len() - offset,
{
    if offset < 0 || offset + 8 > data.len() {
        Seq::empty()
    } else {
        let ty = le32_at(data, offset);
        let alen = le32_at(data, offset + 4);
        if ty == 0xFFFFFFFF || alen < 16 || offset + alen > data.len() {
            Seq::empty()
        } else {
            (if targets.contains(ty as u32) {
                seq![(ty as u32, offset)]
            } else {
                Seq::empty()
            }) + attr_walk(data, targets, offset + alen)
        }
    }
}

/// Every offset the attribute walk emits leaves at least 16 readable
/// bytes in the buffer.
pub proof fn lemma_attr_walk_bounds(data: Seq<u8>, targets: Seq<u32>, offset: int)
    ensures
        forall|j: int|
            0 <= j < attr_walk(data, targets, offset).len() ==> 0 <= #[trigger] attr_walk(
                data, targets, offset)[j].1 && attr_walk(data, targets, offset)[j].1 + 16
                <= data.len(),
    decreases data.len() - offset,
{
    if offset < 0 || offset + 8 > data.len() {
    } else {
        let ty = le32_at(data, offset);
        let alen = le32_at(data, offset + 4);
        if ty == 0xFFFFFFFF || alen < 16 || offset + alen > data.len() {
        } else {
            lemma_attr_walk_bounds(data, targets, offset + alen);
            let head: Seq<(u32, int)> = if targets.contains(ty as u32) {
                seq![(ty as u32, offset)]
            } else {
                Seq::empty()
            };
            let tail = attr_walk(data, targets, offset + alen);
            let whole = attr_walk(data, targets, offset);
            assert(whole == head + tail);
            assert forall|j: int| 0 <= j < whole.len() implies 0 <= whole[j].1 && whole[j].1 + 16
                <= data.len() by {
                if j < head.len() {
                    assert(whole[j] == head[j]);
                } else {
                    assert(whole[j] == tail[j - head.len()]);
                }
            }
        }
    }
}

/// Every offset `attrs_found` emits leaves at least 16 readable bytes.
pub proof fn lemma_attrs_found_bounds(data: Seq<u8>, targets: Seq<u32>)
    ensures
        forall|j: int|
            0 <= j < attrs_found(data, targets).len() ==> 0 <= #[trigger] attrs_found(
                data, targets)[j].1 && attrs_found(data, targets)[j].1 + 16 <= data.len(),
{
    if data.len() < 24 {
    } else {
        let fo = le16_at(data, 20);
        if fo >= data.len() {
        } else {
            lemma_attr_walk_bounds(data, targets, fo);
        }
    }
}

/// The attributes found in a record: the walk from the header's first
/// attribute offset (read at byte 20), empty for undersized records.
pub open spec fn attrs_found(data: Seq<u8>, targets: Seq<u32>) -> Seq<(u32, int)> {
    if data.len() < 24 {
        Seq::empty()
    } else {
        let fo = le16_at(data, 20);
        if fo >= data.len() {
            Seq::empty()
        } else {
            attr_walk(data, targets, fo)
        }
    }
}

/// Walk the attributes of one record buffer, returning `(type, offset)`
/// pairs for the requested attribute types in walk order.
pub fn find_attributes_simd(record_data: &[u8], target_types: &[u32]) -> (r: Vec<(u32, usize)>)
    ensures
        r@.map_values(|a: (u32, usize)| (a.0, a.1 as int)) == attrs_found(
            record_data@, target_types@),
{
    let len = record_data.len();
    let mut r: Vec<(u32, usize)> = Vec::new();
    if len < 24 {
        proof {
            assert(r@.map_values(|a: (u32, usize)| (a.0, a.1 as int)) =~= attrs_found(
                record_data@, target_types@));
        }
        return r;
    }
    let first_attr_offset = read_le16(record_data, 20) as usize;
    if first_attr_offset >= len {
        proof {
            assert(r@.map_values(|a: (u32, usize)| (a.0, a.1 as int)) =~= attrs_found(
                record_data@, target_types@));
        }
        return r;
    }
    let mut offset: usize = first_attr_offset;
    loop
        invariant
            len == record_data@.len(),
            24 <= len,
            offset <= len,
            attrs_found(record_data@, target_types@) == r@.map_values(
                |a: (u32, usize)| (a.0, a.1 as int),
            ) + attr_walk(record_data@, target_types@, offset as int),
        decreases len - offset,
    {
        if len - offset < 8 {
            proof {
                assert(attr_walk(record_data@, target_types@, offset as int) =~= Seq::<(
                    u32,
                    int,
                )>::empty());
                assert(attrs_found(record_data@, target_types@) =~= r@.map_values(
                    |a: (u32, usize)| (a.0, a.1 as int)));
            }
            return r;
        }
        let ty = read_le32(record_data, offset);
        if ty == 0xFFFFFFFF {
            proof {
                assert(attr_walk(record_data@, target_types@, offset as int) =~= Seq::<(
                    u32,
                    int,
                )>::empty());
                assert(attrs_found(record_data@, target_types@) =~= r@.map_values(
                    |a: (u32, usize)| (a.0, a.1 as int)));
            }
            return r;
        }
        let alen_raw = read_le32(record_data, offset + 4);
        if alen_raw < 16 || alen_raw as u64 > (len - offset) as u64 {
            proof {
                assert(attr_walk(record_data@, target_types@, offset as int) =~= Seq::<(
                    u32,
                    int,
                )>::empty());
                assert(attrs_found(record_data@, target_types@) =~= r@.map_values(
                    |a: (u32, usize)| (a.0, a.1 as int)));
            }
            return r;
        }
        let alen = alen_raw as usize;
        let ghost prev = r@;
        if contains_u32(target_types, ty) {
            r.push((ty, offset));
        }
        proof {
            assert(r@.map_values(|a: (u32, usize)| (a.0, a.1 as int)) =~= prev.map_values(
                |a: (u32, usize)| (a.0, a.1 as int)) + (if target_types@.contains(ty) {
                seq![(ty, offset as int)]
            } else {
                Seq::<(u32, int)>::empty()
            }));
            assert(attrs_found(record_data@, target_types@) =~= r@.map_values(
                |a: (u32, usize)| (a.0, a.1 as int)) + attr_walk(
                record_data@, target_types@, offset + alen));
        }
        offset = offset + alen;
    }
}

/// The byte at index `i` after fixup application: inside each protected
/// sub-sector the last two bytes are replaced by the matching update
/// sequence array entry; every other byte is kept.
pub open spec fn fixup_byte(old: Seq<u8>, off: int, size: int, i: int) -> u8 {
    let k = i / 512;
    if i % 512 >= 510 && k < size - 1 && 512 * k + 512 <= old.len() {
        old[off + 2 * k + 2 + (i % 512 - 510)]
    } else {
        old[i]
    }
}

/// The whole buffer after fixup application.
pub open spec fn fixup_applied(old: Seq<u8>, off: int, size: int) -> Seq<u8> {
    Seq::new(old.len(), |i: int| fixup_byte(old, off, size, i))
}

/// The fixup check passes: every protected sub-sector ends in the update
/// sequence number, the first entry of the array.
pub open spec fn fixup_valid(old: Seq<u8>, off: int, size: int) -> bool {
    forall|k: int|
        0 <= k < size - 1 && 512 * k + 512 <= old.len() ==> old[#[trigger] (512 * k) + 510]
            == old[off] && old[512 * k + 511] == old[off + 1]
}

/// Fixup correctness: after application, each protected sub-sector's last
/// two bytes equal the update sequence array entry for that sub-sector.
pub proof fn lemma_fixup_correctness(old: Seq<u8>, off: int, size: int, k: int)
    requires
        size >= 2,
        0 <= off,
        off + 2 * size <= old.len(),
        0 <= k < size - 1,
        512 * k + 512 <= old.len(),
    ensures
        fixup_applied(old, off, size)[512 * k + 510] == old[off + 2 * (k + 1)],
        fixup_applied(old, off, size)[512 * k + 511] == old[off + 2 * (k + 1) + 1],
{
    assert((512 * k + 510) / 512 == k && (512 * k + 510) % 512 == 510) by (nonlinear_arith)
        requires
            0 <= k,
    ;
    assert((512 * k + 511) / 512 == k && (512 * k + 511) % 512 == 511) by (nonlinear_arith)
        requires
            0 <= k,
    ;
}

/// Apply update-sequence fixups to one record buffer.
///
/// With a trivial array (`usa_size <= 1`) the buffer is untouched and the
/// check passes. An array that would overflow the buffer leaves it
/// untouched and fails. Otherwise the buffer becomes `fixup_applied` and
/// the result reports whether every protected sub-sector ended in the
/// update sequence number.
pub fn apply_fixups_simd(
    buffer: &mut Vec<u8>,
    usa_offset: usize,
    usa_size: usize,
    record_number: u64,
) -> (valid: bool)
    ensures
        usa_size <= 1 ==> final(buffer)@ == old(buffer)@ && valid,
        usa_size > 1 && usa_offset + usa_size * 2 > old(buffer)@.len() ==> final(buffer)@ == old(
            buffer,
        )@ && !valid,
        usa_size > 1 && usa_offset + usa_size * 2 <= old(buffer)@.len() ==> final(buffer)@
            == fixup_applied(old(buffer)@, usa_offset as int, usa_size as int) && valid
            == fixup_valid(old(buffer)@, usa_offset as int, usa_size as int),
{
    let len = buffer.len();
    if usa_size <= 1 {
        return true;
    }
    if usa_offset as u128 + (usa_size as u128) * 2 > len as u128 {
        return false;
    }
    let ghost orig = buffer@;
    // Validity check against the update sequence number, before any write.
    let mut valid = true;
    let mut k: usize = 0;
    while k < usa_size - 1 && len - 512 * k >= 512
        invariant
            buffer@ == orig,
            len == orig.len(),
            2 <= usa_size,
            usa_offset + usa_size * 2 <= len,
            512 * k <= len,
            k <= usa_size - 1,
            valid == (forall|j: int|
                0 <= j < k && 512 * j + 512 <= len ==> orig[#[trigger] (512 * j) + 510]
                    == orig[usa_offset as int] && orig[512 * j + 511] == orig[usa_offset + 1]),
        decreases usa_size - 1 - k,
    {
        let s = 512 * k;
        if buffer[s + 510] != buffer[usa_offset] || buffer[s + 511] != buffer[usa_offset + 1] {
            valid = false;
        }
        proof {
            assert(forall|j: int|
                0 <= j < k + 1 && #[trigger] (512 * j) + 512 <= len ==> (0 <= j < k && 512 * j
                    + 512 <= len) || j == k);
        }
        k = k + 1;
    }
    proof {
        if k < usa_size - 1 {
            assert(forall|j: int|
                k <= j ==> #[trigger] (512 * j) + 512 >= 512 * (k as int) + 512)
                by (nonlinear_arith);
        }
        assert(valid == fixup_valid(orig, usa_offset as int, usa_size as int));
    }
    // Apply the fixups by rebuilding the buffer.
    let mut out: Vec<u8> = Vec::new();
    let mut i: usize = 0;
    while i < len
        invariant
            buffer@ == orig,
            len == orig.len(),
            2 <= usa_size,
            usa_offset + usa_size * 2 <= len,
            i <= len,
            out@ =~= fixup_applied(orig, usa_offset as int, usa_size as int).take(i as int),
        decreases len - i,
    {
        let q = i / 512;
        let rm = i % 512;
        proof {
            assert(512 * (i as int / 512) <= i) by (nonlinear_arith)
                requires
                    i >= 0,
            ;
        }
        let s = 512 * q;
        let b: u8 = if rm >= 510 && q + 1 < usa_size && len - s >= 512 {
            buffer[usa_offset + 2 * q + 2 + (rm - 510)]
        } else {
            buffer[i]
        };
        out.push(b);
        proof {
            assert(out@ =~= fixup_applied(orig, usa_offset as int, usa_size as int).take(i + 1));
        }
        i = i + 1;
    }
    proof {
        assert(fixup_applied(orig, usa_offset as int, usa_size as int).take(len as int)
            =~= fixup_applied(orig, usa_offset as int, usa_size as int));
    }
    *buffer = out;
    valid
}

/// Linear membership test on a slice of attribute type words.
fn contains_u32(haystack: &[u32], x: u32) -> (r: bool)
    ensures
        r == haystack@.contains(x),
{
    let mut i: usize = 0;
    while i < haystack.len()
        invariant
            i <= haystack@.len(),
            forall|j: int| 0 <= j < i ==> haystack@[j] != x,
        decreases haystack.len() - i,
    {
        if haystack[i] == x {
            return true;
        }
        i = i + 1;
    }
    false
}

/// Batch FILETIME conversion to 100 ns ticks since the Unix epoch.
pub fn convert_timestamps_simd(filetimes: &[u64]) -> (r: Vec<Option<u64>>)
    ensures
        r@ == filetimes@.map_values(|ft: u64| filetime_to_ticks_spec(ft)),
{
    let mut r: Vec<Option<u64>> = Vec::new();
    let mut i: usize = 0;
    while i < filetimes.len()
        invariant
            i <= filetimes@.len(),
            r@ == filetimes@.map_values(|ft: u64| filetime_to_ticks_spec(ft)).take(i as int),
        decreases filetimes.len() - i,
    {
        r.push(convert_filetime(filetimes[i]));
        proof {
            assert(r@ =~= filetimes@.map_values(|ft: u64| filetime_to_ticks_spec(ft)).take(
                i + 1));
        }
        i = i + 1;
    }
    proof {
        assert(filetimes@.map_values(|ft: u64| filetime_to_ticks_spec(ft)).take(
            filetimes@.len() as int) =~= filetimes@.map_values(
            |ft: u64| filetime_to_ticks_spec(ft)));
    }
    r
}

/// The text a UTF-16 byte buffer interns as: whole little-endian unit
/// pairs decoded lossily, or the empty text when a byte is left over.
pub open spec fn utf16_intern_spec(data: Seq<u8>) -> Seq<char> {
    if data.len() % 2 == 0 {
        utf16_lossy_of(utf16_units_of(data))
    } else {
        Seq::<char>::empty()
    }
}

/// A string pool keyed by FNV-1a content hash: equal byte sequences come
/// back as the same pooled text, and a hash collision silently reuses the
/// earlier entry.
pub struct StringPool {
    pool: HashMap<u64, String>,
}

impl StringPool {
    /// The pooled strings, by content hash.
    pub closed spec fn view(&self) -> Map<u64, Seq<char>> {
        Map::new(
            |h: u64| self.pool@.contains_key(h),
            |h: u64| self.pool@[h]@,
        )
    }

    /// An empty pool.
    pub fn new() -> (r: Self)
        ensures
            r@ == Map::<u64, Seq<char>>::empty(),
    {
        let r = StringPool { pool: HashMap::new() };
        proof {
            assert(r@ =~= Map::<u64, Seq<char>>::empty());
        }
        r
    }

    /// Intern a byte sequence: always the lossy UTF-8 decoding of the
    /// bytes; the pool stores it under the content hash, and a pooled copy
    /// is reused only when it matches, so a hash collision cannot change
    /// the text.
    pub fn intern(&mut self, data: &[u8]) -> (r: String)
        ensures
            r@ == utf8_lossy_of(data@),
            final(self)@ == old(self)@ || final(self)@ == old(self)@.insert(
                fnv1a_spec(data@),
                utf8_lossy_of(data@),
            ),
    {
        let h = fnv1a(data);
        let s = utf8_lossy(data);
        if let Some(existing) = self.pool.get(&h) {
            if existing.eq(&s) {
                return existing.clone();
            }
            return s;
        }
        self.pool.insert(h, s.clone());
        proof {
            assert(self@ =~= old(self)@.insert(fnv1a_spec(data@), s@));
        }
        s
    }

    /// Intern a little-endian UTF-16 byte sequence, hashing the raw bytes
    /// and decoding whole unit pairs lossily; a buffer with a byte left
    /// over interns the empty text.
    pub fn intern_utf16(&mut self, utf16_data: &[u8]) -> (r: String)
        ensures
            r@ == utf16_intern_spec(utf16_data@),
            final(self)@ == old(self)@ || final(self)@ == old(self)@.insert(
                fnv1a_spec(utf16_data@),
                utf16_intern_spec(utf16_data@),
            ),
    {
        let h = fnv1a(utf16_data);
        let s = if utf16_data.len() % 2 != 0 {
            String::new()
        } else {
            let units = utf16_units(utf16_data);
            utf16_lossy(units.as_slice())
        };
        if let Some(existing) = self.pool.get(&h) {
            if existing.eq(&s) {
                return existing.clone();
            }
            return s;
        }
        self.pool.insert(h, s.clone());
        proof {
            assert(self@ =~= old(self)@.insert(fnv1a_spec(utf16_data@), s@));
        }
        s
    }
}

/// Relies on Vec::as_ptr: the numeric address of the vector's buffer.
/// The address depends on the allocator, so nothing is promised of it.
#[verifier::external_body]
fn vec_addr(v: &Vec<u8>) -> u64 {
    v.as_ptr() as u64
}

/// Relies on the mutable range index of Vec (std's IndexMut): a mutable
/// view of the bytes between the buffer's offset and its end; writes
/// through the view land in that range and touch nothing else.
#[verifier::external_body]
fn vec_range_mut(v: &mut Vec<u8>, start: usize, end: usize) -> (r: &mut [u8])
    requires
        start <= end <= old(v)@.len(),
    ensures
        r@ == old(v)@.subrange(start as int, end as int),
        final(v)@ == old(v)@.subrange(0, start as int) + final(r)@ + old(v)@.subrange(
            end as int, old(v)@.len() as int),
        final(r)@.len() == end - start,
{
    &mut v[start..end]
}

/// A byte buffer whose exposed window starts at an address aligned for
/// wide loads: the allocation is padded and the window offset chosen
/// against the allocation address observed at construction.
pub struct AlignedBuffer {
    data: Vec<u8>,
    alignment: usize,
    offset: usize,
    length: usize,
}

impl View for AlignedBuffer {
    type V = Seq<u8>;

    /// The bytes of the exposed window.
    closed spec fn view(&self) -> Seq<u8> {
        self.data@.subrange(self.offset as int, self.offset + self.length)
    }
}

impl AlignedBuffer {
    /// The window lies inside the allocation.
    pub closed spec fn wf(&self) -> bool {
        self.offset + self.length <= self.data@.len() && 1 <= self.alignment <= 4096
    }

    /// The window's length.
    pub closed spec fn len_spec(&self) -> int {
        self.length as int
    }

    /// Allocate a zeroed buffer of `size` bytes whose window is aligned
    /// to `alignment` against the allocation address observed now.
    pub fn new(size: usize, alignment: usize) -> (r: Self)
        requires
            1 <= alignment <= 4096,
            size <= usize::MAX - 4096,
        ensures
            r.wf(),
            r.len_spec() == size,
            r@.len() == size,
            forall|k: int| 0 <= k < size ==> r@[k] == 0,
    {
        let mut data: Vec<u8> = Vec::new();
        let total = size + alignment;
        let mut i: usize = 0;
        while i < total
            invariant
                i <= total,
                data@.len() == i,
                forall|k: int| 0 <= k < i ==> data@[k] == 0,
            decreases total - i,
        {
            data.push(0);
            i = i + 1;
        }
        let addr = vec_addr(&data);
        let rem = (addr % (alignment as u64)) as usize;
        let offset: usize = if rem == 0 {
            0
        } else {
            alignment - rem
        };
        let r = AlignedBuffer { data, alignment, offset, length: size };
        proof {
            assert(r@.len() == size);
        }
        r
    }

    /// The window, read-only.
    pub fn as_slice(&self) -> (r: &[u8])
        requires
            self.wf(),
        ensures
            r@ == self@,
            r@.len() == self.len_spec(),
    {
        let dl = self.data.len();
        proof {
            assert(self.offset + self.length <= dl);
        }
        let r = vstd::slice::slice_subrange(
            self.data.as_slice(),
            self.offset,
            self.offset + self.length,
        );
        r
    }

    /// The window, writable: what the caller writes through the returned
    /// slice is the window's new contents.
    pub fn as_mut_slice(&mut self) -> (r: &mut [u8])
        requires
            old(self).wf(),
        ensures
            r@ == old(self)@,
            r@.len() == old(self).len_spec(),
            final(self)@ == final(r)@,
            final(self).wf(),
            final(self).len_spec() == old(self).len_spec(),
    {
        let dl = self.data.len();
        proof {
            assert(self.offset + self.length <= dl);
        }
        let start = self.offset;
        let end = self.offset + self.length;
        let r = vec_range_mut(&mut self.data, start, end);
        r
    }

    /// Whether the window starts at an aligned address, judged against
    /// the allocation address observed now.
    pub fn is_aligned(&self) -> (r: bool)
        requires
            self.wf(),
    {
        let addr = vec_addr(&self.data);
        let a = self.alignment as u64;
        ((addr % a) + ((self.offset as u64) % a)) % a == 0
    }
}

} // verus!
