//! Byte-string helpers: ASCII case folding, substring search, content
//! hashing and decimal formatting, shared by the classifiers and writers.

use vstd::prelude::*;

verus! {

/// Relies on String::push: appends the given character to the end of the string.
pub assume_specification[ String::push ](s: &mut String, c: char)
    ensures
        final(s)@ == old(s)@.push(c),
;

/// ASCII lower-casing of a single byte.
pub open spec fn lower_byte(b: u8) -> u8 {
    if 65 <= b && b <= 90 {
        (b + 32) as u8
    } else {
        b
    }
}

/// ASCII lower-casing of a byte sequence; bytes outside 'A'..'Z' are kept.
pub open spec fn lower_bytes(s: Seq<u8>) -> Seq<u8> {
    s.map_values(|b: u8| lower_byte(b))
}

/// Lower-case a byte vector in ASCII.
pub fn to_lower_bytes(s: &[u8]) -> (r: Vec<u8>)
    ensures
        r@ == lower_bytes(s@),
{
    let mut out: Vec<u8> = Vec::new();
    let mut i: usize = 0;
    while i < s.len()
        invariant
            i <= s.len(),
            out@ == lower_bytes(s@).take(i as int),
        decreases s.len() - i,
    {
        let b = s[i];
        if 65 <= b && b <= 90 {
            out.push(b + 32);
        } else {
            out.push(b);
        }
        proof {
            assert(out@ =~= lower_bytes(s@).take(i + 1));
        }
        i = i + 1;
    }
    proof {
        assert(lower_bytes(s@).take(s@.len() as int) =~= lower_bytes(s@));
    }
    out
}

/// The needle occurs in the haystack starting at position `i`.
pub open spec fn matches_at(h: Seq<u8>, n: Seq<u8>, i: int) -> bool {
    0 <= i && i + n.len() <= h.len() && h.subrange(i, i + n.len() as int) == n
}

/// The needle occurs somewhere in the haystack.
pub open spec fn contains_bytes(h: Seq<u8>, n: Seq<u8>) -> bool {
    exists|i: int| matches_at(h, n, i)
}

/// The haystack ends with the needle.
pub open spec fn ends_with_bytes(h: Seq<u8>, n: Seq<u8>) -> bool {
    n.len() <= h.len() && h.subrange(h.len() - n.len(), h.len() as int) == n
}

/// The haystack starts with the needle.
pub open spec fn starts_with_bytes(h: Seq<u8>, n: Seq<u8>) -> bool {
    n.len() <= h.len() && h.subrange(0, n.len() as int) == n
}

/// Compare two byte slices for equality.
pub fn bytes_eq(a: &[u8], b: &[u8]) -> (r: bool)
    ensures
        r == (a@ == b@),
{
    if a.len() != b.len() {
        proof {
            assert(a@.len() != b@.len());
        }
        return false;
    }
    let mut i: usize = 0;
    while i < a.len()
        invariant
            i <= a.len(),
            a@.len() == b@.len(),
            forall|j: int| 0 <= j < i ==> a@[j] == b@[j],
        decreases a.len() - i,
    {
        if a[i] != b[i] {
            return false;
        }
        i = i + 1;
    }
    proof {
        assert(a@ =~= b@);
    }
    true
}

/// Does the needle occur in the haystack at position `i`?
fn check_match_at(h: &[u8], n: &[u8], i: usize) -> (r: bool)
    requires
        i + n@.len() <= h@.len(),
    ensures
        r == matches_at(h@, n@, i as int),
{
    let hl: usize = h.len();
    let nl: usize = n.len();
    let mut j: usize = 0;
    while j < nl
        invariant
            j <= nl,
            nl == n@.len(),
            hl == h@.len(),
            i + nl <= hl,
            forall|k: int| 0 <= k < j ==> h@[i + k] == n@[k],
        decreases nl - j,
    {
        if h[i + j] != n[j] {
            proof {
                assert(h@.subrange(i as int, i + n@.len() as int)[j as int] == h@[i + j]);
            }
            return false;
        }
        j = j + 1;
    }
    proof {
        assert(h@.subrange(i as int, i + n@.len() as int) =~= n@);
    }
    true
}

/// Substring search: does `n` occur anywhere in `h`?
pub fn find_bytes(h: &[u8], n: &[u8]) -> (r: bool)
    ensures
        r == contains_bytes(h@, n@),
{
    if n.len() > h.len() {
        proof {
            assert(forall|i: int| !matches_at(h@, n@, i));
        }
        return false;
    }
    if n.len() == 0 {
        proof {
            assert(matches_at(h@, n@, 0)) by {
                assert(h@.subrange(0, 0) =~= n@);
            }
        }
        return true;
    }
    let end = h.len() - n.len();
    let mut i: usize = 0;
    while i <= end
        invariant
            1 <= n@.len() <= h@.len(),
            end == h@.len() - n@.len(),
            end < usize::MAX,
            i <= end + 1,
            forall|k: int| 0 <= k < i ==> !matches_at(h@, n@, k),
        decreases end + 1 - i,
    {
        if check_match_at(h, n, i) {
            return true;
        }
        i = i + 1;
    }
    proof {
        assert(forall|k: int| matches_at(h@, n@, k) ==> 0 <= k < i);
    }
    false
}

/// Does the haystack end with the needle?
pub fn ends_with(h: &[u8], n: &[u8]) -> (r: bool)
    ensures
        r == ends_with_bytes(h@, n@),
{
    if n.len() > h.len() {
        return false;
    }
    let start = h.len() - n.len();
    let r = check_match_at(h, n, start);
    proof {
        assert(matches_at(h@, n@, start as int) == ends_with_bytes(h@, n@));
    }
    r
}

/// Does the haystack start with the needle?
pub fn starts_with(h: &[u8], n: &[u8]) -> (r: bool)
    ensures
        r == starts_with_bytes(h@, n@),
{
    if n.len() > h.len() {
        return false;
    }
    let r = check_match_at(h, n, 0);
    proof {
        assert(matches_at(h@, n@, 0) == starts_with_bytes(h@, n@));
    }
    r
}

/// The needle occurs in the haystack starting at position `i` (any
/// element type).
pub open spec fn seq_matches_at<T>(h: Seq<T>, n: Seq<T>, i: int) -> bool {
    0 <= i && i + n.len() <= h.len() && h.subrange(i, i + n.len() as int) == n
}

/// The needle occurs somewhere in the haystack (any element type).
pub open spec fn seq_contains<T>(h: Seq<T>, n: Seq<T>) -> bool {
    exists|i: int| seq_matches_at(h, n, i)
}

/// A sequence contains its own prefix.
pub proof fn lemma_contains_prefix<T>(n: Seq<T>, rest: Seq<T>)
    ensures
        seq_contains(n + rest, n),
{
    assert(seq_matches_at(n + rest, n, 0)) by {
        assert((n + rest).subrange(0, n.len() as int) =~= n);
    }
}

/// Containment survives appending on the right.
pub proof fn lemma_contains_concat_right<T>(h: Seq<T>, t: Seq<T>, n: Seq<T>)
    requires
        seq_contains(h, n),
    ensures
        seq_contains(h + t, n),
{
    let i = choose|i: int| seq_matches_at(h, n, i);
    assert(seq_matches_at(h + t, n, i)) by {
        assert((h + t).subrange(i, i + n.len() as int) =~= h.subrange(i, i + n.len() as int));
    }
}

/// Containment survives prepending on the left.
pub proof fn lemma_contains_concat_left<T>(h: Seq<T>, t: Seq<T>, n: Seq<T>)
    requires
        seq_contains(t, n),
    ensures
        seq_contains(h + t, n),
{
    let i = choose|i: int| seq_matches_at(t, n, i);
    assert(seq_matches_at(h + t, n, h.len() + i)) by {
        assert((h + t).subrange(h.len() + i, h.len() + i + n.len() as int) =~= t.subrange(
            i, i + n.len() as int));
    }
}

/// String equality, decided on the UTF-8 bytes.
pub fn str_eq(a: &str, b: &str) -> (r: bool)
    ensures
        r == (a@ == b@),
{
    let r = bytes_eq(a.as_bytes(), b.as_bytes());
    proof {
        vstd::utf8::encode_utf8_decode_utf8(a@);
        vstd::utf8::encode_utf8_decode_utf8(b@);
    }
    r
}

/// FNV-1a offset basis.
pub const FNV_OFFSET: u64 = 0xcbf29ce484222325;

/// FNV-1a prime.
pub const FNV_PRIME: u64 = 0x100000001b3;

/// FNV-1a hash of a byte sequence, folding left to right.
pub open spec fn fnv1a_spec(s: Seq<u8>) -> u64
    decreases s.len(),
{
    if s.len() == 0 {
        FNV_OFFSET
    } else {
        (((fnv1a_spec(s.drop_last()) ^ s.last() as u64) as nat * FNV_PRIME as nat) % 0x10000000000000000) as u64
    }
}

/// FNV-1a content hash, as the interner uses it to key shared strings.
pub fn fnv1a(data: &[u8]) -> (h: u64)
    ensures
        h == fnv1a_spec(data@),
{
    let mut hash: u64 = FNV_OFFSET;
    let mut i: usize = 0;
    while i < data.len()
        invariant
            i <= data@.len(),
            hash == fnv1a_spec(data@.take(i as int)),
        decreases data.len() - i,
    {
        hash = (hash ^ data[i] as u64).wrapping_mul(FNV_PRIME);
        proof {
            assert(data@.take(i + 1).drop_last() =~= data@.take(i as int));
            assert(data@.take(i + 1).last() == data@[i as int]);
        }
        i = i + 1;
    }
    proof {
        assert(data@.take(data@.len() as int) =~= data@);
    }
    hash
}

/// The little-endian 16-bit value at offset `i`.
pub open spec fn le16_at(data: Seq<u8>, i: int) -> int {
    data[i] + data[i + 1] * 0x100
}

/// The little-endian 32-bit value at offset `i`.
pub open spec fn le32_at(data: Seq<u8>, i: int) -> int {
    le16_at(data, i) + le16_at(data, i + 2) * 0x10000
}

/// The little-endian 64-bit value at offset `i`.
pub open spec fn le64_at(data: Seq<u8>, i: int) -> int {
    le32_at(data, i) + le32_at(data, i + 4) * 0x100000000
}

/// The low 48 bits of the little-endian 64-bit value at offset `i`, as an
/// NTFS file reference is read: the high 16 bits are a sequence tag.
pub open spec fn le48_at(data: Seq<u8>, i: int) -> int {
    le32_at(data, i) + le16_at(data, i + 4) * 0x100000000
}

/// Read a little-endian 16-bit value.
pub fn read_le16(data: &[u8], i: usize) -> (r: u16)
    requires
        i + 2 <= data@.len(),
    ensures
        r == le16_at(data@, i as int),
{
    let l = data.len();
    (data[i] as u16) + (data[i + 1] as u16) * 0x100
}

/// Read a little-endian 32-bit value.
pub fn read_le32(data: &[u8], i: usize) -> (r: u32)
    requires
        i + 4 <= data@.len(),
    ensures
        r == le32_at(data@, i as int),
{
    let l = data.len();
    (data[i] as u32) + (data[i + 1] as u32) * 0x100 + (data[i + 2] as u32) * 0x10000 + (data[i
        + 3] as u32) * 0x1000000
}

/// Read a little-endian 64-bit value.
pub fn read_le64(data: &[u8], i: usize) -> (r: u64)
    requires
        i + 8 <= data@.len(),
    ensures
        r == le64_at(data@, i as int),
{
    let l = data.len();
    let lo = read_le32(data, i);
    let hi = read_le32(data, i + 4);
    proof {
        assert((hi as u64) * 0x100000000 <= 0xFFFFFFFFu64 * 0x100000000) by (nonlinear_arith)
            requires
                hi <= 0xFFFFFFFFu64,
        ;
    }
    (lo as u64) + (hi as u64) * 0x100000000
}

/// Read the low 48 bits of a little-endian 64-bit file reference.
pub fn read_le48(data: &[u8], i: usize) -> (r: u64)
    requires
        i + 8 <= data@.len(),
    ensures
        r == le48_at(data@, i as int),
{
    let l = data.len();
    let lo = read_le32(data, i);
    let hi = read_le16(data, i + 4);
    proof {
        assert((hi as u64) * 0x100000000 <= 0xFFFFu64 * 0x100000000) by (nonlinear_arith)
            requires
                hi <= 0xFFFFu64,
        ;
    }
    (lo as u64) + (hi as u64) * 0x100000000
}

/// What lossy UTF-8 decoding yields for a byte sequence: a function of the
/// bytes alone, with invalid sequences replaced by U+FFFD.
pub uninterp spec fn utf8_lossy_of(s: Seq<u8>) -> Seq<char>;

/// Relies on String::from_utf8_lossy: decodes UTF-8, replacing invalid
/// sequences with U+FFFD; ASCII bytes decode to themselves.
#[verifier::external_body]
pub fn utf8_lossy(data: &[u8]) -> (r: String)
    ensures
        r@ == utf8_lossy_of(data@),
        (forall|i: int| 0 <= i < data@.len() ==> data@[i] < 0x80) ==> r@ == data@.map_values(
            |b: u8| b as char,
        ),
{
    String::from_utf8_lossy(data).into_owned()
}

/// What lossy UTF-16 decoding yields for a unit sequence: a function of
/// the units alone, with unpaired surrogates replaced by U+FFFD.
pub uninterp spec fn utf16_lossy_of(units: Seq<u16>) -> Seq<char>;

/// Relies on String::from_utf16_lossy: decodes UTF-16, replacing unpaired
/// surrogates with U+FFFD; ASCII units decode to themselves.
#[verifier::external_body]
pub fn utf16_lossy(units: &[u16]) -> (r: String)
    ensures
        r@ == utf16_lossy_of(units@),
        (forall|i: int| 0 <= i < units@.len() ==> units@[i] < 0x80) ==> r@ == units@.map_values(
            |u: u16| (u as u8) as char,
        ),
{
    String::from_utf16_lossy(units)
}

/// The little-endian 16-bit units of a byte sequence, pairing whole pairs.
pub open spec fn utf16_units_of(bytes: Seq<u8>) -> Seq<u16> {
    Seq::new((bytes.len() / 2) as nat, |k: int| le16_at(bytes, 2 * k) as u16)
}

/// Assemble little-endian UTF-16 units from bytes; a trailing odd byte is
/// dropped.
pub fn utf16_units(bytes: &[u8]) -> (r: Vec<u16>)
    ensures
        r@ == utf16_units_of(bytes@),
{
    let l = bytes.len();
    let n = l / 2;
    proof {
        assert(n * 2 <= l) by (nonlinear_arith)
            requires
                n == l / 2,
        ;
    }
    let mut r: Vec<u16> = Vec::new();
    let mut k: usize = 0;
    while k < n
        invariant
            l == bytes@.len(),
            n == bytes@.len() / 2,
            n * 2 <= l,
            k <= n,
            r@ == utf16_units_of(bytes@).take(k as int),
        decreases n - k,
    {
        proof {
            assert(2 * k + 2 <= 2 * n) by (nonlinear_arith)
                requires
                    k < n,
            ;
        }
        r.push(read_le16(bytes, 2 * k));
        proof {
            assert(r@ =~= utf16_units_of(bytes@).take(k + 1));
        }
        k = k + 1;
    }
    proof {
        assert(utf16_units_of(bytes@).take(n as int) =~= utf16_units_of(bytes@));
    }
    r
}

/// The character for a single decimal digit.
pub open spec fn digit_char(d: int) -> char {
    if d == 0 {
        '0'
    } else if d == 1 {
        '1'
    } else if d == 2 {
        '2'
    } else if d == 3 {
        '3'
    } else if d == 4 {
        '4'
    } else if d == 5 {
        '5'
    } else if d == 6 {
        '6'
    } else if d == 7 {
        '7'
    } else if d == 8 {
        '8'
    } else {
        '9'
    }
}

/// Decimal rendering of a non-negative integer, most significant digit first.
pub open spec fn dec_of(n: int) -> Seq<char>
    decreases n,
{
    if n < 10 {
        seq![digit_char(n)]
    } else {
        dec_of(n / 10).push(digit_char(n % 10))
    }
}

/// The character for one digit value.
fn digit_char_exec(d: u64) -> (c: char)
    requires
        d < 10,
    ensures
        c == digit_char(d as int),
{
    match d {
        0 => '0',
        1 => '1',
        2 => '2',
        3 => '3',
        4 => '4',
        5 => '5',
        6 => '6',
        7 => '7',
        8 => '8',
        _ => '9',
    }
}

/// Append the decimal rendering of `n` to `s`.
pub fn push_dec(s: &mut String, n: u64)
    ensures
        final(s)@ == old(s)@ + dec_of(n as int),
    decreases n,
{
    if n >= 10 {
        push_dec(s, n / 10);
        s.push(digit_char_exec(n % 10));
        proof {
            assert(old(s)@ + dec_of(n as int) =~= (old(s)@ + dec_of(n as int / 10)).push(
                digit_char(n as int % 10)));
        }
    } else {
        s.push(digit_char_exec(n));
        proof {
            assert(old(s)@ + dec_of(n as int) =~= old(s)@.push(digit_char(n as int)));
        }
    }
}

/// Render a number in decimal.
pub fn u64_to_string(n: u64) -> (s: String)
    ensures
        s@ == dec_of(n as int),
{
    let mut s = String::new();
    push_dec(&mut s, n);
    proof {
        assert(Seq::<char>::empty() + dec_of(n as int) =~= dec_of(n as int));
    }
    s
}

} // verus!
