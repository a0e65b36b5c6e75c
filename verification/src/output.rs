//! Timeline assembly and CSV rendering.
//!
//! Events are exploded from records, sorted by the three timeline keys,
//! and rendered to the bit-specified CSV: every field wrapped in double
//! quotes, embedded quotes doubled, newlines kept verbatim.

use vstd::prelude::*;
use crate::types::{Event, EventView, TimelineEvent, TimelineEventView, TimestampType,
    TimestampSource, exploded_events};
use crate::datetime::{civil_text_of_shifted, shifted_secs_of, format_civil_shifted,
    convert_to_timezone};
use crate::strutil::{dec_of, push_dec, u64_to_string};

verus! {

/// A field's characters with every double quote doubled.
pub open spec fn escape_inner(s: Seq<char>) -> Seq<char>
    decreases s.len(),
{
    if s.len() == 0 {
        Seq::empty()
    } else {
        (if s[0] == '"' {
            seq!['"', '"']
        } else {
            seq![s[0]]
        }) + escape_inner(s.skip(1))
    }
}

/// A CSV field: always wrapped in double quotes, inner quotes doubled.
pub open spec fn escape_spec(s: Seq<char>) -> Seq<char> {
    seq!['"'] + escape_inner(s) + seq!['"']
}

/// Collapse doubled double quotes back to single ones.
pub open spec fn collapse_quotes(s: Seq<char>) -> Seq<char>
    decreases s.len(),
{
    if s.len() == 0 {
        Seq::empty()
    } else if s[0] == '"' && s.len() >= 2 && s[1] == '"' {
        seq!['"'] + collapse_quotes(s.skip(2))
    } else {
        seq![s[0]] + collapse_quotes(s.skip(1))
    }
}

/// The unescaping of a CSV field: nothing unless wrapped in double
/// quotes; else the inner text with doubled quotes collapsed.
pub open spec fn unescape_spec(s: Seq<char>) -> Option<Seq<char>> {
    if s.len() >= 2 && s[0] == '"' && s[s.len() - 1] == '"' {
        Some(collapse_quotes(s.subrange(1, s.len() - 1)))
    } else {
        None
    }
}

/// Collapsing undoes doubling.
proof fn lemma_collapse_escape_inner(s: Seq<char>)
    ensures
        collapse_quotes(escape_inner(s)) == s,
    decreases s.len(),
{
    if s.len() == 0 {
        assert(collapse_quotes(escape_inner(s)) =~= s);
    } else {
        lemma_collapse_escape_inner(s.skip(1));
        let e = escape_inner(s);
        if s[0] == '"' {
            assert(e == seq!['"', '"'] + escape_inner(s.skip(1)));
            assert(e.skip(2) =~= escape_inner(s.skip(1)));
            assert(collapse_quotes(e) =~= s);
        } else {
            assert(e == seq![s[0]] + escape_inner(s.skip(1)));
            assert(e.skip(1) =~= escape_inner(s.skip(1)));
            if e.len() >= 2 && e[0] == '"' && e[1] == '"' {
                assert(false);
            }
            assert(collapse_quotes(e) =~= s);
        }
    }
}

/// Escaping idempotence: unescaping an escaped field yields the field
/// back, for every text including commas, quotes, newlines and leading or
/// trailing spaces.
pub proof fn lemma_unescape_escape(s: Seq<char>)
    ensures
        unescape_spec(escape_spec(s)) == Some(s),
{
    let e = escape_spec(s);
    assert(e[0] == '"');
    assert(e[e.len() - 1] == '"');
    assert(e.subrange(1, e.len() - 1) =~= escape_inner(s));
    lemma_collapse_escape_inner(s);
}

/// Handles output formatting into the timeline's CSV shape.
pub struct OutputWriter;

impl OutputWriter {
    /// Escape a field for CSV output: wrap in double quotes and double
    /// any embedded double quote; commas, newlines and spaces are kept
    /// verbatim inside the quotes.
    pub fn escape_csv_field(field: &str) -> (r: String)
        ensures
            r@ == escape_spec(field@),
    {
        let n = field.unicode_len();
        let mut s = String::new();
        s.push('"');
        let mut i: usize = 0;
        while i < n
            invariant
                n == field@.len(),
                i <= n,
                s@ == seq!['"'] + escape_inner(field@.take(i as int)),
            decreases n - i,
        {
            let c = field.get_char(i);
            if c == '"' {
                s.push('"');
                s.push('"');
            } else {
                s.push(c);
            }
            proof {
                lemma_escape_inner_snoc(field@, i as int);
                assert(s@ =~= seq!['"'] + escape_inner(field@.take(i + 1)));
            }
            i = i + 1;
        }
        s.push('"');
        proof {
            assert(field@.take(n as int) =~= field@);
            assert(s@ =~= escape_spec(field@));
        }
        s
    }

    /// Unescape a CSV field: strip the surrounding double quotes and
    /// collapse doubled quotes; fields not wrapped in quotes unescape to
    /// nothing.
    pub fn unescape_csv_field(field: &str) -> (r: Option<String>)
        ensures
            match r {
                Some(v) => unescape_spec(field@) == Some(v@),
                None => unescape_spec(field@) is None,
            },
    {
        let n = field.unicode_len();
        if n < 2 {
            return None;
        }
        if field.get_char(0) != '"' || field.get_char(n - 1) != '"' {
            return None;
        }
        let ghost mid = field@.subrange(1, field@.len() - 1);
        let mut out = String::new();
        let mut i: usize = 1;
        while i < n - 1
            invariant
                n == field@.len(),
                2 <= n,
                mid == field@.subrange(1, field@.len() - 1),
                1 <= i <= n - 1,
                collapse_quotes(mid) == out@ + collapse_quotes(field@.subrange(
                    i as int, field@.len() - 1)),
            decreases n - i,
        {
            let c = field.get_char(i);
            let ghost rest = field@.subrange(i as int, field@.len() - 1);
            if c == '"' && i + 1 < n - 1 && field.get_char(i + 1) == '"' {
                out.push('"');
                proof {
                    assert(rest[0] == '"' && rest.len() >= 2 && rest[1] == '"');
                    assert(rest.skip(2) =~= field@.subrange(i + 2, field@.len() - 1));
                }
                i = i + 2;
            } else {
                out.push(c);
                proof {
                    assert(rest[0] == c);
                    if rest[0] == '"' && rest.len() >= 2 && rest[1] == '"' {
                        assert(rest[1] == field@[i + 1]);
                        assert(false);
                    }
                    assert(rest.skip(1) =~= field@.subrange(i + 1, field@.len() - 1));
                }
                i = i + 1;
            }
        }
        proof {
            assert(field@.subrange(n - 1, field@.len() - 1) =~= Seq::<char>::empty());
            assert(out@ =~= collapse_quotes(mid));
        }
        Some(out)
    }
}

/// The timeline sort order: timestamp ascending, then timestamp kind
/// priority (Created first), then provenance with $FILE_NAME before
/// $STANDARD_INFORMATION.
pub open spec fn event_le(a: TimelineEventView, b: TimelineEventView) -> bool {
    ||| a.timestamp < b.timestamp
    ||| (a.timestamp == b.timestamp && a.timestamp_type.sort_priority_spec()
        < b.timestamp_type.sort_priority_spec())
    ||| (a.timestamp == b.timestamp && a.timestamp_type.sort_priority_spec()
        == b.timestamp_type.sort_priority_spec() && a.timestamp_source.sort_rank_spec()
        <= b.timestamp_source.sort_rank_spec())
}

/// The order is total.
pub proof fn lemma_event_le_total(a: TimelineEventView, b: TimelineEventView)
    ensures
        event_le(a, b) || event_le(b, a),
{
}

/// The order is transitive.
pub proof fn lemma_event_le_trans(a: TimelineEventView, b: TimelineEventView, c: TimelineEventView)
    requires
        event_le(a, b),
        event_le(b, c),
    ensures
        event_le(a, c),
{
}

/// Sorted under the timeline order.
pub open spec fn sorted_by_keys(s: Seq<TimelineEventView>) -> bool {
    forall|i: int, j: int| 0 <= i < j < s.len() ==> event_le(#[trigger] s[i], #[trigger] s[j])
}

/// The stable merge of two runs: on ties the left run goes first.
pub open spec fn merge_spec(a: Seq<TimelineEventView>, b: Seq<TimelineEventView>) -> Seq<
    TimelineEventView,
>
    decreases a.len() + b.len(),
{
    if a.len() == 0 {
        b
    } else if b.len() == 0 {
        a
    } else if event_le(a[0], b[0]) {
        seq![a[0]] + merge_spec(a.skip(1), b)
    } else {
        seq![b[0]] + merge_spec(a, b.skip(1))
    }
}

/// The stable merge sort of a run.
pub open spec fn sort_spec(s: Seq<TimelineEventView>) -> Seq<TimelineEventView>
    decreases s.len(),
{
    if s.len() <= 1 {
        s
    } else {
        merge_spec(sort_spec(s.take((s.len() / 2) as int)), sort_spec(s.skip((s.len() / 2) as int)))
    }
}

/// Merging keeps the elements and sorts the result.
proof fn lemma_merge_sorted(a: Seq<TimelineEventView>, b: Seq<TimelineEventView>)
    requires
        sorted_by_keys(a),
        sorted_by_keys(b),
    ensures
        sorted_by_keys(merge_spec(a, b)),
        merge_spec(a, b).to_multiset() == a.to_multiset().add(b.to_multiset()),
        merge_spec(a, b).len() == a.len() + b.len(),
    decreases a.len() + b.len(),
{
    broadcast use vstd::seq_lib::group_to_multiset_ensures;
    if a.len() == 0 {
        assert(merge_spec(a, b).to_multiset() =~= a.to_multiset().add(b.to_multiset()));
    } else if b.len() == 0 {
        assert(merge_spec(a, b).to_multiset() =~= a.to_multiset().add(b.to_multiset()));
    } else {
        let m = merge_spec(a, b);
        if event_le(a[0], b[0]) {
            let rest = merge_spec(a.skip(1), b);
            assert(sorted_by_keys(a.skip(1)));
            lemma_merge_sorted(a.skip(1), b);
            assert(m == seq![a[0]] + rest);
            assert forall|i: int, j: int| 0 <= i < j < m.len() implies event_le(m[i], m[j]) by {
                if i == 0 {
                    assert(rest.to_multiset().contains(m[j]));
                    assert(rest.contains(m[j]));
                    let k = choose|k: int| 0 <= k < rest.len() && rest[k] == m[j];
                    if a.skip(1).to_multiset().contains(m[j]) {
                        assert(a.skip(1).contains(m[j]));
                        let t = choose|t: int| 0 <= t < a.skip(1).len() && a.skip(1)[t] == m[j];
                        assert(a.skip(1)[t] == a[t + 1]);
                        assert(event_le(a[0], a[t + 1]));
                    } else {
                        assert(b.to_multiset().contains(m[j]));
                        assert(b.contains(m[j]));
                        let t = choose|t: int| 0 <= t < b.len() && b[t] == m[j];
                        if t > 0 {
                            assert(event_le(b[0], b[t]));
                        }
                        lemma_event_le_trans(a[0], b[0], b[t]);
                    }
                } else {
                    assert(m[i] == rest[i - 1] && m[j] == rest[j - 1]);
                }
            }
            assert(a =~= seq![a[0]] + a.skip(1));
            vstd::seq_lib::lemma_multiset_commutative(seq![a[0]], rest);
            vstd::seq_lib::lemma_multiset_commutative(seq![a[0]], a.skip(1));
            assert(m.to_multiset() =~= a.to_multiset().add(b.to_multiset()));
        } else {
            let rest = merge_spec(a, b.skip(1));
            assert(sorted_by_keys(b.skip(1)));
            lemma_merge_sorted(a, b.skip(1));
            assert(m == seq![b[0]] + rest);
            lemma_event_le_total(a[0], b[0]);
            assert(event_le(b[0], a[0]));
            assert forall|i: int, j: int| 0 <= i < j < m.len() implies event_le(m[i], m[j]) by {
                if i == 0 {
                    assert(rest.to_multiset().contains(m[j]));
                    assert(rest.contains(m[j]));
                    if a.to_multiset().contains(m[j]) {
                        assert(a.contains(m[j]));
                        let t = choose|t: int| 0 <= t < a.len() && a[t] == m[j];
                        if t > 0 {
                            assert(event_le(a[0], a[t]));
                        }
                        lemma_event_le_trans(b[0], a[0], a[t]);
                    } else {
                        assert(b.skip(1).to_multiset().contains(m[j]));
                        assert(b.skip(1).contains(m[j]));
                        let t = choose|t: int|
                            0 <= t < b.skip(1).len() && b.skip(1)[t] == m[j];
                        assert(b.skip(1)[t] == b[t + 1]);
                        assert(event_le(b[0], b[t + 1]));
                    }
                } else {
                    assert(m[i] == rest[i - 1] && m[j] == rest[j - 1]);
                }
            }
            assert(b =~= seq![b[0]] + b.skip(1));
            vstd::seq_lib::lemma_multiset_commutative(seq![b[0]], rest);
            vstd::seq_lib::lemma_multiset_commutative(seq![b[0]], b.skip(1));
            assert(m.to_multiset() =~= a.to_multiset().add(b.to_multiset()));
        }
    }
}

/// Sorting keeps the elements and orders them by the timeline keys.
pub proof fn lemma_sort_spec_ensures(s: Seq<TimelineEventView>)
    ensures
        sorted_by_keys(sort_spec(s)),
        sort_spec(s).to_multiset() == s.to_multiset(),
        sort_spec(s).len() == s.len(),
    decreases s.len(),
{
    broadcast use vstd::seq_lib::group_to_multiset_ensures;
    if s.len() <= 1 {
    } else {
        let m = (s.len() / 2) as int;
        lemma_sort_spec_ensures(s.take(m));
        lemma_sort_spec_ensures(s.skip(m));
        lemma_merge_sorted(sort_spec(s.take(m)), sort_spec(s.skip(m)));
        assert(s.take(m) + s.skip(m) =~= s);
        vstd::seq_lib::lemma_multiset_commutative(s.take(m), s.skip(m));
    }
}

/// Sort determinism: the sorted timeline, and hence every byte of the
/// rendered CSV, is a function of the record set and the timezone alone;
/// two runs over equal inputs give identical output.
pub proof fn lemma_sort_determinism(
    s1: Seq<TimelineEventView>,
    s2: Seq<TimelineEventView>,
    offset_hours1: int,
    offset_hours2: int,
)
    requires
        s1 == s2,
        offset_hours1 == offset_hours2,
    ensures
        sort_spec(s1) == sort_spec(s2),
        timeline_csv_spec(s1, offset_hours1) == timeline_csv_spec(s2, offset_hours2),
{
}

/// Copy a timeline row, field by field.
fn clone_timeline_event(e: &TimelineEvent) -> (r: TimelineEvent)
    ensures
        r@ == e@,
{
    TimelineEvent {
        filename: e.filename.clone(),
        timestamp: e.timestamp,
        timestamp_type: e.timestamp_type,
        timestamp_source: e.timestamp_source,
        mft_record_number: e.mft_record_number,
        location: e.location.clone(),
        file_size: e.file_size,
        is_directory: e.is_directory,
        event_source: match &e.event_source {
            Some(s) => Some(s.clone()),
            None => None,
        },
    }
}

/// The tertiary key, as executable code.
fn source_rank(s: TimestampSource) -> (r: u8)
    ensures
        r == s.sort_rank_spec(),
{
    match s {
        TimestampSource::FileName => 0,
        TimestampSource::StandardInformation => 1,
    }
}

/// Compare two rows under the timeline order.
fn event_le_exec(a: &TimelineEvent, b: &TimelineEvent) -> (r: bool)
    ensures
        r == event_le(a@, b@),
{
    if a.timestamp < b.timestamp {
        true
    } else if a.timestamp > b.timestamp {
        false
    } else {
        let pa = a.timestamp_type.sort_priority();
        let pb = b.timestamp_type.sort_priority();
        if pa < pb {
            true
        } else if pa > pb {
            false
        } else {
            source_rank(a.timestamp_source) <= source_rank(b.timestamp_source)
        }
    }
}

/// Copy a range of rows into a new vector.
fn copy_range(events: &Vec<TimelineEvent>, from: usize, to: usize) -> (r: Vec<TimelineEvent>)
    requires
        from <= to <= events@.len(),
    ensures
        r@.map_values(|e: TimelineEvent| e@) == events@.map_values(|e: TimelineEvent| e@).subrange(
            from as int, to as int),
{
    let mut r: Vec<TimelineEvent> = Vec::new();
    let mut i = from;
    while i < to
        invariant
            from <= i <= to <= events@.len(),
            r@.len() == i - from,
            forall|k: int|
                0 <= k < r@.len() ==> (#[trigger] r@[k])@ == events@[from + k]@,
        decreases to - i,
    {
        r.push(clone_timeline_event(&events[i]));
        i = i + 1;
    }
    proof {
        assert(r@.map_values(|e: TimelineEvent| e@) =~= events@.map_values(
            |e: TimelineEvent| e@).subrange(from as int, to as int));
    }
    r
}

/// Stable merge sort of the timeline, by the three keys.
pub fn sort_timeline_events(events: &Vec<TimelineEvent>) -> (r: Vec<TimelineEvent>)
    ensures
        r@.map_values(|e: TimelineEvent| e@) == sort_spec(
            events@.map_values(|e: TimelineEvent| e@)),
    decreases events@.len(),
{
    let n = events.len();
    if n <= 1 {
        let r = copy_range(events, 0, n);
        proof {
            assert(events@.map_values(|e: TimelineEvent| e@).subrange(0, n as int)
                =~= events@.map_values(|e: TimelineEvent| e@));
        }
        return r;
    }
    let mid = n / 2;
    let left = copy_range(events, 0, mid);
    let right = copy_range(events, mid, n);
    proof {
        assert(events@.map_values(|e: TimelineEvent| e@).subrange(0, mid as int)
            =~= events@.map_values(|e: TimelineEvent| e@).take(mid as int));
        assert(events@.map_values(|e: TimelineEvent| e@).subrange(mid as int, n as int)
            =~= events@.map_values(|e: TimelineEvent| e@).skip(mid as int));
    }
    proof {
        assert(left@.len() == left@.map_values(|e: TimelineEvent| e@).len());
        assert(right@.len() == right@.map_values(|e: TimelineEvent| e@).len());
        assert(left@.len() == mid && right@.len() == n - mid);
    }
    let ls = sort_timeline_events(&left);
    let rs = sort_timeline_events(&right);
    let ghost la = ls@.map_values(|e: TimelineEvent| e@);
    let ghost rb = rs@.map_values(|e: TimelineEvent| e@);
    let mut out: Vec<TimelineEvent> = Vec::new();
    proof {
        assert(la.skip(0) =~= la);
        assert(rb.skip(0) =~= rb);
        assert(out@.map_values(|e: TimelineEvent| e@) =~= Seq::<TimelineEventView>::empty());
        assert(Seq::<TimelineEventView>::empty() + merge_spec(la, rb) =~= merge_spec(la, rb));
    }
    let mut i: usize = 0;
    let mut j: usize = 0;
    while i < ls.len() || j < rs.len()
        invariant
            la == ls@.map_values(|e: TimelineEvent| e@),
            rb == rs@.map_values(|e: TimelineEvent| e@),
            i <= ls@.len(),
            j <= rs@.len(),
            merge_spec(la, rb) == out@.map_values(|e: TimelineEvent| e@) + merge_spec(
                la.skip(i as int), rb.skip(j as int)),
        decreases ls@.len() - i + rs@.len() - j,
    {
        let ghost prev = out@.map_values(|e: TimelineEvent| e@);
        let take_left: bool = if i >= ls.len() {
            false
        } else if j >= rs.len() {
            true
        } else {
            event_le_exec(&ls[i], &rs[j])
        };
        if take_left {
            out.push(clone_timeline_event(&ls[i]));
            proof {
                assert(la.skip(i as int)[0] == la[i as int]);
                assert(la.skip(i as int).skip(1) =~= la.skip(i + 1));
                if j < rb.len() {
                    assert(rb.skip(j as int)[0] == rb[j as int]);
                }
                assert(out@.map_values(|e: TimelineEvent| e@) =~= prev + seq![la[i as int]]);
                assert(merge_spec(la.skip(i as int), rb.skip(j as int)) == seq![la[i as int]]
                    + merge_spec(la.skip(i + 1), rb.skip(j as int)));
                assert(prev + (seq![la[i as int]] + merge_spec(la.skip(i + 1), rb.skip(j as int)))
                    =~= (prev + seq![la[i as int]]) + merge_spec(la.skip(i + 1), rb.skip(
                    j as int)));
            }
            i = i + 1;
        } else {
            out.push(clone_timeline_event(&rs[j]));
            proof {
                assert(rb.skip(j as int)[0] == rb[j as int]);
                assert(rb.skip(j as int).skip(1) =~= rb.skip(j + 1));
                if i < la.len() {
                    assert(la.skip(i as int)[0] == la[i as int]);
                }
                assert(out@.map_values(|e: TimelineEvent| e@) =~= prev + seq![rb[j as int]]);
                assert(merge_spec(la.skip(i as int), rb.skip(j as int)) == seq![rb[j as int]]
                    + merge_spec(la.skip(i as int), rb.skip(j + 1)));
                assert(prev + (seq![rb[j as int]] + merge_spec(la.skip(i as int), rb.skip(j + 1)))
                    =~= (prev + seq![rb[j as int]]) + merge_spec(la.skip(i as int), rb.skip(
                    j + 1)));
            }
            j = j + 1;
        }
    }
    proof {
        assert(la.skip(la.len() as int) =~= Seq::<TimelineEventView>::empty());
        assert(rb.skip(rb.len() as int) =~= Seq::<TimelineEventView>::empty());
        assert(merge_spec(la.skip(la.len() as int), rb.skip(rb.len() as int)) =~= Seq::<
            TimelineEventView,
        >::empty());
        assert(out@.map_values(|e: TimelineEvent| e@) + Seq::<TimelineEventView>::empty()
            =~= out@.map_values(|e: TimelineEvent| e@));
    }
    out
}

/// All rows exploded from the first `n` records, in record order.
pub open spec fn exploded_all(recs: Seq<EventView>, n: int) -> Seq<TimelineEventView>
    decreases n,
{
    if n <= 0 {
        Seq::empty()
    } else {
        exploded_all(recs, n - 1) + exploded_events(recs[n - 1])
    }
}

/// Extract the timeline from a record set: every present timestamp of
/// every record becomes one row, and the rows come back sorted by the
/// timeline keys, stably.
pub fn extract_events(records: &Vec<Event>) -> (r: Vec<TimelineEvent>)
    ensures
        r@.map_values(|e: TimelineEvent| e@) == sort_spec(
            exploded_all(records@.map_values(|e: Event| e@), records@.len() as int)),
{
    let ghost recs = records@.map_values(|e: Event| e@);
    let mut all: Vec<TimelineEvent> = Vec::new();
    let mut i: usize = 0;
    while i < records.len()
        invariant
            recs == records@.map_values(|e: Event| e@),
            i <= records@.len(),
            all@.map_values(|e: TimelineEvent| e@) == exploded_all(recs, i as int),
        decreases records@.len() - i,
    {
        let evs = records[i].extract_timeline_events();
        let ghost prev = all@.map_values(|e: TimelineEvent| e@);
        let mut k: usize = 0;
        while k < evs.len()
            invariant
                k <= evs@.len(),
                all@.map_values(|e: TimelineEvent| e@) == prev + evs@.take(k as int).map_values(
                    |e: TimelineEvent| e@),
            decreases evs@.len() - k,
        {
            all.push(clone_timeline_event(&evs[k]));
            proof {
                broadcast use Seq::lemma_push_map_commute;
                broadcast use Seq::lemma_map_take_succ;

                assert(all@.map_values(|e: TimelineEvent| e@) =~= prev + evs@.take(
                    k + 1).map_values(|e: TimelineEvent| e@));
            }
            k = k + 1;
        }
        proof {
            assert(evs@.take(evs@.len() as int) =~= evs@);
            assert(recs[i as int] == records@.map_values(|e: Event| e@)[i as int]);
            assert(evs@.map_values(|e: TimelineEvent| e@) == exploded_events(recs[i as int]));
            assert(all@.map_values(|e: TimelineEvent| e@) =~= exploded_all(recs, i + 1));
        }
        i = i + 1;
    }
    sort_timeline_events(&all)
}

/// The short offset suffix of the timeline format: `UTC`, `UTC+8`, `UTC-5`.
pub open spec fn offset_short_text(offset_hours: int) -> Seq<char> {
    if offset_hours == 0 {
        "UTC"@
    } else if offset_hours > 0 {
        "UTC+"@ + dec_of(offset_hours)
    } else {
        "UTC-"@ + dec_of(-offset_hours)
    }
}

/// The timeline timestamp text: `Www YYYY-MM-DD HH:MM:SS UTC+N`.
pub open spec fn timeline_ts_text(ticks: u64, offset_hours: int) -> Seq<char> {
    civil_text_of_shifted(shifted_secs_of(ticks, offset_hours * 3600)) + seq![' ']
        + offset_short_text(offset_hours)
}

/// The event description column: the kind's display wording, with the
/// provenance appended for MFT events only; LNK, registry and jumplist
/// events carry their source-specialised wording alone.
pub open spec fn description_text(e: TimelineEventView) -> Seq<char> {
    if e.event_source == Some("LNK"@) || e.event_source == Some("Registry"@) || e.event_source
        == Some("Jumplist"@) {
        e.timestamp_type.display_name_for_source_spec(e.event_source)
    } else {
        e.timestamp_type.display_name_for_source_spec(e.event_source) + " ("@
            + e.timestamp_source.short_form_spec() + ")"@
    }
}

/// The displayed size: zero for directories and unknown sizes.
pub open spec fn display_size(e: TimelineEventView) -> u64 {
    if e.is_directory {
        0
    } else {
        match e.file_size {
            Some(s) => s,
            None => 0,
        }
    }
}

/// One timeline CSV row:
/// `"filename","timestamp","description",size,"location"`.
pub open spec fn row_text(e: TimelineEventView, offset_hours: int) -> Seq<char> {
    escape_spec(e.filename) + seq![','] + escape_spec(
        timeline_ts_text(e.timestamp, offset_hours)) + seq![','] + escape_spec(
        description_text(e)) + seq![','] + dec_of(display_size(e) as int) + seq![',']
        + escape_spec(e.location)
}

/// The whole timeline CSV: the sorted rows, each ended by a newline.
pub open spec fn timeline_csv_spec(events: Seq<TimelineEventView>, offset_hours: int) -> Seq<
    char,
> {
    rows_text(sort_spec(events), sort_spec(events).len() as int, offset_hours)
}

/// The text of the first `n` rows, each ended by a newline.
pub open spec fn rows_text(events: Seq<TimelineEventView>, n: int, offset_hours: int) -> Seq<
    char,
>
    decreases n,
{
    if n <= 0 {
        Seq::empty()
    } else {
        rows_text(events, n - 1, offset_hours) + row_text(events[n - 1], offset_hours) + seq![
            '\n',
        ]
    }
}

impl OutputWriter {
    /// Format a timestamp for timeline output.
    pub fn format_timeline_timestamp(ticks: u64, offset_hours: i64) -> (r: String)
        requires
            -24 <= offset_hours <= 24,
        ensures
            r@ == timeline_ts_text(ticks, offset_hours as int),
    {
        let mut s = format_civil_shifted(convert_to_timezone(ticks, offset_hours * 3600));
        s.push(' ');
        if offset_hours == 0 {
            s.append("UTC");
        } else if offset_hours > 0 {
            s.append("UTC+");
            push_dec(&mut s, offset_hours as u64);
        } else {
            s.append("UTC-");
            push_dec(&mut s, (-offset_hours) as u64);
        }
        proof {
            assert(s@ =~= timeline_ts_text(ticks, offset_hours as int));
        }
        s
    }

    /// Render one timeline CSV row.
    pub fn format_timeline_row(e: &TimelineEvent, offset_hours: i64) -> (r: String)
        requires
            -24 <= offset_hours <= 24,
        ensures
            r@ == row_text(e@, offset_hours as int),
    {
        let mut s = OutputWriter::escape_csv_field(e.filename.as_str());
        s.push(',');
        let ts = OutputWriter::format_timeline_timestamp(e.timestamp, offset_hours);
        let ts_quoted = OutputWriter::escape_csv_field(ts.as_str());
        s.append(ts_quoted.as_str());
        s.push(',');
        let mut desc = String::new();
        desc.append(
            e.timestamp_type.display_name_for_source(
                match &e.event_source {
                    Some(src) => Some(src.as_str()),
                    None => None,
                },
            ),
        );
        let no_provenance = match &e.event_source {
            Some(src) => crate::strutil::str_eq(src.as_str(), "LNK") || crate::strutil::str_eq(
                src.as_str(),
                "Registry",
            ) || crate::strutil::str_eq(src.as_str(), "Jumplist"),
            None => false,
        };
        if !no_provenance {
            desc.append(" (");
            desc.append(e.timestamp_source.short_form());
            desc.append(")");
        }
        let desc_quoted = OutputWriter::escape_csv_field(desc.as_str());
        s.append(desc_quoted.as_str());
        s.push(',');
        let size: u64 = if e.is_directory {
            0
        } else {
            match e.file_size {
                Some(v) => v,
                None => 0,
            }
        };
        push_dec(&mut s, size);
        s.push(',');
        let loc = OutputWriter::escape_csv_field(e.location.as_str());
        s.append(loc.as_str());
        proof {
            assert(s@ =~= row_text(e@, offset_hours as int));
        }
        s
    }

    /// Render the whole timeline: explode, sort and write every row. The
    /// text is a function of the records and the timezone alone, so equal
    /// inputs always give byte-identical output.
    pub fn render_timeline(records: &Vec<Event>, offset_hours: i64) -> (r: String)
        requires
            -24 <= offset_hours <= 24,
        ensures
            r@ == timeline_csv_spec(
                exploded_all(records@.map_values(|e: Event| e@), records@.len() as int),
                offset_hours as int,
            ),
    {
        let sorted = extract_events(records);
        let ghost rows = sorted@.map_values(|e: TimelineEvent| e@);
        let mut s = String::new();
        let mut i: usize = 0;
        while i < sorted.len()
            invariant
                rows == sorted@.map_values(|e: TimelineEvent| e@),
                -24 <= offset_hours <= 24,
                i <= sorted@.len(),
                s@ == rows_text(rows, i as int, offset_hours as int),
            decreases sorted@.len() - i,
        {
            let row = OutputWriter::format_timeline_row(&sorted[i], offset_hours);
            s.append(row.as_str());
            s.push('\n');
            proof {
                assert(rows[i as int] == sorted@.map_values(|e: TimelineEvent| e@)[i as int]);
                assert(s@ =~= rows_text(rows, i + 1, offset_hours as int));
            }
            i = i + 1;
        }
        s
    }
}

/// Doubling one more character extends the doubled text on the right.
proof fn lemma_escape_inner_snoc(s: Seq<char>, i: int)
    requires
        0 <= i < s.len(),
    ensures
        escape_inner(s.take(i + 1)) == escape_inner(s.take(i)) + (if s[i] == '"' {
            seq!['"', '"']
        } else {
            seq![s[i]]
        }),
    decreases i,
{
    if i == 0 {
        assert(s.take(1) =~= seq![s[0]]);
        assert(s.take(1).skip(1) =~= Seq::<char>::empty());
        assert(s.take(0) =~= Seq::<char>::empty());
        assert(escape_inner(s.take(i + 1)) =~= escape_inner(s.take(i)) + (if s[i] == '"' {
            seq!['"', '"']
        } else {
            seq![s[i]]
        }));
    } else {
        lemma_escape_inner_snoc(s.skip(1), i - 1);
        assert(s.take(i + 1)[0] == s[0]);
        assert(s.take(i + 1).skip(1) =~= s.skip(1).take(i));
        assert(s.take(i).skip(1) =~= s.skip(1).take(i - 1));
        assert(s.skip(1)[i - 1] == s[i]);
        assert(escape_inner(s.take(i + 1)) =~= escape_inner(s.take(i)) + (if s[i] == '"' {
            seq!['"', '"']
        } else {
            seq![s[i]]
        }));
    }
}

} // verus!
