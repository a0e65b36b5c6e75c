//! Batch-oriented event formatting: caches for repeated strings and
//! timestamps, producing the same display rows as the plain formatter.

use vstd::prelude::*;
use crate::types::{Event, TimelineEvent, TimestampType, TimestampSource};
use crate::datetime::format_timestamp_human;
use crate::formatter::{FormattedRow as PlainRow, EventFormatter};
use crate::strutil::fnv1a;
use std::collections::HashMap;

verus! {

/// A row of display columns, as the batch formatter produces it.
#[derive(Debug, Clone)]
pub struct FormattedRow {
    /// Filename column.
    pub filename: String,
    /// Timestamp column.
    pub timestamp: String,
    /// Kind and provenance column.
    pub type_source: String,
    /// Record number column.
    pub record: String,
    /// Size column.
    pub size: String,
    /// Location column.
    pub location: String,
    /// Location and filename joined.
    pub full_path: String,
    /// Whether the source record is deleted.
    pub is_deleted: bool,
}

/// A cache of rendered strings, keyed by content hash.
pub struct StringCache {
    cache: HashMap<u64, String>,
}

impl StringCache {
    /// An empty cache.
    pub fn new() -> (r: Self) {
        StringCache { cache: HashMap::new() }
    }

    /// Look a rendered string up by its source bytes; the hit is reused
    /// only when it matches a fresh rendering handed in by the caller.
    pub fn get_or_insert(&mut self, key_bytes: &[u8], rendered: String) -> (r: String)
        ensures
            r@ == rendered@,
    {
        let h = fnv1a(key_bytes);
        if let Some(existing) = self.cache.get(&h) {
            if existing.eq(&rendered) {
                return existing.clone();
            }
            return rendered;
        }
        self.cache.insert(h, rendered.clone());
        rendered
    }
}

/// Lookup tables shared across a formatting batch.
pub struct LookupTables {
    deleted: HashMap<u64, bool>,
}

impl LookupTables {
    /// Build the tables from a record set.
    pub fn new(records: &Vec<Event>) -> (r: Self) {
        let mut deleted: HashMap<u64, bool> = HashMap::new();
        let mut i: usize = 0;
        while i < records.len()
            decreases records@.len() - i,
        {
            if records[i].is_deleted {
                deleted.insert(records[i].record_number, true);
            }
            i = i + 1;
        }
        LookupTables { deleted }
    }

    /// The kind-and-provenance column text for one key pair.
    pub fn get_type_source(&self, tt: TimestampType, ts: TimestampSource) -> (r: String) {
        let mut s = String::new();
        s.append(tt.display_name());
        s.append(" (");
        s.append(ts.short_form());
        s.append(")");
        s
    }

    /// Whether a record number is marked deleted.
    pub fn is_deleted(&self, record_number: u64) -> (r: bool) {
        match self.deleted.get(&record_number) {
            Some(_) => true,
            None => false,
        }
    }
}

/// A timestamp formatter fixed to one timezone.
pub struct BatchTimestampFormatter {
    offset_hours: i64,
}

impl BatchTimestampFormatter {
    /// Create a formatter for a whole-hour timezone offset.
    pub fn new(offset_hours: i64) -> (r: Self)
        requires
            -24 <= offset_hours <= 24,
        ensures
            r.offset_ok(),
    {
        BatchTimestampFormatter { offset_hours }
    }

    /// The stored offset stays in the display range.
    pub closed spec fn offset_ok(&self) -> bool {
        -24 <= self.offset_hours <= 24
    }

    /// Format a batch of instants, in order.
    pub fn format_batch(&self, timestamps: &Vec<u64>) -> (r: Vec<String>)
        requires
            self.offset_ok(),
        ensures
            r@.len() == timestamps@.len(),
    {
        let mut out: Vec<String> = Vec::new();
        let mut i: usize = 0;
        while i < timestamps.len()
            invariant
                self.offset_ok(),
                i <= timestamps@.len(),
                out@.len() == i,
            decreases timestamps@.len() - i,
        {
            out.push(format_timestamp_human(timestamps[i], self.offset_hours * 3600));
            i = i + 1;
        }
        out
    }
}

/// The batch formatter: the plain formatter behind per-batch tables.
pub struct FastFormatter {
    inner: EventFormatter,
}

impl FastFormatter {
    /// Create a batch formatter over a record set and a timezone offset.
    pub fn new(records: &Vec<Event>, offset_hours: i64) -> (r: Self)
        requires
            -24 <= offset_hours <= 24,
        ensures
            r.offset_ok(),
    {
        FastFormatter { inner: EventFormatter::new(offset_hours, records) }
    }

    /// The stored offset stays in the display range.
    pub closed spec fn offset_ok(&self) -> bool {
        self.inner.offset_ok()
    }

    /// Format a batch of timeline events into display rows.
    pub fn format_events(&self, events: &Vec<TimelineEvent>) -> (r: Vec<FormattedRow>)
        requires
            self.offset_ok(),
        ensures
            r@.len() == events@.len(),
    {
        let plain = self.inner.format_events(events);
        let mut out: Vec<FormattedRow> = Vec::new();
        let mut i: usize = 0;
        while i < plain.len()
            invariant
                i <= plain@.len(),
                out@.len() == i,
            decreases plain@.len() - i,
        {
            let p = &plain[i];
            out.push(
                FormattedRow {
                    filename: p.filename.clone(),
                    timestamp: p.timestamp.clone(),
                    type_source: p.type_source.clone(),
                    record: p.record.clone(),
                    size: p.size.clone(),
                    location: p.location.clone(),
                    full_path: p.full_path.clone(),
                    is_deleted: p.is_deleted,
                },
            );
            i = i + 1;
        }
        out
    }
}

/// Format a batch of timeline events against a record set.
pub fn format_events_ultra_fast(
    events: &Vec<TimelineEvent>,
    records: &Vec<Event>,
    offset_hours: i64,
) -> (r: Vec<FormattedRow>)
    requires
        -24 <= offset_hours <= 24,
    ensures
        r@.len() == events@.len(),
{
    let f = FastFormatter::new(records, offset_hours);
    f.format_events(events)
}

} // verus!
