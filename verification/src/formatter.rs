//! Event formatting for display: one pre-formatted row per timeline
//! event, with grouped sizes and timezone-adjusted timestamps.

use vstd::prelude::*;
use crate::types::{Event, TimelineEvent, TimestampType, TimestampSource};
use crate::datetime::{format_timestamp_human, human_text_of};
use crate::strutil::{dec_of, push_dec, u64_to_string, str_eq};
use std::collections::HashMap;

verus! {

/// A row of display columns for one timeline event.
#[derive(Debug, Clone)]
pub struct FormattedRow {
    /// Filename column.
    pub filename: String,
    /// Timestamp column.
    pub timestamp: String,
    /// Kind and provenance column.
    pub type_source: String,
    /// Record number column.
    pub record: String,
    /// Size column.
    pub size: String,
    /// Location column.
    pub location: String,
    /// Location and filename joined.
    pub full_path: String,
    /// Whether the source record is deleted.
    pub is_deleted: bool,
}

/// Zero-padded three-digit rendering, as comma grouping uses it.
pub open spec fn pad3_spec(n: int) -> Seq<char> {
    if n < 10 {
        seq!['0', '0'] + dec_of(n)
    } else if n < 100 {
        seq!['0'] + dec_of(n)
    } else {
        dec_of(n)
    }
}

/// Decimal rendering with comma-grouped thousands.
pub open spec fn commas_of(n: int) -> Seq<char>
    decreases n,
{
    if n < 1000 {
        dec_of(n)
    } else {
        commas_of(n / 1000) + seq![','] + pad3_spec(n % 1000)
    }
}

/// Append the comma-grouped decimal rendering of `n`.
fn push_commas(s: &mut String, n: u64)
    ensures
        final(s)@ == old(s)@ + commas_of(n as int),
    decreases n,
{
    if n < 1000 {
        push_dec(s, n);
    } else {
        push_commas(s, n / 1000);
        s.push(',');
        let rem = n % 1000;
        if rem < 10 {
            s.push('0');
            s.push('0');
            push_dec(s, rem);
        } else if rem < 100 {
            s.push('0');
            push_dec(s, rem);
        } else {
            push_dec(s, rem);
        }
        proof {
            assert(old(s)@ + commas_of(n as int) =~= (old(s)@ + commas_of(n as int / 1000)).push(
                ',') + pad3_spec(n as int % 1000));
            assert(final(s)@ =~= old(s)@ + commas_of(n as int));
        }
    }
}

/// Render a number with comma-grouped thousands.
pub fn format_number_with_commas(num: u64) -> (r: String)
    ensures
        r@ == commas_of(num as int),
{
    let mut s = String::new();
    push_commas(&mut s, num);
    proof {
        assert(Seq::<char>::empty() + commas_of(num as int) =~= commas_of(num as int));
    }
    s
}

/// Unified event formatter for the display modes.
pub struct EventFormatter {
    /// Display timezone offset, in whole hours.
    offset_hours: i64,
    /// Record numbers known to be deleted.
    record_lookup: HashMap<u64, bool>,
}

impl EventFormatter {
    /// Create a formatter over a timezone offset and the record set whose
    /// deleted records it marks.
    pub fn new(offset_hours: i64, records: &Vec<Event>) -> (r: Self)
        requires
            -24 <= offset_hours <= 24,
        ensures
            r.offset_ok(),
    {
        let mut record_lookup: HashMap<u64, bool> = HashMap::new();
        let mut i: usize = 0;
        while i < records.len()
            decreases records@.len() - i,
        {
            if records[i].is_deleted {
                record_lookup.insert(records[i].record_number, true);
            }
            i = i + 1;
        }
        EventFormatter { offset_hours, record_lookup }
    }

    /// The stored offset stays in the display range.
    pub closed spec fn offset_ok(&self) -> bool {
        -24 <= self.offset_hours <= 24
    }

    /// Format a collection of timeline events.
    pub fn format_events(&self, events: &Vec<TimelineEvent>) -> (r: Vec<FormattedRow>)
        requires
            self.offset_ok(),
        ensures
            r@.len() == events@.len(),
    {
        let mut rows: Vec<FormattedRow> = Vec::new();
        let mut i: usize = 0;
        while i < events.len()
            invariant
                self.offset_ok(),
                i <= events@.len(),
                rows@.len() == i,
            decreases events@.len() - i,
        {
            rows.push(self.format_single_event(&events[i]));
            i = i + 1;
        }
        rows
    }

    /// Format one timeline event into its display row.
    pub fn format_single_event(&self, event: &TimelineEvent) -> (r: FormattedRow)
        requires
            self.offset_ok(),
        ensures
            r.timestamp@ == human_text_of(event.timestamp, self.offset_secs()),
    {
        let formatted_time = format_timestamp_human(event.timestamp, self.offset_hours * 3600);
        let source_ref: Option<&str> = match &event.event_source {
            Some(s) => Some(s.as_str()),
            None => None,
        };
        let mut type_source = String::new();
        type_source.append(event.timestamp_type.display_name_for_source(source_ref));
        let is_lnk = match &event.event_source {
            Some(s) => str_eq(s.as_str(), "LNK"),
            None => false,
        };
        if !is_lnk {
            type_source.append(" (");
            type_source.append(event.timestamp_source.short_form());
            type_source.append(")");
        }
        let is_jump = match &event.event_source {
            Some(s) => str_eq(s.as_str(), "Jumplist"),
            None => false,
        };
        let record: String = if is_lnk {
            String::from_str("LNK")
        } else if is_jump {
            String::from_str("JMP")
        } else {
            u64_to_string(event.mft_record_number)
        };
        let size: String = if event.is_directory {
            String::from_str("(folder)")
        } else {
            match event.file_size {
                Some(s) => format_number_with_commas(s),
                None => String::from_str("Unknown"),
            }
        };
        let loc_empty = event.location.as_str().unicode_len() == 0;
        let loc_is_root = str_eq(event.location.as_str(), "\\");
        let full_path: String = if loc_empty || loc_is_root {
            event.filename.clone()
        } else {
            let mut p = event.location.clone();
            let n = event.location.as_str().unicode_len();
            let last = event.location.as_str().get_char(n - 1);
            if last != '\\' {
                p.push('\\');
            }
            p.append(event.filename.as_str());
            p
        };
        let is_deleted = match self.record_lookup.get(&event.mft_record_number) {
            Some(_) => true,
            None => false,
        };
        FormattedRow {
            filename: event.filename.clone(),
            timestamp: formatted_time,
            type_source,
            record,
            size,
            location: event.location.clone(),
            full_path,
            is_deleted,
        }
    }

    /// The display offset in seconds.
    pub closed spec fn offset_secs(&self) -> int {
        self.offset_hours * 3600
    }
}

/// Format a collection of timeline events against a record set.
pub fn format_events(events: &Vec<TimelineEvent>, records: &Vec<Event>, offset_hours: i64) -> (r:
    Vec<FormattedRow>)
    requires
        -24 <= offset_hours <= 24,
    ensures
        r@.len() == events@.len(),
{
    let formatter = EventFormatter::new(offset_hours, records);
    formatter.format_events(events)
}

} // verus!
