//! Core data types for forensic timeline events.

use vstd::prelude::*;

verus! {

/// Timestamp quadruple of a record, in 100 ns ticks since the Unix epoch.
#[derive(Debug, Clone, Copy)]
pub struct EventTimestamps {
    /// File/event creation time.
    pub created: Option<u64>,
    /// Last modification time.
    pub modified: Option<u64>,
    /// MFT record modification time.
    pub mft_modified: Option<u64>,
    /// Last access time.
    pub accessed: Option<u64>,
}

impl EventTimestamps {
    /// How many of the four timestamps are present.
    pub open spec fn count_present(&self) -> int {
        (if self.created is Some {
            1int
        } else {
            0int
        }) + (if self.modified is Some {
            1int
        } else {
            0int
        }) + (if self.mft_modified is Some {
            1int
        } else {
            0int
        }) + (if self.accessed is Some {
            1int
        } else {
            0int
        })
    }

    /// All four timestamps absent.
    pub open spec fn all_absent(&self) -> bool {
        self.created is None && self.modified is None && self.mft_modified is None
            && self.accessed is None
    }
}

impl Default for EventTimestamps {
    /// The empty quadruple.
    fn default() -> (r: Self)
        ensures
            r.all_absent(),
    {
        EventTimestamps { created: None, modified: None, mft_modified: None, accessed: None }
    }
}

/// Alternate Data Stream information.
#[derive(Debug, Clone)]
pub struct AlternateDataStream {
    /// Stream name.
    pub name: String,
    /// Stream size in bytes.
    pub size: u64,
    /// Whether the stream is resident in the MFT record.
    pub resident: bool,
}

/// Spec-level value of an alternate data stream.
pub ghost struct AdsView {
    pub name: Seq<char>,
    pub size: u64,
    pub resident: bool,
}

impl View for AlternateDataStream {
    type V = AdsView;

    open spec fn view(&self) -> AdsView {
        AdsView { name: self.name@, size: self.size, resident: self.resident }
    }
}

/// A single decoded record from an artifact (MFT entry, shell link,
/// jumplist entry or registry event).
#[derive(Debug, Clone)]
pub struct Event {
    /// MFT record number (zero for non-MFT sources).
    pub record_number: u64,
    /// Sequence number, tracking MFT record reuse.
    pub sequence_number: u16,
    /// Primary filename or event description.
    pub filename: Option<String>,
    /// File size in bytes, when known.
    pub file_size: Option<u64>,
    /// Allocated size on disk, when known.
    pub allocated_size: Option<u64>,
    /// Whether this record is a directory.
    pub is_directory: bool,
    /// Whether this record has been deleted.
    pub is_deleted: bool,
    /// Number of hard links.
    pub link_count: Option<u16>,
    /// Parent directory record number.
    pub parent_directory: Option<u64>,
    /// $STANDARD_INFORMATION timestamps.
    pub timestamps: EventTimestamps,
    /// $FILE_NAME timestamps.
    pub fn_timestamps: EventTimestamps,
    /// Alternate data streams.
    pub alternate_data_streams: Vec<AlternateDataStream>,
    /// Resolved full path.
    pub location: Option<String>,
    /// Source tag: MFT, LNK, Jumplist or Registry.
    pub event_source: Option<String>,
}

/// Spec-level value of a decoded record.
pub ghost struct EventView {
    pub record_number: u64,
    pub sequence_number: u16,
    pub filename: Option<Seq<char>>,
    pub file_size: Option<u64>,
    pub allocated_size: Option<u64>,
    pub is_directory: bool,
    pub is_deleted: bool,
    pub link_count: Option<u16>,
    pub parent_directory: Option<u64>,
    pub timestamps: EventTimestamps,
    pub fn_timestamps: EventTimestamps,
    pub alternate_data_streams: Seq<AdsView>,
    pub location: Option<Seq<char>>,
    pub event_source: Option<Seq<char>>,
}

impl View for Event {
    type V = EventView;

    open spec fn view(&self) -> EventView {
        EventView {
            record_number: self.record_number,
            sequence_number: self.sequence_number,
            filename: match self.filename {
                Some(f) => Some(f@),
                None => None,
            },
            file_size: self.file_size,
            allocated_size: self.allocated_size,
            is_directory: self.is_directory,
            is_deleted: self.is_deleted,
            link_count: self.link_count,
            parent_directory: self.parent_directory,
            timestamps: self.timestamps,
            fn_timestamps: self.fn_timestamps,
            alternate_data_streams: self.alternate_data_streams@.map_values(
                |a: AlternateDataStream| a@,
            ),
            location: match self.location {
                Some(l) => Some(l@),
                None => None,
            },
            event_source: match self.event_source {
                Some(s) => Some(s@),
                None => None,
            },
        }
    }
}

impl Default for Event {
    /// An empty record: number zero, no names, no timestamps.
    fn default() -> (r: Self)
        ensures
            r@.record_number == 0,
            r@.sequence_number == 0,
            r@.filename is None,
            r@.file_size is None,
            r@.allocated_size is None,
            !r@.is_directory,
            !r@.is_deleted,
            r@.link_count is None,
            r@.parent_directory is None,
            r@.timestamps.all_absent(),
            r@.fn_timestamps.all_absent(),
            r@.alternate_data_streams.len() == 0,
            r@.location is None,
            r@.event_source is None,
    {
        let r = Event {
            record_number: 0,
            sequence_number: 0,
            filename: None,
            file_size: None,
            allocated_size: None,
            is_directory: false,
            is_deleted: false,
            link_count: None,
            parent_directory: None,
            timestamps: EventTimestamps::default(),
            fn_timestamps: EventTimestamps::default(),
            alternate_data_streams: Vec::new(),
            location: None,
            event_source: None,
        };
        proof {
            assert(r@.alternate_data_streams =~= Seq::<AdsView>::empty());
        }
        r
    }
}

/// MFT file format detection result.
#[derive(Debug, Clone, Copy, PartialEq, Eq, Structural)]
pub enum MftFormat {
    /// Records at fixed 1024-byte intervals.
    Dense,
    /// Only valid records present, without padding.
    Sparse,
}

/// Kind of a timestamp in the timeline.
#[derive(Debug, Clone, Copy, PartialEq, Eq, Structural)]
pub enum TimestampType {
    Created,
    Modified,
    MftModified,
    Accessed,
}

/// Provenance of a timestamp.
#[derive(Debug, Clone, Copy, PartialEq, Eq, Structural)]
pub enum TimestampSource {
    StandardInformation,
    FileName,
}

impl TimestampType {
    /// The display name of the timestamp kind, as used for MFT events.
    pub open spec fn display_name_spec(&self) -> Seq<char> {
        match self {
            TimestampType::Created => "File/folder created"@,
            TimestampType::Modified => "File/folder modified"@,
            TimestampType::MftModified => "File/folder index record modified"@,
            TimestampType::Accessed => "File/folder accessed"@,
        }
    }

    /// Get the display name for the timestamp kind.
    pub fn display_name(&self) -> (r: &'static str)
        ensures
            r@ == self.display_name_spec(),
    {
        match self {
            TimestampType::Created => "File/folder created",
            TimestampType::Modified => "File/folder modified",
            TimestampType::MftModified => "File/folder index record modified",
            TimestampType::Accessed => "File/folder accessed",
        }
    }

    /// The display name specialised by event source: shortcut wording for
    /// LNK, key wording for Registry, entry wording for Jumplist, and the
    /// MFT wording otherwise.
    pub open spec fn display_name_for_source_spec(&self, source: Option<Seq<char>>) -> Seq<char> {
        if source == Some("LNK"@) {
            match self {
                TimestampType::Created => "Shortcut file created"@,
                TimestampType::Modified => "Shortcut file modified"@,
                TimestampType::Accessed => "Shortcut file accessed"@,
                TimestampType::MftModified => "Shortcut file modified"@,
            }
        } else if source == Some("Registry"@) {
            match self {
                TimestampType::Created => "Registry key created"@,
                TimestampType::Modified => "Registry key modified"@,
                TimestampType::Accessed => "Registry key accessed"@,
                TimestampType::MftModified => "Registry key modified"@,
            }
        } else if source == Some("Jumplist"@) {
            match self {
                TimestampType::Created => "Jumplist entry created"@,
                TimestampType::Modified => "Jumplist entry modified"@,
                TimestampType::Accessed => "Jumplist entry accessed"@,
                TimestampType::MftModified => "Jumplist entry modified"@,
            }
        } else {
            self.display_name_spec()
        }
    }

    /// Get the display name with event source context.
    pub fn display_name_for_source(&self, event_source: Option<&str>) -> (r: &'static str)
        ensures
            r@ == self.display_name_for_source_spec(
                match event_source {
                    Some(s) => Some(s@),
                    None => None,
                },
            ),
    {
        match event_source {
            Some(s) => {
                if str_is(s, "LNK") {
                    match self {
                        TimestampType::Created => "Shortcut file created",
                        TimestampType::Modified => "Shortcut file modified",
                        TimestampType::Accessed => "Shortcut file accessed",
                        TimestampType::MftModified => "Shortcut file modified",
                    }
                } else if str_is(s, "Registry") {
                    match self {
                        TimestampType::Created => "Registry key created",
                        TimestampType::Modified => "Registry key modified",
                        TimestampType::Accessed => "Registry key accessed",
                        TimestampType::MftModified => "Registry key modified",
                    }
                } else if str_is(s, "Jumplist") {
                    match self {
                        TimestampType::Created => "Jumplist entry created",
                        TimestampType::Modified => "Jumplist entry modified",
                        TimestampType::Accessed => "Jumplist entry accessed",
                        TimestampType::MftModified => "Jumplist entry modified",
                    }
                } else {
                    self.display_name()
                }
            },
            None => self.display_name(),
        }
    }

    /// The priority of the kind in sorting: Created before Modified before
    /// MftModified before Accessed.
    pub open spec fn sort_priority_spec(&self) -> int {
        match self {
            TimestampType::Created => 0,
            TimestampType::Modified => 1,
            TimestampType::MftModified => 2,
            TimestampType::Accessed => 3,
        }
    }

    /// Get the priority order for sorting (lower sorts first).
    pub fn sort_priority(&self) -> (r: u8)
        ensures
            r == self.sort_priority_spec(),
    {
        match self {
            TimestampType::Created => 0,
            TimestampType::Modified => 1,
            TimestampType::MftModified => 2,
            TimestampType::Accessed => 3,
        }
    }
}

/// String equality against a literal.
fn str_is(s: &str, lit: &str) -> (r: bool)
    ensures
        r == (s@ == lit@),
{
    let a = s.as_bytes();
    let b = lit.as_bytes();
    let r = crate::strutil::bytes_eq(a, b);
    proof {
        vstd::utf8::encode_utf8_decode_utf8(s@);
        vstd::utf8::encode_utf8_decode_utf8(lit@);
    }
    r
}

impl TimestampSource {
    /// The canonical attribute name of the provenance.
    pub open spec fn short_form_spec(&self) -> Seq<char> {
        match self {
            TimestampSource::StandardInformation => "$STANDARD_INFORMATION"@,
            TimestampSource::FileName => "$FILE_NAME"@,
        }
    }

    /// Get the short form for display.
    pub fn short_form(&self) -> (r: &'static str)
        ensures
            r@ == self.short_form_spec(),
    {
        match self {
            TimestampSource::StandardInformation => "$STANDARD_INFORMATION",
            TimestampSource::FileName => "$FILE_NAME",
        }
    }

    /// The tertiary sort rank of the provenance: the lexicographic order of
    /// its canonical attribute name puts $FILE_NAME first.
    pub open spec fn sort_rank_spec(&self) -> int {
        match self {
            TimestampSource::FileName => 0,
            TimestampSource::StandardInformation => 1,
        }
    }
}

/// One row of the final timeline.
#[derive(Debug, Clone)]
pub struct TimelineEvent {
    /// Filename or event description.
    pub filename: String,
    /// The instant of this event, in 100 ns ticks since the Unix epoch.
    pub timestamp: u64,
    /// Kind of timestamp.
    pub timestamp_type: TimestampType,
    /// Provenance of the timestamp.
    pub timestamp_source: TimestampSource,
    /// MFT record number (zero for non-MFT sources).
    pub mft_record_number: u64,
    /// Full path of the file.
    pub location: String,
    /// File size in bytes, for display.
    pub file_size: Option<u64>,
    /// Whether the record is a directory.
    pub is_directory: bool,
    /// Source tag: MFT, LNK, Jumplist or Registry.
    pub event_source: Option<String>,
}

/// Spec-level value of a timeline row.
pub ghost struct TimelineEventView {
    pub filename: Seq<char>,
    pub timestamp: u64,
    pub timestamp_type: TimestampType,
    pub timestamp_source: TimestampSource,
    pub mft_record_number: u64,
    pub location: Seq<char>,
    pub file_size: Option<u64>,
    pub is_directory: bool,
    pub event_source: Option<Seq<char>>,
}

impl View for TimelineEvent {
    type V = TimelineEventView;

    open spec fn view(&self) -> TimelineEventView {
        TimelineEventView {
            filename: self.filename@,
            timestamp: self.timestamp,
            timestamp_type: self.timestamp_type,
            timestamp_source: self.timestamp_source,
            mft_record_number: self.mft_record_number,
            location: self.location@,
            file_size: self.file_size,
            is_directory: self.is_directory,
            event_source: match self.event_source {
                Some(s) => Some(s@),
                None => None,
            },
        }
    }
}

/// Configuration for MFT parsing behaviour.
#[derive(Debug, Clone)]
pub struct ParsingConfig {
    /// Maximum recursion depth for path building.
    pub max_path_depth: usize,
    /// Enable parallel processing.
    pub parallel_processing: bool,
}

impl Default for ParsingConfig {
    /// The default configuration: depth 50, parallel on.
    fn default() -> (r: Self)
        ensures
            r.max_path_depth == 50,
            r.parallel_processing,
    {
        ParsingConfig { max_path_depth: 50, parallel_processing: true }
    }
}

impl ParsingConfig {
    /// A configuration tuned for maximum throughput: depth 30, parallel on.
    pub fn optimized() -> (r: Self)
        ensures
            r.max_path_depth == 30,
            r.parallel_processing,
    {
        ParsingConfig { max_path_depth: 30, parallel_processing: true }
    }

    /// A configuration for fast processing: depth 20, parallel on.
    pub fn fast() -> (r: Self)
        ensures
            r.max_path_depth == 20,
            r.parallel_processing,
    {
        ParsingConfig { max_path_depth: 20, parallel_processing: true }
    }
}

/// An ATTRIBUTE_LIST entry pointing at attributes in other MFT records.
#[derive(Debug, Clone)]
pub struct AttributeListEntry {
    /// Attribute type code.
    pub attribute_type: u32,
    /// Length of this list entry.
    pub length: u16,
    /// Length of the attribute name in characters.
    pub name_length: u8,
    /// Offset of the name within the entry.
    pub name_offset: u8,
    /// Starting VCN for non-resident attributes.
    pub start_vcn: u64,
    /// MFT record holding the attribute.
    pub mft_reference: u64,
    /// Attribute identifier.
    pub attribute_id: u16,
    /// Attribute name, when present.
    pub name: String,
}

/// The timeline row an event explosion produces for one present timestamp.
pub open spec fn exploded_event(
    rec: EventView,
    t: u64,
    tt: TimestampType,
    src: TimestampSource,
) -> TimelineEventView {
    TimelineEventView {
        filename: match rec.filename {
            Some(f) => f,
            None => "N/A"@,
        },
        timestamp: t,
        timestamp_type: tt,
        timestamp_source: src,
        mft_record_number: rec.record_number,
        location: match rec.location {
            Some(l) => l,
            None => "\\"@,
        },
        file_size: rec.file_size,
        is_directory: rec.is_directory,
        event_source: rec.event_source,
    }
}

/// Zero or one timeline rows for an optional timestamp.
pub open spec fn exploded_opt(
    rec: EventView,
    t: Option<u64>,
    tt: TimestampType,
    src: TimestampSource,
) -> Seq<TimelineEventView> {
    match t {
        Some(t) => seq![exploded_event(rec, t, tt, src)],
        None => Seq::empty(),
    }
}

/// The full explosion of a record: up to eight rows, one for each present
/// timestamp, $STANDARD_INFORMATION first, in kind order.
pub open spec fn exploded_events(rec: EventView) -> Seq<TimelineEventView> {
    exploded_opt(rec, rec.timestamps.created, TimestampType::Created,
        TimestampSource::StandardInformation) + exploded_opt(rec, rec.timestamps.modified,
        TimestampType::Modified, TimestampSource::StandardInformation) + exploded_opt(rec,
        rec.timestamps.mft_modified, TimestampType::MftModified,
        TimestampSource::StandardInformation) + exploded_opt(rec, rec.timestamps.accessed,
        TimestampType::Accessed, TimestampSource::StandardInformation) + exploded_opt(rec,
        rec.fn_timestamps.created, TimestampType::Created, TimestampSource::FileName)
        + exploded_opt(rec, rec.fn_timestamps.modified, TimestampType::Modified,
        TimestampSource::FileName) + exploded_opt(rec, rec.fn_timestamps.mft_modified,
        TimestampType::MftModified, TimestampSource::FileName) + exploded_opt(rec,
        rec.fn_timestamps.accessed, TimestampType::Accessed, TimestampSource::FileName)
}

impl Event {
    /// Extract all timeline events from this record: one row for each
    /// present timestamp across both provenances, so a record with `k`
    /// present timestamps yields exactly `k` rows.
    pub fn extract_timeline_events(&self) -> (r: Vec<TimelineEvent>)
        ensures
            r@.map_values(|e: TimelineEvent| e@) == exploded_events(self@),
            r@.len() == self@.timestamps.count_present() + self@.fn_timestamps.count_present(),
    {
        let mut events: Vec<TimelineEvent> = Vec::new();
        let filename: String = match &self.filename {
            Some(f) => f.clone(),
            None => String::from_str("N/A"),
        };
        let location: String = match &self.location {
            Some(l) => l.clone(),
            None => String::from_str("\\"),
        };
        self.push_opt(&mut events, &filename, &location, self.timestamps.created,
            TimestampType::Created, TimestampSource::StandardInformation);
        self.push_opt(&mut events, &filename, &location, self.timestamps.modified,
            TimestampType::Modified, TimestampSource::StandardInformation);
        self.push_opt(&mut events, &filename, &location, self.timestamps.mft_modified,
            TimestampType::MftModified, TimestampSource::StandardInformation);
        self.push_opt(&mut events, &filename, &location, self.timestamps.accessed,
            TimestampType::Accessed, TimestampSource::StandardInformation);
        self.push_opt(&mut events, &filename, &location, self.fn_timestamps.created,
            TimestampType::Created, TimestampSource::FileName);
        self.push_opt(&mut events, &filename, &location, self.fn_timestamps.modified,
            TimestampType::Modified, TimestampSource::FileName);
        self.push_opt(&mut events, &filename, &location, self.fn_timestamps.mft_modified,
            TimestampType::MftModified, TimestampSource::FileName);
        self.push_opt(&mut events, &filename, &location, self.fn_timestamps.accessed,
            TimestampType::Accessed, TimestampSource::FileName);
        proof {
            assert(events@.map_values(|e: TimelineEvent| e@) =~= exploded_events(self@));
        }
        events
    }

    /// Append the row of one optional timestamp.
    fn push_opt(
        &self,
        events: &mut Vec<TimelineEvent>,
        filename: &String,
        location: &String,
        t: Option<u64>,
        tt: TimestampType,
        src: TimestampSource,
    )
        requires
            filename@ == match self@.filename {
                Some(f) => f,
                None => "N/A"@,
            },
            location@ == match self@.location {
                Some(l) => l,
                None => "\\"@,
            },
        ensures
            final(events)@.map_values(|e: TimelineEvent| e@) == old(events)@.map_values(
                |e: TimelineEvent| e@,
            ) + exploded_opt(self@, t, tt, src),
            final(events)@.len() == old(events)@.len() + (if t is Some {
                1int
            } else {
                0int
            }),
    {
        if let Some(t) = t {
            events.push(self.mk_event(filename, location, t, tt, src));
            proof {
                assert(events@.map_values(|e: TimelineEvent| e@) =~= old(events)@.map_values(
                    |e: TimelineEvent| e@) + exploded_opt(self@, Some(t), tt, src));
            }
        } else {
            proof {
                assert(events@.map_values(|e: TimelineEvent| e@) =~= old(events)@.map_values(
                    |e: TimelineEvent| e@) + exploded_opt(self@, Option::<u64>::None, tt, src));
            }
        }
    }

    /// Build one timeline row of this record.
    fn mk_event(
        &self,
        filename: &String,
        location: &String,
        t: u64,
        tt: TimestampType,
        src: TimestampSource,
    ) -> (r: TimelineEvent)
        requires
            filename@ == match self@.filename {
                Some(f) => f,
                None => "N/A"@,
            },
            location@ == match self@.location {
                Some(l) => l,
                None => "\\"@,
            },
        ensures
            r@ == exploded_event(self@, t, tt, src),
    {
        TimelineEvent {
            filename: filename.clone(),
            timestamp: t,
            timestamp_type: tt,
            timestamp_source: src,
            mft_record_number: self.record_number,
            location: location.clone(),
            file_size: self.file_size,
            is_directory: self.is_directory,
            event_source: match &self.event_source {
                Some(s) => Some(s.clone()),
                None => None,
            },
        }
    }
}

} // verus!
