//! The event that flows through the pipeline: one ingested record, its
//! extracted indicators and its parsed metadata.
use crate::clock::{now_utc, UtcInstant};
use vstd::prelude::*;

verus! {

/// The kinds of indicator the normalization stage recognizes.
#[derive(Clone, Copy, Debug, PartialEq, Eq, Structural)]
pub enum IocKind {
    Ip,
}

impl IocKind {
    /// The wire name of the kind, as used in the console indicator summary.
    pub fn as_str(&self) -> (r: &'static str)
        ensures
            r@ == "ip"@,
    {
        match self {
            IocKind::Ip => "ip",
        }
    }
}

/// One indicator extracted from a raw line.
#[derive(Clone, Debug, PartialEq, Eq)]
pub struct IocMatch {
    pub kind: IocKind,
    pub value: String,
}

/// The mathematical shadow of an `IocMatch`.
pub struct IocView {
    pub kind: IocKind,
    pub value: Seq<char>,
}

impl View for IocMatch {
    type V = IocView;

    open spec fn view(&self) -> IocView {
        IocView { kind: self.kind, value: self.value@ }
    }
}

/// Metadata parsed out of a raw line; every field is independently optional.
#[derive(Clone, Debug)]
pub struct ParsedMetadata {
    pub level: Option<String>,
    pub app_name: Option<String>,
    pub observed_ts: Option<UtcInstant>,
}

/// The mathematical shadow of a `ParsedMetadata`.
pub struct MetadataView {
    pub level: Option<Seq<char>>,
    pub app_name: Option<Seq<char>>,
    pub observed_ts: Option<UtcInstant>,
}

pub open spec fn view_opt_string(o: Option<String>) -> Option<Seq<char>> {
    match o {
        Some(s) => Some(s@),
        None => None,
    }
}

impl View for ParsedMetadata {
    type V = MetadataView;

    open spec fn view(&self) -> MetadataView {
        MetadataView {
            level: view_opt_string(self.level),
            app_name: view_opt_string(self.app_name),
            observed_ts: self.observed_ts,
        }
    }
}

/// The empty metadata every event starts with.
pub open spec fn empty_metadata() -> MetadataView {
    MetadataView { level: None, app_name: None, observed_ts: None }
}

impl Default for ParsedMetadata {
    /// No level, no application name, no observed timestamp.
    fn default() -> (r: ParsedMetadata)
        ensures
            r@ == empty_metadata(),
    {
        ParsedMetadata { level: None, app_name: None, observed_ts: None }
    }
}

/// One ingested record.
#[derive(Clone, Debug)]
pub struct LogEvent {
    pub source: String,
    pub line: String,
    pub ingested_at: UtcInstant,
    pub indicators: Vec<IocMatch>,
    pub metadata: ParsedMetadata,
}

/// The mathematical shadow of a `LogEvent`.
pub struct EventView {
    pub source: Seq<char>,
    pub line: Seq<char>,
    pub ingested_at: UtcInstant,
    pub indicators: Seq<IocView>,
    pub metadata: MetadataView,
}

impl View for LogEvent {
    type V = EventView;

    open spec fn view(&self) -> EventView {
        EventView {
            source: self.source@,
            line: self.line@,
            ingested_at: self.ingested_at,
            indicators: self.indicators@.map_values(|m: IocMatch| m@),
            metadata: self.metadata@,
        }
    }
}

impl LogEvent {
    /// A fresh event for a line just read from `source`, stamped with the
    /// current UTC time and not yet enriched.
    pub fn new(source: String, line: String) -> (r: LogEvent)
        ensures
            r@.source == source@,
            r@.line == line@,
            r@.ingested_at.valid(),
            r@.indicators =~= Seq::<IocView>::empty(),
            r@.metadata == empty_metadata(),
    {
        LogEvent {
            source,
            line,
            ingested_at: now_utc(),
            indicators: Vec::new(),
            metadata: ParsedMetadata::default(),
        }
    }
}

} // verus!
