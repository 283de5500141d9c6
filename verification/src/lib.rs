//! Turns rows of a delimited event table into calendar documents, one per row.
//!
//! The library works on plain values: the bytes of a table go in, and the path and
//! text of every calendar file come out. Reading the table and writing the files is
//! left to the caller.

pub mod document;
pub mod event;
pub mod pipeline;
pub mod record;
pub mod table;
pub mod text;

pub use document::{build_document, create_calendar_event, CalendarDocument, OutputFile};
pub use event::{normalize, EventData};
pub use pipeline::{convert, process_csv};
pub use record::{CsvEventData, MalformedInput};
pub use table::parse_records;
