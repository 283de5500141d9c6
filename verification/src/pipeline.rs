//! The conversion from the text of a table to the calendar files of its rows.

use vstd::prelude::*;
use crate::document::{create_calendar_event, file_of, FileView, OutputFile};
use crate::event::{is_identifier, normalize_fresh, normalized, EventData};
use crate::record::{CsvEventData, MalformedInput, RecordView};
use crate::table::{accepted, csv_records, fails_at, parse_records, record_views, table_records};

verus! {

/// The events are those of the records, one for one and in their order, each under
/// an identifier of its own.
pub open spec fn normalizes(events: Seq<EventData>, records: Seq<RecordView>) -> bool {
    &&& events.len() == records.len()
    &&& forall|i: int|
        0 <= i < events.len() ==> is_identifier((#[trigger] events[i])@.guid) && events[i]@
            == normalized(records[i], events[i]@.guid)
}

/// The file is that of the record's event under some identifier.
pub open spec fn made_from(
    file: FileView,
    record: RecordView,
    company: Seq<char>,
    dir: Seq<char>,
) -> bool {
    exists|id: Seq<char>|
        is_identifier(id) && file == #[trigger] file_of(normalized(record, id), company, dir)
}

/// The files are those of the records, one for one and in their order.
pub open spec fn files_of_records(
    files: Seq<OutputFile>,
    records: Seq<RecordView>,
    company: Seq<char>,
    dir: Seq<char>,
) -> bool {
    &&& files.len() == records.len()
    &&& forall|i: int|
        0 <= i < files.len() ==> made_from((#[trigger] files[i])@, records[i], company, dir)
}

/// Makes the event of every record, in the records' order, each under a fresh
/// identifier.
pub fn normalize_all(records: &Vec<CsvEventData>) -> (events: Vec<EventData>)
    ensures
        normalizes(events@, record_views(records@)),
{
    let mut events: Vec<EventData> = Vec::new();
    let mut i: usize = 0;
    while i < records.len()
        invariant
            i <= records.len(),
            normalizes(events@, record_views(records@).take(i as int)),
        decreases records.len() - i,
    {
        let event = normalize_fresh(&records[i]);
        events.push(event);
        i += 1;
    }
    assert(record_views(records@).take(records.len() as int) =~= record_views(records@));
    events
}

/// Reads a table and makes the event of every data row. A table with a row that
/// cannot be decoded gives no events at all.
pub fn process_csv(input: &[u8]) -> (outcome: Result<Vec<EventData>, MalformedInput>)
    ensures
        match outcome {
            Ok(events) => accepted(csv_records(input@).0, csv_records(input@).1) && normalizes(
                events@,
                table_records(csv_records(input@).0),
            ),
            Err(failure) => fails_at(
                csv_records(input@).0,
                csv_records(input@).1,
                failure.record as int,
            ),
        },
{
    match parse_records(input) {
        Ok(records) => Ok(normalize_all(&records)),
        Err(failure) => Err(failure),
    }
}

/// Makes the calendar file of every event, in the events' order.
pub fn plan_files(events: &Vec<EventData>, company: &str, output_dir: &str) -> (files: Vec<
    OutputFile,
>)
    ensures
        files.len() == events.len(),
        forall|i: int|
            0 <= i < files.len() ==> (#[trigger] files[i])@ == file_of(
                events[i]@,
                company@,
                output_dir@,
            ),
{
    let mut files: Vec<OutputFile> = Vec::new();
    let mut i: usize = 0;
    while i < events.len()
        invariant
            i <= events.len(),
            files.len() == i,
            forall|k: int|
                0 <= k < i ==> (#[trigger] files[k])@ == file_of(
                    events[k]@,
                    company@,
                    output_dir@,
                ),
        decreases events.len() - i,
    {
        let file = create_calendar_event(&events[i], company, output_dir);
        files.push(file);
        i += 1;
    }
    files
}

/// Converts the text of a table into calendar files: one for each data row, in
/// the rows' order. The first row that cannot be decoded fails the whole table,
/// and then no file is made, for that row or any other.
pub fn convert(input: &[u8], company: &str, output_dir: &str) -> (outcome: Result<
    Vec<OutputFile>,
    MalformedInput,
>)
    ensures
        match outcome {
            Ok(files) => accepted(csv_records(input@).0, csv_records(input@).1)
                && files_of_records(
                files@,
                table_records(csv_records(input@).0),
                company@,
                output_dir@,
            ),
            Err(failure) => fails_at(
                csv_records(input@).0,
                csv_records(input@).1,
                failure.record as int,
            ),
        },
{
    match process_csv(input) {
        Ok(events) => {
            let files = plan_files(&events, company, output_dir);
            proof {
                let records = table_records(csv_records(input@).0);
                assert forall|i: int| 0 <= i < files.len() implies made_from(
                    (#[trigger] files[i])@,
                    records[i],
                    company@,
                    output_dir@,
                ) by {
                    let id = events[i]@.guid;
                    assert(files[i]@ == file_of(normalized(records[i], id), company@, output_dir@));
                }
            }
            Ok(files)
        },
        Err(failure) => Err(failure),
    }
}

} // verus!
