//! Rows of the event table: binding the five columns by their header names and
//! decoding each data row into a record.

use vstd::prelude::*;
use vstd::string::StringExecFns;

verus! {

/// One row of the table as it was read: five texts, none of them interpreted.
#[derive(Debug, Clone, PartialEq, Eq)]
pub struct CsvEventData {
    pub organizer: String,
    pub start_time: String,
    pub end_time: String,
    pub summary: String,
    pub description: String,
}

/// What a [`CsvEventData`] stands for in contracts.
pub ghost struct RecordView {
    pub organizer: Seq<char>,
    pub start_time: Seq<char>,
    pub end_time: Seq<char>,
    pub summary: Seq<char>,
    pub description: Seq<char>,
}

impl View for CsvEventData {
    type V = RecordView;

    open spec fn view(&self) -> RecordView {
        RecordView {
            organizer: self.organizer@,
            start_time: self.start_time@,
            end_time: self.end_time@,
            summary: self.summary@,
            description: self.description@,
        }
    }
}

/// A table that could not be decoded. `record` counts the records of the table
/// from 0, the header row included, and is the place of the first one that failed;
/// it is the number of records that were read where reading itself broke off.
#[derive(Debug, Clone, Copy, PartialEq, Eq, Structural)]
pub struct MalformedInput {
    pub record: usize,
}

/// Where in a row each of the five fields stands.
#[derive(Debug, Clone, Copy, PartialEq, Eq, Structural)]
pub struct Columns {
    pub organizer: usize,
    pub start_time: usize,
    pub end_time: usize,
    pub summary: usize,
    pub description: usize,
}

/// `name` is the title of the column at `i` of `header`, and of no other.
pub open spec fn names_column(header: Seq<Seq<char>>, name: Seq<char>, i: int) -> bool {
    &&& 0 <= i < header.len()
    &&& forall|j: int| 0 <= j < header.len() ==> (#[trigger] header[j] == name <==> j == i)
}

/// `name` is the title of exactly one column of `header`.
pub open spec fn has_column(header: Seq<Seq<char>>, name: Seq<char>) -> bool {
    exists|i: int| names_column(header, name, i)
}

/// The place of the one column of `header` that is titled `name`.
pub open spec fn column_of(header: Seq<Seq<char>>, name: Seq<char>) -> int {
    choose|i: int| names_column(header, name, i)
}

/// Each of the five field names is the title of exactly one column. Columns with
/// other titles may stand anywhere among them.
pub open spec fn bindable(header: Seq<Seq<char>>) -> bool {
    &&& has_column(header, "organizer"@)
    &&& has_column(header, "start_time"@)
    &&& has_column(header, "end_time"@)
    &&& has_column(header, "summary"@)
    &&& has_column(header, "description"@)
}

/// A row can be decoded under a header when the header names the five fields and
/// the row has as many fields as the header has columns.
pub open spec fn decodable(header: Seq<Seq<char>>, row: Seq<Seq<char>>) -> bool {
    bindable(header) && row.len() == header.len()
}

/// The record that a decodable row holds: each field from the column of its name.
pub open spec fn decoded(header: Seq<Seq<char>>, row: Seq<Seq<char>>) -> RecordView {
    RecordView {
        organizer: row[column_of(header, "organizer"@)],
        start_time: row[column_of(header, "start_time"@)],
        end_time: row[column_of(header, "end_time"@)],
        summary: row[column_of(header, "summary"@)],
        description: row[column_of(header, "description"@)],
    }
}

impl Columns {
    /// These are the places of the five fields under `header`.
    pub open spec fn binds(&self, header: Seq<Seq<char>>) -> bool {
        &&& names_column(header, "organizer"@, self.organizer as int)
        &&& names_column(header, "start_time"@, self.start_time as int)
        &&& names_column(header, "end_time"@, self.end_time as int)
        &&& names_column(header, "summary"@, self.summary as int)
        &&& names_column(header, "description"@, self.description as int)
    }
}

/// Two places that the same name titles alone are one place.
pub proof fn lemma_column_unique(header: Seq<Seq<char>>, name: Seq<char>, i: int)
    requires
        names_column(header, name, i),
    ensures
        has_column(header, name),
        column_of(header, name) == i,
{
    let k = column_of(header, name);
    assert(names_column(header, name, k));
    assert(header[i] == name);
}

/// Looks for the one column titled `name`. A title that is missing, or that two
/// columns carry, gives `None`.
pub fn find_column(header: &Vec<String>, name: &str) -> (found: Option<usize>)
    ensures
        match found {
            Some(i) => names_column(header.deep_view(), name@, i as int),
            None => !has_column(header.deep_view(), name@),
        },
{
    let ghost titles = header.deep_view();
    let wanted = String::from_str(name);
    let mut found: Option<usize> = None;
    let mut i: usize = 0;
    while i < header.len()
        invariant
            i <= header.len(),
            titles == header.deep_view(),
            titles.len() == header.len(),
            wanted@ == name@,
            match found {
                Some(k) => k < i && forall|j: int|
                    0 <= j < i ==> (#[trigger] titles[j] == name@ <==> j == k),
                None => forall|j: int| 0 <= j < i ==> #[trigger] titles[j] != name@,
            },
        decreases header.len() - i,
    {
        assert(titles[i as int] == header[i as int]@);
        if header[i] == wanted {
            match found {
                Some(k) => {
                    assert forall|c: int| !names_column(titles, name@, c) by {
                        if names_column(titles, name@, c) {
                            assert(titles[k as int] == name@);
                            assert(titles[i as int] == name@);
                        }
                    }
                    return None;
                },
                None => {
                    found = Some(i);
                },
            }
        }
        i += 1;
    }
    proof {
        if found is None {
            assert forall|c: int| !names_column(titles, name@, c) by {
                if names_column(titles, name@, c) {
                    assert(titles[c] == name@);
                }
            }
        }
    }
    found
}

/// Binds the five fields to the columns of `header` by name.
pub fn bind_columns(header: &Vec<String>) -> (columns: Option<Columns>)
    ensures
        columns is Some <==> bindable(header.deep_view()),
        columns is Some ==> columns->0.binds(header.deep_view()),
{
    let organizer = find_column(header, "organizer");
    let start_time = find_column(header, "start_time");
    let end_time = find_column(header, "end_time");
    let summary = find_column(header, "summary");
    let description = find_column(header, "description");
    match (organizer, start_time, end_time, summary, description) {
        (Some(o), Some(s), Some(e), Some(m), Some(d)) => {
            proof {
                let titles = header.deep_view();
                lemma_column_unique(titles, "organizer"@, o as int);
                lemma_column_unique(titles, "start_time"@, s as int);
                lemma_column_unique(titles, "end_time"@, e as int);
                lemma_column_unique(titles, "summary"@, m as int);
                lemma_column_unique(titles, "description"@, d as int);
            }
            Some(Columns { organizer: o, start_time: s, end_time: e, summary: m, description: d })
        },
        _ => None,
    }
}

/// Takes the five fields of a row from their columns.
pub(crate) fn take_row(columns: &Columns, header: &Vec<String>, row: &Vec<String>) -> (record:
    CsvEventData)
    requires
        columns.binds(header.deep_view()),
        row.len() == header.len(),
    ensures
        record@ == decoded(header.deep_view(), row.deep_view()),
{
    proof {
        let titles = header.deep_view();
        lemma_column_unique(titles, "organizer"@, columns.organizer as int);
        lemma_column_unique(titles, "start_time"@, columns.start_time as int);
        lemma_column_unique(titles, "end_time"@, columns.end_time as int);
        lemma_column_unique(titles, "summary"@, columns.summary as int);
        lemma_column_unique(titles, "description"@, columns.description as int);
        assert(row.deep_view().len() == row.len());
        assert(forall|j: int| 0 <= j < row.len() ==> #[trigger] row.deep_view()[j] == row[j]@);
    }
    CsvEventData {
        organizer: row[columns.organizer].clone(),
        start_time: row[columns.start_time].clone(),
        end_time: row[columns.end_time].clone(),
        summary: row[columns.summary].clone(),
        description: row[columns.description].clone(),
    }
}

/// Decodes one row under a header, or gives `None` where the header does not name
/// the five fields or the row has another number of fields than the header.
pub fn decode_row(header: &Vec<String>, row: &Vec<String>) -> (record: Option<CsvEventData>)
    ensures
        record is Some <==> decodable(header.deep_view(), row.deep_view()),
        record is Some ==> record->0@ == decoded(header.deep_view(), row.deep_view()),
{
    match bind_columns(header) {
        Some(columns) => {
            if row.len() == header.len() {
                Some(take_row(&columns, header, row))
            } else {
                None
            }
        },
        None => None,
    }
}

} // verus!
