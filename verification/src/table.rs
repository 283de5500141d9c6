//! The event table as a whole: reading its records out of delimited text and
//! decoding every data row under the header row.

use vstd::prelude::*;
use crate::record::{
    bind_columns, bindable, decodable, decoded, take_row, CsvEventData, MalformedInput,
    RecordView,
};

verus! {

/// The error of the `csv` crate, `csv::Error`. Nothing is said of what it holds:
/// it is only told apart from success.
#[verifier::external_type_specification]
#[verifier::external_body]
pub struct ExCsvError(csv::Error);

/// What the `csv` reader makes of a text when it is set up without a header row of
/// its own, so that the header comes out as the first record: the records that it
/// reads in their order up to the end or to the first one that it refuses, each as
/// its fields, and whether it reached the end without refusing one.
pub uninterp spec fn csv_records(input: Seq<u8>) -> (Seq<Seq<Seq<char>>>, bool);

/// Reads the records of a delimited text with `csv::Reader::records`, on a reader
/// built by `csv::ReaderBuilder` with `has_headers(false)` and otherwise as the
/// builder makes it. The contract only gives the outcome its name: the records
/// read before the first failure, and that failure if there was one.
#[verifier::external_body]
fn read_records(input: &[u8]) -> (read: (Vec<Vec<String>>, Option<csv::Error>))
    ensures
        (read.0.deep_view(), read.1 is None) == csv_records(input@),
{
    let mut reader = csv::ReaderBuilder::new().has_headers(false).from_reader(input);
    let mut rows: Vec<Vec<String>> = Vec::new();
    for item in reader.records() {
        match item {
            Ok(record) => rows.push(record.iter().map(String::from).collect()),
            Err(failure) => return (rows, Some(failure)),
        }
    }
    (rows, None)
}

/// The data row at `i` of a table can be decoded under the table's header row.
pub open spec fn row_decodes(table: Seq<Seq<Seq<char>>>, i: int) -> bool {
    decodable(table[0], table[i])
}

/// Every data row before `n` can be decoded.
pub open spec fn rows_decode(table: Seq<Seq<Seq<char>>>, n: int) -> bool {
    forall|i: int| 1 <= i < n ==> #[trigger] row_decodes(table, i)
}

/// The table was read to its end and every data row can be decoded. A table of no
/// records, or of a header row alone, passes whatever its header says.
pub open spec fn accepted(table: Seq<Seq<Seq<char>>>, complete: bool) -> bool {
    complete && rows_decode(table, table.len() as int)
}

/// The first failure of the table is at record `k`: all data rows before it can be
/// decoded, and either `k` is a data row that cannot, or `k` is past the last
/// record read and reading broke off there.
pub open spec fn fails_at(table: Seq<Seq<Seq<char>>>, complete: bool, k: int) -> bool {
    &&& 0 <= k <= table.len()
    &&& rows_decode(table, k)
    &&& if k < table.len() {
        1 <= k && !row_decodes(table, k)
    } else {
        !complete
    }
}

/// The records of a table: one for each data row, in the rows' order.
pub open spec fn table_records(table: Seq<Seq<Seq<char>>>) -> Seq<RecordView> {
    if table.len() == 0 {
        Seq::empty()
    } else {
        Seq::new((table.len() - 1) as nat, |k: int| decoded(table[0], table[k + 1]))
    }
}

/// The records of a list, each as what it stands for.
pub open spec fn record_views(records: Seq<CsvEventData>) -> Seq<RecordView> {
    records.map_values(|r: CsvEventData| r@)
}

/// A table fails at one record at most, and a table that fails is not accepted.
pub proof fn lemma_failure_is_unique(
    table: Seq<Seq<Seq<char>>>,
    complete: bool,
    j: int,
    k: int,
)
    requires
        fails_at(table, complete, j),
        fails_at(table, complete, k),
    ensures
        j == k,
        !accepted(table, complete),
{
    if j < k {
        assert(row_decodes(table, j));
    }
    if k < j {
        assert(row_decodes(table, k));
    }
    if k < table.len() {
        assert(!row_decodes(table, k));
    }
}

/// A table with no data rows that was read to its end is accepted and holds no
/// records.
pub proof fn lemma_header_alone_is_accepted(table: Seq<Seq<Seq<char>>>)
    requires
        table.len() <= 1,
    ensures
        accepted(table, true),
        table_records(table).len() == 0,
{
}

/// Decodes the data rows of a table under its first record, the header row.
/// `complete` says that the table was read to its end. The first row that cannot
/// be decoded stops the work; a table that broke off fails after its last row.
pub fn decode_table(rows: &Vec<Vec<String>>, complete: bool) -> (outcome: Result<
    Vec<CsvEventData>,
    MalformedInput,
>)
    ensures
        match outcome {
            Ok(records) => accepted(rows.deep_view(), complete) && record_views(records@)
                == table_records(rows.deep_view()),
            Err(failure) => fails_at(rows.deep_view(), complete, failure.record as int),
        },
{
    let ghost table = rows.deep_view();
    let mut records: Vec<CsvEventData> = Vec::new();
    if rows.len() > 0 {
        let header = &rows[0];
        let columns = bind_columns(header);
        assert(table[0] == header.deep_view());
        let mut i: usize = 1;
        while i < rows.len()
            invariant
                1 <= i <= rows.len(),
                table == rows.deep_view(),
                table.len() == rows.len(),
                table[0] == header.deep_view(),
                columns is Some <==> bindable(table[0]),
                columns is Some ==> columns->0.binds(table[0]),
                rows_decode(table, i as int),
                records.len() == i - 1,
                forall|k: int| 0 <= k < i - 1 ==> (#[trigger] records[k])@ == decoded(
                    table[0],
                    table[k + 1],
                ),
            decreases rows.len() - i,
        {
            let row = &rows[i];
            assert(table[i as int] == row.deep_view());
            if columns.is_some() && row.len() == header.len() {
                let bound = columns.unwrap();
                let record = take_row(&bound, header, row);
                records.push(record);
                assert(row_decodes(table, i as int));
            } else {
                assert(!row_decodes(table, i as int));
                return Err(MalformedInput { record: i });
            }
            i += 1;
        }
    }
    if complete {
        assert(record_views(records@) =~= table_records(table));
        Ok(records)
    } else {
        Err(MalformedInput { record: rows.len() })
    }
}

/// Reads a delimited text with a header row into records, one for each data row
/// and in the rows' order. The fields are bound to the columns by the names in the
/// header row. The text is read whole before anything is decoded.
pub fn parse_records(input: &[u8]) -> (outcome: Result<Vec<CsvEventData>, MalformedInput>)
    ensures
        match outcome {
            Ok(records) => accepted(csv_records(input@).0, csv_records(input@).1)
                && record_views(records@) == table_records(csv_records(input@).0),
            Err(failure) => fails_at(
                csv_records(input@).0,
                csv_records(input@).1,
                failure.record as int,
            ),
        },
{
    let (rows, failure) = read_records(input);
    decode_table(&rows, failure.is_none())
}

} // verus!
