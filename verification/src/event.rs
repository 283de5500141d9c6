//! Events: a record with its timestamps made compact, its description escaped and
//! an identifier of its own.

use vstd::prelude::*;
use crate::record::{CsvEventData, RecordView};
use crate::text::{compact, compact_timestamp, is_compact, lemma_compact_idempotent};

verus! {

/// One event, ready to be written into a calendar document.
#[derive(Debug, Clone, PartialEq, Eq)]
pub struct EventData {
    pub guid: String,
    pub organizer: String,
    pub start_time: String,
    pub end_time: String,
    pub summary: String,
    pub description: String,
}

/// What an [`EventData`] stands for in contracts.
pub ghost struct EventView {
    pub guid: Seq<char>,
    pub organizer: Seq<char>,
    pub start_time: Seq<char>,
    pub end_time: Seq<char>,
    pub summary: Seq<char>,
    pub description: Seq<char>,
}

impl View for EventData {
    type V = EventView;

    open spec fn view(&self) -> EventView {
        EventView {
            guid: self.guid@,
            organizer: self.organizer@,
            start_time: self.start_time@,
            end_time: self.end_time@,
            summary: self.summary@,
            description: self.description@,
        }
    }
}

impl EventView {
    /// Both timestamps are compact.
    pub open spec fn well_formed(self) -> bool {
        is_compact(self.start_time) && is_compact(self.end_time)
    }
}

/// What the character at `i` of `s` becomes in escaped text. A comma, a semicolon
/// and a backslash get a backslash in front. A line feed becomes a backslash and
/// the letter `n`, and so does a carriage return, unless a line feed follows it:
/// then the carriage return is dropped and the pair counts as one line break.
pub open spec fn escape_at(s: Seq<char>, i: int) -> Seq<char> {
    let c = s[i];
    if c == ',' || c == ';' || c == '\\' {
        seq!['\\', c]
    } else if c == '\n' {
        seq!['\\', 'n']
    } else if c == '\r' {
        if i + 1 < s.len() && s[i + 1] == '\n' {
            Seq::empty()
        } else {
            seq!['\\', 'n']
        }
    } else {
        seq![c]
    }
}

/// A text escaped for a calendar property of the kind text: what each of its
/// characters becomes, in their order.
pub open spec fn escaped(s: Seq<char>) -> Seq<char> {
    Seq::new(s.len(), |i: int| escape_at(s, i)).flatten()
}

/// A lower-case hexadecimal digit.
pub open spec fn is_lower_hex(c: char) -> bool {
    ('0' <= c && c <= '9') || ('a' <= c && c <= 'f')
}

/// The shape of an identifier: 36 characters, hyphens after the 8th, 12th, 16th
/// and 20th digit, lower-case hexadecimal digits elsewhere, and `4` as the 13th
/// digit.
pub open spec fn is_identifier(s: Seq<char>) -> bool {
    &&& s.len() == 36
    &&& s[14] == '4'
    &&& forall|i: int|
        0 <= i < 36 ==> if i == 8 || i == 13 || i == 18 || i == 23 {
            #[trigger] s[i] == '-'
        } else {
            is_lower_hex(s[i])
        }
}

/// Escapes a text with `ics::escape_text`. The contract states what that function
/// does to each character; nothing of it is proved here.
#[verifier::external_body]
fn escape_text(text: &str) -> (out: String)
    ensures
        out@ == escaped(text@),
{
    ics::escape_text(text).into_owned()
}

/// Draws a random identifier with `uuid::Uuid::new_v4` and writes it out in the
/// hyphenated form. Which identifier comes is left open: the contract gives its
/// shape alone, and does not say that two calls differ. The call panics where the
/// system has no random bytes to give.
#[verifier::external_body]
fn new_identifier() -> (id: String)
    ensures
        is_identifier(id@),
{
    uuid::Uuid::new_v4().to_string()
}

/// The event that a record gives under the identifier `guid`.
pub open spec fn normalized(record: RecordView, guid: Seq<char>) -> EventView {
    EventView {
        guid,
        organizer: record.organizer,
        start_time: compact(record.start_time),
        end_time: compact(record.end_time),
        summary: record.summary,
        description: escaped(record.description),
    }
}

/// Makes the event of a record and an identifier. Organizer and summary pass
/// through; the two timestamps lose their `-` and `:`, whether or not they are
/// dates; the description is escaped.
pub fn normalize(record: &CsvEventData, guid: String) -> (event: EventData)
    ensures
        event@ == normalized(record@, guid@),
        event@.well_formed(),
{
    let start_time = compact_timestamp(record.start_time.as_str());
    let end_time = compact_timestamp(record.end_time.as_str());
    let description = escape_text(record.description.as_str());
    EventData {
        guid,
        organizer: record.organizer.clone(),
        start_time,
        end_time,
        summary: record.summary.clone(),
        description,
    }
}

/// Makes the event of a record under a fresh random identifier.
pub fn normalize_fresh(record: &CsvEventData) -> (event: EventData)
    ensures
        is_identifier(event@.guid),
        event@ == normalized(record@, event@.guid),
        event@.well_formed(),
{
    let guid = new_identifier();
    normalize(record, guid)
}

/// The event of any record is well formed, whatever its timestamps were.
pub proof fn lemma_normalized_is_well_formed(record: RecordView, guid: Seq<char>)
    ensures
        normalized(record, guid).well_formed(),
{
    lemma_compact_idempotent(record.start_time);
    lemma_compact_idempotent(record.end_time);
}

} // verus!
