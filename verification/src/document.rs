//! Calendar documents: the one event of a document with its properties in their
//! fixed order, the text of the document, and the path of its file.

use vstd::prelude::*;
use vstd::string::{StrSliceExecFns, StringExecFns};
use crate::event::{escaped, normalized, EventData, EventView};
use crate::record::RecordView;
use crate::text::{
    compact, is_compact, lemma_compact_idempotent, lemma_sanitized_is_safe, sanitize_file_name,
    sanitized,
};

verus! {

/// A property of an event: its name and its value.
#[derive(Debug, Clone, PartialEq, Eq)]
pub struct Property {
    pub name: String,
    pub value: String,
}

impl View for Property {
    type V = (Seq<char>, Seq<char>);

    open spec fn view(&self) -> (Seq<char>, Seq<char>) {
        (self.name@, self.value@)
    }
}

/// A calendar with one event. `uid` and `stamp` are the two properties that every
/// event opens with; `properties` follow them in their order.
#[derive(Debug, Clone, PartialEq, Eq)]
pub struct CalendarDocument {
    pub version: String,
    pub product_id: String,
    pub uid: String,
    pub stamp: String,
    pub properties: Vec<Property>,
}

/// What a [`CalendarDocument`] stands for in contracts.
pub ghost struct DocumentView {
    pub version: Seq<char>,
    pub product_id: Seq<char>,
    pub uid: Seq<char>,
    pub stamp: Seq<char>,
    pub properties: Seq<(Seq<char>, Seq<char>)>,
}

impl View for CalendarDocument {
    type V = DocumentView;

    open spec fn view(&self) -> DocumentView {
        DocumentView {
            version: self.version@,
            product_id: self.product_id@,
            uid: self.uid@,
            stamp: self.stamp@,
            properties: self.properties@.map_values(|p: Property| p@),
        }
    }
}

/// The path and the text of one calendar file, with the summary of its event.
#[derive(Debug, Clone, PartialEq, Eq)]
pub struct OutputFile {
    pub summary: String,
    pub path: String,
    pub contents: String,
}

/// What an [`OutputFile`] stands for in contracts.
pub ghost struct FileView {
    pub summary: Seq<char>,
    pub path: Seq<char>,
    pub contents: Seq<char>,
}

impl View for OutputFile {
    type V = FileView;

    open spec fn view(&self) -> FileView {
        FileView { summary: self.summary@, path: self.path@, contents: self.contents@ }
    }
}

/// The product identifier of the documents made for `company`.
pub open spec fn product_id_of(company: Seq<char>) -> Seq<char> {
    "-//"@ + company + "//NONSGML PDA Calendar Version 1.0//EN"@
}

/// The properties of an event after its identifier and its stamp, in the order in
/// which every document carries them.
pub open spec fn properties_of(event: EventView) -> Seq<(Seq<char>, Seq<char>)> {
    seq![
        ("ORGANIZER"@, event.organizer),
        ("DTSTART"@, event.start_time),
        ("DTEND"@, event.end_time),
        ("STATUS"@, "CONFIRMED"@),
        ("CATEGORIES"@, "Ticket"@),
        ("SUMMARY"@, event.summary),
        ("DESCRIPTION"@, event.description),
    ]
}

/// The document of an event: version 2.0, the company's product identifier, the
/// event's identifier, its start as the stamp, and its properties.
pub open spec fn document_of(event: EventView, company: Seq<char>) -> DocumentView {
    DocumentView {
        version: "2.0"@,
        product_id: product_id_of(company),
        uid: event.guid,
        stamp: event.start_time,
        properties: properties_of(event),
    }
}

/// The text that the `ics` crate writes for a calendar of the given version and
/// product identifier that holds one event, made with `uid` and `stamp` and then
/// given the properties in their order, each without parameters.
pub uninterp spec fn calendar_text(
    version: Seq<char>,
    product_id: Seq<char>,
    uid: Seq<char>,
    stamp: Seq<char>,
    properties: Seq<(Seq<char>, Seq<char>)>,
) -> Seq<char>;

/// The text of a document.
pub open spec fn document_text(document: DocumentView) -> Seq<char> {
    calendar_text(
        document.version,
        document.product_id,
        document.uid,
        document.stamp,
        document.properties,
    )
}

/// The name of the file of an event with this summary.
pub open spec fn file_name_of(summary: Seq<char>) -> Seq<char> {
    sanitized(summary) + ".ics"@
}

/// The path of the file of an event with this summary in the directory `dir`. A
/// `/` is put between the two unless `dir` is empty or ends in one.
pub open spec fn path_of(dir: Seq<char>, summary: Seq<char>) -> Seq<char> {
    if dir.len() == 0 || dir.last() == '/' {
        dir + file_name_of(summary)
    } else {
        dir.push('/') + file_name_of(summary)
    }
}

/// The file of an event: where it goes and what it holds.
pub open spec fn file_of(event: EventView, company: Seq<char>, dir: Seq<char>) -> FileView {
    FileView {
        summary: event.summary,
        path: path_of(dir, event.summary),
        contents: document_text(document_of(event, company)),
    }
}

/// Writes a document out with the `ics` crate: `ICalendar::new`, `Event::new`,
/// `Event::push` of a `Property::new` for each property, `ICalendar::add_event`,
/// and the calendar's `to_string`. The contract only gives the text its name.
#[verifier::external_body]
fn render(document: &CalendarDocument) -> (text: String)
    ensures
        text@ == calendar_text(
            document@.version,
            document@.product_id,
            document@.uid,
            document@.stamp,
            document@.properties,
        ),
{
    let mut calendar =
        ics::ICalendar::new(document.version.as_str(), document.product_id.as_str());
    let mut event = ics::Event::new(document.uid.as_str(), document.stamp.as_str());
    for p in document.properties.iter() {
        event.push(ics::components::Property::new(p.name.as_str(), p.value.as_str()));
    }
    calendar.add_event(event);
    calendar.to_string()
}

/// A property with this name and value.
fn property(name: &str, value: &str) -> (p: Property)
    ensures
        p@ == (name@, value@),
{
    Property { name: String::from_str(name), value: String::from_str(value) }
}

/// Builds the product identifier of the documents made for `company`.
pub fn product_id(company: &str) -> (id: String)
    ensures
        id@ == product_id_of(company@),
{
    let mut id = String::from_str("-//");
    id.append(company);
    id.append("//NONSGML PDA Calendar Version 1.0//EN");
    id
}

/// Builds the document of an event. Every document has the same properties in the
/// same order; none depends on what the event holds.
pub fn build_document(event: &EventData, company: &str) -> (document: CalendarDocument)
    ensures
        document@ == document_of(event@, company@),
{
    let mut properties: Vec<Property> = Vec::new();
    properties.push(property("ORGANIZER", event.organizer.as_str()));
    properties.push(property("DTSTART", event.start_time.as_str()));
    properties.push(property("DTEND", event.end_time.as_str()));
    properties.push(property("STATUS", "CONFIRMED"));
    properties.push(property("CATEGORIES", "Ticket"));
    properties.push(property("SUMMARY", event.summary.as_str()));
    properties.push(property("DESCRIPTION", event.description.as_str()));
    let document = CalendarDocument {
        version: String::from_str("2.0"),
        product_id: product_id(company),
        uid: event.guid.clone(),
        stamp: event.start_time.clone(),
        properties,
    };
    assert(document@.properties =~= properties_of(event@));
    document
}

impl CalendarDocument {
    /// The text of the document, as it goes into a file.
    pub fn to_text(&self) -> (text: String)
        ensures
            text@ == document_text(self@),
    {
        render(self)
    }
}

/// Builds the path of the file of an event with this summary.
pub fn output_path(output_dir: &str, summary: &str) -> (path: String)
    ensures
        path@ == path_of(output_dir@, summary@),
{
    let mut path = String::from_str(output_dir);
    let n = output_dir.unicode_len();
    if n > 0 && output_dir.get_char(n - 1) != '/' {
        path.append("/");
        proof {
            reveal_strlit("/");
            assert("/"@ =~= seq!['/']);
            assert(output_dir@ + "/"@ =~= output_dir@.push('/'));
        }
    }
    let name = sanitize_file_name(summary);
    path.append(name.as_str());
    path.append(".ics");
    proof {
        let dir = output_dir@;
        assert((dir + sanitized(summary@)) + ".ics"@ =~= dir + file_name_of(summary@));
        assert((dir.push('/') + sanitized(summary@)) + ".ics"@ =~= dir.push('/') + file_name_of(
            summary@,
        ));
    }
    path
}

/// Makes the calendar file of an event: the document for `company_name`, written
/// out, and its path under `output_dir`.
pub fn create_calendar_event(
    event_data: &EventData,
    company_name: &str,
    output_dir: &str,
) -> (file: OutputFile)
    ensures
        file@ == file_of(event_data@, company_name@, output_dir@),
{
    let document = build_document(event_data, company_name);
    let contents = document.to_text();
    let path = output_path(output_dir, event_data.summary.as_str());
    OutputFile { summary: event_data.summary.clone(), path, contents }
}

/// The name of a file holds neither `/` nor `\`, whatever the summary holds.
pub proof fn lemma_file_name_is_safe(summary: Seq<char>)
    ensures
        !file_name_of(summary).contains('/'),
        !file_name_of(summary).contains('\\'),
{
    lemma_sanitized_is_safe(summary);
    reveal_strlit(".ics");
    let stem = sanitized(summary);
    let name = file_name_of(summary);
    assert forall|i: int| 0 <= i < name.len() implies name[i] != '/' && name[i] != '\\' by {
        if i < stem.len() {
            assert(stem.contains(stem[i]));
        } else {
            assert(name[i] == ".ics"@[i - stem.len()]);
        }
    }
}

/// The document of a record's event carries the identifier it was given, the
/// organizer and the summary as they were read, the two timestamps without any
/// `-` or `:`, and the description escaped.
pub proof fn lemma_document_carries_the_record(
    record: RecordView,
    id: Seq<char>,
    company: Seq<char>,
)
    ensures
        ({
            let document = document_of(normalized(record, id), company);
            &&& document.uid == id
            &&& document.stamp == compact(record.start_time)
            &&& document.properties.len() == 7
            &&& document.properties[0] == ("ORGANIZER"@, record.organizer)
            &&& document.properties[1] == ("DTSTART"@, compact(record.start_time))
            &&& document.properties[2] == ("DTEND"@, compact(record.end_time))
            &&& document.properties[3] == ("STATUS"@, "CONFIRMED"@)
            &&& document.properties[4] == ("CATEGORIES"@, "Ticket"@)
            &&& document.properties[5] == ("SUMMARY"@, record.summary)
            &&& document.properties[6] == ("DESCRIPTION"@, escaped(record.description))
            &&& is_compact(document.stamp)
            &&& is_compact(document.properties[1].1)
            &&& is_compact(document.properties[2].1)
        }),
{
    lemma_compact_idempotent(record.start_time);
    lemma_compact_idempotent(record.end_time);
}

} // verus!
