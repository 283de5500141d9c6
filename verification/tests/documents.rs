use csv2ics::document::{
    build_document, create_calendar_event, output_path, product_id, CalendarDocument, Property,
};
use csv2ics::event::EventData;
use csv2ics::pipeline::{convert, normalize_all, plan_files, process_csv};
use csv2ics::record::{CsvEventData, MalformedInput};
use ics::properties::{Categories, Description, DtEnd, DtStart, Organizer, Status, Summary};
use ics::{Event, ICalendar};

const TABLE: &str = "organizer,start_time,end_time,summary,description\nmailto:a@b.com,2024-01-01T09:00:00,2024-01-01T10:00:00,Standup,Daily sync\n";

fn standup() -> EventData {
    EventData {
        guid: "0d6c1f3a-5b7e-4c1d-9a2f-3e4b5c6d7e8f".to_string(),
        organizer: "mailto:a@b.com".to_string(),
        start_time: "20240101T090000".to_string(),
        end_time: "20240101T100000".to_string(),
        summary: "Standup".to_string(),
        description: "Daily sync".to_string(),
    }
}

fn property(name: &str, value: &str) -> Property {
    Property { name: name.to_string(), value: value.to_string() }
}

#[test]
fn product_id_embeds_the_company() {
    assert_eq!(product_id("CSV2ICS"), "-//CSV2ICS//NONSGML PDA Calendar Version 1.0//EN");
    assert_eq!(product_id(""), "-////NONSGML PDA Calendar Version 1.0//EN");
}

#[test]
fn build_document_has_the_fixed_properties_in_order() {
    let document = build_document(&standup(), "Acme");
    assert_eq!(
        document,
        CalendarDocument {
            version: "2.0".to_string(),
            product_id: "-//Acme//NONSGML PDA Calendar Version 1.0//EN".to_string(),
            uid: "0d6c1f3a-5b7e-4c1d-9a2f-3e4b5c6d7e8f".to_string(),
            stamp: "20240101T090000".to_string(),
            properties: vec![
                property("ORGANIZER", "mailto:a@b.com"),
                property("DTSTART", "20240101T090000"),
                property("DTEND", "20240101T100000"),
                property("STATUS", "CONFIRMED"),
                property("CATEGORIES", "Ticket"),
                property("SUMMARY", "Standup"),
                property("DESCRIPTION", "Daily sync"),
            ],
        }
    );
}

#[test]
fn document_text_is_one_calendar_with_one_event() {
    let text = build_document(&standup(), "CSV2ICS").to_text();
    let expected = "BEGIN:VCALENDAR\r\n\
VERSION:2.0\r\n\
PRODID:-//CSV2ICS//NONSGML PDA Calendar Version 1.0//EN\r\n\
BEGIN:VEVENT\r\n\
UID:0d6c1f3a-5b7e-4c1d-9a2f-3e4b5c6d7e8f\r\n\
DTSTAMP:20240101T090000\r\n\
ORGANIZER:mailto:a@b.com\r\n\
DTSTART:20240101T090000\r\n\
DTEND:20240101T100000\r\n\
STATUS:CONFIRMED\r\n\
CATEGORIES:Ticket\r\n\
SUMMARY:Standup\r\n\
DESCRIPTION:Daily sync\r\n\
END:VEVENT\r\n\
END:VCALENDAR\r\n";
    assert_eq!(text, expected);
}

#[test]
fn document_text_matches_the_typed_properties() {
    let e = standup();
    let mut calendar = ICalendar::new("2.0", "-//Acme//NONSGML PDA Calendar Version 1.0//EN");
    let mut event = Event::new(e.guid.clone(), e.start_time.clone());
    event.push(Organizer::new(e.organizer.clone()));
    event.push(DtStart::new(e.start_time.clone()));
    event.push(DtEnd::new(e.end_time.clone()));
    event.push(Status::confirmed());
    event.push(Categories::new("Ticket"));
    event.push(Summary::new(e.summary.clone()));
    event.push(Description::new(e.description.clone()));
    calendar.add_event(event);
    assert_eq!(build_document(&e, "Acme").to_text(), calendar.to_string());
}

#[test]
fn document_text_folds_long_lines() {
    let mut e = standup();
    e.description = "The quick brown fox jumps over the lazy dog. The quick brown fox jumps over the lazy cog.".to_string();
    let text = build_document(&e, "CSV2ICS").to_text();
    assert!(text.contains(
        "DESCRIPTION:The quick brown fox jumps over the lazy dog. The quick brown fo\r\n x jumps over the lazy cog.\r\n"
    ));
}

#[test]
fn output_path_joins_directory_and_name() {
    assert_eq!(output_path("./events/", "Standup"), "./events/Standup.ics");
    assert_eq!(output_path("./events", "Standup"), "./events/Standup.ics");
    assert_eq!(output_path("", "Standup"), "Standup.ics");
    assert_eq!(output_path("/", "Standup"), "/Standup.ics");
}

#[test]
fn output_path_strips_slashes_from_the_summary() {
    assert_eq!(output_path("out/", "a/b\\c"), "out/abc.ics");
    assert_eq!(output_path("out/", "../../x"), "out/....x.ics");
    assert_eq!(output_path("out/", ""), "out/.ics");
    let path = output_path("", "1/2 day \\ off");
    assert!(!path.contains('/'));
    assert!(!path.contains('\\'));
}

#[test]
fn create_calendar_event_gives_path_and_text() {
    let e = standup();
    let file = create_calendar_event(&e, "CSV2ICS", "./events/");
    assert_eq!(file.summary, "Standup");
    assert_eq!(file.path, "./events/Standup.ics");
    assert_eq!(file.contents, build_document(&e, "CSV2ICS").to_text());
}

#[test]
fn process_csv_normalizes_each_row() {
    let events = process_csv(TABLE.as_bytes()).unwrap();
    assert_eq!(events.len(), 1);
    assert_eq!(events[0].organizer, "mailto:a@b.com");
    assert_eq!(events[0].start_time, "20240101T090000");
    assert_eq!(events[0].end_time, "20240101T100000");
    assert_eq!(events[0].summary, "Standup");
    assert_eq!(events[0].description, "Daily sync");
    assert_eq!(events[0].guid.len(), 36);
}

#[test]
fn process_csv_gives_every_row_its_own_identifier() {
    let text = "organizer,start_time,end_time,summary,description\no,s,e,One,d\no,s,e,Two,d\no,s,e,Three,d\n";
    let events = process_csv(text.as_bytes()).unwrap();
    assert_eq!(events.len(), 3);
    assert_ne!(events[0].guid, events[1].guid);
    assert_ne!(events[0].guid, events[2].guid);
    assert_ne!(events[1].guid, events[2].guid);
}

#[test]
fn normalize_all_keeps_order() {
    let records: Vec<CsvEventData> = ["One", "Two"]
        .iter()
        .map(|s| CsvEventData {
            organizer: "o".to_string(),
            start_time: "2024-01-01".to_string(),
            end_time: "10:00".to_string(),
            summary: s.to_string(),
            description: "a;b".to_string(),
        })
        .collect();
    let events = normalize_all(&records);
    assert_eq!(events.len(), 2);
    assert_eq!(events[0].summary, "One");
    assert_eq!(events[1].summary, "Two");
    assert_eq!(events[1].start_time, "20240101");
    assert_eq!(events[1].end_time, "1000");
    assert_eq!(events[1].description, "a\\;b");
}

#[test]
fn plan_files_makes_one_file_for_each_event() {
    let mut second = standup();
    second.summary = "Retro/Demo".to_string();
    let events = vec![standup(), second];
    let files = plan_files(&events, "Acme", "out");
    assert_eq!(files.len(), 2);
    assert_eq!(files[0], create_calendar_event(&events[0], "Acme", "out"));
    assert_eq!(files[1], create_calendar_event(&events[1], "Acme", "out"));
    assert_eq!(files[1].path, "out/RetroDemo.ics");
    assert_eq!(files[1].summary, "Retro/Demo");
}

#[test]
fn convert_standup_scenario() {
    let files = convert(TABLE.as_bytes(), "CSV2ICS", "./events/").unwrap();
    assert_eq!(files.len(), 1);
    assert_eq!(files[0].path, "./events/Standup.ics");
    let text = &files[0].contents;
    assert!(text.contains("\r\nDTSTART:20240101T090000\r\n"));
    assert!(text.contains("\r\nDTEND:20240101T100000\r\n"));
    assert!(text.contains("\r\nORGANIZER:mailto:a@b.com\r\n"));
    assert!(text.contains("\r\nCATEGORIES:Ticket\r\n"));
    assert!(text.contains("\r\nSTATUS:CONFIRMED\r\n"));
    assert!(text.contains("\r\nSUMMARY:Standup\r\n"));
    assert!(text.contains("\r\nDESCRIPTION:Daily sync\r\n"));
    assert!(text.contains("\r\nUID:"));
    assert!(text.contains("\r\nPRODID:-//CSV2ICS//NONSGML PDA Calendar Version 1.0//EN\r\n"));
    assert_eq!(text.matches("BEGIN:VEVENT").count(), 1);
}

#[test]
fn convert_makes_one_file_for_each_row_in_order() {
    let text = "organizer,start_time,end_time,summary,description\no,s,e,One,d\no,s,e,Two,d\no,s,e,Three,d\n";
    let files = convert(text.as_bytes(), "CSV2ICS", "out/").unwrap();
    let paths: Vec<&str> = files.iter().map(|f| f.path.as_str()).collect();
    assert_eq!(paths, vec!["out/One.ics", "out/Two.ics", "out/Three.ics"]);
}

#[test]
fn convert_escapes_the_description_in_the_file() {
    let text = "organizer,start_time,end_time,summary,description\no,s,e,One,\"Room 101, Admin; east\"\n";
    let files = convert(text.as_bytes(), "CSV2ICS", "out/").unwrap();
    assert!(files[0].contents.contains("\r\nDESCRIPTION:Room 101\\, Admin\\; east\r\n"));
}

#[test]
fn convert_of_a_header_alone_makes_no_file() {
    let files =
        convert(b"organizer,start_time,end_time,summary,description\n", "CSV2ICS", "out/");
    assert_eq!(files, Ok(Vec::new()));
    assert_eq!(convert(b"", "CSV2ICS", "out/"), Ok(Vec::new()));
}

#[test]
fn convert_without_a_description_column_fails() {
    let text = "organizer,start_time,end_time,summary\nmailto:a@b.com,2024-01-01T09:00:00,2024-01-01T10:00:00,Standup\n";
    assert_eq!(
        convert(text.as_bytes(), "CSV2ICS", "out/"),
        Err(MalformedInput { record: 1 })
    );
    assert_eq!(process_csv(text.as_bytes()), Err(MalformedInput { record: 1 }));
}

#[test]
fn convert_with_a_bad_row_makes_no_file_at_all() {
    let text = "organizer,start_time,end_time,summary,description\no,s,e,One,d\no,s,e,Two\no,s,e,Three,d\n";
    assert_eq!(
        convert(text.as_bytes(), "CSV2ICS", "out/"),
        Err(MalformedInput { record: 2 })
    );
}
