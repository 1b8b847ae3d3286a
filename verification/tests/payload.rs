//! Parsing rendered payloads, the dispatch decision, and the whitelist
//! filter applied to parsed events.

use cua::dispatch_event;
use cua::parse_event_xml;
use cua::process_logon_event;
use cua::DebounceGate;
use cua::LogonEventOutcome;

const LOGON_XML: &str = "<Event xmlns='http://schemas.microsoft.com/win/2004/08/events/event'>\
<System><Provider Name='Microsoft-Windows-Security-Auditing'/>\
<EventID>4624</EventID><Level>0</Level></System>\
<EventData>\
<Data Name='TargetUserSid'>S-1-5-21-1111-2222-3333-1001</Data>\
<Data Name='TargetUserName'>alice</Data>\
<Data Name='LogonType'>10</Data>\
</EventData></Event>";

#[test]
fn logon_payload_parses() {
    let ev = parse_event_xml(LOGON_XML).expect("payload should parse");
    assert_eq!(ev.system.event_id, 4624);
    let data = ev.event_data.as_ref().expect("payload has a data section");
    assert_eq!(
        data.get_value("TargetUserSid"),
        Some("S-1-5-21-1111-2222-3333-1001".to_string())
    );
    assert_eq!(data.get_value("TargetUserName"), Some("alice".to_string()));
    assert_eq!(data.get_value("LogonType"), Some("10".to_string()));
}

#[test]
fn end_to_end_logon_event_yields_one_logon_record() {
    let ev = parse_event_xml(LOGON_XML).expect("payload should parse");
    match process_logon_event(&ev) {
        LogonEventOutcome::Report(rec) => {
            assert_eq!(rec.event_type, "Logon");
            assert_eq!(rec.user_sid, "S-1-5-21-1111-2222-3333-1001");
            assert_eq!(rec.username, Some("alice".to_string()));
            assert_eq!(rec.logon_type, Some("10".to_string()));
        }
        other => panic!("expected a detection record, got {:?}", other),
    }
}

#[test]
fn whitelisted_sid_never_triggers_collection() {
    for sid in ["S-1-5-96-0-1", "S-1-5-90-0-2"] {
        let xml = format!(
            "<Event><System><EventID>4624</EventID></System><EventData>\
             <Data Name='TargetUserSid'>{}</Data>\
             <Data Name='LogonType'>2</Data></EventData></Event>",
            sid
        );
        let ev = parse_event_xml(&xml).expect("payload should parse");
        assert!(matches!(process_logon_event(&ev), LogonEventOutcome::Whitelisted));
    }
}

#[test]
fn event_without_data_section_is_warned_not_reported() {
    let ev = parse_event_xml("<Event><System><EventID>4647</EventID></System></Event>")
        .expect("payload should parse");
    assert!(ev.event_data.is_none());
    assert!(matches!(process_logon_event(&ev), LogonEventOutcome::NoEventData));
}

#[test]
fn event_without_target_sid_emits_nothing() {
    let ev = parse_event_xml(
        "<Event><System><EventID>4624</EventID></System>\
         <EventData><Data Name='LogonType'>2</Data></EventData></Event>",
    )
    .expect("payload should parse");
    assert!(matches!(process_logon_event(&ev), LogonEventOutcome::NoTargetSid));
}

#[test]
fn payload_without_event_id_does_not_parse() {
    assert!(parse_event_xml("<Event><System></System></Event>").is_none());
}

#[test]
fn payload_with_non_numeric_id_does_not_parse() {
    assert!(parse_event_xml("<Event><EventID>abc</EventID></Event>").is_none());
    assert!(parse_event_xml("<Event><EventID></EventID></Event>").is_none());
    assert!(parse_event_xml("<Event><EventID>99999999999</EventID></Event>").is_none());
}

#[test]
fn malformed_data_section_does_not_parse() {
    assert!(parse_event_xml(
        "<Event><EventID>4624</EventID><EventData><Data Name='X'>v</Data>"
    )
    .is_none());
    assert!(parse_event_xml(
        "<Event><EventID>4624</EventID><EventData><Broken/></EventData></Event>"
    )
    .is_none());
}

#[test]
fn self_closing_data_element_carries_empty_value() {
    let ev = parse_event_xml(
        "<Event><EventID>4634</EventID>\
         <EventData><Data Name='TargetUserSid'/></EventData></Event>",
    )
    .expect("payload should parse");
    let data = ev.event_data.as_ref().unwrap();
    assert_eq!(data.get_value("TargetUserSid"), Some(String::new()));
}

#[test]
fn data_section_accepts_whitespace_and_double_quotes() {
    let ev = parse_event_xml(
        "<Event><EventID>4624</EventID><EventData>\n  \
         <Data Name=\"TargetUserName\">bob</Data>\n</EventData></Event>",
    )
    .expect("payload should parse");
    let data = ev.event_data.as_ref().unwrap();
    assert_eq!(data.get_value("TargetUserName"), Some("bob".to_string()));
}

#[test]
fn dispatch_applies_debounce_after_parse() {
    let mut gate = DebounceGate::new(Some(100));
    assert!(dispatch_event(&mut gate, LOGON_XML, 1_000).is_some());
    assert!(dispatch_event(&mut gate, LOGON_XML, 1_050).is_none());
    assert!(dispatch_event(&mut gate, LOGON_XML, 1_100).is_some());
}

#[test]
fn unparseable_payload_never_reaches_the_gate() {
    let mut gate = DebounceGate::new(Some(100));
    assert!(dispatch_event(&mut gate, "not xml", 1_000).is_none());
    // The debounce state was not touched, so the next payload still fires.
    assert!(dispatch_event(&mut gate, LOGON_XML, 1_001).is_some());
}
