//! Event classification and field lookup.

use cua::Event;
use cua::EventData;
use cua::EventDataField;
use cua::EventIdType;
use cua::System;

fn event_with_fields(event_id: u32, fields: Vec<(&str, &str)>) -> Event {
    let data = fields
        .into_iter()
        .map(|(n, v)| EventDataField::new(n.to_string(), v.to_string()))
        .collect();
    Event {
        system: System { event_id },
        event_data: Some(EventData { data }),
    }
}

#[test]
fn logon_id_classifies_as_logon() {
    assert_eq!(System { event_id: 4624 }.get_event_id_type(), EventIdType::Logon);
}

#[test]
fn logoff_id_classifies_as_logoff() {
    assert_eq!(System { event_id: 4634 }.get_event_id_type(), EventIdType::Logoff);
}

#[test]
fn interactive_logoff_id_classifies_as_logoff_interactive() {
    assert_eq!(
        System { event_id: 4647 }.get_event_id_type(),
        EventIdType::LogoffInteractive
    );
}

#[test]
fn other_ids_classify_as_unknown() {
    for id in [0u32, 1, 4625, 4648, 9999, u32::MAX] {
        assert_eq!(System { event_id: id }.get_event_id_type(), EventIdType::Unknown);
    }
}

#[test]
fn category_names_render_as_text() {
    assert_eq!(EventIdType::Logon.name(), "Logon");
    assert_eq!(EventIdType::Logoff.name(), "Logoff");
    assert_eq!(EventIdType::LogoffInteractive.name(), "LogoffInteractive");
    assert_eq!(EventIdType::Unknown.name(), "Unknown");
}

#[test]
fn get_value_returns_first_match() {
    let ev = event_with_fields(
        4624,
        vec![("LogonType", "2"), ("TargetUserName", "alice"), ("LogonType", "10")],
    );
    let data = ev.event_data.as_ref().unwrap();
    assert_eq!(data.get_value("LogonType"), Some("2".to_string()));
    assert_eq!(data.get_value("TargetUserName"), Some("alice".to_string()));
}

#[test]
fn get_value_missing_field_is_none() {
    let ev = event_with_fields(4624, vec![("TargetUserName", "alice")]);
    let data = ev.event_data.as_ref().unwrap();
    assert_eq!(data.get_value("TargetUserSid"), None);
}
