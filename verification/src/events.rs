//! Typed audit events and their classification.
//!
//! An [`Event`] is the parsed form of one security-audit notification: a
//! numeric event identifier plus an optional list of named text fields.
//! Events are immutable once constructed and live only for one dispatch.

use vstd::prelude::*;
use vstd::string::StringExecFns;

use crate::strutil::pair_views;
use crate::strutil::str_eq;

verus! {

/// The semantic category of an audit event identifier.
#[derive(Debug, Clone, Copy, PartialEq, Eq, Structural)]
pub enum EventIdType {
    Logon,
    Logoff,
    LogoffInteractive,
    Unknown,
}

/// The fixed classification table: 4624 is a logon, 4634 a logoff,
/// 4647 an interactive logoff, anything else is unknown.
pub open spec fn spec_classify(event_id: u32) -> EventIdType {
    if event_id == 4624 {
        EventIdType::Logon
    } else if event_id == 4634 {
        EventIdType::Logoff
    } else if event_id == 4647 {
        EventIdType::LogoffInteractive
    } else {
        EventIdType::Unknown
    }
}

/// The category's display name.
pub open spec fn spec_category_name(t: EventIdType) -> Seq<char> {
    match t {
        EventIdType::Logon => "Logon"@,
        EventIdType::Logoff => "Logoff"@,
        EventIdType::LogoffInteractive => "LogoffInteractive"@,
        EventIdType::Unknown => "Unknown"@,
    }
}

impl EventIdType {
    /// The category rendered as text, as a record's `event_type` field shows it.
    pub fn name(&self) -> (s: String)
        ensures
            s@ == spec_category_name(*self),
    {
        match self {
            EventIdType::Logon => String::from_str("Logon"),
            EventIdType::Logoff => String::from_str("Logoff"),
            EventIdType::LogoffInteractive => String::from_str("LogoffInteractive"),
            EventIdType::Unknown => String::from_str("Unknown"),
        }
    }
}

/// The `System` section of an event: the numeric event identifier.
pub struct System {
    pub event_id: u32,
}

impl System {
    /// Classify this event's identifier into its semantic category.
    pub fn get_event_id_type(&self) -> (t: EventIdType)
        ensures
            t == spec_classify(self.event_id),
    {
        if self.event_id == 4624 {
            EventIdType::Logon
        } else if self.event_id == 4634 {
            EventIdType::Logoff
        } else if self.event_id == 4647 {
            EventIdType::LogoffInteractive
        } else {
            EventIdType::Unknown
        }
    }
}

/// One named text field of an event's data section.
pub struct EventDataField {
    name: String,
    value: String,
}

impl View for EventDataField {
    type V = (Seq<char>, Seq<char>);

    closed spec fn view(&self) -> (Seq<char>, Seq<char>) {
        (self.name@, self.value@)
    }
}

impl EventDataField {
    /// Build a field from its name and text value.
    pub fn new(name: String, value: String) -> (r: EventDataField)
        ensures
            r@.0 == name@,
            r@.1 == value@,
    {
        EventDataField { name, value }
    }
}

/// The value of the first entry of `data` whose name is `name`, if any.
pub open spec fn spec_lookup(data: Seq<(Seq<char>, Seq<char>)>, name: Seq<char>) -> Option<
    Seq<char>,
>
    decreases data.len(),
{
    if data.len() == 0 {
        None
    } else if data[0].0 == name {
        Some(data[0].1)
    } else {
        spec_lookup(data.drop_first(), name)
    }
}

/// If no entry among the first `i` matches, the lookup is decided by the rest.
proof fn lemma_lookup_skip(data: Seq<(Seq<char>, Seq<char>)>, name: Seq<char>, i: int)
    requires
        0 <= i <= data.len(),
        forall|j: int| 0 <= j < i ==> data[j].0 != name,
    ensures
        spec_lookup(data, name) == spec_lookup(data.skip(i), name),
    decreases i,
{
    if i > 0 {
        assert(data.drop_first() =~= data.skip(1));
        lemma_lookup_skip(data.skip(1), name, i - 1);
        assert(data.skip(1).skip(i - 1) =~= data.skip(i));
    } else {
        assert(data.skip(0) =~= data);
    }
}

/// The data section of an event: a list of named text fields.
pub struct EventData {
    pub data: Vec<EventDataField>,
}

impl EventData {
    /// The fields as a sequence of (name, value) pairs.
    pub open spec fn fields(&self) -> Seq<(Seq<char>, Seq<char>)> {
        self.data@.map_values(|f: EventDataField| f@)
    }

    /// Build a data section from (name, value) pairs, in order.
    pub fn from_pairs(pairs: Vec<(String, String)>) -> (d: EventData)
        ensures
            d.fields() == pair_views(pairs@),
    {
        let n = pairs.len();
        let mut data: Vec<EventDataField> = Vec::new();
        let mut i: usize = 0;
        while i < n
            invariant
                n == pairs@.len(),
                i <= n,
                data@.len() == i,
                forall|j: int| 0 <= j < i ==> data@[j]@ == pair_views(pairs@)[j],
            decreases n - i,
        {
            data.push(EventDataField::new(pairs[i].0.clone(), pairs[i].1.clone()));
            i = i + 1;
        }
        let d = EventData { data };
        proof {
            assert(d.fields() =~= pair_views(pairs@));
        }
        d
    }

    /// The value of the first field named `field_name`, cloned, or `None`
    /// when no field of that name exists.
    pub fn get_value(&self, field_name: &str) -> (r: Option<String>)
        ensures
            match r {
                Some(v) => spec_lookup(self.fields(), field_name@) == Some(v@),
                None => spec_lookup(self.fields(), field_name@) is None,
            },
    {
        let n = self.data.len();
        let mut i: usize = 0;
        while i < n
            invariant
                n == self.data.len(),
                i <= n,
                forall|j: int| 0 <= j < i ==> self.fields()[j].0 != field_name@,
            decreases n - i,
        {
            if str_eq(self.data[i].name.as_str(), field_name) {
                assert(self.fields()[i as int].0 == field_name@);
                proof {
                    lemma_lookup_skip(self.fields(), field_name@, i as int);
                    assert(self.fields().skip(i as int)[0] == self.fields()[i as int]);
                }
                return Some(self.data[i].value.clone());
            }
            i = i + 1;
        }
        proof {
            lemma_lookup_skip(self.fields(), field_name@, n as int);
        }
        None
    }
}

/// One parsed audit notification.
pub struct Event {
    pub system: System,
    pub event_data: Option<EventData>,
}

impl Event {
    /// The data section's fields, when the event has one.
    pub open spec fn data_fields(&self) -> Option<Seq<(Seq<char>, Seq<char>)>> {
        match self.event_data {
            Some(d) => Some(d.fields()),
            None => None,
        }
    }
}

} // verus!
