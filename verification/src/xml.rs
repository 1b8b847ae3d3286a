//! Parsing a rendered event payload into a typed [`Event`], and the
//! dispatch decision made on each native notification.
//!
//! A rendered payload is XML text. This parser accepts exactly the shape the
//! audit channel renders: the event identifier is the text between the first
//! `<EventID>` tag and the next `<`, and the data section, when a
//! `<EventData>` tag is present, is a whitespace-separated list of
//! `<Data Name='n'>value</Data>` elements (either quote character; a
//! self-closing `<Data Name='n'/>` carries the empty value), closed by
//! `</EventData>`. Text is taken verbatim: no entity decoding. Anything else
//! fails the parse, and a payload that fails to parse is dropped — it never
//! reaches the debounce gate or the callback.

use vstd::prelude::*;

use crate::debounce::DebounceGate;
use crate::debounce::spec_observe;
use crate::events::Event;
use crate::events::EventData;
use crate::events::System;
use crate::search::find_chars_from;
use crate::search::match_at_chars;
use crate::search::spec_find;
use crate::search::spec_match_at;
use crate::search::lemma_find_is_match;
use crate::sid::parse_u32_chars;
use crate::sid::spec_parse_u32;
use crate::strutil::chars_to_string;
use crate::strutil::pair_views;
use crate::strutil::str_to_chars;

verus! {

/// The abstract value a payload parses to.
pub struct ParsedEventV {
    pub event_id: u32,
    pub event_data: Option<Seq<(Seq<char>, Seq<char>)>>,
}

/// `<EventID>`
pub open spec fn spec_event_id_tag() -> Seq<char> {
    seq!['<', 'E', 'v', 'e', 'n', 't', 'I', 'D', '>']
}

/// `<EventData>`
pub open spec fn spec_event_data_tag() -> Seq<char> {
    seq!['<', 'E', 'v', 'e', 'n', 't', 'D', 'a', 't', 'a', '>']
}

/// `</EventData>`
pub open spec fn spec_end_data_tag() -> Seq<char> {
    seq!['<', '/', 'E', 'v', 'e', 'n', 't', 'D', 'a', 't', 'a', '>']
}

/// `<Data Name=`
pub open spec fn spec_data_open_tag() -> Seq<char> {
    seq!['<', 'D', 'a', 't', 'a', ' ', 'N', 'a', 'm', 'e', '=']
}

/// `/>`
pub open spec fn spec_self_close_tag() -> Seq<char> {
    seq!['/', '>']
}

/// `</Data>`
pub open spec fn spec_data_close_tag() -> Seq<char> {
    seq!['<', '/', 'D', 'a', 't', 'a', '>']
}

/// Whitespace between elements of the data section.
pub open spec fn spec_is_ws(c: char) -> bool {
    c == ' ' || c == '\t' || c == '\r' || c == '\n'
}

/// The first position at or after `p` holding `c`, or the end of `s`.
pub open spec fn spec_until_char(s: Seq<char>, p: int, c: char) -> int
    decreases s.len() - p,
    when 0 <= p
{
    if p >= s.len() {
        s.len() as int
    } else if s[p] == c {
        p
    } else {
        spec_until_char(s, p + 1, c)
    }
}

pub proof fn lemma_until_char_bounds(s: Seq<char>, p: int, c: char)
    requires
        0 <= p <= s.len(),
    ensures
        p <= spec_until_char(s, p, c) <= s.len(),
    decreases s.len() - p,
{
    if p < s.len() && s[p] != c {
        lemma_until_char_bounds(s, p + 1, c);
    }
}

/// The (name, value) pairs of the data section read from position `p`, up
/// to its closing tag; `None` when the section is not of the accepted shape.
pub open spec fn spec_parse_data_items(s: Seq<char>, p: int) -> Option<
    Seq<(Seq<char>, Seq<char>)>,
>
    decreases s.len() - p,
    when 0 <= p
{
    if p >= s.len() {
        None
    } else if spec_is_ws(s[p]) {
        spec_parse_data_items(s, p + 1)
    } else if spec_match_at(s, spec_end_data_tag(), p) {
        Some(Seq::empty())
    } else if spec_match_at(s, spec_data_open_tag(), p) {
        let qq = p + 11;
        if qq < s.len() && (s[qq] == '\'' || s[qq] == '"') {
            let quote = s[qq];
            match spec_find(s, seq![quote], qq + 1) {
                None => None,
                Some(ne) => {
                    proof {
                        lemma_find_is_match(s, seq![quote], qq + 1, ne);
                    }
                    let name = s.subrange(qq + 1, ne);
                    if spec_match_at(s, spec_self_close_tag(), ne + 1) {
                        match spec_parse_data_items(s, ne + 3) {
                            None => None,
                            Some(rest) => Some(seq![(name, Seq::<char>::empty())] + rest),
                        }
                    } else if ne + 1 < s.len() && s[ne + 1] == '>' {
                        let vend = spec_until_char(s, ne + 2, '<');
                        proof {
                            lemma_until_char_bounds(s, ne + 2, '<');
                        }
                        if spec_match_at(s, spec_data_close_tag(), vend) {
                            let value = s.subrange(ne + 2, vend);
                            match spec_parse_data_items(s, vend + 7) {
                                None => None,
                                Some(rest) => Some(seq![(name, value)] + rest),
                            }
                        } else {
                            None
                        }
                    } else {
                        None
                    }
                },
            }
        } else {
            None
        }
    } else {
        None
    }
}

/// What a payload parses to: the number after the first `<EventID>` tag, and
/// the data section when a `<EventData>` tag is present. A payload without
/// the identifier tag, with a non-numeric or oversized identifier, or with a
/// malformed data section does not parse.
pub open spec fn spec_parse_event(s: Seq<char>) -> Option<ParsedEventV> {
    match spec_find(s, spec_event_id_tag(), 0) {
        None => None,
        Some(i) => {
            let dstart = i + 9;
            let dend = spec_until_char(s, dstart, '<');
            match spec_parse_u32(s.subrange(dstart, dend)) {
                None => None,
                Some(id) => match spec_find(s, spec_event_data_tag(), 0) {
                    None => Some(ParsedEventV { event_id: id, event_data: None }),
                    Some(d) => match spec_parse_data_items(s, d + 11) {
                        None => None,
                        Some(items) => Some(
                            ParsedEventV { event_id: id, event_data: Some(items) },
                        ),
                    },
                },
            }
        },
    }
}

fn tag_event_id() -> (v: Vec<char>)
    ensures
        v@ == spec_event_id_tag(),
{
    let mut v: Vec<char> = Vec::new();
    v.push('<');
    v.push('E');
    v.push('v');
    v.push('e');
    v.push('n');
    v.push('t');
    v.push('I');
    v.push('D');
    v.push('>');
    proof {
        assert(v@ =~= spec_event_id_tag());
    }
    v
}

fn tag_event_data() -> (v: Vec<char>)
    ensures
        v@ == spec_event_data_tag(),
{
    let mut v: Vec<char> = Vec::new();
    v.push('<');
    v.push('E');
    v.push('v');
    v.push('e');
    v.push('n');
    v.push('t');
    v.push('D');
    v.push('a');
    v.push('t');
    v.push('a');
    v.push('>');
    proof {
        assert(v@ =~= spec_event_data_tag());
    }
    v
}

fn tag_end_data() -> (v: Vec<char>)
    ensures
        v@ == spec_end_data_tag(),
{
    let mut v: Vec<char> = Vec::new();
    v.push('<');
    v.push('/');
    v.push('E');
    v.push('v');
    v.push('e');
    v.push('n');
    v.push('t');
    v.push('D');
    v.push('a');
    v.push('t');
    v.push('a');
    v.push('>');
    proof {
        assert(v@ =~= spec_end_data_tag());
    }
    v
}

fn tag_data_open() -> (v: Vec<char>)
    ensures
        v@ == spec_data_open_tag(),
{
    let mut v: Vec<char> = Vec::new();
    v.push('<');
    v.push('D');
    v.push('a');
    v.push('t');
    v.push('a');
    v.push(' ');
    v.push('N');
    v.push('a');
    v.push('m');
    v.push('e');
    v.push('=');
    proof {
        assert(v@ =~= spec_data_open_tag());
    }
    v
}

fn tag_self_close() -> (v: Vec<char>)
    ensures
        v@ == spec_self_close_tag(),
{
    let mut v: Vec<char> = Vec::new();
    v.push('/');
    v.push('>');
    proof {
        assert(v@ =~= spec_self_close_tag());
    }
    v
}

fn tag_data_close() -> (v: Vec<char>)
    ensures
        v@ == spec_data_close_tag(),
{
    let mut v: Vec<char> = Vec::new();
    v.push('<');
    v.push('/');
    v.push('D');
    v.push('a');
    v.push('t');
    v.push('a');
    v.push('>');
    proof {
        assert(v@ =~= spec_data_close_tag());
    }
    v
}

/// Compare `pat` against `s` at position `i`, any position.
fn match_prefix_at(s: &Vec<char>, pat: &Vec<char>, i: usize) -> (r: bool)
    ensures
        r == spec_match_at(s@, pat@, i as int),
{
    if i > s.len() || s.len() - i < pat.len() {
        false
    } else {
        match_at_chars(s, pat, i)
    }
}

/// The first position at or after `from` holding `c`, or the end of `s`.
fn until_char(s: &Vec<char>, from: usize, c: char) -> (r: usize)
    requires
        from <= s@.len(),
    ensures
        r == spec_until_char(s@, from as int, c),
        from <= r <= s@.len(),
{
    let n = s.len();
    let mut p: usize = from;
    while p < n
        invariant
            n == s@.len(),
            from <= p <= n,
            spec_until_char(s@, from as int, c) == spec_until_char(s@, p as int, c),
        decreases n - p,
    {
        if s[p] == c {
            return p;
        }
        p = p + 1;
    }
    p
}

/// The characters of `s` from `a` to `b`.
fn chars_range(s: &Vec<char>, a: usize, b: usize) -> (r: Vec<char>)
    requires
        a <= b <= s@.len(),
    ensures
        r@ == s@.subrange(a as int, b as int),
{
    let mut r: Vec<char> = Vec::new();
    let mut i: usize = a;
    while i < b
        invariant
            a <= i <= b <= s@.len(),
            r@ =~= s@.subrange(a as int, i as int),
        decreases b - i,
    {
        r.push(s[i]);
        i = i + 1;
    }
    proof {
        assert(r@ =~= s@.subrange(a as int, b as int));
    }
    r
}

/// The text of `s` from `a` to `b`, as a string.
fn string_of_range(s: &Vec<char>, a: usize, b: usize) -> (r: String)
    requires
        a <= b <= s@.len(),
    ensures
        r@ == s@.subrange(a as int, b as int),
{
    let part = chars_range(s, a, b);
    chars_to_string(&part)
}

/// Parse the data section of the payload from position `start`.
fn parse_data_items(s: &Vec<char>, start: usize) -> (r: Option<Vec<(String, String)>>)
    requires
        start <= s@.len(),
    ensures
        match r {
            Some(items) => spec_parse_data_items(s@, start as int) == Some(pair_views(items@)),
            None => spec_parse_data_items(s@, start as int) is None,
        },
{
    let end_tag = tag_end_data();
    let open_tag = tag_data_open();
    let self_close = tag_self_close();
    let close_tag = tag_data_close();
    let n = s.len();
    let mut items: Vec<(String, String)> = Vec::new();
    let mut p: usize = start;
    loop
        invariant
            n == s@.len(),
            p <= n,
            end_tag@ == spec_end_data_tag(),
            open_tag@ == spec_data_open_tag(),
            self_close@ == spec_self_close_tag(),
            close_tag@ == spec_data_close_tag(),
            spec_parse_data_items(s@, start as int) == (match spec_parse_data_items(
                s@,
                p as int,
            ) {
                Some(rest) => Some(pair_views(items@) + rest),
                None => None::<Seq<(Seq<char>, Seq<char>)>>,
            }),
        decreases n - p,
    {
        if p >= n {
            return None;
        }
        let c = s[p];
        if c == ' ' || c == '\t' || c == '\r' || c == '\n' {
            p = p + 1;
        } else if match_prefix_at(s, &end_tag, p) {
            proof {
                assert(pair_views(items@) + Seq::<(Seq<char>, Seq<char>)>::empty() =~~= pair_views(
                    items@,
                ));
            }
            return Some(items);
        } else if match_prefix_at(s, &open_tag, p) {
            let qq = p + 11;
            if qq >= n {
                return None;
            }
            let quote = s[qq];
            if !(quote == '\'' || quote == '"') {
                return None;
            }
            let mut quote_pat: Vec<char> = Vec::new();
            quote_pat.push(quote);
            proof {
                assert(quote_pat@ =~= seq![quote]);
            }
            match find_chars_from(s, &quote_pat, qq + 1) {
                None => {
                    return None;
                },
                Some(ne) => {
                    let ghost prev_items = items@;
                    let name = string_of_range(s, qq + 1, ne);
                    if match_prefix_at(s, &self_close, ne + 1) {
                        items.push((name, String::new()));
                        proof {
                            let pair = (s@.subrange(qq + 1, ne as int), Seq::<char>::empty());
                            assert(pair_views(items@) =~~= pair_views(prev_items).push(pair));
                            assert(spec_parse_data_items(s@, p as int) == (match
                                spec_parse_data_items(s@, ne + 3) {
                                Some(rest) => Some(seq![pair] + rest),
                                None => None::<Seq<(Seq<char>, Seq<char>)>>,
                            }));
                            if spec_parse_data_items(s@, ne + 3) is Some {
                                let rest = spec_parse_data_items(s@, ne + 3)->Some_0;
                                assert(pair_views(prev_items) + (seq![pair] + rest) =~~=
                                    pair_views(items@) + rest);
                            }
                        }
                        p = ne + 3;
                    } else if ne + 1 < n {
                        let c2 = s[ne + 1];
                        if c2 != '>' {
                            return None;
                        }
                        let vstart = ne + 2;
                        let vend = until_char(s, vstart, '<');
                        if !match_prefix_at(s, &close_tag, vend) {
                            return None;
                        }
                        let value = string_of_range(s, vstart, vend);
                        items.push((name, value));
                        proof {
                            let pair = (
                                s@.subrange(qq + 1, ne as int),
                                s@.subrange(ne + 2, vend as int),
                            );
                            assert(pair_views(items@) =~~= pair_views(prev_items).push(pair));
                            assert(spec_parse_data_items(s@, p as int) == (match
                                spec_parse_data_items(s@, vend + 7) {
                                Some(rest) => Some(seq![pair] + rest),
                                None => None::<Seq<(Seq<char>, Seq<char>)>>,
                            }));
                            if spec_parse_data_items(s@, vend + 7) is Some {
                                let rest = spec_parse_data_items(s@, vend + 7)->Some_0;
                                assert(pair_views(prev_items) + (seq![pair] + rest) =~~=
                                    pair_views(items@) + rest);
                            }
                        }
                        p = vend + 7;
                    } else {
                        return None;
                    }
                },
            }
        } else {
            return None;
        }
    }
}

/// Parse a rendered payload into a typed event.
pub fn parse_event_xml(xml: &str) -> (r: Option<Event>)
    ensures
        match r {
            Some(ev) => spec_parse_event(xml@) matches Some(pv) && ev.system.event_id
                == pv.event_id && ev.data_fields() == pv.event_data,
            None => spec_parse_event(xml@) is None,
        },
{
    let chars = str_to_chars(xml);
    let total = chars.len();
    let id_tag = tag_event_id();
    match find_chars_from(&chars, &id_tag, 0) {
        None => None,
        Some(i) => {
            proof {
                assert(i + 9 <= total);
            }
            let dstart = i + 9;
            let dend = until_char(&chars, dstart, '<');
            let digits = chars_range(&chars, dstart, dend);
            match parse_u32_chars(&digits) {
                None => None,
                Some(id) => {
                    let data_tag = tag_event_data();
                    match find_chars_from(&chars, &data_tag, 0) {
                        None => Some(Event { system: System { event_id: id }, event_data: None }),
                        Some(d) => {
                            match parse_data_items(&chars, d + 11) {
                                None => None,
                                Some(pairs) => {
                                    let data = EventData::from_pairs(pairs);
                                    Some(
                                        Event {
                                            system: System { event_id: id },
                                            event_data: Some(data),
                                        },
                                    )
                                },
                            }
                        },
                    }
                },
            }
        },
    }
}

/// Handle one native notification, already rendered to text: parse it, then
/// ask the debounce state. The event is handed on exactly when the payload
/// parses and the observation at `now` fires; a payload that does not parse
/// is dropped without touching the debounce state, and a suppressed event is
/// dropped, never buffered.
pub fn dispatch_event(gate: &mut DebounceGate, xml: &str, now: u64) -> (r: Option<Event>)
    ensures
        final(gate).spec_window() == old(gate).spec_window(),
        spec_parse_event(xml@) is None ==> r is None && final(gate).spec_last_call() == old(
            gate,
        ).spec_last_call(),
        spec_parse_event(xml@) matches Some(pv) ==> {
            let ob = spec_observe(old(gate).spec_window(), old(gate).spec_last_call(), now);
            &&& final(gate).spec_last_call() == ob.1
            &&& (ob.0 ==> (r matches Some(ev) && ev.system.event_id == pv.event_id
                && ev.data_fields() == pv.event_data))
            &&& (!ob.0 ==> r is None)
        },
{
    match parse_event_xml(xml) {
        None => None,
        Some(ev) => {
            if gate.observe(now) {
                Some(ev)
            } else {
                None
            }
        },
    }
}

} // verus!
