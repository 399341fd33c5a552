use vstd::prelude::*;
use crate::json::{Json, json_text_value, parse_json};
use crate::text::{trimmed, trim_text, strip_prefix_text, same_text};

verus! {

/// The token standard an event belongs to: fungible (nep141) or
/// non-fungible (nep171).
#[derive(PartialEq, Eq, Structural, Clone, Copy, Debug)]
pub enum EventStandard {
    Nep141,
    Nep171,
}

#[derive(PartialEq, Eq, Structural, Clone, Copy, Debug)]
pub enum EventKind {
    Mint,
    Transfer,
    Burn,
}

/// One entry of an event's `data` list. A field that the entry's shape does
/// not have is left empty.
#[derive(Clone, Debug)]
pub struct EventData {
    pub owner_id: String,
    pub old_owner_id: String,
    pub new_owner_id: String,
    pub amount: String,
    pub token_ids: Vec<String>,
    pub memo: Option<String>,
    pub authorized_id: Option<String>,
}

/// A standard token event, as carried by an `EVENT_JSON:` log line.
#[derive(Clone, Debug)]
pub struct StandardEvent {
    pub standard: EventStandard,
    pub version: String,
    pub kind: EventKind,
    pub data: Vec<EventData>,
}

pub struct RecordModel {
    pub owner_id: Seq<char>,
    pub old_owner_id: Seq<char>,
    pub new_owner_id: Seq<char>,
    pub amount: Seq<char>,
    pub token_ids: Seq<Seq<char>>,
    pub memo: Option<Seq<char>>,
    pub authorized_id: Option<Seq<char>>,
}

pub struct EventModel {
    pub standard: EventStandard,
    pub version: Seq<char>,
    pub kind: EventKind,
    pub data: Seq<RecordModel>,
}

pub open spec fn opt_view(o: Option<String>) -> Option<Seq<char>> {
    match o {
        Some(s) => Some(s@),
        None => None,
    }
}

pub open spec fn texts_view(v: Seq<String>) -> Seq<Seq<char>> {
    v.map_values(|s: String| s@)
}

impl View for EventData {
    type V = RecordModel;

    open spec fn view(&self) -> RecordModel {
        RecordModel {
            owner_id: self.owner_id@,
            old_owner_id: self.old_owner_id@,
            new_owner_id: self.new_owner_id@,
            amount: self.amount@,
            token_ids: texts_view(self.token_ids@),
            memo: opt_view(self.memo),
            authorized_id: opt_view(self.authorized_id),
        }
    }
}

impl View for StandardEvent {
    type V = EventModel;

    open spec fn view(&self) -> EventModel {
        EventModel {
            standard: self.standard,
            version: self.version@,
            kind: self.kind,
            data: self.data@.map_values(|d: EventData| d@),
        }
    }
}

// Which fields each (standard, kind) shape has.
pub open spec fn has_owner(k: EventKind) -> bool {
    k != EventKind::Transfer
}

pub open spec fn has_old_and_new_owner(k: EventKind) -> bool {
    k == EventKind::Transfer
}

pub open spec fn has_amount(s: EventStandard) -> bool {
    s == EventStandard::Nep141
}

pub open spec fn has_token_ids(s: EventStandard) -> bool {
    s == EventStandard::Nep171
}

pub open spec fn has_authorized_id(s: EventStandard, k: EventKind) -> bool {
    s == EventStandard::Nep171 && k != EventKind::Mint
}

/// A required text member: present and a string, where the shape has it.
pub open spec fn req_text(j: Json, key: Seq<char>, needed: bool) -> Option<Seq<char>> {
    if !needed {
        Some(Seq::empty())
    } else {
        match j.field(key) {
            Some(Json::Str(s)) => Some(s@),
            _ => None,
        }
    }
}

/// An optional text member: absent or null gives none, a string gives it,
/// anything else is malformed.
pub open spec fn opt_text(j: Json, key: Seq<char>, allowed: bool) -> Option<Option<Seq<char>>> {
    if !allowed {
        Some(None)
    } else {
        match j.field(key) {
            None => Some(None),
            Some(Json::Null) => Some(None),
            Some(Json::Str(s)) => Some(Some(s@)),
            _ => None,
        }
    }
}

pub open spec fn all_texts(items: Seq<Json>) -> bool {
    forall|i: int| 0 <= i < items.len() ==> (#[trigger] items[i]) is Str
}

/// A required list of texts: an array whose items are all strings.
pub open spec fn req_texts(j: Json, key: Seq<char>, needed: bool) -> Option<Seq<Seq<char>>> {
    if !needed {
        Some(Seq::empty())
    } else {
        match j.field(key) {
            Some(Json::Array(items)) => if all_texts(items@) {
                Some(items@.map_values(|x: Json| x.text().unwrap()))
            } else {
                None
            },
            _ => None,
        }
    }
}

/// The data entry that `j` encodes under the shape of (`s`, `k`).
pub open spec fn record_of(s: EventStandard, k: EventKind, j: Json) -> Option<RecordModel> {
    let owner = req_text(j, "owner_id"@, has_owner(k));
    let old = req_text(j, "old_owner_id"@, has_old_and_new_owner(k));
    let new = req_text(j, "new_owner_id"@, has_old_and_new_owner(k));
    let amount = req_text(j, "amount"@, has_amount(s));
    let ids = req_texts(j, "token_ids"@, has_token_ids(s));
    let memo = opt_text(j, "memo"@, true);
    let auth = opt_text(j, "authorized_id"@, has_authorized_id(s, k));
    if owner is Some && old is Some && new is Some && amount is Some && ids is Some && memo is Some
        && auth is Some {
        Some(
            RecordModel {
                owner_id: owner.unwrap(),
                old_owner_id: old.unwrap(),
                new_owner_id: new.unwrap(),
                amount: amount.unwrap(),
                token_ids: ids.unwrap(),
                memo: memo.unwrap(),
                authorized_id: auth.unwrap(),
            },
        )
    } else {
        None
    }
}

pub open spec fn records_of(s: EventStandard, k: EventKind, items: Seq<Json>) -> Option<Seq<RecordModel>> {
    if forall|i: int| 0 <= i < items.len() ==> (#[trigger] record_of(s, k, items[i])) is Some {
        Some(items.map_values(|x: Json| record_of(s, k, x).unwrap()))
    } else {
        None
    }
}

pub open spec fn standard_named(t: Seq<char>) -> Option<EventStandard> {
    if t == "nep141"@ {
        Some(EventStandard::Nep141)
    } else if t == "nep171"@ {
        Some(EventStandard::Nep171)
    } else {
        None
    }
}

pub open spec fn kind_named(s: EventStandard, t: Seq<char>) -> Option<EventKind> {
    match s {
        EventStandard::Nep141 => if t == "ft_mint"@ {
            Some(EventKind::Mint)
        } else if t == "ft_transfer"@ {
            Some(EventKind::Transfer)
        } else if t == "ft_burn"@ {
            Some(EventKind::Burn)
        } else {
            None
        },
        EventStandard::Nep171 => if t == "nft_mint"@ {
            Some(EventKind::Mint)
        } else if t == "nft_transfer"@ {
            Some(EventKind::Transfer)
        } else if t == "nft_burn"@ {
            Some(EventKind::Burn)
        } else {
            None
        },
    }
}

/// The event that a JSON document encodes: an object with the string members
/// `standard`, `version` and `event`, and the array `data`, whose entries all
/// have the shape that the standard and the event name call for.
pub open spec fn event_model_of(j: Json) -> Option<EventModel> {
    match (j.field("standard"@), j.field("version"@), j.field("event"@), j.field("data"@)) {
        (Some(Json::Str(st)), Some(Json::Str(v)), Some(Json::Str(ev)), Some(Json::Array(items))) => {
            match standard_named(st@) {
                Some(s) => match kind_named(s, ev@) {
                    Some(k) => match records_of(s, k, items@) {
                        Some(rs) => Some(EventModel { standard: s, version: v@, kind: k, data: rs }),
                        None => None,
                    },
                    None => None,
                },
                None => None,
            }
        },
        _ => None,
    }
}

fn take_text(j: &Json, key: &str, needed: bool) -> (r: Option<String>)
    ensures
        match r {
            Some(t) => req_text(*j, key@, needed) == Some(t@),
            None => req_text(*j, key@, needed) is None,
        },
{
    if !needed {
        return Some(String::new());
    }
    match j.get(key) {
        Some(Json::Str(t)) => Some(t.clone()),
        _ => None,
    }
}

pub(crate) fn take_opt_text(j: &Json, key: &str, allowed: bool) -> (r: Option<Option<String>>)
    ensures
        match r {
            Some(t) => opt_text(*j, key@, allowed) == Some(opt_view(t)),
            None => opt_text(*j, key@, allowed) is None,
        },
{
    if !allowed {
        return Some(None);
    }
    match j.get(key) {
        None => Some(None),
        Some(Json::Null) => Some(None),
        Some(Json::Str(t)) => Some(Some(t.clone())),
        _ => None,
    }
}

fn take_texts(j: &Json, key: &str, needed: bool) -> (r: Option<Vec<String>>)
    ensures
        match r {
            Some(t) => req_texts(*j, key@, needed) == Some(texts_view(t@)),
            None => req_texts(*j, key@, needed) is None,
        },
{
    if !needed {
        let empty: Vec<String> = Vec::new();
        assert(texts_view(empty@) =~= Seq::empty());
        return Some(empty);
    }
    match j.get(key) {
        Some(Json::Array(items)) => {
            let mut out: Vec<String> = Vec::new();
            let n = items.len();
            let mut i: usize = 0;
            while i < n
                invariant
                    n == items@.len(),
                    i <= n,
                    needed,
                    j.field(key@) == Some(Json::Array(*items)),
                    out@.len() == i,
                    forall|m: int| 0 <= m < i ==> (#[trigger] items@[m]) is Str,
                    forall|m: int| 0 <= m < i ==> (#[trigger] out@[m])@ == items@[m].text().unwrap(),
                decreases n - i,
            {
                match &items[i] {
                    Json::Str(t) => {
                        out.push(t.clone());
                    },
                    _ => {
                        assert(!all_texts(items@));
                        return None;
                    },
                }
                i = i + 1;
            }
            assert(texts_view(out@) =~= items@.map_values(|x: Json| x.text().unwrap()));
            Some(out)
        },
        _ => None,
    }
}

/// Reads one `data` entry under the shape of (`s`, `k`).
pub fn decode_record(s: EventStandard, k: EventKind, j: &Json) -> (r: Option<EventData>)
    ensures
        match r {
            Some(d) => record_of(s, k, *j) == Some(d@),
            None => record_of(s, k, *j) is None,
        },
{
    let owner = match take_text(j, "owner_id", k != EventKind::Transfer) {
        Some(t) => t,
        None => return None,
    };
    let old = match take_text(j, "old_owner_id", k == EventKind::Transfer) {
        Some(t) => t,
        None => return None,
    };
    let new = match take_text(j, "new_owner_id", k == EventKind::Transfer) {
        Some(t) => t,
        None => return None,
    };
    let amount = match take_text(j, "amount", s == EventStandard::Nep141) {
        Some(t) => t,
        None => return None,
    };
    let ids = match take_texts(j, "token_ids", s == EventStandard::Nep171) {
        Some(t) => t,
        None => return None,
    };
    let memo = match take_opt_text(j, "memo", true) {
        Some(t) => t,
        None => return None,
    };
    let auth = match take_opt_text(
        j,
        "authorized_id",
        s == EventStandard::Nep171 && k != EventKind::Mint,
    ) {
        Some(t) => t,
        None => return None,
    };
    Some(
        EventData {
            owner_id: owner,
            old_owner_id: old,
            new_owner_id: new,
            amount,
            token_ids: ids,
            memo,
            authorized_id: auth,
        },
    )
}


fn standard_from_name(t: &str) -> (r: Option<EventStandard>)
    ensures
        r == standard_named(t@),
{
    if same_text(t, "nep141") {
        Some(EventStandard::Nep141)
    } else if same_text(t, "nep171") {
        Some(EventStandard::Nep171)
    } else {
        None
    }
}

fn kind_from_name(s: EventStandard, t: &str) -> (r: Option<EventKind>)
    ensures
        r == kind_named(s, t@),
{
    match s {
        EventStandard::Nep141 => if same_text(t, "ft_mint") {
            Some(EventKind::Mint)
        } else if same_text(t, "ft_transfer") {
            Some(EventKind::Transfer)
        } else if same_text(t, "ft_burn") {
            Some(EventKind::Burn)
        } else {
            None
        },
        EventStandard::Nep171 => if same_text(t, "nft_mint") {
            Some(EventKind::Mint)
        } else if same_text(t, "nft_transfer") {
            Some(EventKind::Transfer)
        } else if same_text(t, "nft_burn") {
            Some(EventKind::Burn)
        } else {
            None
        },
    }
}

fn decode_records(s: EventStandard, k: EventKind, items: &Vec<Json>) -> (r: Option<Vec<EventData>>)
    ensures
        match r {
            Some(v) => records_of(s, k, items@) == Some(v@.map_values(|d: EventData| d@)),
            None => records_of(s, k, items@) is None,
        },
{
    let mut out: Vec<EventData> = Vec::new();
    let n = items.len();
    let mut i: usize = 0;
    while i < n
        invariant
            n == items@.len(),
            i <= n,
            out@.len() == i,
            forall|m: int| 0 <= m < i ==> (#[trigger] record_of(s, k, items@[m])) is Some,
            forall|m: int|
                0 <= m < i ==> (#[trigger] out@[m])@ == record_of(s, k, items@[m]).unwrap(),
        decreases n - i,
    {
        match decode_record(s, k, &items[i]) {
            Some(d) => out.push(d),
            None => return None,
        }
        i = i + 1;
    }
    assert(out@.map_values(|d: EventData| d@) =~= items@.map_values(
        |x: Json| record_of(s, k, x).unwrap(),
    ));
    Some(out)
}

/// Reads the event that a JSON document encodes, if it encodes one.
pub fn decode_event(j: &Json) -> (r: Option<StandardEvent>)
    ensures
        match r {
            Some(e) => event_model_of(*j) == Some(e@),
            None => event_model_of(*j) is None,
        },
{
    let st = match j.get("standard") {
        Some(Json::Str(t)) => t,
        _ => return None,
    };
    let version = match j.get("version") {
        Some(Json::Str(t)) => t,
        _ => return None,
    };
    let ev = match j.get("event") {
        Some(Json::Str(t)) => t,
        _ => return None,
    };
    let items = match j.get("data") {
        Some(Json::Array(v)) => v,
        _ => return None,
    };
    let s = match standard_from_name(st.as_str()) {
        Some(s) => s,
        None => return None,
    };
    let k = match kind_from_name(s, ev.as_str()) {
        Some(k) => k,
        None => return None,
    };
    match decode_records(s, k, items) {
        Some(data) => Some(StandardEvent { standard: s, version: version.clone(), kind: k, data }),
        None => None,
    }
}

/// The prefix that marks a log line as carrying a standard event.
pub open spec fn event_marker() -> Seq<char> {
    "EVENT_JSON:"@
}

pub open spec fn starts_with_marker(t: Seq<char>) -> bool {
    t.len() >= event_marker().len() && t.subrange(0, event_marker().len() as int) == event_marker()
}

/// The event a log line carries: after trimming it starts with the marker,
/// and the rest, trimmed again, is a JSON document that encodes an event.
pub open spec fn event_of_line(line: Seq<char>) -> Option<EventModel> {
    let t = trimmed(line);
    if starts_with_marker(t) {
        match json_text_value(trimmed(t.subrange(event_marker().len() as int, t.len() as int))) {
            Some(j) => event_model_of(j),
            None => None,
        }
    } else {
        None
    }
}

/// The events that a list of log lines carries, in the lines' order; a line
/// that carries none is passed over.
pub open spec fn events_of_lines(lines: Seq<String>) -> Seq<EventModel>
    decreases lines.len(),
{
    if lines.len() == 0 {
        Seq::empty()
    } else {
        let before = events_of_lines(lines.drop_last());
        match event_of_line(lines.last()@) {
            Some(e) => before.push(e),
            None => before,
        }
    }
}

pub open spec fn events_view(v: Seq<StandardEvent>) -> Seq<EventModel> {
    v.map_values(|e: StandardEvent| e@)
}

/// Reads the event a single log line carries, if any.
pub fn event_from_line(line: &str) -> (r: Option<StandardEvent>)
    ensures
        match r {
            Some(e) => event_of_line(line@) == Some(e@),
            None => event_of_line(line@) is None,
        },
{
    let t = trim_text(line);
    match strip_prefix_text(t, "EVENT_JSON:") {
        Some(rest) => {
            let body = trim_text(rest);
            match parse_json(body) {
                Some(j) => decode_event(&j),
                None => None,
            }
        },
        None => None,
    }
}

/// The standard events in the log lines of one execution outcome, in order.
/// Lines without the marker, and marked lines that do not decode, give none.
pub fn extract_events(logs: &Vec<String>) -> (r: Vec<StandardEvent>)
    ensures
        events_view(r@) == events_of_lines(logs@),
{
    let mut out: Vec<StandardEvent> = Vec::new();
    let n = logs.len();
    let mut i: usize = 0;
    assert(events_view(out@) =~= events_of_lines(logs@.subrange(0, 0)));
    while i < n
        invariant
            n == logs@.len(),
            i <= n,
            events_view(out@) == events_of_lines(logs@.subrange(0, i as int)),
        decreases n - i,
    {
        assert(logs@.subrange(0, i + 1).drop_last() =~= logs@.subrange(0, i as int));
        match event_from_line(logs[i].as_str()) {
            Some(e) => {
                out.push(e);
                assert(events_view(out@) =~= events_view(out@.drop_last()).push(e@));
            },
            None => {},
        }
        i = i + 1;
    }
    assert(logs@.subrange(0, n as int) =~= logs@);
    out
}

/// A log line that, trimmed, does not start with the marker carries no event,
/// so lines of that kind alone give no event and no error.
pub proof fn lemma_unmarked_lines_give_no_event(lines: Seq<String>)
    requires
        forall|i: int| 0 <= i < lines.len() ==> !starts_with_marker(trimmed((#[trigger] lines[i])@)),
    ensures
        events_of_lines(lines) == Seq::<EventModel>::empty(),
    decreases lines.len(),
{
    if lines.len() > 0 {
        let init = lines.drop_last();
        assert forall|i: int| 0 <= i < init.len() implies !starts_with_marker(
            trimmed((#[trigger] init[i])@),
        ) by {
            assert(init[i] == lines[i]);
        }
        lemma_unmarked_lines_give_no_event(init);
        assert(!starts_with_marker(trimmed(lines[lines.len() - 1]@)));
    }
}

} // verus!
