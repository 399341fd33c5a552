use vstd::prelude::*;
use crate::json::{Json, member_of, json_text_value};
use crate::text::{is_space, trimmed, trim_start, trim_end};
use crate::events::{
    EventData, EventKind, EventModel, EventStandard, RecordModel, StandardEvent, event_model_of,
    has_amount, has_authorized_id, has_old_and_new_owner, has_owner, has_token_ids, kind_named,
    record_of, records_of, standard_named, texts_view, all_texts, event_marker,
    event_of_line,
};

verus! {

/// A data entry holds no field that its (standard, kind) shape lacks.
pub open spec fn record_shaped(s: EventStandard, k: EventKind, r: RecordModel) -> bool {
    &&& !has_owner(k) ==> r.owner_id == Seq::<char>::empty()
    &&& !has_old_and_new_owner(k) ==> r.old_owner_id == Seq::<char>::empty() && r.new_owner_id
        == Seq::<char>::empty()
    &&& !has_amount(s) ==> r.amount == Seq::<char>::empty()
    &&& !has_token_ids(s) ==> r.token_ids == Seq::<Seq<char>>::empty()
    &&& !has_authorized_id(s, k) ==> r.authorized_id is None
}

/// An event whose entries all fit its shape.
pub open spec fn event_well_formed(e: EventModel) -> bool {
    &&& forall|i: int| 0 <= i < e.data.len() ==> record_shaped(e.standard, e.kind, #[trigger] e.data[i])
}

proof fn lemma_member_at(ms: Seq<(String, Json)>, key: Seq<char>, p: int)
    requires
        0 <= p < ms.len(),
        ms[p].0@ == key,
        forall|q: int| 0 <= q < p ==> (#[trigger] ms[q]).0@ != key,
    ensures
        member_of(ms, key) == Some(ms[p].1),
    decreases p,
{
    if p > 0 {
        let rest = ms.drop_first();
        assert forall|q: int| 0 <= q < p - 1 implies (#[trigger] rest[q]).0@ != key by {
            assert(rest[q] == ms[q + 1]);
        }
        lemma_member_at(rest, key, p - 1);
    }
}

fn text_value(t: &String) -> (r: Json)
    ensures
        r.text() == Some(t@),
{
    Json::Str(t.clone())
}

fn opt_text_value(t: &Option<String>) -> (r: Json)
    ensures
        match t {
            Some(x) => r.text() == Some(x@),
            None => r is Null,
        },
{
    match t {
        Some(x) => Json::Str(x.clone()),
        None => Json::Null,
    }
}

fn texts_value(v: &Vec<String>) -> (r: Json)
    ensures
        r is Array,
        match r {
            Json::Array(items) => all_texts(items@) && items@.map_values(|x: Json| x.text().unwrap())
                == texts_view(v@),
            _ => false,
        },
{
    let mut items: Vec<Json> = Vec::new();
    let n = v.len();
    let mut i: usize = 0;
    while i < n
        invariant
            n == v@.len(),
            i <= n,
            items@.len() == i,
            forall|k: int| 0 <= k < i ==> (#[trigger] items@[k]).text() == Some(v@[k]@),
        decreases n - i,
    {
        items.push(Json::Str(v[i].clone()));
        i = i + 1;
    }
    assert(items@.map_values(|x: Json| x.text().unwrap()) =~= texts_view(v@));
    Json::Array(items)
}

/// Writes one data entry as a JSON object with all of its fields.
pub fn encode_record(s: EventStandard, k: EventKind, d: &EventData) -> (r: Json)
    requires
        record_shaped(s, k, d@),
    ensures
        record_of(s, k, r) == Some(d@),
{
    let mut ms: Vec<(String, Json)> = Vec::new();
    ms.push((String::from_str("owner_id"), text_value(&d.owner_id)));
    ms.push((String::from_str("old_owner_id"), text_value(&d.old_owner_id)));
    ms.push((String::from_str("new_owner_id"), text_value(&d.new_owner_id)));
    ms.push((String::from_str("amount"), text_value(&d.amount)));
    ms.push((String::from_str("token_ids"), texts_value(&d.token_ids)));
    ms.push((String::from_str("memo"), opt_text_value(&d.memo)));
    ms.push((String::from_str("authorized_id"), opt_text_value(&d.authorized_id)));
    proof {
        reveal_strlit("owner_id");
        reveal_strlit("old_owner_id");
        reveal_strlit("new_owner_id");
        reveal_strlit("amount");
        reveal_strlit("token_ids");
        reveal_strlit("memo");
        reveal_strlit("authorized_id");
        let m = ms@;
        assert(m[0].0@ == "owner_id"@);
        lemma_member_at(m, "owner_id"@, 0);
        assert(m[1].0@[0] != m[2].0@[0]);
        lemma_member_at(m, "old_owner_id"@, 1);
        lemma_member_at(m, "new_owner_id"@, 2);
        lemma_member_at(m, "amount"@, 3);
        assert(m[0].0@.len() != "token_ids"@.len());
        assert(m[1].0@.len() != "token_ids"@.len());
        assert(m[2].0@.len() != "token_ids"@.len());
        assert(m[3].0@.len() != "token_ids"@.len());
        lemma_member_at(m, "token_ids"@, 4);
        assert(m[0].0@.len() != "memo"@.len());
        assert(m[1].0@.len() != "memo"@.len());
        assert(m[2].0@.len() != "memo"@.len());
        assert(m[3].0@.len() != "memo"@.len());
        assert(m[4].0@.len() != "memo"@.len());
        lemma_member_at(m, "memo"@, 5);
        assert(m[0].0@.len() != "authorized_id"@.len());
        assert(m[1].0@.len() != "authorized_id"@.len());
        assert(m[2].0@.len() != "authorized_id"@.len());
        assert(m[3].0@.len() != "authorized_id"@.len());
        assert(m[4].0@.len() != "authorized_id"@.len());
        assert(m[5].0@.len() != "authorized_id"@.len());
        lemma_member_at(m, "authorized_id"@, 6);
        assert(texts_view(d.token_ids@).len() == d.token_ids@.len());
    }
    Json::Object(ms)
}


fn standard_name(s: EventStandard) -> (r: String)
    ensures
        standard_named(r@) == Some(s),
{
    proof {
        reveal_strlit("nep141");
        reveal_strlit("nep171");
        assert("nep141"@[4] != "nep171"@[4]);
    }
    match s {
        EventStandard::Nep141 => String::from_str("nep141"),
        EventStandard::Nep171 => String::from_str("nep171"),
    }
}

fn kind_name(s: EventStandard, k: EventKind) -> (r: String)
    ensures
        kind_named(s, r@) == Some(k),
{
    proof {
        reveal_strlit("ft_mint");
        reveal_strlit("ft_transfer");
        reveal_strlit("ft_burn");
        reveal_strlit("nft_mint");
        reveal_strlit("nft_transfer");
        reveal_strlit("nft_burn");
        assert("ft_mint"@.len() != "ft_transfer"@.len());
        assert("ft_mint"@[3] != "ft_burn"@[3]);
        assert("nft_mint"@.len() != "nft_transfer"@.len());
        assert("nft_mint"@[4] != "nft_burn"@[4]);
        assert("ft_transfer"@.len() != "ft_burn"@.len());
        assert("nft_transfer"@.len() != "nft_burn"@.len());
    }
    match (s, k) {
        (EventStandard::Nep141, EventKind::Mint) => String::from_str("ft_mint"),
        (EventStandard::Nep141, EventKind::Transfer) => String::from_str("ft_transfer"),
        (EventStandard::Nep141, EventKind::Burn) => String::from_str("ft_burn"),
        (EventStandard::Nep171, EventKind::Mint) => String::from_str("nft_mint"),
        (EventStandard::Nep171, EventKind::Transfer) => String::from_str("nft_transfer"),
        (EventStandard::Nep171, EventKind::Burn) => String::from_str("nft_burn"),
    }
}

/// Writes an event as the JSON document of its log line: the members
/// `standard`, `version`, `event` and `data`. Reading the document back gives
/// the same event.
pub fn encode_event(e: &StandardEvent) -> (r: Json)
    requires
        event_well_formed(e@),
    ensures
        event_model_of(r) == Some(e@),
{
    let mut items: Vec<Json> = Vec::new();
    let n = e.data.len();
    let mut i: usize = 0;
    while i < n
        invariant
            n == e.data@.len(),
            i <= n,
            items@.len() == i,
            event_well_formed(e@),
            forall|q: int| 0 <= q < i ==> record_of(e.standard, e.kind, #[trigger] items@[q]) == Some(e.data@[q]@),
        decreases n - i,
    {
        assert(e@.data[i as int] == e.data@[i as int]@);
        items.push(encode_record(e.standard, e.kind, &e.data[i]));
        i = i + 1;
    }
    proof {
        assert forall|q: int| 0 <= q < items@.len() implies (#[trigger] record_of(e.standard, e.kind, items@[q])) is Some by {}
        assert(items@.map_values(|x: Json| record_of(e.standard, e.kind, x).unwrap()) =~= e@.data);
        assert(records_of(e.standard, e.kind, items@) == Some(e@.data));
    }
    let mut ms: Vec<(String, Json)> = Vec::new();
    ms.push((String::from_str("standard"), Json::Str(standard_name(e.standard))));
    ms.push((String::from_str("version"), Json::Str(e.version.clone())));
    ms.push((String::from_str("event"), Json::Str(kind_name(e.standard, e.kind))));
    ms.push((String::from_str("data"), Json::Array(items)));
    proof {
        reveal_strlit("standard");
        reveal_strlit("version");
        reveal_strlit("event");
        reveal_strlit("data");
        let m = ms@;
        lemma_member_at(m, "standard"@, 0);
        assert(m[0].0@.len() != "version"@.len());
        lemma_member_at(m, "version"@, 1);
        assert(m[0].0@.len() != "event"@.len());
        assert(m[1].0@.len() != "event"@.len());
        lemma_member_at(m, "event"@, 2);
        assert(m[0].0@.len() != "data"@.len());
        assert(m[1].0@.len() != "data"@.len());
        assert(m[2].0@.len() != "data"@.len());
        lemma_member_at(m, "data"@, 3);
    }
    Json::Object(ms)
}


/// A log line made of the marker and a JSON text that encodes an event
/// carries that event, whatever white space the text starts with.
pub proof fn lemma_marked_document_gives_event(text: Seq<char>, j: Json, e: EventModel)
    requires
        json_text_value(trimmed(text)) == Some(j),
        event_model_of(j) == Some(e),
        text.len() > 0,
        !is_space(text.last()),
    ensures
        event_of_line(event_marker() + text) == Some(e),
{
    reveal_strlit("EVENT_JSON:");
    let line = event_marker() + text;
    let n = event_marker().len();
    assert(line[0] == 'E');
    assert(trim_start(line) == line);
    assert(line.last() == text.last());
    assert(trim_end(line) == line);
    assert(line.subrange(0, n as int) =~= event_marker());
    assert(line.subrange(n as int, line.len() as int) =~= text);
}

} // verus!
