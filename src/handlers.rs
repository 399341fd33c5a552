use vstd::prelude::*;
use crate::json::Json;
use crate::hash::{token_hash, token_address};
use crate::events::{EventData, RecordModel, StandardEvent, EventModel, EventStandard, EventKind, texts_view};
use crate::metadata::MetadataModel;
use crate::token::{Token, TokenModel, ArgsJsonTokenMint, get_token_args, metadata_at, metadata_for_index, mint_entries};
use crate::effects::{Effect, EffectModel, effects_view};

verus! {

/// The effects of minting token `token_ids[i]` of a mint entry: store its
/// record with the metadata at position `i` of the call, then notify.
pub open spec fn mint_step(contract_id: Seq<char>, args: Json, r: RecordModel, k: int) -> EffectModel {
    let i = k / 2;
    let token_id = r.token_ids[i];
    if k % 2 == 0 {
        EffectModel::StoreToken {
            token: TokenModel { contract_id, token_id, metadata: metadata_at(args, i) },
            address: token_address(contract_id, token_id),
            owner_id: r.owner_id,
        }
    } else {
        EffectModel::NotifyMint { contract_id, token_id, address: token_address(contract_id, token_id) }
    }
}

/// Two effects for each token id of a mint entry, in order.
pub open spec fn mint_record_plan(contract_id: Seq<char>, args: Json, r: RecordModel) -> Seq<EffectModel> {
    Seq::new(2 * r.token_ids.len(), |k: int| mint_step(contract_id, args, r, k))
}

/// One `MoveOwner` for each token id of a transfer entry.
pub open spec fn transfer_record_plan(contract_id: Seq<char>, r: RecordModel) -> Seq<EffectModel> {
    r.token_ids.map_values(
        |t: Seq<char>|
            EffectModel::MoveOwner {
                contract_id,
                token_id: t,
                address: token_address(contract_id, t),
                old_owner_id: r.old_owner_id,
                new_owner_id: r.new_owner_id,
            },
    )
}

pub open spec fn burn_record_plan(r: RecordModel) -> Seq<EffectModel> {
    seq![EffectModel::LogBurn { token_ids: r.token_ids }]
}

pub open spec fn ft_transfer_record_plan(r: RecordModel) -> Seq<EffectModel> {
    seq![
        EffectModel::NotifyFtTransfer {
            from_wallet_id: r.old_owner_id,
            to_wallet_id: r.new_owner_id,
            amount: r.amount,
            voucher_id: r.memo,
        },
    ]
}

/// The effects of one event: nft mints, transfers and burns, and fungible
/// transfers, have handlers; fungible mints and burns have none.
pub open spec fn event_plan(contract_id: Seq<char>, args: Json, e: EventModel) -> Seq<EffectModel> {
    match (e.standard, e.kind) {
        (EventStandard::Nep171, EventKind::Mint) => e.data.flat_map(
            |r: RecordModel| mint_record_plan(contract_id, args, r),
        ),
        (EventStandard::Nep171, EventKind::Transfer) => e.data.flat_map(
            |r: RecordModel| transfer_record_plan(contract_id, r),
        ),
        (EventStandard::Nep171, EventKind::Burn) => e.data.flat_map(
            |r: RecordModel| burn_record_plan(r),
        ),
        (EventStandard::Nep141, EventKind::Transfer) => e.data.flat_map(
            |r: RecordModel| ft_transfer_record_plan(r),
        ),
        _ => Seq::empty(),
    }
}

/// The effects of a list of events, event after event.
pub open spec fn events_plan(contract_id: Seq<char>, args: Json, events: Seq<EventModel>) -> Seq<EffectModel> {
    events.flat_map(|e: EventModel| event_plan(contract_id, args, e))
}

proof fn lemma_effects_view_append(a: Seq<Effect>, b: Seq<Effect>)
    ensures
        effects_view(a + b) == effects_view(a) + effects_view(b),
{
    assert(effects_view(a + b) =~= effects_view(a) + effects_view(b));
}

fn mint_record(
    contract_id: &str,
    entries: &Vec<ArgsJsonTokenMint<'_>>,
    Ghost(args): Ghost<Json>,
    mint: &EventData,
) -> (r: Vec<Effect>)
    requires
        entries@.len() == mint_entries(args).len(),
        forall|k: int|
            0 <= k < entries@.len() ==> match (#[trigger] entries@[k]).token_metadata {
                Some(m) => mint_entries(args)[k] == Some(*m),
                None => mint_entries(args)[k] is None,
            },
    ensures
        effects_view(r@) == mint_record_plan(contract_id@, args, mint@),
{
        let mut out: Vec<Effect> = Vec::new();
    let n = mint.token_ids.len();
    let mut i: usize = 0;
    assert(effects_view(out@) =~= mint_record_plan(contract_id@, args, mint@).take(0));
    while i < n
        invariant
            n == mint.token_ids@.len(),
            i <= n,
            effects_view(out@) == Seq::new(2 * i as nat, |k: int| mint_step(contract_id@, args, mint@, k)),
            entries@.len() == mint_entries(args).len(),
            forall|k: int|
                0 <= k < entries@.len() ==> match (#[trigger] entries@[k]).token_metadata {
                    Some(m) => mint_entries(args)[k] == Some(*m),
                    None => mint_entries(args)[k] is None,
                },
        decreases n - i,
    {
        let token_id = &mint.token_ids[i];
        let address = token_hash(contract_id, token_id.as_str());
        let metadata = metadata_for_index(entries, i, Ghost(args));
        let token = Token {
            contract_id: String::from_str(contract_id),
            token_id: token_id.clone(),
            metadata,
        };
        let store = Effect::StoreToken { token, address: address.clone(), owner_id: mint.owner_id.clone() };
        let notify = Effect::NotifyMint {
            contract_id: String::from_str(contract_id),
            token_id: token_id.clone(),
            address,
        };
        proof {
            let k = 2 * i as int;
            assert(k / 2 == i as int && k % 2 == 0);
            assert((k + 1) / 2 == i as int && (k + 1) % 2 == 1);
            assert(texts_view(mint.token_ids@)[i as int] == token_id@);
            assert(store@ == mint_step(contract_id@, args, mint@, k));
            assert(notify@ == mint_step(contract_id@, args, mint@, k + 1));
        }
        let ghost before = out@;
        out.push(store);
        out.push(notify);
        proof {
            assert(out@ == before.push(store).push(notify));
            assert(effects_view(out@) =~= effects_view(before).push(store@).push(notify@));
            let k = 2 * i as int;
            assert(Seq::new(2 * (i + 1) as nat, |k: int| mint_step(contract_id@, args, mint@, k))
                =~= Seq::new(2 * i as nat, |k: int| mint_step(contract_id@, args, mint@, k)).push(
                mint_step(contract_id@, args, mint@, k)).push(mint_step(contract_id@, args, mint@, k + 1)));
            assert(effects_view(out@) =~= Seq::new(2 * (i + 1) as nat, |k: int| mint_step(contract_id@, args, mint@, k)));
        }
        i = i + 1;
    }
    assert(effects_view(out@) =~= mint_record_plan(contract_id@, args, mint@));
    out
}

/// The effects of an nft mint event: for each token id of each entry, in
/// order, store its record and notify the mint. The token at position `i` of
/// an entry takes the metadata at position `i` of the call's
/// `args_json.tokens_to_mint`, and none where that list is shorter.
pub fn process_token_mint(contract_id: &str, receipt_args: &Json, mints: &Vec<EventData>) -> (r: Vec<Effect>)
    ensures
        effects_view(r@) == mints@.map_values(|d: EventData| d@).flat_map(
            |m: RecordModel| mint_record_plan(contract_id@, *receipt_args, m),
        ),
{
    let entries = get_token_args(receipt_args);
    let ghost data = mints@.map_values(|d: EventData| d@);
    let mut out: Vec<Effect> = Vec::new();
    let n = mints.len();
    let mut i: usize = 0;
    assert(effects_view(out@) =~= data.take(0).flat_map(|m: RecordModel| mint_record_plan(contract_id@, *receipt_args, m)));
    while i < n
        invariant
            n == mints@.len(),
            data == mints@.map_values(|d: EventData| d@),
            i <= n,
            effects_view(out@) == data.take(i as int).flat_map(|m: RecordModel| mint_record_plan(contract_id@, *receipt_args, m)),
            entries@.len() == mint_entries(*receipt_args).len(),
            forall|k: int|
                0 <= k < entries@.len() ==> match (#[trigger] entries@[k]).token_metadata {
                    Some(m) => mint_entries(*receipt_args)[k] == Some(*m),
                    None => mint_entries(*receipt_args)[k] is None,
                },
        decreases n - i,
    {
        let mut part = mint_record(contract_id, &entries, Ghost(*receipt_args), &mints[i]);
        proof {
            assert(data[i as int] == mints@[i as int]@);
            lemma_effects_view_append(out@, part@);
            data.lemma_flat_map_take_append(|m: RecordModel| mint_record_plan(contract_id@, *receipt_args, m), i as int);
        }
        out.append(&mut part);
        i = i + 1;
    }
    assert(data.take(n as int) =~= data);
    out
}


fn transfer_record(contract_id: &str, transfer: &EventData) -> (r: Vec<Effect>)
    ensures
        effects_view(r@) == transfer_record_plan(contract_id@, transfer@),
{
    let mut out: Vec<Effect> = Vec::new();
    let n = transfer.token_ids.len();
    let mut i: usize = 0;
    while i < n
        invariant
            n == transfer.token_ids@.len(),
            i <= n,
            effects_view(out@) =~= transfer_record_plan(contract_id@, transfer@).take(i as int),
        decreases n - i,
    {
        let token_id = &transfer.token_ids[i];
        let address = token_hash(contract_id, token_id.as_str());
        let e = Effect::MoveOwner {
            contract_id: String::from_str(contract_id),
            token_id: token_id.clone(),
            address,
            old_owner_id: transfer.old_owner_id.clone(),
            new_owner_id: transfer.new_owner_id.clone(),
        };
        proof {
            assert(texts_view(transfer.token_ids@)[i as int] == token_id@);
            assert(e@ == transfer_record_plan(contract_id@, transfer@)[i as int]);
        }
        let ghost before = out@;
        out.push(e);
        assert(effects_view(out@) =~= effects_view(before).push(e@));
        i = i + 1;
    }
    out
}

/// The effects of an nft transfer event: one `MoveOwner` for each token id of
/// each entry, in order.
pub fn process_token_transfer(contract_id: &str, transfers: &Vec<EventData>) -> (r: Vec<Effect>)
    ensures
        effects_view(r@) == transfers@.map_values(|d: EventData| d@).flat_map(
            |m: RecordModel| transfer_record_plan(contract_id@, m),
        ),
{
    let ghost data = transfers@.map_values(|d: EventData| d@);
    let mut out: Vec<Effect> = Vec::new();
    let n = transfers.len();
    let mut i: usize = 0;
    assert(effects_view(out@) =~= data.take(0).flat_map(|m: RecordModel| transfer_record_plan(contract_id@, m)));
    while i < n
        invariant
            n == transfers@.len(),
            data == transfers@.map_values(|d: EventData| d@),
            i <= n,
            effects_view(out@) == data.take(i as int).flat_map(|m: RecordModel| transfer_record_plan(contract_id@, m)),
        decreases n - i,
    {
        let mut part = transfer_record(contract_id, &transfers[i]);
        proof {
            assert(data[i as int] == transfers@[i as int]@);
            lemma_effects_view_append(out@, part@);
            data.lemma_flat_map_take_append(|m: RecordModel| transfer_record_plan(contract_id@, m), i as int);
        }
        out.append(&mut part);
        i = i + 1;
    }
    assert(data.take(n as int) =~= data);
    out
}

fn clone_texts(v: &Vec<String>) -> (r: Vec<String>)
    ensures
        texts_view(r@) == texts_view(v@),
{
    let mut out: Vec<String> = Vec::new();
    let n = v.len();
    let mut i: usize = 0;
    while i < n
        invariant
            n == v@.len(),
            i <= n,
            texts_view(out@) =~= texts_view(v@).take(i as int),
        decreases n - i,
    {
        let ghost before = out@;
        out.push(v[i].clone());
        assert(texts_view(out@) =~= texts_view(before).push(v@[i as int]@));
        i = i + 1;
    }
    out
}

/// The effects of an nft burn event: the burned token ids of each entry go
/// to the log, and nothing is stored.
pub fn process_token_burn(burns: &Vec<EventData>) -> (r: Vec<Effect>)
    ensures
        effects_view(r@) == burns@.map_values(|d: EventData| d@).flat_map(
            |m: RecordModel| burn_record_plan(m),
        ),
{
    let ghost data = burns@.map_values(|d: EventData| d@);
    let mut out: Vec<Effect> = Vec::new();
    let n = burns.len();
    let mut i: usize = 0;
    assert(effects_view(out@) =~= data.take(0).flat_map(|m: RecordModel| burn_record_plan(m)));
    while i < n
        invariant
            n == burns@.len(),
            data == burns@.map_values(|d: EventData| d@),
            i <= n,
            effects_view(out@) == data.take(i as int).flat_map(|m: RecordModel| burn_record_plan(m)),
        decreases n - i,
    {
        let e = Effect::LogBurn { token_ids: clone_texts(&burns[i].token_ids) };
        proof {
            assert(data[i as int] == burns@[i as int]@);
            data.lemma_flat_map_take_append(|m: RecordModel| burn_record_plan(m), i as int);
        }
        let ghost before = out@;
        out.push(e);
        assert(effects_view(out@) =~= effects_view(before) + seq![e@]);
        i = i + 1;
    }
    assert(data.take(n as int) =~= data);
    out
}

/// The effects of a fungible transfer event: one notification for each
/// entry, with the entry's memo as the voucher id.
pub fn process_ft_transfer(transfers: &Vec<EventData>) -> (r: Vec<Effect>)
    ensures
        effects_view(r@) == transfers@.map_values(|d: EventData| d@).flat_map(
            |m: RecordModel| ft_transfer_record_plan(m),
        ),
{
    let ghost data = transfers@.map_values(|d: EventData| d@);
    let mut out: Vec<Effect> = Vec::new();
    let n = transfers.len();
    let mut i: usize = 0;
    assert(effects_view(out@) =~= data.take(0).flat_map(|m: RecordModel| ft_transfer_record_plan(m)));
    while i < n
        invariant
            n == transfers@.len(),
            data == transfers@.map_values(|d: EventData| d@),
            i <= n,
            effects_view(out@) == data.take(i as int).flat_map(|m: RecordModel| ft_transfer_record_plan(m)),
        decreases n - i,
    {
        let t = &transfers[i];
        let voucher_id = match &t.memo {
            Some(m) => Some(m.clone()),
            None => None,
        };
        let e = Effect::NotifyFtTransfer {
            from_wallet_id: t.old_owner_id.clone(),
            to_wallet_id: t.new_owner_id.clone(),
            amount: t.amount.clone(),
            voucher_id,
        };
        proof {
            assert(data[i as int] == transfers@[i as int]@);
            data.lemma_flat_map_take_append(|m: RecordModel| ft_transfer_record_plan(m), i as int);
        }
        let ghost before = out@;
        out.push(e);
        assert(effects_view(out@) =~= effects_view(before) + seq![e@]);
        i = i + 1;
    }
    assert(data.take(n as int) =~= data);
    out
}

/// The effects of one event, by its standard and kind.
pub fn route_event(contract_id: &str, receipt_args: &Json, event: &StandardEvent) -> (r: Vec<Effect>)
    ensures
        effects_view(r@) == event_plan(contract_id@, *receipt_args, event@),
{
    match (event.standard, event.kind) {
        (EventStandard::Nep171, EventKind::Mint) => process_token_mint(contract_id, receipt_args, &event.data),
        (EventStandard::Nep171, EventKind::Transfer) => process_token_transfer(contract_id, &event.data),
        (EventStandard::Nep171, EventKind::Burn) => process_token_burn(&event.data),
        (EventStandard::Nep141, EventKind::Transfer) => process_ft_transfer(&event.data),
        _ => {
            let none: Vec<Effect> = Vec::new();
            assert(effects_view(none@) =~= Seq::empty());
            none
        },
    }
}

/// The effects of a list of events, event after event.
pub fn process_token_event(contract_id: &str, receipt_args: &Json, events: &Vec<StandardEvent>) -> (r: Vec<Effect>)
    ensures
        effects_view(r@) == events_plan(contract_id@, *receipt_args, events@.map_values(|e: StandardEvent| e@)),
{
    let ghost evs = events@.map_values(|e: StandardEvent| e@);
    let mut out: Vec<Effect> = Vec::new();
    let n = events.len();
    let mut i: usize = 0;
    assert(effects_view(out@) =~= evs.take(0).flat_map(|e: EventModel| event_plan(contract_id@, *receipt_args, e)));
    while i < n
        invariant
            n == events@.len(),
            evs == events@.map_values(|e: StandardEvent| e@),
            i <= n,
            effects_view(out@) == evs.take(i as int).flat_map(|e: EventModel| event_plan(contract_id@, *receipt_args, e)),
        decreases n - i,
    {
        assert(evs[i as int] == events@[i as int]@);
        let mut part = route_event(contract_id, receipt_args, &events[i]);
        proof {
            lemma_effects_view_append(out@, part@);
            evs.lemma_flat_map_take_append(|e: EventModel| event_plan(contract_id@, *receipt_args, e), i as int);
        }
        out.append(&mut part);
        i = i + 1;
    }
    assert(evs.take(n as int) =~= evs);
    out
}

/// In a mint whose call lists metadata for fewer tokens than the entry mints,
/// every token past the end of that list is still stored, with no metadata.
pub proof fn lemma_mint_past_metadata_list_has_none(
    contract_id: Seq<char>,
    args: Json,
    mint: RecordModel,
    i: int,
)
    requires
        mint_entries(args).len() <= i < mint.token_ids.len(),
    ensures
        mint_record_plan(contract_id, args, mint)[2 * i] == (EffectModel::StoreToken {
            token: TokenModel {
                contract_id,
                token_id: mint.token_ids[i],
                metadata: None::<MetadataModel>,
            },
            address: token_address(contract_id, mint.token_ids[i]),
            owner_id: mint.owner_id,
        }),
{
    assert((2 * i) / 2 == i && (2 * i) % 2 == 0);
}

} // verus!
