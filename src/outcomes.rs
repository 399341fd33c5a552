use vstd::prelude::*;
use crate::json::Json;
use crate::text::same_text;
use crate::enums::{ActionKind, ExecutionOutcomeStatus};
use crate::events::{EventModel, extract_events, events_of_lines, texts_view};
use crate::effects::{Effect, EffectModel, effects_view};
use crate::handlers::{events_plan, process_token_event};

verus! {

/// One action of a receipt, with its arguments as JSON.
#[derive(Debug)]
pub struct Action {
    pub kind: ActionKind,
    pub args: Json,
}

/// The body of a receipt: a list of actions, or data.
#[derive(Debug)]
pub enum Receipt {
    Action { actions: Vec<Action> },
    Data,
}

/// The outcome of executing one receipt, with the receipt itself.
#[derive(Debug)]
pub struct ExecutionOutcome {
    pub executor_id: String,
    pub receiver_id: String,
    pub status: ExecutionOutcomeStatus,
    pub receipt: Receipt,
    pub logs: Vec<String>,
}

/// The arguments of a function-call action; nothing for another action.
pub fn get_arg_from_function_call(action: &Action) -> (r: Option<&Json>)
    ensures
        match r {
            Some(a) => action.kind == ActionKind::FunctionCall && *a == action.args,
            None => action.kind != ActionKind::FunctionCall,
        },
{
    match action.kind {
        ActionKind::FunctionCall => Some(&action.args),
        _ => None,
    }
}

/// Whether `id` is among the watched contract accounts.
pub fn is_watched(watched: &Vec<String>, id: &str) -> (r: bool)
    ensures
        r == texts_view(watched@).contains(id@),
{
    let n = watched.len();
    let mut i: usize = 0;
    while i < n
        invariant
            n == watched@.len(),
            i <= n,
            forall|k: int| 0 <= k < i ==> (#[trigger] watched@[k])@ != id@,
        decreases n - i,
    {
        if same_text(watched[i].as_str(), id) {
            assert(texts_view(watched@)[i as int] == id@);
            return true;
        }
        i = i + 1;
    }
    assert forall|k: int| 0 <= k < texts_view(watched@).len() implies texts_view(watched@)[k] != id@ by {
        assert(texts_view(watched@)[k] == watched@[k]@);
    }
    false
}

/// The effects of one action of a selected outcome: a function call routes
/// every event of the outcome with the call's arguments; another action has
/// none.
pub open spec fn action_plan(contract_id: Seq<char>, a: Action, events: Seq<EventModel>) -> Seq<EffectModel> {
    if a.kind == ActionKind::FunctionCall {
        events_plan(contract_id, a.args, events)
    } else {
        Seq::empty()
    }
}

/// Whether an outcome is one the indexer acts on: executed by a watched
/// contract, ended in success with a value, and an action receipt.
pub open spec fn selected(watched: Seq<Seq<char>>, o: ExecutionOutcome) -> bool {
    watched.contains(o.executor_id@) && o.status == ExecutionOutcomeStatus::SuccessValue
        && o.receipt is Action
}

/// The effects of one outcome: for a selected one, those of its actions in
/// order, all with the receipt's receiver as the contract; none otherwise.
pub open spec fn outcome_plan(watched: Seq<Seq<char>>, o: ExecutionOutcome) -> Seq<EffectModel> {
    if selected(watched, o) {
        match o.receipt {
            Receipt::Action { actions } => actions@.flat_map(
                |a: Action| action_plan(o.receiver_id@, a, events_of_lines(o.logs@)),
            ),
            Receipt::Data => Seq::empty(),
        }
    } else {
        Seq::empty()
    }
}

proof fn lemma_effects_view_append(a: Seq<Effect>, b: Seq<Effect>)
    ensures
        effects_view(a + b) == effects_view(a) + effects_view(b),
{
    assert(effects_view(a + b) =~= effects_view(a) + effects_view(b));
}

/// The effects of one execution outcome. An outcome whose executor is not
/// watched has none.
pub fn process_execution_outcome(watched: &Vec<String>, outcome: &ExecutionOutcome) -> (r: Vec<Effect>)
    ensures
        effects_view(r@) == outcome_plan(texts_view(watched@), *outcome),
        !texts_view(watched@).contains(outcome.executor_id@) ==> r@.len() == 0,
{
    let mut out: Vec<Effect> = Vec::new();
    assert(effects_view(out@) =~= Seq::empty());
    if !is_watched(watched, outcome.executor_id.as_str()) {
        return out;
    }
    match outcome.status {
        ExecutionOutcomeStatus::SuccessValue => {},
        _ => return out,
    }
    let actions = match &outcome.receipt {
        Receipt::Action { actions } => actions,
        Receipt::Data => return out,
    };
    let ghost evs = events_of_lines(outcome.logs@);
    let ghost contract = outcome.receiver_id@;
    let n = actions.len();
    let mut i: usize = 0;
    assert(effects_view(out@) =~= actions@.take(0).flat_map(|a: Action| action_plan(contract, a, evs)));
    while i < n
        invariant
            n == actions@.len(),
            i <= n,
            evs == events_of_lines(outcome.logs@),
            contract == outcome.receiver_id@,
            outcome_plan(texts_view(watched@), *outcome) == actions@.flat_map(|a: Action| action_plan(contract, a, evs)),
            effects_view(out@) == actions@.take(i as int).flat_map(|a: Action| action_plan(contract, a, evs)),
        decreases n - i,
    {
        let action = &actions[i];
        let mut part: Vec<Effect> = match get_arg_from_function_call(action) {
            Some(args) => {
                let events = extract_events(&outcome.logs);
                process_token_event(outcome.receiver_id.as_str(), args, &events)
            },
            None => {
                let none: Vec<Effect> = Vec::new();
                assert(effects_view(none@) =~= Seq::empty());
                none
            },
        };
        proof {
            assert(effects_view(part@) == action_plan(contract, actions@[i as int], evs));
            lemma_effects_view_append(out@, part@);
            actions@.lemma_flat_map_take_append(|a: Action| action_plan(contract, a, evs), i as int);
        }
        out.append(&mut part);
        i = i + 1;
    }
    assert(actions@.take(n as int) =~= actions@);
    out
}

/// The effects of a batch of execution outcomes, outcome after outcome.
pub fn process_execution_outcomes(watched: &Vec<String>, outcomes: &Vec<ExecutionOutcome>) -> (r: Vec<Effect>)
    ensures
        effects_view(r@) == outcomes@.flat_map(|o: ExecutionOutcome| outcome_plan(texts_view(watched@), o)),
{
    let ghost w = texts_view(watched@);
    let mut out: Vec<Effect> = Vec::new();
    let n = outcomes.len();
    let mut i: usize = 0;
    assert(effects_view(out@) =~= outcomes@.take(0).flat_map(|o: ExecutionOutcome| outcome_plan(w, o)));
    while i < n
        invariant
            n == outcomes@.len(),
            i <= n,
            w == texts_view(watched@),
            effects_view(out@) == outcomes@.take(i as int).flat_map(|o: ExecutionOutcome| outcome_plan(w, o)),
        decreases n - i,
    {
        let mut part = process_execution_outcome(watched, &outcomes[i]);
        proof {
            lemma_effects_view_append(out@, part@);
            outcomes@.lemma_flat_map_take_append(|o: ExecutionOutcome| outcome_plan(w, o), i as int);
        }
        out.append(&mut part);
        i = i + 1;
    }
    assert(outcomes@.take(n as int) =~= outcomes@);
    out
}

} // verus!
