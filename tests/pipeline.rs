use token_indexer::effects::Effect;
use token_indexer::enums::{ActionKind, ExecutionOutcomeStatus};
use token_indexer::events::{extract_events, EventKind, EventStandard};
use token_indexer::hash::token_hash;
use token_indexer::json::Json;
use token_indexer::metadata::TokenMetadata;
use token_indexer::outcomes::{
    get_arg_from_function_call, is_watched, process_execution_outcome, process_execution_outcomes,
    Action, ExecutionOutcome, Receipt,
};
use token_indexer::retry::{RetryDecision, RetryPolicy, RetryState};
use token_indexer::token::get_token_args;

const NFT: &str = "nftsmartcontract.test.near";

fn s(t: &str) -> Json {
    Json::Str(t.to_string())
}

fn obj(members: Vec<(&str, Json)>) -> Json {
    Json::Object(members.into_iter().map(|(k, v)| (k.to_string(), v)).collect())
}

fn mint_args(metadata_titles: &[&str]) -> Json {
    let entries = metadata_titles
        .iter()
        .map(|t| obj(vec![("metadata", obj(vec![("title", s(t))]))]))
        .collect();
    obj(vec![(
        "args_json",
        obj(vec![("tokens_to_mint", Json::Array(entries))]),
    )])
}

fn outcome(executor: &str, status: ExecutionOutcomeStatus, actions: Vec<Action>, logs: Vec<&str>) -> ExecutionOutcome {
    ExecutionOutcome {
        executor_id: executor.to_string(),
        receiver_id: executor.to_string(),
        status,
        receipt: Receipt::Action { actions },
        logs: logs.into_iter().map(|l| l.to_string()).collect(),
    }
}

fn call(args: Json) -> Action {
    Action { kind: ActionKind::FunctionCall, args }
}

fn watched() -> Vec<String> {
    vec![NFT.to_string(), "ftcontract.test.near".to_string()]
}

const MINT_W1: &str = r#"EVENT_JSON:{"standard":"nep171","version":"1.0.0","event":"nft_mint","data":[{"owner_id":"w1","token_ids":["t1","t2"]}]}"#;

#[test]
fn unmarked_lines_give_no_event() {
    let logs = vec![
        "hello world".to_string(),
        "EVENT_JSON".to_string(),
        "event_json:{}".to_string(),
        "".to_string(),
    ];
    assert!(extract_events(&logs).is_empty());
}

#[test]
fn malformed_marked_lines_are_skipped() {
    let logs = vec![
        "EVENT_JSON:{not json".to_string(),
        r#"EVENT_JSON:{"standard":"nep999","version":"1","event":"nft_mint","data":[]}"#.to_string(),
        r#"EVENT_JSON:{"standard":"nep171","version":"1","event":"ft_mint","data":[]}"#.to_string(),
        r#"EVENT_JSON:{"standard":"nep171","version":"1","event":"nft_mint","data":[{"owner_id":5,"token_ids":[]}]}"#.to_string(),
        MINT_W1.to_string(),
    ];
    let events = extract_events(&logs);
    assert_eq!(events.len(), 1);
    assert_eq!(events[0].standard, EventStandard::Nep171);
    assert_eq!(events[0].kind, EventKind::Mint);
}

#[test]
fn marked_line_is_read_after_trimming() {
    let line = format!("  \t{}  ", MINT_W1.replace("EVENT_JSON:", "EVENT_JSON:   "));
    let events = extract_events(&vec![line]);
    assert_eq!(events.len(), 1);
    assert_eq!(events[0].version, "1.0.0");
    assert_eq!(events[0].data[0].owner_id, "w1");
    assert_eq!(events[0].data[0].token_ids, vec!["t1".to_string(), "t2".to_string()]);
    assert_eq!(events[0].data[0].memo, None);
}

#[test]
fn events_keep_line_order() {
    let logs = vec![
        r#"EVENT_JSON:{"standard":"nep141","version":"1.0.0","event":"ft_transfer","data":[{"old_owner_id":"a","new_owner_id":"b","amount":"10","memo":"v1"}]}"#.to_string(),
        "other".to_string(),
        r#"EVENT_JSON:{"standard":"nep171","version":"1.0.0","event":"nft_burn","data":[{"owner_id":"a","token_ids":["x"],"authorized_id":null}]}"#.to_string(),
    ];
    let events = extract_events(&logs);
    assert_eq!(events.len(), 2);
    assert_eq!(events[0].standard, EventStandard::Nep141);
    assert_eq!(events[0].kind, EventKind::Transfer);
    assert_eq!(events[0].data[0].amount, "10");
    assert_eq!(events[0].data[0].memo, Some("v1".to_string()));
    assert_eq!(events[1].kind, EventKind::Burn);
}

#[test]
fn token_hash_is_keccak_of_joined_ids() {
    assert_eq!(
        token_hash("", ""),
        "c5d2460186f7233c927e7db2dcc703c0e500b653ca82273b7bfad8045d85a470"
    );
    assert_eq!(
        token_hash("ab", "c"),
        "4e03657aea45a94fc7d47ba826c8d667c0d1e6e33a64a036ec44f58fa12d6c45"
    );
    assert_eq!(token_hash("ab", "c"), token_hash("a", "bc"));
    assert_eq!(token_hash(NFT, "t1"), token_hash(NFT, "t1"));
    assert_ne!(token_hash(NFT, "t1"), token_hash(NFT, "t2"));
    assert_eq!(token_hash(NFT, "t1").len(), 64);
}

fn run_retry(policy: &RetryPolicy, results: &[bool]) -> (bool, u32, u64) {
    let mut state = RetryState::start(policy);
    let mut waited = 0u64;
    let mut k = 0usize;
    loop {
        if !state.may_attempt(policy) {
            return (false, state.attempts, waited);
        }
        match state.after_attempt(policy, results[k]) {
            RetryDecision::Succeeded { attempts } => return (true, attempts, waited),
            RetryDecision::Exhausted { attempts } => return (false, attempts, waited),
            RetryDecision::RetryAfter { wait_ms, next } => {
                waited += wait_ms;
                state = next;
            }
        }
        k += 1;
    }
}

#[test]
fn retry_succeeds_after_failures_with_doubling_waits() {
    let policy = RetryPolicy { max_attempts: 10, initial_interval_ms: 100, max_interval_ms: 500 };
    let results = [false, false, false, false, true];
    // waits 100, 200, 400, then capped at 500
    assert_eq!(run_retry(&policy, &results), (true, 5, 1200));
}

#[test]
fn retry_gives_up_after_max_attempts() {
    let policy = RetryPolicy { max_attempts: 3, initial_interval_ms: 100, max_interval_ms: 1000 };
    assert_eq!(run_retry(&policy, &[false; 10]), (false, 3, 300));
    let none = RetryPolicy { max_attempts: 0, initial_interval_ms: 100, max_interval_ms: 1000 };
    assert_eq!(run_retry(&none, &[false; 1]), (false, 0, 0));
}

#[test]
fn retry_interval_starts_capped() {
    let policy = RetryPolicy { max_attempts: 4, initial_interval_ms: 900, max_interval_ms: 300 };
    assert_eq!(RetryState::start(&policy).interval_ms, 300);
    assert_eq!(run_retry(&policy, &[false, true]), (true, 2, 300));
}

#[test]
fn mint_scenario_metadata_and_owner() {
    let o = outcome(NFT, ExecutionOutcomeStatus::SuccessValue, vec![call(mint_args(&["first"]))], vec![MINT_W1]);
    let effects = process_execution_outcomes(&watched(), &vec![o]);
    assert_eq!(effects.len(), 4);
    let h1 = token_hash(NFT, "t1");
    let h2 = token_hash(NFT, "t2");
    match &effects[0] {
        Effect::StoreToken { token, address, owner_id } => {
            assert_eq!(token.token_id, "t1");
            assert_eq!(token.contract_id, NFT);
            assert_eq!(token.metadata.as_ref().unwrap().title, Some("first".to_string()));
            assert_eq!(address, &h1);
            assert_eq!(owner_id, "w1");
        }
        other => panic!("unexpected {:?}", other),
    }
    match &effects[1] {
        Effect::NotifyMint { token_id, address, .. } => {
            assert_eq!(token_id, "t1");
            assert_eq!(address, &h1);
        }
        other => panic!("unexpected {:?}", other),
    }
    match &effects[2] {
        Effect::StoreToken { token, address, .. } => {
            assert_eq!(token.token_id, "t2");
            assert!(token.metadata.is_none());
            assert_eq!(address, &h2);
        }
        other => panic!("unexpected {:?}", other),
    }
    let owners: Vec<(String, String)> = effects
        .iter()
        .filter_map(|e| e.follow_up())
        .map(|f| match f {
            Effect::AddOwner { owner_id, address, .. } => (owner_id, address),
            other => panic!("unexpected {:?}", other),
        })
        .collect();
    assert_eq!(owners, vec![("w1".to_string(), h1), ("w1".to_string(), h2)]);
}

#[test]
fn mint_past_metadata_list_gets_none() {
    let line = r#"EVENT_JSON:{"standard":"nep171","version":"1.0.0","event":"nft_mint","data":[{"owner_id":"w","token_ids":["a","b","c"]}]}"#;
    let o = outcome(NFT, ExecutionOutcomeStatus::SuccessValue, vec![call(mint_args(&["m"]))], vec![line]);
    let effects = process_execution_outcome(&watched(), &o);
    assert_eq!(effects.len(), 6);
    let metas: Vec<bool> = effects
        .iter()
        .filter_map(|e| match e {
            Effect::StoreToken { token, .. } => Some(token.metadata.is_some()),
            _ => None,
        })
        .collect();
    assert_eq!(metas, vec![true, false, false]);
}

#[test]
fn transfer_moves_owner() {
    let line = r#"EVENT_JSON:{"standard":"nep171","version":"1.0.0","event":"nft_transfer","data":[{"old_owner_id":"a","new_owner_id":"b","token_ids":["t"],"authorized_id":"x","memo":null}]}"#;
    let o = outcome(NFT, ExecutionOutcomeStatus::SuccessValue, vec![call(obj(vec![]))], vec![line]);
    let effects = process_execution_outcome(&watched(), &o);
    assert_eq!(effects.len(), 1);
    match &effects[0] {
        Effect::MoveOwner { contract_id, token_id, address, old_owner_id, new_owner_id } => {
            assert_eq!(contract_id, NFT);
            assert_eq!(token_id, "t");
            assert_eq!(address, &token_hash(NFT, "t"));
            assert_eq!(old_owner_id, "a");
            assert_eq!(new_owner_id, "b");
        }
        other => panic!("unexpected {:?}", other),
    }
    assert!(effects[0].follow_up().is_none());
}

#[test]
fn ft_transfer_notifies_and_ft_mint_is_ignored() {
    let t = r#"EVENT_JSON:{"standard":"nep141","version":"1.0.0","event":"ft_transfer","data":[{"old_owner_id":"a","new_owner_id":"b","amount":"7"}]}"#;
    let m = r#"EVENT_JSON:{"standard":"nep141","version":"1.0.0","event":"ft_mint","data":[{"owner_id":"a","amount":"7"}]}"#;
    let o = outcome("ftcontract.test.near", ExecutionOutcomeStatus::SuccessValue, vec![call(obj(vec![]))], vec![m, t]);
    let effects = process_execution_outcome(&watched(), &o);
    assert_eq!(effects.len(), 1);
    match &effects[0] {
        Effect::NotifyFtTransfer { from_wallet_id, to_wallet_id, amount, voucher_id } => {
            assert_eq!(from_wallet_id, "a");
            assert_eq!(to_wallet_id, "b");
            assert_eq!(amount, "7");
            assert_eq!(voucher_id, &None);
        }
        other => panic!("unexpected {:?}", other),
    }
}

#[test]
fn burn_is_logged_only() {
    let b = r#"EVENT_JSON:{"standard":"nep171","version":"1.0.0","event":"nft_burn","data":[{"owner_id":"a","token_ids":["x","y"]}]}"#;
    let o = outcome(NFT, ExecutionOutcomeStatus::SuccessValue, vec![call(obj(vec![]))], vec![b]);
    let effects = process_execution_outcome(&watched(), &o);
    assert_eq!(effects.len(), 1);
    match &effects[0] {
        Effect::LogBurn { token_ids } => assert_eq!(token_ids, &vec!["x".to_string(), "y".to_string()]),
        other => panic!("unexpected {:?}", other),
    }
}

#[test]
fn unwatched_executor_gives_no_effect() {
    let o = outcome("someone.near", ExecutionOutcomeStatus::SuccessValue, vec![call(mint_args(&["m"]))], vec![MINT_W1]);
    assert!(process_execution_outcome(&watched(), &o).is_empty());
    assert!(!is_watched(&watched(), "someone.near"));
    assert!(is_watched(&watched(), NFT));
}

#[test]
fn failed_outcome_and_other_actions_give_no_effect() {
    let failed = outcome(NFT, ExecutionOutcomeStatus::Failure, vec![call(mint_args(&[]))], vec![MINT_W1]);
    assert!(process_execution_outcome(&watched(), &failed).is_empty());
    let transfer = Action { kind: ActionKind::Transfer, args: Json::Null };
    assert!(get_arg_from_function_call(&transfer).is_none());
    let other = outcome(NFT, ExecutionOutcomeStatus::SuccessValue, vec![transfer], vec![MINT_W1]);
    assert!(process_execution_outcome(&watched(), &other).is_empty());
    let data = ExecutionOutcome {
        executor_id: NFT.to_string(),
        receiver_id: NFT.to_string(),
        status: ExecutionOutcomeStatus::SuccessValue,
        receipt: Receipt::Data,
        logs: vec![MINT_W1.to_string()],
    };
    assert!(process_execution_outcome(&watched(), &data).is_empty());
}

#[test]
fn each_function_call_routes_the_events_again() {
    let o = outcome(NFT, ExecutionOutcomeStatus::SuccessValue, vec![call(obj(vec![])), call(obj(vec![]))], vec![MINT_W1]);
    assert_eq!(process_execution_outcome(&watched(), &o).len(), 8);
}

#[test]
fn token_args_follow_the_call_shape() {
    assert_eq!(get_token_args(&mint_args(&["a", "b"])).len(), 2);
    assert!(get_token_args(&Json::Null).is_empty());
    let no_list = obj(vec![("args_json", obj(vec![("tokens_to_mint", s("x"))]))]);
    assert!(get_token_args(&no_list).is_empty());
    let bare = obj(vec![("args_json", obj(vec![("tokens_to_mint", Json::Array(vec![obj(vec![])]))]))]);
    let args = get_token_args(&bare);
    assert_eq!(args.len(), 1);
    assert!(args[0].token_metadata.is_none());
}

#[test]
fn metadata_reads_strings_and_nulls() {
    let j = obj(vec![("title", s("T")), ("media", Json::Null), ("game_id", s("g"))]);
    let m = TokenMetadata::from_json(Some(&j)).unwrap();
    assert_eq!(m.title, Some("T".to_string()));
    assert_eq!(m.media, None);
    assert_eq!(m.game_id, Some("g".to_string()));
    let bad = obj(vec![("title", Json::Number("3".to_string()))]);
    assert!(TokenMetadata::from_json(Some(&bad)).is_none());
    assert!(TokenMetadata::from_json(Some(&s("x"))).is_none());
    assert!(TokenMetadata::from_json(None).is_none());
}

#[test]
fn json_get_finds_first_member() {
    let j = obj(vec![("a", s("1")), ("b", s("2")), ("a", s("3"))]);
    assert!(matches!(j.get("a"), Some(Json::Str(v)) if v == "1"));
    assert!(matches!(j.get("b"), Some(Json::Str(v)) if v == "2"));
    assert!(j.get("c").is_none());
    assert!(s("x").get("a").is_none());
}
