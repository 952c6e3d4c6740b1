use std::collections::HashMap;
use std::sync::mpsc::{channel, Receiver, Sender};

use query_engine::http::{query_call, query_reply};
use query_engine::query_engine::{
    argument_error, call_result, function_for_call, parse, request, settle, ArgumentValue,
    FunctionLookup, QueryEngine, QueryEngineCall, QueryEngineError, ScriptOutcome, Thrown,
};
use query_engine::query_engine_manager::{
    canary, production, promote, refresh, EngineSlots, Slot,
};
use query_engine::try_catch_verify::{TryCatchVerify, TryOutcome};
use query_engine::utils::{get_function, name_error, out_array};

fn idle_worker(_code: String, _receiver: Receiver<QueryEngineCall>) {}

fn closed_sender() -> Sender<QueryEngineCall> {
    let (tx, _rx) = channel::<QueryEngineCall>();
    tx
}

#[test]
fn parse_types_arguments() {
    assert_eq!(parse(&"1.5".to_string(), true), ArgumentValue::Number("1.5".to_string()));
    assert_eq!(parse(&"42".to_string(), false), ArgumentValue::Integer(42));
    assert_eq!(parse(&"-7".to_string(), false), ArgumentValue::Integer(-7));
    assert_eq!(parse(&"TRUE".to_string(), false), ArgumentValue::Boolean(true));
    assert_eq!(parse(&"False".to_string(), false), ArgumentValue::Boolean(false));
    assert_eq!(parse(&"hello".to_string(), false), ArgumentValue::Text("hello".to_string()));
    assert_eq!(parse(&"99999999999".to_string(), false), ArgumentValue::Text("99999999999".to_string()));
}

#[test]
fn call_result_reports_each_outcome() {
    assert_eq!(
        call_result("q", ScriptOutcome::Returned(Some("[1]".to_string()))),
        Ok("[1]".to_string())
    );
    assert_eq!(
        call_result("q", ScriptOutcome::Returned(None)),
        Err((QueryEngineError::Generic, "can't stringify out in q".to_string()))
    );
    assert_eq!(
        call_result("q", ScriptOutcome::Threw(Thrown::Missing)),
        Err((QueryEngineError::Generic, "can't get exception in q".to_string()))
    );
    assert_eq!(
        call_result("q", ScriptOutcome::Threw(Thrown::Unreadable)),
        Err((QueryEngineError::Generic, "can't convert exception to string in q".to_string()))
    );
    assert_eq!(
        call_result("q", ScriptOutcome::Threw(Thrown::Message("boom".to_string()))),
        Err((QueryEngineError::Generic, "Error -> boom".to_string()))
    );
    assert_eq!(
        argument_error("q"),
        (QueryEngineError::Generic, "can't create argument in q".to_string())
    );
}

#[test]
fn settle_prefers_channel_failures() {
    assert_eq!(
        settle(Err("gone".to_string()), Ok(Ok("x".to_string()))),
        Err((QueryEngineError::Generic, "gone".to_string()))
    );
    assert_eq!(
        settle(Ok(()), Err("hung up".to_string())),
        Err((QueryEngineError::Generic, "hung up".to_string()))
    );
    assert_eq!(
        settle(Ok(()), Ok(Err((QueryEngineError::NotFound, "nf".to_string())))),
        Err((QueryEngineError::NotFound, "nf".to_string()))
    );
    assert_eq!(settle(Ok(()), Ok(Ok("x".to_string()))), Ok("x".to_string()));
}

#[test]
fn call_to_a_stopped_worker_fails_generically() {
    let engine = QueryEngine::new("code".to_string(), closed_sender());
    let r = engine.call("f".to_string(), HashMap::new());
    assert_eq!(r, Err((QueryEngineError::Generic, "sending on a closed channel".to_string())));
}

#[test]
fn engine_clone_keeps_script() {
    let engine = QueryEngine::new("abc".to_string(), closed_sender());
    assert_eq!(engine.clone().code, "abc");
}

#[test]
fn slots_start_from_stored_scripts() {
    let slots = EngineSlots::load(Some("p".to_string()), None, &idle_worker);
    assert_eq!(production(&slots).unwrap().code, "p");
    assert_eq!(canary(&slots).err(), Some("QueryEngineCanary is missing".to_string()));
    let empty = EngineSlots::load(None, None, &idle_worker);
    assert_eq!(production(&empty).err(), Some("QueryEngineProduction is missing".to_string()));
}

#[test]
fn refresh_without_production_only_runs_canary() {
    let mut slots = EngineSlots::load(None, None, &idle_worker);
    let saves = refresh(&mut slots, "new".to_string(), &idle_worker);
    assert_eq!(saves.len(), 1);
    assert_eq!(saves[0].slot, Slot::Canary);
    assert_eq!(saves[0].code, "new");
    assert_eq!(canary(&slots).unwrap().code, "new");
    assert!(production(&slots).is_err());
}

#[test]
fn refresh_with_production_replaces_both() {
    let mut slots = EngineSlots::load(Some("old".to_string()), Some("c".to_string()), &idle_worker);
    let saves = refresh(&mut slots, "new".to_string(), &idle_worker);
    assert_eq!(saves.len(), 2);
    assert_eq!((saves[0].slot, saves[0].code.as_str()), (Slot::Canary, "new"));
    assert_eq!((saves[1].slot, saves[1].code.as_str()), (Slot::Production, "new"));
    assert_eq!(production(&slots).unwrap().code, "new");
    assert_eq!(canary(&slots).unwrap().code, "new");
}

#[test]
fn promote_moves_canary_into_production() {
    let mut slots = EngineSlots::load(Some("old".to_string()), Some("c".to_string()), &idle_worker);
    promote(&mut slots);
    assert_eq!(production(&slots).unwrap().code, "c");
    assert!(canary(&slots).is_err());
    promote(&mut slots);
    assert_eq!(production(&slots).unwrap().code, "c");
    assert!(canary(&slots).is_err());
}

#[test]
fn refresh_then_promote_runs_new_script_in_production() {
    let mut slots = EngineSlots::load(None, None, &idle_worker);
    refresh(&mut slots, "v2".to_string(), &idle_worker);
    promote(&mut slots);
    assert_eq!(production(&slots).unwrap().code, "v2");
    assert!(canary(&slots).is_err());
}

#[test]
fn query_replies() {
    let ok = query_reply(Ok("[1]".to_string()));
    assert_eq!((ok.status, ok.json, ok.body.as_str()), (200, true, "[1]"));
    let gen = query_reply(Err((QueryEngineError::Generic, "bad".to_string())));
    assert_eq!((gen.status, gen.json, gen.body.as_str()), (500, false, "bad"));
    let nf = query_reply(Err((QueryEngineError::NotFound, "none".to_string())));
    assert_eq!((nf.status, nf.json, nf.body.as_str()), (404, false, "none"));
    let missing = query_call(Err("QueryEngineProduction is missing".to_string()), "f".to_string(), HashMap::new());
    assert_eq!((missing.status, missing.body.as_str()), (500, "QueryEngineProduction is missing"));
    let engine = QueryEngine::new("c".to_string(), closed_sender());
    let closed = query_call(Ok(engine), "f".to_string(), HashMap::new());
    assert_eq!((closed.status, closed.body.as_str()), (500, "sending on a closed channel"));
}

#[test]
fn try_outcome_verify() {
    let mut clean = TryOutcome::Clean;
    assert_eq!(clean.verify(), Ok(()));
    let mut threw = TryOutcome::Threw("oops".to_string());
    assert_eq!(threw.verify(), Err("oops".to_string()));
}

#[test]
fn stage_call_checks() {
    assert_eq!(out_array(Some(3u8)), Ok(3));
    assert_eq!(out_array::<u8>(None), Err("failed to found a context".to_string()));
    assert_eq!(get_function("main", Some(1u8)), Ok(1));
    assert_eq!(get_function::<u8>("main", None), Err("could not find function main".to_string()));
    assert_eq!(name_error("main"), "can't create string main");
}

#[test]
fn parse_reads_i32_text() {
    assert_eq!(parse(&"+5".to_string(), false), ArgumentValue::Integer(5));
    assert_eq!(parse(&"-2147483648".to_string(), false), ArgumentValue::Integer(-2147483648));
    assert_eq!(parse(&"2147483647".to_string(), false), ArgumentValue::Integer(2147483647));
    assert_eq!(parse(&"2147483648".to_string(), false), ArgumentValue::Text("2147483648".to_string()));
    assert_eq!(parse(&"-".to_string(), false), ArgumentValue::Text("-".to_string()));
    assert_eq!(parse(&" 1".to_string(), false), ArgumentValue::Text(" 1".to_string()));
}

#[test]
fn request_carries_name_and_args() {
    let mut args = HashMap::new();
    args.insert("a".to_string(), "1".to_string());
    let (tx, _rx) = channel();
    let c = request("q".to_string(), args.clone(), tx);
    assert_eq!(c.name, "q");
    assert_eq!(c.args, args);
}

#[test]
fn function_lookup_failures_are_not_found() {
    assert_eq!(function_for_call("q", FunctionLookup::Found(7u8)), Ok(7));
    assert_eq!(
        function_for_call::<u8>("q", FunctionLookup::Missing),
        Err((QueryEngineError::NotFound, "could not find function q".to_string()))
    );
    assert_eq!(
        function_for_call::<u8>("q", FunctionLookup::NameUnmade),
        Err((QueryEngineError::NotFound, "can't create string q".to_string()))
    );
    assert_eq!(
        function_for_call::<u8>("q", FunctionLookup::NotFunction("not a function".to_string())),
        Err((QueryEngineError::NotFound, "not a function".to_string()))
    );
}
