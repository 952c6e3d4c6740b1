use query_engine::call_function_with_context_transformer::CallFunctionWithContextTransformer as FoldBinder;
use query_engine::repository::{collection_key, collection_prefix, script_key};
use query_engine::query_engine_manager::Slot;
use query_engine::typescript::call_function_with_context_transformer::CallFunctionWithContextTransformer;
use query_engine::typescript::query_engine_transformer::QueryEngineTransformer;
use query_engine::typescript::ts_transpiler::{entry_file_name, is_entry, module_extension, EntrySearch};
use query_engine::typescript::{is_stage_call, ExprShape, Rewrite};

#[test]
fn stage_names_start_with_dollar() {
    assert!(is_stage_call("$filter"));
    assert!(!is_stage_call("filter"));
    assert!(!is_stage_call(""));
    assert!(FoldBinder.binds_context("$group"));
    assert!(!FoldBinder.binds_context("console"));
}

#[test]
fn context_transformer_binds_only_stage_calls() {
    let t = CallFunctionWithContextTransformer;
    assert_eq!(t.rewrite(&ExprShape::Call(Some("$filter".to_string()))), Rewrite::BindContext("$filter".to_string()));
    assert_eq!(t.rewrite(&ExprShape::Call(Some("map".to_string()))), Rewrite::Keep);
    assert_eq!(t.rewrite(&ExprShape::Call(None)), Rewrite::Keep);
    assert_eq!(t.rewrite(&ExprShape::Arrow(false)), Rewrite::Keep);
    assert_eq!(t.rewrite(&ExprShape::Other), Rewrite::Keep);
}

#[test]
fn engine_transformer_also_turns_arrows_into_functions() {
    let t = QueryEngineTransformer;
    assert_eq!(t.rewrite(&ExprShape::Call(Some("$sum".to_string()))), Rewrite::BindContext("$sum".to_string()));
    assert_eq!(t.rewrite(&ExprShape::Arrow(false)), Rewrite::ArrowToFunction(true));
    assert_eq!(t.rewrite(&ExprShape::Arrow(true)), Rewrite::ArrowToFunction(false));
    assert_eq!(t.rewrite(&ExprShape::Other), Rewrite::Keep);
}

#[test]
fn entry_names() {
    assert_eq!(entry_file_name("main"), "main.ts");
    assert!(is_entry("./src/main.ts", "main"));
    assert!(is_entry("main.ts", "main"));
    assert!(!is_entry("./src/xmain.ts", "main"));
    assert!(is_entry("project/main.ts", "main"));
    assert!(is_entry("a//main.ts", "main"));
    assert!(!is_entry("./src/other.ts", "main"));
    assert!(!is_entry("", "main"));
    assert!(!is_entry("xmain.ts", "main"));
    assert!(!is_entry("main.tsx", "main"));
}

#[test]
fn entry_found_at_top() {
    let mut s = EntrySearch::new();
    assert_eq!(s.pending(), Some(".".to_string()));
    s.feed(vec![("./a.ts".to_string(), false), ("./main.ts".to_string(), true), ("./z".to_string(), false)]);
    assert_eq!(s.pending(), None);
    assert_eq!(s.entry(), Some("./main.ts".to_string()));
    assert_eq!(s.root(), ".");
}

#[test]
fn entry_found_one_level_down() {
    let mut s = EntrySearch::new();
    s.feed(vec![("./README.md".to_string(), false), ("./project".to_string(), false)]);
    assert_eq!(s.pending(), Some("./project".to_string()));
    assert_eq!(s.root(), "./project");
    s.feed(vec![("./project/main.ts".to_string(), true)]);
    assert_eq!(s.entry(), Some("./project/main.ts".to_string()));
    assert_eq!(s.root(), "./project");
    assert_eq!(s.pending(), None);
}

#[test]
fn entry_search_gives_up_after_two_levels() {
    let mut s = EntrySearch::new();
    s.feed(vec![("./a".to_string(), false)]);
    s.feed(vec![("./a/b".to_string(), false)]);
    assert_eq!(s.pending(), None);
    assert_eq!(s.entry(), None);
    assert_eq!(s.root(), "./a/b");
    let mut empty = EntrySearch::new();
    empty.feed(vec![]);
    assert_eq!(empty.root(), ".");
    assert_eq!(empty.pending(), Some(".".to_string()));
}

#[test]
fn store_keys() {
    assert_eq!(collection_key("users", "42"), "collection:users:42");
    assert_eq!(collection_prefix("users"), "collection:users");
    assert!(collection_key("users", "42").starts_with(&collection_prefix("users")));
    assert_eq!(script_key(Slot::Production), "script");
    assert_eq!(script_key(Slot::Canary), "script:canary");
}

#[test]
fn imports_prefer_declaration_files() {
    assert_eq!(module_extension(true), "d.ts");
    assert_eq!(module_extension(false), "ts");
}
