//! The query engine: a JavaScript aggregation pipeline over stored collections,
//! with the decisions of its stages, its engine slots and its HTTP replies
//! stated and proved here.

pub mod js_array;
pub mod stages;
pub mod query_engine;
pub mod query_engine_manager;
pub mod repository;
pub mod http;
pub mod try_catch_verify;
pub mod utils;
pub mod call_function_with_context_transformer;
pub mod typescript;
