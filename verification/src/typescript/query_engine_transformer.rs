//! The rewrite that prepares a module for the engine: stage calls bound to
//! the caller's context, and arrow functions turned into function
//! expressions, so that a stage's callback sees the `this` it is called with.
use vstd::prelude::*;

use crate::typescript::{bind_stage_calls, stage_callee, ExprShape, Rewrite};

verus! {

/// Rewrites a module for the engine.
pub struct QueryEngineTransformer;

impl QueryEngineTransformer {
    /// What becomes of an expression: a call of a stage by name is bound to
    /// the caller's context; an arrow becomes a function expression, its
    /// body wrapped in a `return` unless it is a block.
    pub fn rewrite(&self, shape: &ExprShape) -> (r: Rewrite)
        ensures
            stage_callee(shape) matches Some(n) ==> (r matches Rewrite::BindContext(m) && m@ == n),
            (shape is Call && stage_callee(shape) is None) ==> r == Rewrite::Keep,
            shape matches ExprShape::Arrow(block) ==> r == Rewrite::ArrowToFunction(!*block),
            shape matches ExprShape::Other ==> r == Rewrite::Keep,
    {
        match shape {
            ExprShape::Arrow(block) => Rewrite::ArrowToFunction(!*block),
            _ => bind_stage_calls(shape),
        }
    }
}

} // verus!
