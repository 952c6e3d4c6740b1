//! The rewrite that binds stage calls to the caller's context.
use vstd::prelude::*;

use crate::typescript::{bind_stage_calls, stage_callee, ExprShape, Rewrite};

verus! {

/// Binds every call of a stage to the caller's `this`.
pub struct CallFunctionWithContextTransformer;

impl CallFunctionWithContextTransformer {
    /// What becomes of an expression: a call of a stage by name is bound to
    /// the caller's context, and nothing else changes.
    pub fn rewrite(&self, shape: &ExprShape) -> (r: Rewrite)
        ensures
            stage_callee(shape) matches Some(n) ==> (r matches Rewrite::BindContext(m) && m@ == n),
            stage_callee(shape) is None ==> r == Rewrite::Keep,
    {
        bind_stage_calls(shape)
    }
}

} // verus!
