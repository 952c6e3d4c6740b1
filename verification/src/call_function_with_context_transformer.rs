//! The folding form of the rewrite that binds stage calls to the caller's
//! context; it reads every callee as an identifier.
use vstd::prelude::*;

use crate::typescript::{is_stage_call, is_stage_name};

verus! {

/// Binds every call of a stage to the caller's `this`.
pub struct CallFunctionWithContextTransformer;

impl CallFunctionWithContextTransformer {
    /// Whether the call of `callee` is rewritten to `callee.call(this, ..)`:
    /// exactly when it names a stage.
    pub fn binds_context(&self, callee: &str) -> (b: bool)
        ensures
            b == is_stage_name(callee@),
    {
        is_stage_call(callee)
    }
}

} // verus!
