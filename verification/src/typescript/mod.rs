//! Preparing a TypeScript upload for the engine: finding its entry module,
//! and the rewrites that the engine's calling conventions need.
pub mod call_function_with_context_transformer;
pub mod query_engine_transformer;
pub mod ts_transpiler;

use vstd::prelude::*;

verus! {

/// What a rewrite needs to know of an expression.
pub enum ExprShape {
    /// A call whose callee is an expression: the callee's name when it is a
    /// plain identifier.
    Call(Option<String>),
    /// An arrow function, and whether its body is a block.
    Arrow(bool),
    /// Anything else.
    Other,
}

/// What becomes of an expression.
#[derive(Debug, PartialEq, Eq)]
pub enum Rewrite {
    /// `name(args)` becomes `name.call(this, args)`: the stage runs on the
    /// caller's `this`.
    BindContext(String),
    /// The arrow becomes a function expression; `true` when its expression
    /// body must be wrapped in a `return`.
    ArrowToFunction(bool),
    /// The expression stays.
    Keep,
}

/// Stage functions are the names that start with `$`.
pub open spec fn is_stage_name(name: Seq<char>) -> bool {
    name.len() > 0 && name[0] == '$'
}

/// The name of the stage that the expression calls, if it is such a call.
pub open spec fn stage_callee(shape: &ExprShape) -> Option<Seq<char>> {
    match shape {
        ExprShape::Call(Some(n)) => if is_stage_name(n@) {
            Some(n@)
        } else {
            None
        },
        _ => None,
    }
}

/// Whether a callee's name is a stage's.
pub fn is_stage_call(name: &str) -> (b: bool)
    ensures
        b == is_stage_name(name@),
        b <==> (name@.len() > 0 && name@[0] == '$'),
{
    name.unicode_len() > 0 && name.get_char(0) == '$'
}

/// Every name that begins with `$`, whatever follows, is a stage's.
pub proof fn law_dollar_names_are_stages(rest: Seq<char>)
    ensures
        is_stage_name(seq!['$'] + rest),
{
    assert((seq!['$'] + rest)[0] == '$');
}

/// No name that is empty or begins with anything but `$` is a stage's.
pub proof fn law_other_names_are_not_stages(name: Seq<char>)
    requires
        name.len() == 0 || name[0] != '$',
    ensures
        !is_stage_name(name),
{
}

/// A call of a stage by name is bound to the caller's context.
pub fn bind_stage_calls(shape: &ExprShape) -> (r: Rewrite)
    ensures
        stage_callee(shape) matches Some(n) ==> (r matches Rewrite::BindContext(m) && m@ == n),
        stage_callee(shape) is None ==> r == Rewrite::Keep,
{
    match shape {
        ExprShape::Call(Some(n)) => {
            if is_stage_call(n.as_str()) {
                Rewrite::BindContext(n.clone())
            } else {
                Rewrite::Keep
            }
        },
        _ => Rewrite::Keep,
    }
}

} // verus!
