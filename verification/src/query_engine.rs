//! A query engine: a worker that holds a compiled script and answers calls of
//! its functions. The worker itself runs JavaScript and lives with the
//! program; here are the engine handle, the way a call reaches the worker and
//! comes back, and the rules by which arguments are typed and outcomes
//! reported.
use std::collections::HashMap;
use std::sync::mpsc::{Receiver, Sender};
use vstd::prelude::*;

verus! {

#[verifier::external_type_specification]
#[verifier::external_body]
#[verifier::reject_recursive_types(T)]
pub struct ExSender<T>(Sender<T>);

#[verifier::external_type_specification]
#[verifier::external_body]
#[verifier::reject_recursive_types(T)]
pub struct ExReceiver<T>(Receiver<T>);

/// Why a call failed.
#[derive(Clone, Copy, Debug, PartialEq, Eq, Structural)]
pub enum QueryEngineError {
    Generic,
    NotFound,
}

/// What a call of the engine gives back: the JSON text of the result, or
/// the kind of failure and its message.
pub type CallResult = Result<String, (QueryEngineError, String)>;

/// One call handed to the worker: the function's name, its arguments by
/// name, and where the answer goes.
pub struct QueryEngineCall {
    pub name: String,
    pub args: HashMap<String, String>,
    pub result: Sender<CallResult>,
}

/// A handle on a running engine: its script, and the way to its worker.
pub struct QueryEngine {
    pub code: String,
    sender: Sender<QueryEngineCall>,
}

impl QueryEngine {
    /// The way to the engine's worker. Handles with the same worker reach
    /// one running script, and share its state.
    pub closed spec fn worker(&self) -> Sender<QueryEngineCall> {
        self.sender
    }
}

/// The way to an engine's worker.
pub(crate) fn sender_of(e: &QueryEngine) -> (s: &Sender<QueryEngineCall>)
    ensures
        *s == e.worker(),
{
    &e.sender
}

impl View for QueryEngine {
    /// The engine's script.
    type V = Seq<char>;

    closed spec fn view(&self) -> Seq<char> {
        self.code@
    }
}

/// `std::sync::mpsc::channel`: a fresh channel, as its two ends.
#[verifier::external_body]
pub(crate) fn channel<T>() -> (ends: (Sender<T>, Receiver<T>)) {
    std::sync::mpsc::channel::<T>()
}

/// The receiving end of the channel whose sending end is `s`.
pub uninterp spec fn receiver_of(s: Sender<QueryEngineCall>) -> Receiver<QueryEngineCall>;

/// `std::sync::mpsc::channel`, for a worker: the two ends belong to one
/// channel, and the new channel is a channel of its own, so its sender is
/// none of `existing`, senders of channels made before it.
#[verifier::external_body]
pub(crate) fn channel_apart(existing: &[&Sender<QueryEngineCall>]) -> (ends: (
    Sender<QueryEngineCall>,
    Receiver<QueryEngineCall>,
))
    ensures
        ends.1 == receiver_of(ends.0),
        forall|i: int| 0 <= i < existing@.len() ==> ends.0 != *existing@[i],
{
    std::sync::mpsc::channel::<QueryEngineCall>()
}

/// The call to hand to the worker: `name` with `args`, answered on `result`.
pub fn request(name: String, args: HashMap<String, String>, result: Sender<CallResult>) -> (c:
    QueryEngineCall)
    ensures
        c.name@ == name@,
        c.args@ == args@,
        c.result == result,
{
    QueryEngineCall { name, args, result }
}

/// `Sender::send`: hands the call to the worker. It fails, with the error's
/// text, when the worker's end has gone; whether it has is up to the other
/// thread, so nothing is claimed of the outcome.
#[verifier::external_body]
fn send_call(sender: &Sender<QueryEngineCall>, call: QueryEngineCall) -> (r: Result<(), String>) {
    match sender.send(call) {
        Ok(()) => Ok(()),
        Err(e) => Err(e.to_string()),
    }
}

/// `Receiver::recv`: waits for the worker's answer. It fails, with the
/// error's text, when the worker drops its end without answering; what comes
/// back is up to the worker, so nothing is claimed of it.
#[verifier::external_body]
fn receive(receiver: &Receiver<CallResult>) -> (r: Result<CallResult, String>) {
    match receiver.recv() {
        Ok(answer) => Ok(answer),
        Err(e) => Err(e.to_string()),
    }
}

/// `Sender::clone`: another handle on the same channel. A sender stands
/// for its channel, so the clone is the same sender.
#[verifier::external_body]
fn clone_sender(sender: &Sender<QueryEngineCall>) -> (r: Sender<QueryEngineCall>)
    ensures
        r == *sender,
{
    sender.clone()
}

/// The result of a call from how its two exchanges went: a failed send, or a
/// failed wait, is a generic failure with the channel's message; otherwise
/// the worker's answer stands.
pub open spec fn settled(sent: Result<(), String>, received: Result<CallResult, String>) -> CallResult {
    match sent {
        Err(m) => Err((QueryEngineError::Generic, m)),
        Ok(_) => match received {
            Err(m) => Err((QueryEngineError::Generic, m)),
            Ok(answer) => answer,
        },
    }
}

/// Once the call is sent and an answer comes back, the answer is the
/// result, unchanged, whatever it is.
pub proof fn law_answer_stands(answer: CallResult)
    ensures
        settled(Ok(()), Ok(answer)) == answer,
{
}

/// A channel failure on either exchange is a generic failure carrying the
/// channel's message.
pub proof fn law_channel_failure_is_generic(m: String, answer: Result<CallResult, String>)
    ensures
        settled(Err(m), answer) == Err::<String, (QueryEngineError, String)>(
            (QueryEngineError::Generic, m),
        ),
        settled(Ok(()), Err(m)) == Err::<String, (QueryEngineError, String)>(
            (QueryEngineError::Generic, m),
        ),
{
}

/// Settles a call from how its two exchanges went.
pub fn settle(sent: Result<(), String>, received: Result<CallResult, String>) -> (r: CallResult)
    ensures
        r == settled(sent, received),
        sent matches Err(m) ==> r == Err::<String, (QueryEngineError, String)>(
            (QueryEngineError::Generic, m),
        ),
        sent is Ok ==> (received matches Err(m) ==> r == Err::<String, (QueryEngineError, String)>(
            (QueryEngineError::Generic, m),
        )),
        sent is Ok ==> (received matches Ok(answer) ==> r == answer),
{
    match sent {
        Err(m) => Err((QueryEngineError::Generic, m)),
        Ok(_) => match received {
            Err(m) => Err((QueryEngineError::Generic, m)),
            Ok(answer) => answer,
        },
    }
}

impl QueryEngine {
    /// The handle on an engine whose worker, started on `code`, listens on
    /// the other end of `sender`.
    pub fn new(code: String, sender: Sender<QueryEngineCall>) -> (e: Self)
        ensures
            e@ == code@,
            e.worker() == sender,
    {
        QueryEngine { code, sender }
    }

    /// Calls the script's function `name` with `args`, and waits for the
    /// answer. The call handed to the worker is `request(name, args, ..)`;
    /// whether the worker takes it, and what it answers, is up to the
    /// worker's thread, so the result is `settle` of those two exchanges and
    /// nothing more can be said of it.
    pub fn call(self, name: String, args: HashMap<String, String>) -> (r: CallResult) {
        let (result, receiver) = channel::<CallResult>();
        let sent = send_call(&self.sender, request(name, args, result));
        match sent {
            Err(m) => settle(Err(m), Err(String::new())),
            Ok(()) => {
                let received = receive(&receiver);
                settle(Ok(()), received)
            },
        }
    }
}

impl Clone for QueryEngine {
    /// Another handle on the same engine.
    fn clone(&self) -> (r: Self)
        ensures
            r@ == self@,
            r.worker() == self.worker(),
    {
        QueryEngine { code: self.code.clone(), sender: clone_sender(&self.sender) }
    }
}

/// Whether every character of the text is a decimal digit.
pub open spec fn all_digits(s: Seq<char>) -> bool {
    forall|i: int| 0 <= i < s.len() ==> '0' <= #[trigger] s[i] <= '9'
}

/// The number that a run of decimal digits writes.
pub open spec fn digits_value(s: Seq<char>) -> int
    decreases s.len(),
{
    if s.len() == 0 {
        0
    } else {
        digits_value(s.drop_last()) * 10 + (s.last() as int - '0' as int)
    }
}

/// The text as `i32`'s `from_str` reads it: an optional `+` or `-` sign
/// followed by one or more decimal digits, whose value fits in an `i32`;
/// anything else is no `i32`.
pub open spec fn i32_text(s: Seq<char>) -> Option<i32> {
    let signed = s.len() > 0 && (s[0] == '-' || s[0] == '+');
    let body = if signed {
        s.drop_first()
    } else {
        s
    };
    let v = if signed && s[0] == '-' {
        -digits_value(body)
    } else {
        digits_value(body)
    };
    if body.len() > 0 && all_digits(body) && i32::MIN <= v <= i32::MAX {
        Some(v as i32)
    } else {
        None
    }
}

/// The text as `str::to_lowercase` lowercases it.
pub uninterp spec fn spec_to_lowercase(s: Seq<char>) -> Seq<char>;

/// `str::parse::<i32>`: an optional sign and decimal digits, in range, read
/// as their value; any other text fails.
#[verifier::external_body]
fn parse_i32(s: &str) -> (r: Option<i32>)
    ensures
        r == i32_text(s@),
{
    s.parse::<i32>().ok()
}

/// `str::to_lowercase`; its result is named by `spec_to_lowercase`.
#[verifier::external_body]
fn to_lowercase(s: &str) -> (r: String)
    ensures
        r@ == spec_to_lowercase(s@),
{
    s.to_lowercase()
}

/// The JavaScript value that a call argument, given as text, becomes.
#[derive(Debug, PartialEq, Eq)]
pub enum ArgumentValue {
    /// A number, written as this text; the number itself is made where
    /// floating point is at hand.
    Number(String),
    Integer(i32),
    Boolean(bool),
    Text(String),
}

/// Types a call argument: a number if it reads as one (`is_number`, which
/// the caller finds with the floating-point parser), then an integer, then
/// `true` or `false` in any case, and otherwise the text itself.
pub fn parse(input: &String, is_number: bool) -> (v: ArgumentValue)
    ensures
        is_number ==> (v matches ArgumentValue::Number(t) && t@ == input@),
        !is_number && i32_text(input@) is Some ==> v
            == ArgumentValue::Integer(i32_text(input@)->0),
        !is_number && i32_text(input@) is None ==> {
            if spec_to_lowercase(input@) == "true"@ {
                v == ArgumentValue::Boolean(true)
            } else if spec_to_lowercase(input@) == "false"@ {
                v == ArgumentValue::Boolean(false)
            } else {
                (v matches ArgumentValue::Text(t) && t@ == input@)
            }
        },
{
    if is_number {
        return ArgumentValue::Number(input.clone());
    }
    if let Some(val) = parse_i32(input.as_str()) {
        return ArgumentValue::Integer(val);
    }
    let lower = to_lowercase(input.as_str());
    let t = String::from_str("true");
    let f = String::from_str("false");
    if lower == t {
        ArgumentValue::Boolean(true)
    } else if lower == f {
        ArgumentValue::Boolean(false)
    } else {
        ArgumentValue::Text(input.clone())
    }
}

/// What became of a thrown exception.
pub enum Thrown {
    /// No exception could be had.
    Missing,
    /// It could not be turned into a string.
    Unreadable,
    /// Its text.
    Message(String),
}

/// How a run of a script function ended.
pub enum ScriptOutcome {
    /// It returned; the output array as JSON text, or `None` when it could
    /// not be turned into JSON.
    Returned(Option<String>),
    /// It threw.
    Threw(Thrown),
}

/// The text `prefix` followed by `name`.
fn message(prefix: &str, name: &str) -> (m: String)
    ensures
        m@ == prefix@ + name@,
{
    String::from_str(prefix).concat(name)
}

/// The reply to a call of `name` from how the function's run ended.
pub fn call_result(name: &str, outcome: ScriptOutcome) -> (r: CallResult)
    ensures
        outcome matches ScriptOutcome::Returned(Some(json)) ==> (r matches Ok(t) && t@ == json@),
        outcome is Returned && outcome->Returned_0 is None ==> (r matches Err((k, m)) && k
            == QueryEngineError::Generic && m@ == "can't stringify out in "@ + name@),
        outcome matches ScriptOutcome::Threw(Thrown::Missing) ==> (r matches Err((k, m)) && k
            == QueryEngineError::Generic && m@ == "can't get exception in "@ + name@),
        outcome matches ScriptOutcome::Threw(Thrown::Unreadable) ==> (r matches Err((k, m))
            && k == QueryEngineError::Generic && m@ == "can't convert exception to string in "@
            + name@),
        outcome matches ScriptOutcome::Threw(Thrown::Message(e)) ==> (r matches Err((k, m))
            && k == QueryEngineError::Generic && m@ == "Error -> "@ + e@),
{
    match outcome {
        ScriptOutcome::Returned(Some(json)) => Ok(json),
        ScriptOutcome::Returned(None) => Err(
            (QueryEngineError::Generic, message("can't stringify out in ", name)),
        ),
        ScriptOutcome::Threw(Thrown::Missing) => Err(
            (QueryEngineError::Generic, message("can't get exception in ", name)),
        ),
        ScriptOutcome::Threw(Thrown::Unreadable) => Err(
            (QueryEngineError::Generic, message("can't convert exception to string in ", name)),
        ),
        ScriptOutcome::Threw(Thrown::Message(e)) => Err(
            (QueryEngineError::Generic, message("Error -> ", e.as_str())),
        ),
    }
}

/// What looking up the called function in the script gave.
pub enum FunctionLookup<T> {
    /// The function's name could not be made a JavaScript string.
    NameUnmade,
    /// The script has no property of that name (it is `undefined`).
    Missing,
    /// The property is not a function; the conversion's message.
    NotFunction(String),
    /// The function.
    Found(T),
}

/// The function to call for `name`, or the not-found failure: every way the
/// lookup can fail is reported as `NotFound`, with its message.
pub fn function_for_call<T>(name: &str, lookup: FunctionLookup<T>) -> (r: Result<
    T,
    (QueryEngineError, String),
>)
    ensures
        lookup matches FunctionLookup::Found(f) ==> r == Ok::<T, (QueryEngineError, String)>(f),
        lookup is NameUnmade ==> (r matches Err((k, m)) && k == QueryEngineError::NotFound && m@
            == "can't create string "@ + name@),
        lookup is Missing ==> (r matches Err((k, m)) && k == QueryEngineError::NotFound && m@
            == "could not find function "@ + name@),
        lookup matches FunctionLookup::NotFunction(e) ==> (r matches Err((k, m)) && k
            == QueryEngineError::NotFound && m@ == e@),
{
    match lookup {
        FunctionLookup::Found(f) => Ok(f),
        FunctionLookup::NameUnmade => Err(
            (QueryEngineError::NotFound, message("can't create string ", name)),
        ),
        FunctionLookup::Missing => Err(
            (QueryEngineError::NotFound, message("could not find function ", name)),
        ),
        FunctionLookup::NotFunction(e) => Err((QueryEngineError::NotFound, e)),
    }
}

/// The failure when an argument's name cannot be made a JavaScript string.
pub fn argument_error(name: &str) -> (r: (QueryEngineError, String))
    ensures
        r.0 == QueryEngineError::Generic,
        r.1@ == "can't create argument in "@ + name@,
{
    (QueryEngineError::Generic, message("can't create argument in ", name))
}

} // verus!
