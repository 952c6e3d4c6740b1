//! The two engine slots: production, which answers queries, and canary, which
//! runs the newest script until it is promoted. A new script always goes to
//! the canary; it replaces the production engine only where one is running.
use std::sync::mpsc::{Receiver, Sender};
use vstd::prelude::*;

use crate::query_engine::{channel_apart, receiver_of, sender_of, QueryEngine, QueryEngineCall};

verus! {

/// One of the two slots.
#[derive(Clone, Copy, Debug, PartialEq, Eq, Structural)]
pub enum Slot {
    Production,
    Canary,
}

/// A script to be stored for a slot, so that the slot comes back with it.
pub struct ScriptSave {
    pub slot: Slot,
    pub code: String,
}

/// The engines in the two slots.
pub struct EngineSlots {
    production: Option<QueryEngine>,
    canary: Option<QueryEngine>,
}

/// The scripts of the engines in the slots: production first, then canary.
pub type SlotsView = (Option<Seq<char>>, Option<Seq<char>>);

/// The script of an engine in a slot, if there is one.
pub open spec fn script_of(e: Option<QueryEngine>) -> Option<Seq<char>> {
    match e {
        Some(e) => Some(e@),
        None => None,
    }
}

impl EngineSlots {
    /// The engines in the slots: production first, then canary.
    pub closed spec fn engines(&self) -> (Option<QueryEngine>, Option<QueryEngine>) {
        (self.production, self.canary)
    }
}

impl View for EngineSlots {
    type V = SlotsView;

    closed spec fn view(&self) -> SlotsView {
        (script_of(self.production), script_of(self.canary))
    }
}

/// The slots after a refresh with `code`: the canary runs it, and so does
/// production if it was running.
pub open spec fn refreshed(v: SlotsView, code: Seq<char>) -> SlotsView {
    (if v.0 is Some {
        Some(code)
    } else {
        None
    }, Some(code))
}

/// The slots after a promotion: a canary engine moves into production and
/// leaves its slot empty; with no canary nothing changes.
pub open spec fn promoted(v: SlotsView) -> SlotsView {
    if v.1 is Some {
        (v.1, None)
    } else {
        v
    }
}

/// `start` has run the worker of engine `e`: on a script with `e`'s text,
/// listening on the receiving end of `e`'s channel.
pub open spec fn runs<F: Fn(String, Receiver<QueryEngineCall>)>(start: F, e: QueryEngine) -> bool {
    exists|c: String| c@ == e@ && #[trigger] start.ensures((c, receiver_of(e.worker())), ())
}

/// A slot's script is that of the engine it holds.
pub proof fn lemma_view_engines(slots: &EngineSlots)
    ensures
        slots@ == (script_of(slots.engines().0), script_of(slots.engines().1)),
{
}

/// Starts an engine on `code` that listens on the channel `ends`: `start`
/// runs its worker on the channel's receiving end.
fn start_engine<F: Fn(String, Receiver<QueryEngineCall>)>(
    code: &String,
    ends: (Sender<QueryEngineCall>, Receiver<QueryEngineCall>),
    start: &F,
) -> (e: QueryEngine)
    requires
        forall|c: String, r: Receiver<QueryEngineCall>| start.requires((c, r)),
        ends.1 == receiver_of(ends.0),
    ensures
        e@ == code@,
        e.worker() == ends.0,
        runs(*start, e),
{
    let (sender, receiver) = ends;
    let c = code.clone();
    start(c, receiver);
    QueryEngine::new(code.clone(), sender)
}

impl EngineSlots {
    /// The slots at start-up: a slot whose script was stored runs an engine
    /// of its own on it, whose worker `start` runs; a slot with none stays
    /// empty.
    pub fn load<F: Fn(String, Receiver<QueryEngineCall>)>(
        production_script: Option<String>,
        canary_script: Option<String>,
        start: &F,
    ) -> (s: Self)
        requires
            forall|c: String, r: Receiver<QueryEngineCall>| start.requires((c, r)),
        ensures
            s@.0 == (match production_script {
                Some(c) => Some(c@),
                None => None::<Seq<char>>,
            }),
            s@.1 == (match canary_script {
                Some(c) => Some(c@),
                None => None::<Seq<char>>,
            }),
            s.engines().0 matches Some(e) ==> runs(*start, e),
            s.engines().1 matches Some(e) ==> runs(*start, e),
            (s.engines().0 is Some && s.engines().1 is Some) ==> s.engines().0->0.worker()
                != s.engines().1->0.worker(),
    {
        let production_ends = channel_apart(&[]);
        let mut existing: Vec<&Sender<QueryEngineCall>> = Vec::new();
        existing.push(&production_ends.0);
        let canary_ends = channel_apart(existing.as_slice());
        assert(existing@[0] == &production_ends.0);
        let production = match production_script {
            Some(code) => Some(start_engine(&code, production_ends, start)),
            None => None,
        };
        let canary = match canary_script {
            Some(code) => Some(start_engine(&code, canary_ends, start)),
            None => None,
        };
        EngineSlots { production, canary }
    }
}

/// Runs `code` in a new engine in the canary slot, and in another new engine
/// of its own in the production slot if that one is running; `start` runs
/// their workers. Gives back the scripts to be stored, in order: the
/// canary's, then production's if it was replaced.
pub fn refresh<F: Fn(String, Receiver<QueryEngineCall>)>(
    slots: &mut EngineSlots,
    code: String,
    start: &F,
) -> (saves: Vec<ScriptSave>)
    requires
        forall|c: String, r: Receiver<QueryEngineCall>| start.requires((c, r)),
    ensures
        final(slots)@ == refreshed(old(slots)@, code@),
        runs(*start, final(slots).engines().1->0),
        old(slots).engines().0 is Some ==> runs(*start, final(slots).engines().0->0),
        old(slots).engines().1 is Some ==> final(slots).engines().1->0.worker() != old(slots).engines().1->0.worker(),
        old(slots).engines().0 is Some ==> final(slots).engines().0->0.worker() != old(slots).engines().0->0.worker(),
        old(slots).engines().0 is Some ==> final(slots).engines().0->0.worker() != final(slots).engines().1->0.worker(),
        saves@.len() == (if old(slots)@.0 is Some {
            2int
        } else {
            1int
        }),
        saves@[0].slot == Slot::Canary,
        saves@[0].code@ == code@,
        old(slots)@.0 is Some ==> saves@[1].slot == Slot::Production && saves@[1].code@ == code@,
{
    let mut before_canary: Vec<&Sender<QueryEngineCall>> = Vec::new();
    if let Some(c) = &slots.canary {
        before_canary.push(sender_of(c));
    }
    let canary_ends = channel_apart(before_canary.as_slice());
    assert(old(slots).engines().1 is Some ==> canary_ends.0 != *before_canary@[0]);
    let ghost new_canary = canary_ends.0;
    let production_ends = match &slots.production {
        Some(p) => {
            let mut before_production: Vec<&Sender<QueryEngineCall>> = Vec::new();
            before_production.push(sender_of(p));
            before_production.push(&canary_ends.0);
            let ends = channel_apart(before_production.as_slice());
            assert(ends.0 != *before_production@[0]);
            assert(ends.0 != *before_production@[1]);
            Some(ends)
        },
        None => None,
    };
    assert(production_ends matches Some(e) ==> e.0 != new_canary && e.0 != old(
        slots).engines().0->0.worker());
    slots.canary = Some(start_engine(&code, canary_ends, start));
    let mut saves: Vec<ScriptSave> = Vec::new();
    saves.push(ScriptSave { slot: Slot::Canary, code: code.clone() });
    if let Some(ends) = production_ends {
        slots.production = Some(start_engine(&code, ends, start));
        saves.push(ScriptSave { slot: Slot::Production, code });
    }
    saves
}

/// The production engine, or the message that there is none.
pub fn production(slots: &EngineSlots) -> (r: Result<QueryEngine, String>)
    ensures
        slots@.0 is Some <==> r is Ok,
        r matches Ok(e) ==> Some(e@) == slots@.0 && e.worker() == slots.engines().0->0.worker(),
        r matches Err(m) ==> m@ == "QueryEngineProduction is missing"@,
{
    match &slots.production {
        Some(e) => Ok(e.clone()),
        None => Err(String::from_str("QueryEngineProduction is missing")),
    }
}

/// The canary engine, or the message that there is none.
pub fn canary(slots: &EngineSlots) -> (r: Result<QueryEngine, String>)
    ensures
        slots@.1 is Some <==> r is Ok,
        r matches Ok(e) ==> Some(e@) == slots@.1 && e.worker() == slots.engines().1->0.worker(),
        r matches Err(m) ==> m@ == "QueryEngineCanary is missing"@,
{
    match &slots.canary {
        Some(e) => Ok(e.clone()),
        None => Err(String::from_str("QueryEngineCanary is missing")),
    }
}

/// Moves the canary engine into production, leaving the canary slot empty;
/// with no canary engine nothing changes.
pub fn promote(slots: &mut EngineSlots)
    ensures
        final(slots)@ == promoted(old(slots)@),
        old(slots).engines().1 is Some ==> final(slots).engines() == (
            old(slots).engines().1,
            None::<QueryEngine>,
        ),
        old(slots).engines().1 is None ==> final(slots).engines() == old(slots).engines(),
{
    if let Some(query_engine) = slots.canary.take() {
        slots.production = Some(query_engine);
    }
}

/// A refresh followed by a promotion leaves production running the new
/// script and the canary slot empty, whatever the slots held before.
pub proof fn law_refresh_then_promote(v: SlotsView, code: Seq<char>)
    ensures
        promoted(refreshed(v, code)) == (Some(code), None::<Seq<char>>),
{
}

/// Promoting twice does what promoting once does.
pub proof fn law_promote_idempotent(v: SlotsView)
    ensures
        promoted(promoted(v)) == promoted(v),
{
}

/// Refreshing twice with the same script does what refreshing once does.
pub proof fn law_refresh_idempotent(v: SlotsView, code: Seq<char>)
    ensures
        refreshed(refreshed(v, code), code) == refreshed(v, code),
{
}

/// A refresh never starts a production engine where none ran, and never
/// stops one; the canary always runs the new script.
pub proof fn law_refresh_keeps_production_presence(v: SlotsView, code: Seq<char>)
    ensures
        refreshed(v, code).0 is Some <==> v.0 is Some,
        refreshed(v, code).1 == Some(code),
{
}

} // verus!
