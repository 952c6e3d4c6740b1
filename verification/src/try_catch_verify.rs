//! Turning a JavaScript exception caught while a stage ran into an error.
use vstd::prelude::*;

verus! {

/// Reports whether a run threw.
pub trait TryCatchVerify {
    fn verify(&mut self) -> Result<(), String>;
}

/// How a run of JavaScript went, as the catcher saw it.
pub enum TryOutcome {
    /// Nothing was thrown.
    Clean,
    /// An exception was thrown, with this text.
    Threw(String),
}

impl TryCatchVerify for TryOutcome {
    /// A thrown exception becomes the error, with its text.
    fn verify(&mut self) -> (r: Result<(), String>)
        ensures
            *final(self) == *old(self),
            *old(self) matches TryOutcome::Clean ==> r is Ok,
            *old(self) matches TryOutcome::Threw(m) ==> (r matches Err(e) && e@ == m@),
    {
        match self {
            TryOutcome::Clean => Ok(()),
            TryOutcome::Threw(m) => Err(m.clone()),
        }
    }
}

} // verus!
