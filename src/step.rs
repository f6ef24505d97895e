use vstd::prelude::*;

verus! {

/// How a step that the caller carried out ended.
#[derive(Clone, Debug)]
pub enum StepOutcome {
    Succeeded,
    /// The step failed, with the diagnostic text of the failure.
    Failed(String),
}

/// The failure text of an outcome; `None` for a success.
pub open spec fn failure_of(o: StepOutcome) -> Option<Seq<char>> {
    match o {
        StepOutcome::Succeeded => None,
        StepOutcome::Failed(m) => Some(m@),
    }
}

} // verus!
