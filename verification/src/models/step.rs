use vstd::prelude::*;
use crate::models::haccp_value::{HACCPValue, HACCPValueView};

verus! {

/// One step of a recipe.
#[derive(Clone, Debug, PartialEq)]
pub struct Step {
    /// What to do: the one thing a step cannot do without.
    pub step: String,
    /// The food-safety note on this step, if there is one.
    pub haccp: Option<HACCPValue>,
    /// Bench notes on this step.
    pub notes: Option<String>,
}

/// What a `Step` holds.
pub struct StepView {
    pub step: Seq<char>,
    pub haccp: Option<HACCPValueView>,
    pub notes: Option<Seq<char>>,
}

impl StepView {
    /// A step that says nothing.
    pub open spec fn empty() -> StepView {
        StepView { step: Seq::empty(), haccp: None, notes: None }
    }
}

impl View for Step {
    type V = StepView;

    open spec fn view(&self) -> StepView {
        StepView {
            step: self.step@,
            haccp: self.haccp.deep_view(),
            notes: self.notes.deep_view(),
        }
    }
}

impl DeepView for Step {
    type V = StepView;

    open spec fn deep_view(&self) -> StepView {
        self@
    }
}

impl Default for Step {
    fn default() -> (s: Step)
        ensures
            s@ == StepView::empty(),
    {
        Step { step: String::new(), haccp: None, notes: None }
    }
}

} // verus!
