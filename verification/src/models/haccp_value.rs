use vstd::prelude::*;

verus! {

/// A food-safety note on a step. A step is meant to carry a control point or
/// a critical control point, not both; nothing here enforces it.
#[derive(Clone, Debug, PartialEq)]
pub struct HACCPValue {
    /// The HACCP guidelines that bear on the step.
    pub control_point: String,
    /// Those on which the safety of the dish depends, such as the inner
    /// temperature that the food must reach.
    pub critical_control_point: String,
}

/// What a `HACCPValue` holds.
pub struct HACCPValueView {
    pub control_point: Seq<char>,
    pub critical_control_point: Seq<char>,
}

impl HACCPValueView {
    /// Two empty notes.
    pub open spec fn empty() -> HACCPValueView {
        HACCPValueView { control_point: Seq::empty(), critical_control_point: Seq::empty() }
    }

    /// Whether the note carries both a control point and a critical control
    /// point, which it is not meant to.
    pub open spec fn carries_both(self) -> bool {
        self.control_point.len() > 0 && self.critical_control_point.len() > 0
    }
}

impl View for HACCPValue {
    type V = HACCPValueView;

    open spec fn view(&self) -> HACCPValueView {
        HACCPValueView {
            control_point: self.control_point@,
            critical_control_point: self.critical_control_point@,
        }
    }
}

impl DeepView for HACCPValue {
    type V = HACCPValueView;

    open spec fn deep_view(&self) -> HACCPValueView {
        self@
    }
}

impl HACCPValue {
    /// Whether the note carries both a control point and a critical control
    /// point. Such a note is stored and read like any other; it is for the
    /// caller to turn it away.
    pub fn carries_both(&self) -> (both: bool)
        ensures
            both == self@.carries_both(),
    {
        !self.control_point.as_str().is_empty() && !self.critical_control_point.as_str().is_empty()
    }
}

} // verus!
