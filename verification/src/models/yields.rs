use vstd::prelude::*;
use vstd::string::StringExecFns;
use crate::quantity::Quantity;

verus! {

/// How much food a recipe makes: an amount and what it counts.
#[derive(Clone, Debug, PartialEq)]
pub struct Yield {
    /// The amount, in the unit below.
    pub amount: Quantity,
    /// Mostly "servings"; "packages", "cups", "glasses" and the like are
    /// as good.
    pub unit: String,
}

/// What a `Yield` holds.
pub struct YieldView {
    pub amount: Quantity,
    pub unit: Seq<char>,
}

impl YieldView {
    /// No amount of nothing.
    pub open spec fn empty() -> YieldView {
        YieldView { amount: Quantity::zero_value(), unit: Seq::empty() }
    }

    /// The yield that a new recipe starts with: no amount yet, counted in
    /// servings.
    pub open spec fn servings() -> YieldView {
        YieldView { amount: Quantity::zero_value(), unit: "servings"@ }
    }
}

impl View for Yield {
    type V = YieldView;

    open spec fn view(&self) -> YieldView {
        YieldView { amount: self.amount, unit: self.unit@ }
    }
}

impl DeepView for Yield {
    type V = YieldView;

    open spec fn deep_view(&self) -> YieldView {
        self@
    }
}

impl Yield {
    /// A yield of no amount yet, counted in servings.
    pub fn new() -> (y: Yield)
        ensures
            y@ == YieldView::servings(),
    {
        Yield { amount: Quantity::zero(), unit: String::from_str("servings") }
    }
}

impl Default for Yield {
    fn default() -> (y: Yield)
        ensures
            y@ == YieldView::empty(),
    {
        Yield { amount: Quantity::zero(), unit: String::new() }
    }
}

} // verus!
