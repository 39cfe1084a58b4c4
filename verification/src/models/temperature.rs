use vstd::prelude::*;
use crate::models::temperature_unit::TemperatureUnit;
use crate::quantity::Quantity;

verus! {

/// A temperature: how much, and on which scale.
#[derive(Clone, Debug, PartialEq)]
pub struct Temperature {
    pub amount: Quantity,
    pub unit: TemperatureUnit,
}

/// What a `Temperature` holds.
pub struct TemperatureView {
    pub amount: Quantity,
    pub unit: TemperatureUnit,
}

impl TemperatureView {
    /// Zero degrees Celsius.
    pub open spec fn empty() -> TemperatureView {
        TemperatureView { amount: Quantity::zero_value(), unit: TemperatureUnit::Celsius }
    }
}

impl View for Temperature {
    type V = TemperatureView;

    open spec fn view(&self) -> TemperatureView {
        TemperatureView { amount: self.amount, unit: self.unit }
    }
}

impl DeepView for Temperature {
    type V = TemperatureView;

    open spec fn deep_view(&self) -> TemperatureView {
        self@
    }
}

impl Default for Temperature {
    fn default() -> (t: Temperature)
        ensures
            t@ == TemperatureView::empty(),
    {
        Temperature { amount: Quantity::zero(), unit: TemperatureUnit::Celsius }
    }
}

} // verus!
