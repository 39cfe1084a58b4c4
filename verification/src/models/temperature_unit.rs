use vstd::prelude::*;
use crate::text::{folded, folds_to, same_ignoring_case};

verus! {

/// The scale in which a temperature is given.
#[derive(Clone, Copy, Debug, PartialEq, Eq, Structural)]
pub enum TemperatureUnit {
    Celsius,
    Fahrenheit,
}

impl TemperatureUnit {
    /// The label under which a scale is written.
    pub open spec fn label_of(self) -> Seq<char> {
        match self {
            TemperatureUnit::Celsius => "Celsius"@,
            TemperatureUnit::Fahrenheit => "Fahrenheit"@,
        }
    }

    /// The small integer under which older records hold a scale.
    pub open spec fn legacy_code_of(self) -> int {
        match self {
            TemperatureUnit::Celsius => 0,
            TemperatureUnit::Fahrenheit => 1,
        }
    }

    /// The scale that a label names, letter case ignored.
    pub open spec fn variant_of_label(s: Seq<char>) -> Option<TemperatureUnit> {
        if folded(s) == "celsius"@ {
            Some(TemperatureUnit::Celsius)
        } else if folded(s) == "fahrenheit"@ {
            Some(TemperatureUnit::Fahrenheit)
        } else {
            None
        }
    }

    /// The scale that a legacy code names.
    pub open spec fn variant_of_legacy_code(code: int) -> Option<TemperatureUnit> {
        if code == 0 {
            Some(TemperatureUnit::Celsius)
        } else if code == 1 {
            Some(TemperatureUnit::Fahrenheit)
        } else {
            None
        }
    }

    /// The label of this scale, in the case in which it is written.
    pub fn label(&self) -> (r: &'static str)
        ensures
            r@ == self.label_of(),
    {
        match self {
            TemperatureUnit::Celsius => "Celsius",
            TemperatureUnit::Fahrenheit => "Fahrenheit",
        }
    }

    /// The legacy code of this scale.
    pub fn legacy_code(&self) -> (r: i32)
        ensures
            r == self.legacy_code_of(),
    {
        match self {
            TemperatureUnit::Celsius => 0,
            TemperatureUnit::Fahrenheit => 1,
        }
    }

    /// Reads a label, in any letter case. A text that is no label is an error.
    pub fn from_str(s: &str) -> (r: Result<TemperatureUnit, ()>)
        ensures
            r == match TemperatureUnit::variant_of_label(s@) {
                Some(v) => Ok::<TemperatureUnit, ()>(v),
                None => Err::<TemperatureUnit, ()>(()),
            },
    {
        if folds_to(s, "celsius") {
            Ok(TemperatureUnit::Celsius)
        } else if folds_to(s, "fahrenheit") {
            Ok(TemperatureUnit::Fahrenheit)
        } else {
            Err(())
        }
    }

    /// Reads a legacy code. A number that is no code is an error.
    pub fn from_legacy_code(code: i64) -> (r: Result<TemperatureUnit, ()>)
        ensures
            r == match TemperatureUnit::variant_of_legacy_code(code as int) {
                Some(v) => Ok::<TemperatureUnit, ()>(v),
                None => Err::<TemperatureUnit, ()>(()),
            },
    {
        if code == 0 {
            Ok(TemperatureUnit::Celsius)
        } else if code == 1 {
            Ok(TemperatureUnit::Fahrenheit)
        } else {
            Err(())
        }
    }

    /// What the labels hold once folded.
    pub proof fn lemma_labels()
        ensures
            "celsius"@.len() == 7,
            "fahrenheit"@.len() == 10,
            folded("Celsius"@) == "celsius"@,
            folded("Fahrenheit"@) == "fahrenheit"@,
    {
        reveal_strlit("Celsius");
        reveal_strlit("Fahrenheit");
        reveal_strlit("celsius");
        reveal_strlit("fahrenheit");
        assert(folded("Celsius"@) =~= "celsius"@);
        assert(folded("Fahrenheit"@) =~= "fahrenheit"@);
    }

    /// Every scale is read back from its own label.
    pub proof fn law_label_round_trip(v: TemperatureUnit)
        ensures
            TemperatureUnit::variant_of_label(v.label_of()) == Some(v),
    {
        TemperatureUnit::lemma_labels();
    }

    /// Every scale is read back from its own legacy code.
    pub proof fn law_legacy_code_round_trip(v: TemperatureUnit)
        ensures
            TemperatureUnit::variant_of_legacy_code(v.legacy_code_of()) == Some(v),
    {
    }

    /// A text names a scale exactly when, letter case ignored, it is that
    /// scale's label; so a text that is no label names none, and the two
    /// scales never share a label.
    pub proof fn law_label_names_one_scale(s: Seq<char>, v: TemperatureUnit)
        ensures
            TemperatureUnit::variant_of_label(s) == Some(v) <==> same_ignoring_case(s, v.label_of()),
    {
        TemperatureUnit::lemma_labels();
    }

    /// A text that matches no scale's label, letter case ignored, is rejected.
    pub proof fn law_unknown_label_rejected(s: Seq<char>)
        requires
            forall|v: TemperatureUnit| !same_ignoring_case(s, #[trigger] v.label_of()),
        ensures
            TemperatureUnit::variant_of_label(s) is None,
    {
        TemperatureUnit::lemma_labels();
        assert(!same_ignoring_case(s, TemperatureUnit::Celsius.label_of()));
        assert(!same_ignoring_case(s, TemperatureUnit::Fahrenheit.label_of()));
    }

    /// Two texts that differ in letter case only name the same scale, or both
    /// name none.
    pub proof fn law_label_ignores_case(s: Seq<char>, t: Seq<char>)
        requires
            same_ignoring_case(s, t),
        ensures
            TemperatureUnit::variant_of_label(s) == TemperatureUnit::variant_of_label(t),
    {
    }

    /// A number names a scale exactly when it is that scale's legacy code;
    /// every other number is rejected.
    pub proof fn law_legacy_code_names_one_scale(code: int, v: TemperatureUnit)
        ensures
            TemperatureUnit::variant_of_legacy_code(code) == Some(v) <==> code == v.legacy_code_of(),
    {
    }
}

impl View for TemperatureUnit {
    type V = TemperatureUnit;

    open spec fn view(&self) -> TemperatureUnit {
        *self
    }
}

impl DeepView for TemperatureUnit {
    type V = TemperatureUnit;

    open spec fn deep_view(&self) -> TemperatureUnit {
        *self
    }
}

impl Default for TemperatureUnit {
    fn default() -> (r: TemperatureUnit)
        ensures
            r == TemperatureUnit::Celsius,
    {
        TemperatureUnit::Celsius
    }
}

} // verus!
