use vstd::prelude::*;
use crate::text::{folded, folds_to, same_ignoring_case};

verus! {

/// Setting of a convection oven's fan. A recipe that names no setting is
/// shown as `Off`, but holds no value: the two are kept apart.
#[derive(Clone, Copy, Debug, PartialEq, Eq, Structural)]
pub enum OvenFanValue {
    Off,
    Low,
    High,
}

impl OvenFanValue {
    /// The label under which a setting is written.
    pub open spec fn label_of(self) -> Seq<char> {
        match self {
            OvenFanValue::Off => "Off"@,
            OvenFanValue::Low => "Low"@,
            OvenFanValue::High => "High"@,
        }
    }

    /// The small integer under which older records hold a setting.
    pub open spec fn legacy_code_of(self) -> int {
        match self {
            OvenFanValue::Off => 0,
            OvenFanValue::Low => 1,
            OvenFanValue::High => 2,
        }
    }

    /// The setting that a label names, letter case ignored.
    pub open spec fn variant_of_label(s: Seq<char>) -> Option<OvenFanValue> {
        if folded(s) == "off"@ {
            Some(OvenFanValue::Off)
        } else if folded(s) == "low"@ {
            Some(OvenFanValue::Low)
        } else if folded(s) == "high"@ {
            Some(OvenFanValue::High)
        } else {
            None
        }
    }

    /// The setting that a legacy code names.
    pub open spec fn variant_of_legacy_code(code: int) -> Option<OvenFanValue> {
        if code == 0 {
            Some(OvenFanValue::Off)
        } else if code == 1 {
            Some(OvenFanValue::Low)
        } else if code == 2 {
            Some(OvenFanValue::High)
        } else {
            None
        }
    }

    /// The label of this setting, in the case in which it is written.
    pub fn label(&self) -> (r: &'static str)
        ensures
            r@ == self.label_of(),
    {
        match self {
            OvenFanValue::Off => "Off",
            OvenFanValue::Low => "Low",
            OvenFanValue::High => "High",
        }
    }

    /// The legacy code of this setting.
    pub fn legacy_code(&self) -> (r: i32)
        ensures
            r == self.legacy_code_of(),
    {
        match self {
            OvenFanValue::Off => 0,
            OvenFanValue::Low => 1,
            OvenFanValue::High => 2,
        }
    }

    /// Reads a label, in any letter case. A text that is no label is an error.
    pub fn from_str(s: &str) -> (r: Result<OvenFanValue, ()>)
        ensures
            r == match OvenFanValue::variant_of_label(s@) {
                Some(v) => Ok::<OvenFanValue, ()>(v),
                None => Err::<OvenFanValue, ()>(()),
            },
    {
        if folds_to(s, "off") {
            Ok(OvenFanValue::Off)
        } else if folds_to(s, "low") {
            Ok(OvenFanValue::Low)
        } else if folds_to(s, "high") {
            Ok(OvenFanValue::High)
        } else {
            Err(())
        }
    }

    /// Reads a legacy code. A number that is no code is an error.
    pub fn from_legacy_code(code: i64) -> (r: Result<OvenFanValue, ()>)
        ensures
            r == match OvenFanValue::variant_of_legacy_code(code as int) {
                Some(v) => Ok::<OvenFanValue, ()>(v),
                None => Err::<OvenFanValue, ()>(()),
            },
    {
        if code == 0 {
            Ok(OvenFanValue::Off)
        } else if code == 1 {
            Ok(OvenFanValue::Low)
        } else if code == 2 {
            Ok(OvenFanValue::High)
        } else {
            Err(())
        }
    }

    /// What the labels hold, character by character.
    pub proof fn lemma_labels()
        ensures
            "Off"@ == seq!['O', 'f', 'f'],
            "Low"@ == seq!['L', 'o', 'w'],
            "High"@ == seq!['H', 'i', 'g', 'h'],
            "off"@ == seq!['o', 'f', 'f'],
            "low"@ == seq!['l', 'o', 'w'],
            "high"@ == seq!['h', 'i', 'g', 'h'],
            folded("Off"@) == "off"@,
            folded("Low"@) == "low"@,
            folded("High"@) == "high"@,
    {
        reveal_strlit("Off");
        reveal_strlit("Low");
        reveal_strlit("High");
        reveal_strlit("off");
        reveal_strlit("low");
        reveal_strlit("high");
        assert("Off"@ =~= seq!['O', 'f', 'f']);
        assert("Low"@ =~= seq!['L', 'o', 'w']);
        assert("High"@ =~= seq!['H', 'i', 'g', 'h']);
        assert("off"@ =~= seq!['o', 'f', 'f']);
        assert("low"@ =~= seq!['l', 'o', 'w']);
        assert("high"@ =~= seq!['h', 'i', 'g', 'h']);
        assert(folded("Off"@) =~= "off"@);
        assert(folded("Low"@) =~= "low"@);
        assert(folded("High"@) =~= "high"@);
    }

    /// Every setting is read back from its own label.
    pub proof fn law_label_round_trip(v: OvenFanValue)
        ensures
            OvenFanValue::variant_of_label(v.label_of()) == Some(v),
    {
        OvenFanValue::lemma_labels();
    }

    /// Every setting is read back from its own legacy code.
    pub proof fn law_legacy_code_round_trip(v: OvenFanValue)
        ensures
            OvenFanValue::variant_of_legacy_code(v.legacy_code_of()) == Some(v),
    {
    }

    /// A text names a setting exactly when, letter case ignored, it is that
    /// setting's label; so a text that is no label names none, and two
    /// settings never share a label.
    pub proof fn law_label_names_one_setting(s: Seq<char>, v: OvenFanValue)
        ensures
            OvenFanValue::variant_of_label(s) == Some(v) <==> same_ignoring_case(s, v.label_of()),
    {
        OvenFanValue::lemma_labels();
    }

    /// A text that matches no setting's label, letter case ignored, is
    /// rejected.
    pub proof fn law_unknown_label_rejected(s: Seq<char>)
        requires
            forall|v: OvenFanValue| !same_ignoring_case(s, #[trigger] v.label_of()),
        ensures
            OvenFanValue::variant_of_label(s) is None,
    {
        OvenFanValue::lemma_labels();
        assert(!same_ignoring_case(s, OvenFanValue::Off.label_of()));
        assert(!same_ignoring_case(s, OvenFanValue::Low.label_of()));
        assert(!same_ignoring_case(s, OvenFanValue::High.label_of()));
    }

    /// Two texts that differ in letter case only name the same setting, or
    /// both name none.
    pub proof fn law_label_ignores_case(s: Seq<char>, t: Seq<char>)
        requires
            same_ignoring_case(s, t),
        ensures
            OvenFanValue::variant_of_label(s) == OvenFanValue::variant_of_label(t),
    {
    }

    /// A number names a setting exactly when it is that setting's legacy
    /// code; every other number is rejected.
    pub proof fn law_legacy_code_names_one_setting(code: int, v: OvenFanValue)
        ensures
            OvenFanValue::variant_of_legacy_code(code) == Some(v) <==> code == v.legacy_code_of(),
    {
    }
}

impl View for OvenFanValue {
    type V = OvenFanValue;

    open spec fn view(&self) -> OvenFanValue {
        *self
    }
}

impl DeepView for OvenFanValue {
    type V = OvenFanValue;

    open spec fn deep_view(&self) -> OvenFanValue {
        *self
    }
}

impl Default for OvenFanValue {
    fn default() -> (r: OvenFanValue)
        ensures
            r == OvenFanValue::Off,
    {
        OvenFanValue::Off
    }
}

} // verus!
