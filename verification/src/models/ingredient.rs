use vstd::prelude::*;
use vstd::string::StringExecFns;
use crate::quantity::Quantity;

verus! {

/// How much of an ingredient: a quantity and its unit. Units are free text.
#[derive(Clone, Debug, PartialEq)]
pub struct Amount {
    pub amount: Quantity,
    pub unit: String,
}

/// What an `Amount` holds.
pub struct AmountView {
    pub amount: Quantity,
    pub unit: Seq<char>,
}

impl AmountView {
    /// Zero, without a unit.
    pub open spec fn empty() -> AmountView {
        AmountView { amount: Quantity::zero_value(), unit: Seq::empty() }
    }
}

impl View for Amount {
    type V = AmountView;

    open spec fn view(&self) -> AmountView {
        AmountView { amount: self.amount, unit: self.unit@ }
    }
}

impl DeepView for Amount {
    type V = AmountView;

    open spec fn deep_view(&self) -> AmountView {
        self@
    }
}

impl Amount {
    /// Zero, without a unit.
    pub fn new() -> (a: Amount)
        ensures
            a@ == AmountView::empty(),
    {
        Amount { amount: Quantity::zero(), unit: String::new() }
    }
}

impl Default for Amount {
    fn default() -> (a: Amount)
        ensures
            a@ == AmountView::empty(),
    {
        Amount::new()
    }
}

/// What a recipe says of one ingredient: how much, how prepared, which one.
#[derive(Clone, Debug, PartialEq)]
pub struct IngredientData {
    /// The amounts to use. Mostly one; where the recipe gives several
    /// yields, one for each, in the order of the yields.
    pub amounts: Vec<Amount>,
    /// How the ingredient is prepared: "whole", "minced", "steamed", ...
    pub processing: Vec<String>,
    /// Notes on this ingredient.
    pub notes: Option<String>,
    /// The name by which the ingredient is looked up.
    pub ingredient_name: String,
}

/// What an `IngredientData` holds.
pub struct IngredientDataView {
    pub amounts: Seq<AmountView>,
    pub processing: Seq<Seq<char>>,
    pub notes: Option<Seq<char>>,
    pub ingredient_name: Seq<char>,
}

impl IngredientDataView {
    /// No amounts, no processing, no notes, no name.
    pub open spec fn empty() -> IngredientDataView {
        IngredientDataView {
            amounts: Seq::empty(),
            processing: Seq::empty(),
            notes: None,
            ingredient_name: Seq::empty(),
        }
    }

    /// What a new entry starts with: one amount of zero, to be filled in.
    pub open spec fn blank() -> IngredientDataView {
        IngredientDataView {
            amounts: seq![AmountView::empty()],
            processing: Seq::empty(),
            notes: None,
            ingredient_name: Seq::empty(),
        }
    }

    /// The amount at a position as it is shown, given the quantity already
    /// written out: the quantity, then the unit after a blank, the blank
    /// left out where there is no unit. Past the last amount it is empty.
    pub open spec fn amount_text(self, idx: int, quantity: Seq<char>) -> Seq<char> {
        if 0 <= idx < self.amounts.len() {
            let unit = self.amounts[idx].unit;
            if unit.len() == 0 {
                quantity
            } else {
                quantity + seq![' '] + unit
            }
        } else {
            Seq::empty()
        }
    }
}

impl View for IngredientData {
    type V = IngredientDataView;

    open spec fn view(&self) -> IngredientDataView {
        IngredientDataView {
            amounts: self.amounts.deep_view(),
            processing: self.processing.deep_view(),
            notes: self.notes.deep_view(),
            ingredient_name: self.ingredient_name@,
        }
    }
}

impl DeepView for IngredientData {
    type V = IngredientDataView;

    open spec fn deep_view(&self) -> IngredientDataView {
        self@
    }
}

impl IngredientData {
    /// An entry with one amount of zero, to be filled in.
    pub fn new() -> (d: IngredientData)
        ensures
            d@ == IngredientDataView::blank(),
    {
        let mut amounts: Vec<Amount> = Vec::new();
        amounts.push(Amount::new());
        let d = IngredientData {
            amounts,
            processing: Vec::new(),
            notes: None,
            ingredient_name: String::new(),
        };
        assert(d.amounts.deep_view() =~= seq![AmountView::empty()]);
        assert(d.processing.deep_view() =~= Seq::<Seq<char>>::empty());
        d
    }

    /// The amount at `idx` as it is shown. `quantity` is the quantity of that
    /// amount written out as a number.
    pub fn get_amount_str(&self, idx: usize, quantity: &str) -> (r: String)
        ensures
            r@ == self@.amount_text(idx as int, quantity@),
    {
        if idx < self.amounts.len() {
            assert(self.amounts.deep_view()[idx as int] == self.amounts@[idx as int]@);
            let mut amount_str: String = String::from_str(quantity);
            if !self.amounts[idx].unit.as_str().is_empty() {
                amount_str.append(" ");
                proof {
                    reveal_strlit(" ");
                    assert(" "@ =~= seq![' ']);
                }
            }
            amount_str.append(self.amounts[idx].unit.as_str());
            assert(amount_str@ =~= self@.amount_text(idx as int, quantity@));
            amount_str
        } else {
            String::new()
        }
    }
}

impl Default for IngredientData {
    fn default() -> (d: IngredientData)
        ensures
            d@ == IngredientDataView::empty(),
    {
        let d = IngredientData {
            amounts: Vec::new(),
            processing: Vec::new(),
            notes: None,
            ingredient_name: String::new(),
        };
        assert(d.amounts.deep_view() =~= Seq::<AmountView>::empty());
        assert(d.processing.deep_view() =~= Seq::<Seq<char>>::empty());
        d
    }
}

/// One line of a recipe's list of ingredients: the ingredient, and what may
/// be used in its place.
#[derive(Clone, Debug, PartialEq)]
pub struct Ingredient {
    /// The ingredient itself.
    pub ingredient: IngredientData,
    /// What may take its place, each given as fully as the ingredient.
    pub substitutions: Vec<IngredientData>,
}

/// What an `Ingredient` holds.
pub struct IngredientView {
    pub ingredient: IngredientDataView,
    pub substitutions: Seq<IngredientDataView>,
}

impl IngredientView {
    /// An empty entry that nothing can take the place of.
    pub open spec fn empty() -> IngredientView {
        IngredientView { ingredient: IngredientDataView::empty(), substitutions: Seq::empty() }
    }

    /// What a new line starts with: a blank entry, nothing in its place.
    pub open spec fn blank() -> IngredientView {
        IngredientView { ingredient: IngredientDataView::blank(), substitutions: Seq::empty() }
    }
}

impl View for Ingredient {
    type V = IngredientView;

    open spec fn view(&self) -> IngredientView {
        IngredientView {
            ingredient: self.ingredient@,
            substitutions: self.substitutions.deep_view(),
        }
    }
}

impl DeepView for Ingredient {
    type V = IngredientView;

    open spec fn deep_view(&self) -> IngredientView {
        self@
    }
}

impl Ingredient {
    /// A line with a blank entry and nothing in its place.
    pub fn new() -> (i: Ingredient)
        ensures
            i@ == IngredientView::blank(),
    {
        let i = Ingredient { ingredient: IngredientData::new(), substitutions: Vec::new() };
        assert(i.substitutions.deep_view() =~= Seq::<IngredientDataView>::empty());
        i
    }
}

impl Default for Ingredient {
    fn default() -> (i: Ingredient)
        ensures
            i@ == IngredientView::empty(),
    {
        let i = Ingredient { ingredient: IngredientData::default(), substitutions: Vec::new() };
        assert(i.substitutions.deep_view() =~= Seq::<IngredientDataView>::empty());
        i
    }
}

} // verus!
