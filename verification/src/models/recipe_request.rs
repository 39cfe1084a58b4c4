use vstd::prelude::*;
use vstd::string::StrSliceExecFns;
use crate::models::book_source::{BookSource, BookSourceView};
use crate::models::ingredient::{Ingredient, IngredientView};
use crate::models::oven_fan_value::OvenFanValue;
use crate::models::step::{Step, StepView};
use crate::models::temperature::{Temperature, TemperatureView};
use crate::models::yields::{Yield, YieldView};
use crate::quantity::Quantity;

verus! {

/// A recipe as it is handed in to be stored: everything but the identifier,
/// which the store gives.
#[derive(Clone, Debug, PartialEq)]
pub struct RecipeRequest {
    pub recipe_name: Option<String>,
    pub oven_time: Option<Quantity>,
    pub notes: Option<String>,
    pub oven_fan: Option<OvenFanValue>,
    pub oven_temp: Option<Temperature>,
    pub source_book: Option<BookSource>,
    pub source_authors: Option<Vec<String>>,
    pub source_url: Option<String>,
    pub ingredients: Option<Vec<Ingredient>>,
    pub steps: Option<Vec<Step>>,
    pub yields: Option<Vec<Yield>>,
}

/// What a `RecipeRequest` holds.
pub struct RecipeRequestView {
    pub recipe_name: Option<Seq<char>>,
    pub oven_time: Option<Quantity>,
    pub notes: Option<Seq<char>>,
    pub oven_fan: Option<OvenFanValue>,
    pub oven_temp: Option<TemperatureView>,
    pub source_book: Option<BookSourceView>,
    pub source_authors: Option<Seq<Seq<char>>>,
    pub source_url: Option<Seq<char>>,
    pub ingredients: Option<Seq<IngredientView>>,
    pub steps: Option<Seq<StepView>>,
    pub yields: Option<Seq<YieldView>>,
}

impl RecipeRequestView {
    /// The request that says nothing.
    pub open spec fn empty() -> RecipeRequestView {
        RecipeRequestView {
            recipe_name: None,
            oven_time: None,
            notes: None,
            oven_fan: None,
            oven_temp: None,
            source_book: None,
            source_authors: None,
            source_url: None,
            ingredients: None,
            steps: None,
            yields: None,
        }
    }

    /// What a new request starts with: one yield, counted in servings.
    pub open spec fn blank() -> RecipeRequestView {
        RecipeRequestView { yields: Some(seq![YieldView::servings()]), ..RecipeRequestView::empty() }
    }

    /// A request can be handed in once it has a name of four characters or
    /// more.
    pub open spec fn is_valid(self) -> bool {
        match self.recipe_name {
            None => false,
            Some(name) => name.len() >= 4,
        }
    }
}

impl View for RecipeRequest {
    type V = RecipeRequestView;

    open spec fn view(&self) -> RecipeRequestView {
        RecipeRequestView {
            recipe_name: self.recipe_name.deep_view(),
            oven_time: self.oven_time,
            notes: self.notes.deep_view(),
            oven_fan: self.oven_fan,
            oven_temp: self.oven_temp.deep_view(),
            source_book: self.source_book.deep_view(),
            source_authors: self.source_authors.deep_view(),
            source_url: self.source_url.deep_view(),
            ingredients: self.ingredients.deep_view(),
            steps: self.steps.deep_view(),
            yields: self.yields.deep_view(),
        }
    }
}

impl DeepView for RecipeRequest {
    type V = RecipeRequestView;

    open spec fn deep_view(&self) -> RecipeRequestView {
        self@
    }
}

impl RecipeRequest {
    /// A request with one yield, counted in servings, and nothing else.
    pub fn new() -> (r: RecipeRequest)
        ensures
            r@ == RecipeRequestView::blank(),
    {
        let mut yields: Vec<Yield> = Vec::new();
        yields.push(Yield::new());
        assert(yields.deep_view() =~= seq![YieldView::servings()]);
        RecipeRequest {
            recipe_name: None,
            oven_time: None,
            notes: None,
            oven_fan: None,
            oven_temp: None,
            source_book: None,
            source_authors: None,
            source_url: None,
            ingredients: None,
            steps: None,
            yields: Some(yields),
        }
    }

    /// Whether the request can be handed in.
    pub fn valid(&self) -> (ok: bool)
        ensures
            ok == self@.is_valid(),
    {
        self.recipe_name_valid()
    }

    fn recipe_name_valid(&self) -> (ok: bool)
        ensures
            ok == self@.is_valid(),
    {
        match &self.recipe_name {
            None => false,
            Some(name) => name.as_str().unicode_len() >= 4,
        }
    }
}

impl Default for RecipeRequest {
    fn default() -> (r: RecipeRequest)
        ensures
            r@ == RecipeRequestView::empty(),
    {
        RecipeRequest {
            recipe_name: None,
            oven_time: None,
            notes: None,
            oven_fan: None,
            oven_temp: None,
            source_book: None,
            source_authors: None,
            source_url: None,
            ingredients: None,
            steps: None,
            yields: None,
        }
    }
}

} // verus!
