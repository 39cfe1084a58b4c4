use vstd::prelude::*;
use vstd::string::StringExecFns;
use crate::models::book_source::{BookSource, BookSourceView};
use crate::models::ingredient::{Ingredient, IngredientView};
use crate::models::oven_fan_value::OvenFanValue;
use crate::models::recipe_request::{RecipeRequest, RecipeRequestView};
use crate::models::step::{Step, StepView};
use crate::models::temperature::{Temperature, TemperatureView};
use crate::models::yields::{Yield, YieldView};
use crate::quantity::Quantity;

verus! {

/// A stored recipe.
#[derive(Clone, Debug, PartialEq)]
pub struct Recipe {
    /// The identifier that the store gave the recipe.
    pub recipe_uuid: String,
    /// The name of the recipe.
    pub recipe_name: Option<String>,
    /// The fan setting of a convection oven. Where there is none, `Off` is
    /// meant.
    pub oven_fan: Option<OvenFanValue>,
    /// The temperature at which the oven starts, if it is used.
    pub oven_temp: Option<Temperature>,
    /// The minutes that the dish spends in the oven, over the whole recipe.
    pub oven_time: Option<Quantity>,
    /// What goes in, in the order of use. An ingredient used twice stands
    /// twice.
    pub ingredients: Option<Vec<Ingredient>>,
    /// Notes on the recipe as a whole.
    pub notes: Option<String>,
    /// The book that the recipe was taken from.
    pub source_book: Option<BookSource>,
    /// Who first wrote the recipe; not who typed it in.
    pub source_authors: Option<Vec<String>>,
    /// The address that the recipe was copied from.
    pub source_url: Option<String>,
    /// What to do, in order.
    pub steps: Option<Vec<Step>>,
    /// How much the recipe makes. Mostly one entry; several where the recipe
    /// is given at several sizes.
    pub yields: Option<Vec<Yield>>,
}

/// What a `Recipe` holds.
pub struct RecipeView {
    pub recipe_uuid: Seq<char>,
    pub recipe_name: Option<Seq<char>>,
    pub oven_fan: Option<OvenFanValue>,
    pub oven_temp: Option<TemperatureView>,
    pub oven_time: Option<Quantity>,
    pub ingredients: Option<Seq<IngredientView>>,
    pub notes: Option<Seq<char>>,
    pub source_book: Option<BookSourceView>,
    pub source_authors: Option<Seq<Seq<char>>>,
    pub source_url: Option<Seq<char>>,
    pub steps: Option<Seq<StepView>>,
    pub yields: Option<Seq<YieldView>>,
}

impl RecipeView {
    /// The recipe that holds what a request holds, under an identifier.
    pub open spec fn of_request(recipe_uuid: Seq<char>, request: RecipeRequestView) -> RecipeView {
        RecipeView {
            recipe_uuid,
            recipe_name: request.recipe_name,
            oven_fan: request.oven_fan,
            oven_temp: request.oven_temp,
            oven_time: request.oven_time,
            ingredients: request.ingredients,
            notes: request.notes,
            source_book: request.source_book,
            source_authors: request.source_authors,
            source_url: request.source_url,
            steps: request.steps,
            yields: request.yields,
        }
    }

    /// What the recipe holds besides its identifier.
    pub open spec fn request(self) -> RecipeRequestView {
        RecipeRequestView {
            recipe_name: self.recipe_name,
            oven_time: self.oven_time,
            notes: self.notes,
            oven_fan: self.oven_fan,
            oven_temp: self.oven_temp,
            source_book: self.source_book,
            source_authors: self.source_authors,
            source_url: self.source_url,
            ingredients: self.ingredients,
            steps: self.steps,
            yields: self.yields,
        }
    }
}

impl View for Recipe {
    type V = RecipeView;

    open spec fn view(&self) -> RecipeView {
        RecipeView {
            recipe_uuid: self.recipe_uuid@,
            recipe_name: self.recipe_name.deep_view(),
            oven_fan: self.oven_fan,
            oven_temp: self.oven_temp.deep_view(),
            oven_time: self.oven_time,
            ingredients: self.ingredients.deep_view(),
            notes: self.notes.deep_view(),
            source_book: self.source_book.deep_view(),
            source_authors: self.source_authors.deep_view(),
            source_url: self.source_url.deep_view(),
            steps: self.steps.deep_view(),
            yields: self.yields.deep_view(),
        }
    }
}

impl DeepView for Recipe {
    type V = RecipeView;

    open spec fn deep_view(&self) -> RecipeView {
        self@
    }
}

impl Recipe {
    /// A recipe that holds nothing but its identifier.
    pub fn new(uid: &str) -> (r: Recipe)
        ensures
            r@ == RecipeView::of_request(uid@, RecipeRequestView::empty()),
    {
        Recipe {
            recipe_uuid: String::from_str(uid),
            recipe_name: None,
            oven_fan: None,
            oven_temp: None,
            oven_time: None,
            ingredients: None,
            notes: None,
            source_book: None,
            source_authors: None,
            source_url: None,
            steps: None,
            yields: None,
        }
    }

    /// The recipe that holds what a request holds, under an identifier.
    pub fn from_request(recipe_uuid: String, request: RecipeRequest) -> (r: Recipe)
        ensures
            r@ == RecipeView::of_request(recipe_uuid@, request@),
    {
        Recipe {
            recipe_uuid,
            recipe_name: request.recipe_name,
            oven_fan: request.oven_fan,
            oven_temp: request.oven_temp,
            oven_time: request.oven_time,
            ingredients: request.ingredients,
            notes: request.notes,
            source_book: request.source_book,
            source_authors: request.source_authors,
            source_url: request.source_url,
            steps: request.steps,
            yields: request.yields,
        }
    }
}

} // verus!
