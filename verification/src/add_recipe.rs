use vstd::prelude::*;
use vstd::string::StringExecFns;
use crate::models::ingredient::{AmountView, Ingredient, IngredientDataView, IngredientView};
use crate::models::oven_fan_value::OvenFanValue;
use crate::models::recipe_request::{RecipeRequest, RecipeRequestView};
use crate::models::step::{Step, StepView};
use crate::models::temperature::TemperatureView;
use crate::models::temperature_unit::TemperatureUnit;
use crate::models::yields::{Yield, YieldView};
use crate::quantity::Quantity;

verus! {

/// What the service answers when it has kept a new recipe.
#[derive(Clone, Debug, PartialEq)]
pub struct CreateRecipeResponse {
    pub status: u16,
    pub recipe_uuid: String,
}

/// The form on which a recipe is entered.
#[derive(Clone, Debug, PartialEq)]
pub struct State {
    /// What has been entered so far.
    pub recipe_data: RecipeRequest,
    /// Whether the recipe has been sent and no answer has come yet.
    pub posting: bool,
    /// What to tell the user of the last sending.
    pub post_response_display_msg: Option<String>,
}

/// What a `State` holds.
pub struct StateView {
    pub recipe_data: RecipeRequestView,
    pub posting: bool,
    pub post_response_display_msg: Option<Seq<char>>,
}

impl View for State {
    type V = StateView;

    open spec fn view(&self) -> StateView {
        StateView {
            recipe_data: self.recipe_data@,
            posting: self.posting,
            post_response_display_msg: self.post_response_display_msg.deep_view(),
        }
    }
}

/// What can happen to the form. A number that was typed comes as what the
/// text reads as, or as nothing where it reads as no number.
#[derive(Debug, PartialEq)]
pub enum Msg {
    Noop,
    OnAddRecipe,
    /// The answer to a sending, or why there is none.
    OnReceivePostResponse(Result<CreateRecipeResponse, String>),
    OnRecipeNameInputChanged(String),
    OnRecipeOvenTimeInputChanged(Option<Quantity>),
    OnRecipeNotesInputChanged(String),
    OnRecipeOvenFanSelectChanged(String),
    OnRecipeOvenTempAmountInputChanged(Option<Quantity>),
    OnRecipeOvenTempUnitInputChanged(String),
    OnRecipeSourceUrlInputChanged(String),
    OnAddIngredient,
    /// (ingredient, name)
    OnIngredientNameInputChanged(usize, String),
    /// (ingredient, amount, quantity)
    OnIngredientAmountInputChanged(usize, usize, Option<Quantity>),
    /// (ingredient, amount, unit)
    OnIngredientAmountUnitInputChanged(usize, usize, String),
    /// (ingredient, processing, text)
    OnIngredientProcessingInputChanged(usize, usize, String),
    /// (ingredient)
    OnIngredientAddProcessing(usize),
    /// (ingredient)
    OnIngredientAddNotes(usize),
    /// (ingredient, notes)
    OnIngredientNotesInputChanged(usize, String),
    /// (ingredient)
    OnRemoveIngredient(usize),
    OnAddStep,
    /// (step, instruction)
    OnStepInputChanged(usize, String),
    /// (step)
    OnRemoveStep(usize),
    /// (step)
    OnStepAddNotes(usize),
    /// (step, notes)
    OnStepNotesInputChanged(usize, String),
    OnAddYield,
    /// (yield)
    OnRemoveYield(usize),
    /// (yield, amount)
    OnYieldAmountInputChanged(usize, Option<Quantity>),
    /// (yield, unit)
    OnYieldUnitInputChanged(usize, String),
}

/// What is to be done outside the form after something has happened to it.
#[derive(Clone, Debug, PartialEq)]
pub enum Effect {
    /// Nothing.
    Nothing,
    /// Send what has been entered to the service.
    PostRecipe,
    /// Show the page at this path.
    Reroute(String),
}

/// What an `Effect` holds.
pub enum EffectView {
    Nothing,
    PostRecipe,
    Reroute(Seq<char>),
}

impl View for Effect {
    type V = EffectView;

    open spec fn view(&self) -> EffectView {
        match self {
            Effect::Nothing => EffectView::Nothing,
            Effect::PostRecipe => EffectView::PostRecipe,
            Effect::Reroute(path) => EffectView::Reroute(path@),
        }
    }
}

/// What comes of one thing that happened to the form.
#[derive(Clone, Debug, PartialEq)]
pub struct Update {
    /// Whether the form is to be drawn again.
    pub should_render: bool,
    /// What is to be done outside the form.
    pub effect: Effect,
}

/// The number that a field holds after an edit: zero where the typed text
/// read as no number.
pub open spec fn typed(parsed: Option<Quantity>) -> Quantity {
    match parsed {
        Some(q) => q,
        None => Quantity::zero_value(),
    }
}

/// A list with one more item at its end; a list of that item alone where
/// there was no list.
pub open spec fn appended<T>(list: Option<Seq<T>>, item: T) -> Option<Seq<T>> {
    match list {
        Some(items) => Some(items.push(item)),
        None => Some(seq![item]),
    }
}

/// Whether a list has an item at a place.
pub open spec fn has_at<T>(list: Option<Seq<T>>, idx: int) -> bool {
    list matches Some(items) && 0 <= idx < items.len()
}

/// A list without the item at a place; no list where that was its only
/// item. A list that has no item at the place stays as it is.
pub open spec fn removed_at<T>(list: Option<Seq<T>>, idx: int) -> Option<Seq<T>> {
    match list {
        Some(items) => if 0 <= idx < items.len() {
            if items.len() == 1 {
                None
            } else {
                Some(items.remove(idx))
            }
        } else {
            list
        },
        None => None,
    }
}

/// A list with another item at a place. A list that has no item at the
/// place, and a change that is none, leave the list as it is.
pub open spec fn replaced_at<T>(list: Option<Seq<T>>, idx: int, item: Option<T>) -> Option<Seq<T>> {
    match (list, item) {
        (Some(items), Some(x)) => if 0 <= idx < items.len() {
            Some(items.update(idx, x))
        } else {
            list
        },
        _ => list,
    }
}

/// The place in its list of the item that a message is about.
pub open spec fn place(msg: Msg) -> int {
    match msg {
        Msg::OnIngredientNameInputChanged(i, _) => i as int,
        Msg::OnIngredientAmountInputChanged(i, _, _) => i as int,
        Msg::OnIngredientAmountUnitInputChanged(i, _, _) => i as int,
        Msg::OnIngredientProcessingInputChanged(i, _, _) => i as int,
        Msg::OnIngredientAddProcessing(i) => i as int,
        Msg::OnIngredientAddNotes(i) => i as int,
        Msg::OnIngredientNotesInputChanged(i, _) => i as int,
        Msg::OnRemoveIngredient(i) => i as int,
        Msg::OnStepInputChanged(i, _) => i as int,
        Msg::OnRemoveStep(i) => i as int,
        Msg::OnStepAddNotes(i) => i as int,
        Msg::OnStepNotesInputChanged(i, _) => i as int,
        Msg::OnRemoveYield(i) => i as int,
        Msg::OnYieldAmountInputChanged(i, _) => i as int,
        Msg::OnYieldUnitInputChanged(i, _) => i as int,
        _ => 0,
    }
}

impl IngredientDataView {
    /// The entry as a message leaves it, or none where the message does not
    /// change it: an amount or a processing that is not there cannot be
    /// edited, and notes that are there cannot be added.
    pub open spec fn edited(self, msg: Msg) -> Option<IngredientDataView> {
        match msg {
            Msg::OnIngredientNameInputChanged(_, name) => Some(
                IngredientDataView { ingredient_name: name@, ..self },
            ),
            Msg::OnIngredientAmountInputChanged(_, a, parsed) => if a < self.amounts.len() {
                Some(
                    IngredientDataView {
                        amounts: self.amounts.update(
                            a as int,
                            AmountView { amount: typed(parsed), ..self.amounts[a as int] },
                        ),
                        ..self
                    },
                )
            } else {
                None
            },
            Msg::OnIngredientAmountUnitInputChanged(_, a, unit) => if a < self.amounts.len() {
                Some(
                    IngredientDataView {
                        amounts: self.amounts.update(
                            a as int,
                            AmountView { unit: unit@, ..self.amounts[a as int] },
                        ),
                        ..self
                    },
                )
            } else {
                None
            },
            Msg::OnIngredientProcessingInputChanged(_, p, text) => if p < self.processing.len() {
                Some(IngredientDataView { processing: self.processing.update(p as int, text@), ..self })
            } else {
                None
            },
            Msg::OnIngredientAddProcessing(_) => Some(
                IngredientDataView { processing: self.processing.push(Seq::empty()), ..self },
            ),
            Msg::OnIngredientAddNotes(_) => if self.notes is None {
                Some(IngredientDataView { notes: Some(Seq::empty()), ..self })
            } else {
                None
            },
            Msg::OnIngredientNotesInputChanged(_, notes) => Some(
                IngredientDataView { notes: Some(notes@), ..self },
            ),
            _ => None,
        }
    }
}

impl IngredientView {
    /// The line as a message leaves it, or none where the message does not
    /// change it. Only the ingredient itself is edited, never what may take
    /// its place.
    pub open spec fn edited(self, msg: Msg) -> Option<IngredientView> {
        match self.ingredient.edited(msg) {
            Some(ingredient) => Some(IngredientView { ingredient, ..self }),
            None => None,
        }
    }
}

impl StepView {
    /// The step as a message leaves it, or none where the message does not
    /// change it: notes that are there cannot be added, and notes that are
    /// not there cannot be edited.
    pub open spec fn edited(self, msg: Msg) -> Option<StepView> {
        match msg {
            Msg::OnStepInputChanged(_, text) => Some(StepView { step: text@, ..self }),
            Msg::OnStepAddNotes(_) => if self.notes is None {
                Some(StepView { notes: Some(Seq::empty()), ..self })
            } else {
                None
            },
            Msg::OnStepNotesInputChanged(_, notes) => if self.notes is Some {
                Some(StepView { notes: Some(notes@), ..self })
            } else {
                None
            },
            _ => None,
        }
    }
}

impl YieldView {
    /// The yield as a message leaves it, or none where the message does not
    /// change it.
    pub open spec fn edited(self, msg: Msg) -> Option<YieldView> {
        match msg {
            Msg::OnYieldAmountInputChanged(_, parsed) => Some(
                YieldView { amount: typed(parsed), ..self },
            ),
            Msg::OnYieldUnitInputChanged(_, unit) => Some(YieldView { unit: unit@, ..self }),
            _ => None,
        }
    }
}

/// The ingredients as a message that edits one of them leaves them.
pub open spec fn edited_ingredients(list: Option<Seq<IngredientView>>, msg: Msg) -> Option<
    Seq<IngredientView>,
> {
    if has_at(list, place(msg)) {
        replaced_at(list, place(msg), list->0[place(msg)].edited(msg))
    } else {
        list
    }
}

/// The steps as a message that edits one of them leaves them.
pub open spec fn edited_steps(list: Option<Seq<StepView>>, msg: Msg) -> Option<Seq<StepView>> {
    if has_at(list, place(msg)) {
        replaced_at(list, place(msg), list->0[place(msg)].edited(msg))
    } else {
        list
    }
}

/// The yields as a message that edits one of them leaves them.
pub open spec fn edited_yields(list: Option<Seq<YieldView>>, msg: Msg) -> Option<Seq<YieldView>> {
    if has_at(list, place(msg)) {
        replaced_at(list, place(msg), list->0[place(msg)].edited(msg))
    } else {
        list
    }
}

impl RecipeRequestView {
    /// What has been entered, as a message leaves it.
    pub open spec fn after(self, msg: Msg) -> RecipeRequestView {
        match msg {
            Msg::Noop => self,
            Msg::OnAddRecipe => self,
            Msg::OnReceivePostResponse(_) => RecipeRequestView {
                recipe_name: None,
                oven_time: None,
                oven_fan: None,
                ..self
            },
            Msg::OnRecipeNameInputChanged(name) => RecipeRequestView {
                recipe_name: Some(name@),
                ..self
            },
            Msg::OnRecipeOvenTimeInputChanged(parsed) => RecipeRequestView {
                oven_time: Some(Quantity::duration_of(parsed)),
                ..self
            },
            Msg::OnRecipeNotesInputChanged(notes) => RecipeRequestView { notes: Some(notes@), ..self },
            Msg::OnRecipeOvenFanSelectChanged(label) => RecipeRequestView {
                oven_fan: OvenFanValue::variant_of_label(label@),
                ..self
            },
            Msg::OnRecipeOvenTempAmountInputChanged(parsed) => RecipeRequestView {
                oven_temp: match self.oven_temp {
                    Some(temp) => Some(TemperatureView { amount: typed(parsed), ..temp }),
                    None => None,
                },
                ..self
            },
            Msg::OnRecipeOvenTempUnitInputChanged(label) => RecipeRequestView {
                oven_temp: match (self.oven_temp, TemperatureUnit::variant_of_label(label@)) {
                    (Some(temp), Some(unit)) => Some(TemperatureView { unit, ..temp }),
                    _ => self.oven_temp,
                },
                ..self
            },
            Msg::OnRecipeSourceUrlInputChanged(url) => RecipeRequestView {
                source_url: Some(url@),
                ..self
            },
            Msg::OnAddYield => RecipeRequestView {
                yields: appended(self.yields, YieldView::servings()),
                ..self
            },
            Msg::OnAddStep => RecipeRequestView {
                steps: appended(self.steps, StepView::empty()),
                ..self
            },
            Msg::OnAddIngredient => RecipeRequestView {
                ingredients: appended(self.ingredients, IngredientView::blank()),
                ..self
            },
            Msg::OnRemoveIngredient(i) => RecipeRequestView {
                ingredients: removed_at(self.ingredients, i as int),
                ..self
            },
            Msg::OnRemoveStep(i) => RecipeRequestView {
                steps: removed_at(self.steps, i as int),
                ..self
            },
            Msg::OnRemoveYield(i) => RecipeRequestView {
                yields: removed_at(self.yields, i as int),
                ..self
            },
            Msg::OnIngredientNameInputChanged(..)
            | Msg::OnIngredientAmountInputChanged(..)
            | Msg::OnIngredientAmountUnitInputChanged(..)
            | Msg::OnIngredientProcessingInputChanged(..)
            | Msg::OnIngredientAddProcessing(..)
            | Msg::OnIngredientAddNotes(..)
            | Msg::OnIngredientNotesInputChanged(..) => RecipeRequestView {
                ingredients: edited_ingredients(self.ingredients, msg),
                ..self
            },
            Msg::OnStepInputChanged(..)
            | Msg::OnStepAddNotes(..)
            | Msg::OnStepNotesInputChanged(..) => RecipeRequestView {
                steps: edited_steps(self.steps, msg),
                ..self
            },
            Msg::OnYieldAmountInputChanged(..) | Msg::OnYieldUnitInputChanged(..) => RecipeRequestView {
                yields: edited_yields(self.yields, msg),
                ..self
            },
        }
    }

    /// Whether the time in the oven, where there is one, is a number that is
    /// not infinite and not below zero.
    pub open spec fn has_sound_oven_time(self) -> bool {
        self.oven_time matches Some(t) ==> t.is_duration()
    }

    /// Whether a message is one that the form is drawn again after. It is
    /// not after a message that does nothing, nor after one about an item
    /// that is not there or that the message leaves as it is.
    pub open spec fn redrawn_after(self, msg: Msg) -> bool {
        match msg {
            Msg::Noop => false,
            Msg::OnRemoveIngredient(i) => has_at(self.ingredients, i as int),
            Msg::OnRemoveStep(i) => has_at(self.steps, i as int),
            Msg::OnRemoveYield(i) => has_at(self.yields, i as int),
            Msg::OnIngredientNameInputChanged(..)
            | Msg::OnIngredientAmountInputChanged(..)
            | Msg::OnIngredientAmountUnitInputChanged(..)
            | Msg::OnIngredientProcessingInputChanged(..)
            | Msg::OnIngredientAddProcessing(..)
            | Msg::OnIngredientAddNotes(..)
            | Msg::OnIngredientNotesInputChanged(..) => has_at(self.ingredients, place(msg))
                && self.ingredients->0[place(msg)].edited(msg) is Some,
            Msg::OnStepInputChanged(..)
            | Msg::OnStepAddNotes(..)
            | Msg::OnStepNotesInputChanged(..) => has_at(self.steps, place(msg))
                && self.steps->0[place(msg)].edited(msg) is Some,
            Msg::OnYieldAmountInputChanged(..) | Msg::OnYieldUnitInputChanged(..) => has_at(
                self.yields,
                place(msg),
            ) && self.yields->0[place(msg)].edited(msg) is Some,
            _ => true,
        }
    }
}

impl StateView {
    /// The form as a message leaves it.
    pub open spec fn after(self, msg: Msg) -> StateView {
        match msg {
            Msg::OnAddRecipe => StateView { posting: true, ..self },
            Msg::OnReceivePostResponse(data) => StateView {
                recipe_data: self.recipe_data.after(msg),
                posting: false,
                post_response_display_msg: Some(
                    if data is Ok {
                        "Successfully added recipe"@
                    } else {
                        "Error adding recipe"@
                    },
                ),
            },
            _ => StateView { recipe_data: self.recipe_data.after(msg), ..self },
        }
    }
}

/// What is to be done outside the form after a message: the recipe is sent
/// when the user asks for it, and the page of the new recipe is shown once
/// the service has kept it.
pub open spec fn effect_of(msg: Msg) -> EffectView {
    match msg {
        Msg::OnAddRecipe => EffectView::PostRecipe,
        Msg::OnReceivePostResponse(Ok(response)) => EffectView::Reroute(
            "/recipes/"@ + response.recipe_uuid@,
        ),
        _ => EffectView::Nothing,
    }
}

/// Adds an item at the end of a list, starting the list where there is none.
fn append<T: DeepView>(list: &mut Option<Vec<T>>, item: T)
    ensures
        final(list).deep_view() == appended(old(list).deep_view(), item.deep_view()),
{
    match list {
        Some(items) => {
            let ghost before = items.deep_view();
            items.push(item);
            assert(items.deep_view() =~= before.push(item.deep_view()));
        },
        None => {
            let mut items: Vec<T> = Vec::new();
            items.push(item);
            assert(items.deep_view() =~= seq![item.deep_view()]);
            *list = Some(items);
        },
    }
}

/// Takes the item at a place out of a list, and the list away with its last
/// item. Says whether there was such an item.
fn remove_at<T: DeepView>(list: &mut Option<Vec<T>>, idx: usize) -> (removed: bool)
    ensures
        final(list).deep_view() == removed_at(old(list).deep_view(), idx as int),
        removed == has_at(old(list).deep_view(), idx as int),
{
    let emptied = match list {
        Some(items) => {
            if idx < items.len() {
                let ghost before = items.deep_view();
                items.remove(idx);
                assert(items.deep_view() =~= before.remove(idx as int));
                if items.is_empty() {
                    Some(true)
                } else {
                    Some(false)
                }
            } else {
                None
            }
        },
        None => None,
    };
    match emptied {
        Some(true) => {
            *list = None;
            true
        },
        Some(false) => true,
        None => false,
    }
}

impl State {
    /// An empty form.
    pub fn new() -> (s: State)
        ensures
            s@ == (StateView {
                recipe_data: RecipeRequestView::empty(),
                posting: false,
                post_response_display_msg: None,
            }),
            s@.recipe_data.has_sound_oven_time(),
    {
        State {
            recipe_data: RecipeRequest::default(),
            posting: false,
            post_response_display_msg: None,
        }
    }

    /// Takes in one thing that happened to the form.
    pub fn update(&mut self, msg: Msg) -> (r: Update)
        ensures
            final(self)@ == old(self)@.after(msg),
            r.should_render == old(self)@.recipe_data.redrawn_after(msg),
            r.effect@ == effect_of(msg),
            msg is OnRecipeOvenTimeInputChanged ==> final(self)@.recipe_data.oven_time is Some,
            old(self)@.recipe_data.has_sound_oven_time() || msg is OnRecipeOvenTimeInputChanged
                ==> final(self)@.recipe_data.has_sound_oven_time(),
    {
        let ghost before = self@;
        let ghost m = msg;
        match msg {
            Msg::Noop => Update { should_render: false, effect: Effect::Nothing },
            Msg::OnAddRecipe => {
                self.posting = true;
                Update { should_render: true, effect: Effect::PostRecipe }
            },
            Msg::OnReceivePostResponse(data) => {
                self.recipe_data.recipe_name = None;
                self.recipe_data.oven_time = None;
                self.recipe_data.oven_fan = None;
                self.posting = false;
                match data {
                    Ok(recipe_response) => {
                        let new_route = String::from_str("/recipes/").concat(
                            recipe_response.recipe_uuid.as_str(),
                        );
                        self.post_response_display_msg = Some(
                            String::from_str("Successfully added recipe"),
                        );
                        Update { should_render: true, effect: Effect::Reroute(new_route) }
                    },
                    Err(_) => {
                        self.post_response_display_msg = Some(String::from_str("Error adding recipe"));
                        Update { should_render: true, effect: Effect::Nothing }
                    },
                }
            },
            Msg::OnRecipeNameInputChanged(recipe_name) => {
                self.recipe_data.recipe_name = Some(recipe_name);
                Update { should_render: true, effect: Effect::Nothing }
            },
            Msg::OnRecipeOvenTimeInputChanged(oven_time) => {
                self.recipe_data.oven_time = Some(Quantity::duration_or_zero(oven_time));
                Update { should_render: true, effect: Effect::Nothing }
            },
            Msg::OnRecipeNotesInputChanged(notes) => {
                self.recipe_data.notes = Some(notes);
                Update { should_render: true, effect: Effect::Nothing }
            },
            Msg::OnRecipeOvenFanSelectChanged(oven_fan) => {
                self.recipe_data.oven_fan = match OvenFanValue::from_str(oven_fan.as_str()) {
                    Ok(v) => Some(v),
                    Err(_) => None,
                };
                Update { should_render: true, effect: Effect::Nothing }
            },
            Msg::OnRecipeOvenTempAmountInputChanged(parsed) => {
                let amount = Quantity::or_zero(parsed);
                match &mut self.recipe_data.oven_temp {
                    Some(temp) => {
                        temp.amount = amount;
                    },
                    None => {},
                }
                Update { should_render: true, effect: Effect::Nothing }
            },
            Msg::OnRecipeOvenTempUnitInputChanged(unit_str) => {
                match TemperatureUnit::from_str(unit_str.as_str()) {
                    Ok(unit) => {
                        match &mut self.recipe_data.oven_temp {
                            Some(temp) => {
                                temp.unit = unit;
                            },
                            None => {},
                        }
                    },
                    Err(_) => {},
                }
                Update { should_render: true, effect: Effect::Nothing }
            },
            Msg::OnRecipeSourceUrlInputChanged(source_url_str) => {
                self.recipe_data.source_url = Some(source_url_str);
                Update { should_render: true, effect: Effect::Nothing }
            },
            Msg::OnAddYield => {
                append(&mut self.recipe_data.yields, Yield::new());
                Update { should_render: true, effect: Effect::Nothing }
            },
            Msg::OnAddStep => {
                append(&mut self.recipe_data.steps, Step::default());
                Update { should_render: true, effect: Effect::Nothing }
            },
            Msg::OnAddIngredient => {
                append(&mut self.recipe_data.ingredients, Ingredient::new());
                Update { should_render: true, effect: Effect::Nothing }
            },
            Msg::OnRemoveIngredient(ing_idx) => {
                let removed = remove_at(&mut self.recipe_data.ingredients, ing_idx);
                Update { should_render: removed, effect: Effect::Nothing }
            },
            Msg::OnRemoveStep(step_idx) => {
                let removed = remove_at(&mut self.recipe_data.steps, step_idx);
                Update { should_render: removed, effect: Effect::Nothing }
            },
            Msg::OnRemoveYield(yield_idx) => {
                let removed = remove_at(&mut self.recipe_data.yields, yield_idx);
                Update { should_render: removed, effect: Effect::Nothing }
            },
            other => {
                let changed = self.edit(other);
                Update { should_render: changed, effect: Effect::Nothing }
            },
        }
    }

    /// Whether a message edits one item of one of the lists.
    pub open spec fn edits_an_item(msg: Msg) -> bool {
        match msg {
            Msg::OnIngredientNameInputChanged(..)
            | Msg::OnIngredientAmountInputChanged(..)
            | Msg::OnIngredientAmountUnitInputChanged(..)
            | Msg::OnIngredientProcessingInputChanged(..)
            | Msg::OnIngredientAddProcessing(..)
            | Msg::OnIngredientAddNotes(..)
            | Msg::OnIngredientNotesInputChanged(..)
            | Msg::OnStepInputChanged(..)
            | Msg::OnStepAddNotes(..)
            | Msg::OnStepNotesInputChanged(..)
            | Msg::OnYieldAmountInputChanged(..)
            | Msg::OnYieldUnitInputChanged(..) => true,
            _ => false,
        }
    }

    /// Takes in a message that edits one item of one of the lists.
    fn edit(&mut self, msg: Msg) -> (changed: bool)
        requires
            State::edits_an_item(msg),
        ensures
            final(self)@ == old(self)@.after(msg),
            changed == old(self)@.recipe_data.redrawn_after(msg),
    {
        match msg {
            Msg::OnIngredientNameInputChanged(idx, ing_name_str) => {
                match &mut self.recipe_data.ingredients {
                    Some(ingredients) => {
                        if idx < ingredients.len() {
                            let ghost before = ingredients.deep_view();
                            ingredients[idx].ingredient.ingredient_name = ing_name_str;
                            assert(ingredients.deep_view() =~= before.update(
                                idx as int,
                                before[idx as int].edited(msg)->0,
                            ));
                            true
                        } else {
                            false
                        }
                    },
                    None => false,
                }
            },
            Msg::OnIngredientAmountInputChanged(ing_idx, amount_idx, parsed) => {
                match &mut self.recipe_data.ingredients {
                    Some(ingredients) => {
                        if ing_idx < ingredients.len() {
                            if amount_idx < ingredients[ing_idx].ingredient.amounts.len() {
                                let ghost before = ingredients.deep_view();
                                let ghost amounts = ingredients[ing_idx as int].ingredient.amounts.deep_view();
                                let value = Quantity::or_zero(parsed);
                                ingredients[ing_idx].ingredient.amounts[amount_idx].amount = value;
                                assert(ingredients[ing_idx as int].ingredient.amounts.deep_view()
                                    =~= amounts.update(
                                    amount_idx as int,
                                    AmountView { amount: value, ..amounts[amount_idx as int] },
                                ));
                                assert(ingredients.deep_view() =~= before.update(
                                    ing_idx as int,
                                    before[ing_idx as int].edited(msg)->0,
                                ));
                                true
                            } else {
                                false
                            }
                        } else {
                            false
                        }
                    },
                    None => false,
                }
            },
            Msg::OnIngredientAmountUnitInputChanged(ing_idx, amount_idx, unit_str) => {
                match &mut self.recipe_data.ingredients {
                    Some(ingredients) => {
                        if ing_idx < ingredients.len() {
                            if amount_idx < ingredients[ing_idx].ingredient.amounts.len() {
                                let ghost before = ingredients.deep_view();
                                let ghost amounts = ingredients[ing_idx as int].ingredient.amounts.deep_view();
                                ingredients[ing_idx].ingredient.amounts[amount_idx].unit = unit_str;
                                assert(ingredients[ing_idx as int].ingredient.amounts.deep_view()
                                    =~= amounts.update(
                                    amount_idx as int,
                                    AmountView { unit: unit_str@, ..amounts[amount_idx as int] },
                                ));
                                assert(ingredients.deep_view() =~= before.update(
                                    ing_idx as int,
                                    before[ing_idx as int].edited(msg)->0,
                                ));
                                true
                            } else {
                                false
                            }
                        } else {
                            false
                        }
                    },
                    None => false,
                }
            },
            Msg::OnIngredientProcessingInputChanged(ing_idx, processing_idx, new_str) => {
                match &mut self.recipe_data.ingredients {
                    Some(ingredients) => {
                        if ing_idx < ingredients.len() {
                            if processing_idx < ingredients[ing_idx].ingredient.processing.len() {
                                let ghost before = ingredients.deep_view();
                                let ghost processing = ingredients[ing_idx as int].ingredient.processing.deep_view();
                                ingredients[ing_idx].ingredient.processing[processing_idx] = new_str;
                                assert(ingredients[ing_idx as int].ingredient.processing.deep_view()
                                    =~= processing.update(processing_idx as int, new_str@));
                                assert(ingredients.deep_view() =~= before.update(
                                    ing_idx as int,
                                    before[ing_idx as int].edited(msg)->0,
                                ));
                                true
                            } else {
                                false
                            }
                        } else {
                            false
                        }
                    },
                    None => false,
                }
            },
            Msg::OnIngredientAddProcessing(ing_idx) => {
                match &mut self.recipe_data.ingredients {
                    Some(ingredients) => {
                        if ing_idx < ingredients.len() {
                            let ghost before = ingredients.deep_view();
                            let ghost processing = ingredients[ing_idx as int].ingredient.processing.deep_view();
                            ingredients[ing_idx].ingredient.processing.push(String::new());
                            assert(ingredients[ing_idx as int].ingredient.processing.deep_view()
                                =~= processing.push(Seq::empty()));
                            assert(ingredients.deep_view() =~= before.update(
                                ing_idx as int,
                                before[ing_idx as int].edited(msg)->0,
                            ));
                            true
                        } else {
                            false
                        }
                    },
                    None => false,
                }
            },
            Msg::OnIngredientAddNotes(ing_idx) => {
                match &mut self.recipe_data.ingredients {
                    Some(ingredients) => {
                        if ing_idx < ingredients.len() {
                            if ingredients[ing_idx].ingredient.notes.is_none() {
                                let ghost before = ingredients.deep_view();
                                ingredients[ing_idx].ingredient.notes = Some(String::new());
                                assert(ingredients.deep_view() =~= before.update(
                                    ing_idx as int,
                                    before[ing_idx as int].edited(msg)->0,
                                ));
                                true
                            } else {
                                false
                            }
                        } else {
                            false
                        }
                    },
                    None => false,
                }
            },
            Msg::OnIngredientNotesInputChanged(ing_idx, new_notes_str) => {
                match &mut self.recipe_data.ingredients {
                    Some(ingredients) => {
                        if ing_idx < ingredients.len() {
                            let ghost before = ingredients.deep_view();
                            ingredients[ing_idx].ingredient.notes = Some(new_notes_str);
                            assert(ingredients.deep_view() =~= before.update(
                                ing_idx as int,
                                before[ing_idx as int].edited(msg)->0,
                            ));
                            true
                        } else {
                            false
                        }
                    },
                    None => false,
                }
            },
            Msg::OnStepInputChanged(step_idx, new_step_str) => {
                match &mut self.recipe_data.steps {
                    Some(steps) => {
                        if step_idx < steps.len() {
                            let ghost before = steps.deep_view();
                            steps[step_idx].step = new_step_str;
                            assert(steps.deep_view() =~= before.update(
                                step_idx as int,
                                before[step_idx as int].edited(msg)->0,
                            ));
                            true
                        } else {
                            false
                        }
                    },
                    None => false,
                }
            },
            Msg::OnStepAddNotes(step_idx) => {
                match &mut self.recipe_data.steps {
                    Some(steps) => {
                        if step_idx < steps.len() {
                            if steps[step_idx].notes.is_none() {
                                let ghost before = steps.deep_view();
                                steps[step_idx].notes = Some(String::new());
                                assert(steps.deep_view() =~= before.update(
                                    step_idx as int,
                                    before[step_idx as int].edited(msg)->0,
                                ));
                                true
                            } else {
                                false
                            }
                        } else {
                            false
                        }
                    },
                    None => false,
                }
            },
            Msg::OnStepNotesInputChanged(step_idx, new_notes_str) => {
                match &mut self.recipe_data.steps {
                    Some(steps) => {
                        if step_idx < steps.len() {
                            if steps[step_idx].notes.is_some() {
                                let ghost before = steps.deep_view();
                                steps[step_idx].notes = Some(new_notes_str);
                                assert(steps.deep_view() =~= before.update(
                                    step_idx as int,
                                    before[step_idx as int].edited(msg)->0,
                                ));
                                true
                            } else {
                                false
                            }
                        } else {
                            false
                        }
                    },
                    None => false,
                }
            },
            Msg::OnYieldAmountInputChanged(yield_idx, parsed) => {
                match &mut self.recipe_data.yields {
                    Some(yields) => {
                        if yield_idx < yields.len() {
                            let ghost before = yields.deep_view();
                            yields[yield_idx].amount = Quantity::or_zero(parsed);
                            assert(yields.deep_view() =~= before.update(
                                yield_idx as int,
                                before[yield_idx as int].edited(msg)->0,
                            ));
                            true
                        } else {
                            false
                        }
                    },
                    None => false,
                }
            },
            Msg::OnYieldUnitInputChanged(yield_idx, unit_str) => {
                match &mut self.recipe_data.yields {
                    Some(yields) => {
                        if yield_idx < yields.len() {
                            let ghost before = yields.deep_view();
                            yields[yield_idx].unit = unit_str;
                            assert(yields.deep_view() =~= before.update(
                                yield_idx as int,
                                before[yield_idx as int].edited(msg)->0,
                            ));
                            true
                        } else {
                            false
                        }
                    },
                    None => false,
                }
            },
            _ => false,
        }
    }
}

} // verus!
