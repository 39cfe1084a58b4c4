use recipedia::add_recipe::{CreateRecipeResponse, Effect, Msg, State, Update};
use recipedia::models::ingredient::{Amount, Ingredient, IngredientData};
use recipedia::models::oven_fan_value::OvenFanValue;
use recipedia::models::recipe_request::RecipeRequest;
use recipedia::models::step::Step;
use recipedia::models::temperature::Temperature;
use recipedia::models::temperature_unit::TemperatureUnit;
use recipedia::models::yields::Yield;
use recipedia::quantity::Quantity;

fn q(x: f64) -> Quantity {
    Quantity::from_bits(x.to_bits())
}

fn drawn() -> Update {
    Update { should_render: true, effect: Effect::Nothing }
}

fn left() -> Update {
    Update { should_render: false, effect: Effect::Nothing }
}

fn form_with_two_ingredients() -> State {
    let mut s = State::new();
    assert_eq!(s.update(Msg::OnAddIngredient), drawn());
    assert_eq!(s.update(Msg::OnAddIngredient), drawn());
    s
}

#[test]
fn new_form_is_empty() {
    let s = State::new();
    assert_eq!(s.recipe_data, RecipeRequest::default());
    assert!(!s.posting);
    assert_eq!(s.post_response_display_msg, None);
}

#[test]
fn noop_changes_nothing_and_is_not_drawn() {
    let mut s = State::new();
    assert_eq!(s.update(Msg::Noop), left());
    assert_eq!(s, State::new());
}

#[test]
fn adding_the_recipe_sends_it() {
    let mut s = State::new();
    let r = s.update(Msg::OnAddRecipe);
    assert_eq!(r, Update { should_render: true, effect: Effect::PostRecipe });
    assert!(s.posting);
    assert_eq!(s.recipe_data, RecipeRequest::default());
}

#[test]
fn answer_of_the_service_clears_the_head_of_the_form_and_reroutes() {
    let mut s = State::new();
    s.update(Msg::OnRecipeNameInputChanged("Soup".to_string()));
    s.update(Msg::OnRecipeOvenTimeInputChanged(Some(q(10.0))));
    s.update(Msg::OnRecipeOvenFanSelectChanged("Low".to_string()));
    s.update(Msg::OnRecipeNotesInputChanged("n".to_string()));
    s.update(Msg::OnAddRecipe);
    let r = s.update(Msg::OnReceivePostResponse(Ok(CreateRecipeResponse {
        status: 201,
        recipe_uuid: "5f00ff10abcdef0123456789".to_string(),
    })));
    assert_eq!(
        r,
        Update {
            should_render: true,
            effect: Effect::Reroute("/recipes/5f00ff10abcdef0123456789".to_string())
        }
    );
    assert!(!s.posting);
    assert_eq!(s.recipe_data.recipe_name, None);
    assert_eq!(s.recipe_data.oven_time, None);
    assert_eq!(s.recipe_data.oven_fan, None);
    assert_eq!(s.recipe_data.notes, Some("n".to_string()));
    assert_eq!(s.post_response_display_msg, Some("Successfully added recipe".to_string()));
}

#[test]
fn failure_of_the_service_is_told() {
    let mut s = State::new();
    s.update(Msg::OnRecipeNameInputChanged("Soup".to_string()));
    s.update(Msg::OnAddRecipe);
    let r = s.update(Msg::OnReceivePostResponse(Err("timeout".to_string())));
    assert_eq!(r, drawn());
    assert!(!s.posting);
    assert_eq!(s.recipe_data.recipe_name, None);
    assert_eq!(s.post_response_display_msg, Some("Error adding recipe".to_string()));
}

#[test]
fn head_fields_take_what_is_typed() {
    let mut s = State::new();
    assert_eq!(s.update(Msg::OnRecipeNameInputChanged("Soup".to_string())), drawn());
    assert_eq!(s.update(Msg::OnRecipeOvenTimeInputChanged(Some(q(12.5)))), drawn());
    assert_eq!(s.update(Msg::OnRecipeNotesInputChanged("hot".to_string())), drawn());
    assert_eq!(s.update(Msg::OnRecipeSourceUrlInputChanged("http://x".to_string())), drawn());
    assert_eq!(s.recipe_data.recipe_name, Some("Soup".to_string()));
    assert_eq!(s.recipe_data.oven_time, Some(q(12.5)));
    assert_eq!(s.recipe_data.notes, Some("hot".to_string()));
    assert_eq!(s.recipe_data.source_url, Some("http://x".to_string()));
    assert_eq!(s.update(Msg::OnRecipeOvenTimeInputChanged(None)), drawn());
    assert_eq!(s.recipe_data.oven_time, Some(q(0.0)));
}

#[test]
fn fan_select_takes_a_label_or_nothing() {
    let mut s = State::new();
    assert_eq!(s.update(Msg::OnRecipeOvenFanSelectChanged("High".to_string())), drawn());
    assert_eq!(s.recipe_data.oven_fan, Some(OvenFanValue::High));
    assert_eq!(s.update(Msg::OnRecipeOvenFanSelectChanged("off".to_string())), drawn());
    assert_eq!(s.recipe_data.oven_fan, Some(OvenFanValue::Off));
    assert_eq!(s.update(Msg::OnRecipeOvenFanSelectChanged(String::new())), drawn());
    assert_eq!(s.recipe_data.oven_fan, None);
}

#[test]
fn oven_temperature_is_edited_only_where_there_is_one() {
    let mut s = State::new();
    assert_eq!(s.update(Msg::OnRecipeOvenTempAmountInputChanged(Some(q(180.0)))), drawn());
    assert_eq!(s.recipe_data.oven_temp, None);
    assert_eq!(s.update(Msg::OnRecipeOvenTempUnitInputChanged("Fahrenheit".to_string())), drawn());
    assert_eq!(s.recipe_data.oven_temp, None);
    s.recipe_data.oven_temp = Some(Temperature { amount: q(1.0), unit: TemperatureUnit::Celsius });
    s.update(Msg::OnRecipeOvenTempAmountInputChanged(Some(q(180.0))));
    assert_eq!(
        s.recipe_data.oven_temp,
        Some(Temperature { amount: q(180.0), unit: TemperatureUnit::Celsius })
    );
    s.update(Msg::OnRecipeOvenTempUnitInputChanged("fahrenheit".to_string()));
    assert_eq!(
        s.recipe_data.oven_temp,
        Some(Temperature { amount: q(180.0), unit: TemperatureUnit::Fahrenheit })
    );
    s.update(Msg::OnRecipeOvenTempAmountInputChanged(None));
    assert_eq!(
        s.recipe_data.oven_temp,
        Some(Temperature { amount: q(0.0), unit: TemperatureUnit::Fahrenheit })
    );
}

#[test]
fn lists_start_with_their_first_item_and_end_with_their_last() {
    let mut s = State::new();
    assert_eq!(s.update(Msg::OnAddYield), drawn());
    assert_eq!(s.recipe_data.yields, Some(vec![Yield::new()]));
    assert_eq!(s.update(Msg::OnAddYield), drawn());
    assert_eq!(s.recipe_data.yields, Some(vec![Yield::new(), Yield::new()]));
    assert_eq!(s.update(Msg::OnRemoveYield(2)), left());
    assert_eq!(s.update(Msg::OnRemoveYield(0)), drawn());
    assert_eq!(s.recipe_data.yields, Some(vec![Yield::new()]));
    assert_eq!(s.update(Msg::OnRemoveYield(0)), drawn());
    assert_eq!(s.recipe_data.yields, None);
    assert_eq!(s.update(Msg::OnRemoveYield(0)), left());

    assert_eq!(s.update(Msg::OnAddStep), drawn());
    assert_eq!(s.recipe_data.steps, Some(vec![Step::default()]));
    assert_eq!(s.update(Msg::OnRemoveStep(1)), left());
    assert_eq!(s.update(Msg::OnRemoveStep(0)), drawn());
    assert_eq!(s.recipe_data.steps, None);

    assert_eq!(s.update(Msg::OnAddIngredient), drawn());
    assert_eq!(s.recipe_data.ingredients, Some(vec![Ingredient::new()]));
    assert_eq!(s.update(Msg::OnRemoveIngredient(0)), drawn());
    assert_eq!(s.recipe_data.ingredients, None);
    assert_eq!(s.update(Msg::OnRemoveIngredient(0)), left());
}

#[test]
fn removing_keeps_the_order_of_the_rest() {
    let mut s = State::new();
    for name in ["a", "b", "c"] {
        s.update(Msg::OnAddStep);
        let last = s.recipe_data.steps.as_ref().unwrap().len() - 1;
        s.update(Msg::OnStepInputChanged(last, name.to_string()));
    }
    assert_eq!(s.update(Msg::OnRemoveStep(1)), drawn());
    let steps: Vec<String> =
        s.recipe_data.steps.as_ref().unwrap().iter().map(|x| x.step.clone()).collect();
    assert_eq!(steps, vec!["a".to_string(), "c".to_string()]);
}

#[test]
fn ingredient_edits_change_the_one_ingredient() {
    let mut s = form_with_two_ingredients();
    assert_eq!(s.update(Msg::OnIngredientNameInputChanged(1, "salt".to_string())), drawn());
    assert_eq!(s.update(Msg::OnIngredientAmountInputChanged(1, 0, Some(q(2.0)))), drawn());
    assert_eq!(s.update(Msg::OnIngredientAmountUnitInputChanged(1, 0, "tsp".to_string())), drawn());
    assert_eq!(s.update(Msg::OnIngredientAddProcessing(1)), drawn());
    assert_eq!(s.update(Msg::OnIngredientAddProcessing(1)), drawn());
    assert_eq!(
        s.update(Msg::OnIngredientProcessingInputChanged(1, 1, "ground".to_string())),
        drawn()
    );
    assert_eq!(s.update(Msg::OnIngredientNotesInputChanged(1, "sea salt".to_string())), drawn());
    let expected = Ingredient {
        ingredient: IngredientData {
            amounts: vec![Amount { amount: q(2.0), unit: "tsp".to_string() }],
            processing: vec![String::new(), "ground".to_string()],
            notes: Some("sea salt".to_string()),
            ingredient_name: "salt".to_string(),
        },
        substitutions: vec![],
    };
    assert_eq!(s.recipe_data.ingredients, Some(vec![Ingredient::new(), expected]));
    assert_eq!(s.update(Msg::OnIngredientAmountInputChanged(1, 0, None)), drawn());
    assert_eq!(
        s.recipe_data.ingredients.as_ref().unwrap()[1].ingredient.amounts[0],
        Amount { amount: q(0.0), unit: "tsp".to_string() }
    );
}

#[test]
fn edits_of_what_is_not_there_change_nothing() {
    let mut s = form_with_two_ingredients();
    let before = s.clone();
    assert_eq!(s.update(Msg::OnIngredientNameInputChanged(2, "x".to_string())), left());
    assert_eq!(s.update(Msg::OnIngredientAmountInputChanged(0, 1, Some(q(1.0)))), left());
    assert_eq!(s.update(Msg::OnIngredientAmountInputChanged(5, 0, Some(q(1.0)))), left());
    assert_eq!(s.update(Msg::OnIngredientAmountUnitInputChanged(0, 1, "g".to_string())), left());
    assert_eq!(s.update(Msg::OnIngredientProcessingInputChanged(0, 0, "x".to_string())), left());
    assert_eq!(s.update(Msg::OnIngredientAddProcessing(2)), left());
    assert_eq!(s.update(Msg::OnIngredientAddNotes(2)), left());
    assert_eq!(s.update(Msg::OnIngredientNotesInputChanged(2, "x".to_string())), left());
    assert_eq!(s.update(Msg::OnStepInputChanged(0, "x".to_string())), left());
    assert_eq!(s.update(Msg::OnStepAddNotes(0)), left());
    assert_eq!(s.update(Msg::OnStepNotesInputChanged(0, "x".to_string())), left());
    assert_eq!(s.update(Msg::OnYieldAmountInputChanged(0, Some(q(1.0)))), left());
    assert_eq!(s.update(Msg::OnYieldUnitInputChanged(0, "x".to_string())), left());
    assert_eq!(s, before);
}

#[test]
fn notes_are_added_once() {
    let mut s = form_with_two_ingredients();
    assert_eq!(s.update(Msg::OnIngredientAddNotes(0)), drawn());
    assert_eq!(s.recipe_data.ingredients.as_ref().unwrap()[0].ingredient.notes, Some(String::new()));
    assert_eq!(s.update(Msg::OnIngredientNotesInputChanged(0, "n".to_string())), drawn());
    assert_eq!(s.update(Msg::OnIngredientAddNotes(0)), left());
    assert_eq!(
        s.recipe_data.ingredients.as_ref().unwrap()[0].ingredient.notes,
        Some("n".to_string())
    );
}

#[test]
fn step_notes_are_edited_only_once_they_are_there() {
    let mut s = State::new();
    s.update(Msg::OnAddStep);
    assert_eq!(s.update(Msg::OnStepInputChanged(0, "Boil".to_string())), drawn());
    assert_eq!(s.update(Msg::OnStepNotesInputChanged(0, "x".to_string())), left());
    assert_eq!(s.recipe_data.steps.as_ref().unwrap()[0].notes, None);
    assert_eq!(s.update(Msg::OnStepAddNotes(0)), drawn());
    assert_eq!(s.update(Msg::OnStepAddNotes(0)), left());
    assert_eq!(s.update(Msg::OnStepNotesInputChanged(0, "x".to_string())), drawn());
    assert_eq!(
        s.recipe_data.steps,
        Some(vec![Step { step: "Boil".to_string(), haccp: None, notes: Some("x".to_string()) }])
    );
}

#[test]
fn yield_edits() {
    let mut s = State::new();
    s.update(Msg::OnAddYield);
    s.update(Msg::OnAddYield);
    assert_eq!(s.update(Msg::OnYieldAmountInputChanged(1, Some(q(6.0)))), drawn());
    assert_eq!(s.update(Msg::OnYieldUnitInputChanged(1, "cups".to_string())), drawn());
    assert_eq!(
        s.recipe_data.yields,
        Some(vec![Yield::new(), Yield { amount: q(6.0), unit: "cups".to_string() }])
    );
    assert_eq!(s.update(Msg::OnYieldAmountInputChanged(0, None)), drawn());
    assert_eq!(s.recipe_data.yields.as_ref().unwrap()[0], Yield::new());
}

#[test]
fn oven_time_is_a_number_not_below_zero() {
    let mut s = State::new();
    for bad in [-5.0, -1e-9, f64::NEG_INFINITY, f64::INFINITY, f64::NAN, -f64::NAN] {
        s.update(Msg::OnRecipeOvenTimeInputChanged(Some(q(45.0))));
        assert_eq!(s.update(Msg::OnRecipeOvenTimeInputChanged(Some(q(bad)))), drawn());
        assert_eq!(s.recipe_data.oven_time, Some(q(0.0)), "{}", bad);
    }
    for good in [0.0, 0.5, 45.0, 1e300, f64::MAX, f64::MIN_POSITIVE] {
        assert_eq!(s.update(Msg::OnRecipeOvenTimeInputChanged(Some(q(good)))), drawn());
        assert_eq!(s.recipe_data.oven_time, Some(q(good)), "{}", good);
    }
    s.update(Msg::OnRecipeOvenTimeInputChanged(None));
    assert_eq!(s.recipe_data.oven_time, Some(q(0.0)));
}

#[test]
fn unknown_temperature_scale_leaves_the_form_as_it_is() {
    let mut s = State::new();
    assert_eq!(s.update(Msg::OnRecipeOvenTempUnitInputChanged("Kelvin".to_string())), drawn());
    assert_eq!(s.recipe_data.oven_temp, None);
    s.recipe_data.oven_temp =
        Some(Temperature { amount: q(180.0), unit: TemperatureUnit::Fahrenheit });
    let before = s.clone();
    assert_eq!(s.update(Msg::OnRecipeOvenTempUnitInputChanged("Kelvin".to_string())), drawn());
    assert_eq!(s, before);
    assert_eq!(s.update(Msg::OnRecipeOvenTempUnitInputChanged(String::new())), drawn());
    assert_eq!(s, before);
    assert_eq!(s.update(Msg::OnRecipeOvenTempUnitInputChanged("CELSIUS".to_string())), drawn());
    assert_eq!(
        s.recipe_data.oven_temp,
        Some(Temperature { amount: q(180.0), unit: TemperatureUnit::Celsius })
    );
}
