use recipedia::models::book_source::BookSource;
use recipedia::models::haccp_value::HACCPValue;
use recipedia::models::ingredient::{Amount, Ingredient, IngredientData};
use recipedia::models::recipe::Recipe;
use recipedia::models::recipe_request::RecipeRequest;
use recipedia::models::step::Step;
use recipedia::models::temperature::Temperature;
use recipedia::models::temperature_unit::TemperatureUnit;
use recipedia::models::yields::Yield;
use recipedia::quantity::Quantity;

fn q(x: f64) -> Quantity {
    Quantity::from_bits(x.to_bits())
}

#[test]
fn quantity_keeps_its_bits() {
    assert_eq!(q(2.5).to_bits(), 2.5f64.to_bits());
    assert_eq!(f64::from_bits(q(-0.75).to_bits()), -0.75);
    assert_eq!(Quantity::zero().to_bits(), 0.0f64.to_bits());
    assert_eq!(Quantity::default(), Quantity::zero());
    assert_ne!(q(0.0), q(-0.0));
}

#[test]
fn quantity_of_an_edit_is_zero_where_nothing_was_read() {
    assert_eq!(Quantity::or_zero(None), q(0.0));
    assert_eq!(Quantity::or_zero(Some(q(12.0))), q(12.0));
}

#[test]
fn new_amount_is_zero_without_unit() {
    let a = Amount::new();
    assert_eq!(a, Amount { amount: q(0.0), unit: String::new() });
    assert_eq!(Amount::default(), a);
}

#[test]
fn new_ingredient_data_has_one_blank_amount() {
    let d = IngredientData::new();
    assert_eq!(d.amounts, vec![Amount::new()]);
    assert!(d.processing.is_empty());
    assert_eq!(d.notes, None);
    assert_eq!(d.ingredient_name, "");
    assert!(IngredientData::default().amounts.is_empty());
}

#[test]
fn new_ingredient_has_a_blank_entry_and_no_substitutions() {
    let i = Ingredient::new();
    assert_eq!(i.ingredient, IngredientData::new());
    assert!(i.substitutions.is_empty());
    assert_eq!(Ingredient::default().ingredient, IngredientData::default());
}

#[test]
fn amount_is_shown_with_its_unit() {
    let d = IngredientData {
        amounts: vec![
            Amount { amount: q(2.0), unit: "cup".to_string() },
            Amount { amount: q(1.5), unit: String::new() },
        ],
        processing: vec![],
        notes: None,
        ingredient_name: "flour".to_string(),
    };
    assert_eq!(d.get_amount_str(0, "2"), "2 cup");
    assert_eq!(d.get_amount_str(1, "1.5"), "1.5");
    assert_eq!(d.get_amount_str(2, "7"), "");
    assert_eq!(d.get_amount_str(usize::MAX, "7"), "");
}

#[test]
fn new_yield_counts_servings() {
    assert_eq!(Yield::new(), Yield { amount: q(0.0), unit: "servings".to_string() });
    assert_eq!(Yield::default(), Yield { amount: q(0.0), unit: String::new() });
}

#[test]
fn new_request_has_one_yield_and_nothing_else() {
    let r = RecipeRequest::new();
    assert_eq!(r.yields, Some(vec![Yield::new()]));
    assert_eq!(r.recipe_name, None);
    assert_eq!(r.steps, None);
    assert_eq!(r.ingredients, None);
    let mut blank = RecipeRequest::default();
    assert_eq!(blank.yields, None);
    blank.yields = Some(vec![Yield::new()]);
    assert_eq!(blank, r);
}

#[test]
fn request_is_valid_with_a_name_of_four_characters() {
    let mut r = RecipeRequest::new();
    assert!(!r.valid());
    r.recipe_name = Some("Pie".to_string());
    assert!(!r.valid());
    r.recipe_name = Some("Soup".to_string());
    assert!(r.valid());
    r.recipe_name = Some("Brüh".to_string());
    assert!(r.valid());
    r.recipe_name = Some("Brü".to_string());
    assert!(!r.valid());
    r.recipe_name = Some(String::new());
    assert!(!r.valid());
}

#[test]
fn new_recipe_holds_its_identifier_only() {
    let r = Recipe::new("5f00ff10abcdef0123456789");
    assert_eq!(r.recipe_uuid, "5f00ff10abcdef0123456789");
    assert_eq!(r.recipe_name, None);
    assert_eq!(r.oven_fan, None);
    assert_eq!(r.oven_temp, None);
    assert_eq!(r.oven_time, None);
    assert_eq!(r.ingredients, None);
    assert_eq!(r.notes, None);
    assert_eq!(r.source_book, None);
    assert_eq!(r.source_authors, None);
    assert_eq!(r.source_url, None);
    assert_eq!(r.steps, None);
    assert_eq!(r.yields, None);
}

#[test]
fn recipe_of_a_request_holds_what_the_request_holds() {
    let mut req = RecipeRequest::new();
    req.recipe_name = Some("Soup".to_string());
    req.oven_time = Some(q(45.0));
    req.oven_temp = Some(Temperature { amount: q(180.0), unit: TemperatureUnit::Celsius });
    req.steps = Some(vec![Step { step: "Boil".to_string(), haccp: None, notes: None }]);
    req.source_book = Some(BookSource {
        authors: vec!["A".to_string()],
        title: "T".to_string(),
        isbn: None,
        notes: None,
    });
    let r = Recipe::from_request("abc".to_string(), req.clone());
    assert_eq!(r.recipe_uuid, "abc");
    assert_eq!(r.recipe_name, req.recipe_name);
    assert_eq!(r.oven_time, req.oven_time);
    assert_eq!(r.oven_temp, req.oven_temp);
    assert_eq!(r.steps, req.steps);
    assert_eq!(r.source_book, req.source_book);
    assert_eq!(r.yields, req.yields);
}

#[test]
fn defaults_are_empty() {
    assert_eq!(Step::default(), Step { step: String::new(), haccp: None, notes: None });
    assert_eq!(
        BookSource::default(),
        BookSource { authors: vec![], title: String::new(), isbn: None, notes: None }
    );
    assert_eq!(
        Temperature::default(),
        Temperature { amount: q(0.0), unit: TemperatureUnit::Celsius }
    );
}

#[test]
fn quantities_below_zero() {
    assert!(q(-1.0).is_negative());
    assert!(q(-1e-300).is_negative());
    assert!(q(f64::NEG_INFINITY).is_negative());
    assert!(q(-f64::MIN_POSITIVE / 4.0).is_negative());
    assert!(!q(0.0).is_negative());
    assert!(!q(-0.0).is_negative());
    assert!(!q(45.0).is_negative());
    assert!(!q(f64::INFINITY).is_negative());
    assert!(!q(f64::NAN).is_negative());
    assert!(!q(-f64::NAN).is_negative());
}

#[test]
fn haccp_note_with_both_points_is_told_apart() {
    let note = |a: &str, b: &str| HACCPValue {
        control_point: a.to_string(),
        critical_control_point: b.to_string(),
    };
    assert!(note("wash", "165F").carries_both());
    assert!(!note("wash", "").carries_both());
    assert!(!note("", "165F").carries_both());
    assert!(!note("", "").carries_both());
}

#[test]
fn whole_numbers_are_the_doubles_of_the_same_value() {
    let safe: i64 = (1 << 53) - 1;
    let cases: [i64; 24] = [
        0,
        1,
        -1,
        2,
        3,
        -3,
        7,
        10,
        45,
        180,
        255,
        256,
        1000,
        -1000,
        65535,
        i32::MAX as i64,
        i32::MIN as i64,
        1 << 52,
        (1 << 52) + 1,
        (1 << 52) - 1,
        safe,
        -safe,
        123456789012345,
        -987654321098765,
    ];
    for n in cases {
        assert_eq!(Quantity::from_whole(n), Some(q(n as f64)), "{}", n);
    }
    assert_eq!(Quantity::from_whole(30), Some(Quantity::from_bits(0x403e_0000_0000_0000)));
    assert_eq!(Quantity::from_whole(0).unwrap().to_bits(), 0);
}

#[test]
fn whole_numbers_that_are_not_safe_are_no_quantity() {
    assert_eq!(Quantity::from_whole(1 << 53), None);
    assert_eq!(Quantity::from_whole(-(1 << 53)), None);
    assert_eq!(Quantity::from_whole((1 << 53) + 1), None);
    assert_eq!(Quantity::from_whole(i64::MAX), None);
    assert_eq!(Quantity::from_whole(i64::MIN), None);
}

#[test]
fn finite_quantities() {
    assert!(q(0.0).is_finite());
    assert!(q(-0.0).is_finite());
    assert!(q(-3.5).is_finite());
    assert!(q(f64::MAX).is_finite());
    assert!(q(f64::MIN_POSITIVE / 8.0).is_finite());
    assert!(!q(f64::INFINITY).is_finite());
    assert!(!q(f64::NEG_INFINITY).is_finite());
    assert!(!q(f64::NAN).is_finite());
    assert!(!q(-f64::NAN).is_finite());
}

#[test]
fn duration_of_an_edit_is_zero_where_the_text_reads_as_none() {
    assert_eq!(Quantity::duration_or_zero(None), q(0.0));
    assert_eq!(Quantity::duration_or_zero(Some(q(30.0))), q(30.0));
    assert_eq!(Quantity::duration_or_zero(Some(q(0.25))), q(0.25));
    assert_eq!(Quantity::duration_or_zero(Some(q(-30.0))), q(0.0));
    assert_eq!(Quantity::duration_or_zero(Some(q(f64::INFINITY))), q(0.0));
    assert_eq!(Quantity::duration_or_zero(Some(q(f64::NEG_INFINITY))), q(0.0));
    assert_eq!(Quantity::duration_or_zero(Some(q(f64::NAN))), q(0.0));
}
