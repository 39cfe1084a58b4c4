use recipedia::codec::{Codec, DecodeError, ExpectedKind};
use recipedia::document::{DocValue, Document};
use recipedia::mapping::{
    doc_from_recipe, doc_from_recipe_request, doc_to_recipe, doc_to_recipe_request,
};
use recipedia::models::book_source::BookSource;
use recipedia::models::haccp_value::HACCPValue;
use recipedia::models::ingredient::{Amount, Ingredient, IngredientData};
use recipedia::models::oven_fan_value::OvenFanValue;
use recipedia::models::recipe::Recipe;
use recipedia::models::recipe_request::RecipeRequest;
use recipedia::models::step::Step;
use recipedia::models::temperature::Temperature;
use recipedia::models::temperature_unit::TemperatureUnit;
use recipedia::models::yields::Yield;
use recipedia::quantity::Quantity;

const ID: &str = "5f00ff10abcdef0123456789";
const ID_BYTES: [u8; 12] = [0x5f, 0x00, 0xff, 0x10, 0xab, 0xcd, 0xef, 0x01, 0x23, 0x45, 0x67, 0x89];

fn q(x: f64) -> Quantity {
    Quantity::from_bits(x.to_bits())
}

fn text(s: &str) -> DocValue {
    DocValue::Text(s.to_string())
}

fn double(x: f64) -> DocValue {
    DocValue::Double(x.to_bits())
}

fn record(fields: Vec<(&str, DocValue)>) -> Document {
    Document { fields: fields.into_iter().map(|(k, v)| (k.to_string(), v)).collect() }
}

fn sub(fields: Vec<(&str, DocValue)>) -> DocValue {
    DocValue::Document(record(fields))
}

fn missing(field: &str) -> DecodeError {
    DecodeError::MissingRequiredField(field.to_string())
}

fn mismatch(field: &str, kind: ExpectedKind) -> DecodeError {
    DecodeError::TypeMismatch(field.to_string(), kind)
}

fn full_request() -> RecipeRequest {
    RecipeRequest {
        recipe_name: Some("Apple pie".to_string()),
        oven_time: Some(q(45.0)),
        notes: Some("Serve warm".to_string()),
        oven_fan: Some(OvenFanValue::Low),
        oven_temp: Some(Temperature { amount: q(356.5), unit: TemperatureUnit::Fahrenheit }),
        source_book: Some(BookSource {
            authors: vec!["Ann".to_string(), "Bob".to_string()],
            title: "Pies".to_string(),
            isbn: Some("978-3-16-148410-0".to_string()),
            notes: None,
        }),
        source_authors: Some(vec!["Grandma".to_string()]),
        source_url: Some("https://example.org/pie".to_string()),
        ingredients: Some(vec![
            Ingredient {
                ingredient: IngredientData {
                    amounts: vec![
                        Amount { amount: q(2.0), unit: "cup".to_string() },
                        Amount { amount: q(1.0), unit: "tsp".to_string() },
                    ],
                    processing: vec!["sliced".to_string(), "peeled".to_string()],
                    notes: Some("tart ones".to_string()),
                    ingredient_name: "apple".to_string(),
                },
                substitutions: vec![IngredientData {
                    amounts: vec![Amount { amount: q(-1.25), unit: String::new() }],
                    processing: vec![],
                    notes: None,
                    ingredient_name: "pear".to_string(),
                }],
            },
            Ingredient::new(),
        ]),
        steps: Some(vec![
            Step {
                step: "Slice the apples".to_string(),
                haccp: Some(HACCPValue {
                    control_point: "Wash hands".to_string(),
                    critical_control_point: String::new(),
                }),
                notes: Some("thin".to_string()),
            },
            Step { step: "Bake".to_string(), haccp: None, notes: None },
        ]),
        yields: Some(vec![
            Yield { amount: q(8.0), unit: "servings".to_string() },
            Yield { amount: q(1.0), unit: "pie".to_string() },
        ]),
    }
}

#[test]
fn request_round_trips() {
    let req = full_request();
    let doc = doc_from_recipe_request(&req);
    assert_eq!(doc_to_recipe_request(&doc), Ok(req));
}

#[test]
fn empty_and_new_requests_round_trip() {
    for req in [RecipeRequest::default(), RecipeRequest::new()] {
        assert_eq!(doc_to_recipe_request(&doc_from_recipe_request(&req)), Ok(req));
    }
}

#[test]
fn recipe_round_trips() {
    let recipe = Recipe::from_request(ID.to_string(), full_request());
    let doc = doc_from_recipe(&recipe).unwrap();
    assert_eq!(doc.fields[0], ("_id".to_string(), DocValue::ObjectId(ID_BYTES)));
    assert_eq!(doc_to_recipe(&doc), Ok(recipe));
    let bare = Recipe::new("000000000000000000000000");
    assert_eq!(doc_to_recipe(&doc_from_recipe(&bare).unwrap()), Ok(bare));
}

#[test]
fn recipe_with_an_identifier_in_capitals_is_read_back_in_lower_case() {
    let recipe = Recipe::new("5F00FF10ABCDEF0123456789");
    let doc = doc_from_recipe(&recipe).unwrap();
    assert_eq!(doc_to_recipe(&doc), Ok(Recipe::new(ID)));
}

#[test]
fn recipe_without_a_store_identifier_has_no_record() {
    assert_eq!(doc_from_recipe(&Recipe::new("")), None);
    assert_eq!(doc_from_recipe(&Recipe::new("soup")), None);
    assert_eq!(doc_from_recipe(&Recipe::new("5f00ff10abcdef012345678")), None);
}

#[test]
fn request_is_written_field_by_field_in_order() {
    let mut req = RecipeRequest::default();
    req.recipe_name = Some("Soup".to_string());
    req.oven_time = Some(q(30.0));
    req.oven_fan = Some(OvenFanValue::High);
    req.oven_temp = Some(Temperature { amount: q(200.0), unit: TemperatureUnit::Celsius });
    req.yields = Some(vec![Yield { amount: q(4.0), unit: "servings".to_string() }]);
    let doc = doc_from_recipe_request(&req);
    let expected = record(vec![
        ("recipe_name", text("Soup")),
        ("oven_time", double(30.0)),
        ("notes", DocValue::Null),
        ("oven_fan", text("High")),
        ("oven_temp", sub(vec![("amount", double(200.0)), ("unit", text("Celsius"))])),
        ("source_book", DocValue::Null),
        ("source_authors", DocValue::Null),
        ("source_url", DocValue::Null),
        ("ingredients", DocValue::Null),
        ("steps", DocValue::Null),
        (
            "yields",
            DocValue::Array(vec![sub(vec![("amount", double(4.0)), ("unit", text("servings"))])]),
        ),
    ]);
    assert_eq!(doc, expected);
}

#[test]
fn missing_values_are_written_as_the_marker() {
    let doc = doc_from_recipe_request(&RecipeRequest::default());
    let keys: Vec<&str> = doc.fields.iter().map(|f| f.0.as_str()).collect();
    assert_eq!(
        keys,
        vec![
            "recipe_name",
            "oven_time",
            "notes",
            "oven_fan",
            "oven_temp",
            "source_book",
            "source_authors",
            "source_url",
            "ingredients",
            "steps",
            "yields"
        ]
    );
    for (_, value) in &doc.fields {
        assert_eq!(*value, DocValue::Null);
    }
    let step = Step { step: "Stir".to_string(), haccp: None, notes: None };
    assert_eq!(
        step.encode(),
        sub(vec![("step", text("Stir")), ("haccp", DocValue::Null), ("notes", DocValue::Null)])
    );
}

#[test]
fn nested_values_are_written_in_full() {
    let ingredient = Ingredient {
        ingredient: IngredientData {
            amounts: vec![Amount { amount: q(2.0), unit: "cup".to_string() }],
            processing: vec!["minced".to_string()],
            notes: None,
            ingredient_name: "onion".to_string(),
        },
        substitutions: vec![],
    };
    assert_eq!(
        ingredient.encode(),
        sub(vec![
            (
                "ingredient",
                sub(vec![
                    (
                        "amounts",
                        DocValue::Array(vec![sub(vec![
                            ("amount", double(2.0)),
                            ("unit", text("cup"))
                        ])])
                    ),
                    ("processing", DocValue::Array(vec![text("minced")])),
                    ("notes", DocValue::Null),
                    ("ingredient_name", text("onion")),
                ])
            ),
            ("substitutions", DocValue::Array(vec![])),
        ])
    );
    let book = BookSource {
        authors: vec!["Ann".to_string()],
        title: "Pies".to_string(),
        isbn: None,
        notes: Some("2nd ed.".to_string()),
    };
    assert_eq!(
        book.encode(),
        sub(vec![
            ("authors", DocValue::Array(vec![text("Ann")])),
            ("title", text("Pies")),
            ("isbn", DocValue::Null),
            ("notes", text("2nd ed.")),
        ])
    );
    let haccp = HACCPValue {
        control_point: "a".to_string(),
        critical_control_point: "b".to_string(),
    };
    assert_eq!(
        haccp.encode(),
        sub(vec![("control_point", text("a")), ("critical_control_point", text("b"))])
    );
}

#[test]
fn whole_quantities_are_written_as_doubles() {
    let y = Yield { amount: q(4.0), unit: "servings".to_string() };
    assert_eq!(y.encode(), sub(vec![("amount", double(4.0)), ("unit", text("servings"))]));
    assert_eq!(q(4.0).encode(), DocValue::Double(0x4010_0000_0000_0000));
}

#[test]
fn absent_fields_read_as_none() {
    let doc = record(vec![("_id", DocValue::ObjectId(ID_BYTES))]);
    assert_eq!(doc_to_recipe(&doc), Ok(Recipe::new(ID)));
    assert_eq!(doc_to_recipe_request(&record(vec![])), Ok(RecipeRequest::default()));
    let nulls = record(vec![
        ("_id", DocValue::ObjectId(ID_BYTES)),
        ("recipe_name", DocValue::Null),
        ("steps", DocValue::Null),
        ("oven_temp", DocValue::Null),
    ]);
    assert_eq!(doc_to_recipe(&nulls), Ok(Recipe::new(ID)));
    assert_eq!(
        Step::decode(&sub(vec![("step", text("Stir"))]), "steps"),
        Ok(Step { step: "Stir".to_string(), haccp: None, notes: None })
    );
}

#[test]
fn unknown_fields_are_passed_over() {
    let doc = record(vec![
        ("schema", DocValue::Int32(3)),
        ("_id", DocValue::ObjectId(ID_BYTES)),
        ("recipe_name", text("Soup")),
        ("rating", DocValue::Other),
    ]);
    let mut expected = Recipe::new(ID);
    expected.recipe_name = Some("Soup".to_string());
    assert_eq!(doc_to_recipe(&doc), Ok(expected));
}

#[test]
fn fields_left_out_that_are_not_required_read_as_empty() {
    assert_eq!(
        HACCPValue::decode(&sub(vec![("control_point", text("Wash"))]), "haccp"),
        Ok(HACCPValue { control_point: "Wash".to_string(), critical_control_point: String::new() })
    );
    assert_eq!(Ingredient::decode(&sub(vec![]), "ingredients"), Ok(Ingredient::default()));
    assert_eq!(
        Temperature::decode(&sub(vec![]), "oven_temp"),
        Ok(Temperature { amount: q(0.0), unit: TemperatureUnit::Celsius })
    );
    assert_eq!(
        Amount::decode(&sub(vec![("unit", text("g"))]), "amounts"),
        Ok(Amount { amount: q(0.0), unit: "g".to_string() })
    );
    assert_eq!(
        BookSource::decode(&sub(vec![("title", text("Pies"))]), "source_book"),
        Ok(BookSource { authors: vec![], title: "Pies".to_string(), isbn: None, notes: None })
    );
}

#[test]
fn required_field_rejection() {
    assert_eq!(
        Step::decode(&sub(vec![("notes", text("n"))]), "steps"),
        Err(missing("step"))
    );
    assert_eq!(
        Step::decode(&sub(vec![("step", DocValue::Null)]), "steps"),
        Err(missing("step"))
    );
    assert_eq!(
        BookSource::decode(
            &sub(vec![("authors", DocValue::Array(vec![text("Ann")]))]),
            "source_book"
        ),
        Err(missing("title"))
    );
    assert_eq!(
        BookSource::decode(&sub(vec![("authors", text("not a list"))]), "source_book"),
        Err(missing("title"))
    );
    assert_eq!(
        Amount::decode(&sub(vec![("amount", double(1.0))]), "amounts"),
        Err(missing("unit"))
    );
    assert_eq!(Yield::decode(&sub(vec![("amount", double(1.0))]), "yields"), Err(missing("unit")));
    assert_eq!(doc_to_recipe(&record(vec![("recipe_name", text("Soup"))])), Err(missing("_id")));
    assert_eq!(
        doc_to_recipe(&record(vec![("_id", DocValue::Null)])),
        Err(missing("_id"))
    );
}

#[test]
fn recipe_with_a_broken_step_or_book_is_not_read() {
    let doc = record(vec![
        ("_id", DocValue::ObjectId(ID_BYTES)),
        ("recipe_name", text("Soup")),
        (
            "steps",
            DocValue::Array(vec![sub(vec![("step", text("Boil"))]), sub(vec![("notes", text("?"))])]),
        ),
    ]);
    assert_eq!(doc_to_recipe(&doc), Err(missing("step")));
    let doc = record(vec![
        ("_id", DocValue::ObjectId(ID_BYTES)),
        ("source_book", sub(vec![("isbn", text("1"))])),
    ]);
    assert_eq!(doc_to_recipe(&doc), Err(missing("title")));
}

#[test]
fn type_mismatches_name_the_field_and_the_kind() {
    assert_eq!(
        doc_to_recipe_request(&record(vec![("recipe_name", DocValue::Int32(1))])),
        Err(mismatch("recipe_name", ExpectedKind::Text))
    );
    assert_eq!(
        doc_to_recipe_request(&record(vec![("oven_time", text("long"))])),
        Err(mismatch("oven_time", ExpectedKind::Number))
    );
    assert_eq!(
        doc_to_recipe_request(&record(vec![("steps", text("stir"))])),
        Err(mismatch("steps", ExpectedKind::List))
    );
    assert_eq!(
        doc_to_recipe_request(&record(vec![("steps", DocValue::Array(vec![text("stir")]))])),
        Err(mismatch("steps", ExpectedKind::Document))
    );
    assert_eq!(
        doc_to_recipe_request(&record(vec![("oven_temp", DocValue::Array(vec![]))])),
        Err(mismatch("oven_temp", ExpectedKind::Document))
    );
    assert_eq!(
        doc_to_recipe_request(&record(vec![("oven_fan", DocValue::Other)])),
        Err(mismatch("oven_fan", ExpectedKind::OvenFan))
    );
    assert_eq!(
        doc_to_recipe_request(&record(vec![(
            "oven_temp",
            sub(vec![("amount", double(1.0)), ("unit", text("Kelvin"))])
        )])),
        Err(mismatch("unit", ExpectedKind::TemperatureUnit))
    );
    assert_eq!(
        doc_to_recipe(&record(vec![("_id", text(ID))])),
        Err(mismatch("_id", ExpectedKind::Identifier))
    );
    assert_eq!(
        doc_to_recipe_request(&record(vec![(
            "source_authors",
            DocValue::Array(vec![text("Ann"), DocValue::Null])
        )])),
        Err(mismatch("source_authors", ExpectedKind::Text))
    );
}

#[test]
fn whole_numbers_are_read_as_quantities() {
    assert_eq!(
        doc_to_recipe_request(&record(vec![("oven_time", DocValue::Int32(30))]))
            .unwrap()
            .oven_time,
        Some(q(30.0))
    );
    assert_eq!(
        doc_to_recipe_request(&record(vec![("oven_time", DocValue::Int64(-45))]))
            .unwrap()
            .oven_time,
        Some(q(-45.0))
    );
    assert_eq!(
        Yield::decode(&sub(vec![("amount", DocValue::Int32(4)), ("unit", text("cups"))]), "yields"),
        Ok(Yield { amount: q(4.0), unit: "cups".to_string() })
    );
    assert_eq!(
        doc_to_recipe_request(&record(vec![("oven_time", DocValue::Int64(1 << 53))])),
        Err(mismatch("oven_time", ExpectedKind::Number))
    );
    assert_eq!(Quantity::decode(&DocValue::Int32(i32::MIN), "amount"), Ok(q(i32::MIN as f64)));
    assert_eq!(
        Quantity::decode(&DocValue::Null, "amount"),
        Err(mismatch("amount", ExpectedKind::Number))
    );
}

#[test]
fn first_failure_decides() {
    let doc = record(vec![
        ("oven_time", text("long")),
        ("recipe_name", DocValue::Int32(1)),
        ("notes", DocValue::Int32(2)),
    ]);
    assert_eq!(doc_to_recipe_request(&doc), Err(mismatch("recipe_name", ExpectedKind::Text)));
    let list = DocValue::Array(vec![
        sub(vec![("unit", text("g"))]),
        sub(vec![("unit", DocValue::Int32(1))]),
        sub(vec![]),
    ]);
    assert_eq!(Vec::<Amount>::decode(&list, "amounts"), Err(mismatch("unit", ExpectedKind::Text)));
}

#[test]
fn first_field_of_a_name_is_the_one_read() {
    let doc = record(vec![("recipe_name", text("first")), ("recipe_name", text("second"))]);
    assert_eq!(doc.get("recipe_name"), Some(&text("first")));
    assert_eq!(doc.get("notes"), None);
    assert_eq!(
        doc_to_recipe_request(&doc).unwrap().recipe_name,
        Some("first".to_string())
    );
}

#[test]
fn list_positional_integrity() {
    let amounts = |first: (f64, &str), second: (f64, &str)| {
        sub(vec![
            (
                "amounts",
                DocValue::Array(vec![
                    sub(vec![("amount", double(first.0)), ("unit", text(first.1))]),
                    sub(vec![("amount", double(second.0)), ("unit", text(second.1))]),
                ]),
            ),
            ("processing", DocValue::Array(vec![])),
            ("notes", DocValue::Null),
            ("ingredient_name", text("sugar")),
        ])
    };
    let decoded = IngredientData::decode(&amounts((2.0, "cup"), (1.0, "tsp")), "ingredient").unwrap();
    assert_eq!(
        decoded.amounts,
        vec![
            Amount { amount: q(2.0), unit: "cup".to_string() },
            Amount { amount: q(1.0), unit: "tsp".to_string() },
        ]
    );
    let swapped = IngredientData::decode(&amounts((1.0, "tsp"), (2.0, "cup")), "ingredient").unwrap();
    assert_eq!(
        swapped.amounts,
        vec![
            Amount { amount: q(1.0), unit: "tsp".to_string() },
            Amount { amount: q(2.0), unit: "cup".to_string() },
        ]
    );
    assert_ne!(decoded, swapped);
}

#[test]
fn legacy_fan_code_in_a_recipe() {
    let mut expected = Recipe::new(ID);
    expected.oven_fan = Some(OvenFanValue::High);
    let legacy = record(vec![("_id", DocValue::ObjectId(ID_BYTES)), ("oven_fan", DocValue::Int32(2))]);
    assert_eq!(doc_to_recipe(&legacy), Ok(expected.clone()));
    let label = record(vec![("_id", DocValue::ObjectId(ID_BYTES)), ("oven_fan", text("high"))]);
    assert_eq!(doc_to_recipe(&label), Ok(expected.clone()));
    let written = doc_from_recipe(&expected).unwrap();
    assert_eq!(written.get("oven_fan"), Some(&text("High")));
}

#[test]
fn copies_of_records_are_equal() {
    let doc = doc_from_recipe_request(&full_request());
    assert_eq!(doc.clone(), doc);
    let value = DocValue::Array(vec![DocValue::Document(doc), DocValue::Other, text("x")]);
    assert_eq!(value.clone(), value);
}

#[test]
fn record_is_built_field_by_field() {
    let doc = Document::new().with("a", DocValue::Int32(1)).with("b", DocValue::Null);
    assert_eq!(doc, record(vec![("a", DocValue::Int32(1)), ("b", DocValue::Null)]));
    assert_eq!(Document::new(), record(vec![]));
}
