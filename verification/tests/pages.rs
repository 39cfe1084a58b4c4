use recipedia::models::recipe::Recipe;
use recipedia::navigation::{AppRoute, NavLink, RecipesRoute};
use recipedia::recipe_list::{entry_label, entry_path};

fn named(id: &str, name: &str) -> Recipe {
    let mut r = Recipe::new(id);
    r.recipe_name = Some(name.to_string());
    r
}

#[test]
fn list_opens_fetching() {
    let s = recipedia::recipe_list::State::new();
    assert_eq!(s.recipes, None);
    assert!(s.fetching);
    assert_eq!(s.fetch_error_msg, None);
    assert!(!s.offers_retry());
    assert_eq!(s.shown_error(), None);
}

#[test]
fn list_takes_in_the_recipes() {
    let mut s = recipedia::recipe_list::State::new();
    let recipes = vec![named("a", "Soup"), Recipe::new("b")];
    let fetch = s.update(recipedia::recipe_list::Msg::ReceiveFetchRecipesResponse(Ok(
        recipes.clone()
    )));
    assert!(!fetch);
    assert_eq!(s.recipes, Some(recipes));
    assert!(!s.fetching);
    assert_eq!(s.fetch_error_msg, None);
    assert!(!s.offers_retry());
}

#[test]
fn list_keeps_its_recipes_when_a_fetch_fails_and_offers_to_try_again() {
    let mut s = recipedia::recipe_list::State::new();
    s.update(recipedia::recipe_list::Msg::ReceiveFetchRecipesResponse(Ok(vec![named("a", "Soup")])));
    assert!(s.update(recipedia::recipe_list::Msg::GetRecipes));
    assert!(s.fetching);
    s.update(recipedia::recipe_list::Msg::ReceiveFetchRecipesResponse(Err("offline".to_string())));
    assert_eq!(s.recipes, Some(vec![named("a", "Soup")]));
    assert_eq!(s.fetch_error_msg, Some("offline".to_string()));
    assert!(s.offers_retry());
    assert_eq!(s.shown_error(), Some(&"offline".to_string()));
    assert!(s.update(recipedia::recipe_list::Msg::GetRecipes));
    assert!(!s.offers_retry());
    assert_eq!(s.shown_error(), None);
    s.update(recipedia::recipe_list::Msg::ReceiveFetchRecipesResponse(Ok(vec![])));
    assert_eq!(s.recipes, Some(vec![]));
    assert_eq!(s.fetch_error_msg, None);
}

#[test]
fn list_entries() {
    assert_eq!(entry_path(&named("5f00ff10abcdef0123456789", "Soup")), "/recipes/5f00ff10abcdef0123456789");
    assert_eq!(entry_label(&named("a", "Soup")), "Soup");
    assert_eq!(entry_label(&Recipe::new("a")), "");
}

#[test]
fn recipe_page_opens_fetching_its_recipe() {
    let (s, effect) = recipedia::recipe_page::State::create("abc");
    assert_eq!(s.model, Recipe::new("abc"));
    assert!(s.fetching);
    assert_eq!(s.fetch_error_msg, None);
    assert_eq!(effect, recipedia::recipe_page::Effect::FetchRecipe("abc".to_string()));
    assert_eq!(s.title(), "Recipe");
}

#[test]
fn recipe_page_takes_in_the_recipe() {
    let (mut s, _) = recipedia::recipe_page::State::create("abc");
    let r = s.update(recipedia::recipe_page::Msg::ReceiveFetchRecipeResponse(Ok(named(
        "abc", "Soup",
    ))));
    assert_eq!(
        r,
        recipedia::recipe_page::Update {
            should_render: true,
            effect: recipedia::recipe_page::Effect::Nothing
        }
    );
    assert_eq!(s.model, named("abc", "Soup"));
    assert!(!s.fetching);
    assert_eq!(s.fetch_error_msg, Some(String::new()));
    assert_eq!(s.title(), "Soup");
}

#[test]
fn recipe_page_keeps_what_it_knows_when_a_fetch_fails() {
    let (mut s, _) = recipedia::recipe_page::State::create("abc");
    s.update(recipedia::recipe_page::Msg::ReceiveFetchRecipeResponse(Ok(named("abc", "Soup"))));
    let r = s.update(recipedia::recipe_page::Msg::GetRecipe);
    assert_eq!(
        r,
        recipedia::recipe_page::Update {
            should_render: true,
            effect: recipedia::recipe_page::Effect::FetchRecipe("abc".to_string())
        }
    );
    assert!(s.fetching);
    s.update(recipedia::recipe_page::Msg::ReceiveFetchRecipeResponse(Err("gone".to_string())));
    assert_eq!(s.model, named("abc", "Soup"));
    assert!(!s.fetching);
    assert_eq!(s.fetch_error_msg, Some("gone".to_string()));
}

#[test]
fn recipe_page_leads_back_to_the_list() {
    let (mut s, _) = recipedia::recipe_page::State::create("abc");
    let before = s.clone();
    let r = s.update(recipedia::recipe_page::Msg::BackToAllRecipes);
    assert_eq!(
        r,
        recipedia::recipe_page::Update {
            should_render: false,
            effect: recipedia::recipe_page::Effect::Reroute("/recipes/".to_string())
        }
    );
    assert_eq!(s, before);
}

#[test]
fn navigation_marks_the_link_of_the_page_shown() {
    let home = AppRoute::Home;
    let all = AppRoute::Recipes(RecipesRoute::AllRecipes);
    let add = AppRoute::Recipes(RecipesRoute::AddRecipe);
    let one = AppRoute::Recipes(RecipesRoute::ViewRecipe { id: "abc".to_string() });
    let classes = |route: &AppRoute| {
        [
            NavLink::Home.classes(route),
            NavLink::Recipes.classes(route),
            NavLink::AddRecipe.classes(route),
        ]
    };
    assert_eq!(classes(&home), ["active item", "item", "item"]);
    assert_eq!(classes(&all), ["item", "active item", "item"]);
    assert_eq!(classes(&add), ["item", "item", "active item"]);
    assert_eq!(classes(&one), ["item", "item", "item"]);
}

#[test]
fn navigation_paths() {
    assert_eq!(NavLink::Home.path(), "/");
    assert_eq!(NavLink::Recipes.path(), "/recipes/");
    assert_eq!(NavLink::AddRecipe.path(), "/recipes/add");
}

#[test]
fn dummies_are_blank_recipes() {
    assert_eq!(recipedia::recipe_list::State::dummies(0), vec![]);
    assert_eq!(
        recipedia::recipe_list::State::dummies(3),
        vec![Recipe::new(""), Recipe::new(""), Recipe::new("")]
    );
}
