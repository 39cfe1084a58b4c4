use vstd::prelude::*;
use vstd::string::StringExecFns;
use crate::models::recipe::{Recipe, RecipeView};
use crate::models::recipe_request::RecipeRequestView;

verus! {

/// The page that shows one recipe.
#[derive(Clone, Debug, PartialEq)]
pub struct State {
    /// The recipe as far as it is known: at first its identifier only.
    pub model: Recipe,
    /// Whether the recipe has been asked for and no answer has come yet.
    pub fetching: bool,
    /// What to tell the user of the last fetch.
    pub fetch_error_msg: Option<String>,
}

/// What a `State` holds.
pub struct StateView {
    pub model: RecipeView,
    pub fetching: bool,
    pub fetch_error_msg: Option<Seq<char>>,
}

impl View for State {
    type V = StateView;

    open spec fn view(&self) -> StateView {
        StateView {
            model: self.model@,
            fetching: self.fetching,
            fetch_error_msg: self.fetch_error_msg.deep_view(),
        }
    }
}

/// What can happen to the page.
#[derive(Debug, PartialEq)]
pub enum Msg {
    /// The recipe is to be fetched again.
    GetRecipe,
    /// The answer to a fetch: the recipe, or why there is none.
    ReceiveFetchRecipeResponse(Result<Recipe, String>),
    /// The user goes back to the list.
    BackToAllRecipes,
}

/// What is to be done outside the page after something has happened to it.
#[derive(Clone, Debug, PartialEq)]
pub enum Effect {
    /// Nothing.
    Nothing,
    /// Fetch the recipe that bears this identifier.
    FetchRecipe(String),
    /// Show the page at this path.
    Reroute(String),
}

/// What an `Effect` holds.
pub enum EffectView {
    Nothing,
    FetchRecipe(Seq<char>),
    Reroute(Seq<char>),
}

impl View for Effect {
    type V = EffectView;

    open spec fn view(&self) -> EffectView {
        match self {
            Effect::Nothing => EffectView::Nothing,
            Effect::FetchRecipe(recipe_uuid) => EffectView::FetchRecipe(recipe_uuid@),
            Effect::Reroute(path) => EffectView::Reroute(path@),
        }
    }
}

/// What comes of one thing that happened to the page.
#[derive(Clone, Debug, PartialEq)]
pub struct Update {
    /// Whether the page is to be drawn again.
    pub should_render: bool,
    /// What is to be done outside the page.
    pub effect: Effect,
}

impl StateView {
    /// The page as a message leaves it. An answer ends the fetch; a recipe
    /// takes the place of what was known, and a failure is kept to be shown.
    pub open spec fn after(self, msg: Msg) -> StateView {
        match msg {
            Msg::GetRecipe => StateView { fetching: true, ..self },
            Msg::ReceiveFetchRecipeResponse(Ok(recipe)) => StateView {
                model: recipe@,
                fetching: false,
                fetch_error_msg: Some(Seq::empty()),
            },
            Msg::ReceiveFetchRecipeResponse(Err(error)) => StateView {
                fetching: false,
                fetch_error_msg: Some(error@),
                ..self
            },
            Msg::BackToAllRecipes => self,
        }
    }

    /// What is to be done outside the page after a message.
    pub open spec fn effect_of(self, msg: Msg) -> EffectView {
        match msg {
            Msg::GetRecipe => EffectView::FetchRecipe(self.model.recipe_uuid),
            Msg::ReceiveFetchRecipeResponse(_) => EffectView::Nothing,
            Msg::BackToAllRecipes => EffectView::Reroute("/recipes/"@),
        }
    }

    /// The heading of the page: the name of the recipe, or "Recipe" where it
    /// has none.
    pub open spec fn title(self) -> Seq<char> {
        match self.model.recipe_name {
            Some(name) => name,
            None => "Recipe"@,
        }
    }
}

impl State {
    /// The page as it opens on the recipe that bears an identifier: nothing
    /// known but the identifier, and the recipe asked for.
    pub fn create(recipe_uuid: &str) -> (r: (State, Effect))
        ensures
            r.0@ == (StateView {
                model: RecipeView::of_request(recipe_uuid@, RecipeRequestView::empty()),
                fetching: true,
                fetch_error_msg: None,
            }),
            r.1@ == EffectView::FetchRecipe(recipe_uuid@),
    {
        let state = State { model: Recipe::new(recipe_uuid), fetching: true, fetch_error_msg: None };
        (state, Effect::FetchRecipe(String::from_str(recipe_uuid)))
    }

    /// Takes in one thing that happened to the page.
    pub fn update(&mut self, msg: Msg) -> (r: Update)
        ensures
            final(self)@ == old(self)@.after(msg),
            r.should_render == !(msg is BackToAllRecipes),
            r.effect@ == old(self)@.effect_of(msg),
    {
        match msg {
            Msg::GetRecipe => {
                self.fetching = true;
                Update {
                    should_render: true,
                    effect: Effect::FetchRecipe(self.model.recipe_uuid.clone()),
                }
            },
            Msg::ReceiveFetchRecipeResponse(response) => {
                match response {
                    Ok(recipe) => {
                        self.model = recipe;
                        self.fetch_error_msg = Some(String::new());
                    },
                    Err(error) => {
                        self.fetch_error_msg = Some(error);
                    },
                }
                self.fetching = false;
                Update { should_render: true, effect: Effect::Nothing }
            },
            Msg::BackToAllRecipes => {
                let new_route = String::from_str("/recipes/");
                Update { should_render: false, effect: Effect::Reroute(new_route) }
            },
        }
    }

    /// The heading of the page.
    pub fn title(&self) -> (title: String)
        ensures
            title@ == self@.title(),
    {
        match &self.model.recipe_name {
            Some(name) => name.clone(),
            None => String::from_str("Recipe"),
        }
    }
}

} // verus!
