use vstd::prelude::*;
use vstd::string::StringExecFns;
use crate::models::recipe::{Recipe, RecipeView};
use crate::models::recipe_request::RecipeRequestView;

verus! {

/// The page that lists the recipes.
#[derive(Clone, Debug, PartialEq)]
pub struct State {
    /// The recipes, once they have been fetched.
    pub recipes: Option<Vec<Recipe>>,
    /// Whether the recipes have been asked for and no answer has come yet.
    pub fetching: bool,
    /// Why the last fetch failed, if it did.
    pub fetch_error_msg: Option<String>,
}

/// What a `State` holds.
pub struct StateView {
    pub recipes: Option<Seq<RecipeView>>,
    pub fetching: bool,
    pub fetch_error_msg: Option<Seq<char>>,
}

impl View for State {
    type V = StateView;

    open spec fn view(&self) -> StateView {
        StateView {
            recipes: self.recipes.deep_view(),
            fetching: self.fetching,
            fetch_error_msg: self.fetch_error_msg.deep_view(),
        }
    }
}

/// What can happen to the page.
#[derive(Debug, PartialEq)]
pub enum Msg {
    /// The user asks for the recipes again.
    GetRecipes,
    /// The answer to a fetch: the recipes, or why there are none.
    ReceiveFetchRecipesResponse(Result<Vec<Recipe>, String>),
}

impl StateView {
    /// The page as a message leaves it. An answer ends the fetch; one that
    /// fails leaves the recipes that were there.
    pub open spec fn after(self, msg: Msg) -> StateView {
        match msg {
            Msg::GetRecipes => StateView { fetching: true, ..self },
            Msg::ReceiveFetchRecipesResponse(Ok(recipes)) => StateView {
                recipes: Some(recipes.deep_view()),
                fetching: false,
                fetch_error_msg: None,
            },
            Msg::ReceiveFetchRecipesResponse(Err(error)) => StateView {
                fetching: false,
                fetch_error_msg: Some(error@),
                ..self
            },
        }
    }

    /// Whether the user is offered to try again: after a failure, and not
    /// while a fetch is under way.
    pub open spec fn offers_retry(self) -> bool {
        self.fetch_error_msg is Some && !self.fetching
    }

    /// The failure to show: none while a fetch is under way.
    pub open spec fn shown_error(self) -> Option<Seq<char>> {
        if self.fetching {
            None
        } else {
            self.fetch_error_msg
        }
    }
}

/// The path of the page of a recipe.
pub open spec fn recipe_path(recipe_uuid: Seq<char>) -> Seq<char> {
    "/recipes/"@ + recipe_uuid
}

/// The text under which a recipe is listed: its name, or nothing where it
/// has none.
pub open spec fn entry_text(recipe: RecipeView) -> Seq<char> {
    match recipe.recipe_name {
        Some(name) => name,
        None => Seq::empty(),
    }
}

impl State {
    /// The page as it opens: nothing yet, and the recipes asked for.
    pub fn new() -> (s: State)
        ensures
            s@ == (StateView { recipes: None, fetching: true, fetch_error_msg: None }),
    {
        State { recipes: None, fetching: true, fetch_error_msg: None }
    }

    /// Takes in one thing that happened to the page. Says whether the
    /// recipes are to be fetched; the page is drawn again in any case.
    pub fn update(&mut self, msg: Msg) -> (fetch: bool)
        ensures
            final(self)@ == old(self)@.after(msg),
            fetch == (msg is GetRecipes),
    {
        match msg {
            Msg::GetRecipes => {
                self.fetching = true;
                true
            },
            Msg::ReceiveFetchRecipesResponse(response) => {
                match response {
                    Ok(recipes) => {
                        self.recipes = Some(recipes);
                        self.fetch_error_msg = None;
                    },
                    Err(error) => {
                        self.fetch_error_msg = Some(error);
                    },
                }
                self.fetching = false;
                false
            },
        }
    }

    /// As many recipes as asked for that hold nothing, not even an
    /// identifier: something to list while there is nothing to fetch.
    pub fn dummies(size: u32) -> (recipes: Vec<Recipe>)
        ensures
            recipes@.len() == size,
            forall|i: int|
                0 <= i < size ==> (#[trigger] recipes@[i])@ == RecipeView::of_request(
                    Seq::empty(),
                    RecipeRequestView::empty(),
                ),
    {
        let mut zero_vec: Vec<Recipe> = Vec::new();
        let mut i: u32 = 0;
        while i < size
            invariant
                i <= size,
                zero_vec@.len() == i,
                forall|j: int|
                    0 <= j < i ==> (#[trigger] zero_vec@[j])@ == RecipeView::of_request(
                        Seq::empty(),
                        RecipeRequestView::empty(),
                    ),
            decreases size - i,
        {
            let blank = Recipe::new("");
            proof {
                reveal_strlit("");
                assert(""@ =~= Seq::<char>::empty());
            }
            zero_vec.push(blank);
            i += 1;
        }
        zero_vec
    }

    /// Whether the user is offered to try again.
    pub fn offers_retry(&self) -> (offered: bool)
        ensures
            offered == self@.offers_retry(),
    {
        self.fetch_error_msg.is_some() && !self.fetching
    }

    /// The failure to show, if any.
    pub fn shown_error(&self) -> (error: Option<&String>)
        ensures
            error.deep_view() == self@.shown_error(),
    {
        if self.fetching {
            None
        } else {
            self.fetch_error_msg.as_ref()
        }
    }
}

/// The path of the page of a recipe.
pub fn entry_path(recipe: &Recipe) -> (path: String)
    ensures
        path@ == recipe_path(recipe@.recipe_uuid),
{
    String::from_str("/recipes/").concat(recipe.recipe_uuid.as_str())
}

/// The text under which a recipe is listed.
pub fn entry_label(recipe: &Recipe) -> (label: String)
    ensures
        label@ == entry_text(recipe@),
{
    match &recipe.recipe_name {
        Some(name) => name.clone(),
        None => String::new(),
    }
}

} // verus!
