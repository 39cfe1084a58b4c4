use vstd::prelude::*;

verus! {

/// A page among those of the recipes.
#[derive(Clone, Debug, PartialEq)]
pub enum RecipesRoute {
    /// The form on which a recipe is entered.
    AddRecipe,
    /// The page of one recipe.
    ViewRecipe { id: String },
    /// The list of the recipes.
    AllRecipes,
}

/// A page of the application.
#[derive(Clone, Debug, PartialEq)]
pub enum AppRoute {
    Recipes(RecipesRoute),
    Home,
}

/// The links of the navigation bar.
#[derive(Clone, Copy, Debug, PartialEq, Eq, Structural)]
pub enum NavLink {
    Home,
    Recipes,
    AddRecipe,
}

/// The link that leads to the page that is shown, if one does. The page of a
/// single recipe has no link of its own.
pub open spec fn active_link(switch: AppRoute) -> Option<NavLink> {
    match switch {
        AppRoute::Home => Some(NavLink::Home),
        AppRoute::Recipes(RecipesRoute::AllRecipes) => Some(NavLink::Recipes),
        AppRoute::Recipes(RecipesRoute::AddRecipe) => Some(NavLink::AddRecipe),
        AppRoute::Recipes(RecipesRoute::ViewRecipe { .. }) => None,
    }
}

/// The style classes of a link: "active item" for the link that leads to the
/// page that is shown, "item" for the others.
pub open spec fn link_classes(switch: AppRoute, link: NavLink) -> Seq<char> {
    if active_link(switch) == Some(link) {
        "active item"@
    } else {
        "item"@
    }
}

/// The path that a link leads to.
pub open spec fn link_path(link: NavLink) -> Seq<char> {
    match link {
        NavLink::Home => "/"@,
        NavLink::Recipes => "/recipes/"@,
        NavLink::AddRecipe => "/recipes/add"@,
    }
}

impl NavLink {
    /// The style classes of this link while a page is shown.
    pub fn classes(&self, switch: &AppRoute) -> (classes: &'static str)
        ensures
            classes@ == link_classes(*switch, *self),
    {
        let item: &'static str = "item";
        let active_item: &'static str = "active item";
        match self {
            NavLink::Home => match switch {
                AppRoute::Home => active_item,
                _ => item,
            },
            NavLink::Recipes => match switch {
                AppRoute::Recipes(recipes_route) => match recipes_route {
                    RecipesRoute::AllRecipes => active_item,
                    _ => item,
                },
                _ => item,
            },
            NavLink::AddRecipe => match switch {
                AppRoute::Recipes(recipes_route) => match recipes_route {
                    RecipesRoute::AddRecipe => active_item,
                    _ => item,
                },
                _ => item,
            },
        }
    }

    /// The path that this link leads to.
    pub fn path(&self) -> (path: &'static str)
        ensures
            path@ == link_path(*self),
    {
        match self {
            NavLink::Home => "/",
            NavLink::Recipes => "/recipes/",
            NavLink::AddRecipe => "/recipes/add",
        }
    }
}

} // verus!
