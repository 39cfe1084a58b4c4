pub mod add_recipe;
pub mod codec;
pub mod document;
pub mod identifier;
pub mod laws;
pub mod mapping;
pub mod models;
pub mod navigation;
pub mod quantity;
pub mod recipe_list;
pub mod recipe_page;
pub mod repository;
pub mod text;
