pub mod book_source;
pub mod haccp_value;
pub mod ingredient;
pub mod oven_fan_value;
pub mod recipe;
pub mod recipe_request;
pub mod step;
pub mod temperature;
pub mod temperature_unit;
pub mod yields;
