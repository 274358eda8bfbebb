pub mod errors;
pub mod latex_models;
