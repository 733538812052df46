pub mod errors;
pub mod json;
pub mod laws;
pub mod price;
pub mod providers;
pub mod text;
