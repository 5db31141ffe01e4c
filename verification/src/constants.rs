pub mod cost_factors;
pub mod model_strings;
pub mod pdf_path;
