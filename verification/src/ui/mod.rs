pub mod apps;
pub mod input;
pub mod keyboard;
pub mod model;
pub mod text;
