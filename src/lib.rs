pub mod date;
pub mod file;
pub mod model;
pub mod path;
pub mod text;
