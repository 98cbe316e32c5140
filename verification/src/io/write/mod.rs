//! Writers of the Zinc, Trio and JSON texts.
pub mod zinc;
pub mod trio;
pub mod json;
