//! Reading and writing the Haystack text formats.
pub mod parse;
pub mod write;
pub mod roundtrip;
pub mod date_roundtrip;
pub mod grid_roundtrip;
