//! Project Haystack value types, their Zinc, Trio and JSON encodings, a Zinc
//! reader, and the request bodies of the Haystack HTTP operations.
use vstd::prelude::*;

pub mod text;
pub mod common;
pub mod h_val;
pub mod h_null;
pub mod h_marker;
pub mod h_remove;
pub mod h_na;
pub mod h_bool;
pub mod h_number;
pub mod h_str;
pub mod h_xstr;
pub mod h_uri;
pub mod h_ref;
pub mod h_symbol;
pub mod h_date;
pub mod h_time;
pub mod h_datetime;
pub mod h_coord;
pub mod h_list;
pub mod h_dict;
pub mod h_grid;
pub mod io;
pub mod client;
pub mod token;

verus! {

/// The error of a writer (`std::fmt::Error`); writing to a `String` never fails.
#[verifier::external_type_specification]
#[verifier::external_body]
pub struct ExFmtError(core::fmt::Error);

/// The error of the `anyhow` crate (`anyhow::Error`).
#[verifier::external_type_specification]
#[verifier::external_body]
pub struct ExAnyhowError(anyhow::Error);

} // verus!
