//! Client library for a market-data web API: validated query parameter sets,
//! a two-state connection object, and CSV-to-table decoding.
use vstd::prelude::*;

pub mod client;
pub mod csv;
pub mod error;
pub mod http;
pub mod numfmt;
pub mod params;
pub mod query;
pub mod strutil;
pub mod table;
pub mod vocab;

verus! {

} // verus!
