//! Builds the metadata header that goes with an outgoing message, and writes
//! it as a compact JSON object.
//!
//! A [`Header`] collects recipients, substitutions, sections, categories,
//! custom arguments, filters and directives on sending, through builder
//! methods that can be chained. Its JSON form has a member for each field
//! that is neither empty nor absent. A [`Filter`] holds the settings of one
//! named filter.
//!
//! Every method has a contract over the mathematical view of the value it
//! works on: [`HeaderView`] for a header, a map of settings for a filter.
//! The JSON values and their text come from rustc-serialize; the `json`
//! module says what is taken on trust about it. The `laws` module holds
//! what follows for sequences of calls.

use vstd::prelude::*;

pub mod filter;
pub mod header;
pub mod header_view;
pub mod json;
pub mod laws;
pub mod string_map;
pub mod text;

pub use crate::filter::Filter;
pub use crate::header::Header;
pub use crate::header_view::HeaderView;
pub use crate::string_map::StringMap;
pub use crate::text::IntoText;

verus! {

/// The version of this library.
pub const VERSION: &'static str = "0.1.0";

} // verus!
