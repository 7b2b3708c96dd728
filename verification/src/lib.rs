//! Knowledge-base documentation pipeline: a schema data model with strict
//! validation, and a family of renderers that turn one validated schema into
//! many output formats (notebooks, reference markdown, retrieval chunks,
//! site components, API specs, typeset documents), plus sitemap support.

use vstd::prelude::*;

pub mod apidocs;
pub mod article;
pub mod colab;
pub mod error;
pub mod generator;
pub mod json;
pub mod json_out;
pub mod jupyter;
pub mod latex;
pub mod llm_rag;
pub mod mdbook;
pub mod pinger;
pub mod schema;
pub mod sitemap;
pub mod text;
pub mod validation;
pub mod vue;

verus! {

} // verus!
