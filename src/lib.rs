//! Search resolution over a song / artist / album catalog: query building,
//! index response reading, batch hydration, consistency guard, post-filter and
//! result assembly.

pub mod api;
pub mod hydrate;
pub mod index;
pub mod json;
pub mod manticore;
pub mod models;
pub mod query;
pub mod results;
pub mod search;
pub mod telemetry;
pub mod text;
