use vstd::prelude::*;

pub mod api;
pub mod base64;
pub mod client;
pub mod config;
pub mod crypto;
pub mod error;
pub mod json;
pub mod model;
pub mod schedule;
pub mod setup;
pub mod text;

verus! {

} // verus!
