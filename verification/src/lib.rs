use vstd::prelude::*;

pub mod text;
pub mod html;
pub mod time;
pub mod ews_types;
pub mod models;
pub mod cache;
pub mod config;
pub mod xml;
pub mod ews;
pub mod soap;
pub mod skill;
pub mod graph;
pub mod backend;
pub mod sync;
pub mod cli;
pub mod service;

verus! {

} // verus!
