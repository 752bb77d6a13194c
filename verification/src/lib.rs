//! Agentic Memory Protocol core library: the verified logic behind the memory
//! server (chunking, cache packing, file-log rendering, query building).
use vstd::prelude::*;

pub mod artifact_write;
pub mod artifacts;
pub mod cache;
pub mod chunking;
pub mod codebase;
pub mod connections;
pub mod digest;
pub mod embedding;
pub mod extraction;
pub mod filelog;
pub mod focus;
pub mod graph;
pub mod hybrid;
pub mod index_llm;
pub mod json;
pub mod lookup;
pub mod models;
pub mod objects;
pub mod parser;
pub mod query;
pub mod sample;
pub mod shortest;
pub mod sync;
pub mod text;

verus! {

} // verus!
