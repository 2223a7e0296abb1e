//! Provisioning of a dataflow in a flow-management engine from two RDF
//! graphs: an ontology that maps process and channel types to the engine's
//! types, and an instance graph that says which entities exist.
//!
//! The library holds the decisions: how rows of query results become typed
//! records (`sparql`), how records are grouped by entity (`aggregate`), how
//! entities are correlated with what the engine created (`correlation`),
//! how configuration is assembled (`provision`), and in which order the
//! engine is asked to do what (`logic`, `client`). It performs no input or
//! output: a run hands out one action at a time and takes back what came of
//! it.

pub mod aggregate;
pub mod client;
pub mod correlation;
pub mod filter;
pub mod logic;
pub mod models;
pub mod pairs;
pub mod provision;
pub mod queries;
pub mod rdf;
pub mod sparql;
pub mod template;
pub mod term;
pub mod turtle;
pub mod util;
