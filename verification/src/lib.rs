//! A compiler from relational query plans to streaming dataflow programs,
//! together with the catalog it resolves names against and the MQTT
//! connector's option handling.

pub mod catalog;
pub mod error;
pub mod expressions;
pub mod mqtt;
pub mod options;
pub mod pipeline;
pub mod plan;
pub mod plan_graph;
pub mod resolve;
pub mod program;
pub mod statement;
pub mod tables;
pub mod testing;
pub mod text;
pub mod types;
pub mod udf;
