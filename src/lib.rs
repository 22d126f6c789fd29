//! Query resolution for a small catalogue of votable targets.
//!
//! The library decides what the store is asked for each field, turns the
//! rows it answers with into typed values, and classifies failures. Talking
//! to the store and to the network is left to the embedding program, which
//! hands the outcome of each store access back as a plain value.
pub mod model;
pub mod store;
pub mod query;
pub mod read_paths;
