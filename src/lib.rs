//! A scheduled relay that pulls a metrics snapshot from a source endpoint and
//! forwards it, unchanged, to an aggregation endpoint.
//!
//! The library holds the configuration record and every decision of the
//! scrape and push loops; the program around it performs the network calls,
//! the sleeping and the queueing.
pub mod config;
pub mod pipeline;
