//! Load generation and crawling for a remote issue tracker: the decisions
//! behind every request, stated and proved.
//!
//! The crate holds what is computed: the requests of each endpoint, the
//! weighted sampler and the payloads built with it, the page cursor of a
//! crawl, and the statistics of a run. Sending a request and waiting for
//! its answer is left to the caller.

pub mod config;
pub mod crawl;
pub mod decimal;
pub mod error;
pub mod model;
pub mod outcome;
pub mod payload;
pub mod request;
pub mod run;
pub mod sampler;
pub mod stats;
pub mod text;
