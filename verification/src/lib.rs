//! Graph write, dependency resolution and cache consistency for an indexer of
//! content objects that homeservers publish out of causal order.

pub mod alarm;
pub mod attendee;
pub mod cache;
pub mod calendar;
pub mod clock;
pub mod driver;
pub mod errors;
pub mod event;
pub mod graph;
pub mod handlers;
pub mod indexer;
pub mod ingest;
pub mod listing;
pub mod post;
pub mod query;
pub mod reference;
pub mod stream;
pub mod tag;
pub mod text;
pub mod value;
pub mod view;
