//! Core logic of a desktop podcast client: feed validation and parsing,
//! reconciliation of fetched episodes against stored ones, durable playback
//! progress keyed by episode link, the playback state machine, and the
//! message bridge between the UI loop and the background worker.

pub mod bridge;
pub mod error;
pub mod feed;
pub mod reconcile;
pub mod session;
pub mod store;
pub mod text;
pub mod timefmt;
pub mod worker;
