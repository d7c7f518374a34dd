//! Item tracking: the data model of notes, tasks and events, their stored
//! encoding, the partial-update merge, filtering, quick capture of free text,
//! and the service that keeps the records in an embedded key-value store.

pub mod capture;
pub mod codec;
pub mod filter;
pub mod gate;
pub mod json;
pub mod model;
pub mod service;
pub mod stamp;
pub mod store;
pub mod text;
