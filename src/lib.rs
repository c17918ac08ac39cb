//! Ingestion of a live feed of chain transactions into a store of NFTs,
//! collections, listings, activity and per-action outcome traces.
pub mod auction;
pub mod classify;
pub mod codec;
pub mod handlers;
pub mod json;
pub mod lookup;
pub mod message;
pub mod pipeline;
pub mod stats;
pub mod store;
pub mod subscribe;
