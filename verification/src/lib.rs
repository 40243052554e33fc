//! Verified core of a remote object-storage layer: a logical file API backed
//! by a remote blob store and a local on-disk mirror of transferred objects.
//!
//! This crate holds the decision and path logic of that layer — key mapping,
//! credential resolution, listing-page collection, and the transition rules
//! that keep the mirror atomic — each with a proved contract. The surrounding
//! async I/O (the remote client, the filesystem calls) lives outside, driven
//! by the plans these functions return.

pub mod auth;
pub mod credentials;
pub mod error;
pub mod listing;
pub mod model;
pub mod paths;
pub mod remotefs;

pub use error::RemoteFsError;
pub use remotefs::GCSRemoteFs;
